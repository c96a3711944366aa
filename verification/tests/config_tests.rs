use pee5::config::{GuildConfig, IsPlugin, Plugins};
use std::collections::HashMap;

#[test]
fn plugin_names() {
    assert_eq!(Plugins::Afk.to_str(), "Afk");
    assert_eq!(Plugins::Automod.to_str(), "Automod");
    assert_eq!(Plugins::Chat.to_str(), "Chat");
    assert_eq!(Plugins::Logging.to_str(), "Logging");
    assert_eq!(Plugins::Xp.to_str(), "Xp");
}

#[test]
fn plugin_shorthands() {
    let list = vec![Plugins::Xp, Plugins::Logging];
    assert!(list.xp());
    assert!(list.logging());
    assert!(!list.afk());
    assert!(!list.automod());
    assert!(!list.chat());
    let empty: Vec<Plugins> = Vec::new();
    assert!(!empty.xp());
}

#[test]
fn new_config_is_empty() {
    let c = GuildConfig::new(42);
    assert_eq!(c.get_id(), 42);
    assert!(!c.get_automod());
    assert!(c.get_blacklisted_words().is_empty());
    assert_eq!(c.get_log_channel_id(), None);
    assert!(c.get_users().is_empty());
    assert!(c.get_afk().is_empty());
    assert!(c.get_plugins().is_empty());
}

#[test]
fn track_user_starts_at_zero_and_keeps_counts() {
    let mut c = GuildConfig::new(1);
    c.track_user(7);
    assert_eq!(c.get_users().get(&7), Some(&0));
    *c.get_users_mut().get_mut(&7).unwrap() = 5;
    c.track_user(7);
    assert_eq!(c.get_users().get(&7), Some(&5));
    assert_eq!(c.get_users().len(), 1);
}

#[test]
fn afk_set_notice_and_clear() {
    let mut c = GuildConfig::new(1);
    c.set_afk(10, "lunch".to_string());
    c.set_afk(20, "sleep".to_string());
    let notices = c.afk_notices(&vec![20, 30, 10, 20]);
    assert_eq!(
        notices,
        vec![
            (20, "sleep".to_string()),
            (10, "lunch".to_string()),
            (20, "sleep".to_string())
        ]
    );
    assert!(c.clear_afk(10));
    assert!(!c.clear_afk(10));
    assert!(c.get_afk().get(&10).is_none());
    assert_eq!(c.get_afk().get(&20), Some(&"sleep".to_string()));
}

#[test]
fn blacklist_then_remove_keeps_other_words() {
    let mut c = GuildConfig::new(1);
    c.blacklist_word("bad".to_string());
    c.blacklist_word("worse".to_string());
    c.blacklist_word("bad".to_string());
    assert_eq!(c.get_blacklisted_words().len(), 3);
    c.remove_blacklisted_word("bad");
    assert_eq!(c.get_blacklisted_words(), &vec!["worse".to_string()]);
    c.remove_blacklisted_word("bad");
    assert_eq!(c.get_blacklisted_words(), &vec!["worse".to_string()]);
}

#[test]
fn setters_and_mut_getters() {
    let mut c = GuildConfig::new(1);
    c.set_automod(true);
    assert!(c.get_automod());
    *c.get_automod_mut() = false;
    assert!(!c.get_automod());
    c.set_log_channel(99);
    assert_eq!(c.get_log_channel_id(), Some(99));
    *c.get_log_channel_id_mut() = None;
    assert_eq!(c.get_log_channel_id(), None);
    c.get_plugins_mut().push(Plugins::Chat);
    assert!(c.get_plugins().chat());
    c.get_blacklisted_words_mut().push("x".to_string());
    assert_eq!(c.get_blacklisted_words().len(), 1);
    c.get_afk_mut().insert(3, "away".to_string());
    assert_eq!(c.get_afk().get(&3), Some(&"away".to_string()));
}

#[test]
fn from_parts_keeps_everything() {
    let mut users = HashMap::new();
    users.insert(5u64, 12usize);
    let mut afk = HashMap::new();
    afk.insert(6u64, "gone".to_string());
    let c = GuildConfig::from_parts(
        true,
        vec!["a".to_string()],
        77,
        Some(8),
        users,
        afk,
        vec![Plugins::Afk],
    );
    assert!(c.get_automod());
    assert_eq!(c.get_blacklisted_words(), &vec!["a".to_string()]);
    assert_eq!(c.get_id(), 77);
    assert_eq!(c.get_log_channel_id(), Some(8));
    assert_eq!(c.get_users().get(&5), Some(&12));
    assert_eq!(c.get_afk().get(&6), Some(&"gone".to_string()));
    assert_eq!(c.get_plugins(), &vec![Plugins::Afk]);
}
