use pee5::commands::imagine::{image_record, record_line, too_soon};
use pee5::commands::moderation::{run_blacklist_word, run_remove_blacklisted_word};
use pee5::config::{GuildConfig, Plugins};
use pee5::handler::follow_up;
use pee5::number::{parse_i64, parse_u64};
use pee5::plugins::afk::run_afk;
use pee5::plugins::config::{parse_config_command, run_config_command, ConfigCommand};
use pee5::plugins::logging::log_target;
use pee5::plugins::xp::{award_xp, xp_gain, User};
use pee5::text::{channel_mention, chars_of, decimal_string};

#[test]
fn mentioning_a_channel_sets_that_channel() {
    for n in [0u64, 7, 1087464844288069722, u64::MAX] {
        let content = format!("!config set log_channel {}", channel_mention(n));
        assert_eq!(
            parse_config_command(&content),
            ConfigCommand::SetLogChannel { channel: n, argument: n.to_string() }
        );
    }
}

#[test]
fn log_follows_config() {
    let mut c = GuildConfig::new(3);
    run_config_command(&mut c, "!config set log_channel <#44>");
    assert_eq!(log_target(&c, &vec![1, 44, 2]), Some(44));
    assert_eq!(log_target(&c, &vec![1, 2]), None);
}

#[test]
fn decimal_round_trip() {
    for n in [0u64, 9, 10, 12345, i64::MAX as u64, u64::MAX] {
        let d = decimal_string(n);
        assert_eq!(parse_u64(&chars_of(&d)), Some(n));
        if n <= i64::MAX as u64 {
            assert_eq!(parse_i64(&chars_of(&d)), Some(n as i64));
        }
    }
}

#[test]
fn cooldown_from_stored_time() {
    let stored = decimal_string(1_000);
    assert_eq!(too_soon(1_029, false, &stored), Some(true));
    assert_eq!(too_soon(1_030, false, &stored), Some(false));
    assert_eq!(too_soon(1_000, false, &stored), Some(true));
}

#[test]
fn record_round_trip() {
    let r = image_record("a red fox", "https://img/1.png");
    assert_eq!(record_line(&r, 0), Some("a red fox".to_string()));
    assert_eq!(record_line(&r, 1), Some("https://img/1.png".to_string()));
    assert_eq!(record_line(&r, 2), None);
}

#[test]
fn speaking_ends_afk() {
    let mut c = GuildConfig::new(1);
    c.set_afk(8, "out".to_string());
    let out = run_afk(&mut c, 8, &vec![]);
    assert!(out.author_returned);
    assert!(c.get_afk().is_empty());
}

#[test]
fn notices_only_for_away_mentions() {
    let mut c = GuildConfig::new(1);
    c.set_afk(2, "x".to_string());
    let out = run_afk(&mut c, 9, &vec![1, 2, 3]);
    assert_eq!(out.notices, vec![(2, "x".to_string())]);
}

#[test]
fn removed_word_is_gone_and_others_stay() {
    let mut c = GuildConfig::new(1);
    run_blacklist_word(&mut c, "a");
    run_blacklist_word(&mut c, "b");
    run_blacklist_word(&mut c, "a");
    run_blacklist_word(&mut c, "c");
    run_remove_blacklisted_word(&mut c, "a");
    assert_eq!(c.get_blacklisted_words(), &vec!["b".to_string(), "c".to_string()]);
    run_remove_blacklisted_word(&mut c, "a");
    assert_eq!(c.get_blacklisted_words(), &vec!["b".to_string(), "c".to_string()]);
}

#[test]
fn gain_counts_spaces() {
    assert_eq!(xp_gain("a b c"), 30);
    assert_eq!(xp_gain("   "), 40);
}

#[test]
fn stored_user_level_is_xp_over_hundred() {
    let u = award_xp(Some(User { id: 1, xp: 190, level: 0 }), 2, 30);
    assert_eq!(u.xp, 220);
    assert_eq!(u.level, 2);
    assert_eq!(u.id, 1);
    let fresh = award_xp(None, 2, 100);
    assert_eq!(fresh.level, 0);
}

#[test]
fn deleted_message_is_inert() {
    let all = vec![Plugins::Xp, Plugins::Afk, Plugins::Chat];
    let plan = follow_up(&all, true, true);
    assert!(!plan.award_xp && !plan.check_afk && !plan.chat);
}
