use pee5::commands::download_video::is_youtube_url;
use pee5::commands::imagine::{image_record, record_line, record_name, too_soon};
use pee5::commands::moderation::{run_automod, run_blacklist_word, run_remove_blacklisted_word};
use pee5::config::{GuildConfig, Plugins};
use pee5::handler::{
    chat_list_path, component_action, follow_up, guild_config_path, route_message, slash_command,
    warn_folder, ComponentAction, FollowUp, MessageRoute, SlashCommand,
};
use pee5::number::{parse_i64, parse_u64};
use pee5::text::{chars_of, decimal_string};

#[test]
fn slash_command_names() {
    assert_eq!(slash_command("echo"), Some(SlashCommand::Echo));
    assert_eq!(slash_command("remove_blacklisted_word"), Some(SlashCommand::RemoveBlacklistedWord));
    assert_eq!(slash_command("download_video"), Some(SlashCommand::DownloadVideo));
    assert_eq!(slash_command("warns"), Some(SlashCommand::Warns));
    assert_eq!(slash_command("level"), None);
    assert_eq!(slash_command("Echo"), None);
    assert_eq!(component_action("imagine_retry"), Some(ComponentAction::ImagineRetry));
    assert_eq!(component_action("imagine_save"), Some(ComponentAction::ImagineSave));
    assert_eq!(component_action("reset_yes"), None);
}

#[test]
fn message_routing() {
    assert_eq!(route_message(true, true, "!config"), MessageRoute::Ignore);
    assert_eq!(route_message(false, false, "hi"), MessageRoute::DirectMessage);
    assert_eq!(route_message(false, true, "!config set"), MessageRoute::ConfigCommand);
    assert_eq!(route_message(false, true, "hi"), MessageRoute::Plugins);
    let plugins = vec![Plugins::Xp, Plugins::Chat];
    assert_eq!(
        follow_up(&plugins, false, true),
        FollowUp { award_xp: true, check_afk: false, chat: true }
    );
    assert_eq!(
        follow_up(&plugins, false, false),
        FollowUp { award_xp: true, check_afk: false, chat: false }
    );
    assert_eq!(
        follow_up(&plugins, true, true),
        FollowUp { award_xp: false, check_afk: false, chat: false }
    );
}

#[test]
fn storage_paths() {
    assert_eq!(guild_config_path(42), "guilds/42.json");
    assert_eq!(chat_list_path(42), "guilds/chats/42");
    assert_eq!(warn_folder(1, 2), "guilds/warns/1/2/");
}

#[test]
fn moderation_commands() {
    let mut c = GuildConfig::new(1);
    assert_eq!(run_blacklist_word(&mut c, "bad"), "The word \"bad\" has been blacklisted.");
    assert_eq!(c.get_blacklisted_words(), &vec!["bad".to_string()]);
    assert_eq!(
        run_remove_blacklisted_word(&mut c, "bad"),
        "The word \"bad\" has been removed from blacklist."
    );
    assert!(c.get_blacklisted_words().is_empty());
    assert_eq!(run_automod(&mut c, false), "Automod has been enabled.");
    assert!(!c.get_automod());
    run_automod(&mut c, true);
    assert!(c.get_automod());
}

#[test]
fn imagine_cooldown() {
    assert_eq!(too_soon(100, true, "junk"), Some(false));
    assert_eq!(too_soon(100, false, "80"), Some(true));
    assert_eq!(too_soon(100, false, "70"), Some(false));
    assert_eq!(too_soon(100, false, "\0\09\05"), Some(true));
    assert_eq!(too_soon(100, false, "x"), None);
    assert_eq!(too_soon(i64::MIN, false, "1"), None);
    assert_eq!(too_soon(0, false, "-29"), Some(true));
}

#[test]
fn imagine_records() {
    let r = image_record("a cat", "https://x/y.png");
    assert_eq!(r, "a cat\nhttps://x/y.png");
    assert_eq!(record_line(&r, 0), Some("a cat".to_string()));
    assert_eq!(record_line(&r, 1), Some("https://x/y.png".to_string()));
    assert_eq!(record_line(&r, 2), None);
    assert_eq!(record_line("only", 1), None);
    assert_eq!(record_name(&vec![1, 22, 333, 4]), "tmp/1:22:333:4");
    assert_eq!(record_name(&vec![1, 22, 333]), "tmp/1:22:333");
}

#[test]
fn youtube_links() {
    assert!(is_youtube_url("https://youtu.be/abc"));
    assert!(is_youtube_url("https://youtube.com/watch?v=1"));
    assert!(!is_youtube_url("http://youtu.be/abc"));
    assert!(!is_youtube_url("https://vimeo.com/1"));
}

#[test]
fn numbers_parse_like_std() {
    for s in ["0", "+7", "007", "18446744073709551615", "18446744073709551616", "", "+", "-1", "1a", " 1"] {
        assert_eq!(parse_u64(&chars_of(s)), s.parse::<u64>().ok(), "{}", s);
    }
    for s in ["0", "-7", "+7", "9223372036854775807", "9223372036854775808", "-9223372036854775808", "-9223372036854775809", "-", "--1", ""] {
        assert_eq!(parse_i64(&chars_of(s)), s.parse::<i64>().ok(), "{}", s);
    }
    assert_eq!(decimal_string(0), "0");
    assert_eq!(decimal_string(u64::MAX), u64::MAX.to_string());
}
