use pee5::config::GuildConfig;
use pee5::plugins::activity::{parse_activity, ActivityKind};
use pee5::plugins::afk::{afk_notice_text, run_afk, run_afk_command};
use pee5::plugins::automod::{blacklist_pattern, should_moderate};
use pee5::plugins::chat::{
    compose_rename_error, rename_usage_error, chat_command, chat_context, is_chat_channel, rename_target, without_channel, ChatCommand,
};
use pee5::plugins::logging::{log_footer, log_target};
use pee5::plugins::xp::{award_xp, level_of, level_reply, xp_gain, xp_of, xp_reply, User};

#[test]
fn xp_gain_counts_space_separated_pieces() {
    assert_eq!(xp_gain("hello world"), 20);
    assert_eq!(xp_gain(""), 10);
    assert_eq!(xp_gain("a  b"), 30);
    assert_eq!(xp_gain("one\ttwo"), 10);
}

#[test]
fn award_xp_updates_or_creates() {
    let u = award_xp(Some(User { id: 3, xp: 95, level: 0 }), 9, 20);
    assert_eq!(u, User { id: 3, xp: 115, level: 1 });
    let fresh = award_xp(None, 9, 120);
    assert_eq!(fresh, User { id: 9, xp: 120, level: 0 });
    assert_eq!(level_of(Some(u)), 1);
    assert_eq!(level_of(None), 0);
    assert_eq!(xp_of(Some(u)), 115);
    assert_eq!(xp_of(None), 0);
    assert_eq!(level_reply(12, 3), "<@12> is level 3");
    assert_eq!(xp_reply(12, 250), "<@12> has 250 xp");
}

#[test]
fn afk_plugin_announces_then_clears() {
    let mut c = GuildConfig::new(1);
    let reply = run_afk_command(&mut c, 5, "brb");
    assert_eq!(reply, "<@5> Set your AFK status to: brb");
    run_afk_command(&mut c, 6, "gone");
    let out = run_afk(&mut c, 5, &vec![6, 5]);
    assert_eq!(out.notices, vec![(6, "gone".to_string()), (5, "brb".to_string())]);
    assert!(out.author_returned);
    assert!(c.get_afk().get(&5).is_none());
    let again = run_afk(&mut c, 5, &vec![]);
    assert!(!again.author_returned);
    assert_eq!(afk_notice_text(6, "gone"), "<@6> is afk: gone");
}

#[test]
fn automod_pattern_and_matching() {
    let words = vec!["bad".to_string(), "evil".to_string()];
    assert_eq!(blacklist_pattern(&words), r"(?i)\b(bad|evil)\b");
    let mut c = GuildConfig::new(1);
    c.blacklist_word("bad".to_string());
    assert_eq!(should_moderate(&c, "this is BAD"), Some(true));
    assert_eq!(should_moderate(&c, "badge of honour"), Some(false));
    c.blacklist_word("(".to_string());
    assert_eq!(should_moderate(&c, "anything"), None);
}

#[test]
fn automod_empty_list_matches_word_boundaries() {
    let c = GuildConfig::new(1);
    assert_eq!(blacklist_pattern(c.get_blacklisted_words()), r"(?i)\b()\b");
    assert_eq!(should_moderate(&c, "hello"), Some(true));
    assert_eq!(should_moderate(&c, "!!"), Some(false));
}

#[test]
fn chat_commands() {
    assert_eq!(chat_command("!end", true), ChatCommand::End);
    assert_eq!(chat_command("!rename cool", true), ChatCommand::Rename);
    assert_eq!(chat_command("!clear now", true), ChatCommand::Clear);
    assert_eq!(chat_command("!endless talk", true), ChatCommand::Converse);
    assert_eq!(chat_command("!end", false), ChatCommand::Converse);
    assert_eq!(chat_command("hello", true), ChatCommand::Converse);
    assert_eq!(rename_target("!rename cool-channel extra"), Some("cool-channel".to_string()));
    assert_eq!(rename_target("!rename"), None);
}

#[test]
fn chat_context_layout() {
    let h = vec![("ann".to_string(), "hi".to_string()), ("bob".to_string(), "yo".to_string())];
    assert_eq!(
        chat_context(&h),
        "Author: ann\nContent: hi \n\nAuthor: bob\nContent: yo \n\n# Only include the content of your response, not the author, or \"Content:\" label."
    );
}

#[test]
fn chat_channel_list() {
    assert!(is_chat_channel("111222", 222));
    assert!(!is_chat_channel("111", 222));
    assert_eq!(without_channel("111222111", 111), "222");
    assert_eq!(without_channel("1121233", 123), "1123");
}

#[test]
fn activity_owner_only() {
    let r = parse_activity(853618501445222420, "!activity playing  a  fun game ").unwrap();
    assert_eq!(r.kind, ActivityKind::Playing);
    assert_eq!(r.text, "a fun game");
    assert!(parse_activity(1, "!activity playing x").is_none());
    assert!(parse_activity(853618501445222420, "!activity dancing x").is_none());
    assert!(parse_activity(853618501445222420, "!activity").is_none());
    let s = parse_activity(853618501445222420, "!activity streaming").unwrap();
    assert_eq!(s.kind, ActivityKind::Streaming);
    assert_eq!(s.text, "");
}

#[test]
fn logging_target_and_footer() {
    let mut c = GuildConfig::new(1);
    assert_eq!(log_target(&c, &vec![5, 6]), None);
    c.set_log_channel(6);
    assert_eq!(log_target(&c, &vec![5, 6]), Some(6));
    assert_eq!(log_target(&c, &vec![5]), None);
    assert_eq!(log_footer(1, 22, 333), "User ID: 1 | Message ID: 22 | Channel ID: 333");
}

#[test]
fn rename_error_layout() {
    let plain = compose_rename_error("!rename", "error", "|", "__", "^^", "expected a name", "= help");
    assert_eq!(
        plain,
        "```ansi\nerror: No name provided\n\n    | !rename __\n    |         ^^ expected a name\n\n    = help: use !rename <name> to rename the channel (eg. !rename cool-channel)```"
    );
    let styled = compose_rename_error(
        "!rename",
        "\u{1b}[1;31merror\u{1b}[0m",
        "\u{1b}[1m|\u{1b}[0m",
        "\u{1b}[1;31m__\u{1b}[0m",
        "\u{1b}[1;31m^^\u{1b}[0m",
        "\u{1b}[1;31mexpected a name\u{1b}[0m",
        "\u{1b}[1m= help\u{1b}[0m",
    );
    let got = rename_usage_error("!rename");
    assert!(got == plain || got == styled, "{:?}", got);
}
