use pee5::config::GuildConfig;
use pee5::plugins::config::{
    config_reply, error_block, error_line, parse_config_command, permission_denied_reply,
    run_config_command, ConfigCommand,
};

#[test]
fn config_help_when_too_short() {
    assert_eq!(parse_config_command("!config"), ConfigCommand::Help);
    assert_eq!(parse_config_command("!config set"), ConfigCommand::Help);
}

#[test]
fn config_unknown_keyword_and_key() {
    assert_eq!(
        parse_config_command("!config enable"),
        ConfigCommand::InvalidCommand { command: "enable".to_string() }
    );
    assert_eq!(
        parse_config_command("!config set prefix"),
        ConfigCommand::InvalidKey { key: "prefix".to_string() }
    );
    assert_eq!(
        parse_config_command("!config  set"),
        ConfigCommand::InvalidCommand { command: "".to_string() }
    );
}

#[test]
fn config_channel_argument() {
    assert_eq!(
        parse_config_command("!config set log_channel"),
        ConfigCommand::MissingChannel
    );
    assert_eq!(
        parse_config_command("!config set log_channel <#123>"),
        ConfigCommand::SetLogChannel { channel: 123, argument: "123".to_string() }
    );
    assert_eq!(
        parse_config_command("!config set log_channel #+45"),
        ConfigCommand::SetLogChannel { channel: 45, argument: "+45".to_string() }
    );
    assert_eq!(
        parse_config_command("!config set log_channel <#abc>"),
        ConfigCommand::InvalidChannel { argument: "abc".to_string() }
    );
    assert_eq!(
        parse_config_command("!config set log_channel <#18446744073709551616>"),
        ConfigCommand::InvalidChannel { argument: "18446744073709551616".to_string() }
    );
    assert_eq!(
        parse_config_command("!config set log_channel 18446744073709551615"),
        ConfigCommand::SetLogChannel {
            channel: 18446744073709551615,
            argument: "18446744073709551615".to_string()
        }
    );
    assert_eq!(
        parse_config_command("!config set log_channel <#-1>"),
        ConfigCommand::InvalidChannel { argument: "-1".to_string() }
    );
}

#[test]
fn error_blocks_underline_bytes() {
    assert_eq!(error_line("oops"), "```\nerror: oops\n\n");
    assert_eq!(
        error_block("!config", "abc", "Invalid command", "expected a valid command"),
        "```\nerror: Invalid command\n\n    | !config abc\n    |         ^^^ expected a valid command\n```"
    );
    let r = error_block("!c", "é", "m", "e");
    assert!(r.ends_with("    |    ^^ e\n```"));
}

#[test]
fn config_replies() {
    assert_eq!(
        config_reply(&ConfigCommand::SetLogChannel { channel: 5, argument: "5".to_string() }),
        "Set `log_channel` to <#5>"
    );
    assert_eq!(
        config_reply(&ConfigCommand::MissingChannel),
        format!(
            "```\nerror: Missing argument\n\n    | !config set log_channel __\n    | {} ^^ expected a channel mention\n```",
            " ".repeat(23)
        )
    );
    assert!(config_reply(&ConfigCommand::Help).starts_with("**!config [KEYWORD] [ARGUMENTS]**"));
    assert_eq!(
        permission_denied_reply(),
        "```\nerror: You do not have permission to use this command```\n\n"
    );
}

#[test]
fn config_command_sets_log_channel() {
    let mut c = GuildConfig::new(1);
    let (reply, changed) = run_config_command(&mut c, "!config set log_channel <#777>");
    assert!(changed);
    assert_eq!(reply, "Set `log_channel` to <#777>");
    assert_eq!(c.get_log_channel_id(), Some(777));
    let (_, changed) = run_config_command(&mut c, "!config set log_channel nope");
    assert!(!changed);
    assert_eq!(c.get_log_channel_id(), Some(777));
}
