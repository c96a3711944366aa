//! The `!config` text command: parsing, its effect on the guild
//! configuration, and the replies it gives (including the caret-underlined
//! error blocks).
use vstd::prelude::*;
use vstd::utf8::encode_utf8;

use crate::config::{GuildConfig, GuildConfigModel};
use crate::number::{parse_u64, parse_u64_spec, is_digit, lemma_decimal_digits, law_decimal_round_trip};
use crate::text::{
    chars_eq_str, chars_of, remove_chars, remove_chars_exec, repeat_char, repeat_exec, split_exec,
    split_on, string_of, char_vec_views, channel_mention_spec, decimal, lemma_split_without_sep,
    lemma_split_append_sep, lemma_remove_chars_concat, lemma_remove_chars_absent,
};

verus! {

/// What a `!config` message asks for.
#[derive(Debug, PartialEq, Eq)]
pub enum ConfigCommand {
    /// Too few words: show the usage text.
    Help,
    /// The second word is not a known keyword.
    InvalidCommand { command: String },
    /// `set` with a key other than `log_channel`.
    InvalidKey { key: String },
    /// `set log_channel` with nothing after it.
    MissingChannel,
    /// `set log_channel` with something that is not a channel id.
    InvalidChannel { argument: String },
    /// `set log_channel` with a channel id; `argument` is the id as written.
    SetLogChannel { channel: u64, argument: String },
}

/// The abstract form of a [`ConfigCommand`].
pub enum ConfigRequest {
    Help,
    InvalidCommand(Seq<char>),
    InvalidKey(Seq<char>),
    MissingChannel,
    InvalidChannel(Seq<char>),
    SetLogChannel(u64, Seq<char>),
}

impl View for ConfigCommand {
    type V = ConfigRequest;

    open spec fn view(&self) -> ConfigRequest {
        match self {
            ConfigCommand::Help => ConfigRequest::Help,
            ConfigCommand::InvalidCommand { command } => ConfigRequest::InvalidCommand(command@),
            ConfigCommand::InvalidKey { key } => ConfigRequest::InvalidKey(key@),
            ConfigCommand::MissingChannel => ConfigRequest::MissingChannel,
            ConfigCommand::InvalidChannel { argument } => ConfigRequest::InvalidChannel(argument@),
            ConfigCommand::SetLogChannel { channel, argument } => ConfigRequest::SetLogChannel(
                *channel,
                argument@,
            ),
        }
    }
}

/// The characters stripped from a channel mention such as `<#123>`.
pub open spec fn mention_marks() -> Seq<char> {
    seq!['<', '>', '#']
}

/// How a `!config` message is read: its words are the pieces between single
/// spaces; the second word is the keyword, the third the key, the fourth the
/// channel mention, from which `<`, `>` and `#` are dropped before the rest
/// is read as a number.
pub open spec fn config_request(s: Seq<char>) -> ConfigRequest {
    let args = split_on(s, ' ');
    if args.len() < 2 {
        ConfigRequest::Help
    } else if args[1] != "set"@ {
        ConfigRequest::InvalidCommand(args[1])
    } else if args.len() < 3 {
        ConfigRequest::Help
    } else if args[2] != "log_channel"@ {
        ConfigRequest::InvalidKey(args[2])
    } else if args.len() < 4 {
        ConfigRequest::MissingChannel
    } else {
        let a = remove_chars(args[3], mention_marks());
        match parse_u64_spec(a) {
            Some(n) => ConfigRequest::SetLogChannel(n, a),
            None => ConfigRequest::InvalidChannel(a),
        }
    }
}

/// Reads a `!config` message.
pub fn parse_config_command(content: &str) -> (c: ConfigCommand)
    ensures
        c@ == config_request(content@),
{
    let chars = chars_of(content);
    let args = split_exec(&chars, ' ');
    proof {
        assert(char_vec_views(args@).len() == args@.len());
    }
    if args.len() < 2 {
        return ConfigCommand::Help;
    }
    assert(char_vec_views(args@)[1] == args@[1]@);
    if !chars_eq_str(&args[1], "set") {
        return ConfigCommand::InvalidCommand { command: string_of(&args[1]) };
    }
    if args.len() < 3 {
        return ConfigCommand::Help;
    }
    assert(char_vec_views(args@)[2] == args@[2]@);
    if !chars_eq_str(&args[2], "log_channel") {
        return ConfigCommand::InvalidKey { key: string_of(&args[2]) };
    }
    if args.len() < 4 {
        return ConfigCommand::MissingChannel;
    }
    assert(char_vec_views(args@)[3] == args@[3]@);
    let marks = chars_of("<>#");
    proof {
        reveal_strlit("<>#");
        assert(marks@ =~= mention_marks());
    }
    let stripped = remove_chars_exec(&args[3], &marks);
    let argument = string_of(&stripped);
    match parse_u64(&stripped) {
        Some(channel) => ConfigCommand::SetLogChannel { channel, argument },
        None => ConfigCommand::InvalidChannel { argument },
    }
}

/// The number of bytes in the UTF-8 encoding of `s`, as `str::len` gives it.
pub open spec fn byte_len(s: Seq<char>) -> nat {
    (encode_utf8(s).len() as usize) as nat
}

/// The first line of an error reply.
pub open spec fn error_line_spec(msg: Seq<char>) -> Seq<char> {
    "```\nerror: "@ + msg + "\n\n"@
}

/// An error reply that repeats the command with its argument and underlines
/// the argument with carets, one per byte, followed by an explanation.
pub open spec fn error_block_spec(
    command: Seq<char>,
    argument: Seq<char>,
    msg: Seq<char>,
    explanation: Seq<char>,
) -> Seq<char> {
    error_line_spec(msg) + "    | "@ + command + " "@ + argument + "\n"@ + "    | "@ + repeat_char(
        ' ',
        byte_len(command),
    ) + " "@ + repeat_char('^', byte_len(argument)) + " "@ + explanation + "\n```"@
}

/// The first line of an error reply.
pub fn error_line(msg: &str) -> (r: String)
    ensures
        r@ == error_line_spec(msg@),
{
    let mut r = String::from_str("```\nerror: ");
    r.append(msg);
    r.append("\n\n");
    r
}

/// An error reply that repeats the command with its argument and underlines
/// the argument with carets.
pub fn error_block(command: &str, argument: &str, msg: &str, explanation: &str) -> (r: String)
    ensures
        r@ == error_block_spec(command@, argument@, msg@, explanation@),
{
    let mut r = error_line(msg);
    r.append("    | ");
    r.append(command);
    r.append(" ");
    r.append(argument);
    r.append("\n");
    r.append("    | ");
    let spaces = repeat_exec(' ', command.len());
    r.append(spaces.as_str());
    r.append(" ");
    let arrows = repeat_exec('^', argument.len());
    r.append(arrows.as_str());
    r.append(" ");
    r.append(explanation);
    r.append("\n```");
    r
}

/// The usage text of `!config`.
pub open spec fn config_help_spec() -> Seq<char> {
    "**!config [KEYWORD] [ARGUMENTS]**\n    \n**Keywords:**\n    `set` - Sets a config value\n\n**Arguments:**\n    `log_channel` - Sets the log channel\n    \n    **Example:**\n        `!config set log_channel #general`"@
}

/// The reply to a `!config` request.
pub open spec fn config_reply_spec(r: ConfigRequest) -> Seq<char> {
    match r {
        ConfigRequest::Help => config_help_spec(),
        ConfigRequest::InvalidCommand(c) => error_block_spec(
            "!config"@,
            c,
            "Invalid command"@,
            "expected a valid command"@,
        ),
        ConfigRequest::InvalidKey(k) => error_block_spec(
            "!config set"@,
            k,
            "Invalid argument"@,
            "expected a valid argument"@,
        ),
        ConfigRequest::MissingChannel => error_block_spec(
            "!config set log_channel"@,
            "__"@,
            "Missing argument"@,
            "expected a channel mention"@,
        ),
        ConfigRequest::InvalidChannel(a) => error_block_spec(
            "!config set log_channel"@,
            a,
            "Invalid argument"@,
            "expected a channel mention"@,
        ),
        ConfigRequest::SetLogChannel(_, a) => "Set `log_channel` to <#"@ + a + ">"@,
    }
}

/// The reply to a `!config` request.
pub fn config_reply(c: &ConfigCommand) -> (r: String)
    ensures
        r@ == config_reply_spec(c@),
{
    match c {
        ConfigCommand::Help => String::from_str(
            "**!config [KEYWORD] [ARGUMENTS]**\n    \n**Keywords:**\n    `set` - Sets a config value\n\n**Arguments:**\n    `log_channel` - Sets the log channel\n    \n    **Example:**\n        `!config set log_channel #general`",
        ),
        ConfigCommand::InvalidCommand { command } => error_block(
            "!config",
            command.as_str(),
            "Invalid command",
            "expected a valid command",
        ),
        ConfigCommand::InvalidKey { key } => error_block(
            "!config set",
            key.as_str(),
            "Invalid argument",
            "expected a valid argument",
        ),
        ConfigCommand::MissingChannel => error_block(
            "!config set log_channel",
            "__",
            "Missing argument",
            "expected a channel mention",
        ),
        ConfigCommand::InvalidChannel { argument } => error_block(
            "!config set log_channel",
            argument.as_str(),
            "Invalid argument",
            "expected a channel mention",
        ),
        ConfigCommand::SetLogChannel { channel: _, argument } => {
            let mut r = String::from_str("Set `log_channel` to <#");
            r.append(argument.as_str());
            r.append(">");
            r
        },
    }
}

/// The reply given to a member who may not manage the guild.
pub open spec fn permission_denied_spec() -> Seq<char> {
    error_line_spec("You do not have permission to use this command```"@)
}

/// The reply given to a member who may not manage the guild.
pub fn permission_denied_reply() -> (r: String)
    ensures
        r@ == permission_denied_spec(),
{
    error_line("You do not have permission to use this command```")
}

/// The configuration after a `!config` request: only setting the log
/// channel changes anything.
pub open spec fn config_after(c: GuildConfigModel, r: ConfigRequest) -> GuildConfigModel {
    match r {
        ConfigRequest::SetLogChannel(n, _) => GuildConfigModel { log_channel_id: Some(n), ..c },
        _ => c,
    }
}

/// Carries out a `!config` message from a member allowed to manage the
/// guild: returns the reply and whether the configuration changed (and must
/// be saved).
pub fn run_config_command(config: &mut GuildConfig, content: &str) -> (r: (String, bool))
    ensures
        r.0@ == config_reply_spec(config_request(content@)),
        r.1 == (config_request(content@) is SetLogChannel),
        final(config)@ == config_after(old(config)@, config_request(content@)),
{
    let command = parse_config_command(content);
    let reply = config_reply(&command);
    match command {
        ConfigCommand::SetLogChannel { channel, argument: _ } => {
            config.set_log_channel(channel);
            (reply, true)
        },
        _ => (reply, false),
    }
}

/// Setting the log channel by mentioning it sets exactly that channel, and
/// the reply names it as written.
pub proof fn law_mention_sets_channel(n: u64)
    ensures
        config_request("!config set log_channel "@ + channel_mention_spec(n)) == ConfigRequest::SetLogChannel(
            n,
            decimal(n as nat),
        ),
{
    reveal_strlit("!config set log_channel ");
    reveal_strlit("!config");
    reveal_strlit("set");
    reveal_strlit("log_channel");
    reveal_strlit("<#");
    reveal_strlit(">");
    let d = decimal(n as nat);
    lemma_decimal_digits(n as nat);
    let m = "<#"@ + d + ">"@;
    assert(m == channel_mention_spec(n));
    assert(!m.contains(' ')) by {
        if m.contains(' ') {
            let k = choose|k: int| 0 <= k < m.len() && m[k] == ' ';
            if 2 <= k < m.len() - 1 {
                assert(m[k] == d[k - 2]);
                assert(is_digit(d[k - 2]));
            }
        }
    }
    let a1 = "!config"@;
    let a2 = a1 + seq![' '] + "set"@;
    let a3 = a2 + seq![' '] + "log_channel"@;
    let s = "!config set log_channel "@ + m;
    assert(s =~= a3 + seq![' '] + m);
    assert(!a1.contains(' ')) by {
        assert(a1 =~= seq!['!', 'c', 'o', 'n', 'f', 'i', 'g']);
    }
    assert(!"set"@.contains(' ')) by {
        assert("set"@ =~= seq!['s', 'e', 't']);
    }
    assert(!"log_channel"@.contains(' ')) by {
        assert("log_channel"@ =~= seq!['l', 'o', 'g', '_', 'c', 'h', 'a', 'n', 'n', 'e', 'l']);
    }
    lemma_split_without_sep(a1, ' ');
    lemma_split_append_sep(a1, "set"@, ' ');
    lemma_split_append_sep(a2, "log_channel"@, ' ');
    lemma_split_append_sep(a3, m, ' ');
    let args = split_on(s, ' ');
    assert(args =~= seq![a1, "set"@, "log_channel"@, m]);
    lemma_remove_chars_concat("<#"@ + d, ">"@, mention_marks());
    lemma_remove_chars_concat("<#"@, d, mention_marks());
    assert(mention_marks().contains('<')) by {
        assert(mention_marks()[0] == '<');
    }
    assert(mention_marks().contains('>')) by {
        assert(mention_marks()[1] == '>');
    }
    assert(mention_marks().contains('#')) by {
        assert(mention_marks()[2] == '#');
    }
    let lt = seq!['<'];
    let lth = seq!['<', '#'];
    let gt = seq!['>'];
    assert(lt.drop_last() =~= Seq::<char>::empty());
    assert(gt.drop_last() =~= Seq::<char>::empty());
    assert(lth.drop_last() =~= lt);
    assert(remove_chars(Seq::<char>::empty(), mention_marks()) =~= Seq::<char>::empty());
    assert(remove_chars(lt, mention_marks()) =~= Seq::<char>::empty());
    assert(remove_chars(gt, mention_marks()) =~= Seq::<char>::empty());
    assert(remove_chars(lth, mention_marks()) =~= Seq::<char>::empty());
    assert("<#"@ =~= lth);
    assert(">"@ =~= gt);
    assert forall|i: int| 0 <= i < d.len() implies !mention_marks().contains(#[trigger] d[i]) by {
        assert(is_digit(d[i]));
        if mention_marks().contains(d[i]) {
            let k = choose|k: int| 0 <= k < 3 && mention_marks()[k] == d[i];
        }
    }
    lemma_remove_chars_absent(d, mention_marks());
    assert(remove_chars(m, mention_marks()) =~= d);
    law_decimal_round_trip(n);
}

} // verus!
