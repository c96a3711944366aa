//! Chat channels: the in-channel commands, the conversation context handed
//! to the language model, and the list of chat channels kept per guild.
use vstd::prelude::*;

use crate::text::{
    chars_eq_str, chars_of, contains_exec, contains_seq, occurs_at, decimal, decimal_string, replace_all,
    replace_exec, split_exec, split_on, starts_with, starts_with_exec, string_of, char_vec_views,
    repeat_char, repeat_exec, lemma_absent_first_char,
};
use crate::plugins::config::byte_len;

verus! {

/// What a message in a chat channel asks for.
#[derive(Debug, Clone, Copy, PartialEq, Eq, Structural)]
pub enum ChatCommand {
    /// `!end`: close the conversation and delete the channel.
    End,
    /// `!rename`: rename the channel.
    Rename,
    /// `!clear`: delete the recent messages.
    Clear,
    /// Anything else: answer it.
    Converse,
}

/// How a chat message is read: only in a guild, and only when it starts with
/// one of the command words, does its first space-separated word select a
/// command; a first word that merely begins with a command word is talk.
pub open spec fn chat_command_spec(s: Seq<char>, in_guild: bool) -> ChatCommand {
    if in_guild && (starts_with(s, "!end"@) || starts_with(s, "!rename"@) || starts_with(
        s,
        "!clear"@,
    )) {
        let first = split_on(s, ' ')[0];
        if first == "!end"@ {
            ChatCommand::End
        } else if first == "!rename"@ {
            ChatCommand::Rename
        } else if first == "!clear"@ {
            ChatCommand::Clear
        } else {
            ChatCommand::Converse
        }
    } else {
        ChatCommand::Converse
    }
}

/// Outside a guild every message is conversation: no command word does
/// anything there. In a guild, a command is only read from a message whose
/// first space-separated word is exactly that command word.
pub proof fn law_chat_commands_need_a_guild(s: Seq<char>)
    ensures
        chat_command_spec(s, false) == ChatCommand::Converse,
        chat_command_spec(s, true) == ChatCommand::End ==> split_on(s, ' ')[0] == "!end"@,
        chat_command_spec(s, true) == ChatCommand::Rename ==> split_on(s, ' ')[0] == "!rename"@,
        chat_command_spec(s, true) == ChatCommand::Clear ==> split_on(s, ' ')[0] == "!clear"@,
{
}

/// Reads a message sent in a chat channel.
pub fn chat_command(content: &str, in_guild: bool) -> (c: ChatCommand)
    ensures
        c == chat_command_spec(content@, in_guild),
{
    let chars = chars_of(content);
    let prefixed = starts_with_exec(&chars, "!end") || starts_with_exec(&chars, "!rename")
        || starts_with_exec(&chars, "!clear");
    if !(in_guild && prefixed) {
        return ChatCommand::Converse;
    }
    let words = split_exec(&chars, ' ');
    proof {
        crate::plugins::xp::lemma_split_len_bound(content@, ' ');
        assert(char_vec_views(words@).len() == words@.len());
        assert(char_vec_views(words@)[0] == words@[0]@);
    }
    if chars_eq_str(&words[0], "!end") {
        ChatCommand::End
    } else if chars_eq_str(&words[0], "!rename") {
        ChatCommand::Rename
    } else if chars_eq_str(&words[0], "!clear") {
        ChatCommand::Clear
    } else {
        ChatCommand::Converse
    }
}

/// The new channel name in `!rename NAME`: the second space-separated word.
pub open spec fn rename_target_spec(s: Seq<char>) -> Option<Seq<char>> {
    let words = split_on(s, ' ');
    if words.len() >= 2 {
        Some(words[1])
    } else {
        None
    }
}

/// The new channel name in `!rename NAME`, if one is given.
pub fn rename_target(content: &str) -> (r: Option<String>)
    ensures
        r matches Some(name) ==> rename_target_spec(content@) == Some(name@),
        r is None <==> rename_target_spec(content@) is None,
{
    let chars = chars_of(content);
    let words = split_exec(&chars, ' ');
    proof {
        assert(char_vec_views(words@).len() == words@.len());
    }
    if words.len() >= 2 {
        assert(char_vec_views(words@)[1] == words@[1]@);
        Some(string_of(&words[1]))
    } else {
        None
    }
}

/// One earlier message as the model sees it.
pub open spec fn context_entry(author: Seq<char>, content: Seq<char>) -> Seq<char> {
    "Author: "@ + author + "\nContent: "@ + content + " \n\n"@
}

/// The earlier messages, oldest first, as the model sees them.
pub open spec fn context_entries(history: Seq<(Seq<char>, Seq<char>)>) -> Seq<char>
    decreases history.len(),
{
    if history.len() == 0 {
        Seq::empty()
    } else {
        context_entries(history.drop_last()) + context_entry(history.last().0, history.last().1)
    }
}

/// The instruction that closes the context.
pub open spec fn context_instruction() -> Seq<char> {
    "# Only include the content of your response, not the author, or \"Content:\" label."@
}

/// The context handed to the model for a conversation.
pub open spec fn chat_context_spec(history: Seq<(Seq<char>, Seq<char>)>) -> Seq<char> {
    context_entries(history) + context_instruction()
}

/// The views of (author, content) pairs.
pub open spec fn history_views(h: Seq<(String, String)>) -> Seq<(Seq<char>, Seq<char>)> {
    h.map_values(|p: (String, String)| (p.0@, p.1@))
}

/// Builds the context handed to the model from the earlier messages (author
/// name and content), oldest first.
pub fn chat_context(history: &Vec<(String, String)>) -> (r: String)
    ensures
        r@ == chat_context_spec(history_views(history@)),
{
    let ghost views = history_views(history@);
    let mut r = String::new();
    for i in 0..history.len()
        invariant
            views == history_views(history@),
            r@ == context_entries(views.take(i as int)),
    {
        assert(views.take(i + 1).drop_last() =~= views.take(i as int));
        assert(views.take(i + 1).last() == views[i as int]);
        r.append("Author: ");
        r.append(history[i].0.as_str());
        r.append("\nContent: ");
        r.append(history[i].1.as_str());
        r.append(" \n\n");
    }
    assert(views.take(history.len() as int) =~= views);
    r.append("# Only include the content of your response, not the author, or \"Content:\" label.");
    r
}

/// A decimal rendering is never empty.
pub proof fn lemma_decimal_nonempty(n: nat)
    ensures
        decimal(n).len() >= 1,
{
}

/// The guild's chat channel list with every occurrence of `channel` deleted.
pub fn without_channel(chats: &str, channel: u64) -> (r: String)
    ensures
        r@ == replace_all(chats@, decimal(channel as nat), Seq::empty()),
{
    let c = chars_of(chats);
    let id = decimal_string(channel);
    let pat = chars_of(id.as_str());
    let empty: Vec<char> = Vec::new();
    proof {
        lemma_decimal_nonempty(channel as nat);
        assert(empty@ =~= Seq::<char>::empty());
    }
    let out = replace_exec(&c, &pat, &empty);
    string_of(&out)
}

/// The guild's chat list after a chat channel is opened. The list file is
/// opened for writing without truncation and the new id is written from its
/// start, so the id replaces as many leading characters of the old list as
/// it is long, and whatever of the old list lies beyond stays.
pub open spec fn chat_list_after_open_spec(chats: Seq<char>, channel: u64) -> Seq<char> {
    let id = decimal(channel as nat);
    if chats.len() <= id.len() {
        id
    } else {
        id + chats.skip(id.len() as int)
    }
}

/// The guild's chat list after a chat channel is opened.
pub fn chat_list_after_open(chats: &str, channel: u64) -> (r: String)
    ensures
        r@ == chat_list_after_open_spec(chats@, channel),
{
    let old = chars_of(chats);
    let id = decimal_string(channel);
    let idc = chars_of(id.as_str());
    let mut out: Vec<char> = Vec::new();
    for k in 0..idc.len()
        invariant
            out@ == idc@.take(k as int),
    {
        out.push(idc[k]);
        assert(idc@.take(k + 1) =~= idc@.take(k as int).push(idc@[k as int]));
    }
    assert(idc@.take(idc.len() as int) =~= idc@);
    let mut k: usize = idc.len();
    while k < old.len()
        invariant
            idc.len() <= k <= old.len() || (k == idc.len() && old.len() <= idc.len()),
            old.len() > idc.len() ==> out@ == idc@ + old@.subrange(idc.len() as int, k as int),
            old.len() <= idc.len() ==> out@ == idc@,
        decreases old.len() - k,
    {
        out.push(old[k]);
        assert(idc@ + old@.subrange(idc.len() as int, k + 1) =~= (idc@ + old@.subrange(
            idc.len() as int,
            k as int,
        )).push(old@[k as int]));
        k = k + 1;
    }
    assert(old.len() > idc.len() ==> old@.subrange(idc.len() as int, old.len() as int)
        =~= old@.skip(idc.len() as int));
    string_of(&out)
}

/// A channel just opened for chatting is on the guild's chat list: its id
/// starts the list.
pub proof fn law_opened_chat_is_listed(chats: Seq<char>, channel: u64)
    ensures
        contains_seq(chat_list_after_open_spec(chats, channel), decimal(channel as nat)),
{
    let id = decimal(channel as nat);
    let all = chat_list_after_open_spec(chats, channel);
    assert(all.subrange(0, id.len() as int) =~= id);
    assert(occurs_at(all, id, 0));
}

/// Whether `channel` is in the guild's chat channel list.
pub fn is_chat_channel(chats: &str, channel: u64) -> (r: bool)
    ensures
        r == contains_seq(chats@, decimal(channel as nat)),
{
    let c = chars_of(chats);
    let id = decimal_string(channel);
    let pat = chars_of(id.as_str());
    contains_exec(&c, &pat)
}

/// What `colored` can render for `text` with the ANSI style `code`: the text
/// alone when colouring is off (by `NO_COLOR`, `CLICOLOR` or a non-terminal
/// standard output), or the text between the style's escape sequence and the
/// reset sequence.
pub open spec fn painted(text: Seq<char>, code: Seq<char>, r: Seq<char>) -> bool {
    r == text || r == "\u{1b}["@ + code + "m"@ + text + "\u{1b}[0m"@
}

/// Renders `text` in bold red with `colored` (`Colorize::red`, then `bold`,
/// then `Display`). Trusted: the result is one of the two renderings
/// [`painted`] allows for style `1;31`; which one depends on the environment
/// and the terminal and is not stated.
#[verifier::external_body]
fn paint_red_bold(text: &str) -> (r: String)
    requires
        !contains_seq(text@, "\u{1b}[0m"@),
    ensures
        painted(text@, "1;31"@, r@),
{
    colored::Colorize::bold(colored::Colorize::red(text)).to_string()
}

/// Renders `text` in bold with `colored` (`Colorize::bold`, then `Display`).
/// Trusted: the result is one of the two renderings [`painted`] allows for
/// style `1`; which one depends on the environment and the terminal and is
/// not stated.
#[verifier::external_body]
fn paint_bold(text: &str) -> (r: String)
    requires
        !contains_seq(text@, "\u{1b}[0m"@),
    ensures
        painted(text@, "1"@, r@),
{
    colored::Colorize::bold(text).to_string()
}

/// The reply to `!rename` without a name: the message, underlined at the
/// place where the name is missing, with each decoration as rendered.
pub open spec fn rename_error_spec(
    content: Seq<char>,
    error: Seq<char>,
    bar: Seq<char>,
    underline: Seq<char>,
    carets: Seq<char>,
    expected: Seq<char>,
    help: Seq<char>,
) -> Seq<char> {
    "```ansi\n"@ + error + ": No name provided\n\n    "@ + bar + " "@ + content + " "@ + underline
        + "\n    "@ + bar + " "@ + repeat_char(' ', byte_len(content)) + " "@ + carets + " "@
        + expected + "\n\n    "@ + help
        + ": use !rename <name> to rename the channel (eg. !rename cool-channel)```"@
}

/// Lays out the reply to `!rename` without a name from its rendered
/// decorations.
pub fn compose_rename_error(
    content: &str,
    error: &str,
    bar: &str,
    underline: &str,
    carets: &str,
    expected: &str,
    help: &str,
) -> (r: String)
    ensures
        r@ == rename_error_spec(content@, error@, bar@, underline@, carets@, expected@, help@),
{
    let mut r = String::from_str("```ansi\n");
    r.append(error);
    r.append(": No name provided\n\n    ");
    r.append(bar);
    r.append(" ");
    r.append(content);
    r.append(" ");
    r.append(underline);
    r.append("\n    ");
    r.append(bar);
    r.append(" ");
    let spaces = repeat_exec(' ', content.len());
    r.append(spaces.as_str());
    r.append(" ");
    r.append(carets);
    r.append(" ");
    r.append(expected);
    r.append("\n\n    ");
    r.append(help);
    r.append(": use !rename <name> to rename the channel (eg. !rename cool-channel)```");
    r
}

/// The reply to `!rename` without a name, decorated as `colored` renders it.
pub fn rename_usage_error(content: &str) -> (r: String)
    ensures
        exists|e: Seq<char>, b: Seq<char>, u: Seq<char>, c: Seq<char>, x: Seq<char>, h: Seq<char>|
            {
                &&& painted("error"@, "1;31"@, e)
                &&& painted("|"@, "1"@, b)
                &&& painted("__"@, "1;31"@, u)
                &&& painted("^^"@, "1;31"@, c)
                &&& painted("expected a name"@, "1;31"@, x)
                &&& painted("= help"@, "1"@, h)
                &&& r@ == rename_error_spec(content@, e, b, u, c, x, h)
            },
{
    proof {
        reveal_strlit("error");
        reveal_strlit("|");
        reveal_strlit("__");
        reveal_strlit("^^");
        reveal_strlit("expected a name");
        reveal_strlit("= help");
        reveal_strlit("\u{1b}[0m");
    }
    proof {
        let reset = "\u{1b}[0m"@;
        assert(reset[0] == '\u{1b}');
        assert("error"@ =~= seq!['e', 'r', 'r', 'o', 'r']);
        lemma_absent_first_char("error"@, reset);
        assert("expected a name"@ =~= seq![
            'e', 'x', 'p', 'e', 'c', 't', 'e', 'd', ' ', 'a', ' ', 'n', 'a', 'm', 'e',
        ]);
        lemma_absent_first_char("expected a name"@, reset);
    }
    assert(!contains_seq("error"@, "\u{1b}[0m"@));
    assert(!contains_seq("|"@, "\u{1b}[0m"@));
    assert(!contains_seq("__"@, "\u{1b}[0m"@));
    assert(!contains_seq("^^"@, "\u{1b}[0m"@));
    assert(!contains_seq("expected a name"@, "\u{1b}[0m"@));
    assert(!contains_seq("= help"@, "\u{1b}[0m"@));
    let e = paint_red_bold("error");
    let b = paint_bold("|");
    let u = paint_red_bold("__");
    let c = paint_red_bold("^^");
    let x = paint_red_bold("expected a name");
    let h = paint_bold("= help");
    compose_rename_error(
        content,
        e.as_str(),
        b.as_str(),
        u.as_str(),
        c.as_str(),
        x.as_str(),
        h.as_str(),
    )
}

} // verus!
