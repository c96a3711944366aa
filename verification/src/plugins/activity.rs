//! The `!activity` owner command that changes the bot's presence.
use vstd::prelude::*;

use crate::text::{
    chars_eq_str, chars_of, copy_chars, join, join_char_vecs, starts_with, starts_with_exec, words_exec,
    words_spec, char_vec_views,
};

verus! {

/// The presence kinds the bot can show.
#[derive(Debug, Clone, Copy, PartialEq, Eq, Structural)]
pub enum ActivityKind {
    Playing,
    Listening,
    Watching,
    Competing,
    Streaming,
}

/// A presence change asked for with `!activity MODE TEXT...`.
#[derive(Debug, PartialEq, Eq)]
pub struct ActivityRequest {
    pub kind: ActivityKind,
    pub text: String,
}

/// The only user allowed to change the presence.
pub open spec fn is_activity_owner(author: u64) -> bool {
    author == 853618501445222420
}

/// The presence kind named by a mode word.
pub open spec fn activity_mode(w: Seq<char>) -> Option<ActivityKind> {
    if w == "playing"@ {
        Some(ActivityKind::Playing)
    } else if w == "listening"@ {
        Some(ActivityKind::Listening)
    } else if w == "watching"@ {
        Some(ActivityKind::Watching)
    } else if w == "competing"@ {
        Some(ActivityKind::Competing)
    } else if w == "streaming"@ {
        Some(ActivityKind::Streaming)
    } else {
        None
    }
}

/// How `!activity` is read: from the owner only, the second
/// whitespace-separated word picks the kind and the words after it, joined
/// with single spaces, are the text.
pub open spec fn activity_request_spec(author: u64, s: Seq<char>) -> Option<(ActivityKind, Seq<char>)> {
    if !starts_with(s, "!activity"@) || !is_activity_owner(author) {
        None
    } else {
        let w = words_spec(s);
        if w.len() < 2 {
            None
        } else {
            match activity_mode(w[1]) {
                None => None,
                Some(k) => Some((k, join(w.skip(2), " "@))),
            }
        }
    }
}

/// The mode word that names each presence kind.
pub open spec fn mode_word(k: ActivityKind) -> Seq<char> {
    match k {
        ActivityKind::Playing => "playing"@,
        ActivityKind::Listening => "listening"@,
        ActivityKind::Watching => "watching"@,
        ActivityKind::Competing => "competing"@,
        ActivityKind::Streaming => "streaming"@,
    }
}

/// Each mode word selects the presence kind of the same name, and a kind is
/// only selected by its own word.
pub proof fn law_mode_words_select_their_kind(k: ActivityKind, w: Seq<char>)
    ensures
        activity_mode(mode_word(k)) == Some(k),
        activity_mode(w) == Some(k) ==> w == mode_word(k),
{
    reveal_strlit("playing");
    reveal_strlit("listening");
    reveal_strlit("watching");
    reveal_strlit("competing");
    reveal_strlit("streaming");
    assert("listening"@.len() != "playing"@.len());
    assert("watching"@.len() != "playing"@.len());
    assert("watching"@.len() != "listening"@.len());
    assert("competing"@.len() != "playing"@.len());
    assert("competing"@.len() != "watching"@.len());
    assert("competing"@[0] != "listening"@[0]);
    assert("streaming"@.len() != "playing"@.len());
    assert("streaming"@.len() != "watching"@.len());
    assert("streaming"@[0] != "listening"@[0]);
    assert("streaming"@[0] != "competing"@[0]);
}

/// An accepted `!activity` command shows the kind its second word names.
pub proof fn law_activity_kind_is_the_named_one(author: u64, s: Seq<char>)
    ensures
        activity_request_spec(author, s) matches Some((k, _)) ==> words_spec(s)[1] == mode_word(k),
{
    if let Some((k, _)) = activity_request_spec(author, s) {
        law_mode_words_select_their_kind(k, words_spec(s)[1]);
    }
}

fn mode_of(w: &Vec<char>) -> (r: Option<ActivityKind>)
    ensures
        r == activity_mode(w@),
{
    if chars_eq_str(w, "playing") {
        Some(ActivityKind::Playing)
    } else if chars_eq_str(w, "listening") {
        Some(ActivityKind::Listening)
    } else if chars_eq_str(w, "watching") {
        Some(ActivityKind::Watching)
    } else if chars_eq_str(w, "competing") {
        Some(ActivityKind::Competing)
    } else if chars_eq_str(w, "streaming") {
        Some(ActivityKind::Streaming)
    } else {
        None
    }
}

/// Reads a message as an `!activity` command from `author`.
pub fn parse_activity(author: u64, content: &str) -> (r: Option<ActivityRequest>)
    ensures
        match activity_request_spec(author, content@) {
            None => r is None,
            Some((k, text)) => r matches Some(a) && a.kind == k && a.text@ == text,
        },
{
    let chars = chars_of(content);
    if !starts_with_exec(&chars, "!activity") || author != 853618501445222420u64 {
        return None;
    }
    let words = words_exec(&chars);
    proof {
        assert(char_vec_views(words@).len() == words@.len());
    }
    if words.len() < 2 {
        return None;
    }
    assert(char_vec_views(words@)[1] == words@[1]@);
    match mode_of(&words[1]) {
        None => None,
        Some(kind) => {
            let mut rest: Vec<Vec<char>> = Vec::new();
            let ghost all = char_vec_views(words@);
            for i in 2..words.len()
                invariant
                    all == char_vec_views(words@),
                    words.len() >= 2,
                    char_vec_views(rest@) == all.subrange(2, i as int),
            {
                let ghost before = char_vec_views(rest@);
                let w = copy_chars(&words[i]);
                rest.push(w);
                assert(all[i as int] == words@[i as int]@);
                assert(char_vec_views(rest@) =~= before.push(all[i as int]));
                assert(char_vec_views(rest@) =~= all.subrange(2, i + 1));
            }
            assert(all.subrange(2, words.len() as int) =~= all.skip(2));
            let text = join_char_vecs(&rest, " ");
            Some(ActivityRequest { kind, text })
        },
    }
}

} // verus!
