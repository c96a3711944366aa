//! `/imagine`: the per-user cooldown, and the small records that remember a
//! generated image's prompt and link for the Retry and Save buttons.
use vstd::prelude::*;

use crate::commands::download_video::{parse_url, url_parse_outcome, ParsedUrl};
use crate::number::{parse_i64, parse_i64_spec, is_digit, lemma_decimal_digits, law_decimal_round_trip};
use crate::text::{
    chars_of, decimal, decimal_string, join, join_strings, remove_chars, remove_chars_exec,
    split_exec, split_on, string_of, string_views, char_vec_views, lemma_split_append_sep,
    lemma_split_without_sep, lemma_remove_chars_absent,
};

verus! {

/// Why an image could not be generated, as the image service put it.
#[derive(Debug, PartialEq, Eq)]
pub struct Error {
    pub message: String,
}

/// Seconds a user must wait between two image requests.
pub const COOLDOWN_SECONDS: i64 = 30;

/// Whether a request at `now` comes too soon after the one stored in the
/// user's request file. A file that was just created holds no earlier
/// request. The stored text is read as a signed decimal after dropping NUL
/// characters; `None` when it does not read as one or the difference does
/// not fit in 64 bits.
pub open spec fn cooldown_spec(now: i64, is_new: bool, stored: Seq<char>) -> Option<bool> {
    if is_new {
        Some(false)
    } else {
        match parse_i64_spec(remove_chars(stored, seq!['\0'])) {
            None => None,
            Some(last) => if now - last > i64::MAX || now - last < i64::MIN {
                None
            } else {
                Some(now - last < 30)
            },
        }
    }
}

/// Whether a request at `now` comes too soon (see [`cooldown_spec`]).
pub fn too_soon(now: i64, is_new: bool, stored: &str) -> (r: Option<bool>)
    ensures
        r == cooldown_spec(now, is_new, stored@),
{
    if is_new {
        return Some(false);
    }
    let chars = chars_of(stored);
    let nul: Vec<char> = vec!['\0'];
    assert(nul@ =~= seq!['\0']);
    let cleaned = remove_chars_exec(&chars, &nul);
    match parse_i64(&cleaned) {
        None => None,
        Some(last) => match now.checked_sub(last) {
            None => None,
            Some(elapsed) => Some(elapsed < COOLDOWN_SECONDS),
        },
    }
}

/// The record kept for a generated image: the prompt, a newline, the link.
pub open spec fn image_record_spec(prompt: Seq<char>, url: Seq<char>) -> Seq<char> {
    prompt + "\n"@ + url
}

/// The record kept for a generated image.
pub fn image_record(prompt: &str, url: &str) -> (r: String)
    ensures
        r@ == image_record_spec(prompt@, url@),
{
    let mut r = String::from_str(prompt);
    r.append("\n");
    r.append(url);
    r
}

/// Line `k` of a record, when it has that many lines.
pub open spec fn record_line_spec(record: Seq<char>, k: int) -> Option<Seq<char>> {
    let lines = split_on(record, '\n');
    if 0 <= k < lines.len() {
        Some(lines[k])
    } else {
        None
    }
}

/// Line `k` of a record (the prompt is line 0, the link line 1).
pub fn record_line(record: &str, k: usize) -> (r: Option<String>)
    ensures
        r matches Some(line) ==> record_line_spec(record@, k as int) == Some(line@),
        r is None <==> record_line_spec(record@, k as int) is None,
{
    let chars = chars_of(record);
    let lines = split_exec(&chars, '\n');
    proof {
        assert(char_vec_views(lines@).len() == lines@.len());
    }
    if k < lines.len() {
        assert(char_vec_views(lines@)[k as int] == lines@[k as int]@);
        Some(string_of(&lines[k]))
    } else {
        None
    }
}

/// The name of the record file for the given ids (guild, channel, user and,
/// when known, the message), in that order.
pub open spec fn record_name_spec(ids: Seq<u64>) -> Seq<char> {
    "tmp/"@ + join(ids.map_values(|n: u64| decimal(n as nat)), ":"@)
}

/// The name of the record file for the given ids.
pub fn record_name(ids: &Vec<u64>) -> (r: String)
    ensures
        r@ == record_name_spec(ids@),
{
    let mut parts: Vec<String> = Vec::new();
    for i in 0..ids.len()
        invariant
            string_views(parts@) == ids@.take(i as int).map_values(|n: u64| decimal(n as nat)),
    {
        let ghost before = string_views(parts@);
        parts.push(decimal_string(ids[i]));
        assert(string_views(parts@) =~= before.push(decimal(ids@[i as int] as nat)));
        assert(string_views(parts@) =~= ids@.take(i + 1).map_values(|n: u64| decimal(n as nat)));
    }
    assert(ids@.take(ids.len() as int) =~= ids@);
    let mut r = String::from_str("tmp/");
    let joined = join_strings(&parts, ":");
    r.append(joined.as_str());
    r
}

/// The record file of the image shown in a message: named by the guild, the
/// channel, the user who asked and the message that carries the image and
/// its buttons. `/imagine` and Retry write it, Retry and Save read it.
pub open spec fn image_record_name_spec(guild: u64, channel: u64, user: u64, message: u64) -> Seq<char> {
    record_name_spec(seq![guild, channel, user, message])
}

/// The record file of the image shown in `message`.
pub fn image_record_name(guild: u64, channel: u64, user: u64, message: u64) -> (r: String)
    ensures
        r@ == image_record_name_spec(guild, channel, user, message),
{
    let ids: Vec<u64> = vec![guild, channel, user, message];
    assert(ids@ =~= seq![guild, channel, user, message]);
    record_name(&ids)
}

/// A decimal rendering holds no `:`.
proof fn lemma_decimal_has_no_colon(n: nat)
    ensures
        !decimal(n).contains(':'),
{
    lemma_decimal_digits(n);
    if decimal(n).contains(':') {
        let k = choose|k: int| 0 <= k < decimal(n).len() && decimal(n)[k] == ':';
        assert(is_digit(decimal(n)[k]));
    }
}

/// Two images share a record file only when they are the same image: the
/// same guild, channel, user and message.
pub proof fn law_record_names_are_distinct(a: (u64, u64, u64, u64), b: (u64, u64, u64, u64))
    requires
        image_record_name_spec(a.0, a.1, a.2, a.3) == image_record_name_spec(b.0, b.1, b.2, b.3),
    ensures
        a == b,
{
    let ds = |t: (u64, u64, u64, u64)|
        seq![decimal(t.0 as nat), decimal(t.1 as nat), decimal(t.2 as nat), decimal(t.3 as nat)];
    assert forall|t: (u64, u64, u64, u64)| #![auto]
        split_on(image_record_name_spec(t.0, t.1, t.2, t.3).skip(4), ':') == ds(t) by {
        let d = ds(t);
        let ids = seq![t.0, t.1, t.2, t.3];
        assert(ids.map_values(|n: u64| decimal(n as nat)) =~= d);
        reveal_with_fuel(join, 4);
        let j = join(d, ":"@);
        assert(":"@ =~= seq![':']) by {
            reveal_strlit(":");
        }
        assert(j == d[0] + seq![':'] + d[1] + seq![':'] + d[2] + seq![':'] + d[3]) by {
            assert(d.drop_last().drop_last().drop_last() =~= seq![d[0]]);
            assert(d.drop_last().drop_last() =~= seq![d[0], d[1]]);
            assert(d.drop_last() =~= seq![d[0], d[1], d[2]]);
        }
        assert("tmp/"@.len() == 4) by {
            reveal_strlit("tmp/");
        }
        assert(image_record_name_spec(t.0, t.1, t.2, t.3).skip(4) =~= j);
        lemma_decimal_has_no_colon(t.0 as nat);
        lemma_decimal_has_no_colon(t.1 as nat);
        lemma_decimal_has_no_colon(t.2 as nat);
        lemma_decimal_has_no_colon(t.3 as nat);
        lemma_split_without_sep(d[0], ':');
        lemma_split_append_sep(d[0], d[1], ':');
        lemma_split_append_sep(d[0] + seq![':'] + d[1], d[2], ':');
        lemma_split_append_sep(d[0] + seq![':'] + d[1] + seq![':'] + d[2], d[3], ':');
        assert(seq![d[0]].push(d[1]).push(d[2]).push(d[3]) =~= d);
    }
    let da = ds(a);
    let db = ds(b);
    assert(da == db);
    assert(da[0] == db[0] && da[1] == db[1] && da[2] == db[2] && da[3] == db[3]);
    law_decimal_round_trip(a.0);
    law_decimal_round_trip(a.1);
    law_decimal_round_trip(a.2);
    law_decimal_round_trip(a.3);
    law_decimal_round_trip(b.0);
    law_decimal_round_trip(b.1);
    law_decimal_round_trip(b.2);
    law_decimal_round_trip(b.3);
}

/// The link of a saved image: line 1 of its record, parsed as a URL; `None`
/// when the record has no such line or the line does not parse.
pub fn saved_image_link(record: &str) -> (r: Option<ParsedUrl>)
    ensures
        r is Some <==> (record_line_spec(record@, 1) matches Some(l) && url_parse_outcome(l) is Ok),
        r matches Some(p) ==> record_line_spec(record@, 1) == Some(p.source()),
{
    match record_line(record, 1) {
        None => None,
        Some(line) => match parse_url(line.as_str()) {
            Ok(u) => Some(u),
            Err(_) => None,
        },
    }
}

/// A record read back gives the prompt and link it was written with, as
/// long as neither holds a newline.
pub proof fn law_record_round_trip(prompt: Seq<char>, url: Seq<char>)
    requires
        !prompt.contains('\n'),
        !url.contains('\n'),
    ensures
        record_line_spec(image_record_spec(prompt, url), 0) == Some(prompt),
        record_line_spec(image_record_spec(prompt, url), 1) == Some(url),
        record_line_spec(image_record_spec(prompt, url), 2) is None,
{
    lemma_split_without_sep(prompt, '\n');
    lemma_split_append_sep(prompt, url, '\n');
    assert(image_record_spec(prompt, url) == prompt + seq!['\n'] + url) by {
        reveal_strlit("\n");
        assert("\n"@ =~= seq!['\n']);
    }
}

/// A request time the bot stored itself is read back as written: the next
/// request is too soon exactly when it comes less than thirty seconds later.
pub proof fn law_cooldown_from_stored_time(now: i64, last: u64)
    requires
        last <= i64::MAX,
        now >= 0,
    ensures
        cooldown_spec(now, false, decimal(last as nat)) == Some(now - last < 30),
{
    let d = decimal(last as nat);
    lemma_decimal_digits(last as nat);
    assert forall|i: int| 0 <= i < d.len() implies !seq!['\0'].contains(#[trigger] d[i]) by {
        assert(is_digit(d[i]));
        if seq!['\0'].contains(d[i]) {
            assert(seq!['\0'][0] == d[i]);
        }
    }
    lemma_remove_chars_absent(d, seq!['\0']);
    law_decimal_round_trip(last);
}

} // verus!
