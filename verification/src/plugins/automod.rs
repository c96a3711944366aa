//! Word-list moderation: a message is removed when it contains one of the
//! guild's listed words as a whole word, ignoring case.
use vstd::prelude::*;

use crate::config::GuildConfig;
use crate::text::{
    join, join_strings, lemma_split_append_sep, lemma_split_without_sep, split_on, string_views,
};

verus! {

#[verifier::external_type_specification]
#[verifier::external_body]
pub struct ExRegex(regex::Regex);

/// Whether `regex::Regex::new` accepts `pattern`.
pub uninterp spec fn regex_compiles(pattern: Seq<char>) -> bool;

/// What `regex::Regex::is_match` answers for `haystack`, on the regex
/// compiled from `pattern`: whether the haystack holds a match.
pub uninterp spec fn regex_finds(pattern: Seq<char>, haystack: Seq<char>) -> bool;

/// A compiled regex, with the pattern it was compiled from. Only
/// [`compile_pattern`] builds one.
pub struct CompiledPattern {
    re: regex::Regex,
    pattern: Ghost<Seq<char>>,
}

impl CompiledPattern {
    /// The pattern this regex was compiled from.
    pub closed spec fn source(&self) -> Seq<char> {
        self.pattern@
    }
}

/// Compiles `pattern` with `regex::Regex::new`. Trusted: `Some` exactly when
/// the named check accepts the pattern, and then holding that pattern.
#[verifier::external_body]
fn compile_pattern(pattern: &str) -> (r: Option<CompiledPattern>)
    ensures
        r is Some <==> regex_compiles(pattern@),
        r matches Some(c) ==> c.source() == pattern@,
{
    match regex::Regex::new(pattern) {
        Ok(re) => Some(CompiledPattern { re, pattern: Ghost(pattern@) }),
        Err(_) => None,
    }
}

/// Searches `haystack` with `regex::Regex::is_match`. Trusted: the answer is
/// taken to be the named outcome for the compiled pattern and this haystack.
#[verifier::external_body]
fn pattern_finds(compiled: &CompiledPattern, haystack: &str) -> (r: bool)
    ensures
        r == regex_finds(compiled.source(), haystack@),
{
    compiled.re.is_match(haystack)
}

/// The case-insensitive whole-word alternation of the listed words.
pub open spec fn blacklist_pattern_spec(words: Seq<Seq<char>>) -> Seq<char> {
    "(?i)\\b("@ + join(words, "|"@) + ")\\b"@
}

/// The pattern that matches any of `words` as a whole word, ignoring case.
pub fn blacklist_pattern(words: &Vec<String>) -> (p: String)
    ensures
        p@ == blacklist_pattern_spec(string_views(words@)),
{
    let mut p = String::from_str("(?i)\\b(");
    let joined = join_strings(words, "|");
    p.append(joined.as_str());
    p.append(")\\b");
    p
}

/// Splitting the parts joined with a one-character separator gives the parts
/// back, when none of them holds the separator.
proof fn lemma_split_join(parts: Seq<Seq<char>>, sep: char)
    requires
        parts.len() > 0,
        forall|i: int| 0 <= i < parts.len() ==> !(#[trigger] parts[i]).contains(sep),
    ensures
        split_on(join(parts, seq![sep]), sep) == parts,
    decreases parts.len(),
{
    if parts.len() == 1 {
        lemma_split_without_sep(parts[0], sep);
        assert(seq![parts[0]] =~= parts);
    } else {
        let init = parts.drop_last();
        assert forall|i: int| 0 <= i < init.len() implies !(#[trigger] init[i]).contains(sep) by {
            assert(init[i] == parts[i]);
        }
        lemma_split_join(init, sep);
        assert(!parts.last().contains(sep)) by {
            assert(parts[parts.len() - 1] == parts.last());
        }
        lemma_split_append_sep(join(init, seq![sep]), parts.last(), sep);
        assert(init.push(parts.last()) =~= parts);
    }
}

/// The pattern's alternatives are exactly the listed words, every one of
/// them and in order: between `(?i)\b(` and `)\b`, the pattern splits at
/// `|` into the list, whatever its length, as long as no word holds a `|`.
pub proof fn law_pattern_lists_every_word(words: Seq<Seq<char>>)
    requires
        words.len() > 0,
        forall|i: int| 0 <= i < words.len() ==> !(#[trigger] words[i]).contains('|'),
    ensures
        ({
            let p = blacklist_pattern_spec(words);
            &&& p.len() >= 10
            &&& p.take(7) == "(?i)\\b("@
            &&& p.skip(p.len() - 3) == ")\\b"@
            &&& split_on(p.subrange(7, p.len() - 3), '|') == words
        }),
{
    reveal_strlit("(?i)\\b(");
    reveal_strlit(")\\b");
    reveal_strlit("|");
    assert("|"@ =~= seq!['|']);
    lemma_split_join(words, '|');
    let j = join(words, "|"@);
    let p = blacklist_pattern_spec(words);
    assert(p.take(7) =~= "(?i)\\b("@);
    assert(p.skip(p.len() - 3) =~= ")\\b"@);
    assert(p.subrange(7, p.len() - 3) =~= j);
}

/// Whether a message with this content breaks the guild's word list: the
/// search for the list's pattern, `None` when the listed words do not form a
/// valid pattern. An empty list gives the pattern `(?i)\b()\b`, which finds
/// any text holding a word character.
pub fn should_moderate(config: &GuildConfig, content: &str) -> (r: Option<bool>)
    ensures
        r == (if !regex_compiles(blacklist_pattern_spec(config@.blacklisted_words)) {
            None
        } else {
            Some(regex_finds(blacklist_pattern_spec(config@.blacklisted_words), content@))
        }),
{
    let pattern = blacklist_pattern(config.get_blacklisted_words());
    match compile_pattern(pattern.as_str()) {
        None => None,
        Some(compiled) => Some(pattern_finds(&compiled, content)),
    }
}

} // verus!
