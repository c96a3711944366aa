//! The configuration slash commands `/automod`, `/blacklist_word` and
//! `/remove_blacklisted_word`: their effect on the guild configuration and
//! their replies.
use vstd::prelude::*;

use crate::config::{GuildConfig, GuildConfigModel, without_word};

verus! {

/// The reply to `/blacklist_word`.
pub open spec fn blacklisted_reply_spec(word: Seq<char>) -> Seq<char> {
    "The word \""@ + word + "\" has been blacklisted."@
}

/// Adds `word` to the guild's list and gives the reply.
pub fn run_blacklist_word(config: &mut GuildConfig, word: &str) -> (r: String)
    ensures
        r@ == blacklisted_reply_spec(word@),
        final(config)@ == (GuildConfigModel {
            blacklisted_words: old(config)@.blacklisted_words.push(word@),
            ..old(config)@
        }),
{
    config.blacklist_word(String::from_str(word));
    let mut r = String::from_str("The word \"");
    r.append(word);
    r.append("\" has been blacklisted.");
    r
}

/// The reply to `/remove_blacklisted_word`.
pub open spec fn unlisted_reply_spec(word: Seq<char>) -> Seq<char> {
    "The word \""@ + word + "\" has been removed from blacklist."@
}

/// Drops every entry equal to `word` from the guild's list and gives the reply.
pub fn run_remove_blacklisted_word(config: &mut GuildConfig, word: &str) -> (r: String)
    ensures
        r@ == unlisted_reply_spec(word@),
        final(config)@ == (GuildConfigModel {
            blacklisted_words: without_word(old(config)@.blacklisted_words, word@),
            ..old(config)@
        }),
{
    config.remove_blacklisted_word(word);
    let mut r = String::from_str("The word \"");
    r.append(word);
    r.append("\" has been removed from blacklist.");
    r
}

/// The reply to `/automod`, whichever way it was switched.
pub open spec fn automod_reply_spec() -> Seq<char> {
    "Automod has been enabled."@
}

/// Switches the automod flag and gives the reply.
pub fn run_automod(config: &mut GuildConfig, value: bool) -> (r: String)
    ensures
        r@ == automod_reply_spec(),
        final(config)@ == (GuildConfigModel { automod: value, ..old(config)@ }),
{
    config.set_automod(value);
    String::from_str("Automod has been enabled.")
}

/// After removal, the word is no longer listed.
pub proof fn law_removed_word_is_gone(words: Seq<Seq<char>>, w: Seq<char>)
    ensures
        !without_word(words, w).contains(w),
    decreases words.len(),
{
    if words.len() > 0 {
        law_removed_word_is_gone(words.drop_last(), w);
        let prev = without_word(words.drop_last(), w);
        if words.last() != w {
            assert forall|i: int| 0 <= i < prev.push(words.last()).len() implies prev.push(
                words.last(),
            )[i] != w by {
                if i < prev.len() {
                    assert(prev.push(words.last())[i] == prev[i]);
                }
            }
        }
    }
}

/// Removal keeps every other word, in order.
pub proof fn law_removal_keeps_other_words(words: Seq<Seq<char>>, w: Seq<char>, other: Seq<char>)
    requires
        other != w,
    ensures
        without_word(words, w).filter(|x: Seq<char>| x == other) == words.filter(
            |x: Seq<char>| x == other,
        ),
    decreases words.len(),
{
    reveal_with_fuel(Seq::filter, 1);
    if words.len() > 0 {
        law_removal_keeps_other_words(words.drop_last(), w, other);
        let prev = without_word(words.drop_last(), w);
        if words.last() != w {
            assert(prev.push(words.last()).drop_last() =~= prev);
        }
    }
}

/// Removing a word twice is the same as removing it once.
pub proof fn law_removal_idempotent(words: Seq<Seq<char>>, w: Seq<char>)
    ensures
        without_word(without_word(words, w), w) == without_word(words, w),
    decreases words.len(),
{
    if words.len() > 0 {
        law_removal_idempotent(words.drop_last(), w);
        let prev = without_word(words.drop_last(), w);
        if words.last() != w {
            assert(prev.push(words.last()).drop_last() =~= prev);
        }
    }
}

/// Listing a word and then removing it leaves the list as removing it alone
/// would: no copy of the word survives and nothing else changes.
pub proof fn law_blacklist_then_remove(words: Seq<Seq<char>>, w: Seq<char>)
    ensures
        without_word(words.push(w), w) == without_word(words, w),
{
    assert(words.push(w).drop_last() =~= words);
}

} // verus!
