//! Experience points: every message earns ten points per space-separated
//! piece, and a stored user's level is their points divided by a hundred.
use vstd::prelude::*;

use crate::text::{
    chars_of, split_exec, split_on, char_vec_views, lemma_split_len, decimal, decimal_string,
    user_mention, user_mention_spec,
};

verus! {

/// A user's stored experience record.
#[derive(Debug, Clone, Copy, PartialEq, Eq, Structural)]
pub struct User {
    pub id: u64,
    pub xp: usize,
    pub level: usize,
}

/// Points a message earns: ten per piece of its content split at spaces.
pub open spec fn xp_gain_spec(content: Seq<char>) -> nat {
    split_on(content, ' ').len() * 10
}

/// The record after a message earning `gain` points: a stored user gains the
/// points and has their level recomputed; a new user starts at level zero.
pub open spec fn award_spec(existing: Option<User>, id: u64, gain: usize) -> User {
    match existing {
        Some(u) => User { id: u.id, xp: (u.xp + gain) as usize, level: ((u.xp + gain) / 100) as usize },
        None => User { id: id, xp: gain, level: 0 },
    }
}

/// A split never has more pieces than one plus the number of characters.
pub proof fn lemma_split_len_bound(s: Seq<char>, sep: char)
    ensures
        1 <= split_on(s, sep).len() <= s.len() + 1,
    decreases s.len(),
{
    if s.len() > 0 {
        lemma_split_len_bound(s.drop_last(), sep);
    }
}

/// The points a message with this content earns.
pub fn xp_gain(content: &str) -> (gain: usize)
    requires
        (content@.len() + 1) * 10 <= usize::MAX,
    ensures
        gain == xp_gain_spec(content@),
{
    let chars = chars_of(content);
    let pieces = split_exec(&chars, ' ');
    proof {
        lemma_split_len_bound(content@, ' ');
        assert(char_vec_views(pieces@).len() == pieces@.len());
    }
    pieces.len() * 10
}

/// The stored record after a message by `id` earning `gain` points, given the
/// record stored before (if any).
pub fn award_xp(existing: Option<User>, id: u64, gain: usize) -> (u: User)
    requires
        existing matches Some(e) ==> e.xp + gain <= usize::MAX,
    ensures
        u == award_spec(existing, id, gain),
{
    match existing {
        Some(e) => {
            let xp = e.xp + gain;
            User { id: e.id, xp, level: xp / 100 }
        },
        None => User { id, xp: gain, level: 0 },
    }
}

/// The level to show for a user, zero when nothing is stored.
pub fn level_of(user: Option<User>) -> (level: usize)
    ensures
        level == (match user {
            Some(u) => u.level,
            None => 0,
        }),
{
    match user {
        Some(u) => u.level,
        None => 0,
    }
}

/// The points to show for a user, zero when nothing is stored.
pub fn xp_of(user: Option<User>) -> (xp: usize)
    ensures
        xp == (match user {
            Some(u) => u.xp,
            None => 0,
        }),
{
    match user {
        Some(u) => u.xp,
        None => 0,
    }
}

/// A message earns ten points for each space in it, plus ten.
pub proof fn law_gain_counts_spaces(content: Seq<char>)
    ensures
        xp_gain_spec(content) == (content.filter(|c: char| c == ' ').len() + 1) * 10,
{
    lemma_split_len(content, ' ');
}

/// A stored user's points only grow, by exactly the points earned, and their
/// level is always their points divided by a hundred afterwards.
pub proof fn law_stored_user_level(existing: User, id: u64, gain: usize)
    requires
        existing.xp + gain <= usize::MAX,
    ensures
        award_spec(Some(existing), id, gain).xp == existing.xp + gain,
        award_spec(Some(existing), id, gain).level == award_spec(Some(existing), id, gain).xp / 100,
        award_spec(Some(existing), id, gain).id == existing.id,
{
}

/// The reply to `/level`; it mentions the member who asked.
pub open spec fn level_reply_spec(asker: u64, level: usize) -> Seq<char> {
    user_mention_spec(asker) + " is level "@ + decimal(level as nat)
}

/// The reply to `/level`.
pub fn level_reply(asker: u64, level: usize) -> (r: String)
    ensures
        r@ == level_reply_spec(asker, level),
{
    let mut r = user_mention(asker);
    r.append(" is level ");
    r.append(decimal_string(level as u64).as_str());
    r
}

/// The reply to `/xp`.
pub open spec fn xp_reply_spec(user: u64, xp: usize) -> Seq<char> {
    user_mention_spec(user) + " has "@ + decimal(xp as nat) + " xp"@
}

/// The reply to `/xp`.
pub fn xp_reply(user: u64, xp: usize) -> (r: String)
    ensures
        r@ == xp_reply_spec(user, xp),
{
    let mut r = user_mention(user);
    r.append(" has ");
    r.append(decimal_string(xp as u64).as_str());
    r.append(" xp");
    r
}

} // verus!
