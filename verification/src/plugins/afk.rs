//! AFK tracking on incoming messages: mentioned users who are away are
//! announced, and an away author is welcomed back.
use vstd::prelude::*;

use crate::config::{GuildConfig, GuildConfigModel, afk_notices_spec, notice_views};
use crate::text::{user_mention, user_mention_spec};

verus! {

/// What the AFK plugin does with a message: the notices to post for
/// mentioned away users, and whether the author was away (and is no longer).
pub struct AfkOutcome {
    pub notices: Vec<(u64, String)>,
    pub author_returned: bool,
}

/// The configuration after a message by `author`: their away status is gone.
pub open spec fn after_message(c: GuildConfigModel, author: u64) -> GuildConfigModel {
    GuildConfigModel { afk: c.afk.remove(author), ..c }
}

/// Handles a message by `author` that mentions `mentions`: the notices are
/// computed before the author's own status is cleared.
pub fn run_afk(config: &mut GuildConfig, author: u64, mentions: &Vec<u64>) -> (r: AfkOutcome)
    ensures
        notice_views(r.notices@) == afk_notices_spec(old(config)@.afk, mentions@),
        r.author_returned == old(config)@.afk.contains_key(author),
        final(config)@ == after_message(old(config)@, author),
{
    let notices = config.afk_notices(mentions);
    let author_returned = config.clear_afk(author);
    AfkOutcome { notices, author_returned }
}

/// The text announcing that a mentioned user is away.
pub open spec fn afk_notice_spec(user: u64, reason: Seq<char>) -> Seq<char> {
    user_mention_spec(user) + " is afk: "@ + reason
}

/// The text announcing that a mentioned user is away.
pub fn afk_notice_text(user: u64, reason: &str) -> (r: String)
    ensures
        r@ == afk_notice_spec(user, reason@),
{
    let mut r = user_mention(user);
    r.append(" is afk: ");
    r.append(reason);
    r
}

/// The reply to `/afk`, which records the status before answering.
pub open spec fn afk_set_reply_spec(user: u64, reason: Seq<char>) -> Seq<char> {
    user_mention_spec(user) + " Set your AFK status to: "@ + reason
}

/// Records `/afk` for `user` and gives the reply text.
pub fn run_afk_command(config: &mut GuildConfig, user: u64, reason: &str) -> (r: String)
    ensures
        r@ == afk_set_reply_spec(user, reason@),
        final(config)@ == (GuildConfigModel { afk: old(config)@.afk.insert(user, reason@), ..old(config)@ }),
{
    config.set_afk(user, String::from_str(reason));
    let mut r = user_mention(user);
    r.append(" Set your AFK status to: ");
    r.append(reason);
    r
}

/// Whoever sets a status and then speaks is no longer away, and the
/// message that brings them back is announced as a return.
pub proof fn law_speaking_ends_afk(c: GuildConfigModel, user: u64, reason: Seq<char>)
    ensures
        ({
            let set = GuildConfigModel { afk: c.afk.insert(user, reason), ..c };
            &&& set.afk.contains_key(user)
            &&& !after_message(set, user).afk.contains_key(user)
            &&& after_message(set, user).afk == c.afk.remove(user)
        }),
{
    let set = GuildConfigModel { afk: c.afk.insert(user, reason), ..c };
    assert(after_message(set, user).afk =~= c.afk.remove(user));
}

/// A mention of an away user is announced with the reason they gave; a
/// mention of anyone else is not.
pub proof fn law_notice_for_each_away_mention(afk: Map<u64, Seq<char>>, mentions: Seq<u64>)
    ensures
        forall|i: int| 0 <= i < afk_notices_spec(afk, mentions).len() ==> {
            let n = #[trigger] afk_notices_spec(afk, mentions)[i];
            afk.contains_key(n.0) && afk[n.0] == n.1 && mentions.contains(n.0)
        },
        afk_notices_spec(afk, mentions).len() <= mentions.len(),
    decreases mentions.len(),
{
    if mentions.len() > 0 {
        law_notice_for_each_away_mention(afk, mentions.drop_last());
        let prev = afk_notices_spec(afk, mentions.drop_last());
        assert forall|i: int| 0 <= i < afk_notices_spec(afk, mentions).len() implies {
            let n = #[trigger] afk_notices_spec(afk, mentions)[i];
            afk.contains_key(n.0) && afk[n.0] == n.1 && mentions.contains(n.0)
        } by {
            if i < prev.len() {
                let n = prev[i];
                assert(afk_notices_spec(afk, mentions)[i] == n);
                let k = choose|k: int| 0 <= k < mentions.drop_last().len() && mentions.drop_last()[k] == n.0;
                assert(mentions[k] == n.0);
            } else {
                assert(mentions[mentions.len() - 1] == mentions.last());
            }
        }
    }
}

} // verus!
