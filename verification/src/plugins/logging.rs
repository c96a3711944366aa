//! Message logging: where a guild's log entries go and how they are labelled.
use vstd::prelude::*;

use crate::commands::timeout::{timestamp_from_unix, unix_time_representable, UnixTimestamp};
use crate::config::{GuildConfig, GuildConfigModel};
use crate::plugins::config::{config_after, config_request};
use crate::text::{decimal, decimal_string};

verus! {

/// A message as kept in the message store, for logging its deletion later.
#[derive(Debug, PartialEq, Eq)]
pub struct SimplifiedMessage {
    pub id: u64,
    pub author_id: u64,
    pub channel_id: u64,
    pub content: String,
    pub unix_timestamp: i64,
}

/// The channel a log entry is posted to: the configured log channel, when
/// the guild still has a channel with that id.
pub open spec fn log_target_spec(log_channel: Option<u64>, channels: Seq<u64>) -> Option<u64> {
    match log_channel {
        Some(id) => if channels.contains(id) {
            Some(id)
        } else {
            None
        },
        None => None,
    }
}

/// The channel a log entry is posted to, given the ids of the guild's
/// channels.
pub fn log_target(config: &GuildConfig, channels: &Vec<u64>) -> (r: Option<u64>)
    ensures
        r == log_target_spec(config@.log_channel_id, channels@),
{
    match config.get_log_channel_id() {
        None => None,
        Some(id) => {
            for i in 0..channels.len()
                invariant
                    config@.log_channel_id == Some(id),
                    forall|j: int| 0 <= j < i ==> channels@[j] != id,
            {
                if channels[i] == id {
                    assert(channels@[i as int] == id);
                    assert(channels@.contains(id));
                    return Some(id);
                }
            }
            None
        },
    }
}

/// The time stamped on the log entry of a deleted message: when the message
/// was sent; `None` when that time is no date a timestamp can hold.
pub fn deleted_message_time(msg: &SimplifiedMessage) -> (r: Option<UnixTimestamp>)
    ensures
        r is Some <==> unix_time_representable(msg.unix_timestamp),
        r matches Some(t) ==> t.secs() == msg.unix_timestamp,
{
    timestamp_from_unix(msg.unix_timestamp)
}

/// The footer of a log entry.
pub open spec fn log_footer_spec(user: u64, message: u64, channel: u64) -> Seq<char> {
    "User ID: "@ + decimal(user as nat) + " | Message ID: "@ + decimal(message as nat)
        + " | Channel ID: "@ + decimal(channel as nat)
}

/// The footer of a log entry: the ids of the author, the message and the
/// channel.
pub fn log_footer(user: u64, message: u64, channel: u64) -> (r: String)
    ensures
        r@ == log_footer_spec(user, message, channel),
{
    let mut r = String::from_str("User ID: ");
    r.append(decimal_string(user).as_str());
    r.append(" | Message ID: ");
    r.append(decimal_string(message).as_str());
    r.append(" | Channel ID: ");
    r.append(decimal_string(channel).as_str());
    r
}

/// Once `!config set log_channel` has named a channel, message events are
/// logged to it for as long as the guild has that channel, and nowhere
/// otherwise.
pub proof fn law_log_follows_config(c: GuildConfigModel, content: Seq<char>, channels: Seq<u64>)
    requires
        config_request(content) is SetLogChannel,
    ensures
        ({
            let n = config_request(content)->SetLogChannel_0;
            log_target_spec(config_after(c, config_request(content)).log_channel_id, channels)
                == if channels.contains(n) {
                Some(n)
            } else {
                None
            }
        }),
{
}

} // verus!
