//! Event routing: which slash command or button an interaction names, and
//! which plugins run for an incoming message.
use vstd::prelude::*;

use crate::config::{IsPlugin, Plugins};
use crate::text::{chars_eq_str, chars_of, decimal, decimal_string, starts_with, starts_with_exec};

verus! {

/// The slash commands the bot answers.
#[derive(Debug, Clone, Copy, PartialEq, Eq, Structural)]
pub enum SlashCommand {
    Echo,
    Timeout,
    Config,
    AddRole,
    RemoveRole,
    Automod,
    BlacklistWord,
    Xp,
    Imagine,
    SavedImagines,
    Avatar,
    AskGpt,
    Help,
    Afk,
    Purge,
    Warn,
    Warns,
    Chat,
    RemoveWarn,
    DownloadVideo,
    RemoveBlacklistedWord,
}

/// The slash command registered under `name`.
pub open spec fn slash_command_spec(name: Seq<char>) -> Option<SlashCommand> {
    if name == "echo"@ {
        Some(SlashCommand::Echo)
    } else if name == "timeout"@ {
        Some(SlashCommand::Timeout)
    } else if name == "config"@ {
        Some(SlashCommand::Config)
    } else if name == "add_role"@ {
        Some(SlashCommand::AddRole)
    } else if name == "remove_role"@ {
        Some(SlashCommand::RemoveRole)
    } else if name == "automod"@ {
        Some(SlashCommand::Automod)
    } else if name == "blacklist_word"@ {
        Some(SlashCommand::BlacklistWord)
    } else if name == "xp"@ {
        Some(SlashCommand::Xp)
    } else if name == "imagine"@ {
        Some(SlashCommand::Imagine)
    } else if name == "saved_imagines"@ {
        Some(SlashCommand::SavedImagines)
    } else if name == "avatar"@ {
        Some(SlashCommand::Avatar)
    } else if name == "ask_gpt"@ {
        Some(SlashCommand::AskGpt)
    } else if name == "help"@ {
        Some(SlashCommand::Help)
    } else if name == "afk"@ {
        Some(SlashCommand::Afk)
    } else if name == "purge"@ {
        Some(SlashCommand::Purge)
    } else if name == "warn"@ {
        Some(SlashCommand::Warn)
    } else if name == "warns"@ {
        Some(SlashCommand::Warns)
    } else if name == "chat"@ {
        Some(SlashCommand::Chat)
    } else if name == "remove_warn"@ {
        Some(SlashCommand::RemoveWarn)
    } else if name == "download_video"@ {
        Some(SlashCommand::DownloadVideo)
    } else if name == "remove_blacklisted_word"@ {
        Some(SlashCommand::RemoveBlacklistedWord)
    } else {
        None
    }
}

/// The slash command an interaction names; `None` for any other name, which
/// the bot ignores.
pub fn slash_command(name: &str) -> (r: Option<SlashCommand>)
    ensures
        r == slash_command_spec(name@),
{
    let n = chars_of(name);
    if chars_eq_str(&n, "echo") {
        Some(SlashCommand::Echo)
    } else if chars_eq_str(&n, "timeout") {
        Some(SlashCommand::Timeout)
    } else if chars_eq_str(&n, "config") {
        Some(SlashCommand::Config)
    } else if chars_eq_str(&n, "add_role") {
        Some(SlashCommand::AddRole)
    } else if chars_eq_str(&n, "remove_role") {
        Some(SlashCommand::RemoveRole)
    } else if chars_eq_str(&n, "automod") {
        Some(SlashCommand::Automod)
    } else if chars_eq_str(&n, "blacklist_word") {
        Some(SlashCommand::BlacklistWord)
    } else if chars_eq_str(&n, "xp") {
        Some(SlashCommand::Xp)
    } else if chars_eq_str(&n, "imagine") {
        Some(SlashCommand::Imagine)
    } else if chars_eq_str(&n, "saved_imagines") {
        Some(SlashCommand::SavedImagines)
    } else if chars_eq_str(&n, "avatar") {
        Some(SlashCommand::Avatar)
    } else if chars_eq_str(&n, "ask_gpt") {
        Some(SlashCommand::AskGpt)
    } else if chars_eq_str(&n, "help") {
        Some(SlashCommand::Help)
    } else if chars_eq_str(&n, "afk") {
        Some(SlashCommand::Afk)
    } else if chars_eq_str(&n, "purge") {
        Some(SlashCommand::Purge)
    } else if chars_eq_str(&n, "warn") {
        Some(SlashCommand::Warn)
    } else if chars_eq_str(&n, "warns") {
        Some(SlashCommand::Warns)
    } else if chars_eq_str(&n, "chat") {
        Some(SlashCommand::Chat)
    } else if chars_eq_str(&n, "remove_warn") {
        Some(SlashCommand::RemoveWarn)
    } else if chars_eq_str(&n, "download_video") {
        Some(SlashCommand::DownloadVideo)
    } else if chars_eq_str(&n, "remove_blacklisted_word") {
        Some(SlashCommand::RemoveBlacklistedWord)
    } else {
        None
    }
}

/// The buttons the bot answers.
#[derive(Debug, Clone, Copy, PartialEq, Eq, Structural)]
pub enum ComponentAction {
    ImagineRetry,
    ImagineSave,
}

/// The button action registered under `custom_id`.
pub open spec fn component_action_spec(custom_id: Seq<char>) -> Option<ComponentAction> {
    if custom_id == "imagine_retry"@ {
        Some(ComponentAction::ImagineRetry)
    } else if custom_id == "imagine_save"@ {
        Some(ComponentAction::ImagineSave)
    } else {
        None
    }
}

/// The button action a component interaction names; `None` for any other id.
pub fn component_action(custom_id: &str) -> (r: Option<ComponentAction>)
    ensures
        r == component_action_spec(custom_id@),
{
    let n = chars_of(custom_id);
    if chars_eq_str(&n, "imagine_retry") {
        Some(ComponentAction::ImagineRetry)
    } else if chars_eq_str(&n, "imagine_save") {
        Some(ComponentAction::ImagineSave)
    } else {
        None
    }
}

/// Where an incoming message goes.
#[derive(Debug, Clone, Copy, PartialEq, Eq, Structural)]
pub enum MessageRoute {
    /// Sent by a bot: nothing happens.
    Ignore,
    /// Sent outside a guild: answered as a private chat.
    DirectMessage,
    /// A `!config` command in a guild.
    ConfigCommand,
    /// Any other guild message: the guild's plugins see it.
    Plugins,
}

/// Where an incoming message goes.
pub open spec fn route_spec(author_is_bot: bool, in_guild: bool, content: Seq<char>) -> MessageRoute {
    if author_is_bot {
        MessageRoute::Ignore
    } else if !in_guild {
        MessageRoute::DirectMessage
    } else if starts_with(content, "!config"@) {
        MessageRoute::ConfigCommand
    } else {
        MessageRoute::Plugins
    }
}

/// Where an incoming message goes.
pub fn route_message(author_is_bot: bool, in_guild: bool, content: &str) -> (r: MessageRoute)
    ensures
        r == route_spec(author_is_bot, in_guild, content@),
{
    if author_is_bot {
        MessageRoute::Ignore
    } else if !in_guild {
        MessageRoute::DirectMessage
    } else {
        let chars = chars_of(content);
        if starts_with_exec(&chars, "!config") {
            MessageRoute::ConfigCommand
        } else {
            MessageRoute::Plugins
        }
    }
}

/// The plugins that run after moderation has had its say.
#[derive(Debug, Clone, Copy, PartialEq, Eq, Structural)]
pub struct FollowUp {
    pub award_xp: bool,
    pub check_afk: bool,
    pub chat: bool,
}

/// The plugins that run after moderation: none when the message was
/// deleted; otherwise XP and AFK as enabled, and chat when enabled and the
/// message is in one of the guild's chat channels.
pub open spec fn follow_up_spec(plugins: Seq<Plugins>, deleted: bool, in_chat_channel: bool) -> FollowUp {
    if deleted {
        FollowUp { award_xp: false, check_afk: false, chat: false }
    } else {
        FollowUp {
            award_xp: plugins.contains(Plugins::Xp),
            check_afk: plugins.contains(Plugins::Afk),
            chat: in_chat_channel && plugins.contains(Plugins::Chat),
        }
    }
}

/// The plugins that run after moderation.
pub fn follow_up(plugins: &Vec<Plugins>, deleted: bool, in_chat_channel: bool) -> (r: FollowUp)
    ensures
        r == follow_up_spec(plugins@, deleted, in_chat_channel),
{
    if deleted {
        FollowUp { award_xp: false, check_afk: false, chat: false }
    } else {
        let award_xp = plugins.xp();
        let check_afk = plugins.afk();
        let chat = in_chat_channel && plugins.chat();
        FollowUp { award_xp, check_afk, chat }
    }
}

/// Where a guild's configuration is stored.
pub open spec fn guild_config_path_spec(guild: u64) -> Seq<char> {
    "guilds/"@ + decimal(guild as nat) + ".json"@
}

/// Where a guild's configuration is stored.
pub fn guild_config_path(guild: u64) -> (r: String)
    ensures
        r@ == guild_config_path_spec(guild),
{
    let mut r = String::from_str("guilds/");
    r.append(decimal_string(guild).as_str());
    r.append(".json");
    r
}

/// Where a guild's list of chat channels is stored.
pub open spec fn chat_list_path_spec(guild: u64) -> Seq<char> {
    "guilds/chats/"@ + decimal(guild as nat)
}

/// Where a guild's list of chat channels is stored.
pub fn chat_list_path(guild: u64) -> (r: String)
    ensures
        r@ == chat_list_path_spec(guild),
{
    let mut r = String::from_str("guilds/chats/");
    r.append(decimal_string(guild).as_str());
    r
}

/// The folder that holds a member's warnings in a guild.
pub open spec fn warn_folder_spec(guild: u64, user: u64) -> Seq<char> {
    "guilds/warns/"@ + decimal(guild as nat) + "/"@ + decimal(user as nat) + "/"@
}

/// The folder that holds a member's warnings in a guild.
pub fn warn_folder(guild: u64, user: u64) -> (r: String)
    ensures
        r@ == warn_folder_spec(guild, user),
{
    let mut r = String::from_str("guilds/warns/");
    r.append(decimal_string(guild).as_str());
    r.append("/");
    r.append(decimal_string(user).as_str());
    r.append("/");
    r
}

/// A deleted message is never rewarded, announced or answered.
pub proof fn law_deleted_message_is_inert(plugins: Seq<Plugins>, in_chat_channel: bool)
    ensures
        follow_up_spec(plugins, true, in_chat_channel) == (FollowUp {
            award_xp: false,
            check_afk: false,
            chat: false,
        }),
{
}


/// The name each slash command is registered under with Discord.
pub open spec fn registered_name(c: SlashCommand) -> Seq<char> {
    match c {
        SlashCommand::Echo => "echo"@,
        SlashCommand::Timeout => "timeout"@,
        SlashCommand::Config => "config"@,
        SlashCommand::AddRole => "add_role"@,
        SlashCommand::RemoveRole => "remove_role"@,
        SlashCommand::Automod => "automod"@,
        SlashCommand::BlacklistWord => "blacklist_word"@,
        SlashCommand::Xp => "xp"@,
        SlashCommand::Imagine => "imagine"@,
        SlashCommand::SavedImagines => "saved_imagines"@,
        SlashCommand::Avatar => "avatar"@,
        SlashCommand::AskGpt => "ask_gpt"@,
        SlashCommand::Help => "help"@,
        SlashCommand::Afk => "afk"@,
        SlashCommand::Purge => "purge"@,
        SlashCommand::Warn => "warn"@,
        SlashCommand::Warns => "warns"@,
        SlashCommand::Chat => "chat"@,
        SlashCommand::RemoveWarn => "remove_warn"@,
        SlashCommand::DownloadVideo => "download_video"@,
        SlashCommand::RemoveBlacklistedWord => "remove_blacklisted_word"@,
    }
}

/// The registered names, told apart by their lengths or, at equal length,
/// by a character.
proof fn lemma_registered_names_differ()
    ensures
        "echo"@.len() == 4,
        "timeout"@.len() == 7,
        "config"@.len() == 6,
        "add_role"@.len() == 8,
        "remove_role"@.len() == 11,
        "automod"@.len() == 7,
        "blacklist_word"@.len() == 14,
        "xp"@.len() == 2,
        "imagine"@.len() == 7,
        "saved_imagines"@.len() == 14,
        "avatar"@.len() == 6,
        "ask_gpt"@.len() == 7,
        "help"@.len() == 4,
        "afk"@.len() == 3,
        "purge"@.len() == 5,
        "warn"@.len() == 4,
        "warns"@.len() == 5,
        "chat"@.len() == 4,
        "remove_warn"@.len() == 11,
        "download_video"@.len() == 14,
        "remove_blacklisted_word"@.len() == 23,
        "automod"@[0] != "timeout"@[0],
        "imagine"@[0] != "timeout"@[0],
        "imagine"@[0] != "automod"@[0],
        "saved_imagines"@[0] != "blacklist_word"@[0],
        "avatar"@[0] != "config"@[0],
        "ask_gpt"@[0] != "timeout"@[0],
        "ask_gpt"@[1] != "automod"@[1],
        "ask_gpt"@[0] != "imagine"@[0],
        "help"@[0] != "echo"@[0],
        "warn"@[0] != "echo"@[0],
        "warn"@[0] != "help"@[0],
        "warns"@[0] != "purge"@[0],
        "chat"@[0] != "echo"@[0],
        "chat"@[0] != "help"@[0],
        "chat"@[0] != "warn"@[0],
        "remove_warn"@[7] != "remove_role"@[7],
        "download_video"@[0] != "blacklist_word"@[0],
        "download_video"@[0] != "saved_imagines"@[0],
{
    reveal_strlit("echo");
    reveal_strlit("timeout");
    reveal_strlit("config");
    reveal_strlit("add_role");
    reveal_strlit("remove_role");
    reveal_strlit("automod");
    reveal_strlit("blacklist_word");
    reveal_strlit("xp");
    reveal_strlit("imagine");
    reveal_strlit("saved_imagines");
    reveal_strlit("avatar");
    reveal_strlit("ask_gpt");
    reveal_strlit("help");
    reveal_strlit("afk");
    reveal_strlit("purge");
    reveal_strlit("warn");
    reveal_strlit("warns");
    reveal_strlit("chat");
    reveal_strlit("remove_warn");
    reveal_strlit("download_video");
    reveal_strlit("remove_blacklisted_word");
}

/// Each slash command is reached by the name it is registered under, and by
/// no other name: the names select their own commands, one to one.
pub proof fn law_each_name_selects_its_command(c: SlashCommand, name: Seq<char>)
    ensures
        slash_command_spec(registered_name(c)) == Some(c),
        slash_command_spec(name) == Some(c) ==> name == registered_name(c),
{
    lemma_registered_names_differ();
    match c {
        SlashCommand::Echo => {},
        SlashCommand::Timeout => {},
        SlashCommand::Config => {},
        SlashCommand::AddRole => {},
        SlashCommand::RemoveRole => {},
        SlashCommand::Automod => {},
        SlashCommand::BlacklistWord => {},
        SlashCommand::Xp => {},
        SlashCommand::Imagine => {},
        SlashCommand::SavedImagines => {},
        SlashCommand::Avatar => {},
        SlashCommand::AskGpt => {},
        SlashCommand::Help => {},
        SlashCommand::Afk => {},
        SlashCommand::Purge => {},
        SlashCommand::Warn => {},
        SlashCommand::Warns => {},
        SlashCommand::Chat => {},
        SlashCommand::RemoveWarn => {},
        SlashCommand::DownloadVideo => {},
        SlashCommand::RemoveBlacklistedWord => {},
    }
}

/// Two names that select the same slash command are the same name.
pub proof fn law_slash_names_are_distinct(a: Seq<char>, b: Seq<char>)
    requires
        slash_command_spec(a) is Some,
        slash_command_spec(a) == slash_command_spec(b),
    ensures
        a == b,
{
    let c = slash_command_spec(a)->0;
    law_each_name_selects_its_command(c, a);
    law_each_name_selects_its_command(c, b);
}

/// A message written by a bot is ignored, wherever it was sent and whatever
/// it says.
pub proof fn law_bot_messages_are_ignored(in_guild: bool, content: Seq<char>)
    ensures
        route_spec(true, in_guild, content) == MessageRoute::Ignore,
        forall|bot: bool| route_spec(bot, in_guild, content) == MessageRoute::Ignore ==> bot,
{
}

/// A person's message outside a guild is a private chat; in a guild it goes
/// to the config command exactly when it starts with `!config`, and to the
/// plugins otherwise.
pub proof fn law_human_messages_are_routed_by_place(in_guild: bool, content: Seq<char>)
    ensures
        !in_guild ==> route_spec(false, in_guild, content) == MessageRoute::DirectMessage,
        in_guild ==> (route_spec(false, in_guild, content) == MessageRoute::ConfigCommand
            <==> starts_with(content, "!config"@)),
        in_guild ==> (route_spec(false, in_guild, content) == MessageRoute::Plugins
            <==> !starts_with(content, "!config"@)),
        route_spec(false, in_guild, content) == MessageRoute::DirectMessage ==> !in_guild,
{
}


/// The Retry button retries and the Save button saves; no other id names
/// either.
pub proof fn law_buttons_do_what_they_say(id: Seq<char>)
    ensures
        component_action_spec("imagine_retry"@) == Some(ComponentAction::ImagineRetry),
        component_action_spec("imagine_save"@) == Some(ComponentAction::ImagineSave),
        component_action_spec(id) == Some(ComponentAction::ImagineRetry) ==> id == "imagine_retry"@,
        component_action_spec(id) == Some(ComponentAction::ImagineSave) ==> id == "imagine_save"@,
{
    reveal_strlit("imagine_retry");
    reveal_strlit("imagine_save");
    assert("imagine_save"@.len() != "imagine_retry"@.len());
}

} // verus!
