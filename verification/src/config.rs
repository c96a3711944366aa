//! Per-guild configuration: which plugins are on, the moderation word list,
//! the log channel, tracked users and AFK statuses.
use std::collections::HashMap;
use vstd::prelude::*;

use crate::text::{string_views, chars_of, chars_eq};


verus! {

broadcast use vstd::std_specs::hash::group_hash_axioms;

/// The optional features a guild can switch on.
#[derive(Debug, Clone, Copy, PartialEq, Eq, Structural)]
pub enum Plugins {
    Afk,
    Automod,
    Chat,
    Logging,
    Xp,
}

/// The display name of a plugin.
pub open spec fn plugin_name(p: Plugins) -> Seq<char> {
    match p {
        Plugins::Afk => "Afk"@,
        Plugins::Automod => "Automod"@,
        Plugins::Chat => "Chat"@,
        Plugins::Logging => "Logging"@,
        Plugins::Xp => "Xp"@,
    }
}

impl Plugins {
    /// The display name of the plugin.
    pub fn to_str(&self) -> (s: &'static str)
        ensures
            s@ == plugin_name(*self),
    {
        match self {
            Plugins::Afk => "Afk",
            Plugins::Automod => "Automod",
            Plugins::Chat => "Chat",
            Plugins::Logging => "Logging",
            Plugins::Xp => "Xp",
        }
    }
}

/// Whether `list` holds `p`.
pub fn plugin_listed(list: &Vec<Plugins>, p: Plugins) -> (r: bool)
    ensures
        r == list@.contains(p),
{
    for i in 0..list.len()
        invariant
            forall|j: int| 0 <= j < i ==> list@[j] != p,
    {
        if list[i] == p {
            assert(list@[i as int] == p);
            return true;
        }
    }
    false
}

/// Shorthands for asking whether a plugin is enabled in a plugin list.
pub trait IsPlugin {
    /// Whether plugin `p` is in the list.
    spec fn enabled(&self, p: Plugins) -> bool;

    /// Shorthand for checking if afk plugin is enabled.
    fn afk(&self) -> (r: bool)
        ensures
            r == self.enabled(Plugins::Afk),
    ;

    /// Shorthand for checking if automod plugin is enabled.
    fn automod(&self) -> (r: bool)
        ensures
            r == self.enabled(Plugins::Automod),
    ;

    /// Shorthand for checking if chat plugin is enabled.
    fn chat(&self) -> (r: bool)
        ensures
            r == self.enabled(Plugins::Chat),
    ;

    /// Shorthand for checking if logging plugin is enabled.
    fn logging(&self) -> (r: bool)
        ensures
            r == self.enabled(Plugins::Logging),
    ;

    /// Shorthand for checking if xp plugin is enabled.
    fn xp(&self) -> (r: bool)
        ensures
            r == self.enabled(Plugins::Xp),
    ;
}

impl IsPlugin for Vec<Plugins> {
    open spec fn enabled(&self, p: Plugins) -> bool {
        self@.contains(p)
    }

    fn afk(&self) -> (r: bool) {
        plugin_listed(self, Plugins::Afk)
    }

    fn automod(&self) -> (r: bool) {
        plugin_listed(self, Plugins::Automod)
    }

    fn chat(&self) -> (r: bool) {
        plugin_listed(self, Plugins::Chat)
    }

    fn logging(&self) -> (r: bool) {
        plugin_listed(self, Plugins::Logging)
    }

    fn xp(&self) -> (r: bool) {
        plugin_listed(self, Plugins::Xp)
    }
}

/// The abstract content of a guild's configuration.
pub struct GuildConfigModel {
    pub automod: bool,
    pub blacklisted_words: Seq<Seq<char>>,
    pub id: u64,
    pub log_channel_id: Option<u64>,
    pub users: Map<u64, usize>,
    pub afk: Map<u64, Seq<char>>,
    pub plugins: Seq<Plugins>,
}

/// One write through a mutable accessor of a configuration: the field it
/// reaches and the value left there when the borrow ends.
pub enum ConfigWrite {
    Automod(bool),
    BlacklistedWords(Seq<Seq<char>>),
    LogChannel(Option<u64>),
    Users(Map<u64, usize>),
    Afk(Map<u64, Seq<char>>),
    Plugins(Seq<Plugins>),
}

/// A configuration after one write: the reached field holds the new value,
/// every other field is as before.
pub open spec fn apply_write(c: GuildConfigModel, w: ConfigWrite) -> GuildConfigModel {
    match w {
        ConfigWrite::Automod(v) => GuildConfigModel { automod: v, ..c },
        ConfigWrite::BlacklistedWords(v) => GuildConfigModel { blacklisted_words: v, ..c },
        ConfigWrite::LogChannel(v) => GuildConfigModel { log_channel_id: v, ..c },
        ConfigWrite::Users(v) => GuildConfigModel { users: v, ..c },
        ConfigWrite::Afk(v) => GuildConfigModel { afk: v, ..c },
        ConfigWrite::Plugins(v) => GuildConfigModel { plugins: v, ..c },
    }
}

/// A configuration after a sequence of writes, applied in order.
pub open spec fn apply_writes(c: GuildConfigModel, ws: Seq<ConfigWrite>) -> GuildConfigModel
    decreases ws.len(),
{
    if ws.len() == 0 {
        c
    } else {
        apply_write(apply_writes(c, ws.drop_last()), ws.last())
    }
}

/// No write through the mutable accessors changes which guild a
/// configuration belongs to, however many are made and in whatever order.
pub proof fn law_writes_keep_guild_id(c: GuildConfigModel, ws: Seq<ConfigWrite>)
    ensures
        apply_writes(c, ws).id == c.id,
    decreases ws.len(),
{
    if ws.len() > 0 {
        law_writes_keep_guild_id(c, ws.drop_last());
    }
}

/// The character views of the values of a map of strings.
pub open spec fn afk_view(m: Map<u64, String>) -> Map<u64, Seq<char>> {
    m.map_values(|s: String| s@)
}

/// Removing a user's AFK status through the AFK accessor clears that user's
/// entry and nothing else: every other user's status, and every other field
/// of the configuration, stay as they were.
pub proof fn law_afk_removal_through_accessor(
    c: GuildConfigModel,
    afk: Map<u64, String>,
    user: u64,
)
    requires
        afk_view(afk) == c.afk,
    ensures
        apply_write(c, ConfigWrite::Afk(afk_view(afk.remove(user))))
            == (GuildConfigModel { afk: c.afk.remove(user), ..c }),
        !apply_write(c, ConfigWrite::Afk(afk_view(afk.remove(user)))).afk.contains_key(user),
        forall|k: u64|
            k != user && c.afk.contains_key(k) ==> apply_write(
                c,
                ConfigWrite::Afk(afk_view(afk.remove(user))),
            ).afk.contains_key(k) && apply_write(
                c,
                ConfigWrite::Afk(afk_view(afk.remove(user))),
            ).afk[k] == c.afk[k],
{
    assert(afk_view(afk.remove(user)) =~= c.afk.remove(user));
}

/// `words` with every entry equal to `w` left out, the rest in order.
pub open spec fn without_word(words: Seq<Seq<char>>, w: Seq<char>) -> Seq<Seq<char>>
    decreases words.len(),
{
    if words.len() == 0 {
        words
    } else if words.last() == w {
        without_word(words.drop_last(), w)
    } else {
        without_word(words.drop_last(), w).push(words.last())
    }
}

/// For each mentioned user who is away, in mention order, the user and the
/// reason they gave.
pub open spec fn afk_notices_spec(afk: Map<u64, Seq<char>>, mentions: Seq<u64>) -> Seq<(u64, Seq<char>)>
    decreases mentions.len(),
{
    if mentions.len() == 0 {
        Seq::empty()
    } else {
        let prev = afk_notices_spec(afk, mentions.drop_last());
        let m = mentions.last();
        if afk.contains_key(m) {
            prev.push((m, afk[m]))
        } else {
            prev
        }
    }
}

/// The character views of the reasons in a list of AFK notices.
pub open spec fn notice_views(v: Seq<(u64, String)>) -> Seq<(u64, Seq<char>)> {
    v.map_values(|n: (u64, String)| (n.0, n.1@))
}

/// The configuration of one guild.
pub struct GuildConfig {
    automod: bool,
    blacklisted_words: Vec<String>,
    id: u64,
    log_channel_id: Option<u64>,
    users: HashMap<u64, usize>,
    afk: HashMap<u64, String>,
    plugins: Vec<Plugins>,
}

impl View for GuildConfig {
    type V = GuildConfigModel;

    closed spec fn view(&self) -> GuildConfigModel {
        GuildConfigModel {
            automod: self.automod,
            blacklisted_words: string_views(self.blacklisted_words@),
            id: self.id,
            log_channel_id: self.log_channel_id,
            users: self.users@,
            afk: afk_view(self.afk@),
            plugins: self.plugins@,
        }
    }
}

impl GuildConfig {
    /// A fresh configuration for guild `id`: automod off, no words, no log
    /// channel, nobody tracked, nobody away, no plugins.
    pub fn new(id: u64) -> (c: Self)
        ensures
            c@ == (GuildConfigModel {
                automod: false,
                blacklisted_words: Seq::empty(),
                id: id,
                log_channel_id: None,
                users: Map::empty(),
                afk: Map::empty(),
                plugins: Seq::empty(),
            }),
    {
        let c = GuildConfig {
            automod: false,
            blacklisted_words: Vec::new(),
            id,
            log_channel_id: None,
            users: HashMap::new(),
            afk: HashMap::new(),
            plugins: Vec::new(),
        };
        assert(string_views(c.blacklisted_words@) =~= Seq::empty());
        assert(afk_view(c.afk@) =~= Map::empty());
        c
    }

    pub fn get_automod(&self) -> (r: bool)
        ensures
            r == self@.automod,
    {
        self.automod
    }

    pub fn get_automod_mut(&mut self) -> (r: &mut bool)
        ensures
            *r == old(self)@.automod,
            final(self)@ == apply_write(old(self)@, ConfigWrite::Automod(*final(r))),
    {
        &mut self.automod
    }

    pub fn get_blacklisted_words(&self) -> (r: &Vec<String>)
        ensures
            string_views(r@) == self@.blacklisted_words,
    {
        &self.blacklisted_words
    }

    pub fn get_blacklisted_words_mut(&mut self) -> (r: &mut Vec<String>)
        ensures
            string_views((*r)@) == old(self)@.blacklisted_words,
            final(self)@ == apply_write(
                old(self)@,
                ConfigWrite::BlacklistedWords(string_views((*final(r))@)),
            ),
    {
        &mut self.blacklisted_words
    }

    pub fn get_id(&self) -> (r: u64)
        ensures
            r == self@.id,
    {
        self.id
    }

    pub fn get_log_channel_id(&self) -> (r: Option<u64>)
        ensures
            r == self@.log_channel_id,
    {
        self.log_channel_id
    }

    pub fn get_log_channel_id_mut(&mut self) -> (r: &mut Option<u64>)
        ensures
            *r == old(self)@.log_channel_id,
            final(self)@ == apply_write(old(self)@, ConfigWrite::LogChannel(*final(r))),
    {
        &mut self.log_channel_id
    }

    pub fn get_users(&self) -> (r: &HashMap<u64, usize>)
        ensures
            r@ == self@.users,
    {
        &self.users
    }

    pub fn get_users_mut(&mut self) -> (r: &mut HashMap<u64, usize>)
        ensures
            (*r)@ == old(self)@.users,
            final(self)@ == apply_write(old(self)@, ConfigWrite::Users((*final(r))@)),
    {
        &mut self.users
    }

    pub fn get_afk(&self) -> (r: &HashMap<u64, String>)
        ensures
            afk_view(r@) == self@.afk,
    {
        &self.afk
    }

    pub fn get_afk_mut(&mut self) -> (r: &mut HashMap<u64, String>)
        ensures
            afk_view((*r)@) == old(self)@.afk,
            final(self)@ == apply_write(old(self)@, ConfigWrite::Afk(afk_view((*final(r))@))),
    {
        &mut self.afk
    }

    pub fn get_plugins(&self) -> (r: &Vec<Plugins>)
        ensures
            r@ == self@.plugins,
    {
        &self.plugins
    }

    pub fn get_plugins_mut(&mut self) -> (r: &mut Vec<Plugins>)
        ensures
            (*r)@ == old(self)@.plugins,
            final(self)@ == apply_write(old(self)@, ConfigWrite::Plugins((*final(r))@)),
    {
        &mut self.plugins
    }

    /// A configuration with exactly the given contents, as read back from storage.
    pub fn from_parts(
        automod: bool,
        blacklisted_words: Vec<String>,
        id: u64,
        log_channel_id: Option<u64>,
        users: HashMap<u64, usize>,
        afk: HashMap<u64, String>,
        plugins: Vec<Plugins>,
    ) -> (c: Self)
        ensures
            c@ == (GuildConfigModel {
                automod: automod,
                blacklisted_words: string_views(blacklisted_words@),
                id: id,
                log_channel_id: log_channel_id,
                users: users@,
                afk: afk_view(afk@),
                plugins: plugins@,
            }),
    {
        GuildConfig { automod, blacklisted_words, id, log_channel_id, users, afk, plugins }
    }

    /// Starts counting `user` at zero unless they are already counted.
    pub fn track_user(&mut self, user: u64)
        ensures
            final(self)@ == (GuildConfigModel {
                users: if old(self)@.users.contains_key(user) {
                    old(self)@.users
                } else {
                    old(self)@.users.insert(user, 0)
                },
                ..old(self)@
            }),
    {
        if !self.users.contains_key(&user) {
            self.users.insert(user, 0);
        }
    }

    /// Marks `user` as away with the given reason, replacing any earlier one.
    pub fn set_afk(&mut self, user: u64, reason: String)
        ensures
            final(self)@ == (GuildConfigModel {
                afk: old(self)@.afk.insert(user, reason@),
                ..old(self)@
            }),
    {
        let ghost r = reason@;
        self.afk.insert(user, reason);
        assert(afk_view(self.afk@) =~= old(self)@.afk.insert(user, r));
    }

    /// Clears the away status of `user`; tells whether they were away.
    pub fn clear_afk(&mut self, user: u64) -> (was_afk: bool)
        ensures
            was_afk == old(self)@.afk.contains_key(user),
            final(self)@ == (GuildConfigModel { afk: old(self)@.afk.remove(user), ..old(self)@ }),
    {
        let removed = self.afk.remove(&user);
        assert(afk_view(self.afk@) =~= old(self)@.afk.remove(user));
        removed.is_some()
    }

    /// For each mentioned user who is away, in mention order, the user and
    /// the reason they gave.
    pub fn afk_notices(&self, mentions: &Vec<u64>) -> (r: Vec<(u64, String)>)
        ensures
            notice_views(r@) == afk_notices_spec(self@.afk, mentions@),
    {
        let mut r: Vec<(u64, String)> = Vec::new();
        for i in 0..mentions.len()
            invariant
                notice_views(r@) == afk_notices_spec(afk_view(self.afk@), mentions@.take(i as int)),
        {
            let m = mentions[i];
            assert(mentions@.take(i + 1).drop_last() =~= mentions@.take(i as int));
            assert(mentions@.take(i + 1).last() == m);
            let ghost before = notice_views(r@);
            match self.afk.get(&m) {
                Some(reason) => {
                    r.push((m, reason.clone()));
                    assert(notice_views(r@) =~= before.push((m, afk_view(self.afk@)[m])));
                },
                None => {},
            }
        }
        assert(mentions@.take(mentions.len() as int) =~= mentions@);
        r
    }

    /// Adds `word` to the end of the moderation word list.
    pub fn blacklist_word(&mut self, word: String)
        ensures
            final(self)@ == (GuildConfigModel {
                blacklisted_words: old(self)@.blacklisted_words.push(word@),
                ..old(self)@
            }),
    {
        let ghost w = word@;
        self.blacklisted_words.push(word);
        assert(string_views(self.blacklisted_words@) =~= old(self)@.blacklisted_words.push(w));
    }

    /// Drops every entry equal to `word` from the moderation word list.
    pub fn remove_blacklisted_word(&mut self, word: &str)
        ensures
            final(self)@ == (GuildConfigModel {
                blacklisted_words: without_word(old(self)@.blacklisted_words, word@),
                ..old(self)@
            }),
    {
        let w = chars_of(word);
        let mut kept: Vec<String> = Vec::new();
        let ghost views = string_views(self.blacklisted_words@);
        for i in 0..self.blacklisted_words.len()
            invariant
                views == string_views(self.blacklisted_words@),
                w@ == word@,
                string_views(kept@) == without_word(views.take(i as int), word@),
        {
            assert(views.take(i + 1).drop_last() =~= views.take(i as int));
            let entry = chars_of(self.blacklisted_words[i].as_str());
            let ghost before = string_views(kept@);
            if !chars_eq(&entry, &w) {
                kept.push(self.blacklisted_words[i].clone());
                assert(string_views(kept@) =~= before.push(views[i as int]));
            }
        }
        assert(views.take(self.blacklisted_words.len() as int) =~= views);
        self.blacklisted_words = kept;
    }

    /// Switches the automod flag.
    pub fn set_automod(&mut self, value: bool)
        ensures
            final(self)@ == (GuildConfigModel { automod: value, ..old(self)@ }),
    {
        self.automod = value;
    }

    /// Sets the channel that message events are logged to.
    pub fn set_log_channel(&mut self, channel: u64)
        ensures
            final(self)@ == (GuildConfigModel { log_channel_id: Some(channel), ..old(self)@ }),
    {
        self.log_channel_id = Some(channel);
    }
}

} // verus!
