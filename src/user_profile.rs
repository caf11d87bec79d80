//! The profile directory: per-account profiles, a username index that is kept
//! consistent with them, and per-account statistics.
use crate::profile_laws::{
    lemma_renamed_consistent, lemma_update_profile_consistent, lemma_update_stats_independent,
};
use crate::username_index::{copy_bytes, UsernameIndex};
use std::collections::HashMap;
use vstd::prelude::*;

verus! {

broadcast use vstd::std_specs::hash::group_hash_axioms;

/// Limits fixed when the directory is set up.
#[derive(Clone, Copy, Debug, PartialEq, Eq, Structural)]
pub struct Config {
    /// Longest username, and longest avatar reference, in bytes.
    pub max_username_length: u32,
    /// Longest bio, in bytes.
    pub max_bio_length: u32,
}

/// Failures of the directory calls. Each leaves the directory unchanged.
#[derive(Clone, Copy, Debug, PartialEq, Eq, Structural)]
pub enum Error {
    /// Another account holds the requested username.
    UsernameTaken,
    /// A username or avatar is longer than `max_username_length`.
    UsernameTooLong,
    /// A bio is longer than `max_bio_length`.
    BioTooLong,
}

/// The profile of one account.
#[derive(Clone, Debug, PartialEq, Eq)]
pub struct UserProfile {
    pub account: u64,
    /// Empty until a username is chosen.
    pub username: Vec<u8>,
    pub avatar: Option<Vec<u8>>,
    pub bio: Option<Vec<u8>>,
    /// Block number at which the profile was created.
    pub created_at: u64,
}

/// A profile with its byte strings seen as sequences.
pub struct ProfileView {
    pub account: u64,
    pub username: Seq<u8>,
    pub avatar: Option<Seq<u8>>,
    pub bio: Option<Seq<u8>>,
    pub created_at: u64,
}

/// An optional byte string seen as an optional sequence.
pub open spec fn bytes_opt(o: Option<Vec<u8>>) -> Option<Seq<u8>> {
    match o {
        Some(v) => Some(v@),
        None => None,
    }
}

/// A requested change of an optional byte string, seen over sequences.
pub open spec fn bytes_change(o: Option<Option<Vec<u8>>>) -> Option<Option<Seq<u8>>> {
    match o {
        Some(c) => Some(bytes_opt(c)),
        None => None,
    }
}

impl View for UserProfile {
    type V = ProfileView;

    open spec fn view(&self) -> ProfileView {
        ProfileView {
            account: self.account,
            username: self.username@,
            avatar: bytes_opt(self.avatar),
            bio: bytes_opt(self.bio),
            created_at: self.created_at,
        }
    }
}

/// Racing statistics of one account; all zero at first.
#[derive(Clone, Copy, Debug, PartialEq, Eq, Structural)]
pub struct UserStats {
    pub total_races: u32,
    pub wins: u32,
    pub total_distance: u64,
    pub total_rewards: u128,
}

/// The statistics of an account that has played nothing yet.
pub open spec fn zero_stats() -> UserStats {
    UserStats { total_races: 0, wins: 0, total_distance: 0, total_rewards: 0 }
}

impl Default for UserStats {
    fn default() -> (r: UserStats)
        ensures
            r == zero_stats(),
    {
        UserStats { total_races: 0, wins: 0, total_distance: 0, total_rewards: 0 }
    }
}

/// Notifications emitted by successful directory calls.
#[derive(Clone, Debug, PartialEq, Eq)]
pub enum Event {
    UsernameSet { account: u64, username: Vec<u8> },
    /// Carries only the fields that the call asked to change.
    ProfileUpdated {
        account: u64,
        username: Option<Vec<u8>>,
        avatar: Option<Option<Vec<u8>>>,
        bio: Option<Option<Vec<u8>>>,
    },
    /// Carries all four statistics after the update.
    StatsUpdated {
        account: u64,
        total_races: u32,
        wins: u32,
        total_distance: u64,
        total_rewards: u128,
    },
}

/// An event with its byte strings seen as sequences.
pub enum EventView {
    UsernameSet { account: u64, username: Seq<u8> },
    ProfileUpdated {
        account: u64,
        username: Option<Seq<u8>>,
        avatar: Option<Option<Seq<u8>>>,
        bio: Option<Option<Seq<u8>>>,
    },
    StatsUpdated { account: u64, stats: UserStats },
}

impl View for Event {
    type V = EventView;

    open spec fn view(&self) -> EventView {
        match *self {
            Event::UsernameSet { account, username } => EventView::UsernameSet {
                account,
                username: username@,
            },
            Event::ProfileUpdated { account, username, avatar, bio } => EventView::ProfileUpdated {
                account,
                username: bytes_opt(username),
                avatar: bytes_change(avatar),
                bio: bytes_change(bio),
            },
            Event::StatsUpdated { account, total_races, wins, total_distance, total_rewards } =>
                EventView::StatsUpdated {
                account,
                stats: UserStats { total_races, wins, total_distance, total_rewards },
            },
        }
    }
}

/// The three stores of the directory, as maps.
pub struct DirectoryState {
    pub profiles: Map<u64, ProfileView>,
    pub names: Map<Seq<u8>, u64>,
    pub stats: Map<u64, UserStats>,
}

/// The two indices agree: every username entry points at a profile that
/// holds that name, and every profile with a non-empty name is indexed under
/// it. Every profile belongs to its key and has statistics.
pub open spec fn consistent(s: DirectoryState) -> bool {
    &&& forall|n: Seq<u8>| #[trigger]
        s.names.contains_key(n) ==> s.profiles.contains_key(s.names[n])
            && s.profiles[s.names[n]].username == n
    &&& forall|id: u64| #[trigger]
        s.profiles.contains_key(id) && s.profiles[id].username.len() > 0 ==> s.names.contains_key(
            s.profiles[id].username,
        ) && s.names[s.profiles[id].username] == id
    &&& forall|id: u64| #[trigger]
        s.profiles.contains_key(id) ==> s.stats.contains_key(id) && s.profiles[id].account == id
}

/// A change of an optional text is either "leave", "clear", or a text that fits.
pub open spec fn change_fits(c: Option<Option<Seq<u8>>>, max: u32) -> bool {
    match c {
        Some(Some(t)) => t.len() <= max,
        _ => true,
    }
}

/// An optional text that is absent or no longer than `max`.
pub open spec fn opt_fits(o: Option<Seq<u8>>, max: u32) -> bool {
    match o {
        Some(t) => t.len() <= max,
        None => true,
    }
}

/// Every stored text respects the configured limits.
pub open spec fn within_limits(s: DirectoryState, cfg: Config) -> bool {
    forall|id: u64| #[trigger]
        s.profiles.contains_key(id) ==> s.profiles[id].username.len() <= cfg.max_username_length
            && opt_fits(s.profiles[id].avatar, cfg.max_username_length) && opt_fits(
            s.profiles[id].bio,
            cfg.max_bio_length,
        )
}

/// The caller's profile, or the one that would be created for it at `now`.
pub open spec fn profile_or_default(s: DirectoryState, who: u64, now: u64) -> ProfileView {
    if s.profiles.contains_key(who) {
        s.profiles[who]
    } else {
        ProfileView { account: who, username: Seq::empty(), avatar: None, bio: None, created_at: now }
    }
}

/// `name` is bound to an account other than `who`.
pub open spec fn held_by_other(names: Map<Seq<u8>, u64>, who: u64, name: Seq<u8>) -> bool {
    names.contains_key(name) && names[name] != who
}

/// The index without `who`'s entry for `name`; other accounts' entries stay.
pub open spec fn release_name(names: Map<Seq<u8>, u64>, who: u64, name: Seq<u8>) -> Map<
    Seq<u8>,
    u64,
> {
    if names.contains_key(name) && names[name] == who {
        names.remove(name)
    } else {
        names
    }
}

/// The statistics store with a zero entry for `who` if it had none.
pub open spec fn with_stats(stats: Map<u64, UserStats>, who: u64) -> Map<u64, UserStats> {
    if stats.contains_key(who) {
        stats
    } else {
        stats.insert(who, zero_stats())
    }
}

/// An optional field after a requested change.
pub open spec fn apply_change(cur: Option<Seq<u8>>, c: Option<Option<Seq<u8>>>) -> Option<Seq<u8>> {
    match c {
        Some(v) => v,
        None => cur,
    }
}

/// The directory after `who` takes `name`, creating its profile if needed.
pub open spec fn renamed(s: DirectoryState, who: u64, now: u64, name: Seq<u8>) -> DirectoryState {
    let p = profile_or_default(s, who, now);
    DirectoryState {
        profiles: s.profiles.insert(
            who,
            ProfileView {
                account: p.account,
                username: name,
                avatar: p.avatar,
                bio: p.bio,
                created_at: p.created_at,
            },
        ),
        names: release_name(s.names, who, p.username).insert(name, who),
        stats: with_stats(s.stats, who),
    }
}

/// What `set_username` does: the new directory, or the error it reports.
pub open spec fn set_username_result(
    s: DirectoryState,
    cfg: Config,
    now: u64,
    who: u64,
    name: Seq<u8>,
) -> Result<DirectoryState, Error> {
    if name.len() > cfg.max_username_length {
        Err(Error::UsernameTooLong)
    } else if held_by_other(s.names, who, name) {
        Err(Error::UsernameTaken)
    } else {
        Ok(renamed(s, who, now, name))
    }
}

/// What `update_profile` does: every field is checked before anything is
/// written, so an error leaves the directory as it was.
pub open spec fn update_profile_result(
    s: DirectoryState,
    cfg: Config,
    now: u64,
    who: u64,
    username: Option<Seq<u8>>,
    avatar: Option<Option<Seq<u8>>>,
    bio: Option<Option<Seq<u8>>>,
) -> Result<DirectoryState, Error> {
    if username is Some && username->0.len() > cfg.max_username_length {
        Err(Error::UsernameTooLong)
    } else if username is Some && held_by_other(s.names, who, username->0) {
        Err(Error::UsernameTaken)
    } else if !change_fits(avatar, cfg.max_username_length) {
        Err(Error::UsernameTooLong)
    } else if !change_fits(bio, cfg.max_bio_length) {
        Err(Error::BioTooLong)
    } else {
        let p = profile_or_default(s, who, now);
        let names = match username {
            Some(n) => release_name(s.names, who, p.username).insert(n, who),
            None => s.names,
        };
        let q = ProfileView {
            account: p.account,
            username: match username {
                Some(n) => n,
                None => p.username,
            },
            avatar: apply_change(p.avatar, avatar),
            bio: apply_change(p.bio, bio),
            created_at: p.created_at,
        };
        Ok(DirectoryState { profiles: s.profiles.insert(who, q), names, stats: with_stats(s.stats, who) })
    }
}

/// `new` where it is given, else `cur`.
pub open spec fn overwrite<T>(cur: T, new: Option<T>) -> T {
    match new {
        Some(v) => v,
        None => cur,
    }
}

/// `who`'s statistics after `update_stats`: each given value replaces its field.
pub open spec fn updated_stats(
    s: DirectoryState,
    who: u64,
    total_races: Option<u32>,
    wins: Option<u32>,
    total_distance: Option<u64>,
    total_rewards: Option<u128>,
) -> UserStats {
    let cur = if s.stats.contains_key(who) {
        s.stats[who]
    } else {
        zero_stats()
    };
    UserStats {
        total_races: overwrite(cur.total_races, total_races),
        wins: overwrite(cur.wins, wins),
        total_distance: overwrite(cur.total_distance, total_distance),
        total_rewards: overwrite(cur.total_rewards, total_rewards),
    }
}

/// A copy of an optional byte string.
fn copy_opt(o: &Option<Vec<u8>>) -> (r: Option<Vec<u8>>)
    ensures
        bytes_opt(r) == bytes_opt(*o),
{
    match o {
        Some(v) => Some(copy_bytes(v)),
        None => None,
    }
}

/// A copy of a requested change of an optional byte string.
fn copy_change(c: &Option<Option<Vec<u8>>>) -> (r: Option<Option<Vec<u8>>>)
    ensures
        bytes_change(r) == bytes_change(*c),
{
    match c {
        Some(o) => Some(copy_opt(o)),
        None => None,
    }
}

/// A copy of a profile.
fn copy_profile(p: &UserProfile) -> (r: UserProfile)
    ensures
        r@ == p@,
{
    UserProfile {
        account: p.account,
        username: copy_bytes(&p.username),
        avatar: copy_opt(&p.avatar),
        bio: copy_opt(&p.bio),
        created_at: p.created_at,
    }
}

/// A copy of an event.
fn copy_event(e: &Event) -> (r: Event)
    ensures
        r@ == e@,
{
    match e {
        Event::UsernameSet { account, username } => Event::UsernameSet {
            account: *account,
            username: copy_bytes(username),
        },
        Event::ProfileUpdated { account, username, avatar, bio } => Event::ProfileUpdated {
            account: *account,
            username: copy_opt(username),
            avatar: copy_change(avatar),
            bio: copy_change(bio),
        },
        Event::StatsUpdated { account, total_races, wins, total_distance, total_rewards } =>
            Event::StatsUpdated {
            account: *account,
            total_races: *total_races,
            wins: *wins,
            total_distance: *total_distance,
            total_rewards: *total_rewards,
        },
    }
}

/// Whether a requested change of an optional text respects `max`.
fn change_within(c: &Option<Option<Vec<u8>>>, max: u32) -> (r: bool)
    ensures
        r == change_fits(bytes_change(*c), max),
{
    match c {
        Some(Some(t)) => t.len() <= max as usize,
        _ => true,
    }
}

/// The profile directory: profiles by account, the username index,
/// statistics by account, the current block number and the emitted events.
pub struct Pallet {
    config: Config,
    block_number: u64,
    profiles: HashMap<u64, UserProfile>,
    names: UsernameIndex,
    stats: HashMap<u64, UserStats>,
    events: Vec<Event>,
}

impl Pallet {
    /// The three stores as maps.
    pub closed spec fn state(&self) -> DirectoryState {
        DirectoryState {
            profiles: self.profiles@.map_values(|p: UserProfile| p@),
            names: self.names@,
            stats: self.stats@,
        }
    }

    pub closed spec fn config(&self) -> Config {
        self.config
    }

    /// The block number used to stamp new profiles.
    pub closed spec fn now(&self) -> u64 {
        self.block_number
    }

    /// Every event emitted so far, oldest first.
    pub closed spec fn event_log(&self) -> Seq<EventView> {
        self.events@.map_values(|e: Event| e@)
    }

    /// The stores agree with each other and respect the limits.
    pub closed spec fn wf(&self) -> bool {
        &&& self.names.wf()
        &&& consistent(self.state())
        &&& within_limits(self.state(), self.config)
    }

    /// What every reachable directory satisfies.
    pub proof fn lemma_reachable(&self)
        requires
            self.wf(),
        ensures
            consistent(self.state()),
            within_limits(self.state(), self.config()),
    {
    }

    /// An empty directory with the given limits, at block zero.
    pub fn new(config: Config) -> (r: Self)
        ensures
            r.wf(),
            r.config() == config,
            r.now() == 0,
            r.state().profiles == Map::<u64, ProfileView>::empty(),
            r.state().names == Map::<Seq<u8>, u64>::empty(),
            r.state().stats == Map::<u64, UserStats>::empty(),
            r.event_log() == Seq::<EventView>::empty(),
    {
        let r = Pallet {
            config,
            block_number: 0,
            profiles: HashMap::new(),
            names: UsernameIndex::new(),
            stats: HashMap::new(),
            events: Vec::new(),
        };
        assert(r.state().profiles =~= Map::<u64, ProfileView>::empty());
        assert(r.event_log() =~= Seq::<EventView>::empty());
        r
    }

    /// Advances the logical clock supplied by the host.
    pub fn set_block_number(&mut self, n: u64)
        requires
            old(self).wf(),
        ensures
            final(self).wf(),
            final(self).now() == n,
            final(self).config() == old(self).config(),
            final(self).state() == old(self).state(),
            final(self).event_log() == old(self).event_log(),
    {
        self.block_number = n;
    }

    /// The profile of `who`, if it has one.
    pub fn profile(&self, who: u64) -> (r: Option<UserProfile>)
        requires
            self.wf(),
        ensures
            match r {
                Some(p) => self.state().profiles.contains_key(who) && p@ == self.state().profiles[who],
                None => !self.state().profiles.contains_key(who),
            },
    {
        match self.profiles.get(&who) {
            Some(p) => Some(copy_profile(p)),
            None => None,
        }
    }

    /// The statistics of `who`, if it has any.
    pub fn stats(&self, who: u64) -> (r: Option<UserStats>)
        ensures
            r == (if self.state().stats.contains_key(who) {
                Some(self.state().stats[who])
            } else {
                None::<UserStats>
            }),
    {
        match self.stats.get(&who) {
            Some(s) => Some(*s),
            None => None,
        }
    }

    /// The account that holds `name`, if any.
    pub fn account_of(&self, name: &Vec<u8>) -> (r: Option<u64>)
        requires
            self.wf(),
        ensures
            r == (if self.state().names.contains_key(name@) {
                Some(self.state().names[name@])
            } else {
                None::<u64>
            }),
    {
        self.names.get(name)
    }

    /// The most recent event, if any.
    pub fn last_event(&self) -> (r: Option<Event>)
        ensures
            match r {
                Some(e) => self.event_log().len() > 0 && e@ == self.event_log().last(),
                None => self.event_log().len() == 0,
            },
    {
        let n = self.events.len();
        if n == 0 {
            None
        } else {
            Some(copy_event(&self.events[n - 1]))
        }
    }

    /// Takes `who`'s profile out of the store, or makes a fresh one.
    fn take_profile(&mut self, who: u64) -> (p: UserProfile)
        ensures
            p@ == profile_or_default(old(self).state(), who, old(self).block_number),
            final(self).profiles@ == old(self).profiles@.remove(who),
            final(self).names == old(self).names,
            final(self).stats == old(self).stats,
            final(self).events == old(self).events,
            final(self).config == old(self).config,
            final(self).block_number == old(self).block_number,
    {
        match self.profiles.remove(&who) {
            Some(p) => p,
            None => UserProfile {
                account: who,
                username: Vec::new(),
                avatar: None,
                bio: None,
                created_at: self.block_number,
            },
        }
    }

    /// Drops the index entry `name -> who`, if the index holds it.
    fn release(&mut self, who: u64, name: &Vec<u8>)
        requires
            old(self).names.wf(),
        ensures
            final(self).names.wf(),
            final(self).names@ == release_name(old(self).names@, who, name@),
            final(self).profiles == old(self).profiles,
            final(self).stats == old(self).stats,
            final(self).events == old(self).events,
            final(self).config == old(self).config,
            final(self).block_number == old(self).block_number,
    {
        match self.names.get(name) {
            Some(holder) => {
                if holder == who {
                    self.names.remove(name);
                }
            },
            None => {},
        }
    }

    /// Gives `who` zero statistics if it has none.
    fn ensure_stats(&mut self, who: u64)
        ensures
            final(self).stats@ == with_stats(old(self).stats@, who),
            final(self).profiles == old(self).profiles,
            final(self).names == old(self).names,
            final(self).events == old(self).events,
            final(self).config == old(self).config,
            final(self).block_number == old(self).block_number,
    {
        if !self.stats.contains_key(&who) {
            self.stats.insert(who, UserStats::default());
        }
    }

    /// Appends `e` to the event log.
    fn emit(&mut self, e: Event)
        ensures
            final(self).event_log() == old(self).event_log().push(e@),
            final(self).profiles == old(self).profiles,
            final(self).names == old(self).names,
            final(self).stats == old(self).stats,
            final(self).config == old(self).config,
            final(self).block_number == old(self).block_number,
    {
        let ghost e_view = e@;
        self.events.push(e);
        assert(self.event_log() =~= old(self).event_log().push(e_view));
    }

    /// Gives `who` the username `username`, creating its profile (and zero
    /// statistics) if it has none. Fails with `UsernameTooLong` past the
    /// configured length and with `UsernameTaken` when another account holds
    /// the name; on failure nothing changes and no event is emitted.
    pub fn set_username(&mut self, who: u64, username: Vec<u8>) -> (r: Result<(), Error>)
        requires
            old(self).wf(),
        ensures
            final(self).wf(),
            final(self).config() == old(self).config(),
            final(self).now() == old(self).now(),
            match set_username_result(old(self).state(), old(self).config(), old(self).now(), who, username@) {
                Ok(s) => {
                    &&& r == Ok::<(), Error>(())
                    &&& final(self).state() == s
                    &&& final(self).event_log() == old(self).event_log().push(
                        EventView::UsernameSet { account: who, username: username@ },
                    )
                },
                Err(e) => {
                    &&& r == Err::<(), Error>(e)
                    &&& final(self).state() == old(self).state()
                    &&& final(self).event_log() == old(self).event_log()
                },
            },
    {
        if username.len() > self.config.max_username_length as usize {
            return Err(Error::UsernameTooLong);
        }
        match self.names.get(&username) {
            Some(holder) => {
                if holder != who {
                    return Err(Error::UsernameTaken);
                }
            },
            None => {},
        }
        let ghost s0 = self.state();
        proof {
            lemma_renamed_consistent(s0, self.config, self.block_number, who, username@);
        }
        let mut profile = self.take_profile(who);
        self.release(who, &profile.username);
        profile.username = copy_bytes(&username);
        self.names.insert(copy_bytes(&username), who);
        let ghost pv = profile@;
        self.profiles.insert(who, profile);
        self.ensure_stats(who);
        self.emit(Event::UsernameSet { account: who, username });
        assert(self.state().profiles =~= s0.profiles.insert(who, pv));
        assert(self.state() == renamed(s0, who, self.block_number, pv.username));
        Ok(())
    }

    /// Updates `who`'s profile, creating it (and zero statistics) if it has
    /// none. `None` leaves a field as it is; for `avatar` and `bio`,
    /// `Some(None)` clears the field and `Some(Some(t))` sets it. Every given
    /// field is checked before anything is written: a username past the
    /// length limit or an avatar past it gives `UsernameTooLong`, a username
    /// held by another account `UsernameTaken`, a bio past its limit
    /// `BioTooLong`, and then nothing changes and no event is emitted.
    pub fn update_profile(
        &mut self,
        who: u64,
        username: Option<Vec<u8>>,
        avatar: Option<Option<Vec<u8>>>,
        bio: Option<Option<Vec<u8>>>,
    ) -> (r: Result<(), Error>)
        requires
            old(self).wf(),
        ensures
            final(self).wf(),
            final(self).config() == old(self).config(),
            final(self).now() == old(self).now(),
            match update_profile_result(
                old(self).state(),
                old(self).config(),
                old(self).now(),
                who,
                bytes_opt(username),
                bytes_change(avatar),
                bytes_change(bio),
            ) {
                Ok(s) => {
                    &&& r == Ok::<(), Error>(())
                    &&& final(self).state() == s
                    &&& final(self).event_log() == old(self).event_log().push(
                        EventView::ProfileUpdated {
                            account: who,
                            username: bytes_opt(username),
                            avatar: bytes_change(avatar),
                            bio: bytes_change(bio),
                        },
                    )
                },
                Err(e) => {
                    &&& r == Err::<(), Error>(e)
                    &&& final(self).state() == old(self).state()
                    &&& final(self).event_log() == old(self).event_log()
                },
            },
    {
        match &username {
            Some(n) => {
                if n.len() > self.config.max_username_length as usize {
                    return Err(Error::UsernameTooLong);
                }
                match self.names.get(n) {
                    Some(holder) => {
                        if holder != who {
                            return Err(Error::UsernameTaken);
                        }
                    },
                    None => {},
                }
            },
            None => {},
        }
        if !change_within(&avatar, self.config.max_username_length) {
            return Err(Error::UsernameTooLong);
        }
        if !change_within(&bio, self.config.max_bio_length) {
            return Err(Error::BioTooLong);
        }
        let ghost s0 = self.state();
        let ghost target = update_profile_result(
            s0,
            self.config,
            self.block_number,
            who,
            bytes_opt(username),
            bytes_change(avatar),
            bytes_change(bio),
        )->Ok_0;
        proof {
            lemma_update_profile_consistent(
                s0,
                self.config,
                self.block_number,
                who,
                bytes_opt(username),
                bytes_change(avatar),
                bytes_change(bio),
            );
        }
        let event = Event::ProfileUpdated {
            account: who,
            username: copy_opt(&username),
            avatar: copy_change(&avatar),
            bio: copy_change(&bio),
        };
        let mut profile = self.take_profile(who);
        match username {
            Some(n) => {
                self.release(who, &profile.username);
                self.names.insert(copy_bytes(&n), who);
                profile.username = n;
            },
            None => {},
        }
        match avatar {
            Some(a) => {
                profile.avatar = a;
            },
            None => {},
        }
        match bio {
            Some(b) => {
                profile.bio = b;
            },
            None => {},
        }
        let ghost pv = profile@;
        self.profiles.insert(who, profile);
        self.ensure_stats(who);
        self.emit(event);
        assert(self.state().profiles =~= target.profiles);
        assert(self.state() == target);
        Ok(())
    }

    /// Overwrites each given statistic of `who`, creating its entry (from
    /// zero) if it has none; a profile is not needed. Always succeeds and
    /// emits `StatsUpdated` with all four values after the update.
    pub fn update_stats(
        &mut self,
        who: u64,
        total_races: Option<u32>,
        wins: Option<u32>,
        total_distance: Option<u64>,
        total_rewards: Option<u128>,
    ) -> (r: Result<(), Error>)
        requires
            old(self).wf(),
        ensures
            final(self).wf(),
            r == Ok::<(), Error>(()),
            final(self).config() == old(self).config(),
            final(self).now() == old(self).now(),
            final(self).state().profiles == old(self).state().profiles,
            final(self).state().names == old(self).state().names,
            final(self).state().stats.contains_key(who),
            final(self).state().stats == old(self).state().stats.insert(
                who,
                updated_stats(old(self).state(), who, total_races, wins, total_distance, total_rewards),
            ),
            final(self).event_log() == old(self).event_log().push(
                EventView::StatsUpdated {
                    account: who,
                    stats: updated_stats(
                        old(self).state(),
                        who,
                        total_races,
                        wins,
                        total_distance,
                        total_rewards,
                    ),
                },
            ),
    {
        proof {
            lemma_update_stats_independent(
                self.state(),
                who,
                total_races,
                wins,
                total_distance,
                total_rewards,
            );
        }
        let mut stats = match self.stats.get(&who) {
            Some(s) => *s,
            None => UserStats::default(),
        };
        match total_races {
            Some(v) => {
                stats.total_races = v;
            },
            None => {},
        }
        match wins {
            Some(v) => {
                stats.wins = v;
            },
            None => {},
        }
        match total_distance {
            Some(v) => {
                stats.total_distance = v;
            },
            None => {},
        }
        match total_rewards {
            Some(v) => {
                stats.total_rewards = v;
            },
            None => {},
        }
        self.stats.insert(who, stats);
        self.emit(
            Event::StatsUpdated {
                account: who,
                total_races: stats.total_races,
                wins: stats.wins,
                total_distance: stats.total_distance,
                total_rewards: stats.total_rewards,
            },
        );
        Ok(())
    }
}

} // verus!
