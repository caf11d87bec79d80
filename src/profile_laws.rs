//! Properties of the directory's transitions, proved over the state model.
use crate::user_profile::{
    consistent, held_by_other, profile_or_default, release_name, renamed, set_username_result,
    update_profile_result, updated_stats, within_limits, Config, DirectoryState,
};
use vstd::prelude::*;

verus! {

/// Taking an admissible username keeps the two indices in agreement and
/// every stored text within its limit.
pub proof fn lemma_renamed_consistent(s: DirectoryState, cfg: Config, now: u64, who: u64, name: Seq<u8>)
    requires
        consistent(s),
        within_limits(s, cfg),
        name.len() <= cfg.max_username_length,
        !held_by_other(s.names, who, name),
    ensures
        consistent(renamed(s, who, now, name)),
        within_limits(renamed(s, who, now, name), cfg),
{
    let t = renamed(s, who, now, name);
    let p = profile_or_default(s, who, now);
    let released = release_name(s.names, who, p.username);
    assert forall|n: Seq<u8>| #[trigger] t.names.contains_key(n) implies t.profiles.contains_key(
        t.names[n],
    ) && t.profiles[t.names[n]].username == n by {
        if n != name {
            assert(released.contains_key(n));
            assert(s.names.contains_key(n));
            let id = s.names[n];
            if id == who {
                assert(s.profiles.contains_key(who));
                assert(p.username == n);
            }
        }
    }
    assert forall|id: u64| #[trigger]
        t.profiles.contains_key(id) && t.profiles[id].username.len() > 0 implies t.names.contains_key(
        t.profiles[id].username,
    ) && t.names[t.profiles[id].username] == id by {
        if id != who {
            let u = s.profiles[id].username;
            assert(s.names.contains_key(u) && s.names[u] == id);
            assert(u != name);
            assert(released.contains_key(u));
        }
    }
}

/// A successful profile update keeps the two indices in agreement and every
/// stored text within its limit.
pub proof fn lemma_update_profile_consistent(
    s: DirectoryState,
    cfg: Config,
    now: u64,
    who: u64,
    username: Option<Seq<u8>>,
    avatar: Option<Option<Seq<u8>>>,
    bio: Option<Option<Seq<u8>>>,
)
    requires
        consistent(s),
        within_limits(s, cfg),
        update_profile_result(s, cfg, now, who, username, avatar, bio) is Ok,
    ensures
        consistent(update_profile_result(s, cfg, now, who, username, avatar, bio)->Ok_0),
        within_limits(update_profile_result(s, cfg, now, who, username, avatar, bio)->Ok_0, cfg),
{
    let t = update_profile_result(s, cfg, now, who, username, avatar, bio)->Ok_0;
    let p = profile_or_default(s, who, now);
    let released = release_name(s.names, who, p.username);
    match username {
        Some(name) => {
            assert forall|n: Seq<u8>| #[trigger] t.names.contains_key(n) implies t.profiles.contains_key(
                t.names[n],
            ) && t.profiles[t.names[n]].username == n by {
                if n != name {
                    assert(released.contains_key(n));
                    assert(s.names.contains_key(n));
                    let id = s.names[n];
                    if id == who {
                        assert(s.profiles.contains_key(who));
                        assert(p.username == n);
                    }
                }
            }
            assert forall|id: u64| #[trigger]
                t.profiles.contains_key(id) && t.profiles[id].username.len()
                    > 0 implies t.names.contains_key(t.profiles[id].username)
                && t.names[t.profiles[id].username] == id by {
                if id != who {
                    let u = s.profiles[id].username;
                    assert(s.names.contains_key(u) && s.names[u] == id);
                    assert(u != name);
                    assert(released.contains_key(u));
                }
            }
        },
        None => {
            assert forall|n: Seq<u8>| #[trigger] t.names.contains_key(n) implies t.profiles.contains_key(
                t.names[n],
            ) && t.profiles[t.names[n]].username == n by {
                let id = s.names[n];
                if id == who {
                    assert(s.profiles.contains_key(who));
                }
            }
            assert forall|id: u64| #[trigger]
                t.profiles.contains_key(id) && t.profiles[id].username.len()
                    > 0 implies t.names.contains_key(t.profiles[id].username)
                && t.names[t.profiles[id].username] == id by {
                if id == who {
                    assert(s.profiles.contains_key(who));
                }
            }
        },
    }
}

/// Two distinct accounts never hold the same non-empty username.
pub proof fn lemma_usernames_unique(s: DirectoryState, a: u64, b: u64)
    requires
        consistent(s),
        a != b,
        s.profiles.contains_key(a),
        s.profiles.contains_key(b),
        s.profiles[a].username.len() > 0,
    ensures
        s.profiles[a].username != s.profiles[b].username,
{
    if s.profiles[a].username == s.profiles[b].username {
        assert(s.names[s.profiles[a].username] == a);
        assert(s.names[s.profiles[b].username] == b);
    }
}

/// Each account with a non-empty username is found under it in the index,
/// and each index entry is the current username of the account it names.
pub proof fn lemma_index_bijection(s: DirectoryState, id: u64, n: Seq<u8>)
    requires
        consistent(s),
    ensures
        s.profiles.contains_key(id) && s.profiles[id].username.len() > 0 ==> s.names.contains_key(
            s.profiles[id].username,
        ) && s.names[s.profiles[id].username] == id,
        s.names.contains_key(n) ==> s.profiles.contains_key(s.names[n]) && s.profiles[s.names[n]].username
            == n,
{
}

/// Setting the same username twice in a row succeeds both times, and the
/// second call leaves the directory as the first one left it.
pub proof fn lemma_set_username_idempotent(
    s: DirectoryState,
    cfg: Config,
    now1: u64,
    now2: u64,
    who: u64,
    name: Seq<u8>,
)
    requires
        consistent(s),
        set_username_result(s, cfg, now1, who, name) is Ok,
    ensures
        set_username_result(set_username_result(s, cfg, now1, who, name)->Ok_0, cfg, now2, who, name)
            == set_username_result(s, cfg, now1, who, name),
{
    let t = renamed(s, who, now1, name);
    let u = renamed(t, who, now2, name);
    let p = t.profiles[who];
    assert(profile_or_default(t, who, now2) == p);
    assert(release_name(t.names, who, name).insert(name, who) =~= t.names);
    assert(u.profiles =~= t.profiles);
    assert(u.stats =~= t.stats);
    assert(u == t);
}

/// A profile update whose bio is too long fails, whatever else it carries;
/// together with the contract of `update_profile` this means nothing is
/// written and no event is emitted.
pub proof fn lemma_update_profile_long_bio_fails(
    s: DirectoryState,
    cfg: Config,
    now: u64,
    who: u64,
    username: Option<Seq<u8>>,
    avatar: Option<Option<Seq<u8>>>,
    bio: Seq<u8>,
)
    requires
        bio.len() > cfg.max_bio_length,
    ensures
        update_profile_result(s, cfg, now, who, username, avatar, Some(Some(bio))) is Err,
{
}

/// Updating statistics never touches profiles or the index, and leaves an
/// entry for the caller whether or not it has a profile.
pub proof fn lemma_update_stats_independent(
    s: DirectoryState,
    who: u64,
    total_races: Option<u32>,
    wins: Option<u32>,
    total_distance: Option<u64>,
    total_rewards: Option<u128>,
)
    requires
        consistent(s),
    ensures
        consistent(
            DirectoryState {
                profiles: s.profiles,
                names: s.names,
                stats: s.stats.insert(
                    who,
                    updated_stats(s, who, total_races, wins, total_distance, total_rewards),
                ),
            },
        ),
{
}

} // verus!
