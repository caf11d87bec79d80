use solochain_pallets::user_profile::{Config, Error, Event, Pallet, UserStats};

fn directory() -> Pallet {
    let mut p = Pallet::new(Config { max_username_length: 32, max_bio_length: 256 });
    p.set_block_number(1);
    p
}

#[test]
fn set_username_works() {
    let mut p = directory();
    let account = 1;
    let username = b"alice".to_vec();
    assert_eq!(p.set_username(account, username.clone()), Ok(()));
    let profile = p.profile(account).unwrap();
    assert_eq!(profile.account, account);
    assert_eq!(profile.username, username);
    let stats = p.stats(account).unwrap();
    assert_eq!(stats, UserStats::default());
    assert_eq!(p.last_event(), Some(Event::UsernameSet { account, username }));
}

#[test]
fn set_username_fails_if_username_taken() {
    let mut p = directory();
    let username = b"alice".to_vec();
    assert_eq!(p.set_username(1, username.clone()), Ok(()));
    assert_eq!(p.set_username(2, username.clone()), Err(Error::UsernameTaken));
    assert_eq!(p.profile(2), None);
    assert_eq!(p.stats(2), None);
    assert_eq!(p.account_of(&username), Some(1));
    assert_eq!(p.last_event(), Some(Event::UsernameSet { account: 1, username }));
}

#[test]
fn update_profile_works() {
    let mut p = directory();
    let account = 1;
    let new_username = b"alice_new".to_vec();
    let new_bio = b"My bio".to_vec();
    assert_eq!(
        p.update_profile(account, Some(new_username.clone()), None, Some(Some(new_bio.clone()))),
        Ok(())
    );
    let profile = p.profile(account).unwrap();
    assert_eq!(profile.username, new_username);
    assert_eq!(profile.bio, Some(new_bio));
}

#[test]
fn update_stats_works() {
    let mut p = directory();
    let account = 1;
    assert_eq!(p.update_stats(account, Some(10), Some(5), Some(1000), Some(5000)), Ok(()));
    let stats = p.stats(account).unwrap();
    assert_eq!(stats.total_races, 10);
    assert_eq!(stats.wins, 5);
    assert_eq!(stats.total_distance, 1000);
    assert_eq!(stats.total_rewards, 5000);
}

#[test]
fn alice_then_bob_scenario() {
    let mut p = directory();
    let alice = b"alice".to_vec();
    let bob = b"bob".to_vec();
    assert_eq!(p.set_username(1, alice.clone()), Ok(()));
    assert_eq!(p.profile(1).unwrap().username, alice);
    assert_eq!(p.account_of(&alice), Some(1));
    assert_eq!(p.stats(1), Some(UserStats { total_races: 0, wins: 0, total_distance: 0, total_rewards: 0 }));
    assert_eq!(p.last_event(), Some(Event::UsernameSet { account: 1, username: alice.clone() }));

    assert_eq!(p.set_username(2, alice.clone()), Err(Error::UsernameTaken));
    assert_eq!(p.profile(2), None);
    assert_eq!(p.account_of(&alice), Some(1));

    assert_eq!(p.update_profile(1, Some(bob.clone()), None, Some(Some(b"hi".to_vec()))), Ok(()));
    let profile = p.profile(1).unwrap();
    assert_eq!(profile.username, bob);
    assert_eq!(profile.bio, Some(b"hi".to_vec()));
    assert_eq!(p.account_of(&alice), None);
    assert_eq!(p.account_of(&bob), Some(1));
    assert_eq!(
        p.last_event(),
        Some(Event::ProfileUpdated {
            account: 1,
            username: Some(bob),
            avatar: None,
            bio: Some(Some(b"hi".to_vec())),
        })
    );
}

#[test]
fn set_username_twice_is_idempotent() {
    let mut p = directory();
    let name = b"carol".to_vec();
    assert_eq!(p.set_username(3, name.clone()), Ok(()));
    let first = p.profile(3);
    p.set_block_number(9);
    assert_eq!(p.set_username(3, name.clone()), Ok(()));
    assert_eq!(p.profile(3), first);
    assert_eq!(p.profile(3).unwrap().created_at, 1);
    assert_eq!(p.account_of(&name), Some(3));
    assert_eq!(p.stats(3), Some(UserStats::default()));
}

#[test]
fn long_bio_aborts_whole_update() {
    let mut p = directory();
    assert_eq!(p.set_username(1, b"alice".to_vec()), Ok(()));
    let before = p.last_event();
    let bio = vec![b'x'; 257];
    assert_eq!(p.update_profile(1, Some(b"bob".to_vec()), None, Some(Some(bio))), Err(Error::BioTooLong));
    assert_eq!(p.profile(1).unwrap().username, b"alice".to_vec());
    assert_eq!(p.account_of(&b"alice".to_vec()), Some(1));
    assert_eq!(p.account_of(&b"bob".to_vec()), None);
    assert_eq!(p.last_event(), before);
}

#[test]
fn stats_need_no_profile() {
    let mut p = directory();
    assert_eq!(p.update_stats(4, None, Some(2), None, None), Ok(()));
    assert_eq!(p.profile(4), None);
    assert_eq!(p.stats(4), Some(UserStats { total_races: 0, wins: 2, total_distance: 0, total_rewards: 0 }));
    assert_eq!(
        p.last_event(),
        Some(Event::StatsUpdated { account: 4, total_races: 0, wins: 2, total_distance: 0, total_rewards: 0 })
    );
    assert_eq!(p.update_stats(4, Some(1), None, None, Some(u128::MAX)), Ok(()));
    assert_eq!(p.stats(4), Some(UserStats { total_races: 1, wins: 2, total_distance: 0, total_rewards: u128::MAX }));
}

#[test]
fn profile_creation_keeps_existing_stats() {
    let mut p = directory();
    assert_eq!(p.update_stats(5, Some(3), None, None, None), Ok(()));
    assert_eq!(p.set_username(5, b"dave".to_vec()), Ok(()));
    assert_eq!(p.stats(5).unwrap().total_races, 3);
}

#[test]
fn username_length_limit() {
    let mut p = directory();
    assert_eq!(p.set_username(1, vec![b'a'; 33]), Err(Error::UsernameTooLong));
    assert_eq!(p.profile(1), None);
    assert_eq!(p.last_event(), None);
    assert_eq!(p.set_username(1, vec![b'a'; 32]), Ok(()));
    assert_eq!(p.update_profile(1, Some(vec![b'b'; 33]), None, None), Err(Error::UsernameTooLong));
}

#[test]
fn avatar_uses_username_limit() {
    let mut p = directory();
    assert_eq!(p.update_profile(1, None, Some(Some(vec![1u8; 33])), None), Err(Error::UsernameTooLong));
    assert_eq!(p.profile(1), None);
    assert_eq!(p.update_profile(1, None, Some(Some(vec![1u8; 32])), None), Ok(()));
    assert_eq!(p.profile(1).unwrap().avatar, Some(vec![1u8; 32]));
}

#[test]
fn update_profile_tri_state_fields() {
    let mut p = directory();
    assert_eq!(p.update_profile(1, None, Some(Some(b"pic".to_vec())), Some(Some(b"bio".to_vec()))), Ok(()));
    let created = p.profile(1).unwrap();
    assert_eq!(created.username, Vec::<u8>::new());
    assert_eq!(created.created_at, 1);
    assert_eq!(p.stats(1), Some(UserStats::default()));
    assert_eq!(p.update_profile(1, None, None, Some(None)), Ok(()));
    let after = p.profile(1).unwrap();
    assert_eq!(after.avatar, Some(b"pic".to_vec()));
    assert_eq!(after.bio, None);
}

#[test]
fn rename_releases_old_name_for_others() {
    let mut p = directory();
    assert_eq!(p.set_username(1, b"alice".to_vec()), Ok(()));
    assert_eq!(p.set_username(1, b"alicia".to_vec()), Ok(()));
    assert_eq!(p.account_of(&b"alice".to_vec()), None);
    assert_eq!(p.set_username(2, b"alice".to_vec()), Ok(()));
    assert_eq!(p.account_of(&b"alice".to_vec()), Some(2));
    assert_eq!(p.account_of(&b"alicia".to_vec()), Some(1));
}

#[test]
fn taken_username_in_update_profile() {
    let mut p = directory();
    assert_eq!(p.set_username(1, b"alice".to_vec()), Ok(()));
    assert_eq!(p.update_profile(2, Some(b"alice".to_vec()), None, None), Err(Error::UsernameTaken));
    assert_eq!(p.profile(2), None);
    assert_eq!(p.stats(2), None);
}

#[test]
fn empty_username_does_not_steal_another_entry() {
    let mut p = directory();
    assert_eq!(p.set_username(1, Vec::new()), Ok(()));
    assert_eq!(p.update_profile(2, None, None, None), Ok(()));
    assert_eq!(p.update_profile(2, Some(b"zed".to_vec()), None, None), Ok(()));
    assert_eq!(p.account_of(&Vec::new()), Some(1));
    assert_eq!(p.account_of(&b"zed".to_vec()), Some(2));
}
