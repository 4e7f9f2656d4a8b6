use meinkraft::auth::{check_auth, OwnerId, SessionCredential};
use meinkraft::errors::GameError;
use meinkraft::profile::initialize_profile;
use meinkraft::session::{attack, enter_game, kill_entity, place_block, GameSession};

fn owner() -> OwnerId {
    OwnerId(1, 2, 3, 4)
}

fn delegate_key() -> OwnerId {
    OwnerId(5, 6, 7, 8)
}

fn stranger() -> OwnerId {
    OwnerId(9, 9, 9, 9)
}

fn active_session() -> (meinkraft::profile::PlayerProfile, GameSession) {
    let profile = initialize_profile(owner());
    let mut session = GameSession::new(owner());
    let r = enter_game(&mut session, &profile, owner(), None, String::from("Jungle"));
    assert_eq!(r, Ok(()));
    (profile, session)
}

#[test]
fn attack_with_damage_one_truncates_to_zero_score() {
    let (profile, mut session) = active_session();
    assert_eq!(
        attack(&mut session, &profile, owner(), None, String::from("zombie"), 1),
        Ok(())
    );
    assert_eq!(session.attacks, 1);
    assert_eq!(session.score, 0);
}

#[test]
fn attack_with_damage_zero_still_counts_as_an_attack() {
    let (profile, mut session) = active_session();
    assert_eq!(
        attack(&mut session, &profile, owner(), None, String::from("slime"), 0),
        Ok(())
    );
    assert_eq!(session.attacks, 1);
    assert_eq!(session.score, 0);
}

#[test]
fn score_is_the_sum_of_contributions_in_call_order() {
    let (profile, mut session) = active_session();
    assert_eq!(
        place_block(&mut session, &profile, owner(), None, String::from("dirt")),
        Ok(())
    );
    assert_eq!(
        place_block(&mut session, &profile, owner(), None, String::from("stone")),
        Ok(())
    );
    assert_eq!(
        attack(&mut session, &profile, owner(), None, String::from("zombie"), 7),
        Ok(())
    );
    assert_eq!(
        kill_entity(&mut session, &profile, owner(), None, String::from("zombie"), 25),
        Ok(())
    );
    // 1 + 1 + 7/2 + 25
    assert_eq!(session.score, 30);
    assert_eq!(session.blocks_placed, 2);
    assert_eq!(session.attacks, 1);
    assert_eq!(session.kills, 1);
}

#[test]
fn reordering_independent_actions_gives_the_same_totals() {
    let (profile, mut first) = active_session();
    assert_eq!(
        attack(&mut first, &profile, owner(), None, String::from("zombie"), 11),
        Ok(())
    );
    assert_eq!(
        kill_entity(&mut first, &profile, owner(), None, String::from("cow"), 9),
        Ok(())
    );
    assert_eq!(place_block(&mut first, &profile, owner(), None, String::from("oak")), Ok(()));

    let (_, mut second) = active_session();
    assert_eq!(
        place_block(&mut second, &profile, owner(), None, String::from("oak")),
        Ok(())
    );
    assert_eq!(
        kill_entity(&mut second, &profile, owner(), None, String::from("cow"), 9),
        Ok(())
    );
    assert_eq!(
        attack(&mut second, &profile, owner(), None, String::from("zombie"), 11),
        Ok(())
    );

    assert_eq!(first.score, second.score);
    assert_eq!(first.score, 15);
    assert_eq!(first.blocks_placed, second.blocks_placed);
    assert_eq!(first.attacks, second.attacks);
    assert_eq!(first.kills, second.kills);
}

#[test]
fn session_score_saturates_at_the_ceiling() {
    let (profile, mut session) = active_session();
    assert_eq!(
        kill_entity(&mut session, &profile, owner(), None, String::from("dragon"), u64::MAX),
        Ok(())
    );
    assert_eq!(session.score, u64::MAX);
    assert_eq!(
        kill_entity(&mut session, &profile, owner(), None, String::from("dragon"), 1),
        Ok(())
    );
    assert_eq!(session.score, u64::MAX);
    assert_eq!(session.kills, 2);
}

#[test]
fn per_session_counters_saturate_at_their_width() {
    let profile = initialize_profile(owner());
    let mut session = GameSession {
        authority: owner(),
        realm: String::from("Jungle"),
        blocks_placed: u32::MAX,
        attacks: 0,
        kills: 0,
        score: 5,
        active: true,
        delegated: true,
    };
    assert_eq!(
        place_block(&mut session, &profile, owner(), None, String::from("dirt")),
        Ok(())
    );
    assert_eq!(session.blocks_placed, u32::MAX);
    assert_eq!(session.score, 6);
}

#[test]
fn owner_key_is_approved_directly() {
    assert_eq!(check_auth(owner(), owner(), None), Ok(()));
}

#[test]
fn stranger_without_credential_is_rejected() {
    assert_eq!(check_auth(owner(), stranger(), None), Err(GameError::InvalidAuth));
}

#[test]
fn matching_credential_is_approved() {
    let cred = SessionCredential { authority: owner(), session_signer: delegate_key() };
    assert_eq!(check_auth(owner(), delegate_key(), Some(cred)), Ok(()));
}

#[test]
fn credential_bound_to_another_owner_is_rejected() {
    let cred = SessionCredential { authority: stranger(), session_signer: delegate_key() };
    assert_eq!(
        check_auth(owner(), delegate_key(), Some(cred)),
        Err(GameError::InvalidAuth)
    );
}

#[test]
fn credential_for_another_signer_is_rejected() {
    let cred = SessionCredential { authority: owner(), session_signer: delegate_key() };
    assert_eq!(check_auth(owner(), stranger(), Some(cred)), Err(GameError::InvalidAuth));
}

#[test]
fn hot_path_accepts_a_session_credential() {
    let (profile, mut session) = active_session();
    let cred = SessionCredential { authority: owner(), session_signer: delegate_key() };
    assert_eq!(
        place_block(&mut session, &profile, delegate_key(), Some(cred), String::from("dirt")),
        Ok(())
    );
    assert_eq!(session.blocks_placed, 1);
}

#[test]
fn failed_guard_mutates_nothing() {
    let (profile, mut session) = active_session();
    let r = kill_entity(&mut session, &profile, stranger(), None, String::from("cow"), 50);
    assert_eq!(r, Err(GameError::InvalidAuth));
    assert_eq!(session.kills, 0);
    assert_eq!(session.score, 0);
    assert!(session.active);
}

#[test]
fn delegation_accepts_only_the_owner_key() {
    let mut session = GameSession::new(owner());
    let r = meinkraft::settlement::delegate_session(&mut session, delegate_key());
    assert_eq!(r, Err(GameError::InvalidAuth));
    assert!(!session.delegated);

    let mut profile = initialize_profile(owner());
    let r = meinkraft::settlement::undelegate_session(&mut session, &mut profile, delegate_key());
    assert_eq!(r, Err(GameError::InvalidAuth));
    assert_eq!(profile.games_played, 0);

    let r = meinkraft::settlement::commit_session(&session, delegate_key());
    assert_eq!(r, Err(GameError::InvalidAuth));
}
