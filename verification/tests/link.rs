use faceit_link::database::Database;
use faceit_link::discord::DiscordBot;
use faceit_link::faceit::{Player, Resolution};
use faceit_link::link::{
    LinkAction, LinkEvent, LinkFlow, LinkOutcome, LinkState, UnlinkAction, UnlinkEvent, UnlinkFlow,
    UnlinkOutcome, UnlinkState,
};

fn player(id: &str, games: &str) -> Player {
    let games: serde_json::Map<String, serde_json::Value> = serde_json::from_str(games).unwrap();
    Player::new(id.to_string(), "nick".to_string(), games)
}

fn ranked(id: &str) -> Player {
    player(id, r#"{"cs2": {"faceit_elo": 1500, "skill_level": 7}}"#)
}

fn unranked(id: &str) -> Player {
    player(id, "{}")
}

fn rows(db: &Database) -> Vec<(String, String)> {
    db.fetch_users().into_iter().map(|u| (u.faceit_id, u.discord_id)).collect()
}

#[test]
fn link_stores_the_account_of_the_player() {
    let mut db = Database::new();
    let (outcome, to_reconcile) = DiscordBot::link_user(&mut db, Resolution::Found(ranked("f1")), "100");
    assert_eq!(outcome, LinkOutcome::Linked);
    assert_eq!(to_reconcile.unwrap().player_id, "f1");
    assert_eq!(rows(&db), vec![("f1".to_string(), "100".to_string())]);
}

#[test]
fn link_of_linked_user_changes_nothing() {
    let mut db = Database::new();
    DiscordBot::link_user(&mut db, Resolution::Found(ranked("f1")), "100");
    let before = rows(&db);
    let (outcome, to_reconcile) = DiscordBot::link_user(&mut db, Resolution::Found(ranked("f2")), "100");
    assert_eq!(outcome, LinkOutcome::AlreadyLinked);
    assert!(to_reconcile.is_none());
    assert_eq!(rows(&db), before);
}

#[test]
fn linked_user_is_turned_away_before_the_rank_is_read() {
    let mut db = Database::new();
    DiscordBot::link_user(&mut db, Resolution::Found(ranked("f1")), "100");
    let (outcome, _) = DiscordBot::link_user(&mut db, Resolution::Found(unranked("f2")), "100");
    assert_eq!(outcome, LinkOutcome::AlreadyLinked);
}

#[test]
fn unknown_account_is_not_linked() {
    let mut db = Database::new();
    let (outcome, to_reconcile) = DiscordBot::link_user(&mut db, Resolution::NotFound, "100");
    assert_eq!(outcome, LinkOutcome::AccountNotFound);
    assert!(to_reconcile.is_none());
    assert_eq!(db.count_users(), 0);
}

#[test]
fn unknown_account_comes_before_the_existing_link() {
    let mut db = Database::new();
    DiscordBot::link_user(&mut db, Resolution::Found(ranked("f1")), "100");
    let (outcome, _) = DiscordBot::link_user(&mut db, Resolution::NotFound, "100");
    assert_eq!(outcome, LinkOutcome::AccountNotFound);
    assert_eq!(db.count_users(), 1);
}

#[test]
fn unranked_account_is_not_linked() {
    let mut db = Database::new();
    let (outcome, to_reconcile) = DiscordBot::link_user(&mut db, Resolution::Found(unranked("f1")), "100");
    assert_eq!(outcome, LinkOutcome::Ineligible);
    assert!(to_reconcile.is_none());
    assert_eq!(db.count_users(), 0);
}

#[test]
fn account_with_a_level_outside_the_catalogue_is_not_linked() {
    for level in ["0", "11", "\"7\""] {
        let games = format!(r#"{{"cs2": {{"faceit_elo": 1500, "skill_level": {}}}}}"#, level);
        let mut db = Database::new();
        let (outcome, to_reconcile) =
            DiscordBot::link_user(&mut db, Resolution::Found(player("f1", &games)), "100");
        assert_eq!(outcome, LinkOutcome::Ineligible, "{}", games);
        assert!(to_reconcile.is_none());
        assert_eq!(db.count_users(), 0);
    }
}

#[test]
fn failed_lookup_is_an_error() {
    let mut db = Database::new();
    let (outcome, _) = DiscordBot::link_user(&mut db, Resolution::Failed, "100");
    assert_eq!(outcome, LinkOutcome::Error);
    assert_eq!(db.count_users(), 0);
}

#[test]
fn link_steps_ask_in_order() {
    let (state, action) = LinkFlow::start();
    assert!(matches!(state, LinkState::Resolving));
    assert!(matches!(action, LinkAction::Resolve));
    let (state, action) = LinkFlow::step(state, LinkEvent::Resolved(Resolution::Found(ranked("f9"))));
    assert!(matches!(action, LinkAction::CheckExists));
    let (state, action) = LinkFlow::step(state, LinkEvent::Exists(Some(false)));
    match action {
        LinkAction::Insert { faceit_id } => assert_eq!(faceit_id, "f9"),
        _ => panic!("expected an insert"),
    }
    let (state, action) = LinkFlow::step(state, LinkEvent::Inserted(Some(true)));
    match action {
        LinkAction::Reconcile(p) => assert_eq!(p.player_id, "f9"),
        _ => panic!("expected a reconciliation"),
    }
    let (state, action) = LinkFlow::step(state, LinkEvent::Reconciled);
    assert!(matches!(action, LinkAction::Finish(LinkOutcome::Linked)));
    assert!(matches!(state, LinkState::Done(LinkOutcome::Linked)));
    let (_, again) = LinkFlow::step(state, LinkEvent::Reconciled);
    assert!(matches!(again, LinkAction::Finish(LinkOutcome::Linked)));
}

#[test]
fn store_failures_end_the_link_with_an_error() {
    let (state, _) = LinkFlow::start();
    let (state, _) = LinkFlow::step(state, LinkEvent::Resolved(Resolution::Found(ranked("f9"))));
    let (_, action) = LinkFlow::step(state, LinkEvent::Exists(None));
    assert!(matches!(action, LinkAction::Finish(LinkOutcome::Error)));

    let (state, _) = LinkFlow::start();
    let (state, _) = LinkFlow::step(state, LinkEvent::Resolved(Resolution::Found(ranked("f9"))));
    let (state, _) = LinkFlow::step(state, LinkEvent::Exists(Some(false)));
    let (_, action) = LinkFlow::step(state, LinkEvent::Inserted(None));
    assert!(matches!(action, LinkAction::Finish(LinkOutcome::Error)));
}

#[test]
fn row_that_was_not_taken_is_an_error_after_reconciliation() {
    let (state, _) = LinkFlow::start();
    let (state, _) = LinkFlow::step(state, LinkEvent::Resolved(Resolution::Found(ranked("f9"))));
    let (state, _) = LinkFlow::step(state, LinkEvent::Exists(Some(false)));
    let (state, action) = LinkFlow::step(state, LinkEvent::Inserted(Some(false)));
    assert!(matches!(action, LinkAction::Reconcile(_)));
    let (_, action) = LinkFlow::step(state, LinkEvent::Reconciled);
    assert!(matches!(action, LinkAction::Finish(LinkOutcome::Error)));
}

#[test]
fn answer_out_of_turn_ends_the_link() {
    let (state, _) = LinkFlow::start();
    let (state, action) = LinkFlow::step(state, LinkEvent::Exists(Some(false)));
    assert!(matches!(action, LinkAction::Finish(LinkOutcome::Error)));
    assert!(matches!(state, LinkState::Done(LinkOutcome::Error)));
}

#[test]
fn unlink_removes_the_link() {
    let mut db = Database::new();
    DiscordBot::link_user(&mut db, Resolution::Found(ranked("f1")), "100");
    DiscordBot::link_user(&mut db, Resolution::Found(ranked("f2")), "200");
    assert_eq!(UnlinkFlow::unlink_user(&mut db, "100"), UnlinkOutcome::Unlinked);
    assert!(!db.user_exists("100"));
    assert_eq!(rows(&db), vec![("f2".to_string(), "200".to_string())]);
}

#[test]
fn unlink_without_link_changes_nothing() {
    let mut db = Database::new();
    DiscordBot::link_user(&mut db, Resolution::Found(ranked("f1")), "100");
    assert_eq!(UnlinkFlow::unlink_user(&mut db, "999"), UnlinkOutcome::NotLinked);
    assert_eq!(rows(&db), vec![("f1".to_string(), "100".to_string())]);
    let mut empty = Database::new();
    assert_eq!(UnlinkFlow::unlink_user(&mut empty, "100"), UnlinkOutcome::NotLinked);
    assert_eq!(empty.count_users(), 0);
}

#[test]
fn unlink_steps_ask_in_order() {
    let (state, action) = UnlinkFlow::start();
    assert_eq!(state, UnlinkState::Checking);
    assert_eq!(action, UnlinkAction::CheckExists);
    let (state, action) = UnlinkFlow::step(state, UnlinkEvent::Exists(Some(true)));
    assert_eq!((state, action), (UnlinkState::Removing, UnlinkAction::Remove));
    let (state, action) = UnlinkFlow::step(state, UnlinkEvent::Removed(Some(true)));
    assert_eq!((state, action), (UnlinkState::Clearing, UnlinkAction::Clear));
    let (state, action) = UnlinkFlow::step(state, UnlinkEvent::Cleared);
    assert_eq!(action, UnlinkAction::Finish(UnlinkOutcome::Unlinked));
    assert_eq!(state, UnlinkState::Done(UnlinkOutcome::Unlinked));
}

#[test]
fn unlink_errors() {
    let (state, _) = UnlinkFlow::start();
    assert_eq!(
        UnlinkFlow::step(state, UnlinkEvent::Exists(None)),
        (
            UnlinkState::Done(UnlinkOutcome::Unavailable),
            UnlinkAction::Finish(UnlinkOutcome::Unavailable)
        )
    );
    assert_eq!(
        UnlinkFlow::step(state, UnlinkEvent::Removed(Some(true))).1,
        UnlinkAction::Finish(UnlinkOutcome::Error)
    );
    assert_eq!(
        UnlinkFlow::step(state, UnlinkEvent::Exists(Some(false))).1,
        UnlinkAction::Finish(UnlinkOutcome::NotLinked)
    );
    assert_eq!(
        UnlinkFlow::step(UnlinkState::Removing, UnlinkEvent::Removed(Some(false))).1,
        UnlinkAction::Finish(UnlinkOutcome::Error)
    );
    assert_eq!(
        UnlinkFlow::step(UnlinkState::Removing, UnlinkEvent::Removed(None)).1,
        UnlinkAction::Finish(UnlinkOutcome::Error)
    );
    assert_eq!(
        UnlinkFlow::step(UnlinkState::Clearing, UnlinkEvent::Exists(Some(true))).1,
        UnlinkAction::Finish(UnlinkOutcome::Error)
    );
    assert_eq!(
        UnlinkFlow::step(UnlinkState::Done(UnlinkOutcome::NotLinked), UnlinkEvent::Cleared).1,
        UnlinkAction::Finish(UnlinkOutcome::NotLinked)
    );
}

#[test]
fn link_then_lookup_by_id_agrees_on_the_level() {
    let mut db = Database::new();
    let games = r#"{"cs2": {"faceit_elo": 1500, "skill_level": 7}}"#;
    let (outcome, linked) = DiscordBot::link_user(&mut db, Resolution::Found(player("f1", games)), "100");
    assert_eq!(outcome, LinkOutcome::Linked);
    let stored = db.fetch_users().remove(0);
    assert_eq!(stored.faceit_id, "f1");
    let again = faceit_link::faceit::Faceit::faceit_api_query(200, Some(player(&stored.faceit_id, games)));
    match again {
        Resolution::Found(p) => {
            assert_eq!(p.get_player_skill_level(), linked.unwrap().get_player_skill_level());
            assert_eq!(p.get_player_skill_level(), Some(7));
        }
        _ => panic!("expected the player"),
    }
}
