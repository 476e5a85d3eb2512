use faceit_link::discord::{
    DiscordBot, Guild, Member, Presentation, ReconcileOutcome, ReconcilePlan, Role, SkipReason,
};
use faceit_link::faceit::Player;

const OWNER: u64 = 1;
const USER: u64 = 42;

fn role(id: u64, name: &str) -> Role {
    Role { id, name: name.to_string() }
}

fn guild() -> Guild {
    Guild {
        id: 900,
        owner_id: OWNER,
        roles: vec![
            role(10, "@everyone"),
            role(11, "Moderator"),
            role(101, "Level 1 (1-800 ELO)"),
            role(105, "Level 5 (1251-1400 ELO)"),
            role(107, "Level 7 (1551-1700 ELO)"),
            role(110, "Level 10 (2001+ ELO)"),
        ],
    }
}

fn member(roles: &[u64]) -> Member {
    Member { user_id: USER, nick: None, roles: roles.to_vec() }
}

fn player(nickname: &str, games: &str) -> Player {
    let games: serde_json::Map<String, serde_json::Value> = serde_json::from_str(games).unwrap();
    Player::new("id".to_string(), nickname.to_string(), games)
}

fn edit_of(plan: ReconcilePlan) -> (String, Vec<u64>) {
    match plan {
        ReconcilePlan::Edit(edit) => (edit.nickname, edit.roles),
        _ => panic!("expected an edit"),
    }
}

#[test]
fn tier_role_is_swapped_and_others_stay() {
    let g = guild();
    let m = member(&[11, 105, 10]);
    let (nickname, roles) = edit_of(DiscordBot::edit_member(&g, USER, Some(&m), "nick", Some(107)));
    assert_eq!(nickname, "nick");
    assert_eq!(roles, vec![11, 10, 107]);
}

#[test]
fn present_tier_role_is_kept_in_place() {
    let g = guild();
    let m = member(&[107, 11]);
    let (_, roles) = edit_of(DiscordBot::edit_member(&g, USER, Some(&m), "nick", Some(107)));
    assert_eq!(roles, vec![107, 11]);
}

#[test]
fn every_stale_tier_role_leaves() {
    let g = guild();
    let m = member(&[101, 11, 105, 110]);
    let (_, roles) = edit_of(DiscordBot::edit_member(&g, USER, Some(&m), "nick", Some(107)));
    assert_eq!(roles, vec![11, 107]);
}

#[test]
fn no_role_to_show_takes_tier_roles_away() {
    let g = guild();
    let m = member(&[11, 105]);
    let (nickname, roles) = edit_of(DiscordBot::edit_member(&g, USER, Some(&m), "", None));
    assert_eq!(nickname, "");
    assert_eq!(roles, vec![11]);
}

#[test]
fn unknown_roles_are_left_alone() {
    let g = guild();
    let m = member(&[777, 105, 888]);
    let (_, roles) = edit_of(DiscordBot::edit_member(&g, USER, Some(&m), "n", Some(101)));
    assert_eq!(roles, vec![777, 888, 101]);
}

#[test]
fn member_without_roles_gets_the_tier_role() {
    let g = guild();
    let m = member(&[]);
    let (_, roles) = edit_of(DiscordBot::edit_member(&g, USER, Some(&m), "n", Some(101)));
    assert_eq!(roles, vec![101]);
}

#[test]
fn owner_is_skipped() {
    let g = guild();
    let m = Member { user_id: OWNER, nick: None, roles: vec![105] };
    let plan = DiscordBot::edit_member(&g, OWNER, Some(&m), "nick", Some(107));
    assert!(matches!(plan, ReconcilePlan::Skipped(SkipReason::Owner)));
    assert_eq!(DiscordBot::outcome(&plan, true), ReconcileOutcome::Skipped);
    assert_eq!(DiscordBot::outcome(&plan, false), ReconcileOutcome::Skipped);
}

#[test]
fn absent_member_is_skipped() {
    let g = guild();
    let plan = DiscordBot::edit_member(&g, USER, None, "nick", Some(107));
    assert!(matches!(plan, ReconcilePlan::Skipped(SkipReason::NotMember)));
    let owner_plan = DiscordBot::edit_member(&g, OWNER, None, "nick", None);
    assert!(matches!(owner_plan, ReconcilePlan::Skipped(_)));
}

#[test]
fn nickname_over_the_limit_is_refused() {
    let g = guild();
    let m = member(&[]);
    let at_limit = "a".repeat(32);
    assert!(matches!(
        DiscordBot::edit_member(&g, USER, Some(&m), &at_limit, None),
        ReconcilePlan::Edit(_)
    ));
    let over = "a".repeat(33);
    let plan = DiscordBot::edit_member(&g, USER, Some(&m), &over, None);
    assert!(matches!(plan, ReconcilePlan::Refused));
    assert_eq!(DiscordBot::outcome(&plan, true), ReconcileOutcome::Error);
    let wide = "é".repeat(32);
    assert!(matches!(
        DiscordBot::edit_member(&g, USER, Some(&m), &wide, None),
        ReconcilePlan::Edit(_)
    ));
}

#[test]
fn outcome_follows_the_platform() {
    let g = guild();
    let m = member(&[]);
    let plan = DiscordBot::edit_member(&g, USER, Some(&m), "n", None);
    assert_eq!(DiscordBot::outcome(&plan, true), ReconcileOutcome::Applied);
    assert_eq!(DiscordBot::outcome(&plan, false), ReconcileOutcome::Error);
}

#[test]
fn presentation_shows_score_and_name() {
    let p = player("s1mple", r#"{"cs2": {"faceit_elo": 1623, "skill_level": 7}}"#);
    let shown = DiscordBot::desired_presentation(&p).unwrap();
    assert_eq!(shown.nickname, "(1623 ELO) s1mple");
    assert_eq!(shown.tier, Some(7));
}

#[test]
fn presentation_needs_level_and_score() {
    let no_level = player("n", r#"{"cs2": {"faceit_elo": 1623}}"#);
    assert!(DiscordBot::desired_presentation(&no_level).is_none());
    let no_score = player("n", r#"{"cs2": {"skill_level": 7}}"#);
    assert!(DiscordBot::desired_presentation(&no_score).is_none());
    let no_game = player("n", "{}");
    assert!(DiscordBot::desired_presentation(&no_game).is_none());
}

#[test]
fn level_outside_the_catalogue_shows_nothing() {
    let high = player("n", r#"{"cs2": {"faceit_elo": 3000, "skill_level": 11}}"#);
    assert!(DiscordBot::desired_presentation(&high).is_none());
    let zero = player("n", r#"{"cs2": {"faceit_elo": 0, "skill_level": 0}}"#);
    assert!(DiscordBot::desired_presentation(&zero).is_none());
    let g = guild();
    let m = member(&[11, 105]);
    let plan = DiscordBot::reconcile_player(&g, USER, Some(&m), &high);
    assert!(matches!(plan, ReconcilePlan::Skipped(SkipReason::Ineligible)));
}

#[test]
fn score_that_is_no_number_shows_nothing() {
    let quoted = player("n", r#"{"cs2": {"faceit_elo": "1500", "skill_level": 5}}"#);
    assert!(DiscordBot::desired_presentation(&quoted).is_none());
    let null = player("n", r#"{"cs2": {"faceit_elo": null, "skill_level": 5}}"#);
    assert!(DiscordBot::desired_presentation(&null).is_none());
}

#[test]
fn every_level_of_the_catalogue_is_shown() {
    for tier in 1..=10usize {
        let games = format!(r#"{{"cs2": {{"faceit_elo": 1234, "skill_level": {}}}}}"#, tier);
        let shown = DiscordBot::desired_presentation(&player("n", &games)).unwrap();
        assert_eq!(shown.tier, Some(tier));
        assert_eq!(shown.nickname, "(1234 ELO) n");
    }
}

#[test]
fn cleared_presentation_is_empty() {
    let cleared = DiscordBot::cleared();
    assert_eq!(cleared.nickname, "");
    assert_eq!(cleared.tier, None);
}

#[test]
fn reconcile_finds_the_role_by_its_label() {
    let g = guild();
    let m = member(&[11, 105]);
    let shown = Presentation { nickname: "(1623 ELO) s1mple".to_string(), tier: Some(7) };
    let (nickname, roles) = edit_of(DiscordBot::reconcile(&g, USER, Some(&m), &shown));
    assert_eq!(nickname, "(1623 ELO) s1mple");
    assert_eq!(roles, vec![11, 107]);
}

#[test]
fn community_without_the_role_still_gets_the_nickname() {
    let g = guild();
    let m = member(&[11, 105]);
    let shown = Presentation { nickname: "(900 ELO) n".to_string(), tier: Some(2) };
    let (nickname, roles) = edit_of(DiscordBot::reconcile(&g, USER, Some(&m), &shown));
    assert_eq!(nickname, "(900 ELO) n");
    assert_eq!(roles, vec![11]);
}

#[test]
fn reconcile_of_owner_is_skipped() {
    let g = guild();
    let shown = Presentation { nickname: "(900 ELO) n".to_string(), tier: Some(1) };
    let m = Member { user_id: OWNER, nick: None, roles: vec![] };
    let plan = DiscordBot::reconcile(&g, OWNER, Some(&m), &shown);
    assert!(matches!(plan, ReconcilePlan::Skipped(SkipReason::Owner)));
}

#[test]
fn role_lookup_is_exact_and_takes_the_first() {
    let g = Guild {
        id: 1,
        owner_id: 2,
        roles: vec![role(5, "level 1 (1-800 elo)"), role(6, "Level 1 (1-800 ELO)"), role(7, "Level 1 (1-800 ELO)")],
    };
    assert_eq!(g.role_by_name("Level 1 (1-800 ELO)"), Some(6));
    assert_eq!(g.role_by_name("Level 1"), None);
    assert!(g.is_tier_role(6));
    assert!(g.is_tier_role(7));
    assert!(!g.is_tier_role(5));
    assert!(!g.is_tier_role(8));
}

#[test]
fn second_role_with_the_label_is_stale() {
    let g = Guild {
        id: 1,
        owner_id: 2,
        roles: vec![role(6, "Level 1 (1-800 ELO)"), role(7, "Level 1 (1-800 ELO)")],
    };
    let m = member(&[7, 3]);
    let shown = Presentation { nickname: "n".to_string(), tier: Some(1) };
    let (_, roles) = edit_of(DiscordBot::reconcile(&g, USER, Some(&m), &shown));
    assert_eq!(roles, vec![3, 6]);
}

#[test]
fn player_without_rank_is_left_alone() {
    let g = guild();
    let m = member(&[11, 105]);
    let plan = DiscordBot::reconcile_player(&g, USER, Some(&m), &player("n", "{}"));
    assert!(matches!(plan, ReconcilePlan::Skipped(SkipReason::Ineligible)));
    assert_eq!(DiscordBot::outcome(&plan, true), ReconcileOutcome::Skipped);
}

#[test]
fn ranked_player_is_reconciled() {
    let g = guild();
    let m = member(&[11, 105]);
    let p = player("s1mple", r#"{"cs2": {"faceit_elo": 1623, "skill_level": 7}}"#);
    let (nickname, roles) = edit_of(DiscordBot::reconcile_player(&g, USER, Some(&m), &p));
    assert_eq!(nickname, "(1623 ELO) s1mple");
    assert_eq!(roles, vec![11, 107]);
    let owner = DiscordBot::reconcile_player(&g, OWNER, Some(&m), &p);
    assert!(matches!(owner, ReconcilePlan::Skipped(SkipReason::Owner)));
}
