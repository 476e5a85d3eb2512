use faceit_link::discord::{DiscordBot, Guild, Role};
use faceit_link::provision::{
    ProvisionAction, ProvisionEvent, ProvisionPhase, Provisioning, TierRole,
};
use faceit_link::tiers::{tier_colour, tier_label};

fn guild_with(tiers: &[usize]) -> Guild {
    let mut roles = vec![Role { id: 1, name: "@everyone".to_string() }];
    for tier in tiers {
        roles.push(Role { id: 100 + *tier as u64, name: tier_label(*tier).unwrap().to_string() });
    }
    Guild { id: 5, owner_id: 6, roles }
}

/// Provisions `guild`, creating roles with the identifiers `1000 + tier`; `fail_at` is the
/// number of the creation that fails. Returns the names created and the end.
fn run(guild: &Guild, fail_at: Option<usize>) -> (Vec<(String, u32)>, Option<Vec<TierRole>>) {
    let (mut work, mut action) = DiscordBot::prepare_guild(guild);
    let mut created = Vec::new();
    let mut calls = 0;
    loop {
        calls += 1;
        assert!(calls < 100, "the work does not end");
        let event = match action {
            ProvisionAction::Create(role) => {
                assert!(role.hoist);
                assert!(role.mentionable);
                created.push((role.name, role.colour));
                if fail_at == Some(created.len()) {
                    ProvisionEvent::Created(None)
                } else {
                    ProvisionEvent::Created(Some(1000 + work.tier as u64))
                }
            }
            ProvisionAction::Pause { millis } => {
                assert_eq!(millis, 40);
                ProvisionEvent::Resumed
            }
            ProvisionAction::Finish(roles) => return (created, Some(roles)),
            ProvisionAction::Fail => return (created, None),
        };
        let next = work.step(guild, event);
        work = next.0;
        action = next.1;
    }
}

#[test]
fn provisioned_community_needs_no_creation() {
    let guild = guild_with(&[1, 2, 3, 4, 5, 6, 7, 8, 9, 10]);
    let (created, roles) = run(&guild, None);
    assert!(created.is_empty());
    let roles = roles.unwrap();
    assert_eq!(roles.len(), 10);
    for (offset, role) in roles.iter().enumerate() {
        assert_eq!(*role, TierRole { tier: offset + 1, role_id: 101 + offset as u64 });
    }
    let (again_created, again) = run(&guild, None);
    assert!(again_created.is_empty());
    assert_eq!(again.unwrap(), roles);
}

#[test]
fn empty_community_gets_ten_roles_in_ascending_order() {
    let guild = guild_with(&[]);
    let (created, roles) = run(&guild, None);
    assert_eq!(created.len(), 10);
    for (offset, (name, colour)) in created.iter().enumerate() {
        assert_eq!(name, tier_label(offset + 1).unwrap());
        assert_eq!(Some(*colour), tier_colour(offset + 1));
    }
    assert_eq!(created[0], ("Level 1 (1-800 ELO)".to_string(), 0xDDDDDD));
    assert_eq!(created[2], ("Level 3 (951-1100 ELO)".to_string(), 0x47E36E));
    assert_eq!(created[6], ("Level 7 (1551-1700 ELO)".to_string(), 0xFFCD25));
    assert_eq!(created[8], ("Level 9 (1851-2000 ELO)".to_string(), 0xFF6C20));
    assert_eq!(created[9], ("Level 10 (2001+ ELO)".to_string(), 0xE80128));
    let roles = roles.unwrap();
    for (offset, role) in roles.iter().enumerate() {
        assert_eq!(*role, TierRole { tier: offset + 1, role_id: 1001 + offset as u64 });
    }
}

#[test]
fn only_missing_roles_are_created() {
    let guild = guild_with(&[1, 2, 4, 5, 6, 8, 9, 10]);
    let (created, roles) = run(&guild, None);
    assert_eq!(
        created.iter().map(|c| c.0.as_str()).collect::<Vec<&str>>(),
        vec!["Level 3 (951-1100 ELO)", "Level 7 (1551-1700 ELO)"]
    );
    let roles = roles.unwrap();
    assert_eq!(roles.len(), 10);
    assert_eq!(roles[1], TierRole { tier: 2, role_id: 102 });
    assert_eq!(roles[2], TierRole { tier: 3, role_id: 1003 });
    assert_eq!(roles[6], TierRole { tier: 7, role_id: 1007 });
    assert_eq!(roles[9], TierRole { tier: 10, role_id: 110 });
}

#[test]
fn failed_creation_ends_the_work() {
    let guild = guild_with(&[1, 2]);
    let (created, roles) = run(&guild, Some(2));
    assert_eq!(
        created.iter().map(|c| c.0.as_str()).collect::<Vec<&str>>(),
        vec!["Level 3 (951-1100 ELO)", "Level 4 (1101-1250 ELO)"]
    );
    assert!(roles.is_none());
}

#[test]
fn failed_work_stays_failed() {
    let guild = guild_with(&[]);
    let (work, _) = DiscordBot::prepare_guild(&guild);
    assert_eq!(work.phase, ProvisionPhase::Creating);
    assert_eq!(work.tier, 1);
    let (work, action) = work.step(&guild, ProvisionEvent::Created(None));
    assert_eq!(work.phase, ProvisionPhase::Failed);
    assert!(matches!(action, ProvisionAction::Fail));
    let (work, action) = work.step(&guild, ProvisionEvent::Resumed);
    assert_eq!(work.phase, ProvisionPhase::Failed);
    assert!(matches!(action, ProvisionAction::Fail));
}

#[test]
fn answer_out_of_turn_fails_the_work() {
    let guild = guild_with(&[]);
    let (work, _) = DiscordBot::prepare_guild(&guild);
    let (work, action) = work.step(&guild, ProvisionEvent::Resumed);
    assert_eq!(work.phase, ProvisionPhase::Failed);
    assert!(matches!(action, ProvisionAction::Fail));
    let stray = Provisioning { phase: ProvisionPhase::Pausing, tier: 0, roles: vec![] };
    let (stray, action) = stray.step(&guild, ProvisionEvent::Resumed);
    assert_eq!(stray.phase, ProvisionPhase::Failed);
    assert!(matches!(action, ProvisionAction::Fail));
}

#[test]
fn finished_work_repeats_its_roles() {
    let guild = guild_with(&[1, 2, 3, 4, 5, 6, 7, 8, 9, 10]);
    let (work, action) = DiscordBot::prepare_guild(&guild);
    assert_eq!(work.phase, ProvisionPhase::Done);
    let first = match action {
        ProvisionAction::Finish(roles) => roles,
        _ => panic!("expected the end"),
    };
    let (_, action) = work.step(&guild, ProvisionEvent::Resumed);
    match action {
        ProvisionAction::Finish(roles) => assert_eq!(roles, first),
        _ => panic!("expected the end"),
    }
}
