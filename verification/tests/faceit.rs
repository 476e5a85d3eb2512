use faceit_link::faceit::{Faceit, Player, Resolution, StatusClass};

fn player(id: &str, nickname: &str, games: &str) -> Player {
    let games: serde_json::Map<String, serde_json::Value> = serde_json::from_str(games).unwrap();
    Player::new(id.to_string(), nickname.to_string(), games)
}

#[test]
fn ranked_player_has_score_and_level() {
    let p = player("abc-123", "s1mple", r#"{"cs2": {"faceit_elo": 1500, "skill_level": 7}}"#);
    assert_eq!(p.player_id, "abc-123");
    assert_eq!(p.nickname, "s1mple");
    assert_eq!(p.get_player_elo(), Some("1500".to_string()));
    assert_eq!(p.get_player_skill_level(), Some(7));
}

#[test]
fn player_without_tracked_game_has_no_rank() {
    let p = player("abc", "nick", r#"{"csgo": {"faceit_elo": 1500, "skill_level": 7}}"#);
    assert_eq!(p.get_player_elo(), None);
    assert_eq!(p.get_player_skill_level(), None);
    let q = player("abc", "nick", "{}");
    assert_eq!(q.get_player_elo(), None);
    assert_eq!(q.get_player_skill_level(), None);
}

#[test]
fn tracked_game_may_lack_either_field() {
    let p = player("abc", "nick", r#"{"cs2": {"faceit_elo": 900}}"#);
    assert_eq!(p.get_player_elo(), Some("900".to_string()));
    assert_eq!(p.get_player_skill_level(), None);
    let q = player("abc", "nick", r#"{"cs2": {"skill_level": 3}}"#);
    assert_eq!(q.get_player_elo(), None);
    assert_eq!(q.get_player_skill_level(), Some(3));
}

#[test]
fn tracked_game_that_is_no_object_has_no_rank() {
    let p = player("abc", "nick", r#"{"cs2": [1500, 7]}"#);
    assert_eq!(p.get_player_elo(), None);
    assert_eq!(p.get_player_skill_level(), None);
    let q = player("abc", "nick", r#"{"cs2": null}"#);
    assert_eq!(q.get_player_elo(), None);
    assert_eq!(q.get_player_skill_level(), None);
}

#[test]
fn level_must_be_an_unsigned_decimal_number() {
    let cases = [
        (r#"{"cs2": {"skill_level": "7"}}"#, None),
        (r#"{"cs2": {"skill_level": 7.5}}"#, None),
        (r#"{"cs2": {"skill_level": -1}}"#, None),
        (r#"{"cs2": {"skill_level": null}}"#, None),
        (r#"{"cs2": {"skill_level": true}}"#, None),
        (r#"{"cs2": {"skill_level": 1}}"#, Some(1usize)),
        (r#"{"cs2": {"skill_level": 10}}"#, Some(10)),
    ];
    for (games, expected) in cases {
        assert_eq!(player("a", "b", games).get_player_skill_level(), expected, "{}", games);
    }
}

#[test]
fn level_outside_the_catalogue_is_no_level() {
    for games in [
        r#"{"cs2": {"skill_level": 0}}"#,
        r#"{"cs2": {"skill_level": 11}}"#,
        r#"{"cs2": {"skill_level": 100}}"#,
        r#"{"cs2": {"skill_level": 18446744073709551615}}"#,
        r#"{"cs2": {"skill_level": 18446744073709551616}}"#,
    ] {
        assert_eq!(player("a", "b", games).get_player_skill_level(), None, "{}", games);
    }
    for tier in 1..=10usize {
        let games = format!(r#"{{"cs2": {{"skill_level": {}}}}}"#, tier);
        assert_eq!(player("a", "b", &games).get_player_skill_level(), Some(tier));
    }
}

#[test]
fn score_must_be_an_unsigned_decimal_number() {
    let cases = [
        (r#"{"cs2": {"faceit_elo": 1500}}"#, Some(1500u64)),
        (r#"{"cs2": {"faceit_elo": 0}}"#, Some(0)),
        (r#"{"cs2": {"faceit_elo": 18446744073709551615}}"#, Some(u64::MAX)),
        (r#"{"cs2": {"faceit_elo": "1500"}}"#, None),
        (r#"{"cs2": {"faceit_elo": null}}"#, None),
        (r#"{"cs2": {"faceit_elo": 1500.5}}"#, None),
        (r#"{"cs2": {"faceit_elo": -20}}"#, None),
        (r#"{"cs2": {"faceit_elo": true}}"#, None),
        (r#"{"cs2": {"faceit_elo": [1500]}}"#, None),
        (r#"{"cs2": {"faceit_elo": {"value": 1500}}}"#, None),
    ];
    for (games, expected) in cases {
        let p = player("a", "b", games);
        assert_eq!(p.score(), expected, "{}", games);
        assert_eq!(p.get_player_elo(), expected.map(|score| score.to_string()), "{}", games);
    }
}

#[test]
fn requests_address_the_player() {
    let client = Faceit::new("SECRET".to_string());
    let by_id = client.get_faceit_user_by_id("abc-123");
    assert_eq!(by_id.url, "https://open.faceit.com/data/v4/players/abc-123");
    assert_eq!(by_id.authorization, "Bearer SECRET");
    let by_name = client.get_faceit_user_by_nickname("s1mple");
    assert_eq!(by_name.url, "https://open.faceit.com/data/v4/players?nickname=s1mple&game=cs2");
    assert_eq!(by_name.authorization, "Bearer SECRET");
}

#[test]
fn status_codes_fall_in_three_classes() {
    assert_eq!(Faceit::classify(200), StatusClass::Success);
    assert_eq!(Faceit::classify(204), StatusClass::Success);
    assert_eq!(Faceit::classify(299), StatusClass::Success);
    assert_eq!(Faceit::classify(300), StatusClass::Other);
    assert_eq!(Faceit::classify(199), StatusClass::Other);
    assert_eq!(Faceit::classify(399), StatusClass::Other);
    assert_eq!(Faceit::classify(400), StatusClass::ClientError);
    assert_eq!(Faceit::classify(404), StatusClass::ClientError);
    assert_eq!(Faceit::classify(499), StatusClass::ClientError);
    assert_eq!(Faceit::classify(500), StatusClass::Other);
    assert_eq!(Faceit::classify(503), StatusClass::Other);
    assert_eq!(Faceit::classify(0), StatusClass::Other);
}

#[test]
fn client_error_means_not_found() {
    assert!(matches!(Faceit::faceit_api_query(404, None), Resolution::NotFound));
    assert!(matches!(Faceit::faceit_api_query(400, None), Resolution::NotFound));
    let p = player("a", "b", "{}");
    assert!(matches!(Faceit::faceit_api_query(404, Some(p)), Resolution::NotFound));
}

#[test]
fn other_failures_are_transient() {
    assert!(matches!(Faceit::faceit_api_query(500, None), Resolution::Failed));
    assert!(matches!(Faceit::faceit_api_query(302, None), Resolution::Failed));
    assert!(matches!(Faceit::faceit_api_query(200, None), Resolution::Failed));
}

#[test]
fn success_hands_the_player_on() {
    let p = player("abc", "nick", r#"{"cs2": {"faceit_elo": 1234, "skill_level": 5}}"#);
    match Faceit::faceit_api_query(200, Some(p)) {
        Resolution::Found(found) => {
            assert_eq!(found.player_id, "abc");
            assert_eq!(found.get_player_skill_level(), Some(5));
        }
        _ => panic!("expected the player"),
    }
}
