use faceit_link::database::{Database, LinkedUser};

fn pairs(db: &Database) -> Vec<(String, String)> {
    db.fetch_users().into_iter().map(|u| (u.faceit_id, u.discord_id)).collect()
}

#[test]
fn new_table_is_empty() {
    let db = Database::new();
    assert_eq!(db.count_users(), 0);
    assert!(db.fetch_users().is_empty());
    assert!(!db.user_exists("1"));
}

#[test]
fn added_user_exists() {
    let mut db = Database::new();
    assert!(db.add_user("f1".to_string(), "100".to_string()));
    assert!(db.user_exists("100"));
    assert!(!db.user_exists("f1"));
    assert!(!db.user_exists("10"));
    assert_eq!(db.count_users(), 1);
}

#[test]
fn second_link_of_a_user_is_refused() {
    let mut db = Database::new();
    assert!(db.add_user("f1".to_string(), "100".to_string()));
    assert!(!db.add_user("f2".to_string(), "100".to_string()));
    assert_eq!(db.count_users(), 1);
    assert_eq!(pairs(&db), vec![("f1".to_string(), "100".to_string())]);
}

#[test]
fn two_users_may_share_an_account() {
    let mut db = Database::new();
    assert!(db.add_user("f1".to_string(), "100".to_string()));
    assert!(db.add_user("f1".to_string(), "200".to_string()));
    assert_eq!(db.count_users(), 2);
}

#[test]
fn unlink_removes_exactly_one_row() {
    let mut db = Database::new();
    db.add_user("f1".to_string(), "100".to_string());
    db.add_user("f2".to_string(), "200".to_string());
    db.add_user("f3".to_string(), "300".to_string());
    assert!(db.unlink_user("200"));
    assert_eq!(db.count_users(), 2);
    assert!(!db.user_exists("200"));
    assert_eq!(
        pairs(&db),
        vec![("f1".to_string(), "100".to_string()), ("f3".to_string(), "300".to_string())]
    );
}

#[test]
fn unlink_of_unknown_user_changes_nothing() {
    let mut db = Database::new();
    db.add_user("f1".to_string(), "100".to_string());
    assert!(!db.unlink_user("999"));
    assert_eq!(pairs(&db), vec![("f1".to_string(), "100".to_string())]);
    assert!(!db.unlink_user(""));
    assert_eq!(db.count_users(), 1);
}

#[test]
fn unlinked_user_can_link_again() {
    let mut db = Database::new();
    db.add_user("f1".to_string(), "100".to_string());
    assert!(db.unlink_user("100"));
    assert!(db.add_user("f2".to_string(), "100".to_string()));
    assert_eq!(pairs(&db), vec![("f2".to_string(), "100".to_string())]);
}

#[test]
fn users_come_oldest_first() {
    let mut db = Database::new();
    for (f, d) in [("c", "3"), ("a", "1"), ("b", "2")] {
        db.add_user(f.to_string(), d.to_string());
    }
    let ids: Vec<String> = db.fetch_users().into_iter().map(|u| u.discord_id).collect();
    assert_eq!(ids, vec!["3", "1", "2"]);
}

#[test]
fn row_needs_both_columns() {
    let full = LinkedUser::from_row(Some("f".to_string()), Some("d".to_string())).unwrap();
    assert_eq!(full.faceit_id, "f");
    assert_eq!(full.discord_id, "d");
    assert!(LinkedUser::from_row(None, Some("d".to_string())).is_none());
    assert!(LinkedUser::from_row(Some("f".to_string()), None).is_none());
    assert!(LinkedUser::from_row(None, None).is_none());
}

#[test]
fn duplicate_copies_both_fields() {
    let user = LinkedUser { faceit_id: "f".to_string(), discord_id: "d".to_string() };
    let copy = user.duplicate();
    assert_eq!(copy.faceit_id, "f");
    assert_eq!(copy.discord_id, "d");
}
