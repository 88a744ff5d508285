use userstore::configs::InMemory;
use userstore::model::{User, UserDAOError, UserFields};
use userstore::services::{UserDAO, UserInMemoryDAO};

fn fields(name: &str) -> UserFields {
    UserFields { name: name.to_string() }
}

#[test]
fn create_run_gives_increasing_ids_and_exact_records() {
    let mut dao = UserInMemoryDAO::new(None);
    let a = dao.create(&fields("Alpha")).unwrap();
    let b = dao.create(&fields("Beta1")).unwrap();
    let c = dao.create(&fields("Gamma")).unwrap();
    assert!(a.id < b.id && b.id < c.id);
    assert_eq!((1, 2, 3), (a.id, b.id, c.id));
    assert_eq!(
        vec![
            User { id: 1, fields: fields("Alpha") },
            User { id: 2, fields: fields("Beta1") },
            User { id: 3, fields: fields("Gamma") },
        ],
        dao.list()
    );
}

#[test]
fn create_conflict_leaves_store_unchanged() {
    let mut dao = UserInMemoryDAO::new(Some(&InMemory { users: 2 }));
    let before = dao.list();
    let result = dao.create(&fields("User1"));
    assert_eq!(Err(UserDAOError { message: "User exists".to_string() }), result);
    assert_eq!(before, dao.list());
}

#[test]
fn create_invalid_leaves_store_unchanged() {
    let mut dao = UserInMemoryDAO::new(Some(&InMemory { users: 2 }));
    let before = dao.list();
    let result = dao.create(&fields("bad"));
    assert!(result.is_err());
    assert_eq!(before, dao.list());
}

#[test]
fn update_invalid_leaves_store_unchanged() {
    let mut dao = UserInMemoryDAO::new(Some(&InMemory { users: 2 }));
    let before = dao.list();
    let result = dao.update(&User { id: 1, fields: fields("") });
    assert_eq!(
        Err(UserDAOError {
            message: "Validation failed for: field: 'name' errors: 'length, regex'".to_string()
        }),
        result
    );
    assert_eq!(before, dao.list());
}

#[test]
fn update_missing_id_leaves_store_unchanged() {
    let mut dao = UserInMemoryDAO::new(Some(&InMemory { users: 3 }));
    let before = dao.list();
    let result = dao.update(&User { id: 9, fields: fields("Fresh") });
    assert_eq!(Err(UserDAOError { message: "User not found".to_string() }), result);
    assert_eq!(before, dao.list());
}

#[test]
fn delete_removes_exactly_one_record() {
    let mut dao = UserInMemoryDAO::new(Some(&InMemory { users: 3 }));
    let removed = dao.delete_by_id(2).unwrap();
    assert_eq!(User { id: 2, fields: fields("User2") }, removed);
    assert_eq!(
        vec![
            User { id: 1, fields: fields("User1") },
            User { id: 3, fields: fields("User3") },
        ],
        dao.list()
    );
    let again = dao.delete_by_id(2);
    assert_eq!(Err(UserDAOError { message: "User not found".to_string() }), again);
}

#[test]
fn list_twice_without_mutation_is_identical() {
    let mut dao = UserInMemoryDAO::new(Some(&InMemory { users: 4 }));
    dao.create(&fields("Extra")).unwrap();
    let first = dao.list();
    let second = dao.list();
    assert_eq!(first, second);
}

#[test]
fn full_scenario_create_conflict_update_delete() {
    let mut dao = UserInMemoryDAO::new(None);

    let created = dao.create(&fields("User")).unwrap();
    assert_eq!(User { id: 1, fields: fields("User") }, created);

    let conflict = dao.create(&fields("User"));
    assert_eq!(Err(UserDAOError { message: "User exists".to_string() }), conflict);

    let other = dao.create(&fields("Other")).unwrap();
    assert_eq!(User { id: 2, fields: fields("Other") }, other);

    let renamed = dao.update(&User { id: 2, fields: fields("Renamed") }).unwrap();
    assert_eq!(User { id: 2, fields: fields("Renamed") }, renamed);

    let deleted = dao.delete_by_id(1).unwrap();
    assert_eq!(User { id: 1, fields: fields("User") }, deleted);

    let remaining = dao.list();
    assert_eq!(1, remaining.len());
    assert_eq!(2, remaining[0].id);
}

#[test]
fn next_id_is_one_above_the_current_maximum() {
    let mut dao = UserInMemoryDAO::new(None);
    dao.create(&fields("First")).unwrap();
    let second = dao.create(&fields("Second")).unwrap();
    assert_eq!(2, second.id);
    dao.delete_by_id(2).unwrap();
    let third = dao.create(&fields("Third")).unwrap();
    assert_eq!(2, third.id);
    dao.delete_by_id(1).unwrap();
    let fourth = dao.create(&fields("Fourth")).unwrap();
    assert_eq!(3, fourth.id);
}

#[test]
fn validation_message_names_each_failed_check() {
    let mut dao = UserInMemoryDAO::new(None);

    let only_length = dao.create(&fields("Abc")).unwrap_err();
    assert_eq!("Validation failed for: field: 'name' errors: 'length'", only_length.message);

    let only_pattern = dao.create(&fields("abcd")).unwrap_err();
    assert_eq!("Validation failed for: field: 'name' errors: 'regex'", only_pattern.message);

    let length_and_pattern = dao.create(&fields("ab")).unwrap_err();
    assert_eq!(
        "Validation failed for: field: 'name' errors: 'length, regex'",
        length_and_pattern.message
    );

    let control_and_pattern = dao.create(&fields("Abcd\u{7}")).unwrap_err();
    assert_eq!(
        "Validation failed for: field: 'name' errors: 'non_control_character, regex'",
        control_and_pattern.message
    );

    let all_three = dao.create(&fields("\u{7}")).unwrap_err();
    assert_eq!(
        "Validation failed for: field: 'name' errors: 'length, non_control_character, regex'",
        all_three.message
    );

    assert_eq!(0, dao.list().len());
}

#[test]
fn seeded_store_counts_and_names() {
    let dao = UserInMemoryDAO::new(Some(&InMemory { users: 12 }));
    let users = dao.list();
    assert_eq!(12, users.len());
    assert_eq!(User { id: 10, fields: fields("User10") }, users[9]);
    assert_eq!(User { id: 12, fields: fields("User12") }, users[11]);
}
