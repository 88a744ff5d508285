use userstore::basic::{User, UserDAO, UserDAOError, UserInMemoryDAO};
use userstore::configs::InMemory;

#[test]
fn test_empty_list() {
    let dao = UserInMemoryDAO::new(None);
    let users = dao.list();
    assert_eq!(0, users.len());
}

#[test]
fn test_non_empty_list() {
    let dao = UserInMemoryDAO::new(Some(&InMemory { users: 1 }));
    let users = dao.list();
    assert_eq!(users, vec![User { id: 1, name: "user 1".to_string() }]);
}

#[test]
fn test_find_by_id_ok() {
    let dao = UserInMemoryDAO::new(Some(&InMemory { users: 2 }));
    let user2 = dao.find_by_id(2);
    let expected = User { id: 2, name: "user 2".to_string() };
    assert_eq!(Some(expected), user2);
}

#[test]
fn test_find_by_id_not_found() {
    let dao = UserInMemoryDAO::new(Some(&InMemory { users: 2 }));
    let user5 = dao.find_by_id(5);
    assert_eq!(None, user5);
}

#[test]
fn test_find_by_id_not_found_on_empty_list() {
    let dao = UserInMemoryDAO::new(None);
    let user5 = dao.find_by_id(1);
    assert_eq!(None, user5);
}

#[test]
fn test_create_on_empty_list() {
    let mut dao = UserInMemoryDAO::new(None);
    let user = dao.create("user").unwrap();
    let expected = User { id: 1, name: "user".to_string() };

    assert_eq!(expected, user);

    let user_in_list = dao.list().contains(&expected);
    assert_eq!(true, user_in_list);

    let finded_user = dao.find_by_id(expected.id);
    assert_eq!(Some(expected), finded_user);
}

#[test]
fn test_create_with_existing_name() {
    let mut dao = UserInMemoryDAO::new(Some(&InMemory { users: 1 }));
    let result = dao.create("user 1");
    assert_eq!(Err(UserDAOError { message: "User exists".to_string() }), result);
}

#[test]
fn test_create_with_empty_name() {
    let mut dao = UserInMemoryDAO::new(None);
    let result = dao.create("");
    assert_eq!(Err(UserDAOError { message: "Empty name".to_string() }), result);
}

#[test]
fn test_update_existed() {
    let mut dao = UserInMemoryDAO::new(Some(&InMemory { users: 2 }));
    let updated_user = User { id: 2, name: "update user".to_string() };
    let user = dao.update(&updated_user).unwrap();
    assert_eq!(updated_user, user);

    let finded_user2 = dao.find_by_id(2).unwrap();
    assert_eq!(updated_user, finded_user2);

    let finded_user1 = dao.find_by_id(1).unwrap();
    assert_eq!(User { id: 1, name: "user 1".to_string() }, finded_user1);
}

#[test]
fn test_update_non_existed() {
    let mut dao = UserInMemoryDAO::new(Some(&InMemory { users: 1 }));
    let non_existed_user = User { id: 2, name: "test".to_string() };
    let result = dao.update(&non_existed_user).unwrap_err();

    assert_eq!(UserDAOError { message: "User not found".to_string() }, result);

    let exists = dao.list().contains(&User { id: 1, name: "user 1".to_string() });
    assert_eq!(true, exists);
}

#[test]
fn test_delete_existed() {
    let mut dao = UserInMemoryDAO::new(Some(&InMemory { users: 1 }));
    assert_eq!(false, dao.list().is_empty());

    let expected_user = User { id: 1, name: "user 1".to_string() };
    let deleted_user = dao.delete_by_id(expected_user.id).unwrap();

    assert_eq!(expected_user, deleted_user);

    assert_eq!(true, dao.list().is_empty());
}

#[test]
fn test_delete_not_existed() {
    let mut dao = UserInMemoryDAO::new(Some(&InMemory { users: 0 }));
    assert_eq!(true, dao.list().is_empty());

    let result = dao.delete_by_id(1).unwrap_err();
    assert_eq!(UserDAOError { message: "User not found".to_string() }, result);

    assert_eq!(true, dao.list().is_empty());
}
