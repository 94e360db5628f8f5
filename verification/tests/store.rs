use db_manager::{gen_id, DBError, DBManager, Id};

#[derive(Debug, Clone)]
struct TestUser {
    id: String,
    name: String,
    age: u32,
}

impl Id for TestUser {
    fn gen_id(&self) -> String {
        gen_id()
    }
}

fn encode_user(user: &TestUser) -> Vec<u8> {
    bincode::serialize(&(user.id.clone(), user.name.clone(), user.age)).unwrap()
}

fn decode_user(bytes: &[u8]) -> TestUser {
    let (id, name, age): (String, String, u32) = bincode::deserialize(bytes).unwrap();
    TestUser { id, name, age }
}

fn db_path(name: &str) -> String {
    format!("/tmp/{}", name)
}

#[test]
fn test_db_creation() {
    let db_name = "test_create_db";

    let db = DBManager::new(db_path(db_name));
    assert!(db.is_ok());
}

#[test]
fn test_gen_id() {
    let db_name = "test_gen_id_db";

    let db = DBManager::new(db_path(db_name)).unwrap();
    let id1 = db.gen_id();
    let id2 = db.gen_id();

    assert_ne!(id1, id2, "Generated IDs should be unique");
    assert_eq!(id1.len(), 36, "UUID should be 36 characters long");
}

#[test]
fn test_insert_and_get_data() {
    let db_name = "test_insert_db";

    let mut db = DBManager::new(db_path(db_name)).unwrap();
    let test_user = TestUser {
        id: db.gen_id(),
        name: "John Doe".to_string(),
        age: 30,
    };

    let payload = encode_user(&test_user);
    let inserted_id = db.insert_data(test_user.clone(), payload).unwrap();
    let retrieved_user = decode_user(&db.get_by_id(inserted_id.clone()).unwrap());

    assert_eq!(retrieved_user.id, test_user.id);
    assert_eq!(retrieved_user.name, test_user.name);
    assert_eq!(retrieved_user.age, test_user.age);
}

#[test]
fn test_get_nonexistent_data() {
    let db_name = "test_get_none_db";

    let db = DBManager::new(db_path(db_name)).unwrap();
    let retrieved_user: Result<Vec<u8>, DBError> = db.get_by_id("nonexistent_id".to_string());

    assert!(retrieved_user.is_err());
}

#[test]
fn test_delete_data() {
    let db_name = "test_delete_db";

    let mut db = DBManager::new(db_path(db_name)).unwrap();
    let test_user = TestUser {
        id: db.gen_id(),
        name: "Jane Doe".to_string(),
        age: 25,
    };

    let payload = encode_user(&test_user);
    let inserted_id = db.insert_data(test_user, payload).unwrap();
    let delete_result = db.delete_by_id(inserted_id.clone());
    assert!(delete_result.is_ok());

    let retrieved_user: Result<Vec<u8>, DBError> = db.get_by_id(inserted_id);
    assert!(retrieved_user.is_err());
}

#[test]
fn test_delete_nonexistent_data() {
    let db_name = "test_delete_none_db";

    let mut db = DBManager::new(db_path(db_name)).unwrap();
    let delete_result = db.delete_by_id("nonexistent_id".to_string());

    assert!(delete_result.is_err());
}

#[test]
fn test_database_close() {
    let db_name = "test_close_db";
    let path = db_path(db_name);

    {
        let mut db = DBManager::new(path.clone()).unwrap();
        let test_user = TestUser {
            id: db.gen_id(),
            name: "Test User".to_string(),
            age: 20,
        };
        let payload = encode_user(&test_user);
        db.insert_data(test_user, payload).unwrap();
        db.close().unwrap();
    }

    let db = DBManager::new(path.clone()).unwrap();
    assert_eq!(db.database_name, path);
}
