use user_registry::errors::{StoreFault, UserError};
use user_registry::store::{AttributeValue, TableStatus, TableStep, UserStore};

/// A store that lists its tables and creates the ones it is asked for.
struct FakeStore {
    tables: Vec<String>,
    creates: usize,
}

impl FakeStore {
    fn ensure(&mut self, store: &UserStore) -> Result<TableStatus, UserError> {
        match store.tables_listed(Ok(self.tables.clone())) {
            TableStep::Finished(r) => r,
            TableStep::CreateTable(q) => {
                self.creates += 1;
                self.tables.push(q.table_name.clone());
                store.table_created(Ok(()))
            }
        }
    }
}

#[test]
fn ensure_table_twice_creates_once() {
    let store = UserStore::users();
    let mut fake = FakeStore { tables: vec!["other".to_string()], creates: 0 };
    assert_eq!(fake.ensure(&store).unwrap(), TableStatus::Created);
    assert_eq!(fake.creates, 1);
    assert_eq!(fake.ensure(&store).unwrap(), TableStatus::AlreadyExisted);
    assert_eq!(fake.creates, 1);
}

#[test]
fn ensure_table_create_request() {
    let store = UserStore::users();
    match store.tables_listed(Ok(Vec::new())) {
        TableStep::CreateTable(q) => {
            assert_eq!(q.table_name, "users");
            assert_eq!(q.key_attribute, "id");
            assert_eq!(q.read_capacity_units, 5);
            assert_eq!(q.write_capacity_units, 5);
        }
        other => panic!("expected a creation, got {:?}", other),
    }
}

#[test]
fn ensure_table_race_and_faults() {
    let store = UserStore::users();
    assert_eq!(store.table_created(Err(StoreFault::ResourceInUse)).unwrap(), TableStatus::AlreadyExisted);
    let r = store.table_created(Err(StoreFault::Other("throttled".to_string())));
    assert!(matches!(r, Err(UserError::Transport(m)) if m == "throttled"));
    let listed = store.tables_listed(Err(StoreFault::Other("down".to_string())));
    assert!(matches!(listed, TableStep::Finished(Err(UserError::Transport(m))) if m == "down"));
}

#[test]
fn scan_keeps_items_with_string_email() {
    let store = UserStore::users();
    let s = |v: &str| v.to_string();
    let items = vec![
        vec![(s("id"), AttributeValue::S(s("1"))), (s("email"), AttributeValue::S(s("a@x.io")))],
        vec![(s("id"), AttributeValue::S(s("2")))],
        vec![(s("email"), AttributeValue::Other)],
        vec![(s("email"), AttributeValue::S(s("b@x.io"))), (s("id"), AttributeValue::S(s("3")))],
    ];
    let users = store.list_users(Ok(items)).unwrap();
    let emails: Vec<&str> = users.iter().map(|u| u.email.as_str()).collect();
    assert_eq!(emails, vec!["a@x.io", "b@x.io"]);
    assert!(store.list_users(Ok(Vec::new())).unwrap().is_empty());
    assert!(matches!(store.list_users(Err(StoreFault::ResourceInUse)), Err(UserError::Transport(_))));
}

#[test]
fn save_user_item_layout() {
    let q = UserStore::users().save_user("id-1", "a@example.com");
    assert_eq!(q.table_name, "users");
    assert_eq!(q.item.len(), 2);
    assert_eq!(q.item[0].0, "id");
    assert_eq!(q.item[1].0, "email");
}
