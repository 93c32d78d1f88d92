use user_registry::errors::{ProviderFault, StoreFault, UserError};
use user_registry::identity::{CognitoService, SignUpRequest};
use user_registry::manager::{RegisterStep, UserManager};
use user_registry::models::{ApiError, CreateUser};
use user_registry::store::{AttributeValue, PutItemRequest, UserStore};

/// An identity provider that keeps its users and refuses a username twice.
struct FakeProvider {
    users: Vec<String>,
    log: Vec<String>,
}

impl FakeProvider {
    fn new() -> Self {
        FakeProvider { users: Vec::new(), log: Vec::new() }
    }

    fn sign_up(&mut self, q: &SignUpRequest) -> Result<(), ProviderFault> {
        if self.users.contains(&q.username) {
            self.log.push(format!("sign_up {} refused", q.username));
            return Err(ProviderFault::UsernameExists);
        }
        self.users.push(q.username.clone());
        self.log.push(format!("sign_up {} ok", q.username));
        Ok(())
    }
}

/// A record store that keeps every write, or refuses every write.
struct FakeStore {
    fails: bool,
    items: Vec<PutItemRequest>,
}

impl FakeStore {
    fn put(&mut self, q: &PutItemRequest) -> Result<(), StoreFault> {
        if self.fails {
            return Err(StoreFault::Other("store unavailable".to_string()));
        }
        self.items.push(q.clone());
        Ok(())
    }
}

fn manager(mirrors: bool) -> UserManager {
    let cognito = CognitoService::new("client-1".to_string(), "secret".to_string(), "pool-1".to_string());
    UserManager::new(cognito, UserStore::users(), mirrors)
}

fn register(
    m: &UserManager,
    provider: &mut FakeProvider,
    store: &mut FakeStore,
    email: &str,
    password: &str,
    user_id: &str,
) -> Result<String, UserError> {
    let (reg, q) = m.register_user(email, password, user_id.to_string())?;
    match m.sign_up_replied(&reg, provider.sign_up(&q)) {
        RegisterStep::PutUser(put) => m.user_saved(&reg, store.put(&put)),
        RegisterStep::Finished(r) => r,
    }
}

#[test]
fn register_then_store_failure_reports_consistency_gap() {
    let m = manager(true);
    let mut provider = FakeProvider::new();
    let mut store = FakeStore { fails: true, items: Vec::new() };
    let r = register(&m, &mut provider, &mut store, "a@example.com", "pw123456", "id-1");
    match r {
        Err(UserError::ConsistencyGap { user_id, email, cause }) => {
            assert_eq!(user_id, "id-1");
            assert_eq!(email, "a@example.com");
            assert_eq!(cause, "store unavailable");
        }
        other => panic!("expected a consistency gap, got {:?}", other),
    }
    assert_eq!(provider.log, vec!["sign_up a@example.com ok".to_string()]);
    assert!(store.items.is_empty());
}

#[test]
fn register_same_email_twice_is_duplicate() {
    let m = manager(true);
    let mut provider = FakeProvider::new();
    let mut store = FakeStore { fails: false, items: Vec::new() };
    let first = register(&m, &mut provider, &mut store, "a@example.com", "pw123456", "id-1");
    assert_eq!(first.unwrap(), "id-1");
    let second = register(&m, &mut provider, &mut store, "a@example.com", "pw123456", "id-1");
    assert!(matches!(second, Err(UserError::DuplicateUser)));
    assert_eq!(store.items.len(), 1);
}

#[test]
fn register_writes_record_under_same_id() {
    let m = manager(true);
    let mut provider = FakeProvider::new();
    let mut store = FakeStore { fails: false, items: Vec::new() };
    register(&m, &mut provider, &mut store, "b@example.com", "pw123456", "id-7").unwrap();
    let put = &store.items[0];
    assert_eq!(put.table_name, "users");
    assert_eq!(put.item[0].0, "id");
    assert!(matches!(&put.item[0].1, AttributeValue::S(v) if v == "id-7"));
    assert_eq!(put.item[1].0, "email");
    assert!(matches!(&put.item[1].1, AttributeValue::S(v) if v == "b@example.com"));
}

#[test]
fn register_without_mirroring_writes_nothing() {
    let m = manager(false);
    let mut provider = FakeProvider::new();
    let mut store = FakeStore { fails: true, items: Vec::new() };
    let r = register(&m, &mut provider, &mut store, "c@example.com", "pw123456", "id-3");
    assert_eq!(r.unwrap(), "id-3");
}

#[test]
fn register_sign_up_request_fields() {
    let m = manager(true);
    let (reg, q) = m.register_user("a@example.com", "pw123456", "id-1".to_string()).unwrap();
    assert_eq!(reg.user_id, "id-1");
    assert_eq!(q.client_id, "client-1");
    assert_eq!(q.username, "a@example.com");
    assert_eq!(q.password, "pw123456");
    assert_eq!(q.secret_hash, "s7/TES4pEKoxk9Oc/DwRlzZu7KSh7VpkRg1lavaoNyM=");
    assert_eq!(q.user_attributes.len(), 1);
    assert_eq!(q.user_attributes[0].name, "email");
    assert_eq!(q.user_attributes[0].value, "a@example.com");
}

#[test]
fn register_with_empty_secret_is_configuration_error() {
    let cognito = CognitoService::new("client-1".to_string(), String::new(), "pool-1".to_string());
    let m = UserManager::new(cognito, UserStore::users(), true);
    let r = m.register_user("a@example.com", "pw123456", "id-1".to_string());
    assert!(matches!(r, Err(UserError::Configuration)));
}

#[test]
fn create_user_uses_fresh_hyphenated_ids() {
    let m = manager(true);
    let payload = CreateUser { email: "d@example.com".to_string(), password: "pw123456".to_string() };
    let (a, _) = m.create_user(&payload).unwrap();
    let (b, _) = m.create_user(&payload).unwrap();
    assert_eq!(a.user_id.len(), 36);
    assert_eq!(a.user_id.matches('-').count(), 4);
    assert_ne!(a.user_id, b.user_id);
    assert_eq!(a.email, "d@example.com");
}

#[test]
fn sign_up_faults_map_to_errors() {
    let m = manager(true);
    let (reg, _) = m.register_user("a@example.com", "pw", "id-1".to_string()).unwrap();
    let cases = [
        (ProviderFault::InvalidPassword, "password does not meet the policy"),
        (ProviderFault::InvalidParameter, "invalid parameter"),
        (ProviderFault::Other("timeout".to_string()), "timeout"),
    ];
    for (fault, text) in cases {
        match m.sign_up_replied(&reg, Err(fault)) {
            RegisterStep::Finished(Err(e)) => assert_eq!(e.message(), text),
            other => panic!("unexpected {:?}", other),
        }
    }
}

#[test]
fn consistency_gap_reports_status_500() {
    let e = UserError::ConsistencyGap {
        user_id: "id-1".to_string(),
        email: "a@example.com".to_string(),
        cause: "store unavailable".to_string(),
    };
    let api = ApiError::from_user_error(&e);
    assert_eq!(api.status, 500);
    assert_eq!(api.message, "registered but not saved: store unavailable");
}
