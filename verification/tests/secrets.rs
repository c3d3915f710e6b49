use armoire::secrets::{
    self, Secret, SecretError, SecretStep, SecretTask, StoreReply, StoreRequest,
};
use std::collections::HashMap;

/// An in-memory stand-in for the platform store, with optional failures.
#[derive(Default)]
struct MemoryStore {
    entries: HashMap<String, String>,
    fail_lookup: Option<String>,
    fail_store: Option<String>,
    fail_clear: Option<String>,
    requests: usize,
}

impl MemoryStore {
    fn answer(&mut self, request: &StoreRequest) -> StoreReply {
        self.requests += 1;
        match request {
            StoreRequest::Lookup { name } => match &self.fail_lookup {
                Some(e) => StoreReply::Lookup(Err(e.clone())),
                None => StoreReply::Lookup(Ok(self.entries.get(name).cloned())),
            },
            StoreRequest::Store { name, value } => match &self.fail_store {
                Some(e) => StoreReply::Store(Err(e.clone())),
                None => {
                    self.entries.insert(name.clone(), value.clone());
                    StoreReply::Store(Ok(()))
                }
            },
            StoreRequest::Clear { name } => match &self.fail_clear {
                Some(e) => StoreReply::Clear(Err(e.clone())),
                None => {
                    self.entries.remove(name);
                    StoreReply::Clear(Ok(()))
                }
            },
        }
    }

    fn run(&mut self, mut step: SecretStep) -> Result<Option<Secret>, SecretError> {
        loop {
            match step {
                SecretStep::Done(result) => return result,
                SecretStep::Ask { task, request } => {
                    let reply = self.answer(&request);
                    step = secrets::advance(task, reply);
                }
            }
        }
    }

    fn add(&mut self, secret: &Secret) -> Result<(), SecretError> {
        self.run(secrets::add(secret)).map(|_| ())
    }

    fn get(&mut self, name: &str) -> Result<Secret, SecretError> {
        self.run(secrets::get(name)).map(|s| s.unwrap())
    }

    fn update(&mut self, secret: &Secret) -> Result<(), SecretError> {
        self.run(secrets::update(secret)).map(|_| ())
    }

    fn upsert(&mut self, secret: &Secret) -> Result<(), SecretError> {
        self.run(secrets::upsert(secret)).map(|_| ())
    }

    fn remove(&mut self, name: &str) -> Result<(), SecretError> {
        self.run(secrets::remove(name)).map(|_| ())
    }

    fn create_random(&mut self, name: &str) -> Result<Secret, SecretError> {
        self.run(secrets::create_random(name)).map(|s| s.unwrap())
    }
}

#[test]
fn new_object() {
    let secret = Secret::new("my_secret".to_string(), "my_value".to_string());
    assert_eq!(secret.name(), "my_secret");
    assert_eq!(secret.value(), "my_value");
}

#[test]
fn add_secret() {
    let mut store = MemoryStore::default();
    let secret = Secret::new("test_secret".to_string(), "test_value".to_string());
    let result = store.add(&secret);
    assert!(result.is_ok());
    let retrieved = store.get("test_secret").unwrap();
    assert_eq!(retrieved, secret);
}

#[test]
fn add_random_secret() {
    let mut store = MemoryStore::default();
    let secret = store.create_random("random_secret").unwrap();
    assert_eq!(secret.name(), "random_secret");
    let retrieved = store.get("random_secret").unwrap();
    assert_eq!(retrieved, secret);
    assert!(retrieved.value().len() == 64);
}

#[test]
fn update_secret() {
    let mut store = MemoryStore::default();
    let secret = Secret::new("update_secret".to_string(), "initial_value".to_string());
    let result = store.add(&secret);
    assert!(result.is_ok());
    let updated_secret = Secret::new("update_secret".to_string(), "updated_value".to_string());
    let update_result = store.update(&updated_secret);
    assert!(update_result.is_ok());
    let retrieved = store.get("update_secret").unwrap();
    assert_eq!(retrieved, updated_secret);
}

#[test]
fn duplicate_secret() {
    let mut store = MemoryStore::default();
    let secret = Secret::new("duplicate_secret".to_string(), "value1".to_string());
    let result1 = store.add(&secret);
    assert!(result1.is_ok());
    let duplicate_secret = Secret::new("duplicate_secret".to_string(), "value2".to_string());
    let result2 = store.add(&duplicate_secret);
    assert!(matches!(result2, Err(SecretError::AlreadyExists)));
    let retrieved = store.get("duplicate_secret").unwrap();
    assert_eq!(retrieved, secret);
}

#[test]
fn remove_nonexistent_secret() {
    let mut store = MemoryStore::default();
    let result = store.remove("nonexistent_secret");
    assert!(matches!(result, Err(SecretError::NotFound)));
}

#[test]
fn remove_existing_secret() {
    let mut store = MemoryStore::default();
    let secret = Secret::new("gone".to_string(), "value".to_string());
    store.add(&secret).unwrap();
    assert_eq!(store.remove("gone"), Ok(()));
    assert_eq!(store.get("gone"), Err(SecretError::NotFound));
}

#[test]
fn empty_value_is_refused_without_asking_the_store() {
    let mut store = MemoryStore::default();
    let secret = Secret::new("empty".to_string(), String::new());
    assert_eq!(store.add(&secret), Err(SecretError::EmptyValue));
    assert_eq!(store.update(&secret), Err(SecretError::EmptyValue));
    assert_eq!(store.upsert(&secret), Err(SecretError::EmptyValue));
    assert_eq!(store.requests, 0);
    assert!(store.entries.is_empty());
}

#[test]
fn update_missing_secret_is_not_found() {
    let mut store = MemoryStore::default();
    let secret = Secret::new("missing".to_string(), "value".to_string());
    assert_eq!(store.update(&secret), Err(SecretError::NotFound));
    assert!(store.entries.is_empty());
}

#[test]
fn upsert_adds_a_missing_secret() {
    let mut store = MemoryStore::default();
    let secret = Secret::new("fresh".to_string(), "value".to_string());
    assert_eq!(store.upsert(&secret), Ok(()));
    assert_eq!(store.get("fresh"), Ok(secret));
}

#[test]
fn upsert_updates_an_existing_secret() {
    let mut store = MemoryStore::default();
    let secret = Secret::new("kept".to_string(), "old".to_string());
    store.add(&secret).unwrap();
    let newer = Secret::new("kept".to_string(), "new".to_string());
    assert_eq!(store.upsert(&newer), Ok(()));
    assert_eq!(store.get("kept"), Ok(newer));
}

#[test]
fn upsert_returns_other_update_errors() {
    let mut store = MemoryStore::default();
    store.fail_lookup = Some("locked".to_string());
    let secret = Secret::new("x".to_string(), "value".to_string());
    assert_eq!(
        store.upsert(&secret),
        Err(SecretError::PlatformError("Failed to get secret: locked".to_string()))
    );
    assert!(store.entries.is_empty());
}

#[test]
fn store_failures_name_the_operation() {
    let mut store = MemoryStore::default();
    store.fail_store = Some("denied".to_string());
    let secret = Secret::new("x".to_string(), "value".to_string());
    assert_eq!(
        store.add(&secret),
        Err(SecretError::PlatformError("Failed to add secret: denied".to_string()))
    );
    store.entries.insert("x".to_string(), "old".to_string());
    assert_eq!(
        store.update(&secret),
        Err(SecretError::PlatformError("Failed to update secret: denied".to_string()))
    );
    store.fail_clear = Some("busy".to_string());
    assert_eq!(
        store.remove("x"),
        Err(SecretError::PlatformError("Failed to remove secret: busy".to_string()))
    );
}

#[test]
fn failing_lookup_stops_add_without_writing() {
    let mut store = MemoryStore::default();
    store
        .entries
        .insert("x".to_string(), "stored".to_string());
    store.fail_lookup = Some("no session".to_string());
    let secret = Secret::new("x".to_string(), "value".to_string());
    assert_eq!(
        store.add(&secret),
        Err(SecretError::PlatformError("Failed to get secret: no session".to_string()))
    );
    assert_eq!(store.requests, 1);
    assert_eq!(store.entries.get("x"), Some(&"stored".to_string()));
    assert_eq!(
        store.create_random("x"),
        Err(SecretError::PlatformError("Failed to get secret: no session".to_string()))
    );
    assert_eq!(store.entries.get("x"), Some(&"stored".to_string()));
}

#[test]
fn create_random_refuses_a_taken_name() {
    let mut store = MemoryStore::default();
    let secret = Secret::new("taken".to_string(), "value".to_string());
    store.add(&secret).unwrap();
    assert_eq!(store.create_random("taken"), Err(SecretError::AlreadyExists));
    assert_eq!(store.get("taken"), Ok(secret));
}

#[test]
fn create_random_value_uses_the_default_classes() {
    let mut store = MemoryStore::default();
    let secret = store.create_random("random").unwrap();
    assert_eq!(secret.value().chars().count(), 64);
    assert!(secret
        .value()
        .chars()
        .all(|c| c.is_ascii_alphanumeric() || "!@#$%^&*()-_=+[]{}|;:',.<>?/`~ ".contains(c)));
}

#[test]
fn operations_ask_at_most_three_times() {
    let mut store = MemoryStore::default();
    let secret = Secret::new("count".to_string(), "value".to_string());
    store.upsert(&secret).unwrap();
    assert_eq!(store.requests, 3);
}

#[test]
fn first_steps_ask_for_a_lookup() {
    match secrets::get("name") {
        SecretStep::Ask {
            task: SecretTask::GetRead { name },
            request: StoreRequest::Lookup { name: asked },
        } => {
            assert_eq!(name, "name");
            assert_eq!(asked, "name");
        }
        _ => panic!("get must start with a lookup"),
    }
}
