use keyring::credential::{Credential, CredentialApi, CredentialBuilderApi};
use ken_desktop::vault::{
    clear_auth_tokens, delete_if_present, keychain_entry, load_auth_tokens, save_auth_tokens,
    AuthTokens, TokenKind, KEYCHAIN_SERVICE,
};
use std::any::Any;
use std::collections::HashMap;
use std::sync::{Arc, Mutex};

#[derive(Default)]
struct Shelf {
    secrets: HashMap<String, String>,
    log: Vec<String>,
    broken: Vec<String>,
    closed: bool,
}

#[derive(Clone, Default)]
struct MemoryStore {
    shelf: Arc<Mutex<Shelf>>,
}

struct MemoryEntry {
    account: String,
    shelf: Arc<Mutex<Shelf>>,
}

fn locked() -> keyring::Error {
    keyring::Error::PlatformFailure(Box::from("store is locked"))
}

impl MemoryEntry {
    fn note(&self, verb: &str) -> Result<std::sync::MutexGuard<'_, Shelf>, keyring::Error> {
        let mut shelf = self.shelf.lock().unwrap();
        let call = format!("{} {}", verb, self.account);
        shelf.log.push(call.clone());
        if shelf.broken.contains(&call) {
            return Err(locked());
        }
        Ok(shelf)
    }
}

impl CredentialApi for MemoryEntry {
    fn set_password(&self, password: &str) -> keyring::Result<()> {
        let mut shelf = self.note("set")?;
        shelf.secrets.insert(self.account.clone(), password.to_string());
        Ok(())
    }

    fn get_password(&self) -> keyring::Result<String> {
        let shelf = self.note("get")?;
        shelf.secrets.get(&self.account).cloned().ok_or(keyring::Error::NoEntry)
    }

    fn delete_password(&self) -> keyring::Result<()> {
        let mut shelf = self.note("delete")?;
        shelf.secrets.remove(&self.account).map(|_| ()).ok_or(keyring::Error::NoEntry)
    }

    fn as_any(&self) -> &dyn Any {
        self
    }
}

impl CredentialBuilderApi for MemoryStore {
    fn build(
        &self,
        _target: Option<&str>,
        service: &str,
        user: &str,
    ) -> keyring::Result<Box<Credential>> {
        if self.shelf.lock().unwrap().closed {
            return Err(keyring::Error::NoStorageAccess(Box::from("store is closed")));
        }
        Ok(Box::new(MemoryEntry {
            account: format!("{}/{}", service, user),
            shelf: self.shelf.clone(),
        }))
    }

    fn as_any(&self) -> &dyn Any {
        self
    }
}

impl MemoryStore {
    fn install() -> MemoryStore {
        let store = MemoryStore::default();
        keyring::set_default_credential_builder(Box::new(store.clone()));
        store
    }

    fn secret(&self, account: &str) -> Option<String> {
        self.shelf.lock().unwrap().secrets.get(account).cloned()
    }

    fn put(&self, account: &str, secret: &str) {
        self.shelf.lock().unwrap().secrets.insert(account.to_string(), secret.to_string());
    }

    fn log(&self) -> Vec<String> {
        self.shelf.lock().unwrap().log.clone()
    }

    fn forget_log(&self) {
        self.shelf.lock().unwrap().log.clear();
    }

    fn break_call(&self, call: &str) {
        self.shelf.lock().unwrap().broken.push(call.to_string());
    }

    fn close(&self) {
        self.shelf.lock().unwrap().closed = true;
    }
}

fn save(profile: &str, access: &str, refresh: Option<&str>) -> Result<(), String> {
    save_auth_tokens(profile.to_string(), access.to_string(), refresh.map(|token| token.to_string()))
}

fn load(profile: &str) -> Result<Option<AuthTokens>, String> {
    load_auth_tokens(profile.to_string())
}

#[test]
fn save_then_load_round_trips() {
    MemoryStore::install();
    assert_eq!(save("p1", "tok-1", Some("tok-2")), Ok(()));
    assert_eq!(
        load("p1"),
        Ok(Some(AuthTokens {
            access_token: "tok-1".to_string(),
            refresh_token: Some("tok-2".to_string()),
        }))
    );
}

#[test]
fn save_stores_each_token_under_its_account() {
    let store = MemoryStore::install();
    assert_eq!(save("p1", "tok-1", Some("tok-2")), Ok(()));
    assert_eq!(KEYCHAIN_SERVICE, "ken-desktop");
    assert_eq!(store.secret("ken-desktop/p1:access"), Some("tok-1".to_string()));
    assert_eq!(store.secret("ken-desktop/p1:refresh"), Some("tok-2".to_string()));
    assert_eq!(
        store.log(),
        vec!["set ken-desktop/p1:access".to_string(), "set ken-desktop/p1:refresh".to_string()]
    );
}

#[test]
fn save_trims_tokens_before_storing() {
    let store = MemoryStore::install();
    assert_eq!(save("p1", "  tok-1\n", Some("\ttok-2 ")), Ok(()));
    assert_eq!(store.secret("ken-desktop/p1:access"), Some("tok-1".to_string()));
    assert_eq!(store.secret("ken-desktop/p1:refresh"), Some("tok-2".to_string()));
}

#[test]
fn save_overwrites_stored_tokens() {
    MemoryStore::install();
    assert_eq!(save("p1", "old-1", Some("old-2")), Ok(()));
    assert_eq!(save("p1", "new-1", Some("new-2")), Ok(()));
    assert_eq!(
        load("p1"),
        Ok(Some(AuthTokens {
            access_token: "new-1".to_string(),
            refresh_token: Some("new-2".to_string()),
        }))
    );
}

#[test]
fn save_without_refresh_removes_stored_refresh() {
    let store = MemoryStore::install();
    assert_eq!(save("p1", "tok-1", Some("tok-2")), Ok(()));
    assert_eq!(save("p1", "tok-1", None), Ok(()));
    assert_eq!(store.secret("ken-desktop/p1:refresh"), None);
    assert_eq!(
        load("p1"),
        Ok(Some(AuthTokens { access_token: "tok-1".to_string(), refresh_token: None }))
    );
}

#[test]
fn save_with_blank_refresh_removes_stored_refresh() {
    let store = MemoryStore::install();
    assert_eq!(save("p1", "tok-1", Some("tok-2")), Ok(()));
    assert_eq!(save("p1", "tok-1", Some("   ")), Ok(()));
    assert_eq!(store.secret("ken-desktop/p1:refresh"), None);
    assert_eq!(
        load("p1"),
        Ok(Some(AuthTokens { access_token: "tok-1".to_string(), refresh_token: None }))
    );
}

#[test]
fn save_without_refresh_tolerates_missing_refresh_entry() {
    let store = MemoryStore::install();
    assert_eq!(save("p1", "tok-1", None), Ok(()));
    assert_eq!(
        store.log(),
        vec!["set ken-desktop/p1:access".to_string(), "delete ken-desktop/p1:refresh".to_string()]
    );
}

#[test]
fn save_with_blank_access_token_writes_nothing() {
    let store = MemoryStore::install();
    assert_eq!(save("p1", "tok-1", Some("tok-2")), Ok(()));
    store.forget_log();
    assert_eq!(save("p1", "   ", Some("tok-3")), Err("Access token is required.".to_string()));
    assert_eq!(save("p1", "", None), Err("Access token is required.".to_string()));
    assert_eq!(store.log(), Vec::<String>::new());
    assert_eq!(
        load("p1"),
        Ok(Some(AuthTokens {
            access_token: "tok-1".to_string(),
            refresh_token: Some("tok-2".to_string()),
        }))
    );
}

#[test]
fn save_keeps_profiles_apart() {
    MemoryStore::install();
    assert_eq!(save("p1", "tok-1", Some("tok-2")), Ok(()));
    assert_eq!(save("p2", "tok-3", None), Ok(()));
    assert_eq!(
        load("p1"),
        Ok(Some(AuthTokens {
            access_token: "tok-1".to_string(),
            refresh_token: Some("tok-2".to_string()),
        }))
    );
    assert_eq!(
        load("p2"),
        Ok(Some(AuthTokens { access_token: "tok-3".to_string(), refresh_token: None }))
    );
}

#[test]
fn clear_then_load_finds_nothing() {
    MemoryStore::install();
    assert_eq!(save("p1", "tok-1", Some("tok-2")), Ok(()));
    assert_eq!(clear_auth_tokens("p1".to_string()), Ok(()));
    assert_eq!(load("p1"), Ok(None));
}

#[test]
fn clear_and_load_tolerate_a_profile_never_saved() {
    let store = MemoryStore::install();
    assert_eq!(clear_auth_tokens("nobody".to_string()), Ok(()));
    assert_eq!(load("nobody"), Ok(None));
    assert_eq!(
        store.log(),
        vec![
            "delete ken-desktop/nobody:access".to_string(),
            "delete ken-desktop/nobody:refresh".to_string(),
            "get ken-desktop/nobody:access".to_string(),
        ]
    );
}

#[test]
fn clear_removes_the_refresh_token_when_the_access_token_is_gone() {
    let store = MemoryStore::install();
    store.put("ken-desktop/p1:refresh", "tok-2");
    assert_eq!(clear_auth_tokens("p1".to_string()), Ok(()));
    assert_eq!(store.secret("ken-desktop/p1:refresh"), None);
}

#[test]
fn clear_stops_at_a_failed_access_removal() {
    let store = MemoryStore::install();
    assert_eq!(save("p1", "tok-1", Some("tok-2")), Ok(()));
    store.forget_log();
    store.break_call("delete ken-desktop/p1:access");
    assert_eq!(
        clear_auth_tokens("p1".to_string()),
        Err("Unable to clear keychain entry: Platform secure storage failure: store is locked"
            .to_string())
    );
    assert_eq!(store.log(), vec!["delete ken-desktop/p1:access".to_string()]);
    assert_eq!(store.secret("ken-desktop/p1:refresh"), Some("tok-2".to_string()));
}

#[test]
fn clear_reports_a_failed_refresh_removal() {
    let store = MemoryStore::install();
    assert_eq!(save("p1", "tok-1", Some("tok-2")), Ok(()));
    store.break_call("delete ken-desktop/p1:refresh");
    assert_eq!(
        clear_auth_tokens("p1".to_string()),
        Err("Unable to clear keychain entry: Platform secure storage failure: store is locked"
            .to_string())
    );
    assert_eq!(store.secret("ken-desktop/p1:access"), None);
}

#[test]
fn load_without_access_token_does_not_read_the_refresh_token() {
    let store = MemoryStore::install();
    store.put("ken-desktop/p1:refresh", "tok-2");
    assert_eq!(load("p1"), Ok(None));
    assert_eq!(store.log(), vec!["get ken-desktop/p1:access".to_string()]);
}

#[test]
fn load_with_access_token_alone_has_no_refresh_token() {
    let store = MemoryStore::install();
    store.put("ken-desktop/p1:access", "tok-1");
    assert_eq!(
        load("p1"),
        Ok(Some(AuthTokens { access_token: "tok-1".to_string(), refresh_token: None }))
    );
    assert_eq!(
        store.log(),
        vec!["get ken-desktop/p1:access".to_string(), "get ken-desktop/p1:refresh".to_string()]
    );
}

#[test]
fn load_reports_a_failed_access_read() {
    let store = MemoryStore::install();
    store.put("ken-desktop/p1:access", "tok-1");
    store.break_call("get ken-desktop/p1:access");
    assert_eq!(
        load("p1"),
        Err("Unable to read access token: Platform secure storage failure: store is locked"
            .to_string())
    );
    assert_eq!(store.log(), vec!["get ken-desktop/p1:access".to_string()]);
}

#[test]
fn load_reports_a_failed_refresh_read() {
    let store = MemoryStore::install();
    store.put("ken-desktop/p1:access", "tok-1");
    store.break_call("get ken-desktop/p1:refresh");
    assert_eq!(
        load("p1"),
        Err("Unable to read refresh token: Platform secure storage failure: store is locked"
            .to_string())
    );
}

#[test]
fn save_stops_at_a_failed_access_write() {
    let store = MemoryStore::install();
    store.put("ken-desktop/p1:refresh", "old-2");
    store.break_call("set ken-desktop/p1:access");
    assert_eq!(
        save("p1", "tok-1", Some("tok-2")),
        Err("Unable to save access token: Platform secure storage failure: store is locked"
            .to_string())
    );
    assert_eq!(store.log(), vec!["set ken-desktop/p1:access".to_string()]);
    assert_eq!(store.secret("ken-desktop/p1:refresh"), Some("old-2".to_string()));
}

#[test]
fn save_reports_a_failed_refresh_write_and_keeps_the_access_token() {
    let store = MemoryStore::install();
    store.break_call("set ken-desktop/p1:refresh");
    assert_eq!(
        save("p1", "tok-1", Some("tok-2")),
        Err("Unable to save refresh token: Platform secure storage failure: store is locked"
            .to_string())
    );
    assert_eq!(store.secret("ken-desktop/p1:access"), Some("tok-1".to_string()));
}

#[test]
fn save_reports_a_failed_refresh_removal() {
    let store = MemoryStore::install();
    store.break_call("delete ken-desktop/p1:refresh");
    assert_eq!(
        save("p1", "tok-1", None),
        Err("Unable to clear keychain entry: Platform secure storage failure: store is locked"
            .to_string())
    );
    assert_eq!(store.secret("ken-desktop/p1:access"), Some("tok-1".to_string()));
}

#[test]
fn a_store_that_hands_out_no_entry_fails_every_operation() {
    let store = MemoryStore::install();
    store.close();
    let message =
        "Unable to access keychain entry: Couldn't access platform secure storage: store is closed"
            .to_string();
    assert_eq!(save("p1", "tok-1", None), Err(message.clone()));
    assert_eq!(load("p1"), Err(message.clone()));
    assert_eq!(clear_auth_tokens("p1".to_string()), Err(message.clone()));
    assert_eq!(keychain_entry("p1", TokenKind::Access).err(), Some(message));
    assert_eq!(store.log(), Vec::<String>::new());
}

#[test]
fn keychain_entry_is_asked_for_under_the_service_and_the_derived_account() {
    MemoryStore::install();
    let access = keychain_entry("p1", TokenKind::Access).expect("the store hands out entries");
    assert_eq!(access.service(), "ken-desktop");
    assert_eq!(access.account(), "p1:access");
    let refresh = keychain_entry("a:b", TokenKind::Refresh).expect("the store hands out entries");
    assert_eq!(refresh.service(), "ken-desktop");
    assert_eq!(refresh.account(), "a:b:refresh");
}

#[test]
fn keychain_entry_reaches_the_entry_of_its_account() {
    let store = MemoryStore::install();
    store.put("ken-desktop/p1:access", "tok-1");
    store.put("ken-desktop/p1:refresh", "tok-2");
    store.put("ken-desktop/p2:access", "tok-3");
    let entry = keychain_entry("p1", TokenKind::Refresh).expect("the store hands out entries");
    assert_eq!(delete_if_present(&entry), Ok(()));
    assert_eq!(store.log(), vec!["delete ken-desktop/p1:refresh".to_string()]);
    assert_eq!(store.secret("ken-desktop/p1:access"), Some("tok-1".to_string()));
    assert_eq!(store.secret("ken-desktop/p1:refresh"), None);
    assert_eq!(store.secret("ken-desktop/p2:access"), Some("tok-3".to_string()));
}

#[test]
fn delete_if_present_removes_once_and_tolerates_the_second_time() {
    let store = MemoryStore::install();
    store.put("ken-desktop/p1:access", "tok-1");
    let entry = keychain_entry("p1", TokenKind::Access).expect("the store hands out entries");
    assert_eq!(delete_if_present(&entry), Ok(()));
    assert_eq!(store.secret("ken-desktop/p1:access"), None);
    assert_eq!(delete_if_present(&entry), Ok(()));
}
