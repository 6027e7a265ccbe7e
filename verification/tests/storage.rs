use auth_proxy::error::Error;
use auth_proxy::record::Api;
use auth_proxy::storage::{
    check_flushed, check_vacant, check_written, get, get_mut, init, read_found, Registry, Storage,
    STORE_PATH,
};

fn temp_storage() -> Storage {
    Storage::temporary().unwrap()
}

/// A place for a store of one test, with nothing in it.
fn fresh_place(test: &str) -> String {
    let place = format!("/dev/shm/auth_proxy.test.{}", test);
    wipe(&place);
    place
}

/// Removes the store at a place, while no handle is open.
fn wipe(place: &str) {
    let db = sled::Config::new().path(place).temporary(true).open().unwrap();
    drop(db);
}

/// Writes to the store at a place, while no handle is open.
fn raw_put(place: &str, key: &str, value: Vec<u8>) {
    let db = sled::open(place).unwrap();
    db.insert(key, value).unwrap();
    db.flush().unwrap();
}

/// Reads from the store at a place, while no handle is open.
fn raw_get(place: &str, key: &[u8]) -> Option<Vec<u8>> {
    let db = sled::open(place).unwrap();
    db.get(key).unwrap().map(|value| value.to_vec())
}

fn svc_a() -> Api {
    Api::new(10, vec![String::from("/admin")], vec![String::from("/health")])
}

fn svc_b() -> Api {
    Api::new(3, vec![], vec![String::from("/status"), String::from("/status")])
}

#[test]
fn get_api_no_api() {
    let storage = temp_storage();
    assert!(storage.get_api("not existing").unwrap().is_none());
}

#[test]
fn new_api() {
    let mut storage = temp_storage();

    assert!(storage.get_api("api name").unwrap().is_none());

    let api = Api::default();

    storage.new_api("api name", &api).unwrap();

    assert_eq!(api, storage.get_api("api name").unwrap().unwrap());
}

#[test]
fn new_api_no_override() {
    let mut storage = temp_storage();

    let api = Api::default();

    storage.new_api("api name", &api).unwrap();

    if let Error::ApiAlreadyExists(name) = storage.new_api("api name", &api).unwrap_err() {
        assert_eq!("api name", name);
    } else {
        assert!(false);
    }
}

#[test]
fn empty_registry_has_no_svc() {
    let storage = temp_storage();
    assert!(matches!(storage.get_api("svc"), Ok(None)));
}

#[test]
fn create_then_fetch_returns_the_record() {
    let mut storage = temp_storage();
    assert!(storage.new_api("svc", &svc_a()).is_ok());
    let fetched = storage.get_api("svc").unwrap().unwrap();
    assert_eq!(fetched, svc_a());
    assert_eq!(fetched.client_limit(), 10);
    assert_eq!(fetched.protected_paths(), &vec![String::from("/admin")]);
    assert_eq!(fetched.unprotected_paths(), &vec![String::from("/health")]);
}

#[test]
fn duplicate_create_keeps_the_first_record() {
    let mut storage = temp_storage();
    assert!(storage.new_api("svc", &svc_a()).is_ok());
    match storage.new_api("svc", &svc_b()) {
        Err(Error::ApiAlreadyExists(name)) => assert_eq!(name, "svc"),
        other => panic!("expected ApiAlreadyExists, got {:?}", other),
    }
    assert_eq!(storage.get_api("svc").unwrap().unwrap(), svc_a());
}

#[test]
fn two_creates_for_one_name_have_one_winner() {
    let mut storage = temp_storage();
    let first = storage.new_api("svc", &svc_a());
    let second = storage.new_api("svc", &svc_b());
    let winners = [first.is_ok(), second.is_ok()].iter().filter(|ok| **ok).count();
    assert_eq!(winners, 1);
    assert!(first.is_ok());
    assert!(matches!(second, Err(Error::ApiAlreadyExists(_))));
    assert_eq!(storage.get_api("svc").unwrap().unwrap(), svc_a());
}

#[test]
fn create_leaves_other_names_alone() {
    let mut storage = temp_storage();
    storage.new_api("svc", &svc_a()).unwrap();
    assert!(storage.get_api("other").unwrap().is_none());
    assert!(storage.get_api("sv").unwrap().is_none());
    assert!(storage.get_api("svc ").unwrap().is_none());
    storage.new_api("other", &svc_b()).unwrap();
    assert_eq!(storage.get_api("svc").unwrap().unwrap(), svc_a());
    assert_eq!(storage.get_api("other").unwrap().unwrap(), svc_b());
}

#[test]
fn empty_name_is_a_name_like_any_other() {
    let mut storage = temp_storage();
    assert!(storage.get_api("").unwrap().is_none());
    storage.new_api("", &svc_b()).unwrap();
    assert_eq!(storage.get_api("").unwrap().unwrap(), svc_b());
}

#[test]
fn read_found_passes_the_outcomes_on() {
    assert!(matches!(read_found(Ok(None)), Ok(None)));
    let bytes = svc_a().encode().unwrap();
    assert_eq!(read_found(Ok(Some(bytes))).unwrap().unwrap(), svc_a());
    assert!(matches!(read_found(Ok(Some(vec![0xff]))), Err(Error::Bincode(_))));
    let fault = sled::Error::Unsupported(String::from("no"));
    match read_found(Err(fault.clone())) {
        Err(Error::Db(passed)) => assert_eq!(passed, fault),
        other => panic!("expected Db, got {:?}", other),
    }
}

#[test]
fn check_vacant_tells_free_from_taken() {
    assert!(matches!(check_vacant("svc", Ok(None)), Ok(())));
    match check_vacant("svc", Ok(Some(vec![]))) {
        Err(Error::ApiAlreadyExists(name)) => assert_eq!(name, "svc"),
        other => panic!("expected ApiAlreadyExists, got {:?}", other),
    }
    let fault = sled::Error::ReportableBug(String::from("bug"));
    match check_vacant("svc", Err(fault.clone())) {
        Err(Error::Db(passed)) => assert_eq!(passed, fault),
        other => panic!("expected Db, got {:?}", other),
    }
}

#[test]
fn new_registry_is_empty() {
    let mut registry = Registry::new();
    assert!(get(&registry).is_none());
    assert!(get_mut(&mut registry).is_none());
}

#[test]
fn install_happens_once() {
    let mut registry = Registry::new();
    let mut first = temp_storage();
    first.new_api("svc", &svc_a()).unwrap();
    assert!(matches!(registry.install(first), Ok(())));
    assert!(matches!(registry.install(temp_storage()), Err(Error::CellSetError)));
    let installed = get(&registry).unwrap();
    assert_eq!(installed.get_api("svc").unwrap().unwrap(), svc_a());
}

#[test]
fn installed_handle_creates_and_reads() {
    let mut registry = Registry::new();
    registry.install(temp_storage()).unwrap();
    get_mut(&mut registry).unwrap().new_api("svc", &svc_b()).unwrap();
    assert!(matches!(
        get_mut(&mut registry).unwrap().new_api("svc", &svc_a()),
        Err(Error::ApiAlreadyExists(_))
    ));
    assert_eq!(get(&registry).unwrap().get_api("svc").unwrap().unwrap(), svc_b());
}

#[test]
fn second_init_is_refused() {
    let mut registry = Registry::new();
    match init(&mut registry) {
        Ok(()) => {
            assert!(matches!(init(&mut registry), Err(Error::CellSetError)));
            assert!(get(&registry).is_some());
            assert!(sled::open(STORE_PATH).is_err());
        }
        Err(Error::Db(_)) => {
            assert!(get(&registry).is_none());
            assert!(get_mut(&mut registry).is_none());
        }
        Err(other) => panic!("init reported {:?}", other),
    }
}

#[test]
fn init_on_an_installed_registry_opens_nothing() {
    let mut registry = Registry::new();
    registry.install(temp_storage()).unwrap();
    assert!(matches!(init(&mut registry), Err(Error::CellSetError)));
    assert!(matches!(init(&mut registry), Err(Error::CellSetError)));
    assert!(get(&registry).unwrap().get_api("svc").unwrap().is_none());
}

#[test]
fn open_reports_a_place_that_cannot_be_opened() {
    assert_eq!(STORE_PATH, "auth_proxy");
    assert!(matches!(
        Storage::open_at("/dev/null/no store can be here"),
        Err(Error::Db(_))
    ));
}

#[test]
fn open_at_holds_the_store_at_its_place() {
    let place = fresh_place("holds");
    {
        let mut storage = Storage::open_at(&place).unwrap();
        assert!(sled::open(&place).is_err());
        assert!(matches!(Storage::open_at(&place), Err(Error::Db(_))));
        assert!(storage.get_api("held").unwrap().is_none());
        storage.new_api("held", &svc_a()).unwrap();
        assert_eq!(storage.get_api("held").unwrap().unwrap(), svc_a());
    }
    wipe(&place);
}

#[test]
fn record_is_stored_under_the_raw_name_bytes() {
    let place = fresh_place("raw");
    {
        let mut storage = Storage::open_at(&place).unwrap();
        storage.new_api("sv\u{e7}", &svc_a()).unwrap();
    }
    assert_eq!(
        raw_get(&place, &[0x73u8, 0x76, 0xc3, 0xa7]),
        Some(svc_a().encode().unwrap())
    );
    wipe(&place);
}

#[test]
fn refused_create_writes_nothing() {
    let place = fresh_place("refused");
    {
        let mut storage = Storage::open_at(&place).unwrap();
        storage.new_api("svc", &svc_a()).unwrap();
        assert!(matches!(
            storage.new_api("svc", &svc_b()),
            Err(Error::ApiAlreadyExists(_))
        ));
    }
    assert_eq!(raw_get(&place, b"svc"), Some(svc_a().encode().unwrap()));
    wipe(&place);
}

#[test]
fn created_record_survives_in_the_store() {
    let place = fresh_place("survives");
    {
        let mut storage = Storage::open_at(&place).unwrap();
        storage.new_api("svc", &svc_a()).unwrap();
    }
    {
        let mut storage = Storage::open_at(&place).unwrap();
        assert_eq!(storage.get_api("svc").unwrap().unwrap(), svc_a());
        assert!(matches!(
            storage.new_api("svc", &svc_b()),
            Err(Error::ApiAlreadyExists(_))
        ));
    }
    wipe(&place);
}

#[test]
fn corrupt_entry_is_a_decode_error() {
    let place = fresh_place("corrupt");
    raw_put(&place, "svc", vec![1u8]);
    {
        let storage = Storage::open_at(&place).unwrap();
        assert!(matches!(storage.get_api("svc"), Err(Error::Bincode(_))));
        assert!(matches!(storage.get_api("other"), Ok(None)));
    }
    wipe(&place);
}

#[test]
fn cut_short_entry_is_a_decode_error() {
    let place = fresh_place("cut");
    let mut bytes = svc_a().encode().unwrap();
    bytes.pop();
    raw_put(&place, "svc", bytes);
    {
        let storage = Storage::open_at(&place).unwrap();
        assert!(matches!(storage.get_api("svc"), Err(Error::Bincode(_))));
    }
    wipe(&place);
}

#[test]
fn entry_with_bytes_after_the_record_is_found() {
    let place = fresh_place("longer");
    let mut bytes = svc_a().encode().unwrap();
    bytes.extend_from_slice(&[9, 9, 9]);
    raw_put(&place, "svc", bytes);
    {
        let storage = Storage::open_at(&place).unwrap();
        assert_eq!(storage.get_api("svc").unwrap().unwrap(), svc_a());
    }
    wipe(&place);
}

#[test]
fn corrupt_entry_still_takes_its_name() {
    let place = fresh_place("taken");
    raw_put(&place, "svc", vec![1u8]);
    {
        let mut storage = Storage::open_at(&place).unwrap();
        match storage.new_api("svc", &svc_a()) {
            Err(Error::ApiAlreadyExists(name)) => assert_eq!(name, "svc"),
            other => panic!("expected ApiAlreadyExists, got {:?}", other),
        }
    }
    assert_eq!(raw_get(&place, b"svc"), Some(vec![1u8]));
    wipe(&place);
}

#[test]
fn check_written_tells_written_from_refused() {
    assert!(matches!(check_written("svc", Ok(Ok(()))), Ok(())));
    let refusal = sled::CompareAndSwapError {
        current: Some(sled::IVec::from(vec![1u8])),
        proposed: Some(sled::IVec::from(vec![2u8])),
    };
    match check_written("svc", Ok(Err(refusal))) {
        Err(Error::ApiAlreadyExists(name)) => assert_eq!(name, "svc"),
        other => panic!("expected ApiAlreadyExists, got {:?}", other),
    }
    let fault = sled::Error::Unsupported(String::from("no"));
    match check_written("svc", Err(fault.clone())) {
        Err(Error::Db(passed)) => assert_eq!(passed, fault),
        other => panic!("expected Db, got {:?}", other),
    }
}

#[test]
fn check_flushed_never_takes_a_fault_for_success() {
    assert!(matches!(check_flushed(Ok(0)), Ok(())));
    assert!(matches!(check_flushed(Ok(4096)), Ok(())));
    let fault = sled::Error::ReportableBug(String::from("disk"));
    match check_flushed(Err(fault.clone())) {
        Err(Error::Db(passed)) => assert_eq!(passed, fault),
        other => panic!("expected Db, got {:?}", other),
    }
}

#[test]
fn temporary_stores_are_apart() {
    let mut one = temp_storage();
    let other = temp_storage();
    one.new_api("svc", &svc_a()).unwrap();
    assert!(other.get_api("svc").unwrap().is_none());
}
