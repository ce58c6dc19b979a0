use gluesql_java::glue::JavaGlue;
use gluesql_java::registry::HandleRegistry;
use gluesql_java::storages::{
    JavaJsonStorage, JavaMemoryStorage, JavaRedbStorage, JavaSharedMemoryStorage, JavaSledStorage,
    JavaStorageEngine,
};

#[test]
fn release_zero_sentinel_is_noop() {
    let mut reg: HandleRegistry<u32> = HandleRegistry::new();
    assert!(reg.release(0).is_none());
    let h = reg.create(5);
    assert_ne!(h, 0);
    assert!(reg.release(0).is_none());
    assert_eq!(reg.resolve(h), Some(&5));
}

#[test]
fn resolve_unknown_handle_is_none() {
    let reg: HandleRegistry<u32> = HandleRegistry::new();
    assert!(reg.resolve(1).is_none());
    assert!(reg.resolve(0).is_none());
}

#[test]
fn handles_are_unique_and_nonzero() {
    let mut reg: HandleRegistry<u32> = HandleRegistry::new();
    let a = reg.create(1);
    let b = reg.create(2);
    let c = reg.create(3);
    assert!(a != 0 && b != 0 && c != 0);
    assert!(a != b && b != c && a != c);
    assert_eq!(reg.resolve(a), Some(&1));
    assert_eq!(reg.resolve(b), Some(&2));
    assert_eq!(reg.resolve(c), Some(&3));
}

#[test]
fn double_release_returns_nothing() {
    let mut reg: HandleRegistry<u32> = HandleRegistry::new();
    let h = reg.create(9);
    assert_eq!(reg.release(h), Some(9));
    assert!(reg.release(h).is_none());
    assert!(reg.resolve(h).is_none());
}

#[test]
fn create_release_memory() {
    let mut reg: HandleRegistry<JavaGlue> = HandleRegistry::new();
    let glue = JavaGlue::new(JavaStorageEngine::Memory(JavaMemoryStorage::new()));
    let h = reg.create(glue);
    assert_ne!(h, 0);
    let taken = reg.release(h);
    assert!(taken.is_some());
    drop(taken.unwrap().into_engine());
    assert!(reg.resolve(h).is_none());
}

#[test]
fn create_release_shared_memory() {
    let mut reg: HandleRegistry<JavaGlue> = HandleRegistry::new();
    let glue = JavaGlue::new(JavaStorageEngine::SharedMemory(JavaSharedMemoryStorage::new()));
    let h = reg.create(glue);
    assert_ne!(h, 0);
    let taken = reg.release(h);
    assert!(taken.is_some());
    drop(taken.unwrap().into_engine());
    assert!(reg.resolve(h).is_none());
}

#[test]
fn create_release_json() {
    let mut reg: HandleRegistry<JavaGlue> = HandleRegistry::new();
    let storage = JavaJsonStorage::new("/tmp/gluesql_java_test_json_lifecycle".to_owned())
        .expect("json storage");
    let glue = JavaGlue::new(JavaStorageEngine::Json(storage));
    let h = reg.create(glue);
    assert_ne!(h, 0);
    let taken = reg.release(h);
    assert!(taken.is_some());
    drop(taken.unwrap().into_engine());
    assert!(reg.resolve(h).is_none());
}

#[test]
fn create_release_sled_frees_the_store() {
    let path = "/tmp/gluesql_java_test_sled_lifecycle";
    let mut reg: HandleRegistry<JavaGlue> = HandleRegistry::new();
    let storage = JavaSledStorage::new(path.to_owned()).expect("sled storage");
    let glue = JavaGlue::new(JavaStorageEngine::Sled(storage));
    let h = reg.create(glue);
    assert_ne!(h, 0);
    let taken = reg.release(h);
    assert!(taken.is_some());
    drop(taken.unwrap().into_engine());
    // the on-disk store must be reopenable once the instance is gone
    let reopened = JavaSledStorage::new(path.to_owned());
    assert!(reopened.is_ok());
}

#[test]
fn create_release_redb_frees_the_store() {
    let path = "/tmp/gluesql_java_test_redb_lifecycle.redb";
    let mut reg: HandleRegistry<JavaGlue> = HandleRegistry::new();
    let storage = JavaRedbStorage::new(path.to_owned()).expect("redb storage");
    let glue = JavaGlue::new(JavaStorageEngine::Redb(storage));
    let h = reg.create(glue);
    assert_ne!(h, 0);
    let taken = reg.release(h);
    assert!(taken.is_some());
    drop(taken.unwrap().into_engine());
    let reopened = JavaRedbStorage::new(path.to_owned());
    assert!(reopened.is_ok());
}
