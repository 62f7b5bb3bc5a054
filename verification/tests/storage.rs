use vcomp::services::storage::{Area, StorageError, StorageRequest, StorageService};

#[test]
fn service_keeps_its_area() {
    assert_eq!(StorageService::new(Area::Local).area(), Area::Local);
    assert_eq!(StorageService::new(Area::Session).area(), Area::Session);
}

#[test]
fn store_asks_to_keep_a_value() {
    let mut service = StorageService::new(Area::Local);
    let request = service.store("key", Some(String::from("data")));
    assert_eq!(
        request,
        Some(StorageRequest::SetItem {
            area: Area::Local,
            key: String::from("key"),
            data: String::from("data"),
        })
    );
}

#[test]
fn store_asks_nothing_without_a_value() {
    let mut service = StorageService::new(Area::Session);
    assert_eq!(service.store("key", None), None);
}

#[test]
fn restore_asks_to_read() {
    let mut service = StorageService::new(Area::Session);
    assert_eq!(
        service.restore("key"),
        StorageRequest::GetItem { area: Area::Session, key: String::from("key") }
    );
}

#[test]
fn restored_gives_what_the_storage_keeps() {
    assert_eq!(StorageService::restored(Some(String::from("data"))), Ok(String::from("data")));
    assert_eq!(StorageService::restored(Some(String::new())), Ok(String::new()));
}

#[test]
fn restored_fails_where_the_storage_keeps_nothing() {
    assert_eq!(StorageService::restored(None), Err(StorageError::CantRestore));
    assert_eq!(StorageError::CantRestore.message(), String::from("restore error"));
}

#[test]
fn remove_asks_to_forget() {
    let mut service = StorageService::new(Area::Local);
    assert_eq!(
        service.remove("key"),
        StorageRequest::RemoveItem { area: Area::Local, key: String::from("key") }
    );
    assert_eq!(service.area(), Area::Local);
}
