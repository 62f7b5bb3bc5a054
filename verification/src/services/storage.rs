//! A service for the local and the session storage of a browser. The service
//! says what is to be asked of the storage; asking is left to its user.

use vstd::prelude::*;

verus! {

/// An area to keep the data in.
#[derive(Clone, Copy, PartialEq, Eq, Structural, Debug)]
pub enum Area {
    /// Use `localStorage` of a browser.
    Local,
    /// Use `sessionStorage` of a browser.
    Session,
}

/// Represents errors of a storage.
#[derive(Clone, Copy, PartialEq, Eq, Structural, Debug)]
pub enum StorageError {
    /// The storage holds nothing that could be restored.
    CantRestore,
}

impl StorageError {
    /// The error in words.
    pub fn message(&self) -> (words: String)
        ensures
            words@ == "restore error"@,
    {
        "restore error".to_owned()
    }
}

/// One request to a storage, as contracts see it.
pub enum RequestView {
    /// Keep `data` under `key`.
    SetItem { area: Area, key: Seq<char>, data: Seq<char> },
    /// Read what is kept under `key`.
    GetItem { area: Area, key: Seq<char> },
    /// Forget what is kept under `key`.
    RemoveItem { area: Area, key: Seq<char> },
}

/// One request to a storage.
#[derive(PartialEq, Eq, Debug)]
pub enum StorageRequest {
    /// Keep `data` under `key`.
    SetItem { area: Area, key: String, data: String },
    /// Read what is kept under `key`.
    GetItem { area: Area, key: String },
    /// Forget what is kept under `key`.
    RemoveItem { area: Area, key: String },
}

impl View for StorageRequest {
    type V = RequestView;

    open spec fn view(&self) -> RequestView {
        match *self {
            StorageRequest::SetItem { area, key, data } => RequestView::SetItem {
                area,
                key: key@,
                data: data@,
            },
            StorageRequest::GetItem { area, key } => RequestView::GetItem { area, key: key@ },
            StorageRequest::RemoveItem { area, key } => RequestView::RemoveItem { area, key: key@ },
        }
    }
}

/// A storage service attached to a context.
#[derive(Debug)]
pub struct StorageService {
    scope: Area,
}

impl View for StorageService {
    type V = Area;

    /// The area that the service keeps its data in.
    closed spec fn view(&self) -> Area {
        self.scope
    }
}

impl StorageService {
    /// Creates a storage service that keeps its data in the given area.
    pub fn new(scope: Area) -> (service: StorageService)
        ensures
            service@ == scope,
    {
        StorageService { scope }
    }

    /// The area that the service keeps its data in.
    pub fn area(&self) -> (area: Area)
        ensures
            area == self@,
    {
        self.scope
    }

    /// Stores value to the storage: returns the request to keep the value
    /// under `key`, where there is a value, and nothing where there is none.
    pub fn store(&mut self, key: &str, value: Option<String>) -> (request: Option<StorageRequest>)
        ensures
            final(self)@ == old(self)@,
            match value {
                Some(data) => request matches Some(asked) && asked@ == (RequestView::SetItem {
                    area: old(self)@,
                    key: key@,
                    data: data@,
                }),
                None => request is None,
            },
    {
        match value {
            Some(data) => Some(StorageRequest::SetItem { area: self.scope, key: key.to_owned(), data }),
            None => None,
        }
    }

    /// Restores value from the storage: returns the request to read what is
    /// kept under `key`. What the storage answers goes to `restored`.
    pub fn restore(&mut self, key: &str) -> (request: StorageRequest)
        ensures
            final(self)@ == old(self)@,
            request@ == (RequestView::GetItem { area: old(self)@, key: key@ }),
    {
        StorageRequest::GetItem { area: self.scope, key: key.to_owned() }
    }

    /// What was restored, given what the storage answered to a read: the
    /// text that it keeps, or the error where it keeps none.
    pub fn restored(found: Option<String>) -> (data: Result<String, StorageError>)
        ensures
            match found {
                Some(text) => data == Ok::<String, StorageError>(text),
                None => data == Err::<String, StorageError>(StorageError::CantRestore),
            },
    {
        match found {
            Some(text) => Ok(text),
            None => Err(StorageError::CantRestore),
        }
    }

    /// Removes value from the storage: returns the request to forget what is
    /// kept under `key`.
    pub fn remove(&mut self, key: &str) -> (request: StorageRequest)
        ensures
            final(self)@ == old(self)@,
            request@ == (RequestView::RemoveItem { area: old(self)@, key: key@ }),
    {
        StorageRequest::RemoveItem { area: self.scope, key: key.to_owned() }
    }
}

} // verus!
