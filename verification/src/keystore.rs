//! The requests of a key-value store.

use crate::request::{json_content_type, Request, RequestView};
use crate::text::{trim_trailing_slashes, without_trailing_slashes};
use vstd::prelude::*;
use vstd::string::*;

verus! {

/// The address of the key-value interface of the store at `address`.
pub open spec fn kv_root(address: Seq<char>) -> Seq<char> {
    address + "/v1/kv"@
}

/// A key-value store, known by the address of its key-value interface.
///
/// Every method names an operation of the store and returns the request that
/// performs it. The reply is read by the functions of [`crate::reply`].
pub struct Keystore {
    root: String,
}

impl Keystore {
    /// The address of the store's key-value interface.
    pub closed spec fn root(&self) -> Seq<char> {
        self.root@
    }

    /// The address of `endpoint`, a key with or without a query.
    pub open spec fn url_of(&self, endpoint: Seq<char>) -> Seq<char> {
        self.root() + "/"@ + endpoint
    }

    /// The store that listens at `address`.
    pub fn new(address: &str) -> (r: Keystore)
        ensures
            r.root() == kv_root(address@),
    {
        Keystore { root: address.to_owned().concat("/v1/kv") }
    }

    fn url(&self, endpoint: &str) -> (r: String)
        ensures
            r@ == self.url_of(endpoint@),
    {
        self.root.clone().concat("/").concat(endpoint)
    }

    fn put(&self, endpoint: &str, body: String) -> (r: Request)
        ensures
            r@ == (RequestView::Put {
                url: self.url_of(endpoint@),
                body: body@,
                content_type: json_content_type(),
            }),
    {
        Request::Put {
            url: self.url(endpoint),
            body,
            content_type: "application/json".to_owned(),
        }
    }

    /// Stores `value` under `key`.
    pub fn set_key(&self, key: String, value: String) -> (r: Request)
        ensures
            r@ == (RequestView::Put {
                url: self.url_of(key@),
                body: value@,
                content_type: json_content_type(),
            }),
    {
        self.put(key.as_str(), value)
    }

    /// Stores `address` under `key` and takes the lock on `key` for the session
    /// `session_id`.
    pub fn acquire_lock(&self, key: String, address: String, session_id: &String) -> (r: Request)
        ensures
            r@ == (RequestView::Put {
                url: self.url_of(key@ + "?acquire="@ + session_id@),
                body: address@,
                content_type: json_content_type(),
            }),
    {
        let endpoint: String = key.concat("?acquire=").concat(session_id.as_str());
        self.put(endpoint.as_str(), address)
    }

    /// Stores `address` under `key` and gives up the lock that the session
    /// `session_id` holds on `key`.
    pub fn release_lock(&self, key: String, address: &str, session_id: &String) -> (r: Request)
        ensures
            r@ == (RequestView::Put {
                url: self.url_of(key@ + "?release="@ + session_id@),
                body: address@,
                content_type: json_content_type(),
            }),
    {
        let endpoint: String = key.concat("?release=").concat(session_id.as_str());
        self.put(endpoint.as_str(), address.to_owned())
    }

    /// Reads the value stored under `key`.
    pub fn get_key(&self, key: String) -> (r: Request)
        ensures
            r@ == (RequestView::Get { url: self.url_of(key@) }),
    {
        Request::Get { url: self.url(key.as_str()) }
    }

    /// Reads the record stored under `key`.
    pub fn get_kvpair(&self, key: String) -> (r: Request)
        ensures
            r@ == (RequestView::Get { url: self.url_of(key@) }),
    {
        Request::Get { url: self.url(key.as_str()) }
    }

    /// Reads every record whose key begins with `key`. Slashes at the end of
    /// `key` are left out of the request.
    pub fn list(&self, key: String) -> (r: Request)
        ensures
            r@ == (RequestView::Get {
                url: self.url_of(without_trailing_slashes(key@) + "?recurse"@),
            }),
    {
        let endpoint: String = trim_trailing_slashes(key.as_str()).to_owned().concat("?recurse");
        Request::Get { url: self.url(endpoint.as_str()) }
    }

    /// Removes what is stored under `key`.
    pub fn delete_key(&self, key: String) -> (r: Request)
        ensures
            r@ == (RequestView::Delete { url: self.url_of(key@) }),
    {
        Request::Delete { url: self.url(key.as_str()) }
    }
}

} // verus!
