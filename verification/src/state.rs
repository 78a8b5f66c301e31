//! The state that every command shares: the base URL of the upstream API,
//! behind a guard, and the HTTP client.

use crate::error::{joined, ProxyError, ProxyErrorView};
use std::sync::Mutex;
use vstd::prelude::*;

verus! {

/// `std::sync::Mutex`. What it guards can change between any two calls, so
/// nothing inside it is visible to the verifier.
#[verifier::external_type_specification]
#[verifier::external_body]
#[verifier::reject_recursive_types(T)]
pub struct ExMutex<T: ?Sized>(Mutex<T>);

/// `reqwest::Client`: the connection pool that sends the requests. The
/// library creates it once and hands it to its caller; it sends nothing.
#[verifier::external_type_specification]
#[verifier::external_body]
pub struct ExClient(reqwest::Client);

/// After this many seconds a request that has not finished is given up.
pub const REQUEST_TIMEOUT_SECS: u64 = 30;

/// The base URL before any settings are loaded.
pub open spec fn default_api_url() -> Seq<char> {
    "http://localhost:8080"@
}

/// The failure reported when the HTTP client cannot be created.
pub open spec fn client_failure(cause: Seq<char>) -> ProxyErrorView {
    ProxyErrorView::TransportFailure { detail: "Failed to create HTTP client: "@ + cause }
}

/// The failure reported when the guard around the base URL is poisoned.
pub open spec fn lock_failure(cause: Seq<char>) -> ProxyErrorView {
    ProxyErrorView::LockFailure { detail: "Failed to lock api_url: "@ + cause }
}

/// State shared by all commands.
pub struct AppState {
    /// The current base URL of the upstream API.
    pub api_url: Mutex<String>,
    /// The client that sends every request; made once, never per call.
    pub client: reqwest::Client,
}

/// Calls `reqwest::Client::builder`, sets the request timeout with
/// `ClientBuilder::timeout` and calls `ClientBuilder::build`. An error is
/// handed back as the text that its `Display` writes. Whether the client can
/// be built depends on the machine, so nothing is claimed of the result.
#[verifier::external_body]
fn build_client(timeout_secs: u64) -> Result<reqwest::Client, String> {
    let timeout = std::time::Duration::from_secs(timeout_secs);
    match reqwest::Client::builder().timeout(timeout).build() {
        Ok(client) => Ok(client),
        Err(e) => Err(e.to_string()),
    }
}

/// Calls `Mutex::new`.
#[verifier::external_body]
fn guard(value: String) -> Mutex<String> {
    Mutex::new(value)
}

/// Calls `Mutex::lock` and copies out what is guarded. A poisoned guard is
/// handed back as the text that the error's `Display` writes. Other threads
/// may have written in between, so nothing is claimed of the result.
#[verifier::external_body]
fn read_guarded(cell: &Mutex<String>) -> Result<String, String> {
    match cell.lock() {
        Ok(held) => Ok(held.clone()),
        Err(e) => Err(e.to_string()),
    }
}

/// Calls `Mutex::lock` and replaces what is guarded. A poisoned guard is
/// handed back as the text that the error's `Display` writes, and nothing
/// is written.
#[verifier::external_body]
fn write_guarded(cell: &Mutex<String>, value: String) -> Result<(), String> {
    match cell.lock() {
        Ok(mut held) => {
            *held = value;
            Ok(())
        },
        Err(e) => Err(e.to_string()),
    }
}

/// The base URL before any settings are loaded.
pub fn default_url() -> (r: String)
    ensures
        r@ == default_api_url(),
{
    String::from_str("http://localhost:8080")
}

/// The failure for an HTTP client that cannot be created.
pub fn client_creation_failed(cause: &str) -> (e: ProxyError)
    ensures
        e@ == client_failure(cause@),
{
    ProxyError::TransportFailure { detail: joined("Failed to create HTTP client: ", cause) }
}

/// The failure for a poisoned guard.
pub fn lock_poisoned(cause: &str) -> (e: ProxyError)
    ensures
        e@ == lock_failure(cause@),
{
    ProxyError::LockFailure { detail: joined("Failed to lock api_url: ", cause) }
}

/// What an access to the guarded base URL amounts to, given how the guard
/// answered: what the access yielded, or the failure for a poisoned guard
/// with the cause.
pub fn guarded<T>(access: Result<T, String>) -> (r: Result<T, ProxyError>)
    ensures
        match access {
            Ok(value) => r == Ok::<T, ProxyError>(value),
            Err(cause) => r matches Err(e) && e@ == lock_failure(cause@),
        },
{
    match access {
        Ok(value) => Ok(value),
        Err(cause) => Err(lock_poisoned(cause.as_str())),
    }
}

impl AppState {
    /// A state with the default base URL and a client whose requests time
    /// out after `REQUEST_TIMEOUT_SECS`. Fails only where the client cannot
    /// be created.
    pub fn new() -> (r: Result<Self, ProxyError>)
        ensures
            r matches Err(e) ==> exists|cause: Seq<char>| e@ == client_failure(cause),
    {
        let built = build_client(REQUEST_TIMEOUT_SECS);
        let r = Self::with_client(built);
        proof {
            if built is Err {
                assert(r->Err_0@ == client_failure(built->Err_0@));
            }
        }
        r
    }

    /// The base URL as it is at the moment of the call. The guard is held
    /// for the copy only. Fails only where the guard is poisoned.
    pub fn get_api_url(&self) -> (r: Result<String, ProxyError>)
        ensures
            r matches Err(e) ==> exists|cause: Seq<char>| e@ == lock_failure(cause),
    {
        let read = read_guarded(&self.api_url);
        let r = guarded(read);
        assert(r matches Err(e) ==> e@ == lock_failure(read->Err_0@));
        r
    }

    /// Replaces the base URL. The guard is held for the write only. Fails
    /// only where the guard is poisoned, and then nothing is written.
    pub fn set_api_url(&self, new_url: String) -> (r: Result<(), ProxyError>)
        ensures
            r matches Err(e) ==> exists|cause: Seq<char>| e@ == lock_failure(cause),
    {
        let written = write_guarded(&self.api_url, new_url);
        let r = guarded(written);
        assert(r matches Err(e) ==> e@ == lock_failure(written->Err_0@));
        r
    }

    /// What creating the state amounts to, given how building the client
    /// ended: a state that holds the client which was built, with the
    /// default base URL behind a new guard, or the failure with the cause
    /// for which no client could be built.
    pub fn with_client(built: Result<reqwest::Client, String>) -> (r: Result<Self, ProxyError>)
        ensures
            match built {
                Ok(client) => r matches Ok(state) && state.client == client,
                Err(cause) => r matches Err(e) && e@ == client_failure(cause@),
            },
    {
        match built {
            Ok(client) => Ok(AppState { api_url: guard(default_url()), client }),
            Err(cause) => Err(client_creation_failed(cause.as_str())),
        }
    }
}

} // verus!
