//! Addressing of the Workers KV namespace that serves as the durable store.
//!
//! The client that talks to the service lives with the caller. This module
//! holds the configuration, built once at startup and passed by reference,
//! and says what each request carries.

use vstd::prelude::*;
use vstd::slice::slice_to_vec;
use crate::store::StoreError;

verus! {

/// Seconds after which the service drops a written value.
pub const WRITE_TTL_SECONDS: i64 = 300;

/// The HTTP status with which the service says that it holds no such key.
pub const STATUS_NOT_FOUND: u16 = 404;

/// The two kinds of request.
#[derive(Clone, Copy, Debug, PartialEq, Eq, Structural)]
pub enum Operation {
    /// Reading a key.
    Read,
    /// Writing a key.
    Write,
}

/// What a request that did not succeed amounts to. `status` is the HTTP
/// status of the service's answer, or nothing if no answer came in time.
///
/// A read answered with `404` found nothing. A write answered with any
/// failure was refused. In every other case the store could not be
/// reached for the purpose.
pub open spec fn failure_of(operation: Operation, status: Option<u16>) -> StoreError {
    match (operation, status) {
        (Operation::Read, Some(code)) => if code == STATUS_NOT_FOUND {
            StoreError::NotFound
        } else {
            StoreError::Unreachable
        },
        (Operation::Write, Some(_)) => StoreError::WriteFailed,
        (_, None) => StoreError::Unreachable,
    }
}

/// Names the failure of a request.
pub fn classify_failure(operation: Operation, status: Option<u16>) -> (error: StoreError)
    ensures
        error == failure_of(operation, status),
{
    match (operation, status) {
        (Operation::Read, Some(code)) => {
            if code == STATUS_NOT_FOUND {
                StoreError::NotFound
            } else {
                StoreError::Unreachable
            }
        },
        (Operation::Write, Some(_)) => StoreError::WriteFailed,
        (_, None) => StoreError::Unreachable,
    }
}

/// Where the replication slot lives and how to authenticate there.
pub struct CloudflareKV {
    token: String,
    account_id: String,
    namespace_id: String,
    expiration_ttl: i64,
}

/// What a `CloudflareKV` holds.
pub struct CloudflareKVView {
    pub token: Seq<char>,
    pub account_id: Seq<char>,
    pub namespace_id: Seq<char>,
    pub expiration_ttl: int,
}

/// The request that reads one key.
pub struct ReadRequest {
    pub account_id: String,
    pub namespace_id: String,
    pub key: String,
}

/// The request that writes one key.
pub struct WriteRequest {
    pub account_id: String,
    pub namespace_id: String,
    pub key: String,
    pub expiration_ttl: i64,
    pub body: Vec<u8>,
}

impl View for CloudflareKV {
    type V = CloudflareKVView;

    closed spec fn view(&self) -> CloudflareKVView {
        CloudflareKVView {
            token: self.token@,
            account_id: self.account_id@,
            namespace_id: self.namespace_id@,
            expiration_ttl: self.expiration_ttl as int,
        }
    }
}

impl CloudflareKV {
    /// A configuration for the given user token, account and namespace.
    /// Written values expire after `WRITE_TTL_SECONDS`.
    pub fn new(token: String, account_id: String, namespace_id: String) -> (kv: Self)
        ensures
            kv@.token == token@,
            kv@.account_id == account_id@,
            kv@.namespace_id == namespace_id@,
            kv@.expiration_ttl == WRITE_TTL_SECONDS,
    {
        CloudflareKV { token, account_id, namespace_id, expiration_ttl: WRITE_TTL_SECONDS }
    }

    /// The user token to authenticate with.
    pub fn token(&self) -> (token: &str)
        ensures
            token@ == self@.token,
    {
        self.token.as_str()
    }

    /// The request that reads `key`: it names this account and namespace.
    pub fn read(&self, key: &str) -> (request: ReadRequest)
        ensures
            request.account_id@ == self@.account_id,
            request.namespace_id@ == self@.namespace_id,
            request.key@ == key@,
    {
        ReadRequest {
            account_id: self.account_id.clone(),
            namespace_id: self.namespace_id.clone(),
            key: key.to_owned(),
        }
    }

    /// The request that writes `value` under `key`: it names this account
    /// and namespace, carries the configured time to live, and its body is
    /// `value`, byte for byte.
    pub fn write(&self, key: &str, value: &[u8]) -> (request: WriteRequest)
        ensures
            request.account_id@ == self@.account_id,
            request.namespace_id@ == self@.namespace_id,
            request.key@ == key@,
            request.expiration_ttl == self@.expiration_ttl,
            request.body@ == value@,
    {
        WriteRequest {
            account_id: self.account_id.clone(),
            namespace_id: self.namespace_id.clone(),
            key: key.to_owned(),
            expiration_ttl: self.expiration_ttl,
            body: slice_to_vec(value),
        }
    }
}

} // verus!
