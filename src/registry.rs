use vstd::prelude::*;
use vstd::string::StringExecFns;

use crate::address::Address;

verus! {

/// A request to register a token. Without an `id` the registry's current
/// count of tokens becomes the identifier.
#[derive(Clone, Debug, PartialEq, Eq)]
pub struct AddTokenRequest {
    pub id: Option<u16>,
    pub address: Address,
    pub symbol: String,
    pub decimals: u8,
}

/// A token record as the registry stores it.
#[derive(Clone, Debug, PartialEq, Eq)]
pub struct Token {
    pub id: u16,
    pub address: Address,
    pub symbol: String,
    pub decimals: u8,
}

/// A storage failure while registering a token. Each keeps the storage's
/// own description for the operator's log; none shows it to the caller.
#[derive(Clone, Debug, PartialEq, Eq)]
pub enum HandlerError {
    /// No storage connection could be had.
    StorageAccess(String),
    /// Reading the count of stored tokens failed.
    StorageRead(String),
    /// Writing the token record failed.
    StorageWrite(String),
}

/// The response body of every storage failure.
pub open spec fn storage_error_text() -> Seq<char> {
    "storage layer error"@
}

impl HandlerError {
    /// The HTTP status of the failure: an internal server error.
    pub fn status(&self) -> (r: u16)
        ensures
            r == 500,
    {
        500
    }

    /// The response body shown to the caller, the same for every failure.
    pub fn public_message(&self) -> (r: String)
        ensures
            r@ == storage_error_text(),
    {
        String::from_str("storage layer error")
    }

    /// The storage's own description of the failure, for the log only.
    pub fn detail(&self) -> (r: &String)
        ensures
            r == match self {
                HandlerError::StorageAccess(d) => d,
                HandlerError::StorageRead(d) => d,
                HandlerError::StorageWrite(d) => d,
            },
    {
        match self {
            HandlerError::StorageAccess(d) => d,
            HandlerError::StorageRead(d) => d,
            HandlerError::StorageWrite(d) => d,
        }
    }
}

/// The identifier taken from a stored count: the count as a 16-bit integer
/// (its low sixteen bits).
pub open spec fn id_from_count(count: i64) -> u16 {
    count as u16
}

/// The identifier a request ends up with, once the registry held `count`
/// tokens: the caller's own when given, else one taken from the count.
pub open spec fn assigned_id(req: AddTokenRequest, count: i64) -> u16 {
    match req.id {
        Some(id) => id,
        None => id_from_count(count),
    }
}

/// `t` is the record built from `req` with the identifier `id`.
pub open spec fn record_of(t: Token, req: AddTokenRequest, id: u16) -> bool {
    &&& t.id == id
    &&& t.address == req.address
    &&& t.symbol@ == req.symbol@
    &&& t.decimals == req.decimals
}

/// What the handler asks of storage next.
pub enum Step {
    /// Read the count of stored tokens and hand it to `add_token_with_count`.
    QueryCount,
    /// Store this record and hand the outcome to `add_token_finish`.
    Store(Token),
}

/// Builds the record for `req` under the identifier `id`.
pub fn build_token(req: &AddTokenRequest, id: u16) -> (t: Token)
    ensures
        record_of(t, *req, id),
{
    Token { id, address: req.address, symbol: req.symbol.clone(), decimals: req.decimals }
}

/// First step of registering a token, once storage is reachable: a caller's
/// identifier is used as it is, otherwise the count must be read first.
pub fn add_token_start(req: &AddTokenRequest) -> (r: Step)
    ensures
        match req.id {
            Some(id) => r matches Step::Store(t) && record_of(t, *req, id),
            None => r is QueryCount,
        },
{
    match req.id {
        Some(id) => Step::Store(build_token(req, id)),
        None => Step::QueryCount,
    }
}

/// Second step, with what reading the count gave: the record to store, with
/// the count as its identifier, or the read failure.
pub fn add_token_with_count(req: &AddTokenRequest, count: Result<i64, String>) -> (r: Result<Token, HandlerError>)
    ensures
        match count {
            Ok(n) => r matches Ok(t) && record_of(t, *req, assigned_id(*req, n)),
            Err(d) => r == Err::<Token, HandlerError>(HandlerError::StorageRead(d)),
        },
{
    match count {
        Ok(n) => {
            let id: u16 = match req.id {
                Some(id) => id,
                None => n as u16,
            };
            Ok(build_token(req, id))
        },
        Err(d) => Err(HandlerError::StorageRead(d)),
    }
}

/// Last step, with what storing `token` gave: the stored record, which is the
/// response, or the write failure.
pub fn add_token_finish(token: Token, stored: Result<(), String>) -> (r: Result<Token, HandlerError>)
    ensures
        match stored {
            Ok(()) => r == Ok::<Token, HandlerError>(token),
            Err(d) => r == Err::<Token, HandlerError>(HandlerError::StorageWrite(d)),
        },
{
    match stored {
        Ok(()) => Ok(token),
        Err(d) => Err(HandlerError::StorageWrite(d)),
    }
}

/// The failure when no storage connection could be had.
pub fn storage_unavailable(detail: String) -> (e: HandlerError)
    ensures
        e == HandlerError::StorageAccess(detail),
{
    HandlerError::StorageAccess(detail)
}

/// A request with an identifier keeps it, and every other field, whatever the
/// registry holds.
pub proof fn lemma_explicit_id_kept(req: AddTokenRequest, count: i64, t: Token)
    requires
        req.id is Some,
        record_of(t, req, assigned_id(req, count)),
    ensures
        t.id == req.id->0,
        t.address == req.address,
        t.symbol@ == req.symbol@,
        t.decimals == req.decimals,
{
}

/// Identifiers taken from the count are not reserved: two requests without
/// one that both read the same count get the same identifier.
pub proof fn lemma_auto_ids_can_collide(a: AddTokenRequest, b: AddTokenRequest, count: i64)
    requires
        a.id is None,
        b.id is None,
    ensures
        assigned_id(a, count) == assigned_id(b, count),
        0 <= count < 0x10000 ==> assigned_id(a, count) == count,
{
}

} // verus!
