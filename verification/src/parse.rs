//! The status document: the subset of `borg info --json` output that the
//! exporter reads. JSON decoding and field lookup are done by `serde_json`
//! behind trusted wrappers whose results are named functions of the payload
//! bytes; the navigation to the required fields, and the rejection of
//! documents that lack them, is verified code. Unknown fields anywhere in
//! the document are ignored by construction: acceptance depends only on the
//! document being JSON and on the named lookups of the required fields.

use vstd::prelude::*;

verus! {

/// The six deduplication counters under `cache.stats`.
#[derive(Debug, Clone, Copy, PartialEq, Eq, Structural)]
pub struct BorgResponseCacheStats {
    pub total_chunks: u64,
    pub total_csize: u64,
    pub total_size: u64,
    pub total_unique_chunks: u64,
    pub unique_csize: u64,
    pub unique_size: u64,
}

/// The subset of `repository` that matters: its last-modified local time.
#[derive(Debug)]
pub struct BorgResponseRepository {
    pub last_modified: String,
}

/// The subset of `cache` that matters: its statistics.
#[derive(Debug)]
pub struct BorgResponseCache {
    pub stats: BorgResponseCacheStats,
}

/// A parsed status document.
#[derive(Debug)]
pub struct BorgResponse {
    pub cache: BorgResponseCache,
    pub repository: BorgResponseRepository,
}

/// Why a status document was rejected.
#[derive(Debug, Clone, Copy, PartialEq, Eq, Structural)]
pub enum ParseError {
    /// The bytes are not a JSON document.
    Json,
    /// A required field is absent or not of its required type.
    Field,
}

/// Whether `serde_json` accepts the bytes as a JSON document.
pub uninterp spec fn json_ok(bytes: Seq<u8>) -> bool;

/// The non-negative integer at the object path `k1.k2.k3` of the JSON
/// document the bytes decode to; `None` when the bytes are not JSON, the
/// path is absent, or the value there is not such a number.
pub uninterp spec fn doc_u64(bytes: Seq<u8>, k1: Seq<char>, k2: Seq<char>, k3: Seq<char>) -> Option<
    u64,
>;

/// The string at the object path `k1.k2` of the JSON document the bytes
/// decode to; `None` when the bytes are not JSON, the path is absent, or
/// the value there is not a string.
pub uninterp spec fn doc_str(bytes: Seq<u8>, k1: Seq<char>, k2: Seq<char>) -> Option<Seq<char>>;

/// Relies on `serde_json::from_slice::<Value>`: whether the bytes decode to
/// a JSON value depends on the bytes alone.
#[verifier::external_body]
fn json_is_doc(bytes: &[u8]) -> (b: bool)
    ensures
        b == json_ok(bytes@),
{
    serde_json::from_slice::<serde_json::Value>(bytes).is_ok()
}

/// Relies on `serde_json::from_slice::<Value>`, `Value::get` and
/// `Value::as_u64`: the non-negative integer at the object path `k1.k2.k3`
/// of the document, a function of the bytes and keys alone.
#[verifier::external_body]
fn json_doc_u64(bytes: &[u8], k1: &str, k2: &str, k3: &str) -> (r: Option<u64>)
    ensures
        r == doc_u64(bytes@, k1@, k2@, k3@),
{
    let v: serde_json::Value = match serde_json::from_slice(bytes) {
        Ok(v) => v,
        Err(_) => return None,
    };
    v.get(k1).and_then(|a| a.get(k2)).and_then(|b| b.get(k3)).and_then(|c| c.as_u64())
}

/// Relies on `serde_json::from_slice::<Value>`, `Value::get` and
/// `Value::as_str`: the string at the object path `k1.k2` of the document,
/// a function of the bytes and keys alone.
#[verifier::external_body]
fn json_doc_str(bytes: &[u8], k1: &str, k2: &str) -> (r: Option<String>)
    ensures
        r is Some <==> doc_str(bytes@, k1@, k2@) is Some,
        r matches Some(s) ==> Some(s@) == doc_str(bytes@, k1@, k2@),
{
    let v: serde_json::Value = match serde_json::from_slice(bytes) {
        Ok(v) => v,
        Err(_) => return None,
    };
    v.get(k1).and_then(|a| a.get(k2)).and_then(|b| b.as_str()).map(str::to_owned)
}

/// One of the six counters: the named lookup under `cache.stats`.
pub open spec fn spec_counter(bytes: Seq<u8>, key: Seq<char>) -> Option<u64> {
    doc_u64(bytes, "cache"@, "stats"@, key)
}

/// The named lookup of `repository.last_modified`.
pub open spec fn spec_last_modified(bytes: Seq<u8>) -> Option<Seq<char>> {
    doc_str(bytes, "repository"@, "last_modified"@)
}

/// A payload parses: it is JSON and every required field is present with
/// its required type. Nothing else about the document matters.
pub open spec fn doc_complete(bytes: Seq<u8>) -> bool {
    &&& json_ok(bytes)
    &&& spec_counter(bytes, "total_chunks"@) is Some
    &&& spec_counter(bytes, "total_csize"@) is Some
    &&& spec_counter(bytes, "total_size"@) is Some
    &&& spec_counter(bytes, "total_unique_chunks"@) is Some
    &&& spec_counter(bytes, "unique_csize"@) is Some
    &&& spec_counter(bytes, "unique_size"@) is Some
    &&& spec_last_modified(bytes) is Some
}

/// The counters a complete payload carries.
pub open spec fn spec_stats(bytes: Seq<u8>) -> BorgResponseCacheStats {
    BorgResponseCacheStats {
        total_chunks: spec_counter(bytes, "total_chunks"@)->Some_0,
        total_csize: spec_counter(bytes, "total_csize"@)->Some_0,
        total_size: spec_counter(bytes, "total_size"@)->Some_0,
        total_unique_chunks: spec_counter(bytes, "total_unique_chunks"@)->Some_0,
        unique_csize: spec_counter(bytes, "unique_csize"@)->Some_0,
        unique_size: spec_counter(bytes, "unique_size"@)->Some_0,
    }
}

/// Parses a status document out of raw `borg info --json` bytes. It
/// succeeds exactly on complete payloads, and then returns exactly the
/// named field values; bytes that are not JSON at all are rejected as
/// `ParseError::Json` — exactly those — and a JSON document that lacks one
/// of the required fields (`cache.stats.*`, `repository.last_modified`), or
/// types one wrongly, as `ParseError::Field`. Fields beyond the required
/// ones never matter.
pub fn parse(payload: &[u8]) -> (r: Result<BorgResponse, ParseError>)
    ensures
        r is Ok <==> doc_complete(payload@),
        r == Err::<BorgResponse, ParseError>(ParseError::Json) <==> !json_ok(payload@),
        r matches Ok(d) ==> d.cache.stats == spec_stats(payload@) && d.repository.last_modified@
            == spec_last_modified(payload@)->Some_0,
{
    if !json_is_doc(payload) {
        return Err(ParseError::Json);
    }
    let total_chunks = match json_doc_u64(payload, "cache", "stats", "total_chunks") {
        Some(n) => n,
        None => {
            return Err(ParseError::Field);
        },
    };
    let total_csize = match json_doc_u64(payload, "cache", "stats", "total_csize") {
        Some(n) => n,
        None => {
            return Err(ParseError::Field);
        },
    };
    let total_size = match json_doc_u64(payload, "cache", "stats", "total_size") {
        Some(n) => n,
        None => {
            return Err(ParseError::Field);
        },
    };
    let total_unique_chunks = match json_doc_u64(payload, "cache", "stats", "total_unique_chunks") {
        Some(n) => n,
        None => {
            return Err(ParseError::Field);
        },
    };
    let unique_csize = match json_doc_u64(payload, "cache", "stats", "unique_csize") {
        Some(n) => n,
        None => {
            return Err(ParseError::Field);
        },
    };
    let unique_size = match json_doc_u64(payload, "cache", "stats", "unique_size") {
        Some(n) => n,
        None => {
            return Err(ParseError::Field);
        },
    };
    let last_modified = match json_doc_str(payload, "repository", "last_modified") {
        Some(s) => s,
        None => {
            return Err(ParseError::Field);
        },
    };
    Ok(
        BorgResponse {
            cache: BorgResponseCache {
                stats: BorgResponseCacheStats {
                    total_chunks,
                    total_csize,
                    total_size,
                    total_unique_chunks,
                    unique_csize,
                    unique_size,
                },
            },
            repository: BorgResponseRepository { last_modified },
        },
    )
}

} // verus!
