//! A parsed log, and the verified steps around the parser's record walk and keychain scan.
use vstd::prelude::*;

use std::sync::Arc;

use crate::error::DJIError;
use crate::keychain::{
    groups, keychains_from_outside, keychains_to_outside, outside_groups, plain_encoded_groups,
    plain_groups, request_from_outside,
    EncodedKeychainFeaturePointWrapper, KeychainFeaturePointWrapper, KeychainsRequestWrapper,
};
use crate::prefix::{check_prefix, prefix_in_bounds, PREFIX_SIZE, VERSION_POSITION};
use dji_log_parser::keychain::{KeychainFeaturePoint, KeychainsRequest};
use dji_log_parser::DJILog;

verus! {

/// One decoded record, described by the text of its decoded value.
#[derive(Debug, Clone)]
pub struct RecordWrapper {
    pub record_type: String,
    pub timestamp: u64,
    pub data: Vec<u8>,
}

/// A log whose Prefix and Info blocks have been parsed; records are decoded on
/// demand, with keychains that the caller supplies.
pub struct DJILogWrapper {
    inner: DJILog,
    version: u8,
}

/// Whether some group of a keychains request holds at least one entry.
pub open spec fn has_entries(g: Seq<Seq<EncodedKeychainFeaturePointWrapper>>) -> bool {
    exists|i: int| 0 <= i < g.len() && g[i].len() > 0
}

/// The keychains handed to the decoder: the caller's, converted entry by entry,
/// or none at all, so that encrypted records are left undecrypted.
pub open spec fn decoder_keychains(keychains: Option<Vec<Vec<KeychainFeaturePointWrapper>>>) -> Seq<Seq<KeychainFeaturePoint>> {
    match keychains {
        Some(c) => outside_groups(c@),
        None => Seq::empty(),
    }
}

/// The keychains handed to the decoder for an optional set of plain keychains:
/// the converted groups when given, and an empty set otherwise.
pub fn keychains_or_empty(keychains: Option<Vec<Vec<KeychainFeaturePointWrapper>>>) -> (r: Vec<Vec<KeychainFeaturePoint>>)
    ensures
        groups(r@) == decoder_keychains(keychains),
{
    match keychains {
        Some(c) => keychains_to_outside(&c),
        None => {
            let r: Vec<Vec<KeychainFeaturePoint>> = Vec::new();
            assert(groups(r@) =~= Seq::<Seq<KeychainFeaturePoint>>::empty());
            r
        },
    }
}

/// Turns the outcome of extracting a keychains request into the caller's
/// result: a failed extraction, or a request without a single entry, is a
/// keychain error; otherwise the request in plain form.
pub fn keychains_request_from(res: Result<KeychainsRequest, dji_log_parser::Error>) -> (r: Result<KeychainsRequestWrapper, DJIError>)
    ensures
        res is Err ==> r == Err::<KeychainsRequestWrapper, DJIError>(DJIError::KeychainError),
        res matches Ok(req) ==> (!has_entries(plain_encoded_groups(req.keychains@))
            ==> r == Err::<KeychainsRequestWrapper, DJIError>(DJIError::KeychainError)),
        res matches Ok(req) ==> (has_entries(plain_encoded_groups(req.keychains@)) ==> (r matches Ok(w)
            && w.version == req.version && w.department == req.department
            && groups(w.keychains@) == plain_encoded_groups(req.keychains@))),
{
    match res {
        Err(_) => Err(DJIError::KeychainError),
        Ok(req) => {
            let w = request_from_outside(&req);
            let mut i: usize = 0;
            let mut found = false;
            while i < w.keychains.len()
                invariant
                    i <= w.keychains@.len(),
                    groups(w.keychains@) == plain_encoded_groups(req.keychains@),
                    found <==> exists|k: int| 0 <= k < i && w.keychains@[k]@.len() > 0,
                decreases w.keychains@.len() - i,
            {
                if w.keychains[i].len() > 0 {
                    found = true;
                }
                i += 1;
            }
            proof {
                let g = plain_encoded_groups(req.keychains@);
                assert(g.len() == w.keychains@.len());
                assert forall|k: int| 0 <= k < g.len() implies g[k] == w.keychains@[k]@ by {
                    assert(groups(w.keychains@)[k] == w.keychains@[k]@);
                }
                if found {
                    let k = choose|k: int| 0 <= k < i && w.keychains@[k]@.len() > 0;
                    assert(g[k].len() > 0);
                }
                if has_entries(g) {
                    let k = choose|k: int| 0 <= k < g.len() && g[k].len() > 0;
                    assert(w.keychains@[k]@.len() > 0);
                }
                assert(found == has_entries(g));
            }
            if found {
                Ok(w)
            } else {
                Err(DJIError::KeychainError)
            }
        },
    }
}

/// Turns the outcome of fetching a log's keychains into the caller's result.
/// The fetch is made only for a log whose keychains request could be built
/// (`scan`); `fetched` is its outcome, or `None` where it was not made. Any
/// failure is a keychain error; fetched keychains are returned in plain form.
pub fn fetched_keychains(
    scan: &Result<KeychainsRequestWrapper, DJIError>,
    fetched: Option<Result<Vec<Vec<KeychainFeaturePoint>>, dji_log_parser::Error>>,
) -> (r: Result<Vec<Vec<KeychainFeaturePointWrapper>>, DJIError>)
    ensures
        scan is Err ==> r == Err::<Vec<Vec<KeychainFeaturePointWrapper>>, DJIError>(DJIError::KeychainError),
        scan is Ok ==> (fetched matches Some(Ok(c)) ==> (r matches Ok(k) && groups(k@) == plain_groups(c@))),
        !(fetched matches Some(Ok(_))) ==> r == Err::<Vec<Vec<KeychainFeaturePointWrapper>>, DJIError>(DJIError::KeychainError),
{
    if scan.is_err() {
        return Err(DJIError::KeychainError);
    }
    match fetched {
        Some(Ok(c)) => Ok(keychains_from_outside(&c)),
        _ => Err(DJIError::KeychainError),
    }
}

/// Describes decoded records, one per text, in order: each carries its text as
/// its type, a zero timestamp and no data.
pub fn record_wrappers(texts: &Vec<String>) -> (r: Vec<RecordWrapper>)
    ensures
        r@.len() == texts@.len(),
        forall|i: int| 0 <= i < r@.len() ==> r@[i].record_type == texts@[i]
            && r@[i].timestamp == 0 && r@[i].data@.len() == 0,
{
    let mut r: Vec<RecordWrapper> = Vec::new();
    let mut i: usize = 0;
    while i < texts.len()
        invariant
            i <= texts@.len(),
            r@.len() == i,
            forall|k: int| 0 <= k < i ==> r@[k].record_type == texts@[k]
                && r@[k].timestamp == 0 && r@[k].data@.len() == 0,
        decreases texts@.len() - i,
    {
        r.push(RecordWrapper { record_type: texts[i].clone(), timestamp: 0, data: Vec::new() });
        i += 1;
    }
    r
}

/// Turns the outcome of decoding the record section into the caller's result:
/// a failure is a record error, and decoded records are described in order.
pub fn records_from(res: Result<Vec<String>, dji_log_parser::Error>) -> (r: Result<Vec<RecordWrapper>, DJIError>)
    ensures
        res is Err ==> r == Err::<Vec<RecordWrapper>, DJIError>(DJIError::RecordError),
        res matches Ok(texts) ==> (r matches Ok(rs) && rs@.len() == texts@.len()
            && forall|i: int| 0 <= i < rs@.len() ==> rs@[i].record_type == texts@[i]
                && rs@[i].timestamp == 0 && rs@[i].data@.len() == 0),
{
    match res {
        Ok(texts) => Ok(record_wrappers(&texts)),
        Err(_) => Err(DJIError::RecordError),
    }
}

impl DJILogWrapper {
    /// The format version of the log.
    pub closed spec fn spec_version(&self) -> u8 {
        self.version
    }

    /// Builds a log from its bytes and the parser crate's outcome of parsing
    /// them (`DJILog::from_bytes`, whose version is the Prefix block's version
    /// byte). A buffer shorter than the Prefix block, or whose Info block or
    /// record section is not wholly within it, is a parse error; so is a buffer
    /// that the parser refused. Any other buffer gives a log.
    pub fn from_parsed(bytes: &Vec<u8>, parsed: Result<DJILog, dji_log_parser::Error>) -> (r: Result<Arc<Self>, DJIError>)
        ensures
            r is Ok <==> prefix_in_bounds(bytes@) && parsed is Ok,
            r is Err ==> r == Err::<Arc<Self>, DJIError>(DJIError::ParseError),
            bytes@.len() < PREFIX_SIZE ==> r == Err::<Arc<Self>, DJIError>(DJIError::ParseError),
            r matches Ok(log) ==> log.spec_version() == bytes@[VERSION_POSITION as int],
    {
        if !check_prefix(bytes) {
            return Err(DJIError::ParseError);
        }
        match parsed {
            Ok(inner) => Ok(Arc::new(DJILogWrapper { inner, version: bytes[VERSION_POSITION] })),
            Err(_) => Err(DJIError::ParseError),
        }
    }

    /// The format version of the log.
    pub fn version(&self) -> (r: u8)
        ensures
            r == self.spec_version(),
    {
        self.version
    }

    /// The parsed log of the parser crate, for the queries that run outside the
    /// library: details and frames, the record walk, and the keychain fetch.
    pub fn inner(&self) -> (r: &DJILog) {
        &self.inner
    }
}

} // verus!
