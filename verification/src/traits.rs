//! The capability interfaces the host-function table consumes on the guest's
//! behalf: persistent storage, address conversion, and chain queries. Each is
//! a narrow interface, not a full storage or networking stack; the library
//! ships verified in-memory implementations, and an embedder may supply its
//! own.

use vstd::prelude::*;

use vstd::slice::slice_to_vec;

verus! {

/// Persistent key/value storage, modeled as a map from byte keys to byte
/// values. No transactions, no iteration.
pub trait Storage {
    /// The current key/value contents.
    spec fn contents(&self) -> Map<Seq<u8>, Seq<u8>>;

    /// Looks `key` up; `None` exactly when the key is absent.
    fn get(&self, key: &[u8]) -> (r: Option<Vec<u8>>)
        ensures
            match r {
                Some(v) => self.contents().contains_key(key@) && v@ == self.contents()[key@],
                None => !self.contents().contains_key(key@),
            },
    ;

    /// Stores `value` under `key`, replacing any previous value.
    fn set(&mut self, key: &[u8], value: &[u8])
        ensures
            final(self).contents() == old(self).contents().insert(key@, value@),
    ;

    /// Deletes `key`; absent keys are left absent.
    fn remove(&mut self, key: &[u8])
        ensures
            final(self).contents() == old(self).contents().remove(key@),
    ;
}

/// Address conversion between a human-readable form and a canonical binary
/// form. Which inputs convert, and to what, is fixed by the implementation:
/// each implementation pins both down through its two spec functions.
pub trait Api {
    /// What canonicalization yields, per input; `None` marks the inputs the
    /// implementation rejects.
    spec fn canon_spec(&self, human: Seq<u8>) -> Option<Seq<u8>>;

    /// What humanization yields, per input.
    spec fn human_spec(&self, canonical: Seq<u8>) -> Option<Seq<u8>>;

    fn canonical_address(&self, human: &[u8]) -> (r: Result<Vec<u8>, ()>)
        ensures
            match r {
                Ok(v) => self.canon_spec(human@) == Some(v@),
                Err(_) => self.canon_spec(human@) is None,
            },
    ;

    fn human_address(&self, canonical: &[u8]) -> (r: Result<Vec<u8>, ()>)
        ensures
            match r {
                Ok(v) => self.human_spec(canonical@) == Some(v@),
                Err(_) => self.human_spec(canonical@) is None,
            },
    ;
}

/// Chain queries: a raw request buffer in, a raw answer buffer out.
pub trait Querier {
    /// What a query answers, per request; `None` marks rejected requests.
    spec fn query_spec(&self, request: Seq<u8>) -> Option<Seq<u8>>;

    fn query_raw(&self, request: &[u8]) -> (r: Result<Vec<u8>, ()>)
        ensures
            match r {
                Ok(v) => self.query_spec(request@) == Some(v@),
                Err(_) => self.query_spec(request@) is None,
            },
    ;
}

/// The bundle of capabilities one invocation runs against.
pub struct Extern<S, A, Q> {
    pub storage: S,
    pub api: A,
    pub querier: Q,
}

/// An address capability whose canonical form is the human bytes themselves,
/// in both directions; it rejects nothing.
pub struct IdentityApi;

impl Api for IdentityApi {
    open spec fn canon_spec(&self, human: Seq<u8>) -> Option<Seq<u8>> {
        Some(human)
    }

    open spec fn human_spec(&self, canonical: Seq<u8>) -> Option<Seq<u8>> {
        Some(canonical)
    }

    fn canonical_address(&self, human: &[u8]) -> (r: Result<Vec<u8>, ()>) {
        Ok(slice_to_vec(human))
    }

    fn human_address(&self, canonical: &[u8]) -> (r: Result<Vec<u8>, ()>) {
        Ok(slice_to_vec(canonical))
    }
}

/// The query capability in its current state: not integrated. It answers
/// nothing, so the dispatch layer fails closed instead of fabricating data.
pub struct NoQuerier;

impl Querier for NoQuerier {
    open spec fn query_spec(&self, request: Seq<u8>) -> Option<Seq<u8>> {
        None
    }

    fn query_raw(&self, request: &[u8]) -> (r: Result<Vec<u8>, ()>) {
        Err(())
    }
}

} // verus!
