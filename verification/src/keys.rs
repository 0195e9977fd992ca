//! The key store: the provider's published mapping of key identifiers to
//! PEM-encoded RSA public keys, built from a fetched key document.

use vstd::prelude::*;

use crate::error::{Error, ErrorView};
use crate::json::json_string_map;
use crate::json::parse_string_object;
use crate::pairs::{lookup, lookup_pair, opt_view, pairs_view};

verus! {

/// A fetched set of signing keys: key identifier to PEM-encoded RSA public
/// key. Immutable once built; a refetch builds a new set.
pub struct SigningKeySet {
    pairs: Vec<(String, String)>,
}

impl View for SigningKeySet {
    type V = Seq<(Seq<char>, Seq<char>)>;

    closed spec fn view(&self) -> Seq<(Seq<char>, Seq<char>)> {
        pairs_view(self.pairs@)
    }
}

/// The outcome of building a key set from the provider's response: a fetch
/// reported as failed never yields keys, and neither does a body that is not
/// a JSON object of string values.
pub open spec fn key_set_outcome(fetch_ok: bool, body: Seq<char>) -> Result<
    Seq<(Seq<char>, Seq<char>)>,
    ErrorView,
> {
    if !fetch_ok {
        Err(ErrorView::API("Failed to fetch keys!"@))
    } else {
        match json_string_map(body) {
            Some(kv) => Ok(kv),
            None => Err(ErrorView::API("Failed to parse keys!"@)),
        }
    }
}

impl SigningKeySet {
    /// Builds the key set from the key-endpoint response: whether the fetch
    /// returned a success status, and the body it carried.
    pub fn from_response(fetch_ok: bool, body: &str) -> (r: Result<SigningKeySet, Error>)
        ensures
            match r {
                Ok(ks) => key_set_outcome(fetch_ok, body@) == Ok::<
                    Seq<(Seq<char>, Seq<char>)>,
                    ErrorView,
                >(ks@),
                Err(e) => key_set_outcome(fetch_ok, body@) == Err::<
                    Seq<(Seq<char>, Seq<char>)>,
                    ErrorView,
                >(e@),
            },
    {
        if !fetch_ok {
            return Err(Error::API("Failed to fetch keys!".to_owned()));
        }
        match parse_string_object(body) {
            Some(pairs) => Ok(SigningKeySet { pairs }),
            None => Err(Error::API("Failed to parse keys!".to_owned())),
        }
    }

    /// The PEM key material published under the given key identifier, if any.
    pub fn get_signing_key(&self, kid: &str) -> (r: Option<String>)
        ensures
            opt_view(r) == lookup(self@, kid@),
    {
        lookup_pair(&self.pairs, kid)
    }
}

} // verus!
