//! The verification keys of the most recent key set, by key identifier.

use vstd::prelude::*;
use crate::boundary::{accepts_components, components_accepted};
use crate::jwks::{keys_of, Jwk, Jwks, KeyView};

verus! {

/// Why a key set could not be fetched.
#[derive(Debug, Clone, Copy, PartialEq, Eq, Structural)]
pub enum FetchError {
    /// The endpoint could not be reached.
    Unreachable,
    /// The endpoint did not answer in time.
    TimedOut,
    /// The endpoint answered with a status other than success.
    BadStatus,
    /// The answer was not a key set.
    Malformed,
}

/// An RSA verification key: its two components, each of which decodes as
/// base64url.
#[derive(Debug, Clone)]
pub struct VerificationKey {
    pub modulus: String,
    pub exponent: String,
}

impl View for VerificationKey {
    type V = KeyView;

    open spec fn view(&self) -> KeyView {
        KeyView { modulus: self.modulus@, exponent: self.exponent@ }
    }
}

/// A key of the cache with the identifier it is found by.
struct CachedKey {
    kid: String,
    modulus: String,
    exponent: String,
}

impl CachedKey {
    spec fn key(self) -> KeyView {
        KeyView { modulus: self.modulus@, exponent: self.exponent@ }
    }
}

/// No two of the keys share an identifier.
spec fn distinct(keys: Seq<CachedKey>) -> bool {
    forall|i: int, j: int|
        0 <= i < keys.len() && 0 <= j < keys.len() && (#[trigger] keys[i]).kid@ == (
        #[trigger] keys[j]).kid@ ==> i == j
}

/// Both components of every key decode as base64url.
spec fn accepted(keys: Seq<CachedKey>) -> bool {
    forall|i: int|
        0 <= i < keys.len() ==> components_accepted(
            (#[trigger] keys[i]).modulus@,
            keys[i].exponent@,
        )
}

/// Whether one of the keys has the identifier.
spec fn holds(keys: Seq<CachedKey>, kid: Seq<char>) -> bool {
    exists|i: int| 0 <= i < keys.len() && (#[trigger] keys[i]).kid@ == kid
}

/// The place of the key with the identifier.
spec fn place(keys: Seq<CachedKey>, kid: Seq<char>) -> int {
    choose|i: int| 0 <= i < keys.len() && (#[trigger] keys[i]).kid@ == kid
}

/// The keys as a mapping from identifier to key.
spec fn mapping(keys: Seq<CachedKey>) -> Map<Seq<char>, KeyView> {
    Map::new(|kid: Seq<char>| holds(keys, kid), |kid: Seq<char>| keys[place(keys, kid)].key())
}

/// Where identifiers are distinct, the key at a place is the one its
/// identifier maps to.
proof fn lemma_place(keys: Seq<CachedKey>, i: int)
    requires
        distinct(keys),
        0 <= i < keys.len(),
    ensures
        holds(keys, keys[i].kid@),
        place(keys, keys[i].kid@) == i,
        mapping(keys).contains_key(keys[i].kid@),
        mapping(keys)[keys[i].kid@] == keys[i].key(),
{
    let p = place(keys, keys[i].kid@);
    assert(0 <= p < keys.len() && keys[p].kid@ == keys[i].kid@);
}

/// Putting a key in a place whose identifier it shares maps that identifier
/// to the new key and leaves the others.
proof fn lemma_replaced(keys: Seq<CachedKey>, i: int, key: CachedKey)
    requires
        distinct(keys),
        0 <= i < keys.len(),
        keys[i].kid@ == key.kid@,
    ensures
        distinct(keys.update(i, key)),
        mapping(keys.update(i, key)) == mapping(keys).insert(key.kid@, key.key()),
{
    let after = keys.update(i, key);
    assert forall|a: int, b: int|
        0 <= a < after.len() && 0 <= b < after.len() && (#[trigger] after[a]).kid@ == (
        #[trigger] after[b]).kid@ implies a == b by {
        assert(keys[a].kid@ == after[a].kid@);
        assert(keys[b].kid@ == after[b].kid@);
    }
    assert forall|kid: Seq<char>| holds(after, kid) == holds(keys, kid) by {
        if holds(keys, kid) {
            let p = place(keys, kid);
            assert(after[p].kid@ == kid);
        }
        if holds(after, kid) {
            let p = place(after, kid);
            assert(keys[p].kid@ == kid);
        }
    }
    assert forall|kid: Seq<char>| holds(after, kid) implies #[trigger] mapping(after)[kid]
        == mapping(keys).insert(key.kid@, key.key())[kid] by {
        let p = place(after, kid);
        lemma_place(after, p);
        assert(keys[p].kid@ == kid);
        lemma_place(keys, p);
    }
    assert(mapping(after) =~= mapping(keys).insert(key.kid@, key.key()));
}

/// Appending a key with a new identifier maps that identifier to the key and
/// leaves the others.
proof fn lemma_appended(keys: Seq<CachedKey>, key: CachedKey)
    requires
        distinct(keys),
        !holds(keys, key.kid@),
    ensures
        distinct(keys.push(key)),
        mapping(keys.push(key)) == mapping(keys).insert(key.kid@, key.key()),
{
    let after = keys.push(key);
    assert forall|a: int, b: int|
        0 <= a < after.len() && 0 <= b < after.len() && (#[trigger] after[a]).kid@ == (
        #[trigger] after[b]).kid@ implies a == b by {
        if a < keys.len() {
            assert(keys[a].kid@ == after[a].kid@);
        }
        if b < keys.len() {
            assert(keys[b].kid@ == after[b].kid@);
        }
    }
    assert forall|kid: Seq<char>| holds(after, kid) == (holds(keys, kid) || kid == key.kid@) by {
        if holds(keys, kid) {
            let p = place(keys, kid);
            assert(after[p].kid@ == kid);
        }
        if kid == key.kid@ {
            assert(after[keys.len() as int].kid@ == kid);
        }
        if holds(after, kid) {
            let p = place(after, kid);
            if p < keys.len() {
                assert(keys[p].kid@ == kid);
            }
        }
    }
    assert forall|kid: Seq<char>| holds(after, kid) implies #[trigger] mapping(after)[kid]
        == mapping(keys).insert(key.kid@, key.key())[kid] by {
        let p = place(after, kid);
        lemma_place(after, p);
        if p < keys.len() {
            assert(keys[p].kid@ == kid);
            lemma_place(keys, p);
        }
    }
    assert(mapping(after) =~= mapping(keys).insert(key.kid@, key.key()));
}

/// The keys of a cache after the outcome of a fetch was taken in: those of
/// the fetched key set, or the keys as they were where the fetch failed.
pub open spec fn refreshed(keys: Map<Seq<char>, KeyView>, fetched: Result<Jwks, FetchError>) -> Map<
    Seq<char>,
    KeyView,
> {
    match fetched {
        Ok(jwks) => keys_of(jwks@),
        Err(_) => keys,
    }
}

/// The verification keys in use, found by key identifier.
///
/// The cache holds the keys of the last key set that was fetched with
/// success. It changes only as a whole, in [`KeyCache::refresh`].
pub struct KeyCache {
    keys: Vec<CachedKey>,
}

impl View for KeyCache {
    type V = Map<Seq<char>, KeyView>;

    closed spec fn view(&self) -> Map<Seq<char>, KeyView> {
        mapping(self.keys@)
    }
}

impl KeyCache {
    #[verifier::type_invariant]
    spec fn well_formed(self) -> bool {
        distinct(self.keys@) && accepted(self.keys@)
    }

    /// A cache without keys.
    pub fn new() -> (cache: KeyCache)
        ensures
            cache@ == Map::<Seq<char>, KeyView>::empty(),
    {
        let cache = KeyCache { keys: Vec::new() };
        assert(cache@ =~= Map::<Seq<char>, KeyView>::empty());
        cache
    }

    /// The key with the identifier, if the cache holds one.
    pub fn get(&self, kid: &str) -> (found: Option<VerificationKey>)
        ensures
            match found {
                Some(key) => self@.contains_key(kid@) && key@ == self@[kid@] && components_accepted(
                    key.modulus@,
                    key.exponent@,
                ),
                None => !self@.contains_key(kid@),
            },
    {
        proof {
            use_type_invariant(self);
        }
        match find(&self.keys, kid) {
            Some(i) => {
                proof {
                    lemma_place(self.keys@, i as int);
                }
                Some(
                    VerificationKey {
                        modulus: self.keys[i].modulus.clone(),
                        exponent: self.keys[i].exponent.clone(),
                    },
                )
            },
            None => None,
        }
    }

    /// Takes in the outcome of fetching the key set.
    ///
    /// A fetched key set replaces the keys of the cache as a whole: the cache
    /// then holds the keys that the set yields and no others. A failed fetch
    /// is handed back and leaves the cache as it was.
    pub fn refresh(&mut self, fetched: Result<Jwks, FetchError>) -> (done: Result<(), FetchError>)
        ensures
            match fetched {
                Ok(jwks) => done is Ok && final(self)@ == keys_of(jwks@),
                Err(failure) => done == Err::<(), FetchError>(failure) && final(self)@ == old(
                    self,
                )@,
            },
    {
        match fetched {
            Ok(jwks) => {
                self.keys = accepted_keys(&jwks);
                Ok(())
            },
            Err(failure) => Err(failure),
        }
    }

    /// The key with the identifier once the key set has been fetched for it.
    ///
    /// This is the second half of a lookup that missed: the outcome of the
    /// one fetch is taken in as in [`KeyCache::refresh`], and the key is
    /// looked up again. `None` is final: nothing more is asked for.
    pub fn get_after_refresh(&mut self, kid: &str, fetched: Result<Jwks, FetchError>) -> (found:
        Option<VerificationKey>)
        ensures
            final(self)@ == refreshed(old(self)@, fetched),
            match found {
                Some(key) => final(self)@.contains_key(kid@) && key@ == final(self)@[kid@]
                    && components_accepted(key.modulus@, key.exponent@),
                None => !final(self)@.contains_key(kid@),
            },
    {
        let _ = self.refresh(fetched);
        self.get(kid)
    }
}

/// The key that a descriptor yields, with the descriptor's identifier.
fn accepted_key(jwk: &Jwk) -> (found: Option<CachedKey>)
    ensures
        match jwk@.key() {
            Some(key) => found matches Some(cached) && cached.kid@ == jwk.kid@ && cached.key()
                == key,
            None => found is None,
        },
{
    match &jwk.n {
        Some(n) => match &jwk.e {
            Some(e) => {
                if accepts_components(n.as_str(), e.as_str()) {
                    Some(CachedKey { kid: jwk.kid.clone(), modulus: n.clone(), exponent: e.clone() })
                } else {
                    None
                }
            },
            None => None,
        },
        None => None,
    }
}

/// The keys that a key set yields, one for each identifier.
fn accepted_keys(jwks: &Jwks) -> (keys: Vec<CachedKey>)
    ensures
        distinct(keys@),
        accepted(keys@),
        mapping(keys@) == keys_of(jwks@),
{
    let mut keys: Vec<CachedKey> = Vec::new();
    let mut i: usize = 0;
    assert(mapping(keys@) =~= keys_of(jwks@.take(0)));
    while i < jwks.keys.len()
        invariant
            i <= jwks.keys.len(),
            distinct(keys@),
            accepted(keys@),
            mapping(keys@) == keys_of(jwks@.take(i as int)),
        decreases jwks.keys.len() - i,
    {
        let jwk = &jwks.keys[i];
        proof {
            let upto = jwks@.take(i + 1);
            assert(upto.drop_last() == jwks@.take(i as int));
            assert(upto.last() == jwk@);
        }
        match accepted_key(jwk) {
            Some(key) => {
                match find(&keys, key.kid.as_str()) {
                    Some(p) => {
                        proof {
                            lemma_replaced(keys@, p as int, key);
                        }
                        keys.set(p, key);
                    },
                    None => {
                        proof {
                            lemma_appended(keys@, key);
                        }
                        keys.push(key);
                    },
                }
            },
            None => {},
        }
        i += 1;
    }
    assert(jwks@.take(i as int) == jwks@);
    keys
}

/// The place of the key with the identifier among the keys.
fn find(keys: &Vec<CachedKey>, kid: &str) -> (found: Option<usize>)
    ensures
        match found {
            Some(i) => i < keys.len() && keys[i as int].kid@ == kid@,
            None => !holds(keys@, kid@),
        },
{
    let wanted = kid.to_owned();
    let mut i: usize = 0;
    while i < keys.len()
        invariant
            i <= keys.len(),
            wanted@ == kid@,
            forall|j: int| 0 <= j < i ==> (#[trigger] keys[j]).kid@ != kid@,
        decreases keys.len() - i,
    {
        if keys[i].kid == wanted {
            return Some(i);
        }
        i += 1;
    }
    None
}

} // verus!
