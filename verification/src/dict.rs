//! The dictionary publisher and the semantics of the edge key-value store.
//!
//! `FastlyDict` is the publisher bound at startup to a service, a dictionary
//! and an API token; it turns a key/value pair into a fully addressed upsert
//! request, which the surrounding binary sends over the network. The store
//! itself is modelled as a map with create-or-replace writes: `upsert_effect`
//! states the effect of one upsert, `dict_after` the effect of a sequence,
//! and `DictModel` is a verified in-memory reference of the same semantics
//! for exercising the pipeline against.
use vstd::prelude::*;

verus! {

/// The externally observable state of a dictionary: its key-value map.
pub type DictView = Map<Seq<char>, Seq<char>>;

/// One upsert is a create-or-replace write: after it, the key holds exactly
/// the written value and every other key is untouched.
pub open spec fn upsert_effect(d: DictView, key: Seq<char>, value: Seq<char>) -> DictView {
    d.insert(key, value)
}

/// The state after a sequence of upserts, applied first to last.
pub open spec fn dict_after(d: DictView, upserts: Seq<(Seq<char>, Seq<char>)>) -> DictView
    decreases upserts.len(),
{
    if upserts.len() == 0 {
        d
    } else {
        dict_after(upsert_effect(d, upserts[0].0, upserts[0].1), upserts.skip(1))
    }
}

/// Upserting the same key and value twice leaves the same externally
/// observable state as upserting it once.
pub proof fn lemma_upsert_idempotent(d: DictView, key: Seq<char>, value: Seq<char>)
    ensures
        upsert_effect(upsert_effect(d, key, value), key, value) == upsert_effect(d, key, value),
{
    assert(upsert_effect(upsert_effect(d, key, value), key, value) =~= upsert_effect(
        d,
        key,
        value,
    ));
}

/// Repeated upserts of one key leave the last-applied value: there is no
/// versioning and no conditional write.
pub proof fn lemma_upsert_last_write_wins(
    d: DictView,
    key: Seq<char>,
    first: Seq<char>,
    second: Seq<char>,
)
    ensures
        upsert_effect(upsert_effect(d, key, first), key, second) == upsert_effect(d, key, second),
{
    assert(upsert_effect(upsert_effect(d, key, first), key, second) =~= upsert_effect(
        d,
        key,
        second,
    ));
}

/// An upsert leaves every other key untouched.
pub proof fn lemma_upsert_untouched_key(d: DictView, key: Seq<char>, value: Seq<char>, other: Seq<
    char,
>)
    requires
        other != key,
    ensures
        upsert_effect(d, key, value).contains_key(other) == d.contains_key(other),
        d.contains_key(other) ==> upsert_effect(d, key, value)[other] == d[other],
{
}

/// The map carried by a journal of writes, applied first to last: the last
/// write of a key wins.
pub open spec fn entries_map(s: Seq<(String, String)>) -> DictView
    decreases s.len(),
{
    if s.len() == 0 {
        Map::empty()
    } else {
        entries_map(s.drop_last()).insert(s.last().0@, s.last().1@)
    }
}

/// A verified in-memory dictionary with the store's observable semantics:
/// create-or-replace writes, last write wins, no delete. It stands in for
/// the remote store when exercising the pipeline.
#[derive(Debug)]
pub struct DictModel {
    entries: Vec<(String, String)>,
}

impl View for DictModel {
    type V = DictView;

    closed spec fn view(&self) -> DictView {
        entries_map(self.entries@)
    }
}

impl DictModel {
    /// An empty dictionary.
    pub fn new() -> (d: DictModel)
        ensures
            d@ == Map::<Seq<char>, Seq<char>>::empty(),
    {
        DictModel { entries: Vec::new() }
    }

    /// A create-or-replace write: afterwards the key holds exactly `value`
    /// and every other key is untouched.
    pub fn upsert(&mut self, key: String, value: String)
        ensures
            final(self)@ == upsert_effect(old(self)@, key@, value@),
    {
        proof {
            let appended = self.entries@.push((key, value));
            assert(appended.drop_last() =~= self.entries@);
        }
        self.entries.push((key, value));
    }

    /// The value a key currently holds, if any.
    pub fn get(&self, key: &String) -> (r: Option<&String>)
        ensures
            match r {
                Some(v) => self@.contains_key(key@) && self@[key@] == v@,
                None => !self@.contains_key(key@),
            },
    {
        let ghost s = self.entries@;
        let mut i = self.entries.len();
        proof {
            assert(s.take(i as int) =~= s);
        }
        while i > 0
            invariant
                i <= self.entries.len(),
                s == self.entries@,
                entries_map(s).contains_key(key@) == entries_map(s.take(i as int)).contains_key(
                    key@,
                ),
                entries_map(s).contains_key(key@) ==> entries_map(s)[key@] == entries_map(
                    s.take(i as int),
                )[key@],
            decreases i,
        {
            let j = i - 1;
            proof {
                assert(s.take(i as int).drop_last() =~= s.take(j as int));
                assert(s.take(i as int).last() == s[j as int]);
            }
            if self.entries[j].0 == *key {
                return Some(&self.entries[j].1);
            }
            i = j;
        }
        proof {
            assert(s.take(0) =~= Seq::<(String, String)>::empty());
        }
        None
    }
}

/// A fully addressed dictionary write: the target scope, the entry, and the
/// token that authenticates it, exactly the input of the dictionary service.
#[derive(Debug, Clone)]
pub struct UpsertRequest {
    pub service_id: String,
    pub dictionary_id: String,
    pub key: String,
    pub value: String,
    pub api_token: String,
}

/// Mathematical model of an `UpsertRequest`.
#[verifier::ext_equal]
pub struct UpsertRequestView {
    pub service_id: Seq<char>,
    pub dictionary_id: Seq<char>,
    pub key: Seq<char>,
    pub value: Seq<char>,
    pub api_token: Seq<char>,
}

impl View for UpsertRequest {
    type V = UpsertRequestView;

    open spec fn view(&self) -> UpsertRequestView {
        UpsertRequestView {
            service_id: self.service_id@,
            dictionary_id: self.dictionary_id@,
            key: self.key@,
            value: self.value@,
            api_token: self.api_token@,
        }
    }
}

/// The dictionary publisher: bound to one service, one dictionary and one
/// API token for the process lifetime.
#[derive(Debug)]
pub struct FastlyDict {
    service_id: String,
    dictionary_id: String,
    api_key: String,
}

/// Mathematical model of a `FastlyDict`.
#[verifier::ext_equal]
pub struct FastlyDictView {
    pub service_id: Seq<char>,
    pub dictionary_id: Seq<char>,
    pub api_key: Seq<char>,
}

impl View for FastlyDict {
    type V = FastlyDictView;

    closed spec fn view(&self) -> FastlyDictView {
        FastlyDictView {
            service_id: self.service_id@,
            dictionary_id: self.dictionary_id@,
            api_key: self.api_key@,
        }
    }
}

impl FastlyDict {
    /// Binds a publisher to its destination scope and API token.
    pub fn new(service_id: String, dictionary_id: String, api_key: String) -> (d: FastlyDict)
        ensures
            d@ == (FastlyDictView {
                service_id: service_id@,
                dictionary_id: dictionary_id@,
                api_key: api_key@,
            }),
    {
        FastlyDict { service_id, dictionary_id, api_key }
    }

    /// Addresses one create-or-replace write of `value` under `key` within
    /// the bound scope, authenticated by the bound token.
    pub fn upsert_request(&self, key: &str, value: &str) -> (r: UpsertRequest)
        ensures
            r@ == (UpsertRequestView {
                service_id: self@.service_id,
                dictionary_id: self@.dictionary_id,
                key: key@,
                value: value@,
                api_token: self@.api_key,
            }),
    {
        UpsertRequest {
            service_id: self.service_id.clone(),
            dictionary_id: self.dictionary_id.clone(),
            key: key.to_owned(),
            value: value.to_owned(),
            api_token: self.api_key.clone(),
        }
    }
}

} // verus!
