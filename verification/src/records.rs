//! Records by collection and identifier: what a graph holds of its nodes, and
//! of its edges.

use crate::json::json_object;
use crate::json::object_entries;
use crate::json::object_value;
use crate::json::SerializationError;
use crate::json::ToJson;
use vstd::prelude::*;

verus! {

/// The records of one collection, by identifier.
pub type Collection = Map<Seq<char>, serde_json::Value>;

/// The collections of records, by name.
pub type Collections = Map<Seq<char>, Map<Seq<char>, serde_json::Value>>;

/// The collection of the given name: empty where there is none yet.
pub open spec fn collection_of(records: Collections, collection: Seq<char>) -> Collection {
    if records.contains_key(collection) {
        records[collection]
    } else {
        Map::empty()
    }
}

/// The records after one record is put under an identifier in a collection:
/// the collection comes to be if it was not there, and the record takes the
/// place of the one that had the identifier, if there was one.
pub open spec fn put(
    records: Collections,
    collection: Seq<char>,
    id: Seq<char>,
    json: serde_json::Value,
) -> Collections {
    records.insert(collection, collection_of(records, collection).insert(id, json))
}

/// The record under an identifier in a collection, if there is one.
pub open spec fn lookup(records: Collections, collection: Seq<char>, id: Seq<char>) -> Option<
    serde_json::Value,
> {
    if records.contains_key(collection) && records[collection].contains_key(id) {
        Some(records[collection][id])
    } else {
        None
    }
}

/// The JSON object of each collection, under the name of the collection.
pub open spec fn collection_objects(records: Collections) -> Collection {
    Map::new(
        |name: Seq<char>| records.contains_key(name),
        |name: Seq<char>| json_object(records[name]),
    )
}

/// The JSON object of the collections: one object for each collection, under
/// its name, with each record under its identifier.
pub open spec fn collections_object(records: Collections) -> serde_json::Value {
    json_object(collection_objects(records))
}

/// The map that a sequence of keyed values stands for: a later value takes
/// the place of an earlier one with the same key.
spec fn keyed<V>(pairs: Seq<(Seq<char>, V)>) -> Map<Seq<char>, V>
    decreases pairs.len(),
{
    if pairs.len() == 0 {
        Map::empty()
    } else {
        keyed(pairs.drop_last()).insert(pairs.last().0, pairs.last().1)
    }
}

/// No key occurs twice.
spec fn distinct<V>(pairs: Seq<(Seq<char>, V)>) -> bool {
    forall|i: int, j: int| 0 <= i < j < pairs.len() ==> pairs[i].0 != pairs[j].0
}

proof fn lemma_keyed_push<V>(pairs: Seq<(Seq<char>, V)>, pair: (Seq<char>, V))
    ensures
        keyed(pairs.push(pair)) == keyed(pairs).insert(pair.0, pair.1),
{
    assert(pairs.push(pair).drop_last() =~= pairs);
}

proof fn lemma_keyed_dom<V>(pairs: Seq<(Seq<char>, V)>, key: Seq<char>)
    ensures
        keyed(pairs).contains_key(key) <==> exists|i: int|
            0 <= i < pairs.len() && (#[trigger] pairs[i]).0 == key,
    decreases pairs.len(),
{
    if pairs.len() > 0 {
        let front = pairs.drop_last();
        lemma_keyed_dom(front, key);
        if keyed(pairs).contains_key(key) {
            if pairs.last().0 == key {
                assert(pairs[pairs.len() - 1].0 == key);
            } else {
                let i = choose|i: int| 0 <= i < front.len() && (#[trigger] front[i]).0 == key;
                assert(pairs[i].0 == key);
            }
        }
        if exists|i: int| 0 <= i < pairs.len() && (#[trigger] pairs[i]).0 == key {
            let i = choose|i: int| 0 <= i < pairs.len() && (#[trigger] pairs[i]).0 == key;
            if i < pairs.len() - 1 {
                assert(front[i].0 == key);
            }
        }
    }
}

proof fn lemma_keyed_at<V>(pairs: Seq<(Seq<char>, V)>, at: int)
    requires
        distinct(pairs),
        0 <= at < pairs.len(),
    ensures
        keyed(pairs).contains_key(pairs[at].0),
        keyed(pairs)[pairs[at].0] == pairs[at].1,
    decreases pairs.len(),
{
    if at < pairs.len() - 1 {
        let front = pairs.drop_last();
        assert(front[at] == pairs[at]);
        assert(distinct(front)) by {
            assert forall|i: int, j: int| 0 <= i < j < front.len() implies front[i].0
                != front[j].0 by {
                assert(front[i] == pairs[i]);
                assert(front[j] == pairs[j]);
            }
        }
        lemma_keyed_at(front, at);
        assert(pairs[pairs.len() - 1].0 != pairs[at].0);
    }
}

proof fn lemma_keyed_update<V>(pairs: Seq<(Seq<char>, V)>, at: int, value: V)
    requires
        distinct(pairs),
        0 <= at < pairs.len(),
    ensures
        distinct(pairs.update(at, (pairs[at].0, value))),
        keyed(pairs.update(at, (pairs[at].0, value))) == keyed(pairs).insert(pairs[at].0, value),
    decreases pairs.len(),
{
    let key = pairs[at].0;
    let after = pairs.update(at, (key, value));
    assert(distinct(after)) by {
        assert forall|i: int, j: int| 0 <= i < j < after.len() implies after[i].0
            != after[j].0 by {
            assert(after[i].0 == pairs[i].0);
            assert(after[j].0 == pairs[j].0);
        }
    }
    let front = pairs.drop_last();
    if at == pairs.len() - 1 {
        assert(after.drop_last() =~= front);
        assert(keyed(after) =~= keyed(pairs).insert(key, value));
    } else {
        assert(front[at] == pairs[at]);
        assert(distinct(front)) by {
            assert forall|i: int, j: int| 0 <= i < j < front.len() implies front[i].0
                != front[j].0 by {
                assert(front[i] == pairs[i]);
                assert(front[j] == pairs[j]);
            }
        }
        lemma_keyed_update(front, at, value);
        assert(after.drop_last() =~= front.update(at, (key, value)));
        assert(after.last() == pairs.last());
        assert(pairs[pairs.len() - 1].0 != key);
        assert(keyed(after) =~= keyed(pairs).insert(key, value));
    }
}

/// One record of a collection.
struct Entry {
    id: String,
    json: serde_json::Value,
}

/// One collection: its name and its records, no identifier twice.
struct Bucket {
    name: String,
    entries: Vec<Entry>,
}

spec fn entry_pairs(entries: Seq<Entry>) -> Seq<(Seq<char>, serde_json::Value)> {
    Seq::new(entries.len(), |i: int| (entries[i].id@, entries[i].json))
}

spec fn bucket_map(bucket: Bucket) -> Collection {
    keyed(entry_pairs(bucket.entries@))
}

spec fn bucket_pairs(buckets: Seq<Bucket>) -> Seq<(Seq<char>, Collection)> {
    Seq::new(buckets.len(), |i: int| (buckets[i].name@, bucket_map(buckets[i])))
}

spec fn buckets_wf(buckets: Seq<Bucket>) -> bool {
    &&& distinct(bucket_pairs(buckets))
    &&& forall|i: int|
        0 <= i < buckets.len() ==> distinct(entry_pairs((#[trigger] buckets[i]).entries@))
}

/// Records by collection and by identifier.
///
/// A collection comes to be with its first record. Nothing is ever taken out.
pub struct Records {
    buckets: Vec<Bucket>,
}

impl View for Records {
    type V = Map<Seq<char>, Map<Seq<char>, serde_json::Value>>;

    closed spec fn view(&self) -> Map<Seq<char>, Map<Seq<char>, serde_json::Value>> {
        keyed(bucket_pairs(self.buckets@))
    }
}

/// Finds the entry with the given identifier.
fn find_entry(entries: &Vec<Entry>, id: &String) -> (found: Option<usize>)
    ensures
        match found {
            Some(at) => at < entries.len() && entries[at as int].id@ == id@,
            None => forall|i: int| 0 <= i < entries.len() ==> entries[i].id@ != id@,
        },
{
    let mut i: usize = 0;
    while i < entries.len()
        invariant
            i <= entries.len(),
            forall|k: int| 0 <= k < i ==> entries[k].id@ != id@,
        decreases entries.len() - i,
    {
        if entries[i].id == *id {
            return Some(i);
        }
        i = i + 1;
    }
    None
}

/// Finds the bucket with the given name.
fn find_bucket(buckets: &Vec<Bucket>, name: &String) -> (found: Option<usize>)
    ensures
        match found {
            Some(at) => at < buckets.len() && buckets[at as int].name@ == name@,
            None => forall|i: int| 0 <= i < buckets.len() ==> buckets[i].name@ != name@,
        },
{
    let mut i: usize = 0;
    while i < buckets.len()
        invariant
            i <= buckets.len(),
            forall|k: int| 0 <= k < i ==> buckets[k].name@ != name@,
        decreases buckets.len() - i,
    {
        if buckets[i].name == *name {
            return Some(i);
        }
        i = i + 1;
    }
    None
}

/// Puts a record into a bucket, in place of the one with its identifier if
/// there is one.
fn put_entry(bucket: &mut Bucket, id: String, json: serde_json::Value)
    requires
        distinct(entry_pairs(old(bucket).entries@)),
    ensures
        distinct(entry_pairs(final(bucket).entries@)),
        final(bucket).name == old(bucket).name,
        bucket_map(*final(bucket)) == bucket_map(*old(bucket)).insert(id@, json),
{
    let ghost before = entry_pairs(bucket.entries@);
    match find_entry(&bucket.entries, &id) {
        Some(at) => {
            bucket.entries[at].json = json;
            proof {
                lemma_keyed_update(before, at as int, json);
                assert(entry_pairs(bucket.entries@) =~= before.update(at as int, (id@, json)));
            }
        },
        None => {
            bucket.entries.push(Entry { id, json });
            proof {
                lemma_keyed_push(before, (id@, json));
                assert(entry_pairs(bucket.entries@) =~= before.push((id@, json)));
                assert forall|i: int, j: int|
                    0 <= i < j < before.push((id@, json)).len() implies before.push(
                    (id@, json),
                )[i].0 != before.push((id@, json))[j].0 by {
                    if j < before.len() {
                        assert(before[i].0 != before[j].0);
                    } else {
                        assert(before[i].0 == old(bucket).entries[i].id@);
                    }
                }
            }
        },
    }
}

/// Builds the JSON object of a bucket.
fn bucket_object(bucket: &Bucket) -> (value: serde_json::Value)
    ensures
        value == json_object(bucket_map(*bucket)),
{
    let ghost pairs = entry_pairs(bucket.entries@);
    let mut object = serde_json::Map::new();
    let mut i: usize = 0;
    assert(pairs.take(0) =~= Seq::empty());
    while i < bucket.entries.len()
        invariant
            i <= bucket.entries.len(),
            pairs == entry_pairs(bucket.entries@),
            object_entries(object) == keyed(pairs.take(i as int)),
        decreases bucket.entries.len() - i,
    {
        let entry = &bucket.entries[i];
        proof {
            lemma_keyed_push(pairs.take(i as int), pairs[i as int]);
            assert(pairs.take(i as int + 1) =~= pairs.take(i as int).push(pairs[i as int]));
        }
        object.insert(entry.id.clone(), entry.json.clone());
        i = i + 1;
    }
    assert(pairs.take(i as int) =~= pairs);
    object_value(object)
}

impl ToJson for Records {
    /// The object of the collections. It never fails.
    open spec fn json(&self) -> Result<serde_json::Value, Seq<char>> {
        Ok(collections_object(self@))
    }

    fn to_json(&self) -> (result: Result<serde_json::Value, SerializationError>) {
        let ghost pairs = bucket_pairs(self.buckets@);
        let mut object = serde_json::Map::new();
        let mut i: usize = 0;
        assert(pairs.take(0) =~= Seq::empty());
        assert(object_entries(object) =~= collection_objects(keyed(pairs.take(0))));
        while i < self.buckets.len()
            invariant
                i <= self.buckets.len(),
                pairs == bucket_pairs(self.buckets@),
                object_entries(object) == collection_objects(keyed(pairs.take(i as int))),
            decreases self.buckets.len() - i,
        {
            let bucket = &self.buckets[i];
            let value = bucket_object(bucket);
            proof {
                let front = pairs.take(i as int);
                lemma_keyed_push(front, pairs[i as int]);
                assert(pairs.take(i as int + 1) =~= front.push(pairs[i as int]));
                assert(collection_objects(keyed(front).insert(pairs[i as int].0, pairs[i as int].1))
                    =~= collection_objects(keyed(front)).insert(bucket.name@, value));
            }
            object.insert(bucket.name.clone(), value);
            i = i + 1;
        }
        assert(pairs.take(i as int) =~= pairs);
        Ok(object_value(object))
    }
}

impl Records {
    #[verifier::type_invariant]
    spec fn well_formed(&self) -> bool {
        buckets_wf(self.buckets@)
    }

    /// Records without any collection.
    pub fn new() -> (records: Records)
        ensures
            records@ == Map::<Seq<char>, Map<Seq<char>, serde_json::Value>>::empty(),
    {
        let records = Records { buckets: Vec::new() };
        assert(bucket_pairs(records.buckets@) =~= Seq::empty());
        records
    }

    /// Puts a record under an identifier in a collection.
    ///
    /// The collection comes to be if it was not there. A record that had the
    /// identifier in the collection is replaced: the last one put stays.
    pub fn insert(&mut self, collection: String, id: String, json: serde_json::Value)
        ensures
            final(self)@ == put(old(self)@, collection@, id@, json),
    {
        proof {
            use_type_invariant(&*self);
        }
        let mut buckets: Vec<Bucket> = Vec::new();
        std::mem::swap(&mut buckets, &mut self.buckets);
        let ghost before = buckets@;
        let ghost pairs = bucket_pairs(before);
        proof {
            lemma_keyed_dom(pairs, collection@);
        }
        match find_bucket(&buckets, &collection) {
            Some(at) => {
                put_entry(&mut buckets[at], id, json);
                proof {
                    let updated = bucket_map(before[at as int]).insert(id@, json);
                    lemma_keyed_at(pairs, at as int);
                    lemma_keyed_update(pairs, at as int, updated);
                    assert(bucket_pairs(buckets@) =~= pairs.update(
                        at as int,
                        (collection@, updated),
                    ));
                    assert(pairs[at as int].0 == collection@);
                    assert(buckets_wf(buckets@));
                }
            },
            None => {
                let mut entries: Vec<Entry> = Vec::new();
                entries.push(Entry { id, json });
                let bucket = Bucket { name: collection, entries };
                proof {
                    let first = entry_pairs(bucket.entries@);
                    assert(first =~= Seq::empty().push((id@, json)));
                    lemma_keyed_push(Seq::empty(), (id@, json));
                    assert(keyed(Seq::<(Seq<char>, serde_json::Value)>::empty()) == Map::<
                        Seq<char>,
                        serde_json::Value,
                    >::empty());
                    assert(bucket_map(bucket) == Map::<Seq<char>, serde_json::Value>::empty().insert(
                        id@,
                        json,
                    ));
                    assert(!keyed(pairs).contains_key(collection@)) by {
                        if keyed(pairs).contains_key(collection@) {
                            let i = choose|i: int|
                                0 <= i < pairs.len() && (#[trigger] pairs[i]).0 == collection@;
                            assert(before[i].name@ == collection@);
                        }
                    }
                    lemma_keyed_push(pairs, (collection@, bucket_map(bucket)));
                }
                buckets.push(bucket);
                proof {
                    let added = (collection@, bucket_map(bucket));
                    assert(bucket_pairs(buckets@) =~= pairs.push(added));
                    assert forall|i: int, j: int|
                        0 <= i < j < pairs.push(added).len() implies pairs.push(added)[i].0
                        != pairs.push(added)[j].0 by {
                        if j < pairs.len() {
                            assert(pairs[i].0 != pairs[j].0);
                        } else {
                            assert(pairs[i].0 == before[i].name@);
                        }
                    }
                    assert(buckets_wf(buckets@));
                }
            },
        }
        self.buckets = buckets;
    }

    /// Returns the record under an identifier in a collection, if there is
    /// one.
    pub fn get(&self, collection: &str, id: &str) -> (found: Option<&serde_json::Value>)
        ensures
            match found {
                Some(json) => lookup(self@, collection@, id@) == Some(*json),
                None => lookup(self@, collection@, id@) is None,
            },
    {
        proof {
            use_type_invariant(self);
            lemma_keyed_dom(bucket_pairs(self.buckets@), collection@);
        }
        let name = collection.to_owned();
        let key = id.to_owned();
        match find_bucket(&self.buckets, &name) {
            None => {
                proof {
                    let pairs = bucket_pairs(self.buckets@);
                    if keyed(pairs).contains_key(collection@) {
                        let i = choose|i: int|
                            0 <= i < pairs.len() && (#[trigger] pairs[i]).0 == collection@;
                        assert(self.buckets[i].name@ == collection@);
                    }
                }
                None
            },
            Some(at) => {
                let bucket = &self.buckets[at];
                proof {
                    let pairs = bucket_pairs(self.buckets@);
                    assert(pairs[at as int].0 == collection@);
                    lemma_keyed_at(pairs, at as int);
                    lemma_keyed_dom(entry_pairs(bucket.entries@), id@);
                }
                match find_entry(&bucket.entries, &key) {
                    None => {
                        proof {
                            let inner = entry_pairs(bucket.entries@);
                            if keyed(inner).contains_key(id@) {
                                let i = choose|i: int|
                                    0 <= i < inner.len() && (#[trigger] inner[i]).0 == id@;
                                assert(bucket.entries[i].id@ == id@);
                            }
                        }
                        None
                    },
                    Some(j) => {
                        proof {
                            let inner = entry_pairs(bucket.entries@);
                            assert(inner[j as int] == (id@, bucket.entries[j as int].json));
                            lemma_keyed_at(inner, j as int);
                        }
                        Some(&bucket.entries[j].json)
                    },
                }
            },
        }
    }

    /// Returns the names of the collections, each once.
    pub fn collections(&self) -> (names: Vec<String>)
        ensures
            forall|i: int, j: int| 0 <= i < j < names.len() ==> names[i]@ != names[j]@,
            forall|name: Seq<char>|
                self@.contains_key(name) <==> exists|i: int|
                    0 <= i < names.len() && (#[trigger] names[i])@ == name,
    {
        proof {
            use_type_invariant(self);
        }
        let mut names: Vec<String> = Vec::new();
        let mut i: usize = 0;
        while i < self.buckets.len()
            invariant
                i <= self.buckets.len(),
                names.len() == i,
                forall|k: int| 0 <= k < i ==> names[k]@ == self.buckets[k].name@,
            decreases self.buckets.len() - i,
        {
            names.push(self.buckets[i].name.clone());
            i = i + 1;
        }
        proof {
            let pairs = bucket_pairs(self.buckets@);
            assert forall|a: int, b: int| 0 <= a < b < names.len() implies names[a]@
                != names[b]@ by {
                assert(pairs[a].0 != pairs[b].0);
            }
            assert forall|name: Seq<char>|
                self@.contains_key(name) <==> exists|k: int|
                    0 <= k < names.len() && (#[trigger] names[k])@ == name by {
                lemma_keyed_dom(pairs, name);
                if self@.contains_key(name) {
                    let k = choose|k: int| 0 <= k < pairs.len() && (#[trigger] pairs[k]).0 == name;
                    assert(names[k]@ == name);
                }
                if exists|k: int| 0 <= k < names.len() && (#[trigger] names[k])@ == name {
                    let k = choose|k: int| 0 <= k < names.len() && (#[trigger] names[k])@ == name;
                    assert(pairs[k].0 == name);
                }
            }
        }
        names
    }

    /// Returns the identifiers of the records of a collection, each once:
    /// none where the collection is not there.
    pub fn ids(&self, collection: &str) -> (ids: Vec<String>)
        ensures
            forall|i: int, j: int| 0 <= i < j < ids.len() ==> ids[i]@ != ids[j]@,
            forall|id: Seq<char>|
                lookup(self@, collection@, id) is Some <==> exists|i: int|
                    0 <= i < ids.len() && (#[trigger] ids[i])@ == id,
    {
        proof {
            use_type_invariant(self);
            lemma_keyed_dom(bucket_pairs(self.buckets@), collection@);
        }
        let name = collection.to_owned();
        let mut ids: Vec<String> = Vec::new();
        match find_bucket(&self.buckets, &name) {
            None => {
                proof {
                    let pairs = bucket_pairs(self.buckets@);
                    if keyed(pairs).contains_key(collection@) {
                        let i = choose|i: int|
                            0 <= i < pairs.len() && (#[trigger] pairs[i]).0 == collection@;
                        assert(self.buckets[i].name@ == collection@);
                    }
                }
            },
            Some(at) => {
                let bucket = &self.buckets[at];
                let mut i: usize = 0;
                while i < bucket.entries.len()
                    invariant
                        i <= bucket.entries.len(),
                        ids.len() == i,
                        forall|k: int| 0 <= k < i ==> ids[k]@ == bucket.entries[k].id@,
                    decreases bucket.entries.len() - i,
                {
                    ids.push(bucket.entries[i].id.clone());
                    i = i + 1;
                }
                proof {
                    let pairs = bucket_pairs(self.buckets@);
                    let inner = entry_pairs(bucket.entries@);
                    assert(pairs[at as int].0 == collection@);
                    lemma_keyed_at(pairs, at as int);
                    assert forall|a: int, b: int| 0 <= a < b < ids.len() implies ids[a]@
                        != ids[b]@ by {
                        assert(inner[a].0 != inner[b].0);
                    }
                    assert forall|id: Seq<char>|
                        lookup(self@, collection@, id) is Some <==> exists|k: int|
                            0 <= k < ids.len() && (#[trigger] ids[k])@ == id by {
                        lemma_keyed_dom(inner, id);
                        if lookup(self@, collection@, id) is Some {
                            let k = choose|k: int|
                                0 <= k < inner.len() && (#[trigger] inner[k]).0 == id;
                            assert(ids[k]@ == id);
                        }
                        if exists|k: int| 0 <= k < ids.len() && (#[trigger] ids[k])@ == id {
                            let k = choose|k: int|
                                0 <= k < ids.len() && (#[trigger] ids[k])@ == id;
                            assert(inner[k].0 == id);
                        }
                    }
                }
            },
        }
        ids
    }
}

} // verus!
