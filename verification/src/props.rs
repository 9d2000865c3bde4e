//! The property list of an event: keys are unique and the last write wins.

use vstd::prelude::*;
use crate::value::{PropModel, PropValue};

verus! {

/// The entries of a property list: each a key with its value.
pub type Entries = Seq<(Seq<char>, PropModel)>;

/// True when some entry is stored under `key`.
pub open spec fn has_key(entries: Entries, key: Seq<char>) -> bool {
    exists|i: int| 0 <= i < entries.len() && (#[trigger] entries[i]).0 == key
}

/// Where `key` is stored. Meaningful only when [`has_key`] holds.
pub open spec fn index_of(entries: Entries, key: Seq<char>) -> int {
    choose|i: int| 0 <= i < entries.len() && (#[trigger] entries[i]).0 == key
}

/// No key occurs twice.
pub open spec fn distinct_keys(entries: Entries) -> bool {
    forall|i: int, j: int|
        0 <= i < j < entries.len() ==> (#[trigger] entries[i]).0 != (#[trigger] entries[j]).0
}

/// Writes `value` under `key`: an existing entry is overwritten in place, a
/// new key goes to the end.
pub open spec fn put(entries: Entries, key: Seq<char>, value: PropModel) -> Entries {
    if has_key(entries, key) {
        entries.update(index_of(entries, key), (key, value))
    } else {
        entries.push((key, value))
    }
}

/// Writes every entry of `extra` into `base`, first to last.
pub open spec fn merge(base: Entries, extra: Entries) -> Entries
    decreases extra.len(),
{
    if extra.len() == 0 {
        base
    } else {
        put(merge(base, extra.drop_last()), extra.last().0, extra.last().1)
    }
}

/// The entries as a mapping from key to value.
pub open spec fn as_map(entries: Entries) -> Map<Seq<char>, PropModel> {
    Map::new(|k: Seq<char>| has_key(entries, k), |k: Seq<char>| entries[index_of(entries, k)].1)
}

/// What a stored list stands for.
pub open spec fn model_of(stored: Seq<(String, PropValue)>) -> Entries {
    Seq::new(stored.len(), |i: int| (stored[i].0@, stored[i].1@))
}

/// Storing one more pair adds what it stands for at the end.
pub proof fn lemma_model_push(stored: Seq<(String, PropValue)>, pair: (String, PropValue))
    ensures
        model_of(stored.push(pair)) == model_of(stored).push((pair.0@, pair.1@)),
{
    assert(model_of(stored.push(pair)) =~= model_of(stored).push((pair.0@, pair.1@)));
}

/// With distinct keys, an index that holds `key` is the index of `key`.
pub proof fn lemma_index_of(entries: Entries, key: Seq<char>, i: int)
    requires
        distinct_keys(entries),
        0 <= i < entries.len(),
        entries[i].0 == key,
    ensures
        has_key(entries, key),
        index_of(entries, key) == i,
{
    let j = index_of(entries, key);
    assert(0 <= j < entries.len() && entries[j].0 == key);
    if j < i {
        assert(entries[j].0 != entries[i].0);
    } else if i < j {
        assert(entries[i].0 != entries[j].0);
    }
}

/// Writing one entry keeps the keys distinct and acts on the mapping as an
/// insertion.
pub proof fn lemma_put(entries: Entries, key: Seq<char>, value: PropModel)
    requires
        distinct_keys(entries),
    ensures
        distinct_keys(put(entries, key, value)),
        as_map(put(entries, key, value)) == as_map(entries).insert(key, value),
        has_key(entries, key) ==> put(entries, key, value).len() == entries.len(),
        !has_key(entries, key) ==> put(entries, key, value).len() == entries.len() + 1,
{
    let after = put(entries, key, value);
    let at = if has_key(entries, key) { index_of(entries, key) } else { entries.len() as int };
    assert(0 <= at < after.len() && after[at] == (key, value));
    assert forall|i: int| 0 <= i < after.len() && i != at implies
        #[trigger] after[i] == entries[i] && after[i].0 != key by {
        if has_key(entries, key) {
            if i < at {
                assert(entries[i].0 != entries[at].0);
            } else {
                assert(entries[at].0 != entries[i].0);
            }
        }
    }
    assert forall|i: int, j: int| 0 <= i < j < after.len() implies
        (#[trigger] after[i]).0 != (#[trigger] after[j]).0 by {
        if i != at && j != at {
            assert(entries[i].0 != entries[j].0);
        }
    }
    lemma_index_of(after, key, at);
    assert forall|k: Seq<char>| has_key(after, k) <==> (k == key || has_key(entries, k)) by {
        if has_key(after, k) {
            let i = index_of(after, k);
            if i != at {
                assert(entries[i].0 == k);
            }
        }
        if has_key(entries, k) && k != key {
            let i = index_of(entries, k);
            assert(after[i].0 == k);
        }
    }
    assert forall|k: Seq<char>| has_key(after, k) && k != key implies
        after[index_of(after, k)].1 == entries[index_of(entries, k)].1 by {
        let i = index_of(entries, k);
        assert(after[i] == entries[i]);
        lemma_index_of(after, k, i);
    }
    assert(as_map(after) =~= as_map(entries).insert(key, value));
}

/// Merging keeps the keys distinct and acts on the mappings as a union in
/// which the second operand wins.
pub proof fn lemma_merge(base: Entries, extra: Entries)
    requires
        distinct_keys(base),
    ensures
        distinct_keys(merge(base, extra)),
        distinct_keys(extra) ==> as_map(merge(base, extra)) == as_map(base).union_prefer_right(
            as_map(extra),
        ),
    decreases extra.len(),
{
    if extra.len() == 0 {
        assert(as_map(extra) =~= Map::<Seq<char>, PropModel>::empty());
        assert(as_map(base).union_prefer_right(as_map(extra)) =~= as_map(base));
    } else {
        let front = extra.drop_last();
        let last = extra.last();
        lemma_merge(base, front);
        lemma_put(merge(base, front), last.0, last.1);
        if distinct_keys(extra) {
            assert forall|i: int, j: int| 0 <= i < j < front.len() implies
                (#[trigger] front[i]).0 != (#[trigger] front[j]).0 by {
                assert(extra[i].0 != extra[j].0);
            }
            assert(!has_key(front, last.0)) by {
                if has_key(front, last.0) {
                    let i = index_of(front, last.0);
                    assert(extra[i].0 != extra[extra.len() - 1].0);
                }
            }
            assert(extra =~= put(front, last.0, last.1));
            lemma_put(front, last.0, last.1);
            assert(as_map(base).union_prefer_right(as_map(front)).insert(last.0, last.1)
                =~= as_map(base).union_prefer_right(as_map(front).insert(last.0, last.1)));
        }
    }
}

/// Writing under a key that is stored at `i` changes the entry at `i`.
pub proof fn lemma_put_at(entries: Entries, key: Seq<char>, value: PropModel, i: int)
    requires
        distinct_keys(entries),
        0 <= i < entries.len(),
        entries[i].0 == key,
    ensures
        put(entries, key, value) == entries.update(i, (key, value)),
{
    lemma_index_of(entries, key, i);
}

/// Of two writes under one key the second is the one that counts.
pub proof fn lemma_put_twice(entries: Entries, key: Seq<char>, first: PropModel, second: PropModel)
    requires
        distinct_keys(entries),
    ensures
        put(put(entries, key, first), key, second) == put(entries, key, second),
{
    let once = put(entries, key, first);
    lemma_put(entries, key, first);
    if has_key(entries, key) {
        let i = index_of(entries, key);
        lemma_put_at(once, key, second, i);
        assert(once.update(i, (key, second)) =~= entries.update(i, (key, second)));
    } else {
        let i = entries.len() as int;
        lemma_put_at(once, key, second, i);
        assert(once.update(i, (key, second)) =~= entries.push((key, second)));
    }
}

/// A write under a key that is stored already can change places with a write
/// under any other key.
pub proof fn lemma_put_commutes(
    entries: Entries,
    stored: Seq<char>,
    value: PropModel,
    other: Seq<char>,
    other_value: PropModel,
)
    requires
        distinct_keys(entries),
        has_key(entries, stored),
        stored != other,
    ensures
        put(put(entries, stored, value), other, other_value) == put(
            put(entries, other, other_value),
            stored,
            value,
        ),
{
    let i = index_of(entries, stored);
    let left = put(entries, stored, value);
    let right = put(entries, other, other_value);
    lemma_put(entries, stored, value);
    lemma_put(entries, other, other_value);
    lemma_put_at(entries, stored, value, i);
    if has_key(entries, other) {
        let j = index_of(entries, other);
        lemma_put_at(entries, other, other_value, j);
        assert(left[j].0 == other);
        lemma_put_at(left, other, other_value, j);
        assert(right[i].0 == stored);
        lemma_put_at(right, stored, value, i);
        assert(left.update(j, (other, other_value)) =~= right.update(i, (stored, value)));
    } else {
        assert(!has_key(left, other)) by {
            if has_key(left, other) {
                let j = index_of(left, other);
                assert(entries[j].0 == other);
            }
        }
        assert(right[i].0 == stored);
        lemma_put_at(right, stored, value, i);
        assert(left.push((other, other_value)) =~= right.update(i, (stored, value)));
    }
}

/// A key of either list is a key of the merged list.
pub proof fn lemma_merge_keys(base: Entries, extra: Entries, key: Seq<char>)
    requires
        distinct_keys(base),
        has_key(base, key) || has_key(extra, key),
    ensures
        has_key(merge(base, extra), key),
    decreases extra.len(),
{
    if extra.len() > 0 {
        let front = extra.drop_last();
        let last = extra.last();
        lemma_merge(base, front);
        lemma_put(merge(base, front), last.0, last.1);
        assert(as_map(merge(base, extra)).dom().contains(last.0));
        if last.0 != key {
            if has_key(extra, key) {
                let i = index_of(extra, key);
                assert(front[i].0 == key);
            }
            lemma_merge_keys(base, front, key);
            assert(as_map(merge(base, front)).dom().contains(key));
            assert(as_map(merge(base, extra)).dom().contains(key));
        }
    }
}

/// Merging a list in which one entry was overwritten is merging the list and
/// then writing that entry.
pub proof fn lemma_merge_update(base: Entries, extra: Entries, i: int, value: PropModel)
    requires
        distinct_keys(base),
        distinct_keys(extra),
        0 <= i < extra.len(),
    ensures
        merge(base, extra.update(i, (extra[i].0, value))) == put(
            merge(base, extra),
            extra[i].0,
            value,
        ),
    decreases extra.len(),
{
    let key = extra[i].0;
    let changed = extra.update(i, (key, value));
    let front = extra.drop_last();
    let last = extra.last();
    lemma_merge(base, front);
    if i == extra.len() - 1 {
        assert(changed.drop_last() =~= front);
        assert(changed.last() == (key, value));
        lemma_put_twice(merge(base, front), key, last.1, value);
    } else {
        assert forall|a: int, b: int| 0 <= a < b < front.len() implies (#[trigger] front[a]).0 != (
        #[trigger] front[b]).0 by {
            assert(extra[a].0 != extra[b].0);
        }
        assert(changed.drop_last() =~= front.update(i, (key, value)));
        assert(changed.last() == last);
        lemma_merge_update(base, front, i, value);
        assert(front[i].0 == key);
        lemma_merge_keys(base, front, key);
        assert(extra[i].0 != extra[extra.len() - 1].0);
        lemma_put_commutes(merge(base, front), key, value, last.0, last.1);
    }
}

/// Merging a list into which one entry was written is merging the list and
/// then writing that entry.
pub proof fn lemma_merge_put(base: Entries, extra: Entries, key: Seq<char>, value: PropModel)
    requires
        distinct_keys(base),
        distinct_keys(extra),
    ensures
        merge(base, put(extra, key, value)) == put(merge(base, extra), key, value),
{
    if has_key(extra, key) {
        let i = index_of(extra, key);
        lemma_merge_update(base, extra, i, value);
    } else {
        let longer = extra.push((key, value));
        assert(longer.drop_last() =~= extra);
        assert(longer.last() == (key, value));
    }
}

/// Merging in two steps is merging once with the two lists merged: the same
/// entries in the same order.
pub proof fn lemma_merge_in_steps(base: Entries, first: Entries, second: Entries)
    requires
        distinct_keys(base),
        distinct_keys(first),
    ensures
        merge(merge(base, first), second) == merge(base, merge(first, second)),
    decreases second.len(),
{
    if second.len() > 0 {
        let front = second.drop_last();
        let last = second.last();
        lemma_merge_in_steps(base, first, front);
        lemma_merge(first, front);
        lemma_merge_put(base, merge(first, front), last.0, last.1);
    }
}

/// Merging is biased to the right: the result holds the keys of both lists;
/// a key of `extra` has the value that `extra` gives it, whatever `base`
/// held, and every other key keeps the value it has in `base`.
pub proof fn lemma_merge_right_biased(base: Entries, extra: Entries, key: Seq<char>)
    requires
        distinct_keys(base),
        distinct_keys(extra),
    ensures
        has_key(merge(base, extra), key) <==> has_key(base, key) || has_key(extra, key),
        has_key(extra, key) ==> as_map(merge(base, extra))[key] == as_map(extra)[key],
        has_key(base, key) && !has_key(extra, key) ==> as_map(merge(base, extra))[key] == as_map(
            base,
        )[key],
{
    lemma_merge(base, extra);
    let merged = as_map(merge(base, extra));
    assert(merged.dom().contains(key) <==> has_key(merge(base, extra), key));
    assert(as_map(base).dom().contains(key) <==> has_key(base, key));
    assert(as_map(extra).dom().contains(key) <==> has_key(extra, key));
}

/// Merging two lists that share no key gives the same mapping in either
/// order.
pub proof fn lemma_merge_commutes_on_disjoint(left: Entries, right: Entries)
    requires
        distinct_keys(left),
        distinct_keys(right),
        forall|key: Seq<char>| !(has_key(left, key) && has_key(right, key)),
    ensures
        as_map(merge(left, right)) == as_map(merge(right, left)),
{
    lemma_merge(left, right);
    lemma_merge(right, left);
    assert forall|key: Seq<char>|
        !(as_map(left).dom().contains(key) && as_map(right).dom().contains(key)) by {
        assert(!(has_key(left, key) && has_key(right, key)));
    }
    assert(as_map(left).union_prefer_right(as_map(right)) =~= as_map(right).union_prefer_right(
        as_map(left),
    ));
}

/// The properties of one event, in the order in which their keys were first
/// written.
#[derive(Debug)]
pub struct Props {
    entries: Vec<(String, PropValue)>,
}

impl View for Props {
    type V = Entries;

    closed spec fn view(&self) -> Entries {
        model_of(self.entries@)
    }
}

impl Clone for Props {
    fn clone(&self) -> (copy: Props)
        ensures
            copy@ == self@,
            distinct_keys(copy@),
    {
        proof {
            use_type_invariant(self);
        }
        let mut entries: Vec<(String, PropValue)> = Vec::new();
        let mut i: usize = 0;
        while i < self.entries.len()
            invariant
                i <= self.entries.len(),
                model_of(entries@) == self@.take(i as int),
            decreases self.entries.len() - i,
        {
            let key = self.entries[i].0.clone();
            let value = self.entries[i].1.duplicate();
            proof {
                lemma_model_push(entries@, (key, value));
                assert(self@.take(i as int).push(self@[i as int]) =~= self@.take(i as int + 1));
            }
            entries.push((key, value));
            i += 1;
        }
        assert(self@.take(i as int) =~= self@);
        Props { entries }
    }
}

impl Props {
    /// No key is stored twice.
    #[verifier::type_invariant]
    pub closed spec fn well_formed(self) -> bool {
        distinct_keys(model_of(self.entries@))
    }

    /// The empty property list.
    pub fn new() -> (props: Props)
        ensures
            props@ == Entries::empty(),
    {
        let props = Props { entries: Vec::new() };
        assert(props@ =~= Entries::empty());
        props
    }

    /// How many keys are stored.
    pub fn len(&self) -> (n: usize)
        ensures
            n == self@.len(),
    {
        self.entries.len()
    }

    /// True when nothing is stored.
    pub fn is_empty(&self) -> (empty: bool)
        ensures
            empty == (self@.len() == 0),
    {
        self.entries.len() == 0
    }

    /// The key stored at position `i`.
    pub fn key_at(&self, i: usize) -> (key: &String)
        requires
            i < self@.len(),
        ensures
            key@ == self@[i as int].0,
    {
        &self.entries[i].0
    }

    /// The value stored at position `i`.
    pub fn value_at(&self, i: usize) -> (value: &PropValue)
        requires
            i < self@.len(),
        ensures
            value@ == self@[i as int].1,
    {
        &self.entries[i].1
    }

    /// The value stored under `key`, if there is one.
    pub fn get(&self, key: &str) -> (found: Option<&PropValue>)
        ensures
            found is Some <==> has_key(self@, key@),
            found matches Some(value) ==> value@ == as_map(self@)[key@],
    {
        proof {
            use_type_invariant(self);
        }
        let wanted = key.to_owned();
        let mut i: usize = 0;
        while i < self.entries.len()
            invariant
                i <= self.entries.len(),
                wanted@ == key@,
                distinct_keys(self@),
                forall|j: int| 0 <= j < i ==> (#[trigger] self@[j]).0 != key@,
            decreases self.entries.len() - i,
        {
            if self.entries[i].0 == wanted {
                proof {
                    lemma_index_of(self@, key@, i as int);
                }
                return Some(&self.entries[i].1);
            }
            i += 1;
        }
        None
    }

    /// Writes `value` under `key`. A value already stored under that key is
    /// replaced where it stands; a new key is added at the end.
    #[verifier::loop_isolation(false)]
    pub fn with(self, key: String, value: PropValue) -> (props: Props)
        ensures
            props@ == put(self@, key@, value@),
            as_map(props@) == as_map(self@).insert(key@, value@),
            distinct_keys(props@),
    {
        proof {
            use_type_invariant(&self);
            lemma_put(self@, key@, value@);
        }
        let ghost before = self@;
        let mut entries = self.entries;
        let mut i: usize = 0;
        while i < entries.len()
            invariant
                i <= entries.len(),
                model_of(entries@) == before,
                distinct_keys(before),
                forall|j: int| 0 <= j < i ==> (#[trigger] before[j]).0 != key@,
            decreases entries.len() - i,
        {
            if entries[i].0 == key {
                proof {
                    lemma_index_of(before, key@, i as int);
                }
                entries.set(i, (key, value));
                assert(model_of(entries@) =~= put(before, key@, value@));
                return Props { entries };
            }
            i += 1;
        }
        entries.push((key, value));
        assert(model_of(entries@) =~= put(before, key@, value@));
        Props { entries }
    }

    /// Writes every entry of `other` into this list, first to last: on a key
    /// that both hold, the value of `other` wins.
    pub fn merged(self, other: Props) -> (props: Props)
        ensures
            props@ == merge(self@, other@),
            as_map(props@) == as_map(self@).union_prefer_right(as_map(other@)),
            distinct_keys(props@),
    {
        proof {
            use_type_invariant(&self);
            use_type_invariant(&other);
            lemma_merge(self@, other@);
        }
        let ghost base = self@;
        let mut acc = self;
        let mut i: usize = 0;
        while i < other.entries.len()
            invariant
                i <= other.entries.len(),
                acc@ == merge(base, other@.take(i as int)),
            decreases other.entries.len() - i,
        {
            let key = other.entries[i].0.clone();
            let value = other.entries[i].1.duplicate();
            proof {
                let upto = other@.take(i as int + 1);
                assert(upto.drop_last() =~= other@.take(i as int));
                assert(upto.last() == other@[i as int]);
            }
            acc = acc.with(key, value);
            i += 1;
        }
        assert(other@.take(i as int) =~= other@);
        acc
    }

    /// The list that results from writing `pairs` in order into an empty
    /// list: of two pairs with one key, the later one stays.
    pub fn from_pairs(pairs: Vec<(String, PropValue)>) -> (props: Props)
        ensures
            props@ == merge(Seq::empty(), model_of(pairs@)),
            distinct_keys(props@),
    {
        let mut acc = Props::new();
        let mut i: usize = 0;
        while i < pairs.len()
            invariant
                i <= pairs.len(),
                acc@ == merge(Seq::empty(), model_of(pairs@).take(i as int)),
            decreases pairs.len() - i,
        {
            let key = pairs[i].0.clone();
            let value = pairs[i].1.duplicate();
            proof {
                let upto = model_of(pairs@).take(i as int + 1);
                assert(upto.drop_last() =~= model_of(pairs@).take(i as int));
                assert(upto.last() == model_of(pairs@)[i as int]);
            }
            acc = acc.with(key, value);
            i += 1;
        }
        assert(model_of(pairs@).take(i as int) =~= model_of(pairs@));
        proof {
            use_type_invariant(&acc);
        }
        acc
    }
}

} // verus!
