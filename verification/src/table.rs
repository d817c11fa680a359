//! Tables keyed by strings.
use vstd::hash_map::StringHashMap;
use vstd::prelude::*;

verus! {

/// One row of a table.
pub struct Row<V> {
    pub key: String,
    pub value: V,
}

/// `rows` lists the map `m`: each key stands in exactly one row, beside its value.
pub open spec fn lists<V>(rows: Seq<Row<V>>, m: Map<Seq<char>, V>) -> bool {
    &&& forall|i: int|
        #![trigger rows[i]]
        0 <= i < rows.len() ==> m.contains_key(rows[i].key@) && m[rows[i].key@] == rows[i].value
    &&& forall|i: int, j: int|
        #![trigger rows[i], rows[j]]
        0 <= i < j < rows.len() ==> rows[i].key@ != rows[j].key@
    &&& forall|k: Seq<char>| #[trigger]
        m.contains_key(k) ==> exists|i: int|
            #![trigger rows[i]]
            0 <= i < rows.len() && rows[i].key@ == k
}

/// A map from strings to values whose rows can be walked in the order in which their keys first
/// came in. The rows stand in a vector; a hash map holds the position of each key.
pub struct Table<V> {
    rows: Vec<Row<V>>,
    index: StringHashMap<usize>,
}

impl<V> View for Table<V> {
    type V = Map<Seq<char>, V>;

    closed spec fn view(&self) -> Map<Seq<char>, V> {
        Map::new(
            |k: Seq<char>| self.index@.contains_key(k),
            |k: Seq<char>| self.rows@[self.index@[k] as int].value,
        )
    }
}

impl<V> Table<V> {
    /// Each key stands in one row, and the index points to it.
    #[verifier::type_invariant]
    spec fn well_formed(self) -> bool {
        &&& forall|i: int|
            #![trigger self.rows@[i]]
            0 <= i < self.rows@.len() ==> self.index@.contains_key(self.rows@[i].key@)
                && self.index@[self.rows@[i].key@] == i
        &&& forall|k: Seq<char>| #[trigger]
            self.index@.contains_key(k) ==> self.index@[k] < self.rows@.len()
                && self.rows@[self.index@[k] as int].key@ == k
    }

    /// The rows in order.
    pub closed spec fn rows(&self) -> Seq<Row<V>> {
        self.rows@
    }

    /// An empty table.
    pub fn new() -> (r: Self)
        ensures
            r@ == Map::<Seq<char>, V>::empty(),
    {
        let r = Table { rows: Vec::new(), index: StringHashMap::new() };
        assert(r@ =~= Map::<Seq<char>, V>::empty());
        r
    }

    /// The value at `key`.
    pub fn get(&self, key: &str) -> (r: Option<&V>)
        ensures
            match r {
                Some(v) => self@.contains_key(key@) && *v == self@[key@],
                None => !self@.contains_key(key@),
            },
    {
        proof {
            use_type_invariant(self);
        }
        match self.index.get(key) {
            Some(i) => Some(&self.rows[*i].value),
            None => None,
        }
    }

    /// The number of keys.
    pub fn len(&self) -> (r: usize)
        ensures
            self@.dom().finite(),
            r == self@.len(),
            r == self.rows().len(),
            lists(self.rows(), self@),
    {
        proof {
            use_type_invariant(self);
            let keys = self.rows@.map_values(|row: Row<V>| row.key@);
            assert(keys.no_duplicates()) by {
                assert forall|i: int, j: int|
                    0 <= i < keys.len() && 0 <= j < keys.len() && i != j implies keys[i]
                    != keys[j] by {
                    assert(keys[i] == self.rows@[i].key@);
                    assert(keys[j] == self.rows@[j].key@);
                }
            }
            keys.unique_seq_to_set();
            assert(self@.dom() =~= keys.to_set()) by {
                assert forall|k: Seq<char>| self@.dom().contains(k) implies keys.to_set().contains(
                    k,
                ) by {
                    let i = self.index@[k] as int;
                    assert(keys[i] == k);
                }
                assert forall|k: Seq<char>| keys.to_set().contains(k) implies self@.dom().contains(
                    k,
                ) by {
                    let i = keys.index_of(k);
                    assert(self.rows@[i].key@ == k);
                }
            }
            assert forall|k: Seq<char>| #[trigger] self@.contains_key(k) implies exists|i: int|
                #![trigger self.rows@[i]]
                0 <= i < self.rows@.len() && self.rows@[i].key@ == k by {
                let i = self.index@[k] as int;
                assert(self.rows@[i].key@ == k);
            }
        }
        self.rows.len()
    }

    /// The row at position `i`.
    pub fn row(&self, i: usize) -> (r: &Row<V>)
        requires
            i < self.rows().len(),
        ensures
            *r == self.rows()[i as int],
    {
        &self.rows[i]
    }

    /// Sets the value at `key`.
    pub fn insert(&mut self, key: String, value: V)
        ensures
            final(self)@ == old(self)@.insert(key@, value),
    {
        proof {
            use_type_invariant(&*self);
        }
        let ghost before = *self;
        let mut whole: Table<V> = Table::new();
        std::mem::swap(self, &mut whole);
        let Table { mut rows, mut index } = whole;
        let at = match index.get(key.as_str()) {
            Some(i) => Some(*i),
            None => None,
        };
        match at {
            Some(i) => {
                rows.set(i, Row { key, value });
            },
            None => {
                index.insert(key.clone(), rows.len());
                rows.push(Row { key, value });
            },
        }
        *self = Table { rows, index };
        assert(self@ =~= before@.insert(key@, value));
    }
}

/// The value that was set last at a key is the one that stands there; other keys keep theirs.
pub proof fn law_tables_keep_the_last_value<V>(
    table: &mut Table<V>,
    key: String,
    value: V,
    at: &str,
    before: Option<&V>,
    after: Option<&V>,
)
    requires
        call_ensures(Table::<V>::get, (&*old(table), at), before),
        call_ensures(Table::<V>::insert, (table, key, value), ()),
        call_ensures(Table::<V>::get, (&*final(table), at), after),
    ensures
        at@ == key@ ==> (after matches Some(v) && *v == value),
        at@ != key@ ==> match (before, after) {
            (Some(a), Some(b)) => *a == *b,
            (None, None) => true,
            _ => false,
        },
{
}

/// A new table holds nothing.
pub proof fn law_new_tables_hold_nothing<V>(table: Table<V>, at: &str, r: Option<&V>)
    requires
        call_ensures(Table::<V>::new, (), table),
        call_ensures(Table::<V>::get, (&table, at), r),
    ensures
        r is None,
{
}

/// The rows of a table are its keys with their values, each once.
pub proof fn law_rows_are_the_keys_with_their_values<V>(
    table: &Table<V>,
    n: usize,
    i: usize,
    row: &Row<V>,
)
    requires
        call_ensures(Table::<V>::len, (table,), n),
        i < n,
        call_ensures(Table::<V>::row, (table, i), row),
    ensures
        n == table@.len(),
        table@.contains_key(row.key@),
        table@[row.key@] == row.value,
        forall|j: int| 0 <= j < n && j != i ==> (#[trigger] table.rows()[j]).key@ != row.key@,
        forall|k: Seq<char>| #[trigger]
            table@.contains_key(k) ==> exists|j: int|
                0 <= j < n && (#[trigger] table.rows()[j]).key@ == k,
{
    assert(table.rows()[i as int] == *row);
}

} // verus!
