use vstd::prelude::*;
use crate::text::same_text;

verus! {

/// One property: a key and the text stored under it.
#[derive(Clone, Debug, PartialEq, Eq)]
pub struct Model {
    /// The key, which no two properties of a store share.
    pub k: String,
    /// The value.
    pub v: String,
}

/// The map that a list of properties stands for: later rows win.
pub open spec fn table_of(rows: Seq<Model>) -> Map<Seq<char>, Seq<char>>
    decreases rows.len(),
{
    if rows.len() == 0 {
        Map::empty()
    } else {
        table_of(rows.drop_last()).insert(rows.last().k@, rows.last().v@)
    }
}

/// Whether no two rows share a key.
pub open spec fn distinct_keys(rows: Seq<Model>) -> bool {
    forall|i: int, j: int| 0 <= i < j < rows.len() ==> rows[i].k@ != rows[j].k@
}

/// A flat store of texts under text keys, scoped to one download directory.
///
/// It records progress for diagnosis only: nothing that decides whether a
/// transfer resumes reads it.
#[derive(Clone, Debug, PartialEq, Eq)]
pub struct PropertyStore {
    rows: Vec<Model>,
}

impl View for PropertyStore {
    type V = Map<Seq<char>, Seq<char>>;

    closed spec fn view(&self) -> Map<Seq<char>, Seq<char>> {
        table_of(self.rows@)
    }
}

proof fn lemma_table_rows(rows: Seq<Model>, key: Seq<char>)
    requires
        distinct_keys(rows),
    ensures
        table_of(rows).contains_key(key) <==> exists|i: int| 0 <= i < rows.len() && rows[i].k@ == key,
        forall|i: int|
            0 <= i < rows.len() && rows[i].k@ == key ==> table_of(rows)[key] == (#[trigger] rows[i]).v@,
    decreases rows.len(),
{
    if rows.len() > 0 {
        let shorter = rows.drop_last();
        lemma_table_rows(shorter, key);
        if exists|i: int| 0 <= i < shorter.len() && shorter[i].k@ == key {
            let w = choose|i: int| 0 <= i < shorter.len() && shorter[i].k@ == key;
            assert(rows[w].k@ == key);
        }
        if exists|i: int| 0 <= i < rows.len() && rows[i].k@ == key {
            let w = choose|i: int| 0 <= i < rows.len() && rows[i].k@ == key;
            if w < shorter.len() {
                assert(shorter[w].k@ == key);
            }
        }
        assert forall|i: int| 0 <= i < rows.len() && rows[i].k@ == key implies table_of(rows)[key]
            == (#[trigger] rows[i]).v@ by {
            if i < shorter.len() {
                assert(shorter[i].k@ == key);
                assert(rows.last().k@ != key);
            }
        }
    }
}

proof fn lemma_table_update(rows: Seq<Model>, i: int, row: Model)
    requires
        distinct_keys(rows),
        0 <= i < rows.len(),
        rows[i].k@ == row.k@,
    ensures
        distinct_keys(rows.update(i, row)),
        table_of(rows.update(i, row)) == table_of(rows).insert(row.k@, row.v@),
    decreases rows.len(),
{
    let updated = rows.update(i, row);
    let shorter = rows.drop_last();
    if i == rows.len() - 1 {
        assert(updated.drop_last() =~= shorter);
        assert(table_of(updated) =~= table_of(rows).insert(row.k@, row.v@));
    } else {
        assert(distinct_keys(shorter));
        lemma_table_update(shorter, i, row);
        assert(updated.drop_last() =~= shorter.update(i, row));
        assert(updated.last() == rows.last());
        assert(rows.last().k@ != row.k@);
        assert(table_of(updated) =~= table_of(rows).insert(row.k@, row.v@));
    }
}

impl PropertyStore {
    /// Whether no two rows share a key.
    pub closed spec fn wf(&self) -> bool {
        distinct_keys(self.rows@)
    }

    /// A store that holds nothing.
    pub fn new() -> (store: PropertyStore)
        ensures
            store.wf(),
            store@ == Map::<Seq<char>, Seq<char>>::empty(),
    {
        PropertyStore { rows: Vec::new() }
    }

    /// The position of the row with the key `k`.
    fn find(&self, k: &str) -> (position: Option<usize>)
        ensures
            position is Some ==> position->0 < self.rows.len() && self.rows@[position->0 as int].k@
                == k@,
            position is None ==> forall|j: int| 0 <= j < self.rows.len() ==> self.rows@[j].k@ != k@,
    {
        let mut i: usize = 0;
        while i < self.rows.len()
            invariant
                0 <= i <= self.rows.len(),
                forall|j: int| 0 <= j < i ==> self.rows@[j].k@ != k@,
            decreases self.rows.len() - i,
        {
            if same_text(self.rows[i].k.as_str(), k) {
                return Some(i);
            }
            i = i + 1;
        }
        None
    }

    /// Reads the text stored under `k`; the empty text where there is none.
    pub fn load_property(&self, k: &str) -> (v: String)
        requires
            self.wf(),
        ensures
            v@ == if self@.contains_key(k@) {
                self@[k@]
            } else {
                Seq::<char>::empty()
            },
    {
        proof {
            lemma_table_rows(self.rows@, k@);
        }
        match self.find(k) {
            Some(i) => self.rows[i].v.clone(),
            None => String::new(),
        }
    }

    /// Stores `v` under `k`, in place of what was stored there before.
    pub fn save_property(&mut self, k: String, v: String)
        requires
            old(self).wf(),
        ensures
            final(self).wf(),
            final(self)@ == old(self)@.insert(k@, v@),
    {
        match self.find(k.as_str()) {
            Some(i) => {
                proof {
                    lemma_table_update(self.rows@, i as int, Model { k, v });
                }
                self.rows.set(i, Model { k, v });
            },
            None => {
                proof {
                    assert(self.rows@.push(Model { k, v }).drop_last() =~= self.rows@);
                }
                self.rows.push(Model { k, v });
            },
        }
    }

    /// The store that a list of properties stands for. Where two of them
    /// share a key, the later one counts.
    pub fn from_rows(rows: Vec<Model>) -> (store: PropertyStore)
        ensures
            store.wf(),
            store@ == table_of(rows@),
    {
        let mut store = PropertyStore::new();
        let mut i: usize = 0;
        while i < rows.len()
            invariant
                0 <= i <= rows.len(),
                store.wf(),
                store@ == table_of(rows@.subrange(0, i as int)),
            decreases rows.len() - i,
        {
            proof {
                let longer = rows@.subrange(0, i + 1);
                assert(longer.drop_last() =~= rows@.subrange(0, i as int));
                assert(longer.last() == rows@[i as int]);
            }
            store.save_property(rows[i].k.clone(), rows[i].v.clone());
            i = i + 1;
        }
        assert(rows@.subrange(0, i as int) =~= rows@);
        store
    }

    /// The properties of the store, one row for each key.
    pub fn rows(&self) -> (rows: &Vec<Model>)
        requires
            self.wf(),
        ensures
            distinct_keys(rows@),
            table_of(rows@) == self@,
    {
        &self.rows
    }
}

/// What was stored under a key is what is read under it, and storing under
/// one key changes nothing under another.
pub proof fn lemma_load_after_save(
    store: Map<Seq<char>, Seq<char>>,
    k: Seq<char>,
    v: Seq<char>,
    other: Seq<char>,
)
    requires
        other != k,
    ensures
        store.insert(k, v).contains_key(k),
        store.insert(k, v)[k] == v,
        store.insert(k, v).contains_key(other) == store.contains_key(other),
        store.contains_key(other) ==> store.insert(k, v)[other] == store[other],
{
}

} // verus!
