use crate::db_record::{DbRecord, DbRecordV};
use vstd::prelude::*;

verus! {

/// Mathematical model of one store entry.
pub ghost struct DbEntryV {
    pub host_id: Seq<char>,
    pub record: DbRecordV,
}

/// One store entry: a host identifier and everything kept for that host.
#[derive(Debug)]
pub struct DbEntry {
    pub host_id: String,
    pub record: DbRecord,
}

impl View for DbEntry {
    type V = DbEntryV;

    open spec fn view(&self) -> DbEntryV {
        DbEntryV { host_id: self.host_id@, record: self.record@ }
    }
}

/// No two entries share a host identifier.
pub open spec fn entries_unique(es: Seq<DbEntryV>) -> bool {
    forall|i: int, j: int|
        0 <= i < j < es.len() ==> (#[trigger] es[i]).host_id != (#[trigger] es[j]).host_id
}

/// The mapping an entry sequence denotes: later entries win (with unique
/// keys, the only entry for each host).
pub open spec fn assoc_map(es: Seq<DbEntryV>) -> Map<Seq<char>, DbRecordV>
    decreases es.len(),
{
    if es.len() == 0 {
        Map::empty()
    } else {
        assoc_map(es.drop_last()).insert(es.last().host_id, es.last().record)
    }
}

pub proof fn lemma_assoc_contains(es: Seq<DbEntryV>, k: Seq<char>)
    ensures
        assoc_map(es).contains_key(k) <==> exists|i: int|
            0 <= i < es.len() && (#[trigger] es[i]).host_id == k,
    decreases es.len(),
{
    if es.len() > 0 {
        let prefix = es.drop_last();
        lemma_assoc_contains(prefix, k);
        assert(forall|i: int| 0 <= i < prefix.len() ==> #[trigger] prefix[i] == es[i]);
        if es.last().host_id == k {
            assert(es[es.len() - 1].host_id == k);
        } else {
            if exists|i: int| 0 <= i < es.len() && (#[trigger] es[i]).host_id == k {
                let i = choose|i: int| 0 <= i < es.len() && (#[trigger] es[i]).host_id == k;
                assert(i < es.len() - 1);
                assert(prefix[i].host_id == k);
            }
        }
    }
}

pub proof fn lemma_assoc_value(es: Seq<DbEntryV>, j: int)
    requires
        entries_unique(es),
        0 <= j < es.len(),
    ensures
        assoc_map(es).contains_key(es[j].host_id),
        assoc_map(es)[es[j].host_id] == es[j].record,
    decreases es.len(),
{
    let prefix = es.drop_last();
    if j == es.len() - 1 {
    } else {
        assert(forall|i: int| 0 <= i < prefix.len() ==> #[trigger] prefix[i] == es[i]);
        assert(entries_unique(prefix));
        lemma_assoc_value(prefix, j);
        assert(es.last().host_id != es[j].host_id);
    }
}

proof fn lemma_unique_drop_last(es: Seq<DbEntryV>)
    requires
        entries_unique(es),
        es.len() > 0,
    ensures
        entries_unique(es.drop_last()),
{
    let prefix = es.drop_last();
    assert(forall|i: int| 0 <= i < prefix.len() ==> #[trigger] prefix[i] == es[i]);
}

pub proof fn lemma_assoc_remove(es: Seq<DbEntryV>, j: int)
    requires
        entries_unique(es),
        0 <= j < es.len(),
    ensures
        entries_unique(es.remove(j)),
        forall|i: int|
            0 <= i < es.remove(j).len() ==> (#[trigger] es.remove(j)[i]).host_id != es[j].host_id,
        assoc_map(es.remove(j)) == assoc_map(es).remove(es[j].host_id),
    decreases es.len(),
{
    let k = es[j].host_id;
    let f = es.remove(j);
    assert(forall|i: int| 0 <= i < j ==> #[trigger] f[i] == es[i]);
    assert(forall|i: int| j <= i < f.len() ==> #[trigger] f[i] == es[i + 1]);
    assert(entries_unique(f));
    assert(forall|i: int| 0 <= i < f.len() ==> (#[trigger] f[i]).host_id != k);
    if j == es.len() - 1 {
        assert(f =~= es.drop_last());
        lemma_assoc_contains(es.drop_last(), k);
        assert(forall|i: int|
            0 <= i < es.drop_last().len() ==> #[trigger] es.drop_last()[i] == es[i]);
        assert(!assoc_map(es.drop_last()).contains_key(k));
        assert(assoc_map(f) =~= assoc_map(es).remove(k));
    } else {
        let prefix = es.drop_last();
        lemma_unique_drop_last(es);
        assert(forall|i: int| 0 <= i < prefix.len() ==> #[trigger] prefix[i] == es[i]);
        lemma_assoc_remove(prefix, j);
        assert(f.drop_last() =~= prefix.remove(j));
        assert(f.len() == es.len() - 1);
        assert(f.last() == es.last());
        assert(es.last().host_id != k);
        assert(assoc_map(f) == assoc_map(prefix.remove(j)).insert(
            es.last().host_id,
            es.last().record,
        ));
        assert(assoc_map(f) =~= assoc_map(es).remove(k));
    }
}

/// Relies on str's equality: two string slices are equal exactly when
/// their character sequences are.
#[verifier::external_body]
pub(crate) fn str_eq(a: &str, b: &str) -> (r: bool)
    ensures
        r == (a@ == b@),
{
    a == b
}

/// The process-resident store: a mapping from host identifier to that
/// host's record, plus the directory its snapshot lives in.  The entry
/// sequence never holds two entries for one host.
#[derive(Debug)]
pub struct Db {
    database: Vec<DbEntry>,
    data_dir: String,
}

impl Db {
    /// The entry sequence, in storage order.
    pub closed spec fn entries_view(&self) -> Seq<DbEntryV> {
        self.database@.map_values(|e: DbEntry| e@)
    }

    pub closed spec fn data_dir_view(&self) -> Seq<char> {
        self.data_dir@
    }

    /// The store's invariant: host identifiers are unique.
    pub open spec fn inv(&self) -> bool {
        entries_unique(self.entries_view())
    }

    /// The mapping the store denotes.
    pub open spec fn map_view(&self) -> Map<Seq<char>, DbRecordV> {
        assoc_map(self.entries_view())
    }

    pub fn new(data_dir: String) -> (r: Db)
        ensures
            r.inv(),
            r.map_view() == Map::<Seq<char>, DbRecordV>::empty(),
            r.entries_view().len() == 0,
            r.data_dir_view() == data_dir@,
    {
        let r = Db { database: Vec::new(), data_dir };
        proof {
            assert(r.entries_view() =~= Seq::<DbEntryV>::empty());
        }
        r
    }

    pub fn data_dir(&self) -> (r: &String)
        ensures
            r@ == self.data_dir_view(),
    {
        &self.data_dir
    }

    /// Read-only access to the entries, for snapshot encoding.
    pub fn entries(&self) -> (r: &Vec<DbEntry>)
        ensures
            r@.map_values(|e: DbEntry| e@) == self.entries_view(),
            r@.len() == self.entries_view().len(),
            forall|i: int| 0 <= i < r@.len() ==> (#[trigger] r@[i])@ == self.entries_view()[i],
    {
        &self.database
    }

    /// Replaces the whole entry sequence, as restoring a snapshot does.
    pub fn replace_entries(&mut self, entries: Vec<DbEntry>)
        requires
            entries_unique(entries@.map_values(|e: DbEntry| e@)),
        ensures
            final(self).inv(),
            final(self).entries_view() == entries@.map_values(|e: DbEntry| e@),
            final(self).data_dir_view() == old(self).data_dir_view(),
    {
        self.database = entries;
    }

    fn find_index(&self, key: &str) -> (r: Option<usize>)
        ensures
            match r {
                Some(j) => j < self.entries_view().len() && self.entries_view()[j as int].host_id
                    == key@,
                None => forall|i: int|
                    0 <= i < self.entries_view().len() ==> (#[trigger] self.entries_view()[i]).host_id
                        != key@,
            },
    {
        let mut j: usize = 0;
        while j < self.database.len()
            invariant
                j <= self.database.len(),
                forall|i: int|
                    0 <= i < j ==> (#[trigger] self.entries_view()[i]).host_id != key@,
            decreases self.database.len() - j,
        {
            if str_eq(self.database[j].host_id.as_str(), key) {
                return Some(j);
            }
            j += 1;
        }
        None
    }

    /// Looks a host up: `Some` exactly when the store knows the host, and
    /// then the record the store's mapping gives it.
    pub fn get(&self, key: &str) -> (r: Option<&DbRecord>)
        requires
            self.inv(),
        ensures
            r is Some <==> self.map_view().contains_key(key@),
            r is Some ==> r.unwrap()@ == self.map_view()[key@],
    {
        proof {
            lemma_assoc_contains(self.entries_view(), key@);
        }
        match self.find_index(key) {
            Some(j) => {
                proof {
                    lemma_assoc_value(self.entries_view(), j as int);
                }
                Some(&self.database[j].record)
            },
            None => None,
        }
    }

    /// Removes a host's record and returns it; every other host's entry is
    /// untouched.
    pub fn remove(&mut self, key: &str) -> (r: Option<DbRecord>)
        requires
            old(self).inv(),
        ensures
            final(self).inv(),
            final(self).map_view() == old(self).map_view().remove(key@),
            final(self).data_dir_view() == old(self).data_dir_view(),
            r is Some <==> old(self).map_view().contains_key(key@),
            r is Some ==> r.unwrap()@ == old(self).map_view()[key@],
    {
        proof {
            lemma_assoc_contains(old(self).entries_view(), key@);
        }
        match self.find_index(key) {
            Some(j) => {
                proof {
                    lemma_assoc_value(self.entries_view(), j as int);
                    lemma_assoc_remove(self.entries_view(), j as int);
                }
                let entry = self.database.remove(j);
                proof {
                    assert(self.entries_view() =~= old(self).entries_view().remove(j as int));
                }
                Some(entry.record)
            },
            None => {
                proof {
                    assert(self.map_view() =~= old(self).map_view().remove(key@));
                }
                None
            },
        }
    }

    /// Binds `key` to `value`, replacing (and returning) any record the
    /// host had; every other host's entry is untouched.
    pub fn insert(&mut self, key: String, value: DbRecord) -> (r: Option<DbRecord>)
        requires
            old(self).inv(),
        ensures
            final(self).inv(),
            final(self).map_view() == old(self).map_view().insert(key@, value@),
            final(self).data_dir_view() == old(self).data_dir_view(),
            r is Some <==> old(self).map_view().contains_key(key@),
            r is Some ==> r.unwrap()@ == old(self).map_view()[key@],
    {
        let previous = self.remove(key.as_str());
        proof {
            lemma_assoc_contains(self.entries_view(), key@);
        }
        let ghost before_push = self.entries_view();
        self.database.push(DbEntry { host_id: key, record: value });
        proof {
            assert(self.entries_view() =~= before_push.push(
                DbEntryV { host_id: key@, record: value@ },
            ));
            assert(self.entries_view().drop_last() =~= before_push);
            assert(forall|i: int|
                0 <= i < before_push.len() ==> #[trigger] self.entries_view()[i] == before_push[i]);
            assert(self.map_view() =~= old(self).map_view().insert(key@, value@));
        }
        previous
    }

    /// Appends one observation to the record of a host the store already
    /// knows: the host's history grows by exactly that observation at the
    /// end, its pinned key and every other host's entry are untouched.
    /// Returns false, changing nothing, for an unknown host.
    pub fn append_statistic(&mut self, key: &str, s: crate::db_statistics::DbStatistics) -> (r:
        bool)
        requires
            old(self).inv(),
        ensures
            final(self).inv(),
            final(self).data_dir_view() == old(self).data_dir_view(),
            r == old(self).map_view().contains_key(key@),
            r ==> final(self).map_view() == old(self).map_view().insert(
                key@,
                DbRecordV {
                    public_key: old(self).map_view()[key@].public_key,
                    statistics: old(self).map_view()[key@].statistics.push(s@),
                },
            ),
            !r ==> final(self).map_view() == old(self).map_view(),
    {
        proof {
            lemma_assoc_contains(old(self).entries_view(), key@);
        }
        match self.find_index(key) {
            Some(j) => {
                proof {
                    lemma_assoc_value(self.entries_view(), j as int);
                    lemma_assoc_remove(self.entries_view(), j as int);
                }
                let mut entry = self.database.remove(j);
                proof {
                    assert(self.entries_view() =~= old(self).entries_view().remove(j as int));
                }
                let ghost removed = self.entries_view();
                entry.record.push_statistic(s);
                self.database.push(entry);
                proof {
                    assert(self.entries_view().drop_last() =~= removed);
                    assert(forall|i: int|
                        0 <= i < removed.len() ==> #[trigger] self.entries_view()[i] == removed[i]);
                    assert(self.map_view() =~= old(self).map_view().insert(
                        key@,
                        DbRecordV {
                            public_key: old(self).map_view()[key@].public_key,
                            statistics: old(self).map_view()[key@].statistics.push(s@),
                        },
                    ));
                }
                true
            },
            None => false,
        }
    }
}

} // verus!
