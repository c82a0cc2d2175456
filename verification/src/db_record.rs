use crate::db_statistics::{DbStatistics, DbStatisticsV};
use vstd::prelude::*;

verus! {

/// Mathematical model of `DbRecord`.
pub ghost struct DbRecordV {
    pub public_key: Seq<char>,
    pub statistics: Seq<DbStatisticsV>,
}

/// Everything the store keeps for one host: the public key pinned at first
/// contact, fixed for the record's lifetime, and the append-only sequence
/// of observations.
#[derive(Debug)]
pub struct DbRecord {
    public_key: String,
    statistics: Vec<DbStatistics>,
}

impl View for DbRecord {
    type V = DbRecordV;

    closed spec fn view(&self) -> DbRecordV {
        DbRecordV {
            public_key: self.public_key@,
            statistics: self.statistics@.map_values(|s: DbStatistics| s@),
        }
    }
}

impl DbRecord {
    pub fn new(public_key: String, statistics: Vec<DbStatistics>) -> (r: DbRecord)
        ensures
            r@.public_key == public_key@,
            r@.statistics == statistics@.map_values(|s: DbStatistics| s@),
    {
        DbRecord { public_key, statistics }
    }

    pub fn public_key(&self) -> (r: &String)
        ensures
            r@ == self@.public_key,
    {
        &self.public_key
    }

    pub fn statistics(&self) -> (r: &Vec<DbStatistics>)
        ensures
            r@.map_values(|s: DbStatistics| s@) == self@.statistics,
            r@.len() == self@.statistics.len(),
            forall|i: int| 0 <= i < r@.len() ==> r@[i]@ == self@.statistics[i],
    {
        &self.statistics
    }

    /// Appends one observation; every prior entry stays in place: the new
    /// history is the old one with `s` at the end.
    pub fn push_statistic(&mut self, s: DbStatistics)
        ensures
            final(self)@.public_key == old(self)@.public_key,
            final(self)@.statistics == old(self)@.statistics.push(s@),
    {
        self.statistics.push(s);
        proof {
            assert(self.statistics@.map_values(|x: DbStatistics| x@) =~= old(
                self,
            )@.statistics.push(s@));
        }
    }
}

} // verus!
