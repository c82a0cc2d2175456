use crate::db_statistics::{DbStatistics, DbStatisticsV};
use vstd::prelude::*;

verus! {

/// Mathematical model of `ResponsePostStatistics`.
pub ghost struct ResponsePostStatisticsV {
    pub data: DbStatisticsV,
    pub host_id: Seq<char>,
    pub public_key: Seq<char>,
}

/// Body of the collector's answer to an accepted report: the observation
/// it created, its own host identifier and its public key text.
#[derive(Debug)]
pub struct ResponsePostStatistics {
    data: DbStatistics,
    host_id: String,
    public_key: String,
}

impl View for ResponsePostStatistics {
    type V = ResponsePostStatisticsV;

    closed spec fn view(&self) -> ResponsePostStatisticsV {
        ResponsePostStatisticsV {
            data: self.data@,
            host_id: self.host_id@,
            public_key: self.public_key@,
        }
    }
}

impl ResponsePostStatistics {
    pub fn new(data: DbStatistics, host_id: String, public_key: String) -> (r:
        ResponsePostStatistics)
        ensures
            r@ == (ResponsePostStatisticsV {
                data: data@,
                host_id: host_id@,
                public_key: public_key@,
            }),
    {
        ResponsePostStatistics { data, host_id, public_key }
    }

    pub fn data(&self) -> (r: &DbStatistics)
        ensures
            r@ == self@.data,
    {
        &self.data
    }

    pub fn host_id(&self) -> (r: &String)
        ensures
            r@ == self@.host_id,
    {
        &self.host_id
    }

    pub fn public_key(&self) -> (r: &String)
        ensures
            r@ == self@.public_key,
    {
        &self.public_key
    }
}

} // verus!
