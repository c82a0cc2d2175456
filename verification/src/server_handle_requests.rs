use crate::db::Db;
use crate::db_record::{DbRecord, DbRecordV};
use crate::db_statistics::{obs_well_formed, DbStatistics, DbStatisticsV, CENTI_CAP};
use crate::de::{check_sign_opt, is_public_key_text, sig_valid};
use crate::request_post_statistics::{req_well_formed, RequestPostStatistics, RequestPostStatisticsV};
use crate::response_get_proof_of_computation::{
    ProofOfComputationData, ProofOfComputationDataV, ResponseGetProofOfComputation,
};
use crate::response_post_statistics::ResponsePostStatistics;
use crate::score::{all_well_formed, lemma_partial_score_bounds, partial_score, spec_partial_score, spec_total_score};
use vstd::prelude::*;

verus! {

/// A submission is authorized when its self-declared public key text
/// parses and the signature over the raw body verifies against that key.
pub open spec fn authorized(body: Seq<char>, public_key: Seq<char>, signature: Seq<char>) -> bool {
    is_public_key_text(public_key) && sig_valid(body, public_key, signature)
}

/// The observation the collector mints from an authorized report: the
/// reported metrics, a derived CPU usage of 100% minus the idle share, a
/// fresh identifier and the current timestamp, not yet counted toward any
/// proof.
pub open spec fn observation_of(
    req: RequestPostStatisticsV,
    id: Seq<char>,
    timestamp: int,
) -> DbStatisticsV {
    DbStatisticsV {
        blockchain_hash: Seq::empty(),
        cpu_count: req.cpu_count,
        cpu_idle: req.cpu_idle,
        cpu_interrupt: req.cpu_interrupt,
        cpu_nice: req.cpu_nice,
        cpu_system: req.cpu_system,
        cpu_usage: CENTI_CAP - req.cpu_idle,
        cpu_user: req.cpu_user,
        id: id,
        mem_free: req.mem_free,
        mem_usage: req.mem_usage,
        mem_total: req.mem_total,
        mt_2_result: req.mt_2_result,
        mt_4_result: req.mt_4_result,
        mt_8_result: req.mt_8_result,
        st_result: req.st_result,
        sys_load_average_fifteen: req.sys_load_average_fifteen,
        sys_load_average_five: req.sys_load_average_five,
        sys_load_average_one: req.sys_load_average_one,
        sys_uptime: req.sys_uptime,
        timestamp: timestamp,
        used_for_proof: false,
    }
}

fn make_observation(request: &RequestPostStatistics, id: String, timestamp: u64) -> (r:
    DbStatistics)
    requires
        req_well_formed(request@),
    ensures
        r@ == observation_of(request@, id@, timestamp as int),
        obs_well_formed(r@),
{
    DbStatistics::new(
        String::new(),
        request.cpu_count(),
        request.cpu_idle(),
        request.cpu_interrupt(),
        request.cpu_nice(),
        request.cpu_system(),
        CENTI_CAP - request.cpu_idle(),
        request.cpu_user(),
        id,
        request.mem_free(),
        request.mem_usage(),
        request.mem_total(),
        request.mt_2_result(),
        request.mt_4_result(),
        request.mt_8_result(),
        request.st_result(),
        request.sys_load_average_fifteen(),
        request.sys_load_average_five(),
        request.sys_load_average_one(),
        request.sys_uptime(),
        timestamp,
        false,
    )
}

/// What the collector decides about one "submit observation" request.
/// `MalformedKey` reproduces the original fail-fast on key text that does
/// not parse; `BadSignature` and `KeyMismatch` are both answered as an
/// authentication failure.
pub enum SubmitOutcome {
    Created(ResponsePostStatistics),
    BadSignature,
    KeyMismatch,
    MalformedKey,
}

/// The trust gate and ingestion step for one "submit observation" request.
///
/// The signature over the raw body is checked against the self-declared
/// key from the body, then that key is held against the pinned one: a new
/// host is pinned to the self-declared key; a known host submitting under
/// a different key is rejected with the store untouched; otherwise exactly
/// one observation, minted from the report with the given fresh identifier
/// and timestamp, is appended to the host's history.
#[allow(clippy::too_many_arguments)]
pub fn handle_post_statistics(
    db: &mut Db,
    body: &str,
    request: &RequestPostStatistics,
    signature: &str,
    observation_id: String,
    timestamp: u64,
    server_host_id: String,
    server_public_key: String,
) -> (r: SubmitOutcome)
    requires
        old(db).inv(),
        req_well_formed(request@),
    ensures
        final(db).inv(),
        final(db).data_dir_view() == old(db).data_dir_view(),
        r is MalformedKey <==> !is_public_key_text(request@.public_key),
        is_public_key_text(request@.public_key) ==> (r is BadSignature <==> !sig_valid(
            body@,
            request@.public_key,
            signature@,
        )),
        !authorized(body@, request@.public_key, signature@) ==> final(db).map_view() == old(
            db,
        ).map_view(),
        authorized(body@, request@.public_key, signature@) ==> {
            let m = old(db).map_view();
            let h = request@.host_id;
            let obs = observation_of(request@, observation_id@, timestamp as int);
            if m.contains_key(h) && m[h].public_key != request@.public_key {
                r is KeyMismatch && final(db).map_view() == m
            } else {
                {
                    &&& r is Created
                    &&& final(db).map_view() == m.insert(
                        h,
                        DbRecordV {
                            public_key: if m.contains_key(h) {
                                m[h].public_key
                            } else {
                                request@.public_key
                            },
                            statistics: if m.contains_key(h) {
                                m[h].statistics.push(obs)
                            } else {
                                seq![obs]
                            },
                        },
                    )
                }
            }
        },
        r matches SubmitOutcome::Created(resp) ==> {
            &&& resp@.data == observation_of(request@, observation_id@, timestamp as int)
            &&& resp@.host_id == server_host_id@
            &&& resp@.public_key == server_public_key@
        },
{
    match check_sign_opt(body, request.public_key().as_str(), signature) {
        None => SubmitOutcome::MalformedKey,
        Some(false) => SubmitOutcome::BadSignature,
        Some(true) => {
            let observation = make_observation(request, observation_id.clone(), timestamp);
            let response_observation = make_observation(request, observation_id, timestamp);
            let known: bool;
            let pinned_key_matches: bool;
            match db.get(request.host_id().as_str()) {
                Some(record) => {
                    known = true;
                    pinned_key_matches = crate::db::str_eq(
                        record.public_key().as_str(),
                        request.public_key().as_str(),
                    );
                },
                None => {
                    known = false;
                    pinned_key_matches = false;
                },
            }
            proof {
                assert(known == old(db).map_view().contains_key(request@.host_id));
                assert(known ==> pinned_key_matches == (old(db).map_view()[request@.host_id].public_key
                    == request@.public_key));
            }
            if known && !pinned_key_matches {
                SubmitOutcome::KeyMismatch
            } else if known {
                let appended = db.append_statistic(request.host_id().as_str(), observation);
                assert(appended);
                SubmitOutcome::Created(
                    ResponsePostStatistics::new(
                        response_observation,
                        server_host_id,
                        server_public_key,
                    ),
                )
            } else {
                let mut statistics: Vec<DbStatistics> = Vec::new();
                statistics.push(observation);
                let record = DbRecord::new(request.public_key().clone(), statistics);
                proof {
                    assert(record@.statistics =~= seq![
                        observation_of(request@, observation_id@, timestamp as int),
                    ]);
                }
                db.insert(request.host_id().clone(), record);
                SubmitOutcome::Created(
                    ResponsePostStatistics::new(
                        response_observation,
                        server_host_id,
                        server_public_key,
                    ),
                )
            }
        },
    }
}


/// Accepted submissions only ever append: the history after an accepted
/// submission is the old history with the new observation at the end, so
/// it is one longer and every previously stored observation is unchanged
/// at its position.  Together with `handle_post_statistics`'s contract,
/// after N accepted submissions for one host its history holds exactly the
/// N minted observations in submission order.
pub proof fn lemma_history_append_only(ss: Seq<DbStatisticsV>, obs: DbStatisticsV)
    ensures
        ss.push(obs).len() == ss.len() + 1,
        ss.push(obs).last() == obs,
        forall|i: int| 0 <= i < ss.len() ==> #[trigger] ss.push(obs)[i] == ss[i],
{
}

/// The per-observation entries of a proof-of-computation answer: one entry,
/// in history order, for every observation not yet counted toward a proof.
pub open spec fn spec_proof_data(ss: Seq<DbStatisticsV>) -> Seq<ProofOfComputationDataV>
    decreases ss.len(),
{
    if ss.len() == 0 {
        Seq::empty()
    } else {
        spec_proof_data(ss.drop_last()) + if ss.last().used_for_proof {
            Seq::empty()
        } else {
            seq![
                ProofOfComputationDataV {
                    id: ss.last().id,
                    partial_proof_of_computation: spec_partial_score(ss.last()),
                },
            ]
        }
    }
}

proof fn lemma_take_step(ss: Seq<DbStatisticsV>, i: int)
    requires
        0 <= i < ss.len(),
    ensures
        spec_total_score(ss.take(i + 1)) == spec_total_score(ss.take(i)) + if ss[i].used_for_proof {
            0
        } else {
            spec_partial_score(ss[i])
        },
        spec_proof_data(ss.take(i + 1)) == spec_proof_data(ss.take(i)) + if ss[i].used_for_proof {
            Seq::<ProofOfComputationDataV>::empty()
        } else {
            seq![
                ProofOfComputationDataV {
                    id: ss[i].id,
                    partial_proof_of_computation: spec_partial_score(ss[i]),
                },
            ]
        },
{
    assert(ss.take(i + 1).drop_last() =~= ss.take(i));
    assert(ss.take(i + 1).last() == ss[i]);
}

proof fn lemma_total_prefix_le(ss: Seq<DbStatisticsV>, i: int)
    requires
        all_well_formed(ss),
        0 <= i <= ss.len(),
    ensures
        spec_total_score(ss.take(i)) <= spec_total_score(ss),
    decreases ss.len() - i,
{
    if i < ss.len() {
        lemma_take_step(ss, i);
        lemma_partial_score_bounds(ss[i]);
        lemma_total_prefix_le(ss, i + 1);
    } else {
        assert(ss.take(i) =~= ss);
    }
}

/// What the collector answers to one proof-of-computation query.
/// `Overflow` marks the one machine limit of the exact score arithmetic:
/// the true total does not fit the 128-bit score integer.
pub enum ProofOutcome {
    Found(ResponseGetProofOfComputation),
    NotFound,
    Overflow,
}

/// The read path for one "get proof of computation" request: an unknown
/// host is answered not-found; otherwise every stored observation not yet
/// counted toward a proof contributes its exact score, and the answer
/// carries the per-observation scores in history order, their sum, the
/// collector's identity and its public key text.  Repeated queries see the
/// same full history: nothing is marked consumed.
pub fn handle_get_proof_of_computation(
    db: &Db,
    host_id: &str,
    server_host_id: String,
    server_public_key: String,
) -> (r: ProofOutcome)
    requires
        db.inv(),
        db.map_view().contains_key(host_id@) ==> all_well_formed(
            db.map_view()[host_id@].statistics,
        ),
    ensures
        r is NotFound <==> !db.map_view().contains_key(host_id@),
        db.map_view().contains_key(host_id@) ==> {
            let ss = db.map_view()[host_id@].statistics;
            if spec_total_score(ss) <= u128::MAX {
                r matches ProofOutcome::Found(resp) && resp@.data == spec_proof_data(ss)
                    && resp@.proof_of_computation == spec_total_score(ss) && resp@.host_id
                    == server_host_id@ && resp@.public_key == server_public_key@
            } else {
                r is Overflow
            }
        },
{
    let record = match db.get(host_id) {
        Some(record) => record,
        None => {
            return ProofOutcome::NotFound;
        },
    };
    let ghost ss = db.map_view()[host_id@].statistics;
    let statistics = record.statistics();
    let mut data: Vec<ProofOfComputationData> = Vec::new();
    let mut total: u128 = 0;
    let mut i: usize = 0;
    proof {
        assert(ss.take(0) =~= Seq::<DbStatisticsV>::empty());
        assert(data@.map_values(|d: ProofOfComputationData| d@) =~= Seq::<
            ProofOfComputationDataV,
        >::empty());
    }
    while i < statistics.len()
        invariant
            i <= statistics.len(),
            db.inv(),
            db.map_view().contains_key(host_id@),
            ss == db.map_view()[host_id@].statistics,
            statistics@.len() == ss.len(),
            forall|j: int| 0 <= j < ss.len() ==> (#[trigger] statistics@[j])@ == ss[j],
            all_well_formed(ss),
            total == spec_total_score(ss.take(i as int)),
            data@.map_values(|d: ProofOfComputationData| d@) == spec_proof_data(ss.take(i as int)),
        decreases statistics.len() - i,
    {
        let s = &statistics[i];
        proof {
            lemma_take_step(ss, i as int);
        }
        if !s.used_for_proof() {
            let p = partial_score(s);
            total = match total.checked_add(p) {
                Some(t) => t,
                None => {
                    proof {
                        lemma_total_prefix_le(ss, i as int + 1);
                    }
                    return ProofOutcome::Overflow;
                },
            };
            let entry = ProofOfComputationData::new(s.id().clone(), p);
            let ghost data_before = data@.map_values(|d: ProofOfComputationData| d@);
            data.push(entry);
            proof {
                assert(data@.map_values(|d: ProofOfComputationData| d@) =~= data_before.push(
                    entry@,
                ));
                assert(data_before.push(entry@) =~= data_before + seq![entry@]);
            }
        }
        i += 1;
    }
    proof {
        assert(ss.take(ss.len() as int) =~= ss);
    }
    ProofOutcome::Found(
        ResponseGetProofOfComputation::new(data, server_host_id, total, server_public_key),
    )
}

} // verus!
