use auditor::db::Db;
use auditor::db_record::DbRecord;
use auditor::db_statistics::DbStatistics;
use auditor::de::{generate_private_key, De};
use auditor::request_post_statistics::RequestPostStatistics;
use auditor::server_handle_requests::{
    handle_get_proof_of_computation, handle_post_statistics, ProofOutcome, SubmitOutcome,
};

fn make_identity() -> De {
    let key = generate_private_key().expect("key generation failed");
    De::from_private_key(key).expect("identity construction failed")
}

fn scenario_request(host_id: &str, public_key: String) -> RequestPostStatistics {
    RequestPostStatistics::new(
        4,
        9000,
        0,
        0,
        500,
        500,
        host_id.to_string(),
        4096,
        5000,
        8192,
        50,
        50,
        50,
        public_key,
        50,
        100,
        100,
        100,
        3600,
    )
}

const SCENARIO_SCORE: u128 = 112500000000000000000000;

fn submit(
    db: &mut Db,
    de: &De,
    server: &De,
    host_id: &str,
    observation_id: &str,
    timestamp: u64,
) -> SubmitOutcome {
    let request = scenario_request(host_id, de.public_key_string());
    let body = format!("report from {}", host_id);
    let signature = de.sign(&body).expect("signing failed");
    handle_post_statistics(
        db,
        &body,
        &request,
        &signature,
        observation_id.to_string(),
        timestamp,
        "server-host".to_string(),
        server.public_key_string(),
    )
}

#[test]
fn accepted_submission_creates_record_and_scores() {
    let de = make_identity();
    let server = make_identity();
    let mut db = Db::new("/tmp/".to_string());
    let outcome = submit(&mut db, &de, &server, "h1", "obs-1", 1700000000);
    match outcome {
        SubmitOutcome::Created(response) => {
            assert_eq!(response.host_id().as_str(), "server-host");
            assert_eq!(response.public_key(), &server.public_key_string());
            assert_eq!(response.data().id().as_str(), "obs-1");
            assert_eq!(response.data().cpu_usage(), 1000);
            assert_eq!(response.data().timestamp(), 1700000000);
            assert!(!response.data().used_for_proof());
        }
        _ => panic!("expected a created outcome"),
    }
    let record = db.get("h1").expect("record missing");
    assert_eq!(record.public_key(), &de.public_key_string());
    assert_eq!(record.statistics().len(), 1);

    let proof = handle_get_proof_of_computation(
        &db,
        "h1",
        "server-host".to_string(),
        server.public_key_string(),
    );
    match proof {
        ProofOutcome::Found(response) => {
            assert_eq!(response.proof_of_computation(), SCENARIO_SCORE);
            assert_eq!(response.data().len(), 1);
            assert_eq!(response.data()[0].id().as_str(), "obs-1");
            assert_eq!(response.data()[0].partial_proof_of_computation(), SCENARIO_SCORE);
            assert_eq!(response.host_id().as_str(), "server-host");
        }
        _ => panic!("expected a found outcome"),
    }
}

#[test]
fn key_substitution_is_rejected_and_changes_nothing() {
    let first = make_identity();
    let second = make_identity();
    let server = make_identity();
    let mut db = Db::new("/tmp/".to_string());
    assert!(matches!(
        submit(&mut db, &first, &server, "h1", "obs-1", 1),
        SubmitOutcome::Created(_)
    ));
    assert!(matches!(
        submit(&mut db, &second, &server, "h1", "obs-2", 2),
        SubmitOutcome::KeyMismatch
    ));
    let record = db.get("h1").expect("record missing");
    assert_eq!(record.public_key(), &first.public_key_string());
    assert_eq!(record.statistics().len(), 1);
    let proof = handle_get_proof_of_computation(
        &db,
        "h1",
        "server-host".to_string(),
        server.public_key_string(),
    );
    match proof {
        ProofOutcome::Found(response) => {
            assert_eq!(response.proof_of_computation(), SCENARIO_SCORE);
        }
        _ => panic!("expected a found outcome"),
    }
}

#[test]
fn bad_signature_is_rejected_without_mutation() {
    let de = make_identity();
    let other = make_identity();
    let server = make_identity();
    let mut db = Db::new("/tmp/".to_string());
    let request = scenario_request("h1", de.public_key_string());
    let body = "report body";
    let signature = other.sign(body).expect("signing failed");
    let outcome = handle_post_statistics(
        &mut db,
        body,
        &request,
        &signature,
        "obs-1".to_string(),
        1,
        "server-host".to_string(),
        server.public_key_string(),
    );
    assert!(matches!(outcome, SubmitOutcome::BadSignature));
    assert!(db.get("h1").is_none());
}

#[test]
fn malformed_key_is_flagged() {
    let de = make_identity();
    let server = make_identity();
    let mut db = Db::new("/tmp/".to_string());
    let request = scenario_request("h1", "garbage key text".to_string());
    let body = "report body";
    let signature = de.sign(body).expect("signing failed");
    let outcome = handle_post_statistics(
        &mut db,
        body,
        &request,
        &signature,
        "obs-1".to_string(),
        1,
        "server-host".to_string(),
        server.public_key_string(),
    );
    assert!(matches!(outcome, SubmitOutcome::MalformedKey));
    assert!(db.get("h1").is_none());
}

#[test]
fn histories_are_append_only_and_ordered() {
    let de = make_identity();
    let server = make_identity();
    let mut db = Db::new("/tmp/".to_string());
    for (i, id) in ["first", "second", "third"].iter().enumerate() {
        assert!(matches!(
            submit(&mut db, &de, &server, "h1", id, i as u64),
            SubmitOutcome::Created(_)
        ));
    }
    let record = db.get("h1").expect("record missing");
    let statistics = record.statistics();
    assert_eq!(statistics.len(), 3);
    assert_eq!(statistics[0].id().as_str(), "first");
    assert_eq!(statistics[1].id().as_str(), "second");
    assert_eq!(statistics[2].id().as_str(), "third");
    assert_eq!(statistics[0].timestamp(), 0);
    assert_eq!(statistics[2].timestamp(), 2);
}

#[test]
fn unknown_host_is_not_found() {
    let server = make_identity();
    let db = Db::new("/tmp/".to_string());
    let proof = handle_get_proof_of_computation(
        &db,
        "nobody",
        "server-host".to_string(),
        server.public_key_string(),
    );
    assert!(matches!(proof, ProofOutcome::NotFound));
}

fn maximal_observation(id: &str) -> DbStatistics {
    DbStatistics::new(
        String::new(),
        64,
        0,
        0,
        0,
        0,
        10000,
        0,
        id.to_string(),
        0,
        10000,
        0,
        0,
        0,
        0,
        0,
        10000,
        10000,
        10000,
        10000000000,
        0,
        false,
    )
}

#[test]
fn score_overflow_is_reported() {
    let server = make_identity();
    let mut db = Db::new("/tmp/".to_string());
    let observations = vec![
        maximal_observation("a"),
        maximal_observation("b"),
        maximal_observation("c"),
        maximal_observation("d"),
    ];
    db.insert(
        "h1".to_string(),
        DbRecord::new("some key".to_string(), observations),
    );
    let proof = handle_get_proof_of_computation(
        &db,
        "h1",
        "server-host".to_string(),
        server.public_key_string(),
    );
    assert!(matches!(proof, ProofOutcome::Overflow));
}

#[test]
fn consumed_observations_are_skipped() {
    let server = make_identity();
    let mut db = Db::new("/tmp/".to_string());
    let counted = DbStatistics::new(
        String::new(),
        4,
        9000,
        0,
        0,
        500,
        1000,
        500,
        "kept".to_string(),
        4096,
        5000,
        8192,
        50,
        50,
        50,
        50,
        100,
        100,
        100,
        3600,
        7,
        false,
    );
    let consumed = DbStatistics::new(
        String::new(),
        4,
        9000,
        0,
        0,
        500,
        1000,
        500,
        "spent".to_string(),
        4096,
        5000,
        8192,
        50,
        50,
        50,
        50,
        100,
        100,
        100,
        3600,
        8,
        true,
    );
    db.insert(
        "h1".to_string(),
        DbRecord::new("some key".to_string(), vec![counted, consumed]),
    );
    let proof = handle_get_proof_of_computation(
        &db,
        "h1",
        "server-host".to_string(),
        server.public_key_string(),
    );
    match proof {
        ProofOutcome::Found(response) => {
            assert_eq!(response.data().len(), 1);
            assert_eq!(response.data()[0].id().as_str(), "kept");
            assert_eq!(response.proof_of_computation(), SCENARIO_SCORE);
        }
        _ => panic!("expected a found outcome"),
    }
}
