use auditor::db::Db;
use auditor::db_record::DbRecord;
use auditor::db_statistics::DbStatistics;
use auditor::snapshot::{decode_db, restore_db, snapshot_db};

fn observation(id: &str, uptime: u64, used: bool) -> DbStatistics {
    DbStatistics::new(
        "hash-of-something".to_string(),
        4,
        9000,
        10,
        20,
        30,
        1000,
        40,
        id.to_string(),
        1024,
        5000,
        2048,
        50,
        51,
        52,
        53,
        100,
        101,
        102,
        uptime,
        1700000000,
        used,
    )
}

fn sample_db() -> Db {
    let mut db = Db::new("/var/lib/example/".to_string());
    db.insert(
        "host-a".to_string(),
        DbRecord::new(
            "key text a".to_string(),
            vec![observation("a-1", 3600, false), observation("a-2", 7200, true)],
        ),
    );
    db.insert(
        "höst-β".to_string(),
        DbRecord::new("key text β".to_string(), vec![observation("b-1", 60, false)]),
    );
    db
}

fn assert_same_observation(a: &DbStatistics, b: &DbStatistics) {
    assert_eq!(a.blockchain_hash(), b.blockchain_hash());
    assert_eq!(a.cpu_count(), b.cpu_count());
    assert_eq!(a.cpu_idle(), b.cpu_idle());
    assert_eq!(a.cpu_interrupt(), b.cpu_interrupt());
    assert_eq!(a.cpu_nice(), b.cpu_nice());
    assert_eq!(a.cpu_system(), b.cpu_system());
    assert_eq!(a.cpu_usage(), b.cpu_usage());
    assert_eq!(a.cpu_user(), b.cpu_user());
    assert_eq!(a.id(), b.id());
    assert_eq!(a.mem_free(), b.mem_free());
    assert_eq!(a.mem_usage(), b.mem_usage());
    assert_eq!(a.mem_total(), b.mem_total());
    assert_eq!(a.mt_2_result(), b.mt_2_result());
    assert_eq!(a.mt_4_result(), b.mt_4_result());
    assert_eq!(a.mt_8_result(), b.mt_8_result());
    assert_eq!(a.st_result(), b.st_result());
    assert_eq!(a.sys_load_average_fifteen(), b.sys_load_average_fifteen());
    assert_eq!(a.sys_load_average_five(), b.sys_load_average_five());
    assert_eq!(a.sys_load_average_one(), b.sys_load_average_one());
    assert_eq!(a.sys_uptime(), b.sys_uptime());
    assert_eq!(a.timestamp(), b.timestamp());
    assert_eq!(a.used_for_proof(), b.used_for_proof());
}

#[test]
fn snapshot_restore_round_trips() {
    let db = sample_db();
    let bytes = snapshot_db(&db);
    let mut restored = Db::new("/var/lib/example/".to_string());
    assert!(restore_db(&mut restored, &bytes));
    for host in ["host-a", "höst-β"] {
        let original = db.get(host).expect("record missing before restore");
        let recovered = restored.get(host).expect("record missing after restore");
        assert_eq!(original.public_key(), recovered.public_key());
        assert_eq!(original.statistics().len(), recovered.statistics().len());
        for (a, b) in original.statistics().iter().zip(recovered.statistics().iter()) {
            assert_same_observation(a, b);
        }
    }
    assert!(restored.get("host-c").is_none());
}

#[test]
fn empty_store_round_trips() {
    let db = Db::new("/tmp/".to_string());
    let bytes = snapshot_db(&db);
    let mut restored = Db::new("/tmp/".to_string());
    assert!(restore_db(&mut restored, &bytes));
    assert!(restored.get("anyone").is_none());
}

#[test]
fn garbage_bytes_leave_the_store_untouched() {
    let mut db = sample_db();
    let garbage: Vec<u8> = vec![1, 2, 3, 4, 5, 6, 7, 8, 9];
    assert!(!restore_db(&mut db, &garbage));
    assert!(db.get("host-a").is_some());
}

#[test]
fn truncated_snapshot_is_rejected() {
    let db = sample_db();
    let bytes = snapshot_db(&db);
    // Compressed frames carry their size; decompression of a truncated
    // frame, or parsing of a short payload, must fail cleanly.
    let truncated: Vec<u8> = bytes[..bytes.len() - 1].to_vec();
    let mut restored = Db::new("/tmp/".to_string());
    assert!(!restore_db(&mut restored, &truncated));
    assert!(restored.get("host-a").is_none());
}

#[test]
fn decode_rejects_uncompressed_garbage() {
    let garbage: Vec<u8> = (0u8..255u8).collect();
    assert!(decode_db(&garbage).is_none());
}

#[test]
fn store_semantics_get_insert_remove() {
    let mut db = Db::new("/tmp/".to_string());
    assert!(db.get("h").is_none());
    let old = db.insert(
        "h".to_string(),
        DbRecord::new("k1".to_string(), vec![observation("x", 1, false)]),
    );
    assert!(old.is_none());
    assert_eq!(db.get("h").unwrap().public_key().as_str(), "k1");
    let replaced = db.insert("h".to_string(), DbRecord::new("k2".to_string(), vec![]));
    assert_eq!(replaced.unwrap().public_key().as_str(), "k1");
    assert_eq!(db.get("h").unwrap().public_key().as_str(), "k2");
    let removed = db.remove("h");
    assert_eq!(removed.unwrap().public_key().as_str(), "k2");
    assert!(db.get("h").is_none());
    assert!(db.remove("h").is_none());
    assert_eq!(db.data_dir().as_str(), "/tmp/");
}
