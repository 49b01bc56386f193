use sha2::Digest;
use starkmint::lifecycle::StarknetApp;
use starkmint::tx::{Transaction, TransactionType};

fn sha256(bytes: &[u8]) -> Vec<u8> {
    sha2::Sha256::digest(bytes).as_slice().to_vec()
}

fn sample_tx(id: u64, hash: Vec<u8>) -> Transaction {
    Transaction::with_parts(
        id,
        TransactionType::FunctionExecution {
            program: b"program-bytes".to_vec(),
            function: b"main".to_vec(),
            program_name: b"prog.json".to_vec(),
            enable_trace: true,
        },
        hash,
    )
}

fn fresh_app() -> StarknetApp {
    StarknetApp::new(None).expect("fresh app")
}

#[test]
fn commitment_is_folded_digest_of_delivery_order() {
    // One block of three valid transactions: the commitment is the digest
    // of their canonical hashes concatenated in delivery order.
    let h1 = vec![0x11u8; 32];
    let h2 = vec![0x22u8; 32];
    let h3 = vec![0x33u8; 32];
    let mut app = fresh_app();
    app.begin_block(1_000);
    for (i, h) in [h1.clone(), h2.clone(), h3.clone()].into_iter().enumerate() {
        let tx = sample_tx(i as u64, h.clone());
        let r = app.deliver_tx(&tx, &Ok(h));
        assert_eq!(r.code, 0);
    }
    let commit = app.commit();
    let mut concat = Vec::new();
    concat.extend_from_slice(&h1);
    concat.extend_from_slice(&h2);
    concat.extend_from_slice(&h3);
    assert_eq!(commit.data, sha256(&concat));
}

#[test]
fn delivery_order_changes_commitment() {
    let h1 = vec![0xaau8; 32];
    let h2 = vec![0xbbu8; 32];
    let mut forward = fresh_app();
    forward.begin_block(0);
    forward.deliver_tx(&sample_tx(1, h1.clone()), &Ok(h1.clone()));
    forward.deliver_tx(&sample_tx(2, h2.clone()), &Ok(h2.clone()));
    let mut backward = fresh_app();
    backward.begin_block(0);
    backward.deliver_tx(&sample_tx(2, h2.clone()), &Ok(h2.clone()));
    backward.deliver_tx(&sample_tx(1, h1.clone()), &Ok(h1.clone()));
    assert_ne!(forward.commit().data, backward.commit().data);
}

#[test]
fn height_advances_by_one_per_commit_and_survives_restart() {
    let mut app = fresh_app();
    assert_eq!(app.current_height(), 0);
    app.begin_block(0);
    let first = app.commit();
    assert_eq!(app.current_height(), 1);
    app.begin_block(1);
    let second = app.commit();
    assert_eq!(app.current_height(), 2);
    assert_eq!(second.retain_height, 0);

    // Simulated restart: a new instance recovered from the persisted record
    // reads back the last persisted height, not zero.
    let restarted = StarknetApp::new(Some(&second.height_record)).expect("recover");
    assert_eq!(restarted.current_height(), 2);
    let earlier = StarknetApp::new(Some(&first.height_record)).expect("recover");
    assert_eq!(earlier.current_height(), 1);
}

#[test]
fn malformed_height_record_is_fatal_not_genesis() {
    assert!(StarknetApp::new(Some(&vec![1, 2, 3])).is_err());
    assert!(StarknetApp::new(Some(&vec![0u8; 9])).is_err());
    assert!(StarknetApp::new(Some(&Vec::new())).is_err());
}

#[test]
fn mismatched_hash_rejects_and_leaves_accumulator_unchanged() {
    let good = vec![0x01u8; 32];
    let claimed = vec![0x02u8; 32];

    // Instance that sees the tampered transaction.
    let mut with_bad = fresh_app();
    with_bad.begin_block(0);
    with_bad.deliver_tx(&sample_tx(1, good.clone()), &Ok(good.clone()));
    let bad_tx = sample_tx(2, claimed.clone());
    let r = with_bad.deliver_tx(&bad_tx, &Ok(good.clone()));
    assert_eq!(r.code, 1);
    assert_eq!(r.log, "Error delivering transaction. Integrity check failed.");
    assert!(r.data.is_empty());
    assert!(r.events.is_empty());

    // Instance that never saw it.
    let mut without = fresh_app();
    without.begin_block(0);
    without.deliver_tx(&sample_tx(1, good.clone()), &Ok(good.clone()));

    assert_eq!(with_bad.commit().data, without.commit().data);
}

#[test]
fn validator_failure_rejects_with_its_message() {
    let mut app = fresh_app();
    app.begin_block(0);
    let tx = sample_tx(1, vec![0x0fu8; 32]);
    let r = app.deliver_tx(&tx, &Err("execution trap".to_string()));
    assert_eq!(r.code, 1);
    assert_eq!(r.log, "execution trap");
    assert_eq!(r.info, "execution trap");
    // Nothing was folded: the commitment equals the empty-history digest.
    assert_eq!(app.commit().data, sha256(b""));
}

#[test]
fn scenario_one_valid_then_one_tampered() {
    // T1 with a correctly recomputed hash; T2 with a wrong embedded hash.
    let p1 = b"payload-one".to_vec();
    let h_p1 = sha256(&p1);
    let t1 = Transaction::with_parts(
        1,
        TransactionType::FunctionExecution {
            program: p1,
            function: b"main".to_vec(),
            program_name: b"one.json".to_vec(),
            enable_trace: false,
        },
        h_p1.clone(),
    );
    let mut app = fresh_app();
    app.begin_block(0);
    let r1 = app.deliver_tx(&t1, &Ok(h_p1.clone()));
    assert_eq!(r1.code, 0);
    assert_eq!(r1.data, h_p1);

    let t2 = sample_tx(2, vec![0xeeu8; 32]);
    let r2 = app.deliver_tx(&t2, &Ok(vec![0x99u8; 32]));
    assert_eq!(r2.code, 1);

    let commit = app.commit();
    assert_eq!(commit.data, sha256(&h_p1));
    assert_eq!(app.current_height(), 1);
}

#[test]
fn check_tx_never_alters_the_next_commitment() {
    let h = vec![0x5au8; 32];
    let tx = sample_tx(1, h.clone());
    let wire = starkmint::tx::encode_transaction(&tx);

    let mut checked = fresh_app();
    checked.begin_block(0);
    for _ in 0..5 {
        let resp = checked.check_tx(&wire).expect("well-formed");
        assert_eq!(resp.code, 0);
    }
    checked.deliver_tx(&tx, &Ok(h.clone()));
    let resp = checked.check_tx(&wire).expect("well-formed");
    assert_eq!(resp.code, 0);

    let mut unchecked = fresh_app();
    unchecked.begin_block(0);
    unchecked.deliver_tx(&tx, &Ok(h.clone()));

    assert_eq!(checked.commit().data, unchecked.commit().data);
    assert_eq!(checked.current_height(), unchecked.current_height());
}

#[test]
fn replay_on_two_instances_is_deterministic() {
    let hashes: Vec<Vec<u8>> = (0u8..10).map(|i| vec![i; 32]).collect();
    let mut a = fresh_app();
    let mut b = fresh_app();
    a.begin_block(123);
    b.begin_block(987_654); // different clocks must not matter
    for (i, h) in hashes.iter().enumerate() {
        a.deliver_tx(&sample_tx(i as u64, h.clone()), &Ok(h.clone()));
        b.deliver_tx(&sample_tx(i as u64, h.clone()), &Ok(h.clone()));
    }
    assert_eq!(a.commit().data, b.commit().data);
}

#[test]
fn accumulator_is_cumulative_across_blocks() {
    let h1 = vec![0x10u8; 32];
    let h2 = vec![0x20u8; 32];
    let mut app = fresh_app();
    app.begin_block(0);
    app.deliver_tx(&sample_tx(1, h1.clone()), &Ok(h1.clone()));
    let first = app.commit();
    let mut concat1 = h1.clone();
    assert_eq!(first.data, sha256(&concat1));

    app.begin_block(1);
    app.deliver_tx(&sample_tx(2, h2.clone()), &Ok(h2.clone()));
    let second = app.commit();
    concat1.extend_from_slice(&h2);
    // Not reset at commit: the second commitment digests the whole history.
    assert_eq!(second.data, sha256(&concat1));
}

#[test]
fn events_index_the_applied_transaction() {
    let h = vec![0x42u8; 32];
    let mut app = fresh_app();
    app.begin_block(0);
    let tx = sample_tx(9, h.clone());
    let r = app.deliver_tx(&tx, &Ok(h.clone()));
    assert_eq!(r.events.len(), 2);
    assert_eq!(r.events[0].kind, "app");
    assert_eq!(r.events[0].attributes.len(), 1);
    assert_eq!(r.events[0].attributes[0].key, "tx_id");
    assert_eq!(r.events[0].attributes[0].value, h);
    assert!(r.events[0].attributes[0].index);
    assert_eq!(r.events[1].kind, "function");
    assert_eq!(r.events[1].attributes[0].key, "function");
    assert_eq!(r.events[1].attributes[0].value, b"main".to_vec());
    assert!(r.events[1].attributes[0].index);
}

#[test]
fn begin_block_resets_counters_and_reports_elapsed() {
    let mut app = fresh_app();
    let h = vec![0x77u8; 32];
    // The very first block has no previous start to measure against.
    assert_eq!(app.begin_block(1_000), 0);
    app.deliver_tx(&sample_tx(1, h.clone()), &Ok(h.clone()));
    let metrics = app.end_block(3_000);
    assert_eq!(metrics.transactions, 1);
    // The next block starts from a clean slate.
    assert_eq!(app.begin_block(5_000), 4_000);
    let metrics = app.end_block(5_500);
    assert_eq!(metrics.transactions, 0);
    assert_eq!(metrics.elapsed_ms, 500);
}

#[test]
fn end_block_reports_throughput() {
    let mut app = fresh_app();
    app.begin_block(1_000);
    for i in 0u8..4 {
        let h = vec![i; 32];
        app.deliver_tx(&sample_tx(i as u64, h.clone()), &Ok(h));
    }
    let metrics = app.end_block(3_000);
    assert_eq!(metrics.transactions, 4);
    assert_eq!(metrics.elapsed_ms, 2_000);
    // 4 transactions in 2 seconds: 2 whole transactions per second.
    assert_eq!(metrics.transactions_per_second, 2);
    // Zero elapsed time reports zero throughput rather than dividing.
    let metrics = app.end_block(1_000);
    assert_eq!(metrics.elapsed_ms, 0);
    assert_eq!(metrics.transactions_per_second, 0);
}

#[test]
fn info_reports_identity_height_and_last_commitment() {
    let mut app = fresh_app();
    // Before the first commit there is no commitment yet.
    assert!(app.info().last_block_app_hash.is_empty());

    app.begin_block(0);
    let h = vec![0x21u8; 32];
    app.deliver_tx(&sample_tx(1, h.clone()), &Ok(h.clone()));
    let commit = app.commit();

    let info = app.info();
    assert_eq!(info.data, "cairo-app");
    assert_eq!(info.version, "0.1.0");
    assert_eq!(info.app_version, 1);
    assert_eq!(info.last_block_height, 1);
    // Info reports exactly what the last commit returned.
    assert_eq!(info.last_block_app_hash, commit.data);
    assert_eq!(info.last_block_app_hash, sha256(&h));

    // And it tracks the newest commit.
    app.begin_block(1);
    let h2 = vec![0x22u8; 32];
    app.deliver_tx(&sample_tx(2, h2.clone()), &Ok(h2));
    let second = app.commit();
    assert_eq!(app.info().last_block_app_hash, second.data);
    assert_ne!(second.data, commit.data);
}

#[test]
fn query_is_an_explicit_placeholder() {
    let app = fresh_app();
    let q = app.query();
    assert_eq!(q.code, 1);
    assert_eq!(q.log, "Error running query: Query hook needs implementation");
    assert_eq!(q.info, "Error running query: Query hook needs implementation");
}

#[test]
fn check_tx_accepts_well_formed_and_fails_fatally_on_garbage() {
    let app = fresh_app();
    let tx = sample_tx(3, vec![0x31u8; 32]);
    let wire = starkmint::tx::encode_transaction(&tx);
    assert_eq!(app.check_tx(&wire).expect("well-formed").code, 0);
    assert!(app.check_tx(&vec![0u8; 5]).is_err());
}
