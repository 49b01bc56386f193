use starkmint::tx::{decode_transaction, encode_transaction, Transaction, TransactionType, ProtocolError};

fn sample() -> Transaction {
    Transaction::with_parts(
        77,
        TransactionType::FunctionExecution {
            program: vec![1, 2, 3, 4, 5],
            function: b"entry".to_vec(),
            program_name: b"prog".to_vec(),
            enable_trace: true,
        },
        vec![9, 8, 7],
    )
}

fn fields(tx: &Transaction) -> (u64, Vec<u8>, Vec<u8>, Vec<u8>, bool, Vec<u8>) {
    let TransactionType::FunctionExecution { program, function, program_name, enable_trace } =
        &tx.transaction_type;
    (
        tx.id,
        program.clone(),
        function.clone(),
        program_name.clone(),
        *enable_trace,
        tx.transaction_hash.clone(),
    )
}

#[test]
fn round_trip_preserves_every_field() {
    let tx = sample();
    let wire = encode_transaction(&tx);
    let back = decode_transaction(&wire).expect("round trip");
    assert_eq!(fields(&back), fields(&tx));
}

#[test]
fn round_trip_with_empty_fields() {
    let tx = Transaction::with_parts(
        0,
        TransactionType::FunctionExecution {
            program: Vec::new(),
            function: Vec::new(),
            program_name: Vec::new(),
            enable_trace: false,
        },
        Vec::new(),
    );
    let wire = encode_transaction(&tx);
    assert_eq!(wire.len(), 42); // fixed framing with no variable bytes
    let back = decode_transaction(&wire).expect("round trip");
    assert_eq!(fields(&back), fields(&tx));
}

#[test]
fn wire_layout_is_the_documented_one() {
    let tx = sample();
    let wire = encode_transaction(&tx);
    assert_eq!(&wire[0..8], &77u64.to_le_bytes()); // id
    assert_eq!(wire[8], 0); // payload tag
    assert_eq!(&wire[9..17], &5u64.to_le_bytes()); // program length
    assert_eq!(&wire[17..22], &[1, 2, 3, 4, 5]); // program
}

#[test]
fn malformed_bytes_are_a_fatal_protocol_error() {
    // Too short for any transaction.
    assert!(matches!(decode_transaction(&Vec::new()), Err(ProtocolError::MalformedTransaction)));
    assert!(matches!(decode_transaction(&vec![0u8; 16]), Err(ProtocolError::MalformedTransaction)));

    let tx = sample();
    let wire = encode_transaction(&tx);

    // Unknown payload tag.
    let mut bad_tag = wire.clone();
    bad_tag[8] = 1;
    assert!(matches!(decode_transaction(&bad_tag), Err(ProtocolError::MalformedTransaction)));

    // Trace flag that is neither 0 nor 1.
    let mut bad_flag = wire.clone();
    let flag_at = wire.len() - 8 - 3 - 1; // hash chunk is 8 length bytes + 3 bytes
    assert_eq!(wire[flag_at], 1);
    bad_flag[flag_at] = 7;
    assert!(matches!(decode_transaction(&bad_flag), Err(ProtocolError::MalformedTransaction)));

    // Trailing garbage after a complete transaction.
    let mut trailing = wire.clone();
    trailing.push(0);
    assert!(matches!(decode_transaction(&trailing), Err(ProtocolError::MalformedTransaction)));

    // Truncated: a declared length that runs past the end.
    let truncated = wire[..wire.len() - 1].to_vec();
    assert!(matches!(decode_transaction(&truncated), Err(ProtocolError::MalformedTransaction)));
}

#[test]
fn prepare_submission_matches_encoder() {
    let (tx, wire) = starkmint::cli::prepare_submission(
        5,
        b"prog".to_vec(),
        b"main".to_vec(),
        b"p.json".to_vec(),
        true,
        vec![0xab; 32],
    );
    assert_eq!(tx.id, 5);
    assert_eq!(wire, encode_transaction(&tx));
    let back = decode_transaction(&wire).expect("round trip");
    assert_eq!(back.id, 5);
    assert_eq!(back.transaction_hash, vec![0xab; 32]);
}

#[test]
fn broadcast_verdict_is_code_zero() {
    assert!(starkmint::cli::broadcast_accepted(0));
    assert!(!starkmint::cli::broadcast_accepted(1));
    assert!(!starkmint::cli::broadcast_accepted(42));
}
