//! Transactions and their fixed binary wire encoding.
//!
//! A transaction is `{ id, transaction_type, transaction_hash }`, where the
//! payload is a closed set of tagged variants (currently one: execution of a
//! named program). The wire format is length-prefixed and canonical: a
//! malformed byte string is a protocol defect, never a business rejection.

use vstd::prelude::*;
use vstd::bytes::{spec_u64_to_le_bytes, spec_u64_from_le_bytes, u64_to_le_bytes, u64_from_le_bytes, lemma_auto_spec_u64_to_from_le_bytes};
use vstd::slice::{slice_subrange, slice_to_vec};

verus! {

/// The payload of a transaction: a closed set of variants, handled
/// exhaustively wherever a payload is inspected.
#[derive(Clone, Debug)]
pub enum TransactionType {
    /// Execution of a named program at a given entry point, with an
    /// optional execution trace.
    FunctionExecution {
        program: Vec<u8>,
        function: Vec<u8>,
        program_name: Vec<u8>,
        enable_trace: bool,
    },
}

/// A transaction as admitted to the mempool and applied during a block.
/// Immutable once constructed; `transaction_hash` is the hash the submitter
/// claims the validator will recompute from the payload.
#[derive(Clone, Debug)]
pub struct Transaction {
    pub id: u64,
    pub transaction_type: TransactionType,
    pub transaction_hash: Vec<u8>,
}

/// Mathematical model of a payload.
#[verifier::ext_equal]
pub ghost enum TransactionTypeView {
    FunctionExecution {
        program: Seq<u8>,
        function: Seq<u8>,
        program_name: Seq<u8>,
        enable_trace: bool,
    },
}

/// Mathematical model of a transaction.
#[verifier::ext_equal]
pub ghost struct TransactionView {
    pub id: u64,
    pub transaction_type: TransactionTypeView,
    pub transaction_hash: Seq<u8>,
}

impl View for TransactionType {
    type V = TransactionTypeView;

    open spec fn view(&self) -> TransactionTypeView {
        match self {
            TransactionType::FunctionExecution { program, function, program_name, enable_trace } =>
                TransactionTypeView::FunctionExecution {
                    program: program@,
                    function: function@,
                    program_name: program_name@,
                    enable_trace: *enable_trace,
                },
        }
    }
}

impl View for Transaction {
    type V = TransactionView;

    open spec fn view(&self) -> TransactionView {
        TransactionView {
            id: self.id,
            transaction_type: self.transaction_type@,
            transaction_hash: self.transaction_hash@,
        }
    }
}

impl TransactionTypeView {
    /// Every field is small enough for its eight-byte length prefix.
    pub open spec fn wf(self) -> bool {
        match self {
            TransactionTypeView::FunctionExecution { program, function, program_name, .. } =>
                program.len() <= u64::MAX && function.len() <= u64::MAX
                    && program_name.len() <= u64::MAX,
        }
    }
}

impl TransactionView {
    /// Every field is small enough for its eight-byte length prefix.
    pub open spec fn wf(self) -> bool {
        self.transaction_type.wf() && self.transaction_hash.len() <= u64::MAX
    }
}

/// A length-prefixed byte chunk: eight little-endian length bytes, then the
/// bytes themselves.
pub open spec fn spec_encode_chunk(b: Seq<u8>) -> Seq<u8> {
    spec_u64_to_le_bytes(b.len() as u64) + b
}

/// Wire encoding of a payload: tag byte, then each field in order.
pub open spec fn spec_encode_payload(t: TransactionTypeView) -> Seq<u8> {
    match t {
        TransactionTypeView::FunctionExecution { program, function, program_name, enable_trace } => {
            seq![0u8] + spec_encode_chunk(program) + spec_encode_chunk(function)
                + spec_encode_chunk(program_name)
                + seq![if enable_trace { 1u8 } else { 0u8 }]
        },
    }
}

/// Wire encoding of a whole transaction: id, payload, claimed hash.
pub open spec fn spec_encode(tx: TransactionView) -> Seq<u8> {
    spec_u64_to_le_bytes(tx.id) + spec_encode_payload(tx.transaction_type)
        + spec_encode_chunk(tx.transaction_hash)
}

/// The eight-byte little-endian integer stored at offset `i`.
pub open spec fn spec_read_u64_at(b: Seq<u8>, i: int) -> u64 {
    spec_u64_from_le_bytes(b.subrange(i, i + 8))
}

/// Spec-level parser for the wire format. `None` on any malformed input:
/// short buffer, unknown payload tag, non-boolean trace flag, or trailing
/// bytes after the claimed hash.
pub open spec fn spec_decode(b: Seq<u8>) -> Option<TransactionView> {
    if b.len() < 17 {
        None
    } else {
        let id = spec_read_u64_at(b, 0);
        if b[8] != 0u8 {
            None
        } else {
            let plen = spec_read_u64_at(b, 9) as int;
            if b.len() < 25 + plen {
                None
            } else {
                let program = b.subrange(17, 17 + plen);
                let flen = spec_read_u64_at(b, 17 + plen) as int;
                let f_start = 25 + plen;
                if b.len() < f_start + flen + 8 {
                    None
                } else {
                    let function = b.subrange(f_start, f_start + flen);
                    let nlen = spec_read_u64_at(b, f_start + flen) as int;
                    let n_start = f_start + flen + 8;
                    if b.len() < n_start + nlen + 1 {
                        None
                    } else {
                        let program_name = b.subrange(n_start, n_start + nlen);
                        let flag = b[n_start + nlen];
                        if flag != 0u8 && flag != 1u8 {
                            None
                        } else {
                            let h_at = n_start + nlen + 1;
                            if b.len() < h_at + 8 {
                                None
                            } else {
                                let hlen = spec_read_u64_at(b, h_at) as int;
                                let h_start = h_at + 8;
                                if b.len() != h_start + hlen {
                                    None
                                } else {
                                    Some(TransactionView {
                                        id,
                                        transaction_type: TransactionTypeView::FunctionExecution {
                                            program,
                                            function,
                                            program_name,
                                            enable_trace: flag == 1u8,
                                        },
                                        transaction_hash: b.subrange(h_start, h_start + hlen),
                                    })
                                }
                            }
                        }
                    }
                }
            }
        }
    }
}

/// Wire-level and storage-level defects. Both are fatal to the process:
/// continuing past either risks silent state divergence between nodes.
#[derive(Clone, Copy, Debug, PartialEq, Eq, Structural)]
pub enum ProtocolError {
    /// A transaction byte string that the wire grammar does not accept.
    MalformedTransaction,
    /// A persisted height record that is not exactly one encoded height.
    MalformedHeightRecord,
}

impl Transaction {
    /// Builds a transaction from its parts; the claimed hash is the one the
    /// submitter computed for the payload.
    pub fn with_parts(id: u64, transaction_type: TransactionType, transaction_hash: Vec<u8>) -> (tx: Transaction)
        ensures
            tx.id == id,
            tx.transaction_type == transaction_type,
            tx.transaction_hash == transaction_hash,
    {
        Transaction { id, transaction_type, transaction_hash }
    }
}

/// Appends the length-prefixed chunk for `b` to `out`.
fn push_chunk(out: &mut Vec<u8>, b: &Vec<u8>)
    ensures
        final(out)@ == old(out)@ + spec_encode_chunk(b@),
{
    proof {
        lemma_auto_spec_u64_to_from_le_bytes();
    }
    let mut len_bytes = u64_to_le_bytes(b.len() as u64);
    out.append(&mut len_bytes);
    out.extend_from_slice(b.as_slice());
}

/// Serializes a transaction into its wire encoding.
pub fn encode_transaction(tx: &Transaction) -> (out: Vec<u8>)
    ensures
        out@ == spec_encode(tx@),
{
    proof {
        lemma_auto_spec_u64_to_from_le_bytes();
    }
    let mut out = u64_to_le_bytes(tx.id);
    match &tx.transaction_type {
        TransactionType::FunctionExecution { program, function, program_name, enable_trace } => {
            out.push(0u8);
            push_chunk(&mut out, program);
            push_chunk(&mut out, function);
            push_chunk(&mut out, program_name);
            out.push(if *enable_trace { 1u8 } else { 0u8 });
        },
    }
    push_chunk(&mut out, &tx.transaction_hash);
    out
}

/// Reads the eight-byte little-endian integer at offset `i`.
fn read_u64_at(bytes: &Vec<u8>, i: usize) -> (r: u64)
    requires
        i + 8 <= bytes@.len(),
    ensures
        r == spec_read_u64_at(bytes@, i as int),
{
    // bytes.len() fits usize, so i + 8 cannot overflow under the requires
    let _n: usize = bytes.len();
    let s = slice_subrange(bytes.as_slice(), i, i + 8);
    u64_from_le_bytes(s)
}

/// Copies `len` bytes starting at `start` out of `bytes`.
fn read_chunk(bytes: &Vec<u8>, start: usize, len: usize) -> (out: Vec<u8>)
    requires
        start + len <= bytes@.len(),
    ensures
        out@ == bytes@.subrange(start as int, start as int + len as int),
{
    // bytes.len() fits usize, so start + len cannot overflow under the requires
    let _n: usize = bytes.len();
    slice_to_vec(slice_subrange(bytes.as_slice(), start, start + len))
}

/// Parses a wire-encoded transaction. Returns the fatal protocol error
/// exactly on the byte strings that the wire grammar does not accept.
pub fn decode_transaction(bytes: &Vec<u8>) -> (r: Result<Transaction, ProtocolError>)
    ensures
        match r {
            Ok(tx) => spec_decode(bytes@) == Some(tx@),
            Err(e) => spec_decode(bytes@) is None && e == ProtocolError::MalformedTransaction,
        },
{
    let n = bytes.len();
    if n < 17 {
        return Err(ProtocolError::MalformedTransaction);
    }
    let id = read_u64_at(bytes, 0);
    if bytes[8] != 0u8 {
        return Err(ProtocolError::MalformedTransaction);
    }
    let plen64 = read_u64_at(bytes, 9);
    if n < 25 || plen64 > (n as u64) - 25 {
        return Err(ProtocolError::MalformedTransaction);
    }
    let plen = plen64 as usize;
    let program = read_chunk(bytes, 17, plen);
    let flen64 = read_u64_at(bytes, 17 + plen);
    let f_start = 25 + plen;
    let rem_f = n - f_start;
    if rem_f < 8 || flen64 > (rem_f as u64) - 8 {
        return Err(ProtocolError::MalformedTransaction);
    }
    let flen = flen64 as usize;
    let function = read_chunk(bytes, f_start, flen);
    let nlen64 = read_u64_at(bytes, f_start + flen);
    let n_start = f_start + flen + 8;
    let rem_n = n - n_start;
    if rem_n < 1 || nlen64 > (rem_n as u64) - 1 {
        return Err(ProtocolError::MalformedTransaction);
    }
    let nlen = nlen64 as usize;
    let program_name = read_chunk(bytes, n_start, nlen);
    let flag = bytes[n_start + nlen];
    if flag != 0u8 && flag != 1u8 {
        return Err(ProtocolError::MalformedTransaction);
    }
    let h_at = n_start + nlen + 1;
    let rem_h = n - h_at;
    if rem_h < 8 {
        return Err(ProtocolError::MalformedTransaction);
    }
    let hlen64 = read_u64_at(bytes, h_at);
    let h_start = h_at + 8;
    if hlen64 != (n - h_start) as u64 {
        return Err(ProtocolError::MalformedTransaction);
    }
    let hlen = hlen64 as usize;
    let transaction_hash = read_chunk(bytes, h_start, hlen);
    let tx = Transaction {
        id,
        transaction_type: TransactionType::FunctionExecution {
            program,
            function,
            program_name,
            enable_trace: flag == 1u8,
        },
        transaction_hash,
    };
    proof {
        assert(spec_decode(bytes@) =~= Some(tx@));
    }
    Ok(tx)
}

/// Law: the wire format round-trips. Decoding the encoding of any
/// well-formed transaction yields that transaction back, exactly.
pub proof fn lemma_encode_decode(v: TransactionView)
    requires
        v.wf(),
    ensures
        spec_decode(spec_encode(v)) == Some(v),
{
    lemma_auto_spec_u64_to_from_le_bytes();
    let e = spec_encode(v);
    match v.transaction_type {
        TransactionTypeView::FunctionExecution { program, function, program_name, enable_trace } => {
            let plen = program.len() as int;
            let flen = function.len() as int;
            let nlen = program_name.len() as int;
            let hlen = v.transaction_hash.len() as int;
            assert(e.len() == 42 + plen + flen + nlen + hlen);
            assert(e.subrange(0, 8) =~= spec_u64_to_le_bytes(v.id));
            assert(e[8] == 0u8);
            assert(e.subrange(9, 17) =~= spec_u64_to_le_bytes(program.len() as u64));
            assert(spec_read_u64_at(e, 9) as int == plen);
            assert(e.subrange(17, 17 + plen) =~= program);
            assert(e.subrange(17 + plen, 25 + plen) =~= spec_u64_to_le_bytes(function.len() as u64));
            assert(spec_read_u64_at(e, 17 + plen) as int == flen);
            let f_start = 25 + plen;
            assert(e.subrange(f_start, f_start + flen) =~= function);
            assert(e.subrange(f_start + flen, f_start + flen + 8) =~= spec_u64_to_le_bytes(
                program_name.len() as u64));
            assert(spec_read_u64_at(e, f_start + flen) as int == nlen);
            let n_start = f_start + flen + 8;
            assert(e.subrange(n_start, n_start + nlen) =~= program_name);
            assert(e[n_start + nlen] == if enable_trace { 1u8 } else { 0u8 });
            let h_at = n_start + nlen + 1;
            assert(e.subrange(h_at, h_at + 8) =~= spec_u64_to_le_bytes(
                v.transaction_hash.len() as u64));
            assert(spec_read_u64_at(e, h_at) as int == hlen);
            let h_start = h_at + 8;
            assert(e.subrange(h_start, h_start + hlen) =~= v.transaction_hash);
            assert(spec_decode(e) =~= Some(v));
        },
    }
}

/// Law: the wire format is canonical. Bytes that parse are exactly the
/// encoding of what they parse to, so a byte string holds at most one
/// transaction and re-encoding reproduces it bit for bit.
pub proof fn lemma_decode_encode(b: Seq<u8>)
    requires
        spec_decode(b) is Some,
    ensures
        spec_encode(spec_decode(b).unwrap()) == b,
{
    lemma_auto_spec_u64_to_from_le_bytes();
    let v = spec_decode(b).unwrap();
    let plen = spec_read_u64_at(b, 9) as int;
    let f_start = 25 + plen;
    let flen = spec_read_u64_at(b, 17 + plen) as int;
    let n_start = f_start + flen + 8;
    let nlen = spec_read_u64_at(b, f_start + flen) as int;
    let h_at = n_start + nlen + 1;
    let hlen = spec_read_u64_at(b, h_at) as int;
    let h_start = h_at + 8;
    assert(spec_u64_to_le_bytes(spec_read_u64_at(b, 0)) == b.subrange(0, 8));
    assert(spec_u64_to_le_bytes(spec_read_u64_at(b, 9)) == b.subrange(9, 17));
    assert(spec_u64_to_le_bytes(spec_read_u64_at(b, 17 + plen)) == b.subrange(17 + plen, 25 + plen));
    assert(spec_u64_to_le_bytes(spec_read_u64_at(b, f_start + flen)) == b.subrange(
        f_start + flen, n_start));
    assert(spec_u64_to_le_bytes(spec_read_u64_at(b, h_at)) == b.subrange(h_at, h_start));
    assert(b.len() == h_start + hlen);
    assert(spec_encode(v) =~= b);
}

} // verus!
