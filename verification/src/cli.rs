//! The submission tool's compute path: building and serializing a
//! transaction, and judging the engine's broadcast verdict. Reading the
//! program file and talking to the engine's RPC endpoint happen outside the
//! library.

use vstd::prelude::*;
use crate::tx::{Transaction, TransactionType, TransactionTypeView, spec_encode};

verus! {

/// Command-line arguments of the submission tool.
pub struct Cli {
    /// Path of the compiled program to submit.
    pub path: String,
    /// Entry-point function name within the program.
    pub function_name: String,
    /// Whether to enable trace on the transaction.
    pub enable_trace: bool,
    /// Whether to log verbosely.
    pub verbose: bool,
    /// URL of the engine node to submit to.
    pub url: String,
}

/// Wraps a program in a transaction and serializes it for submission.
/// `id` and `canonical_hash` come from the submitter: the hash is what the
/// excluded validator recomputes from the payload.
pub fn prepare_submission(
    id: u64,
    program: Vec<u8>,
    function: Vec<u8>,
    program_name: Vec<u8>,
    enable_trace: bool,
    canonical_hash: Vec<u8>,
) -> (r: (Transaction, Vec<u8>))
    ensures
        r.0.id == id,
        r.0.transaction_type@ == (TransactionTypeView::FunctionExecution {
            program: program@,
            function: function@,
            program_name: program_name@,
            enable_trace,
        }),
        r.0.transaction_hash@ == canonical_hash@,
        r.1@ == spec_encode(r.0@),
{
    let tx = Transaction::with_parts(
        id,
        TransactionType::FunctionExecution { program, function, program_name, enable_trace },
        canonical_hash,
    );
    let wire = crate::tx::encode_transaction(&tx);
    (tx, wire)
}

/// Whether the engine accepted a broadcast transaction: acceptance is
/// exactly response code zero.
pub fn broadcast_accepted(code: u32) -> (ok: bool)
    ensures
        ok == (code == 0),
{
    code == 0
}

} // verus!
