//! The block model that the projectors read.
//!
//! A block is an ordered list of transactions; each transaction carries the
//! ordered logs of its receipt and the ordered (flattened) internal calls of
//! its trace.  The pipeline only ever reads these values.

use vstd::prelude::*;

verus! {

/// A point in time, as seconds and nanoseconds since the Unix epoch.
#[derive(Clone, Copy, PartialEq, Eq, Debug)]
pub struct Timestamp {
    pub seconds: i64,
    pub nanos: i32,
}

/// One log entry of a transaction receipt.
#[derive(Clone, Debug)]
pub struct Log {
    /// Address of the contract that emitted the log (20 bytes).
    pub address: Vec<u8>,
    /// Position of the log within the whole block.
    pub block_index: u32,
    /// Indexed topics; the first one identifies the event signature.
    pub topics: Vec<Vec<u8>>,
    /// The non-indexed payload.
    pub data: Vec<u8>,
}

/// One call of a transaction trace, top-level or nested.
#[derive(Clone, Debug)]
pub struct Call {
    /// Address of the called contract (20 bytes).
    pub address: Vec<u8>,
    /// Block-global monotone position marker of the call.
    pub begin_ordinal: u64,
    /// Whether the call's state changes were reverted.
    pub state_reverted: bool,
    /// Selector followed by the ABI-encoded arguments.
    pub input: Vec<u8>,
    /// ABI-encoded return value, possibly empty.
    pub return_data: Vec<u8>,
}

/// One transaction with its receipt logs and trace calls.
#[derive(Clone, Debug)]
pub struct Transaction {
    /// The transaction hash (32 bytes).
    pub hash: Vec<u8>,
    pub logs: Vec<Log>,
    pub calls: Vec<Call>,
}

/// A materialized block, owned by the caller and only read here.
#[derive(Clone, Debug)]
pub struct Block {
    pub number: u64,
    pub timestamp: Timestamp,
    pub transactions: Vec<Transaction>,
}

/// The tracked contract address as a byte sequence.
pub open spec fn tracked_address() -> Seq<u8> {
    seq![
        0xa0u8, 0xb8u8, 0x69u8, 0x91u8, 0xc6u8, 0x21u8, 0x8bu8, 0x36u8, 0xc1u8, 0xd1u8,
        0x9du8, 0x4au8, 0x2eu8, 0x9eu8, 0xb0u8, 0xceu8, 0x36u8, 0x06u8, 0xebu8, 0x48u8,
    ]
}

/// Whether an entry belongs to the tracked contract: exact byte equality.
pub open spec fn is_tracked(a: Seq<u8>) -> bool {
    a == tracked_address()
}

/// The tracked contract address as a vector.
pub fn tracked_address_vec() -> (v: Vec<u8>)
    ensures
        v@ == tracked_address(),
{
    let mut v: Vec<u8> = Vec::new();
    v.push(0xa0u8);
    v.push(0xb8u8);
    v.push(0x69u8);
    v.push(0x91u8);
    v.push(0xc6u8);
    v.push(0x21u8);
    v.push(0x8bu8);
    v.push(0x36u8);
    v.push(0xc1u8);
    v.push(0xd1u8);
    v.push(0x9du8);
    v.push(0x4au8);
    v.push(0x2eu8);
    v.push(0x9eu8);
    v.push(0xb0u8);
    v.push(0xceu8);
    v.push(0x36u8);
    v.push(0x06u8);
    v.push(0xebu8);
    v.push(0x48u8);
    proof {
        assert(v@ =~= tracked_address());
    }
    v
}

/// Exact byte-equality test against the tracked contract address.
pub fn is_tracked_address(a: &Vec<u8>) -> (r: bool)
    ensures
        r == is_tracked(a@),
{
    let t = tracked_address_vec();
    if a.len() != t.len() {
        proof {
            assert(a@.len() != tracked_address().len());
        }
        return false;
    }
    let mut i: usize = 0;
    while i < t.len()
        invariant
            a@.len() == t@.len(),
            t@ == tracked_address(),
            i <= t@.len(),
            forall|k: int| 0 <= k < i ==> a@[k] == t@[k],
        decreases t@.len() - i,
    {
        if a[i] != t[i] {
            proof {
                assert(a@ != tracked_address());
            }
            return false;
        }
        i += 1;
    }
    proof {
        assert(a@ =~= tracked_address());
    }
    true
}

} // verus!
