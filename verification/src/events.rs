//! The event projector: one verified scan per tracked event signature.
//!
//! A log qualifies for a kind when the tracked contract emitted it, its first
//! topic equals the kind's signature hash, and its shape (topic count, topic
//! widths, data length) is the one the signature encodes.  Each qualifying
//! log yields exactly one record, in block traversal order; any other log is
//! silently excluded from that kind's batch.

use vstd::prelude::*;

use crate::model::Block;
use crate::model::Log;
use crate::model::Timestamp;
use crate::model::Transaction;
use crate::model::is_tracked;
use crate::model::is_tracked_address;
use crate::abi::addr_at;
use crate::abi::addr_vec_at;
use crate::abi::be_val;
use crate::abi::check_topic;
use crate::abi::copy_bytes32;
use crate::abi::dec_str;
use crate::abi::dec_word_string;
use crate::abi::hash_hex_string;
use crate::abi::hex_bytes;
use crate::abi::hex_of;
use crate::abi::hex_str;
use crate::abi::topic_is;
use crate::abi::word_at;

use crate::records::UsdcAdminChanged;
use crate::records::UsdcApproval;
use crate::records::UsdcAuthorizationCanceled;
use crate::records::UsdcAuthorizationUsed;
use crate::records::UsdcBlacklisted;
use crate::records::UsdcBlacklisterChanged;
use crate::records::UsdcBurn;
use crate::records::UsdcMasterMinterChanged;
use crate::records::UsdcMint;
use crate::records::UsdcMinterConfigured;
use crate::records::UsdcMinterRemoved;
use crate::records::UsdcOwnershipTransferred;
use crate::records::UsdcPause;
use crate::records::UsdcPauserChanged;
use crate::records::UsdcRescuerChanged;
use crate::records::UsdcTransfer;
use crate::records::UsdcUnBlacklisted;
use crate::records::UsdcUnpause;
use crate::records::UsdcUpgraded;
use crate::scan::block_srcs;
use crate::scan::block_srcs_upto;
use crate::scan::logs_of;
use crate::scan::src_opt;
use crate::scan::tx_srcs;
use crate::scan::tx_srcs_upto;

verus! {

pub const EVT_ADMIN_CHANGED_T0: u64 = 0x7e644d79422f17c0;

pub const EVT_ADMIN_CHANGED_T1: u64 = 0x1e4894b5f4f588d3;

pub const EVT_ADMIN_CHANGED_T2: u64 = 0x31ebfa28653d42ae;

pub const EVT_ADMIN_CHANGED_T3: u64 = 0x832dc59e38c9798f;

/// Whether a log is a admin_changed event of the tracked contract.
pub open spec fn q_admin_changed_event(l: Log) -> bool {
    &&& is_tracked(l.address@)
    &&& l.topics@.len() == 1
    &&& topic_is(
        l.topics@[0]@,
        EVT_ADMIN_CHANGED_T0 as int,
        EVT_ADMIN_CHANGED_T1 as int,
        EVT_ADMIN_CHANGED_T2 as int,
        EVT_ADMIN_CHANGED_T3 as int,
    )
    &&& l.data@.len() == 64
}

pub open spec fn q_admin_changed_event_fn() -> spec_fn(Log) -> bool {
    |l: Log| q_admin_changed_event(l)
}

/// The field contents of a admin_changed record built from one log.
pub open spec fn admin_changed_event_fields(
    r: UsdcAdminChanged,
    number: u64,
    ts: Timestamp,
    hash: Seq<u8>,
    l: Log,
) -> bool {
    &&& r.evt_tx_hash@ == hex_str(hash)
    &&& r.evt_index == l.block_index
    &&& r.evt_block_time == Some(ts)
    &&& r.evt_block_number == number
    &&& r.previous_admin@ == addr_at(l.data@, 0)
    &&& r.new_admin@ == addr_at(l.data@, 32)
}

/// A admin_changed record as the block scan must build it from one source.
pub open spec fn admin_changed_event_rec_ok(r: UsdcAdminChanged, b: Block, t: Transaction, l: Log) -> bool {
    admin_changed_event_fields(r, b.number, b.timestamp, t.hash@, l)
}

/// The admin_changed sources of a block, in traversal order.
pub open spec fn admin_changed_event_srcs(b: Block) -> Seq<(Transaction, Log)> {
    block_srcs(b, logs_of(), src_opt(q_admin_changed_event_fn()))
}

/// Decodes one log against the admin_changed signature.
fn dec_admin_changed_event(
    number: u64,
    ts: &Timestamp,
    hx: &Vec<u8>,
    hash: Ghost<Seq<u8>>,
    l: &Log,
) -> (r: Option<UsdcAdminChanged>)
    requires
        hx@ == hex_bytes(hash@),
    ensures
        r is Some <==> q_admin_changed_event(*l),
        r is Some ==> admin_changed_event_fields(r->Some_0, number, *ts, hash@, *l),
{
    if !is_tracked_address(&l.address) {
        return None;
    }
    if l.topics.len() != 1 {
        return None;
    }
    if !check_topic(&l.topics[0], EVT_ADMIN_CHANGED_T0, EVT_ADMIN_CHANGED_T1, EVT_ADMIN_CHANGED_T2, EVT_ADMIN_CHANGED_T3) {
        return None;
    }
    if l.data.len() != 64 {
        return None;
    }
    Some(
        UsdcAdminChanged {
            evt_tx_hash: hash_hex_string(hx, hash),
            evt_index: l.block_index,
            evt_block_time: Some(*ts),
            evt_block_number: number,
            previous_admin: addr_vec_at(&l.data, 0),
            new_admin: addr_vec_at(&l.data, 32),
        },
    )
}


/// Scans the whole block for admin_changed_event records.
pub fn scan_admin_changed_events(blk: &Block) -> (out: Vec<UsdcAdminChanged>)
    ensures
        out@.len() == admin_changed_event_srcs(*blk).len(),
        forall|k: int|
            0 <= k < out@.len() ==> admin_changed_event_rec_ok(
                #[trigger] out@[k],
                *blk,
                admin_changed_event_srcs(*blk)[k].0,
                admin_changed_event_srcs(*blk)[k].1,
            ),
{
    let ghost f = src_opt(q_admin_changed_event_fn());
    let mut out: Vec<UsdcAdminChanged> = Vec::new();
    let mut i: usize = 0;
    while i < blk.transactions.len()
        invariant
            i <= blk.transactions@.len(),
            f == src_opt(q_admin_changed_event_fn()),
            out@.len() == block_srcs_upto(*blk, logs_of(), f, i as int).len(),
            forall|k: int|
                0 <= k < out@.len() ==> admin_changed_event_rec_ok(
                    #[trigger] out@[k],
                    *blk,
                    block_srcs_upto(*blk, logs_of(), f, i as int)[k].0,
                    block_srcs_upto(*blk, logs_of(), f, i as int)[k].1,
                ),
        decreases blk.transactions@.len() - i,
    {
        let tx = &blk.transactions[i];
        let hx = hex_of(&tx.hash);
        let mut j: usize = 0;
        while j < tx.logs.len()
            invariant
                i < blk.transactions@.len(),
                *tx == blk.transactions@[i as int],
                hx@ == hex_bytes(tx.hash@),
                j <= tx.logs@.len(),
                f == src_opt(q_admin_changed_event_fn()),
                out@.len() == (block_srcs_upto(*blk, logs_of(), f, i as int) + tx_srcs_upto(
                    *tx,
                    tx.logs@,
                    f,
                    j as int,
                )).len(),
                forall|k: int|
                    0 <= k < out@.len() ==> admin_changed_event_rec_ok(
                        #[trigger] out@[k],
                        *blk,
                        (block_srcs_upto(*blk, logs_of(), f, i as int) + tx_srcs_upto(
                            *tx,
                            tx.logs@,
                            f,
                            j as int,
                        ))[k].0,
                        (block_srcs_upto(*blk, logs_of(), f, i as int) + tx_srcs_upto(
                            *tx,
                            tx.logs@,
                            f,
                            j as int,
                        ))[k].1,
                    ),
            decreases tx.logs@.len() - j,
        {
            let e = &tx.logs[j];
            let ghost pre = block_srcs_upto(*blk, logs_of(), f, i as int) + tx_srcs_upto(
                *tx,
                tx.logs@,
                f,
                j as int,
            );
            let r = dec_admin_changed_event(blk.number, &blk.timestamp, &hx, Ghost(tx.hash@), e);
            proof {
                assert(f(*tx, *e) == if q_admin_changed_event(*e) {
                    Some((*tx, *e))
                } else {
                    None::<(Transaction, Log)>
                });
                assert(tx_srcs_upto(*tx, tx.logs@, f, j + 1 as int) == tx_srcs_upto(
                    *tx,
                    tx.logs@,
                    f,
                    j as int,
                ) + match f(*tx, tx.logs@[j as int]) {
                    Some(p) => seq![p],
                    None => Seq::<(Transaction, Log)>::empty(),
                });
            }
            match r {
                Some(rec) => {
                    out.push(rec);
                    proof {
                        assert(block_srcs_upto(*blk, logs_of(), f, i as int) + tx_srcs_upto(
                            *tx,
                            tx.logs@,
                            f,
                            j + 1 as int,
                        ) =~= pre + seq![(*tx, *e)]);
                    }
                },
                None => {
                    proof {
                        assert(block_srcs_upto(*blk, logs_of(), f, i as int) + tx_srcs_upto(
                            *tx,
                            tx.logs@,
                            f,
                            j + 1 as int,
                        ) =~= pre);
                    }
                },
            }
            j += 1;
        }
        proof {
            assert(logs_of()(*tx) == tx.logs@);
            assert(tx_srcs_upto(*tx, tx.logs@, f, tx.logs@.len() as int) == tx_srcs(
                *tx,
                logs_of(),
                f,
            ));
            assert(block_srcs_upto(*blk, logs_of(), f, i + 1 as int) == block_srcs_upto(
                *blk,
                logs_of(),
                f,
                i as int,
            ) + tx_srcs(blk.transactions@[i as int], logs_of(), f));
        }
        i += 1;
    }
    proof {
        assert(admin_changed_event_srcs(*blk) == block_srcs_upto(
            *blk,
            logs_of(),
            f,
            blk.transactions@.len() as int,
        ));
    }
    out
}

pub const EVT_APPROVAL_T0: u64 = 0x8c5be1e5ebec7d5b;

pub const EVT_APPROVAL_T1: u64 = 0xd14f71427d1e84f3;

pub const EVT_APPROVAL_T2: u64 = 0xdd0314c0f7b2291e;

pub const EVT_APPROVAL_T3: u64 = 0x5b200ac8c7c3b925;

/// Whether a log is a approval event of the tracked contract.
pub open spec fn q_approval_event(l: Log) -> bool {
    &&& is_tracked(l.address@)
    &&& l.topics@.len() == 3
    &&& topic_is(
        l.topics@[0]@,
        EVT_APPROVAL_T0 as int,
        EVT_APPROVAL_T1 as int,
        EVT_APPROVAL_T2 as int,
        EVT_APPROVAL_T3 as int,
    )
    &&& l.topics@[1]@.len() == 32
    &&& l.topics@[2]@.len() == 32
    &&& l.data@.len() == 32
}

pub open spec fn q_approval_event_fn() -> spec_fn(Log) -> bool {
    |l: Log| q_approval_event(l)
}

/// The field contents of a approval record built from one log.
pub open spec fn approval_event_fields(
    r: UsdcApproval,
    number: u64,
    ts: Timestamp,
    hash: Seq<u8>,
    l: Log,
) -> bool {
    &&& r.evt_tx_hash@ == hex_str(hash)
    &&& r.evt_index == l.block_index
    &&& r.evt_block_time == Some(ts)
    &&& r.evt_block_number == number
    &&& r.owner@ == addr_at(l.topics@[1]@, 0)
    &&& r.spender@ == addr_at(l.topics@[2]@, 0)
    &&& r.value@ == dec_str(be_val(word_at(l.data@, 0)))
}

/// A approval record as the block scan must build it from one source.
pub open spec fn approval_event_rec_ok(r: UsdcApproval, b: Block, t: Transaction, l: Log) -> bool {
    approval_event_fields(r, b.number, b.timestamp, t.hash@, l)
}

/// The approval sources of a block, in traversal order.
pub open spec fn approval_event_srcs(b: Block) -> Seq<(Transaction, Log)> {
    block_srcs(b, logs_of(), src_opt(q_approval_event_fn()))
}

/// Decodes one log against the approval signature.
fn dec_approval_event(
    number: u64,
    ts: &Timestamp,
    hx: &Vec<u8>,
    hash: Ghost<Seq<u8>>,
    l: &Log,
) -> (r: Option<UsdcApproval>)
    requires
        hx@ == hex_bytes(hash@),
    ensures
        r is Some <==> q_approval_event(*l),
        r is Some ==> approval_event_fields(r->Some_0, number, *ts, hash@, *l),
{
    if !is_tracked_address(&l.address) {
        return None;
    }
    if l.topics.len() != 3 {
        return None;
    }
    if !check_topic(&l.topics[0], EVT_APPROVAL_T0, EVT_APPROVAL_T1, EVT_APPROVAL_T2, EVT_APPROVAL_T3) {
        return None;
    }
    if l.topics[1].len() != 32 {
        return None;
    }
    if l.topics[2].len() != 32 {
        return None;
    }
    if l.data.len() != 32 {
        return None;
    }
    Some(
        UsdcApproval {
            evt_tx_hash: hash_hex_string(hx, hash),
            evt_index: l.block_index,
            evt_block_time: Some(*ts),
            evt_block_number: number,
            owner: addr_vec_at(&l.topics[1], 0),
            spender: addr_vec_at(&l.topics[2], 0),
            value: dec_word_string(&l.data, 0),
        },
    )
}


/// Scans the whole block for approval_event records.
pub fn scan_approval_events(blk: &Block) -> (out: Vec<UsdcApproval>)
    ensures
        out@.len() == approval_event_srcs(*blk).len(),
        forall|k: int|
            0 <= k < out@.len() ==> approval_event_rec_ok(
                #[trigger] out@[k],
                *blk,
                approval_event_srcs(*blk)[k].0,
                approval_event_srcs(*blk)[k].1,
            ),
{
    let ghost f = src_opt(q_approval_event_fn());
    let mut out: Vec<UsdcApproval> = Vec::new();
    let mut i: usize = 0;
    while i < blk.transactions.len()
        invariant
            i <= blk.transactions@.len(),
            f == src_opt(q_approval_event_fn()),
            out@.len() == block_srcs_upto(*blk, logs_of(), f, i as int).len(),
            forall|k: int|
                0 <= k < out@.len() ==> approval_event_rec_ok(
                    #[trigger] out@[k],
                    *blk,
                    block_srcs_upto(*blk, logs_of(), f, i as int)[k].0,
                    block_srcs_upto(*blk, logs_of(), f, i as int)[k].1,
                ),
        decreases blk.transactions@.len() - i,
    {
        let tx = &blk.transactions[i];
        let hx = hex_of(&tx.hash);
        let mut j: usize = 0;
        while j < tx.logs.len()
            invariant
                i < blk.transactions@.len(),
                *tx == blk.transactions@[i as int],
                hx@ == hex_bytes(tx.hash@),
                j <= tx.logs@.len(),
                f == src_opt(q_approval_event_fn()),
                out@.len() == (block_srcs_upto(*blk, logs_of(), f, i as int) + tx_srcs_upto(
                    *tx,
                    tx.logs@,
                    f,
                    j as int,
                )).len(),
                forall|k: int|
                    0 <= k < out@.len() ==> approval_event_rec_ok(
                        #[trigger] out@[k],
                        *blk,
                        (block_srcs_upto(*blk, logs_of(), f, i as int) + tx_srcs_upto(
                            *tx,
                            tx.logs@,
                            f,
                            j as int,
                        ))[k].0,
                        (block_srcs_upto(*blk, logs_of(), f, i as int) + tx_srcs_upto(
                            *tx,
                            tx.logs@,
                            f,
                            j as int,
                        ))[k].1,
                    ),
            decreases tx.logs@.len() - j,
        {
            let e = &tx.logs[j];
            let ghost pre = block_srcs_upto(*blk, logs_of(), f, i as int) + tx_srcs_upto(
                *tx,
                tx.logs@,
                f,
                j as int,
            );
            let r = dec_approval_event(blk.number, &blk.timestamp, &hx, Ghost(tx.hash@), e);
            proof {
                assert(f(*tx, *e) == if q_approval_event(*e) {
                    Some((*tx, *e))
                } else {
                    None::<(Transaction, Log)>
                });
                assert(tx_srcs_upto(*tx, tx.logs@, f, j + 1 as int) == tx_srcs_upto(
                    *tx,
                    tx.logs@,
                    f,
                    j as int,
                ) + match f(*tx, tx.logs@[j as int]) {
                    Some(p) => seq![p],
                    None => Seq::<(Transaction, Log)>::empty(),
                });
            }
            match r {
                Some(rec) => {
                    out.push(rec);
                    proof {
                        assert(block_srcs_upto(*blk, logs_of(), f, i as int) + tx_srcs_upto(
                            *tx,
                            tx.logs@,
                            f,
                            j + 1 as int,
                        ) =~= pre + seq![(*tx, *e)]);
                    }
                },
                None => {
                    proof {
                        assert(block_srcs_upto(*blk, logs_of(), f, i as int) + tx_srcs_upto(
                            *tx,
                            tx.logs@,
                            f,
                            j + 1 as int,
                        ) =~= pre);
                    }
                },
            }
            j += 1;
        }
        proof {
            assert(logs_of()(*tx) == tx.logs@);
            assert(tx_srcs_upto(*tx, tx.logs@, f, tx.logs@.len() as int) == tx_srcs(
                *tx,
                logs_of(),
                f,
            ));
            assert(block_srcs_upto(*blk, logs_of(), f, i + 1 as int) == block_srcs_upto(
                *blk,
                logs_of(),
                f,
                i as int,
            ) + tx_srcs(blk.transactions@[i as int], logs_of(), f));
        }
        i += 1;
    }
    proof {
        assert(approval_event_srcs(*blk) == block_srcs_upto(
            *blk,
            logs_of(),
            f,
            blk.transactions@.len() as int,
        ));
    }
    out
}

pub const EVT_AUTHORIZATION_CANCELED_T0: u64 = 0x1cdd46ff242716cd;

pub const EVT_AUTHORIZATION_CANCELED_T1: u64 = 0xaa72d159d339a485;

pub const EVT_AUTHORIZATION_CANCELED_T2: u64 = 0xb3438398348d68f0;

pub const EVT_AUTHORIZATION_CANCELED_T3: u64 = 0x9d7c8c0a59353d81;

/// Whether a log is a authorization_canceled event of the tracked contract.
pub open spec fn q_authorization_canceled_event(l: Log) -> bool {
    &&& is_tracked(l.address@)
    &&& l.topics@.len() == 3
    &&& topic_is(
        l.topics@[0]@,
        EVT_AUTHORIZATION_CANCELED_T0 as int,
        EVT_AUTHORIZATION_CANCELED_T1 as int,
        EVT_AUTHORIZATION_CANCELED_T2 as int,
        EVT_AUTHORIZATION_CANCELED_T3 as int,
    )
    &&& l.topics@[1]@.len() == 32
    &&& l.topics@[2]@.len() == 32
    &&& l.data@.len() == 0
}

pub open spec fn q_authorization_canceled_event_fn() -> spec_fn(Log) -> bool {
    |l: Log| q_authorization_canceled_event(l)
}

/// The field contents of a authorization_canceled record built from one log.
pub open spec fn authorization_canceled_event_fields(
    r: UsdcAuthorizationCanceled,
    number: u64,
    ts: Timestamp,
    hash: Seq<u8>,
    l: Log,
) -> bool {
    &&& r.evt_tx_hash@ == hex_str(hash)
    &&& r.evt_index == l.block_index
    &&& r.evt_block_time == Some(ts)
    &&& r.evt_block_number == number
    &&& r.authorizer@ == addr_at(l.topics@[1]@, 0)
    &&& r.nonce@ == l.topics@[2]@
}

/// A authorization_canceled record as the block scan must build it from one source.
pub open spec fn authorization_canceled_event_rec_ok(r: UsdcAuthorizationCanceled, b: Block, t: Transaction, l: Log) -> bool {
    authorization_canceled_event_fields(r, b.number, b.timestamp, t.hash@, l)
}

/// The authorization_canceled sources of a block, in traversal order.
pub open spec fn authorization_canceled_event_srcs(b: Block) -> Seq<(Transaction, Log)> {
    block_srcs(b, logs_of(), src_opt(q_authorization_canceled_event_fn()))
}

/// Decodes one log against the authorization_canceled signature.
fn dec_authorization_canceled_event(
    number: u64,
    ts: &Timestamp,
    hx: &Vec<u8>,
    hash: Ghost<Seq<u8>>,
    l: &Log,
) -> (r: Option<UsdcAuthorizationCanceled>)
    requires
        hx@ == hex_bytes(hash@),
    ensures
        r is Some <==> q_authorization_canceled_event(*l),
        r is Some ==> authorization_canceled_event_fields(r->Some_0, number, *ts, hash@, *l),
{
    if !is_tracked_address(&l.address) {
        return None;
    }
    if l.topics.len() != 3 {
        return None;
    }
    if !check_topic(&l.topics[0], EVT_AUTHORIZATION_CANCELED_T0, EVT_AUTHORIZATION_CANCELED_T1, EVT_AUTHORIZATION_CANCELED_T2, EVT_AUTHORIZATION_CANCELED_T3) {
        return None;
    }
    if l.topics[1].len() != 32 {
        return None;
    }
    if l.topics[2].len() != 32 {
        return None;
    }
    if l.data.len() != 0 {
        return None;
    }
    Some(
        UsdcAuthorizationCanceled {
            evt_tx_hash: hash_hex_string(hx, hash),
            evt_index: l.block_index,
            evt_block_time: Some(*ts),
            evt_block_number: number,
            authorizer: addr_vec_at(&l.topics[1], 0),
            nonce: copy_bytes32(&l.topics[2]),
        },
    )
}


/// Scans the whole block for authorization_canceled_event records.
pub fn scan_authorization_canceled_events(blk: &Block) -> (out: Vec<UsdcAuthorizationCanceled>)
    ensures
        out@.len() == authorization_canceled_event_srcs(*blk).len(),
        forall|k: int|
            0 <= k < out@.len() ==> authorization_canceled_event_rec_ok(
                #[trigger] out@[k],
                *blk,
                authorization_canceled_event_srcs(*blk)[k].0,
                authorization_canceled_event_srcs(*blk)[k].1,
            ),
{
    let ghost f = src_opt(q_authorization_canceled_event_fn());
    let mut out: Vec<UsdcAuthorizationCanceled> = Vec::new();
    let mut i: usize = 0;
    while i < blk.transactions.len()
        invariant
            i <= blk.transactions@.len(),
            f == src_opt(q_authorization_canceled_event_fn()),
            out@.len() == block_srcs_upto(*blk, logs_of(), f, i as int).len(),
            forall|k: int|
                0 <= k < out@.len() ==> authorization_canceled_event_rec_ok(
                    #[trigger] out@[k],
                    *blk,
                    block_srcs_upto(*blk, logs_of(), f, i as int)[k].0,
                    block_srcs_upto(*blk, logs_of(), f, i as int)[k].1,
                ),
        decreases blk.transactions@.len() - i,
    {
        let tx = &blk.transactions[i];
        let hx = hex_of(&tx.hash);
        let mut j: usize = 0;
        while j < tx.logs.len()
            invariant
                i < blk.transactions@.len(),
                *tx == blk.transactions@[i as int],
                hx@ == hex_bytes(tx.hash@),
                j <= tx.logs@.len(),
                f == src_opt(q_authorization_canceled_event_fn()),
                out@.len() == (block_srcs_upto(*blk, logs_of(), f, i as int) + tx_srcs_upto(
                    *tx,
                    tx.logs@,
                    f,
                    j as int,
                )).len(),
                forall|k: int|
                    0 <= k < out@.len() ==> authorization_canceled_event_rec_ok(
                        #[trigger] out@[k],
                        *blk,
                        (block_srcs_upto(*blk, logs_of(), f, i as int) + tx_srcs_upto(
                            *tx,
                            tx.logs@,
                            f,
                            j as int,
                        ))[k].0,
                        (block_srcs_upto(*blk, logs_of(), f, i as int) + tx_srcs_upto(
                            *tx,
                            tx.logs@,
                            f,
                            j as int,
                        ))[k].1,
                    ),
            decreases tx.logs@.len() - j,
        {
            let e = &tx.logs[j];
            let ghost pre = block_srcs_upto(*blk, logs_of(), f, i as int) + tx_srcs_upto(
                *tx,
                tx.logs@,
                f,
                j as int,
            );
            let r = dec_authorization_canceled_event(blk.number, &blk.timestamp, &hx, Ghost(tx.hash@), e);
            proof {
                assert(f(*tx, *e) == if q_authorization_canceled_event(*e) {
                    Some((*tx, *e))
                } else {
                    None::<(Transaction, Log)>
                });
                assert(tx_srcs_upto(*tx, tx.logs@, f, j + 1 as int) == tx_srcs_upto(
                    *tx,
                    tx.logs@,
                    f,
                    j as int,
                ) + match f(*tx, tx.logs@[j as int]) {
                    Some(p) => seq![p],
                    None => Seq::<(Transaction, Log)>::empty(),
                });
            }
            match r {
                Some(rec) => {
                    out.push(rec);
                    proof {
                        assert(block_srcs_upto(*blk, logs_of(), f, i as int) + tx_srcs_upto(
                            *tx,
                            tx.logs@,
                            f,
                            j + 1 as int,
                        ) =~= pre + seq![(*tx, *e)]);
                    }
                },
                None => {
                    proof {
                        assert(block_srcs_upto(*blk, logs_of(), f, i as int) + tx_srcs_upto(
                            *tx,
                            tx.logs@,
                            f,
                            j + 1 as int,
                        ) =~= pre);
                    }
                },
            }
            j += 1;
        }
        proof {
            assert(logs_of()(*tx) == tx.logs@);
            assert(tx_srcs_upto(*tx, tx.logs@, f, tx.logs@.len() as int) == tx_srcs(
                *tx,
                logs_of(),
                f,
            ));
            assert(block_srcs_upto(*blk, logs_of(), f, i + 1 as int) == block_srcs_upto(
                *blk,
                logs_of(),
                f,
                i as int,
            ) + tx_srcs(blk.transactions@[i as int], logs_of(), f));
        }
        i += 1;
    }
    proof {
        assert(authorization_canceled_event_srcs(*blk) == block_srcs_upto(
            *blk,
            logs_of(),
            f,
            blk.transactions@.len() as int,
        ));
    }
    out
}

pub const EVT_AUTHORIZATION_USED_T0: u64 = 0x98de503528ee59b5;

pub const EVT_AUTHORIZATION_USED_T1: u64 = 0x75ef0c0a2576a824;

pub const EVT_AUTHORIZATION_USED_T2: u64 = 0x97bfc029a5685b20;

pub const EVT_AUTHORIZATION_USED_T3: u64 = 0x9e9ec333479b10a5;

/// Whether a log is a authorization_used event of the tracked contract.
pub open spec fn q_authorization_used_event(l: Log) -> bool {
    &&& is_tracked(l.address@)
    &&& l.topics@.len() == 3
    &&& topic_is(
        l.topics@[0]@,
        EVT_AUTHORIZATION_USED_T0 as int,
        EVT_AUTHORIZATION_USED_T1 as int,
        EVT_AUTHORIZATION_USED_T2 as int,
        EVT_AUTHORIZATION_USED_T3 as int,
    )
    &&& l.topics@[1]@.len() == 32
    &&& l.topics@[2]@.len() == 32
    &&& l.data@.len() == 0
}

pub open spec fn q_authorization_used_event_fn() -> spec_fn(Log) -> bool {
    |l: Log| q_authorization_used_event(l)
}

/// The field contents of a authorization_used record built from one log.
pub open spec fn authorization_used_event_fields(
    r: UsdcAuthorizationUsed,
    number: u64,
    ts: Timestamp,
    hash: Seq<u8>,
    l: Log,
) -> bool {
    &&& r.evt_tx_hash@ == hex_str(hash)
    &&& r.evt_index == l.block_index
    &&& r.evt_block_time == Some(ts)
    &&& r.evt_block_number == number
    &&& r.authorizer@ == addr_at(l.topics@[1]@, 0)
    &&& r.nonce@ == l.topics@[2]@
}

/// A authorization_used record as the block scan must build it from one source.
pub open spec fn authorization_used_event_rec_ok(r: UsdcAuthorizationUsed, b: Block, t: Transaction, l: Log) -> bool {
    authorization_used_event_fields(r, b.number, b.timestamp, t.hash@, l)
}

/// The authorization_used sources of a block, in traversal order.
pub open spec fn authorization_used_event_srcs(b: Block) -> Seq<(Transaction, Log)> {
    block_srcs(b, logs_of(), src_opt(q_authorization_used_event_fn()))
}

/// Decodes one log against the authorization_used signature.
fn dec_authorization_used_event(
    number: u64,
    ts: &Timestamp,
    hx: &Vec<u8>,
    hash: Ghost<Seq<u8>>,
    l: &Log,
) -> (r: Option<UsdcAuthorizationUsed>)
    requires
        hx@ == hex_bytes(hash@),
    ensures
        r is Some <==> q_authorization_used_event(*l),
        r is Some ==> authorization_used_event_fields(r->Some_0, number, *ts, hash@, *l),
{
    if !is_tracked_address(&l.address) {
        return None;
    }
    if l.topics.len() != 3 {
        return None;
    }
    if !check_topic(&l.topics[0], EVT_AUTHORIZATION_USED_T0, EVT_AUTHORIZATION_USED_T1, EVT_AUTHORIZATION_USED_T2, EVT_AUTHORIZATION_USED_T3) {
        return None;
    }
    if l.topics[1].len() != 32 {
        return None;
    }
    if l.topics[2].len() != 32 {
        return None;
    }
    if l.data.len() != 0 {
        return None;
    }
    Some(
        UsdcAuthorizationUsed {
            evt_tx_hash: hash_hex_string(hx, hash),
            evt_index: l.block_index,
            evt_block_time: Some(*ts),
            evt_block_number: number,
            authorizer: addr_vec_at(&l.topics[1], 0),
            nonce: copy_bytes32(&l.topics[2]),
        },
    )
}


/// Scans the whole block for authorization_used_event records.
pub fn scan_authorization_used_events(blk: &Block) -> (out: Vec<UsdcAuthorizationUsed>)
    ensures
        out@.len() == authorization_used_event_srcs(*blk).len(),
        forall|k: int|
            0 <= k < out@.len() ==> authorization_used_event_rec_ok(
                #[trigger] out@[k],
                *blk,
                authorization_used_event_srcs(*blk)[k].0,
                authorization_used_event_srcs(*blk)[k].1,
            ),
{
    let ghost f = src_opt(q_authorization_used_event_fn());
    let mut out: Vec<UsdcAuthorizationUsed> = Vec::new();
    let mut i: usize = 0;
    while i < blk.transactions.len()
        invariant
            i <= blk.transactions@.len(),
            f == src_opt(q_authorization_used_event_fn()),
            out@.len() == block_srcs_upto(*blk, logs_of(), f, i as int).len(),
            forall|k: int|
                0 <= k < out@.len() ==> authorization_used_event_rec_ok(
                    #[trigger] out@[k],
                    *blk,
                    block_srcs_upto(*blk, logs_of(), f, i as int)[k].0,
                    block_srcs_upto(*blk, logs_of(), f, i as int)[k].1,
                ),
        decreases blk.transactions@.len() - i,
    {
        let tx = &blk.transactions[i];
        let hx = hex_of(&tx.hash);
        let mut j: usize = 0;
        while j < tx.logs.len()
            invariant
                i < blk.transactions@.len(),
                *tx == blk.transactions@[i as int],
                hx@ == hex_bytes(tx.hash@),
                j <= tx.logs@.len(),
                f == src_opt(q_authorization_used_event_fn()),
                out@.len() == (block_srcs_upto(*blk, logs_of(), f, i as int) + tx_srcs_upto(
                    *tx,
                    tx.logs@,
                    f,
                    j as int,
                )).len(),
                forall|k: int|
                    0 <= k < out@.len() ==> authorization_used_event_rec_ok(
                        #[trigger] out@[k],
                        *blk,
                        (block_srcs_upto(*blk, logs_of(), f, i as int) + tx_srcs_upto(
                            *tx,
                            tx.logs@,
                            f,
                            j as int,
                        ))[k].0,
                        (block_srcs_upto(*blk, logs_of(), f, i as int) + tx_srcs_upto(
                            *tx,
                            tx.logs@,
                            f,
                            j as int,
                        ))[k].1,
                    ),
            decreases tx.logs@.len() - j,
        {
            let e = &tx.logs[j];
            let ghost pre = block_srcs_upto(*blk, logs_of(), f, i as int) + tx_srcs_upto(
                *tx,
                tx.logs@,
                f,
                j as int,
            );
            let r = dec_authorization_used_event(blk.number, &blk.timestamp, &hx, Ghost(tx.hash@), e);
            proof {
                assert(f(*tx, *e) == if q_authorization_used_event(*e) {
                    Some((*tx, *e))
                } else {
                    None::<(Transaction, Log)>
                });
                assert(tx_srcs_upto(*tx, tx.logs@, f, j + 1 as int) == tx_srcs_upto(
                    *tx,
                    tx.logs@,
                    f,
                    j as int,
                ) + match f(*tx, tx.logs@[j as int]) {
                    Some(p) => seq![p],
                    None => Seq::<(Transaction, Log)>::empty(),
                });
            }
            match r {
                Some(rec) => {
                    out.push(rec);
                    proof {
                        assert(block_srcs_upto(*blk, logs_of(), f, i as int) + tx_srcs_upto(
                            *tx,
                            tx.logs@,
                            f,
                            j + 1 as int,
                        ) =~= pre + seq![(*tx, *e)]);
                    }
                },
                None => {
                    proof {
                        assert(block_srcs_upto(*blk, logs_of(), f, i as int) + tx_srcs_upto(
                            *tx,
                            tx.logs@,
                            f,
                            j + 1 as int,
                        ) =~= pre);
                    }
                },
            }
            j += 1;
        }
        proof {
            assert(logs_of()(*tx) == tx.logs@);
            assert(tx_srcs_upto(*tx, tx.logs@, f, tx.logs@.len() as int) == tx_srcs(
                *tx,
                logs_of(),
                f,
            ));
            assert(block_srcs_upto(*blk, logs_of(), f, i + 1 as int) == block_srcs_upto(
                *blk,
                logs_of(),
                f,
                i as int,
            ) + tx_srcs(blk.transactions@[i as int], logs_of(), f));
        }
        i += 1;
    }
    proof {
        assert(authorization_used_event_srcs(*blk) == block_srcs_upto(
            *blk,
            logs_of(),
            f,
            blk.transactions@.len() as int,
        ));
    }
    out
}

pub const EVT_BLACKLISTED_T0: u64 = 0xffa4e61817776925;

pub const EVT_BLACKLISTED_T1: u64 = 0x65cf28528fc88fd1;

pub const EVT_BLACKLISTED_T2: u64 = 0x516ea86b56da0752;

pub const EVT_BLACKLISTED_T3: u64 = 0x35fa575af6a4b855;

/// Whether a log is a blacklisted event of the tracked contract.
pub open spec fn q_blacklisted_event(l: Log) -> bool {
    &&& is_tracked(l.address@)
    &&& l.topics@.len() == 2
    &&& topic_is(
        l.topics@[0]@,
        EVT_BLACKLISTED_T0 as int,
        EVT_BLACKLISTED_T1 as int,
        EVT_BLACKLISTED_T2 as int,
        EVT_BLACKLISTED_T3 as int,
    )
    &&& l.topics@[1]@.len() == 32
    &&& l.data@.len() == 0
}

pub open spec fn q_blacklisted_event_fn() -> spec_fn(Log) -> bool {
    |l: Log| q_blacklisted_event(l)
}

/// The field contents of a blacklisted record built from one log.
pub open spec fn blacklisted_event_fields(
    r: UsdcBlacklisted,
    number: u64,
    ts: Timestamp,
    hash: Seq<u8>,
    l: Log,
) -> bool {
    &&& r.evt_tx_hash@ == hex_str(hash)
    &&& r.evt_index == l.block_index
    &&& r.evt_block_time == Some(ts)
    &&& r.evt_block_number == number
    &&& r.u_account@ == addr_at(l.topics@[1]@, 0)
}

/// A blacklisted record as the block scan must build it from one source.
pub open spec fn blacklisted_event_rec_ok(r: UsdcBlacklisted, b: Block, t: Transaction, l: Log) -> bool {
    blacklisted_event_fields(r, b.number, b.timestamp, t.hash@, l)
}

/// The blacklisted sources of a block, in traversal order.
pub open spec fn blacklisted_event_srcs(b: Block) -> Seq<(Transaction, Log)> {
    block_srcs(b, logs_of(), src_opt(q_blacklisted_event_fn()))
}

/// Decodes one log against the blacklisted signature.
fn dec_blacklisted_event(
    number: u64,
    ts: &Timestamp,
    hx: &Vec<u8>,
    hash: Ghost<Seq<u8>>,
    l: &Log,
) -> (r: Option<UsdcBlacklisted>)
    requires
        hx@ == hex_bytes(hash@),
    ensures
        r is Some <==> q_blacklisted_event(*l),
        r is Some ==> blacklisted_event_fields(r->Some_0, number, *ts, hash@, *l),
{
    if !is_tracked_address(&l.address) {
        return None;
    }
    if l.topics.len() != 2 {
        return None;
    }
    if !check_topic(&l.topics[0], EVT_BLACKLISTED_T0, EVT_BLACKLISTED_T1, EVT_BLACKLISTED_T2, EVT_BLACKLISTED_T3) {
        return None;
    }
    if l.topics[1].len() != 32 {
        return None;
    }
    if l.data.len() != 0 {
        return None;
    }
    Some(
        UsdcBlacklisted {
            evt_tx_hash: hash_hex_string(hx, hash),
            evt_index: l.block_index,
            evt_block_time: Some(*ts),
            evt_block_number: number,
            u_account: addr_vec_at(&l.topics[1], 0),
        },
    )
}


/// Scans the whole block for blacklisted_event records.
pub fn scan_blacklisted_events(blk: &Block) -> (out: Vec<UsdcBlacklisted>)
    ensures
        out@.len() == blacklisted_event_srcs(*blk).len(),
        forall|k: int|
            0 <= k < out@.len() ==> blacklisted_event_rec_ok(
                #[trigger] out@[k],
                *blk,
                blacklisted_event_srcs(*blk)[k].0,
                blacklisted_event_srcs(*blk)[k].1,
            ),
{
    let ghost f = src_opt(q_blacklisted_event_fn());
    let mut out: Vec<UsdcBlacklisted> = Vec::new();
    let mut i: usize = 0;
    while i < blk.transactions.len()
        invariant
            i <= blk.transactions@.len(),
            f == src_opt(q_blacklisted_event_fn()),
            out@.len() == block_srcs_upto(*blk, logs_of(), f, i as int).len(),
            forall|k: int|
                0 <= k < out@.len() ==> blacklisted_event_rec_ok(
                    #[trigger] out@[k],
                    *blk,
                    block_srcs_upto(*blk, logs_of(), f, i as int)[k].0,
                    block_srcs_upto(*blk, logs_of(), f, i as int)[k].1,
                ),
        decreases blk.transactions@.len() - i,
    {
        let tx = &blk.transactions[i];
        let hx = hex_of(&tx.hash);
        let mut j: usize = 0;
        while j < tx.logs.len()
            invariant
                i < blk.transactions@.len(),
                *tx == blk.transactions@[i as int],
                hx@ == hex_bytes(tx.hash@),
                j <= tx.logs@.len(),
                f == src_opt(q_blacklisted_event_fn()),
                out@.len() == (block_srcs_upto(*blk, logs_of(), f, i as int) + tx_srcs_upto(
                    *tx,
                    tx.logs@,
                    f,
                    j as int,
                )).len(),
                forall|k: int|
                    0 <= k < out@.len() ==> blacklisted_event_rec_ok(
                        #[trigger] out@[k],
                        *blk,
                        (block_srcs_upto(*blk, logs_of(), f, i as int) + tx_srcs_upto(
                            *tx,
                            tx.logs@,
                            f,
                            j as int,
                        ))[k].0,
                        (block_srcs_upto(*blk, logs_of(), f, i as int) + tx_srcs_upto(
                            *tx,
                            tx.logs@,
                            f,
                            j as int,
                        ))[k].1,
                    ),
            decreases tx.logs@.len() - j,
        {
            let e = &tx.logs[j];
            let ghost pre = block_srcs_upto(*blk, logs_of(), f, i as int) + tx_srcs_upto(
                *tx,
                tx.logs@,
                f,
                j as int,
            );
            let r = dec_blacklisted_event(blk.number, &blk.timestamp, &hx, Ghost(tx.hash@), e);
            proof {
                assert(f(*tx, *e) == if q_blacklisted_event(*e) {
                    Some((*tx, *e))
                } else {
                    None::<(Transaction, Log)>
                });
                assert(tx_srcs_upto(*tx, tx.logs@, f, j + 1 as int) == tx_srcs_upto(
                    *tx,
                    tx.logs@,
                    f,
                    j as int,
                ) + match f(*tx, tx.logs@[j as int]) {
                    Some(p) => seq![p],
                    None => Seq::<(Transaction, Log)>::empty(),
                });
            }
            match r {
                Some(rec) => {
                    out.push(rec);
                    proof {
                        assert(block_srcs_upto(*blk, logs_of(), f, i as int) + tx_srcs_upto(
                            *tx,
                            tx.logs@,
                            f,
                            j + 1 as int,
                        ) =~= pre + seq![(*tx, *e)]);
                    }
                },
                None => {
                    proof {
                        assert(block_srcs_upto(*blk, logs_of(), f, i as int) + tx_srcs_upto(
                            *tx,
                            tx.logs@,
                            f,
                            j + 1 as int,
                        ) =~= pre);
                    }
                },
            }
            j += 1;
        }
        proof {
            assert(logs_of()(*tx) == tx.logs@);
            assert(tx_srcs_upto(*tx, tx.logs@, f, tx.logs@.len() as int) == tx_srcs(
                *tx,
                logs_of(),
                f,
            ));
            assert(block_srcs_upto(*blk, logs_of(), f, i + 1 as int) == block_srcs_upto(
                *blk,
                logs_of(),
                f,
                i as int,
            ) + tx_srcs(blk.transactions@[i as int], logs_of(), f));
        }
        i += 1;
    }
    proof {
        assert(blacklisted_event_srcs(*blk) == block_srcs_upto(
            *blk,
            logs_of(),
            f,
            blk.transactions@.len() as int,
        ));
    }
    out
}

pub const EVT_BLACKLISTER_CHANGED_T0: u64 = 0xc67398012c111ce9;

pub const EVT_BLACKLISTER_CHANGED_T1: u64 = 0x5ecb7429b933096c;

pub const EVT_BLACKLISTER_CHANGED_T2: u64 = 0x977380ee6c421175;

pub const EVT_BLACKLISTER_CHANGED_T3: u64 = 0xa71a4a4c6c88c06e;

/// Whether a log is a blacklister_changed event of the tracked contract.
pub open spec fn q_blacklister_changed_event(l: Log) -> bool {
    &&& is_tracked(l.address@)
    &&& l.topics@.len() == 2
    &&& topic_is(
        l.topics@[0]@,
        EVT_BLACKLISTER_CHANGED_T0 as int,
        EVT_BLACKLISTER_CHANGED_T1 as int,
        EVT_BLACKLISTER_CHANGED_T2 as int,
        EVT_BLACKLISTER_CHANGED_T3 as int,
    )
    &&& l.topics@[1]@.len() == 32
    &&& l.data@.len() == 0
}

pub open spec fn q_blacklister_changed_event_fn() -> spec_fn(Log) -> bool {
    |l: Log| q_blacklister_changed_event(l)
}

/// The field contents of a blacklister_changed record built from one log.
pub open spec fn blacklister_changed_event_fields(
    r: UsdcBlacklisterChanged,
    number: u64,
    ts: Timestamp,
    hash: Seq<u8>,
    l: Log,
) -> bool {
    &&& r.evt_tx_hash@ == hex_str(hash)
    &&& r.evt_index == l.block_index
    &&& r.evt_block_time == Some(ts)
    &&& r.evt_block_number == number
    &&& r.new_blacklister@ == addr_at(l.topics@[1]@, 0)
}

/// A blacklister_changed record as the block scan must build it from one source.
pub open spec fn blacklister_changed_event_rec_ok(r: UsdcBlacklisterChanged, b: Block, t: Transaction, l: Log) -> bool {
    blacklister_changed_event_fields(r, b.number, b.timestamp, t.hash@, l)
}

/// The blacklister_changed sources of a block, in traversal order.
pub open spec fn blacklister_changed_event_srcs(b: Block) -> Seq<(Transaction, Log)> {
    block_srcs(b, logs_of(), src_opt(q_blacklister_changed_event_fn()))
}

/// Decodes one log against the blacklister_changed signature.
fn dec_blacklister_changed_event(
    number: u64,
    ts: &Timestamp,
    hx: &Vec<u8>,
    hash: Ghost<Seq<u8>>,
    l: &Log,
) -> (r: Option<UsdcBlacklisterChanged>)
    requires
        hx@ == hex_bytes(hash@),
    ensures
        r is Some <==> q_blacklister_changed_event(*l),
        r is Some ==> blacklister_changed_event_fields(r->Some_0, number, *ts, hash@, *l),
{
    if !is_tracked_address(&l.address) {
        return None;
    }
    if l.topics.len() != 2 {
        return None;
    }
    if !check_topic(&l.topics[0], EVT_BLACKLISTER_CHANGED_T0, EVT_BLACKLISTER_CHANGED_T1, EVT_BLACKLISTER_CHANGED_T2, EVT_BLACKLISTER_CHANGED_T3) {
        return None;
    }
    if l.topics[1].len() != 32 {
        return None;
    }
    if l.data.len() != 0 {
        return None;
    }
    Some(
        UsdcBlacklisterChanged {
            evt_tx_hash: hash_hex_string(hx, hash),
            evt_index: l.block_index,
            evt_block_time: Some(*ts),
            evt_block_number: number,
            new_blacklister: addr_vec_at(&l.topics[1], 0),
        },
    )
}


/// Scans the whole block for blacklister_changed_event records.
pub fn scan_blacklister_changed_events(blk: &Block) -> (out: Vec<UsdcBlacklisterChanged>)
    ensures
        out@.len() == blacklister_changed_event_srcs(*blk).len(),
        forall|k: int|
            0 <= k < out@.len() ==> blacklister_changed_event_rec_ok(
                #[trigger] out@[k],
                *blk,
                blacklister_changed_event_srcs(*blk)[k].0,
                blacklister_changed_event_srcs(*blk)[k].1,
            ),
{
    let ghost f = src_opt(q_blacklister_changed_event_fn());
    let mut out: Vec<UsdcBlacklisterChanged> = Vec::new();
    let mut i: usize = 0;
    while i < blk.transactions.len()
        invariant
            i <= blk.transactions@.len(),
            f == src_opt(q_blacklister_changed_event_fn()),
            out@.len() == block_srcs_upto(*blk, logs_of(), f, i as int).len(),
            forall|k: int|
                0 <= k < out@.len() ==> blacklister_changed_event_rec_ok(
                    #[trigger] out@[k],
                    *blk,
                    block_srcs_upto(*blk, logs_of(), f, i as int)[k].0,
                    block_srcs_upto(*blk, logs_of(), f, i as int)[k].1,
                ),
        decreases blk.transactions@.len() - i,
    {
        let tx = &blk.transactions[i];
        let hx = hex_of(&tx.hash);
        let mut j: usize = 0;
        while j < tx.logs.len()
            invariant
                i < blk.transactions@.len(),
                *tx == blk.transactions@[i as int],
                hx@ == hex_bytes(tx.hash@),
                j <= tx.logs@.len(),
                f == src_opt(q_blacklister_changed_event_fn()),
                out@.len() == (block_srcs_upto(*blk, logs_of(), f, i as int) + tx_srcs_upto(
                    *tx,
                    tx.logs@,
                    f,
                    j as int,
                )).len(),
                forall|k: int|
                    0 <= k < out@.len() ==> blacklister_changed_event_rec_ok(
                        #[trigger] out@[k],
                        *blk,
                        (block_srcs_upto(*blk, logs_of(), f, i as int) + tx_srcs_upto(
                            *tx,
                            tx.logs@,
                            f,
                            j as int,
                        ))[k].0,
                        (block_srcs_upto(*blk, logs_of(), f, i as int) + tx_srcs_upto(
                            *tx,
                            tx.logs@,
                            f,
                            j as int,
                        ))[k].1,
                    ),
            decreases tx.logs@.len() - j,
        {
            let e = &tx.logs[j];
            let ghost pre = block_srcs_upto(*blk, logs_of(), f, i as int) + tx_srcs_upto(
                *tx,
                tx.logs@,
                f,
                j as int,
            );
            let r = dec_blacklister_changed_event(blk.number, &blk.timestamp, &hx, Ghost(tx.hash@), e);
            proof {
                assert(f(*tx, *e) == if q_blacklister_changed_event(*e) {
                    Some((*tx, *e))
                } else {
                    None::<(Transaction, Log)>
                });
                assert(tx_srcs_upto(*tx, tx.logs@, f, j + 1 as int) == tx_srcs_upto(
                    *tx,
                    tx.logs@,
                    f,
                    j as int,
                ) + match f(*tx, tx.logs@[j as int]) {
                    Some(p) => seq![p],
                    None => Seq::<(Transaction, Log)>::empty(),
                });
            }
            match r {
                Some(rec) => {
                    out.push(rec);
                    proof {
                        assert(block_srcs_upto(*blk, logs_of(), f, i as int) + tx_srcs_upto(
                            *tx,
                            tx.logs@,
                            f,
                            j + 1 as int,
                        ) =~= pre + seq![(*tx, *e)]);
                    }
                },
                None => {
                    proof {
                        assert(block_srcs_upto(*blk, logs_of(), f, i as int) + tx_srcs_upto(
                            *tx,
                            tx.logs@,
                            f,
                            j + 1 as int,
                        ) =~= pre);
                    }
                },
            }
            j += 1;
        }
        proof {
            assert(logs_of()(*tx) == tx.logs@);
            assert(tx_srcs_upto(*tx, tx.logs@, f, tx.logs@.len() as int) == tx_srcs(
                *tx,
                logs_of(),
                f,
            ));
            assert(block_srcs_upto(*blk, logs_of(), f, i + 1 as int) == block_srcs_upto(
                *blk,
                logs_of(),
                f,
                i as int,
            ) + tx_srcs(blk.transactions@[i as int], logs_of(), f));
        }
        i += 1;
    }
    proof {
        assert(blacklister_changed_event_srcs(*blk) == block_srcs_upto(
            *blk,
            logs_of(),
            f,
            blk.transactions@.len() as int,
        ));
    }
    out
}

pub const EVT_BURN_T0: u64 = 0xcc16f5dbb4873280;

pub const EVT_BURN_T1: u64 = 0x815c1ee09dbd0673;

pub const EVT_BURN_T2: u64 = 0x6cffcc184412cf7a;

pub const EVT_BURN_T3: u64 = 0x71a0fdb75d397ca5;

/// Whether a log is a burn event of the tracked contract.
pub open spec fn q_burn_event(l: Log) -> bool {
    &&& is_tracked(l.address@)
    &&& l.topics@.len() == 2
    &&& topic_is(
        l.topics@[0]@,
        EVT_BURN_T0 as int,
        EVT_BURN_T1 as int,
        EVT_BURN_T2 as int,
        EVT_BURN_T3 as int,
    )
    &&& l.topics@[1]@.len() == 32
    &&& l.data@.len() == 32
}

pub open spec fn q_burn_event_fn() -> spec_fn(Log) -> bool {
    |l: Log| q_burn_event(l)
}

/// The field contents of a burn record built from one log.
pub open spec fn burn_event_fields(
    r: UsdcBurn,
    number: u64,
    ts: Timestamp,
    hash: Seq<u8>,
    l: Log,
) -> bool {
    &&& r.evt_tx_hash@ == hex_str(hash)
    &&& r.evt_index == l.block_index
    &&& r.evt_block_time == Some(ts)
    &&& r.evt_block_number == number
    &&& r.burner@ == addr_at(l.topics@[1]@, 0)
    &&& r.amount@ == dec_str(be_val(word_at(l.data@, 0)))
}

/// A burn record as the block scan must build it from one source.
pub open spec fn burn_event_rec_ok(r: UsdcBurn, b: Block, t: Transaction, l: Log) -> bool {
    burn_event_fields(r, b.number, b.timestamp, t.hash@, l)
}

/// The burn sources of a block, in traversal order.
pub open spec fn burn_event_srcs(b: Block) -> Seq<(Transaction, Log)> {
    block_srcs(b, logs_of(), src_opt(q_burn_event_fn()))
}

/// Decodes one log against the burn signature.
fn dec_burn_event(
    number: u64,
    ts: &Timestamp,
    hx: &Vec<u8>,
    hash: Ghost<Seq<u8>>,
    l: &Log,
) -> (r: Option<UsdcBurn>)
    requires
        hx@ == hex_bytes(hash@),
    ensures
        r is Some <==> q_burn_event(*l),
        r is Some ==> burn_event_fields(r->Some_0, number, *ts, hash@, *l),
{
    if !is_tracked_address(&l.address) {
        return None;
    }
    if l.topics.len() != 2 {
        return None;
    }
    if !check_topic(&l.topics[0], EVT_BURN_T0, EVT_BURN_T1, EVT_BURN_T2, EVT_BURN_T3) {
        return None;
    }
    if l.topics[1].len() != 32 {
        return None;
    }
    if l.data.len() != 32 {
        return None;
    }
    Some(
        UsdcBurn {
            evt_tx_hash: hash_hex_string(hx, hash),
            evt_index: l.block_index,
            evt_block_time: Some(*ts),
            evt_block_number: number,
            burner: addr_vec_at(&l.topics[1], 0),
            amount: dec_word_string(&l.data, 0),
        },
    )
}


/// Scans the whole block for burn_event records.
pub fn scan_burn_events(blk: &Block) -> (out: Vec<UsdcBurn>)
    ensures
        out@.len() == burn_event_srcs(*blk).len(),
        forall|k: int|
            0 <= k < out@.len() ==> burn_event_rec_ok(
                #[trigger] out@[k],
                *blk,
                burn_event_srcs(*blk)[k].0,
                burn_event_srcs(*blk)[k].1,
            ),
{
    let ghost f = src_opt(q_burn_event_fn());
    let mut out: Vec<UsdcBurn> = Vec::new();
    let mut i: usize = 0;
    while i < blk.transactions.len()
        invariant
            i <= blk.transactions@.len(),
            f == src_opt(q_burn_event_fn()),
            out@.len() == block_srcs_upto(*blk, logs_of(), f, i as int).len(),
            forall|k: int|
                0 <= k < out@.len() ==> burn_event_rec_ok(
                    #[trigger] out@[k],
                    *blk,
                    block_srcs_upto(*blk, logs_of(), f, i as int)[k].0,
                    block_srcs_upto(*blk, logs_of(), f, i as int)[k].1,
                ),
        decreases blk.transactions@.len() - i,
    {
        let tx = &blk.transactions[i];
        let hx = hex_of(&tx.hash);
        let mut j: usize = 0;
        while j < tx.logs.len()
            invariant
                i < blk.transactions@.len(),
                *tx == blk.transactions@[i as int],
                hx@ == hex_bytes(tx.hash@),
                j <= tx.logs@.len(),
                f == src_opt(q_burn_event_fn()),
                out@.len() == (block_srcs_upto(*blk, logs_of(), f, i as int) + tx_srcs_upto(
                    *tx,
                    tx.logs@,
                    f,
                    j as int,
                )).len(),
                forall|k: int|
                    0 <= k < out@.len() ==> burn_event_rec_ok(
                        #[trigger] out@[k],
                        *blk,
                        (block_srcs_upto(*blk, logs_of(), f, i as int) + tx_srcs_upto(
                            *tx,
                            tx.logs@,
                            f,
                            j as int,
                        ))[k].0,
                        (block_srcs_upto(*blk, logs_of(), f, i as int) + tx_srcs_upto(
                            *tx,
                            tx.logs@,
                            f,
                            j as int,
                        ))[k].1,
                    ),
            decreases tx.logs@.len() - j,
        {
            let e = &tx.logs[j];
            let ghost pre = block_srcs_upto(*blk, logs_of(), f, i as int) + tx_srcs_upto(
                *tx,
                tx.logs@,
                f,
                j as int,
            );
            let r = dec_burn_event(blk.number, &blk.timestamp, &hx, Ghost(tx.hash@), e);
            proof {
                assert(f(*tx, *e) == if q_burn_event(*e) {
                    Some((*tx, *e))
                } else {
                    None::<(Transaction, Log)>
                });
                assert(tx_srcs_upto(*tx, tx.logs@, f, j + 1 as int) == tx_srcs_upto(
                    *tx,
                    tx.logs@,
                    f,
                    j as int,
                ) + match f(*tx, tx.logs@[j as int]) {
                    Some(p) => seq![p],
                    None => Seq::<(Transaction, Log)>::empty(),
                });
            }
            match r {
                Some(rec) => {
                    out.push(rec);
                    proof {
                        assert(block_srcs_upto(*blk, logs_of(), f, i as int) + tx_srcs_upto(
                            *tx,
                            tx.logs@,
                            f,
                            j + 1 as int,
                        ) =~= pre + seq![(*tx, *e)]);
                    }
                },
                None => {
                    proof {
                        assert(block_srcs_upto(*blk, logs_of(), f, i as int) + tx_srcs_upto(
                            *tx,
                            tx.logs@,
                            f,
                            j + 1 as int,
                        ) =~= pre);
                    }
                },
            }
            j += 1;
        }
        proof {
            assert(logs_of()(*tx) == tx.logs@);
            assert(tx_srcs_upto(*tx, tx.logs@, f, tx.logs@.len() as int) == tx_srcs(
                *tx,
                logs_of(),
                f,
            ));
            assert(block_srcs_upto(*blk, logs_of(), f, i + 1 as int) == block_srcs_upto(
                *blk,
                logs_of(),
                f,
                i as int,
            ) + tx_srcs(blk.transactions@[i as int], logs_of(), f));
        }
        i += 1;
    }
    proof {
        assert(burn_event_srcs(*blk) == block_srcs_upto(
            *blk,
            logs_of(),
            f,
            blk.transactions@.len() as int,
        ));
    }
    out
}

pub const EVT_MASTER_MINTER_CHANGED_T0: u64 = 0xdb66dfa9c6b8f522;

pub const EVT_MASTER_MINTER_CHANGED_T1: u64 = 0x6fe9aac7e51897ae;

pub const EVT_MASTER_MINTER_CHANGED_T2: u64 = 0x8ee94ac31dc70bb6;

pub const EVT_MASTER_MINTER_CHANGED_T3: u64 = 0xc9900b2574b707e6;

/// Whether a log is a master_minter_changed event of the tracked contract.
pub open spec fn q_master_minter_changed_event(l: Log) -> bool {
    &&& is_tracked(l.address@)
    &&& l.topics@.len() == 2
    &&& topic_is(
        l.topics@[0]@,
        EVT_MASTER_MINTER_CHANGED_T0 as int,
        EVT_MASTER_MINTER_CHANGED_T1 as int,
        EVT_MASTER_MINTER_CHANGED_T2 as int,
        EVT_MASTER_MINTER_CHANGED_T3 as int,
    )
    &&& l.topics@[1]@.len() == 32
    &&& l.data@.len() == 0
}

pub open spec fn q_master_minter_changed_event_fn() -> spec_fn(Log) -> bool {
    |l: Log| q_master_minter_changed_event(l)
}

/// The field contents of a master_minter_changed record built from one log.
pub open spec fn master_minter_changed_event_fields(
    r: UsdcMasterMinterChanged,
    number: u64,
    ts: Timestamp,
    hash: Seq<u8>,
    l: Log,
) -> bool {
    &&& r.evt_tx_hash@ == hex_str(hash)
    &&& r.evt_index == l.block_index
    &&& r.evt_block_time == Some(ts)
    &&& r.evt_block_number == number
    &&& r.new_master_minter@ == addr_at(l.topics@[1]@, 0)
}

/// A master_minter_changed record as the block scan must build it from one source.
pub open spec fn master_minter_changed_event_rec_ok(r: UsdcMasterMinterChanged, b: Block, t: Transaction, l: Log) -> bool {
    master_minter_changed_event_fields(r, b.number, b.timestamp, t.hash@, l)
}

/// The master_minter_changed sources of a block, in traversal order.
pub open spec fn master_minter_changed_event_srcs(b: Block) -> Seq<(Transaction, Log)> {
    block_srcs(b, logs_of(), src_opt(q_master_minter_changed_event_fn()))
}

/// Decodes one log against the master_minter_changed signature.
fn dec_master_minter_changed_event(
    number: u64,
    ts: &Timestamp,
    hx: &Vec<u8>,
    hash: Ghost<Seq<u8>>,
    l: &Log,
) -> (r: Option<UsdcMasterMinterChanged>)
    requires
        hx@ == hex_bytes(hash@),
    ensures
        r is Some <==> q_master_minter_changed_event(*l),
        r is Some ==> master_minter_changed_event_fields(r->Some_0, number, *ts, hash@, *l),
{
    if !is_tracked_address(&l.address) {
        return None;
    }
    if l.topics.len() != 2 {
        return None;
    }
    if !check_topic(&l.topics[0], EVT_MASTER_MINTER_CHANGED_T0, EVT_MASTER_MINTER_CHANGED_T1, EVT_MASTER_MINTER_CHANGED_T2, EVT_MASTER_MINTER_CHANGED_T3) {
        return None;
    }
    if l.topics[1].len() != 32 {
        return None;
    }
    if l.data.len() != 0 {
        return None;
    }
    Some(
        UsdcMasterMinterChanged {
            evt_tx_hash: hash_hex_string(hx, hash),
            evt_index: l.block_index,
            evt_block_time: Some(*ts),
            evt_block_number: number,
            new_master_minter: addr_vec_at(&l.topics[1], 0),
        },
    )
}


/// Scans the whole block for master_minter_changed_event records.
pub fn scan_master_minter_changed_events(blk: &Block) -> (out: Vec<UsdcMasterMinterChanged>)
    ensures
        out@.len() == master_minter_changed_event_srcs(*blk).len(),
        forall|k: int|
            0 <= k < out@.len() ==> master_minter_changed_event_rec_ok(
                #[trigger] out@[k],
                *blk,
                master_minter_changed_event_srcs(*blk)[k].0,
                master_minter_changed_event_srcs(*blk)[k].1,
            ),
{
    let ghost f = src_opt(q_master_minter_changed_event_fn());
    let mut out: Vec<UsdcMasterMinterChanged> = Vec::new();
    let mut i: usize = 0;
    while i < blk.transactions.len()
        invariant
            i <= blk.transactions@.len(),
            f == src_opt(q_master_minter_changed_event_fn()),
            out@.len() == block_srcs_upto(*blk, logs_of(), f, i as int).len(),
            forall|k: int|
                0 <= k < out@.len() ==> master_minter_changed_event_rec_ok(
                    #[trigger] out@[k],
                    *blk,
                    block_srcs_upto(*blk, logs_of(), f, i as int)[k].0,
                    block_srcs_upto(*blk, logs_of(), f, i as int)[k].1,
                ),
        decreases blk.transactions@.len() - i,
    {
        let tx = &blk.transactions[i];
        let hx = hex_of(&tx.hash);
        let mut j: usize = 0;
        while j < tx.logs.len()
            invariant
                i < blk.transactions@.len(),
                *tx == blk.transactions@[i as int],
                hx@ == hex_bytes(tx.hash@),
                j <= tx.logs@.len(),
                f == src_opt(q_master_minter_changed_event_fn()),
                out@.len() == (block_srcs_upto(*blk, logs_of(), f, i as int) + tx_srcs_upto(
                    *tx,
                    tx.logs@,
                    f,
                    j as int,
                )).len(),
                forall|k: int|
                    0 <= k < out@.len() ==> master_minter_changed_event_rec_ok(
                        #[trigger] out@[k],
                        *blk,
                        (block_srcs_upto(*blk, logs_of(), f, i as int) + tx_srcs_upto(
                            *tx,
                            tx.logs@,
                            f,
                            j as int,
                        ))[k].0,
                        (block_srcs_upto(*blk, logs_of(), f, i as int) + tx_srcs_upto(
                            *tx,
                            tx.logs@,
                            f,
                            j as int,
                        ))[k].1,
                    ),
            decreases tx.logs@.len() - j,
        {
            let e = &tx.logs[j];
            let ghost pre = block_srcs_upto(*blk, logs_of(), f, i as int) + tx_srcs_upto(
                *tx,
                tx.logs@,
                f,
                j as int,
            );
            let r = dec_master_minter_changed_event(blk.number, &blk.timestamp, &hx, Ghost(tx.hash@), e);
            proof {
                assert(f(*tx, *e) == if q_master_minter_changed_event(*e) {
                    Some((*tx, *e))
                } else {
                    None::<(Transaction, Log)>
                });
                assert(tx_srcs_upto(*tx, tx.logs@, f, j + 1 as int) == tx_srcs_upto(
                    *tx,
                    tx.logs@,
                    f,
                    j as int,
                ) + match f(*tx, tx.logs@[j as int]) {
                    Some(p) => seq![p],
                    None => Seq::<(Transaction, Log)>::empty(),
                });
            }
            match r {
                Some(rec) => {
                    out.push(rec);
                    proof {
                        assert(block_srcs_upto(*blk, logs_of(), f, i as int) + tx_srcs_upto(
                            *tx,
                            tx.logs@,
                            f,
                            j + 1 as int,
                        ) =~= pre + seq![(*tx, *e)]);
                    }
                },
                None => {
                    proof {
                        assert(block_srcs_upto(*blk, logs_of(), f, i as int) + tx_srcs_upto(
                            *tx,
                            tx.logs@,
                            f,
                            j + 1 as int,
                        ) =~= pre);
                    }
                },
            }
            j += 1;
        }
        proof {
            assert(logs_of()(*tx) == tx.logs@);
            assert(tx_srcs_upto(*tx, tx.logs@, f, tx.logs@.len() as int) == tx_srcs(
                *tx,
                logs_of(),
                f,
            ));
            assert(block_srcs_upto(*blk, logs_of(), f, i + 1 as int) == block_srcs_upto(
                *blk,
                logs_of(),
                f,
                i as int,
            ) + tx_srcs(blk.transactions@[i as int], logs_of(), f));
        }
        i += 1;
    }
    proof {
        assert(master_minter_changed_event_srcs(*blk) == block_srcs_upto(
            *blk,
            logs_of(),
            f,
            blk.transactions@.len() as int,
        ));
    }
    out
}

pub const EVT_MINT_T0: u64 = 0xab8530f87dc9b592;

pub const EVT_MINT_T1: u64 = 0x34c4623bf917212b;

pub const EVT_MINT_T2: u64 = 0xb2536d647574c8e7;

pub const EVT_MINT_T3: u64 = 0xe5da92c2ede0c9f8;

/// Whether a log is a mint event of the tracked contract.
pub open spec fn q_mint_event(l: Log) -> bool {
    &&& is_tracked(l.address@)
    &&& l.topics@.len() == 3
    &&& topic_is(
        l.topics@[0]@,
        EVT_MINT_T0 as int,
        EVT_MINT_T1 as int,
        EVT_MINT_T2 as int,
        EVT_MINT_T3 as int,
    )
    &&& l.topics@[1]@.len() == 32
    &&& l.topics@[2]@.len() == 32
    &&& l.data@.len() == 32
}

pub open spec fn q_mint_event_fn() -> spec_fn(Log) -> bool {
    |l: Log| q_mint_event(l)
}

/// The field contents of a mint record built from one log.
pub open spec fn mint_event_fields(
    r: UsdcMint,
    number: u64,
    ts: Timestamp,
    hash: Seq<u8>,
    l: Log,
) -> bool {
    &&& r.evt_tx_hash@ == hex_str(hash)
    &&& r.evt_index == l.block_index
    &&& r.evt_block_time == Some(ts)
    &&& r.evt_block_number == number
    &&& r.minter@ == addr_at(l.topics@[1]@, 0)
    &&& r.to@ == addr_at(l.topics@[2]@, 0)
    &&& r.amount@ == dec_str(be_val(word_at(l.data@, 0)))
}

/// A mint record as the block scan must build it from one source.
pub open spec fn mint_event_rec_ok(r: UsdcMint, b: Block, t: Transaction, l: Log) -> bool {
    mint_event_fields(r, b.number, b.timestamp, t.hash@, l)
}

/// The mint sources of a block, in traversal order.
pub open spec fn mint_event_srcs(b: Block) -> Seq<(Transaction, Log)> {
    block_srcs(b, logs_of(), src_opt(q_mint_event_fn()))
}

/// Decodes one log against the mint signature.
fn dec_mint_event(
    number: u64,
    ts: &Timestamp,
    hx: &Vec<u8>,
    hash: Ghost<Seq<u8>>,
    l: &Log,
) -> (r: Option<UsdcMint>)
    requires
        hx@ == hex_bytes(hash@),
    ensures
        r is Some <==> q_mint_event(*l),
        r is Some ==> mint_event_fields(r->Some_0, number, *ts, hash@, *l),
{
    if !is_tracked_address(&l.address) {
        return None;
    }
    if l.topics.len() != 3 {
        return None;
    }
    if !check_topic(&l.topics[0], EVT_MINT_T0, EVT_MINT_T1, EVT_MINT_T2, EVT_MINT_T3) {
        return None;
    }
    if l.topics[1].len() != 32 {
        return None;
    }
    if l.topics[2].len() != 32 {
        return None;
    }
    if l.data.len() != 32 {
        return None;
    }
    Some(
        UsdcMint {
            evt_tx_hash: hash_hex_string(hx, hash),
            evt_index: l.block_index,
            evt_block_time: Some(*ts),
            evt_block_number: number,
            minter: addr_vec_at(&l.topics[1], 0),
            to: addr_vec_at(&l.topics[2], 0),
            amount: dec_word_string(&l.data, 0),
        },
    )
}


/// Scans the whole block for mint_event records.
pub fn scan_mint_events(blk: &Block) -> (out: Vec<UsdcMint>)
    ensures
        out@.len() == mint_event_srcs(*blk).len(),
        forall|k: int|
            0 <= k < out@.len() ==> mint_event_rec_ok(
                #[trigger] out@[k],
                *blk,
                mint_event_srcs(*blk)[k].0,
                mint_event_srcs(*blk)[k].1,
            ),
{
    let ghost f = src_opt(q_mint_event_fn());
    let mut out: Vec<UsdcMint> = Vec::new();
    let mut i: usize = 0;
    while i < blk.transactions.len()
        invariant
            i <= blk.transactions@.len(),
            f == src_opt(q_mint_event_fn()),
            out@.len() == block_srcs_upto(*blk, logs_of(), f, i as int).len(),
            forall|k: int|
                0 <= k < out@.len() ==> mint_event_rec_ok(
                    #[trigger] out@[k],
                    *blk,
                    block_srcs_upto(*blk, logs_of(), f, i as int)[k].0,
                    block_srcs_upto(*blk, logs_of(), f, i as int)[k].1,
                ),
        decreases blk.transactions@.len() - i,
    {
        let tx = &blk.transactions[i];
        let hx = hex_of(&tx.hash);
        let mut j: usize = 0;
        while j < tx.logs.len()
            invariant
                i < blk.transactions@.len(),
                *tx == blk.transactions@[i as int],
                hx@ == hex_bytes(tx.hash@),
                j <= tx.logs@.len(),
                f == src_opt(q_mint_event_fn()),
                out@.len() == (block_srcs_upto(*blk, logs_of(), f, i as int) + tx_srcs_upto(
                    *tx,
                    tx.logs@,
                    f,
                    j as int,
                )).len(),
                forall|k: int|
                    0 <= k < out@.len() ==> mint_event_rec_ok(
                        #[trigger] out@[k],
                        *blk,
                        (block_srcs_upto(*blk, logs_of(), f, i as int) + tx_srcs_upto(
                            *tx,
                            tx.logs@,
                            f,
                            j as int,
                        ))[k].0,
                        (block_srcs_upto(*blk, logs_of(), f, i as int) + tx_srcs_upto(
                            *tx,
                            tx.logs@,
                            f,
                            j as int,
                        ))[k].1,
                    ),
            decreases tx.logs@.len() - j,
        {
            let e = &tx.logs[j];
            let ghost pre = block_srcs_upto(*blk, logs_of(), f, i as int) + tx_srcs_upto(
                *tx,
                tx.logs@,
                f,
                j as int,
            );
            let r = dec_mint_event(blk.number, &blk.timestamp, &hx, Ghost(tx.hash@), e);
            proof {
                assert(f(*tx, *e) == if q_mint_event(*e) {
                    Some((*tx, *e))
                } else {
                    None::<(Transaction, Log)>
                });
                assert(tx_srcs_upto(*tx, tx.logs@, f, j + 1 as int) == tx_srcs_upto(
                    *tx,
                    tx.logs@,
                    f,
                    j as int,
                ) + match f(*tx, tx.logs@[j as int]) {
                    Some(p) => seq![p],
                    None => Seq::<(Transaction, Log)>::empty(),
                });
            }
            match r {
                Some(rec) => {
                    out.push(rec);
                    proof {
                        assert(block_srcs_upto(*blk, logs_of(), f, i as int) + tx_srcs_upto(
                            *tx,
                            tx.logs@,
                            f,
                            j + 1 as int,
                        ) =~= pre + seq![(*tx, *e)]);
                    }
                },
                None => {
                    proof {
                        assert(block_srcs_upto(*blk, logs_of(), f, i as int) + tx_srcs_upto(
                            *tx,
                            tx.logs@,
                            f,
                            j + 1 as int,
                        ) =~= pre);
                    }
                },
            }
            j += 1;
        }
        proof {
            assert(logs_of()(*tx) == tx.logs@);
            assert(tx_srcs_upto(*tx, tx.logs@, f, tx.logs@.len() as int) == tx_srcs(
                *tx,
                logs_of(),
                f,
            ));
            assert(block_srcs_upto(*blk, logs_of(), f, i + 1 as int) == block_srcs_upto(
                *blk,
                logs_of(),
                f,
                i as int,
            ) + tx_srcs(blk.transactions@[i as int], logs_of(), f));
        }
        i += 1;
    }
    proof {
        assert(mint_event_srcs(*blk) == block_srcs_upto(
            *blk,
            logs_of(),
            f,
            blk.transactions@.len() as int,
        ));
    }
    out
}

pub const EVT_MINTER_CONFIGURED_T0: u64 = 0x46980fca912ef9bc;

pub const EVT_MINTER_CONFIGURED_T1: u64 = 0xdbd36877427b6b90;

pub const EVT_MINTER_CONFIGURED_T2: u64 = 0xe860769f604e89c0;

pub const EVT_MINTER_CONFIGURED_T3: u64 = 0xe67720cece530d20;

/// Whether a log is a minter_configured event of the tracked contract.
pub open spec fn q_minter_configured_event(l: Log) -> bool {
    &&& is_tracked(l.address@)
    &&& l.topics@.len() == 2
    &&& topic_is(
        l.topics@[0]@,
        EVT_MINTER_CONFIGURED_T0 as int,
        EVT_MINTER_CONFIGURED_T1 as int,
        EVT_MINTER_CONFIGURED_T2 as int,
        EVT_MINTER_CONFIGURED_T3 as int,
    )
    &&& l.topics@[1]@.len() == 32
    &&& l.data@.len() == 32
}

pub open spec fn q_minter_configured_event_fn() -> spec_fn(Log) -> bool {
    |l: Log| q_minter_configured_event(l)
}

/// The field contents of a minter_configured record built from one log.
pub open spec fn minter_configured_event_fields(
    r: UsdcMinterConfigured,
    number: u64,
    ts: Timestamp,
    hash: Seq<u8>,
    l: Log,
) -> bool {
    &&& r.evt_tx_hash@ == hex_str(hash)
    &&& r.evt_index == l.block_index
    &&& r.evt_block_time == Some(ts)
    &&& r.evt_block_number == number
    &&& r.minter@ == addr_at(l.topics@[1]@, 0)
    &&& r.minter_allowed_amount@ == dec_str(be_val(word_at(l.data@, 0)))
}

/// A minter_configured record as the block scan must build it from one source.
pub open spec fn minter_configured_event_rec_ok(r: UsdcMinterConfigured, b: Block, t: Transaction, l: Log) -> bool {
    minter_configured_event_fields(r, b.number, b.timestamp, t.hash@, l)
}

/// The minter_configured sources of a block, in traversal order.
pub open spec fn minter_configured_event_srcs(b: Block) -> Seq<(Transaction, Log)> {
    block_srcs(b, logs_of(), src_opt(q_minter_configured_event_fn()))
}

/// Decodes one log against the minter_configured signature.
fn dec_minter_configured_event(
    number: u64,
    ts: &Timestamp,
    hx: &Vec<u8>,
    hash: Ghost<Seq<u8>>,
    l: &Log,
) -> (r: Option<UsdcMinterConfigured>)
    requires
        hx@ == hex_bytes(hash@),
    ensures
        r is Some <==> q_minter_configured_event(*l),
        r is Some ==> minter_configured_event_fields(r->Some_0, number, *ts, hash@, *l),
{
    if !is_tracked_address(&l.address) {
        return None;
    }
    if l.topics.len() != 2 {
        return None;
    }
    if !check_topic(&l.topics[0], EVT_MINTER_CONFIGURED_T0, EVT_MINTER_CONFIGURED_T1, EVT_MINTER_CONFIGURED_T2, EVT_MINTER_CONFIGURED_T3) {
        return None;
    }
    if l.topics[1].len() != 32 {
        return None;
    }
    if l.data.len() != 32 {
        return None;
    }
    Some(
        UsdcMinterConfigured {
            evt_tx_hash: hash_hex_string(hx, hash),
            evt_index: l.block_index,
            evt_block_time: Some(*ts),
            evt_block_number: number,
            minter: addr_vec_at(&l.topics[1], 0),
            minter_allowed_amount: dec_word_string(&l.data, 0),
        },
    )
}


/// Scans the whole block for minter_configured_event records.
pub fn scan_minter_configured_events(blk: &Block) -> (out: Vec<UsdcMinterConfigured>)
    ensures
        out@.len() == minter_configured_event_srcs(*blk).len(),
        forall|k: int|
            0 <= k < out@.len() ==> minter_configured_event_rec_ok(
                #[trigger] out@[k],
                *blk,
                minter_configured_event_srcs(*blk)[k].0,
                minter_configured_event_srcs(*blk)[k].1,
            ),
{
    let ghost f = src_opt(q_minter_configured_event_fn());
    let mut out: Vec<UsdcMinterConfigured> = Vec::new();
    let mut i: usize = 0;
    while i < blk.transactions.len()
        invariant
            i <= blk.transactions@.len(),
            f == src_opt(q_minter_configured_event_fn()),
            out@.len() == block_srcs_upto(*blk, logs_of(), f, i as int).len(),
            forall|k: int|
                0 <= k < out@.len() ==> minter_configured_event_rec_ok(
                    #[trigger] out@[k],
                    *blk,
                    block_srcs_upto(*blk, logs_of(), f, i as int)[k].0,
                    block_srcs_upto(*blk, logs_of(), f, i as int)[k].1,
                ),
        decreases blk.transactions@.len() - i,
    {
        let tx = &blk.transactions[i];
        let hx = hex_of(&tx.hash);
        let mut j: usize = 0;
        while j < tx.logs.len()
            invariant
                i < blk.transactions@.len(),
                *tx == blk.transactions@[i as int],
                hx@ == hex_bytes(tx.hash@),
                j <= tx.logs@.len(),
                f == src_opt(q_minter_configured_event_fn()),
                out@.len() == (block_srcs_upto(*blk, logs_of(), f, i as int) + tx_srcs_upto(
                    *tx,
                    tx.logs@,
                    f,
                    j as int,
                )).len(),
                forall|k: int|
                    0 <= k < out@.len() ==> minter_configured_event_rec_ok(
                        #[trigger] out@[k],
                        *blk,
                        (block_srcs_upto(*blk, logs_of(), f, i as int) + tx_srcs_upto(
                            *tx,
                            tx.logs@,
                            f,
                            j as int,
                        ))[k].0,
                        (block_srcs_upto(*blk, logs_of(), f, i as int) + tx_srcs_upto(
                            *tx,
                            tx.logs@,
                            f,
                            j as int,
                        ))[k].1,
                    ),
            decreases tx.logs@.len() - j,
        {
            let e = &tx.logs[j];
            let ghost pre = block_srcs_upto(*blk, logs_of(), f, i as int) + tx_srcs_upto(
                *tx,
                tx.logs@,
                f,
                j as int,
            );
            let r = dec_minter_configured_event(blk.number, &blk.timestamp, &hx, Ghost(tx.hash@), e);
            proof {
                assert(f(*tx, *e) == if q_minter_configured_event(*e) {
                    Some((*tx, *e))
                } else {
                    None::<(Transaction, Log)>
                });
                assert(tx_srcs_upto(*tx, tx.logs@, f, j + 1 as int) == tx_srcs_upto(
                    *tx,
                    tx.logs@,
                    f,
                    j as int,
                ) + match f(*tx, tx.logs@[j as int]) {
                    Some(p) => seq![p],
                    None => Seq::<(Transaction, Log)>::empty(),
                });
            }
            match r {
                Some(rec) => {
                    out.push(rec);
                    proof {
                        assert(block_srcs_upto(*blk, logs_of(), f, i as int) + tx_srcs_upto(
                            *tx,
                            tx.logs@,
                            f,
                            j + 1 as int,
                        ) =~= pre + seq![(*tx, *e)]);
                    }
                },
                None => {
                    proof {
                        assert(block_srcs_upto(*blk, logs_of(), f, i as int) + tx_srcs_upto(
                            *tx,
                            tx.logs@,
                            f,
                            j + 1 as int,
                        ) =~= pre);
                    }
                },
            }
            j += 1;
        }
        proof {
            assert(logs_of()(*tx) == tx.logs@);
            assert(tx_srcs_upto(*tx, tx.logs@, f, tx.logs@.len() as int) == tx_srcs(
                *tx,
                logs_of(),
                f,
            ));
            assert(block_srcs_upto(*blk, logs_of(), f, i + 1 as int) == block_srcs_upto(
                *blk,
                logs_of(),
                f,
                i as int,
            ) + tx_srcs(blk.transactions@[i as int], logs_of(), f));
        }
        i += 1;
    }
    proof {
        assert(minter_configured_event_srcs(*blk) == block_srcs_upto(
            *blk,
            logs_of(),
            f,
            blk.transactions@.len() as int,
        ));
    }
    out
}

pub const EVT_MINTER_REMOVED_T0: u64 = 0xe94479a9f7e1952c;

pub const EVT_MINTER_REMOVED_T1: u64 = 0xc78f2d6baab678ad;

pub const EVT_MINTER_REMOVED_T2: u64 = 0xc1b772d936c6583d;

pub const EVT_MINTER_REMOVED_T3: u64 = 0xef489e524cb66692;

/// Whether a log is a minter_removed event of the tracked contract.
pub open spec fn q_minter_removed_event(l: Log) -> bool {
    &&& is_tracked(l.address@)
    &&& l.topics@.len() == 2
    &&& topic_is(
        l.topics@[0]@,
        EVT_MINTER_REMOVED_T0 as int,
        EVT_MINTER_REMOVED_T1 as int,
        EVT_MINTER_REMOVED_T2 as int,
        EVT_MINTER_REMOVED_T3 as int,
    )
    &&& l.topics@[1]@.len() == 32
    &&& l.data@.len() == 0
}

pub open spec fn q_minter_removed_event_fn() -> spec_fn(Log) -> bool {
    |l: Log| q_minter_removed_event(l)
}

/// The field contents of a minter_removed record built from one log.
pub open spec fn minter_removed_event_fields(
    r: UsdcMinterRemoved,
    number: u64,
    ts: Timestamp,
    hash: Seq<u8>,
    l: Log,
) -> bool {
    &&& r.evt_tx_hash@ == hex_str(hash)
    &&& r.evt_index == l.block_index
    &&& r.evt_block_time == Some(ts)
    &&& r.evt_block_number == number
    &&& r.old_minter@ == addr_at(l.topics@[1]@, 0)
}

/// A minter_removed record as the block scan must build it from one source.
pub open spec fn minter_removed_event_rec_ok(r: UsdcMinterRemoved, b: Block, t: Transaction, l: Log) -> bool {
    minter_removed_event_fields(r, b.number, b.timestamp, t.hash@, l)
}

/// The minter_removed sources of a block, in traversal order.
pub open spec fn minter_removed_event_srcs(b: Block) -> Seq<(Transaction, Log)> {
    block_srcs(b, logs_of(), src_opt(q_minter_removed_event_fn()))
}

/// Decodes one log against the minter_removed signature.
fn dec_minter_removed_event(
    number: u64,
    ts: &Timestamp,
    hx: &Vec<u8>,
    hash: Ghost<Seq<u8>>,
    l: &Log,
) -> (r: Option<UsdcMinterRemoved>)
    requires
        hx@ == hex_bytes(hash@),
    ensures
        r is Some <==> q_minter_removed_event(*l),
        r is Some ==> minter_removed_event_fields(r->Some_0, number, *ts, hash@, *l),
{
    if !is_tracked_address(&l.address) {
        return None;
    }
    if l.topics.len() != 2 {
        return None;
    }
    if !check_topic(&l.topics[0], EVT_MINTER_REMOVED_T0, EVT_MINTER_REMOVED_T1, EVT_MINTER_REMOVED_T2, EVT_MINTER_REMOVED_T3) {
        return None;
    }
    if l.topics[1].len() != 32 {
        return None;
    }
    if l.data.len() != 0 {
        return None;
    }
    Some(
        UsdcMinterRemoved {
            evt_tx_hash: hash_hex_string(hx, hash),
            evt_index: l.block_index,
            evt_block_time: Some(*ts),
            evt_block_number: number,
            old_minter: addr_vec_at(&l.topics[1], 0),
        },
    )
}


/// Scans the whole block for minter_removed_event records.
pub fn scan_minter_removed_events(blk: &Block) -> (out: Vec<UsdcMinterRemoved>)
    ensures
        out@.len() == minter_removed_event_srcs(*blk).len(),
        forall|k: int|
            0 <= k < out@.len() ==> minter_removed_event_rec_ok(
                #[trigger] out@[k],
                *blk,
                minter_removed_event_srcs(*blk)[k].0,
                minter_removed_event_srcs(*blk)[k].1,
            ),
{
    let ghost f = src_opt(q_minter_removed_event_fn());
    let mut out: Vec<UsdcMinterRemoved> = Vec::new();
    let mut i: usize = 0;
    while i < blk.transactions.len()
        invariant
            i <= blk.transactions@.len(),
            f == src_opt(q_minter_removed_event_fn()),
            out@.len() == block_srcs_upto(*blk, logs_of(), f, i as int).len(),
            forall|k: int|
                0 <= k < out@.len() ==> minter_removed_event_rec_ok(
                    #[trigger] out@[k],
                    *blk,
                    block_srcs_upto(*blk, logs_of(), f, i as int)[k].0,
                    block_srcs_upto(*blk, logs_of(), f, i as int)[k].1,
                ),
        decreases blk.transactions@.len() - i,
    {
        let tx = &blk.transactions[i];
        let hx = hex_of(&tx.hash);
        let mut j: usize = 0;
        while j < tx.logs.len()
            invariant
                i < blk.transactions@.len(),
                *tx == blk.transactions@[i as int],
                hx@ == hex_bytes(tx.hash@),
                j <= tx.logs@.len(),
                f == src_opt(q_minter_removed_event_fn()),
                out@.len() == (block_srcs_upto(*blk, logs_of(), f, i as int) + tx_srcs_upto(
                    *tx,
                    tx.logs@,
                    f,
                    j as int,
                )).len(),
                forall|k: int|
                    0 <= k < out@.len() ==> minter_removed_event_rec_ok(
                        #[trigger] out@[k],
                        *blk,
                        (block_srcs_upto(*blk, logs_of(), f, i as int) + tx_srcs_upto(
                            *tx,
                            tx.logs@,
                            f,
                            j as int,
                        ))[k].0,
                        (block_srcs_upto(*blk, logs_of(), f, i as int) + tx_srcs_upto(
                            *tx,
                            tx.logs@,
                            f,
                            j as int,
                        ))[k].1,
                    ),
            decreases tx.logs@.len() - j,
        {
            let e = &tx.logs[j];
            let ghost pre = block_srcs_upto(*blk, logs_of(), f, i as int) + tx_srcs_upto(
                *tx,
                tx.logs@,
                f,
                j as int,
            );
            let r = dec_minter_removed_event(blk.number, &blk.timestamp, &hx, Ghost(tx.hash@), e);
            proof {
                assert(f(*tx, *e) == if q_minter_removed_event(*e) {
                    Some((*tx, *e))
                } else {
                    None::<(Transaction, Log)>
                });
                assert(tx_srcs_upto(*tx, tx.logs@, f, j + 1 as int) == tx_srcs_upto(
                    *tx,
                    tx.logs@,
                    f,
                    j as int,
                ) + match f(*tx, tx.logs@[j as int]) {
                    Some(p) => seq![p],
                    None => Seq::<(Transaction, Log)>::empty(),
                });
            }
            match r {
                Some(rec) => {
                    out.push(rec);
                    proof {
                        assert(block_srcs_upto(*blk, logs_of(), f, i as int) + tx_srcs_upto(
                            *tx,
                            tx.logs@,
                            f,
                            j + 1 as int,
                        ) =~= pre + seq![(*tx, *e)]);
                    }
                },
                None => {
                    proof {
                        assert(block_srcs_upto(*blk, logs_of(), f, i as int) + tx_srcs_upto(
                            *tx,
                            tx.logs@,
                            f,
                            j + 1 as int,
                        ) =~= pre);
                    }
                },
            }
            j += 1;
        }
        proof {
            assert(logs_of()(*tx) == tx.logs@);
            assert(tx_srcs_upto(*tx, tx.logs@, f, tx.logs@.len() as int) == tx_srcs(
                *tx,
                logs_of(),
                f,
            ));
            assert(block_srcs_upto(*blk, logs_of(), f, i + 1 as int) == block_srcs_upto(
                *blk,
                logs_of(),
                f,
                i as int,
            ) + tx_srcs(blk.transactions@[i as int], logs_of(), f));
        }
        i += 1;
    }
    proof {
        assert(minter_removed_event_srcs(*blk) == block_srcs_upto(
            *blk,
            logs_of(),
            f,
            blk.transactions@.len() as int,
        ));
    }
    out
}

pub const EVT_OWNERSHIP_TRANSFERRED_T0: u64 = 0x8be0079c53165914;

pub const EVT_OWNERSHIP_TRANSFERRED_T1: u64 = 0x1344cd1fd0a4f284;

pub const EVT_OWNERSHIP_TRANSFERRED_T2: u64 = 0x19497f9722a3daaf;

pub const EVT_OWNERSHIP_TRANSFERRED_T3: u64 = 0xe3b4186f6b6457e0;

/// Whether a log is a ownership_transferred event of the tracked contract.
pub open spec fn q_ownership_transferred_event(l: Log) -> bool {
    &&& is_tracked(l.address@)
    &&& l.topics@.len() == 1
    &&& topic_is(
        l.topics@[0]@,
        EVT_OWNERSHIP_TRANSFERRED_T0 as int,
        EVT_OWNERSHIP_TRANSFERRED_T1 as int,
        EVT_OWNERSHIP_TRANSFERRED_T2 as int,
        EVT_OWNERSHIP_TRANSFERRED_T3 as int,
    )
    &&& l.data@.len() == 64
}

pub open spec fn q_ownership_transferred_event_fn() -> spec_fn(Log) -> bool {
    |l: Log| q_ownership_transferred_event(l)
}

/// The field contents of a ownership_transferred record built from one log.
pub open spec fn ownership_transferred_event_fields(
    r: UsdcOwnershipTransferred,
    number: u64,
    ts: Timestamp,
    hash: Seq<u8>,
    l: Log,
) -> bool {
    &&& r.evt_tx_hash@ == hex_str(hash)
    &&& r.evt_index == l.block_index
    &&& r.evt_block_time == Some(ts)
    &&& r.evt_block_number == number
    &&& r.previous_owner@ == addr_at(l.data@, 0)
    &&& r.new_owner@ == addr_at(l.data@, 32)
}

/// A ownership_transferred record as the block scan must build it from one source.
pub open spec fn ownership_transferred_event_rec_ok(r: UsdcOwnershipTransferred, b: Block, t: Transaction, l: Log) -> bool {
    ownership_transferred_event_fields(r, b.number, b.timestamp, t.hash@, l)
}

/// The ownership_transferred sources of a block, in traversal order.
pub open spec fn ownership_transferred_event_srcs(b: Block) -> Seq<(Transaction, Log)> {
    block_srcs(b, logs_of(), src_opt(q_ownership_transferred_event_fn()))
}

/// Decodes one log against the ownership_transferred signature.
fn dec_ownership_transferred_event(
    number: u64,
    ts: &Timestamp,
    hx: &Vec<u8>,
    hash: Ghost<Seq<u8>>,
    l: &Log,
) -> (r: Option<UsdcOwnershipTransferred>)
    requires
        hx@ == hex_bytes(hash@),
    ensures
        r is Some <==> q_ownership_transferred_event(*l),
        r is Some ==> ownership_transferred_event_fields(r->Some_0, number, *ts, hash@, *l),
{
    if !is_tracked_address(&l.address) {
        return None;
    }
    if l.topics.len() != 1 {
        return None;
    }
    if !check_topic(&l.topics[0], EVT_OWNERSHIP_TRANSFERRED_T0, EVT_OWNERSHIP_TRANSFERRED_T1, EVT_OWNERSHIP_TRANSFERRED_T2, EVT_OWNERSHIP_TRANSFERRED_T3) {
        return None;
    }
    if l.data.len() != 64 {
        return None;
    }
    Some(
        UsdcOwnershipTransferred {
            evt_tx_hash: hash_hex_string(hx, hash),
            evt_index: l.block_index,
            evt_block_time: Some(*ts),
            evt_block_number: number,
            previous_owner: addr_vec_at(&l.data, 0),
            new_owner: addr_vec_at(&l.data, 32),
        },
    )
}


/// Scans the whole block for ownership_transferred_event records.
pub fn scan_ownership_transferred_events(blk: &Block) -> (out: Vec<UsdcOwnershipTransferred>)
    ensures
        out@.len() == ownership_transferred_event_srcs(*blk).len(),
        forall|k: int|
            0 <= k < out@.len() ==> ownership_transferred_event_rec_ok(
                #[trigger] out@[k],
                *blk,
                ownership_transferred_event_srcs(*blk)[k].0,
                ownership_transferred_event_srcs(*blk)[k].1,
            ),
{
    let ghost f = src_opt(q_ownership_transferred_event_fn());
    let mut out: Vec<UsdcOwnershipTransferred> = Vec::new();
    let mut i: usize = 0;
    while i < blk.transactions.len()
        invariant
            i <= blk.transactions@.len(),
            f == src_opt(q_ownership_transferred_event_fn()),
            out@.len() == block_srcs_upto(*blk, logs_of(), f, i as int).len(),
            forall|k: int|
                0 <= k < out@.len() ==> ownership_transferred_event_rec_ok(
                    #[trigger] out@[k],
                    *blk,
                    block_srcs_upto(*blk, logs_of(), f, i as int)[k].0,
                    block_srcs_upto(*blk, logs_of(), f, i as int)[k].1,
                ),
        decreases blk.transactions@.len() - i,
    {
        let tx = &blk.transactions[i];
        let hx = hex_of(&tx.hash);
        let mut j: usize = 0;
        while j < tx.logs.len()
            invariant
                i < blk.transactions@.len(),
                *tx == blk.transactions@[i as int],
                hx@ == hex_bytes(tx.hash@),
                j <= tx.logs@.len(),
                f == src_opt(q_ownership_transferred_event_fn()),
                out@.len() == (block_srcs_upto(*blk, logs_of(), f, i as int) + tx_srcs_upto(
                    *tx,
                    tx.logs@,
                    f,
                    j as int,
                )).len(),
                forall|k: int|
                    0 <= k < out@.len() ==> ownership_transferred_event_rec_ok(
                        #[trigger] out@[k],
                        *blk,
                        (block_srcs_upto(*blk, logs_of(), f, i as int) + tx_srcs_upto(
                            *tx,
                            tx.logs@,
                            f,
                            j as int,
                        ))[k].0,
                        (block_srcs_upto(*blk, logs_of(), f, i as int) + tx_srcs_upto(
                            *tx,
                            tx.logs@,
                            f,
                            j as int,
                        ))[k].1,
                    ),
            decreases tx.logs@.len() - j,
        {
            let e = &tx.logs[j];
            let ghost pre = block_srcs_upto(*blk, logs_of(), f, i as int) + tx_srcs_upto(
                *tx,
                tx.logs@,
                f,
                j as int,
            );
            let r = dec_ownership_transferred_event(blk.number, &blk.timestamp, &hx, Ghost(tx.hash@), e);
            proof {
                assert(f(*tx, *e) == if q_ownership_transferred_event(*e) {
                    Some((*tx, *e))
                } else {
                    None::<(Transaction, Log)>
                });
                assert(tx_srcs_upto(*tx, tx.logs@, f, j + 1 as int) == tx_srcs_upto(
                    *tx,
                    tx.logs@,
                    f,
                    j as int,
                ) + match f(*tx, tx.logs@[j as int]) {
                    Some(p) => seq![p],
                    None => Seq::<(Transaction, Log)>::empty(),
                });
            }
            match r {
                Some(rec) => {
                    out.push(rec);
                    proof {
                        assert(block_srcs_upto(*blk, logs_of(), f, i as int) + tx_srcs_upto(
                            *tx,
                            tx.logs@,
                            f,
                            j + 1 as int,
                        ) =~= pre + seq![(*tx, *e)]);
                    }
                },
                None => {
                    proof {
                        assert(block_srcs_upto(*blk, logs_of(), f, i as int) + tx_srcs_upto(
                            *tx,
                            tx.logs@,
                            f,
                            j + 1 as int,
                        ) =~= pre);
                    }
                },
            }
            j += 1;
        }
        proof {
            assert(logs_of()(*tx) == tx.logs@);
            assert(tx_srcs_upto(*tx, tx.logs@, f, tx.logs@.len() as int) == tx_srcs(
                *tx,
                logs_of(),
                f,
            ));
            assert(block_srcs_upto(*blk, logs_of(), f, i + 1 as int) == block_srcs_upto(
                *blk,
                logs_of(),
                f,
                i as int,
            ) + tx_srcs(blk.transactions@[i as int], logs_of(), f));
        }
        i += 1;
    }
    proof {
        assert(ownership_transferred_event_srcs(*blk) == block_srcs_upto(
            *blk,
            logs_of(),
            f,
            blk.transactions@.len() as int,
        ));
    }
    out
}

pub const EVT_PAUSE_T0: u64 = 0x6985a02210a168e6;

pub const EVT_PAUSE_T1: u64 = 0x6602d3235cb6db0e;

pub const EVT_PAUSE_T2: u64 = 0x70f92b3ba4d376a3;

pub const EVT_PAUSE_T3: u64 = 0x3c0f3d9434bff625;

/// Whether a log is a pause event of the tracked contract.
pub open spec fn q_pause_event(l: Log) -> bool {
    &&& is_tracked(l.address@)
    &&& l.topics@.len() == 1
    &&& topic_is(
        l.topics@[0]@,
        EVT_PAUSE_T0 as int,
        EVT_PAUSE_T1 as int,
        EVT_PAUSE_T2 as int,
        EVT_PAUSE_T3 as int,
    )
    &&& l.data@.len() == 0
}

pub open spec fn q_pause_event_fn() -> spec_fn(Log) -> bool {
    |l: Log| q_pause_event(l)
}

/// The field contents of a pause record built from one log.
pub open spec fn pause_event_fields(
    r: UsdcPause,
    number: u64,
    ts: Timestamp,
    hash: Seq<u8>,
    l: Log,
) -> bool {
    &&& r.evt_tx_hash@ == hex_str(hash)
    &&& r.evt_index == l.block_index
    &&& r.evt_block_time == Some(ts)
    &&& r.evt_block_number == number
}

/// A pause record as the block scan must build it from one source.
pub open spec fn pause_event_rec_ok(r: UsdcPause, b: Block, t: Transaction, l: Log) -> bool {
    pause_event_fields(r, b.number, b.timestamp, t.hash@, l)
}

/// The pause sources of a block, in traversal order.
pub open spec fn pause_event_srcs(b: Block) -> Seq<(Transaction, Log)> {
    block_srcs(b, logs_of(), src_opt(q_pause_event_fn()))
}

/// Decodes one log against the pause signature.
fn dec_pause_event(
    number: u64,
    ts: &Timestamp,
    hx: &Vec<u8>,
    hash: Ghost<Seq<u8>>,
    l: &Log,
) -> (r: Option<UsdcPause>)
    requires
        hx@ == hex_bytes(hash@),
    ensures
        r is Some <==> q_pause_event(*l),
        r is Some ==> pause_event_fields(r->Some_0, number, *ts, hash@, *l),
{
    if !is_tracked_address(&l.address) {
        return None;
    }
    if l.topics.len() != 1 {
        return None;
    }
    if !check_topic(&l.topics[0], EVT_PAUSE_T0, EVT_PAUSE_T1, EVT_PAUSE_T2, EVT_PAUSE_T3) {
        return None;
    }
    if l.data.len() != 0 {
        return None;
    }
    Some(
        UsdcPause {
            evt_tx_hash: hash_hex_string(hx, hash),
            evt_index: l.block_index,
            evt_block_time: Some(*ts),
            evt_block_number: number,
        },
    )
}


/// Scans the whole block for pause_event records.
pub fn scan_pause_events(blk: &Block) -> (out: Vec<UsdcPause>)
    ensures
        out@.len() == pause_event_srcs(*blk).len(),
        forall|k: int|
            0 <= k < out@.len() ==> pause_event_rec_ok(
                #[trigger] out@[k],
                *blk,
                pause_event_srcs(*blk)[k].0,
                pause_event_srcs(*blk)[k].1,
            ),
{
    let ghost f = src_opt(q_pause_event_fn());
    let mut out: Vec<UsdcPause> = Vec::new();
    let mut i: usize = 0;
    while i < blk.transactions.len()
        invariant
            i <= blk.transactions@.len(),
            f == src_opt(q_pause_event_fn()),
            out@.len() == block_srcs_upto(*blk, logs_of(), f, i as int).len(),
            forall|k: int|
                0 <= k < out@.len() ==> pause_event_rec_ok(
                    #[trigger] out@[k],
                    *blk,
                    block_srcs_upto(*blk, logs_of(), f, i as int)[k].0,
                    block_srcs_upto(*blk, logs_of(), f, i as int)[k].1,
                ),
        decreases blk.transactions@.len() - i,
    {
        let tx = &blk.transactions[i];
        let hx = hex_of(&tx.hash);
        let mut j: usize = 0;
        while j < tx.logs.len()
            invariant
                i < blk.transactions@.len(),
                *tx == blk.transactions@[i as int],
                hx@ == hex_bytes(tx.hash@),
                j <= tx.logs@.len(),
                f == src_opt(q_pause_event_fn()),
                out@.len() == (block_srcs_upto(*blk, logs_of(), f, i as int) + tx_srcs_upto(
                    *tx,
                    tx.logs@,
                    f,
                    j as int,
                )).len(),
                forall|k: int|
                    0 <= k < out@.len() ==> pause_event_rec_ok(
                        #[trigger] out@[k],
                        *blk,
                        (block_srcs_upto(*blk, logs_of(), f, i as int) + tx_srcs_upto(
                            *tx,
                            tx.logs@,
                            f,
                            j as int,
                        ))[k].0,
                        (block_srcs_upto(*blk, logs_of(), f, i as int) + tx_srcs_upto(
                            *tx,
                            tx.logs@,
                            f,
                            j as int,
                        ))[k].1,
                    ),
            decreases tx.logs@.len() - j,
        {
            let e = &tx.logs[j];
            let ghost pre = block_srcs_upto(*blk, logs_of(), f, i as int) + tx_srcs_upto(
                *tx,
                tx.logs@,
                f,
                j as int,
            );
            let r = dec_pause_event(blk.number, &blk.timestamp, &hx, Ghost(tx.hash@), e);
            proof {
                assert(f(*tx, *e) == if q_pause_event(*e) {
                    Some((*tx, *e))
                } else {
                    None::<(Transaction, Log)>
                });
                assert(tx_srcs_upto(*tx, tx.logs@, f, j + 1 as int) == tx_srcs_upto(
                    *tx,
                    tx.logs@,
                    f,
                    j as int,
                ) + match f(*tx, tx.logs@[j as int]) {
                    Some(p) => seq![p],
                    None => Seq::<(Transaction, Log)>::empty(),
                });
            }
            match r {
                Some(rec) => {
                    out.push(rec);
                    proof {
                        assert(block_srcs_upto(*blk, logs_of(), f, i as int) + tx_srcs_upto(
                            *tx,
                            tx.logs@,
                            f,
                            j + 1 as int,
                        ) =~= pre + seq![(*tx, *e)]);
                    }
                },
                None => {
                    proof {
                        assert(block_srcs_upto(*blk, logs_of(), f, i as int) + tx_srcs_upto(
                            *tx,
                            tx.logs@,
                            f,
                            j + 1 as int,
                        ) =~= pre);
                    }
                },
            }
            j += 1;
        }
        proof {
            assert(logs_of()(*tx) == tx.logs@);
            assert(tx_srcs_upto(*tx, tx.logs@, f, tx.logs@.len() as int) == tx_srcs(
                *tx,
                logs_of(),
                f,
            ));
            assert(block_srcs_upto(*blk, logs_of(), f, i + 1 as int) == block_srcs_upto(
                *blk,
                logs_of(),
                f,
                i as int,
            ) + tx_srcs(blk.transactions@[i as int], logs_of(), f));
        }
        i += 1;
    }
    proof {
        assert(pause_event_srcs(*blk) == block_srcs_upto(
            *blk,
            logs_of(),
            f,
            blk.transactions@.len() as int,
        ));
    }
    out
}

pub const EVT_PAUSER_CHANGED_T0: u64 = 0xb80482a293ca2e01;

pub const EVT_PAUSER_CHANGED_T1: u64 = 0x3eda8683c9bd7fc8;

pub const EVT_PAUSER_CHANGED_T2: u64 = 0x347cfdaeea5ede58;

pub const EVT_PAUSER_CHANGED_T3: u64 = 0xcba46df502c2a604;

/// Whether a log is a pauser_changed event of the tracked contract.
pub open spec fn q_pauser_changed_event(l: Log) -> bool {
    &&& is_tracked(l.address@)
    &&& l.topics@.len() == 2
    &&& topic_is(
        l.topics@[0]@,
        EVT_PAUSER_CHANGED_T0 as int,
        EVT_PAUSER_CHANGED_T1 as int,
        EVT_PAUSER_CHANGED_T2 as int,
        EVT_PAUSER_CHANGED_T3 as int,
    )
    &&& l.topics@[1]@.len() == 32
    &&& l.data@.len() == 0
}

pub open spec fn q_pauser_changed_event_fn() -> spec_fn(Log) -> bool {
    |l: Log| q_pauser_changed_event(l)
}

/// The field contents of a pauser_changed record built from one log.
pub open spec fn pauser_changed_event_fields(
    r: UsdcPauserChanged,
    number: u64,
    ts: Timestamp,
    hash: Seq<u8>,
    l: Log,
) -> bool {
    &&& r.evt_tx_hash@ == hex_str(hash)
    &&& r.evt_index == l.block_index
    &&& r.evt_block_time == Some(ts)
    &&& r.evt_block_number == number
    &&& r.new_address@ == addr_at(l.topics@[1]@, 0)
}

/// A pauser_changed record as the block scan must build it from one source.
pub open spec fn pauser_changed_event_rec_ok(r: UsdcPauserChanged, b: Block, t: Transaction, l: Log) -> bool {
    pauser_changed_event_fields(r, b.number, b.timestamp, t.hash@, l)
}

/// The pauser_changed sources of a block, in traversal order.
pub open spec fn pauser_changed_event_srcs(b: Block) -> Seq<(Transaction, Log)> {
    block_srcs(b, logs_of(), src_opt(q_pauser_changed_event_fn()))
}

/// Decodes one log against the pauser_changed signature.
fn dec_pauser_changed_event(
    number: u64,
    ts: &Timestamp,
    hx: &Vec<u8>,
    hash: Ghost<Seq<u8>>,
    l: &Log,
) -> (r: Option<UsdcPauserChanged>)
    requires
        hx@ == hex_bytes(hash@),
    ensures
        r is Some <==> q_pauser_changed_event(*l),
        r is Some ==> pauser_changed_event_fields(r->Some_0, number, *ts, hash@, *l),
{
    if !is_tracked_address(&l.address) {
        return None;
    }
    if l.topics.len() != 2 {
        return None;
    }
    if !check_topic(&l.topics[0], EVT_PAUSER_CHANGED_T0, EVT_PAUSER_CHANGED_T1, EVT_PAUSER_CHANGED_T2, EVT_PAUSER_CHANGED_T3) {
        return None;
    }
    if l.topics[1].len() != 32 {
        return None;
    }
    if l.data.len() != 0 {
        return None;
    }
    Some(
        UsdcPauserChanged {
            evt_tx_hash: hash_hex_string(hx, hash),
            evt_index: l.block_index,
            evt_block_time: Some(*ts),
            evt_block_number: number,
            new_address: addr_vec_at(&l.topics[1], 0),
        },
    )
}


/// Scans the whole block for pauser_changed_event records.
pub fn scan_pauser_changed_events(blk: &Block) -> (out: Vec<UsdcPauserChanged>)
    ensures
        out@.len() == pauser_changed_event_srcs(*blk).len(),
        forall|k: int|
            0 <= k < out@.len() ==> pauser_changed_event_rec_ok(
                #[trigger] out@[k],
                *blk,
                pauser_changed_event_srcs(*blk)[k].0,
                pauser_changed_event_srcs(*blk)[k].1,
            ),
{
    let ghost f = src_opt(q_pauser_changed_event_fn());
    let mut out: Vec<UsdcPauserChanged> = Vec::new();
    let mut i: usize = 0;
    while i < blk.transactions.len()
        invariant
            i <= blk.transactions@.len(),
            f == src_opt(q_pauser_changed_event_fn()),
            out@.len() == block_srcs_upto(*blk, logs_of(), f, i as int).len(),
            forall|k: int|
                0 <= k < out@.len() ==> pauser_changed_event_rec_ok(
                    #[trigger] out@[k],
                    *blk,
                    block_srcs_upto(*blk, logs_of(), f, i as int)[k].0,
                    block_srcs_upto(*blk, logs_of(), f, i as int)[k].1,
                ),
        decreases blk.transactions@.len() - i,
    {
        let tx = &blk.transactions[i];
        let hx = hex_of(&tx.hash);
        let mut j: usize = 0;
        while j < tx.logs.len()
            invariant
                i < blk.transactions@.len(),
                *tx == blk.transactions@[i as int],
                hx@ == hex_bytes(tx.hash@),
                j <= tx.logs@.len(),
                f == src_opt(q_pauser_changed_event_fn()),
                out@.len() == (block_srcs_upto(*blk, logs_of(), f, i as int) + tx_srcs_upto(
                    *tx,
                    tx.logs@,
                    f,
                    j as int,
                )).len(),
                forall|k: int|
                    0 <= k < out@.len() ==> pauser_changed_event_rec_ok(
                        #[trigger] out@[k],
                        *blk,
                        (block_srcs_upto(*blk, logs_of(), f, i as int) + tx_srcs_upto(
                            *tx,
                            tx.logs@,
                            f,
                            j as int,
                        ))[k].0,
                        (block_srcs_upto(*blk, logs_of(), f, i as int) + tx_srcs_upto(
                            *tx,
                            tx.logs@,
                            f,
                            j as int,
                        ))[k].1,
                    ),
            decreases tx.logs@.len() - j,
        {
            let e = &tx.logs[j];
            let ghost pre = block_srcs_upto(*blk, logs_of(), f, i as int) + tx_srcs_upto(
                *tx,
                tx.logs@,
                f,
                j as int,
            );
            let r = dec_pauser_changed_event(blk.number, &blk.timestamp, &hx, Ghost(tx.hash@), e);
            proof {
                assert(f(*tx, *e) == if q_pauser_changed_event(*e) {
                    Some((*tx, *e))
                } else {
                    None::<(Transaction, Log)>
                });
                assert(tx_srcs_upto(*tx, tx.logs@, f, j + 1 as int) == tx_srcs_upto(
                    *tx,
                    tx.logs@,
                    f,
                    j as int,
                ) + match f(*tx, tx.logs@[j as int]) {
                    Some(p) => seq![p],
                    None => Seq::<(Transaction, Log)>::empty(),
                });
            }
            match r {
                Some(rec) => {
                    out.push(rec);
                    proof {
                        assert(block_srcs_upto(*blk, logs_of(), f, i as int) + tx_srcs_upto(
                            *tx,
                            tx.logs@,
                            f,
                            j + 1 as int,
                        ) =~= pre + seq![(*tx, *e)]);
                    }
                },
                None => {
                    proof {
                        assert(block_srcs_upto(*blk, logs_of(), f, i as int) + tx_srcs_upto(
                            *tx,
                            tx.logs@,
                            f,
                            j + 1 as int,
                        ) =~= pre);
                    }
                },
            }
            j += 1;
        }
        proof {
            assert(logs_of()(*tx) == tx.logs@);
            assert(tx_srcs_upto(*tx, tx.logs@, f, tx.logs@.len() as int) == tx_srcs(
                *tx,
                logs_of(),
                f,
            ));
            assert(block_srcs_upto(*blk, logs_of(), f, i + 1 as int) == block_srcs_upto(
                *blk,
                logs_of(),
                f,
                i as int,
            ) + tx_srcs(blk.transactions@[i as int], logs_of(), f));
        }
        i += 1;
    }
    proof {
        assert(pauser_changed_event_srcs(*blk) == block_srcs_upto(
            *blk,
            logs_of(),
            f,
            blk.transactions@.len() as int,
        ));
    }
    out
}

pub const EVT_RESCUER_CHANGED_T0: u64 = 0xe475e580d8511134;

pub const EVT_RESCUER_CHANGED_T1: u64 = 0x8e40d8ca33cfdd74;

pub const EVT_RESCUER_CHANGED_T2: u64 = 0xc30fe1655c2d8537;

pub const EVT_RESCUER_CHANGED_T3: u64 = 0xa13abc10065ffa5a;

/// Whether a log is a rescuer_changed event of the tracked contract.
pub open spec fn q_rescuer_changed_event(l: Log) -> bool {
    &&& is_tracked(l.address@)
    &&& l.topics@.len() == 2
    &&& topic_is(
        l.topics@[0]@,
        EVT_RESCUER_CHANGED_T0 as int,
        EVT_RESCUER_CHANGED_T1 as int,
        EVT_RESCUER_CHANGED_T2 as int,
        EVT_RESCUER_CHANGED_T3 as int,
    )
    &&& l.topics@[1]@.len() == 32
    &&& l.data@.len() == 0
}

pub open spec fn q_rescuer_changed_event_fn() -> spec_fn(Log) -> bool {
    |l: Log| q_rescuer_changed_event(l)
}

/// The field contents of a rescuer_changed record built from one log.
pub open spec fn rescuer_changed_event_fields(
    r: UsdcRescuerChanged,
    number: u64,
    ts: Timestamp,
    hash: Seq<u8>,
    l: Log,
) -> bool {
    &&& r.evt_tx_hash@ == hex_str(hash)
    &&& r.evt_index == l.block_index
    &&& r.evt_block_time == Some(ts)
    &&& r.evt_block_number == number
    &&& r.new_rescuer@ == addr_at(l.topics@[1]@, 0)
}

/// A rescuer_changed record as the block scan must build it from one source.
pub open spec fn rescuer_changed_event_rec_ok(r: UsdcRescuerChanged, b: Block, t: Transaction, l: Log) -> bool {
    rescuer_changed_event_fields(r, b.number, b.timestamp, t.hash@, l)
}

/// The rescuer_changed sources of a block, in traversal order.
pub open spec fn rescuer_changed_event_srcs(b: Block) -> Seq<(Transaction, Log)> {
    block_srcs(b, logs_of(), src_opt(q_rescuer_changed_event_fn()))
}

/// Decodes one log against the rescuer_changed signature.
fn dec_rescuer_changed_event(
    number: u64,
    ts: &Timestamp,
    hx: &Vec<u8>,
    hash: Ghost<Seq<u8>>,
    l: &Log,
) -> (r: Option<UsdcRescuerChanged>)
    requires
        hx@ == hex_bytes(hash@),
    ensures
        r is Some <==> q_rescuer_changed_event(*l),
        r is Some ==> rescuer_changed_event_fields(r->Some_0, number, *ts, hash@, *l),
{
    if !is_tracked_address(&l.address) {
        return None;
    }
    if l.topics.len() != 2 {
        return None;
    }
    if !check_topic(&l.topics[0], EVT_RESCUER_CHANGED_T0, EVT_RESCUER_CHANGED_T1, EVT_RESCUER_CHANGED_T2, EVT_RESCUER_CHANGED_T3) {
        return None;
    }
    if l.topics[1].len() != 32 {
        return None;
    }
    if l.data.len() != 0 {
        return None;
    }
    Some(
        UsdcRescuerChanged {
            evt_tx_hash: hash_hex_string(hx, hash),
            evt_index: l.block_index,
            evt_block_time: Some(*ts),
            evt_block_number: number,
            new_rescuer: addr_vec_at(&l.topics[1], 0),
        },
    )
}


/// Scans the whole block for rescuer_changed_event records.
pub fn scan_rescuer_changed_events(blk: &Block) -> (out: Vec<UsdcRescuerChanged>)
    ensures
        out@.len() == rescuer_changed_event_srcs(*blk).len(),
        forall|k: int|
            0 <= k < out@.len() ==> rescuer_changed_event_rec_ok(
                #[trigger] out@[k],
                *blk,
                rescuer_changed_event_srcs(*blk)[k].0,
                rescuer_changed_event_srcs(*blk)[k].1,
            ),
{
    let ghost f = src_opt(q_rescuer_changed_event_fn());
    let mut out: Vec<UsdcRescuerChanged> = Vec::new();
    let mut i: usize = 0;
    while i < blk.transactions.len()
        invariant
            i <= blk.transactions@.len(),
            f == src_opt(q_rescuer_changed_event_fn()),
            out@.len() == block_srcs_upto(*blk, logs_of(), f, i as int).len(),
            forall|k: int|
                0 <= k < out@.len() ==> rescuer_changed_event_rec_ok(
                    #[trigger] out@[k],
                    *blk,
                    block_srcs_upto(*blk, logs_of(), f, i as int)[k].0,
                    block_srcs_upto(*blk, logs_of(), f, i as int)[k].1,
                ),
        decreases blk.transactions@.len() - i,
    {
        let tx = &blk.transactions[i];
        let hx = hex_of(&tx.hash);
        let mut j: usize = 0;
        while j < tx.logs.len()
            invariant
                i < blk.transactions@.len(),
                *tx == blk.transactions@[i as int],
                hx@ == hex_bytes(tx.hash@),
                j <= tx.logs@.len(),
                f == src_opt(q_rescuer_changed_event_fn()),
                out@.len() == (block_srcs_upto(*blk, logs_of(), f, i as int) + tx_srcs_upto(
                    *tx,
                    tx.logs@,
                    f,
                    j as int,
                )).len(),
                forall|k: int|
                    0 <= k < out@.len() ==> rescuer_changed_event_rec_ok(
                        #[trigger] out@[k],
                        *blk,
                        (block_srcs_upto(*blk, logs_of(), f, i as int) + tx_srcs_upto(
                            *tx,
                            tx.logs@,
                            f,
                            j as int,
                        ))[k].0,
                        (block_srcs_upto(*blk, logs_of(), f, i as int) + tx_srcs_upto(
                            *tx,
                            tx.logs@,
                            f,
                            j as int,
                        ))[k].1,
                    ),
            decreases tx.logs@.len() - j,
        {
            let e = &tx.logs[j];
            let ghost pre = block_srcs_upto(*blk, logs_of(), f, i as int) + tx_srcs_upto(
                *tx,
                tx.logs@,
                f,
                j as int,
            );
            let r = dec_rescuer_changed_event(blk.number, &blk.timestamp, &hx, Ghost(tx.hash@), e);
            proof {
                assert(f(*tx, *e) == if q_rescuer_changed_event(*e) {
                    Some((*tx, *e))
                } else {
                    None::<(Transaction, Log)>
                });
                assert(tx_srcs_upto(*tx, tx.logs@, f, j + 1 as int) == tx_srcs_upto(
                    *tx,
                    tx.logs@,
                    f,
                    j as int,
                ) + match f(*tx, tx.logs@[j as int]) {
                    Some(p) => seq![p],
                    None => Seq::<(Transaction, Log)>::empty(),
                });
            }
            match r {
                Some(rec) => {
                    out.push(rec);
                    proof {
                        assert(block_srcs_upto(*blk, logs_of(), f, i as int) + tx_srcs_upto(
                            *tx,
                            tx.logs@,
                            f,
                            j + 1 as int,
                        ) =~= pre + seq![(*tx, *e)]);
                    }
                },
                None => {
                    proof {
                        assert(block_srcs_upto(*blk, logs_of(), f, i as int) + tx_srcs_upto(
                            *tx,
                            tx.logs@,
                            f,
                            j + 1 as int,
                        ) =~= pre);
                    }
                },
            }
            j += 1;
        }
        proof {
            assert(logs_of()(*tx) == tx.logs@);
            assert(tx_srcs_upto(*tx, tx.logs@, f, tx.logs@.len() as int) == tx_srcs(
                *tx,
                logs_of(),
                f,
            ));
            assert(block_srcs_upto(*blk, logs_of(), f, i + 1 as int) == block_srcs_upto(
                *blk,
                logs_of(),
                f,
                i as int,
            ) + tx_srcs(blk.transactions@[i as int], logs_of(), f));
        }
        i += 1;
    }
    proof {
        assert(rescuer_changed_event_srcs(*blk) == block_srcs_upto(
            *blk,
            logs_of(),
            f,
            blk.transactions@.len() as int,
        ));
    }
    out
}

pub const EVT_TRANSFER_T0: u64 = 0xddf252ad1be2c89b;

pub const EVT_TRANSFER_T1: u64 = 0x69c2b068fc378daa;

pub const EVT_TRANSFER_T2: u64 = 0x952ba7f163c4a116;

pub const EVT_TRANSFER_T3: u64 = 0x28f55a4df523b3ef;

/// Whether a log is a transfer event of the tracked contract.
pub open spec fn q_transfer_event(l: Log) -> bool {
    &&& is_tracked(l.address@)
    &&& l.topics@.len() == 3
    &&& topic_is(
        l.topics@[0]@,
        EVT_TRANSFER_T0 as int,
        EVT_TRANSFER_T1 as int,
        EVT_TRANSFER_T2 as int,
        EVT_TRANSFER_T3 as int,
    )
    &&& l.topics@[1]@.len() == 32
    &&& l.topics@[2]@.len() == 32
    &&& l.data@.len() == 32
}

pub open spec fn q_transfer_event_fn() -> spec_fn(Log) -> bool {
    |l: Log| q_transfer_event(l)
}

/// The field contents of a transfer record built from one log.
pub open spec fn transfer_event_fields(
    r: UsdcTransfer,
    number: u64,
    ts: Timestamp,
    hash: Seq<u8>,
    l: Log,
) -> bool {
    &&& r.evt_tx_hash@ == hex_str(hash)
    &&& r.evt_index == l.block_index
    &&& r.evt_block_time == Some(ts)
    &&& r.evt_block_number == number
    &&& r.from@ == addr_at(l.topics@[1]@, 0)
    &&& r.to@ == addr_at(l.topics@[2]@, 0)
    &&& r.value@ == dec_str(be_val(word_at(l.data@, 0)))
}

/// A transfer record as the block scan must build it from one source.
pub open spec fn transfer_event_rec_ok(r: UsdcTransfer, b: Block, t: Transaction, l: Log) -> bool {
    transfer_event_fields(r, b.number, b.timestamp, t.hash@, l)
}

/// The transfer sources of a block, in traversal order.
pub open spec fn transfer_event_srcs(b: Block) -> Seq<(Transaction, Log)> {
    block_srcs(b, logs_of(), src_opt(q_transfer_event_fn()))
}

/// Decodes one log against the transfer signature.
fn dec_transfer_event(
    number: u64,
    ts: &Timestamp,
    hx: &Vec<u8>,
    hash: Ghost<Seq<u8>>,
    l: &Log,
) -> (r: Option<UsdcTransfer>)
    requires
        hx@ == hex_bytes(hash@),
    ensures
        r is Some <==> q_transfer_event(*l),
        r is Some ==> transfer_event_fields(r->Some_0, number, *ts, hash@, *l),
{
    if !is_tracked_address(&l.address) {
        return None;
    }
    if l.topics.len() != 3 {
        return None;
    }
    if !check_topic(&l.topics[0], EVT_TRANSFER_T0, EVT_TRANSFER_T1, EVT_TRANSFER_T2, EVT_TRANSFER_T3) {
        return None;
    }
    if l.topics[1].len() != 32 {
        return None;
    }
    if l.topics[2].len() != 32 {
        return None;
    }
    if l.data.len() != 32 {
        return None;
    }
    Some(
        UsdcTransfer {
            evt_tx_hash: hash_hex_string(hx, hash),
            evt_index: l.block_index,
            evt_block_time: Some(*ts),
            evt_block_number: number,
            from: addr_vec_at(&l.topics[1], 0),
            to: addr_vec_at(&l.topics[2], 0),
            value: dec_word_string(&l.data, 0),
        },
    )
}


/// Scans the whole block for transfer_event records.
pub fn scan_transfer_events(blk: &Block) -> (out: Vec<UsdcTransfer>)
    ensures
        out@.len() == transfer_event_srcs(*blk).len(),
        forall|k: int|
            0 <= k < out@.len() ==> transfer_event_rec_ok(
                #[trigger] out@[k],
                *blk,
                transfer_event_srcs(*blk)[k].0,
                transfer_event_srcs(*blk)[k].1,
            ),
{
    let ghost f = src_opt(q_transfer_event_fn());
    let mut out: Vec<UsdcTransfer> = Vec::new();
    let mut i: usize = 0;
    while i < blk.transactions.len()
        invariant
            i <= blk.transactions@.len(),
            f == src_opt(q_transfer_event_fn()),
            out@.len() == block_srcs_upto(*blk, logs_of(), f, i as int).len(),
            forall|k: int|
                0 <= k < out@.len() ==> transfer_event_rec_ok(
                    #[trigger] out@[k],
                    *blk,
                    block_srcs_upto(*blk, logs_of(), f, i as int)[k].0,
                    block_srcs_upto(*blk, logs_of(), f, i as int)[k].1,
                ),
        decreases blk.transactions@.len() - i,
    {
        let tx = &blk.transactions[i];
        let hx = hex_of(&tx.hash);
        let mut j: usize = 0;
        while j < tx.logs.len()
            invariant
                i < blk.transactions@.len(),
                *tx == blk.transactions@[i as int],
                hx@ == hex_bytes(tx.hash@),
                j <= tx.logs@.len(),
                f == src_opt(q_transfer_event_fn()),
                out@.len() == (block_srcs_upto(*blk, logs_of(), f, i as int) + tx_srcs_upto(
                    *tx,
                    tx.logs@,
                    f,
                    j as int,
                )).len(),
                forall|k: int|
                    0 <= k < out@.len() ==> transfer_event_rec_ok(
                        #[trigger] out@[k],
                        *blk,
                        (block_srcs_upto(*blk, logs_of(), f, i as int) + tx_srcs_upto(
                            *tx,
                            tx.logs@,
                            f,
                            j as int,
                        ))[k].0,
                        (block_srcs_upto(*blk, logs_of(), f, i as int) + tx_srcs_upto(
                            *tx,
                            tx.logs@,
                            f,
                            j as int,
                        ))[k].1,
                    ),
            decreases tx.logs@.len() - j,
        {
            let e = &tx.logs[j];
            let ghost pre = block_srcs_upto(*blk, logs_of(), f, i as int) + tx_srcs_upto(
                *tx,
                tx.logs@,
                f,
                j as int,
            );
            let r = dec_transfer_event(blk.number, &blk.timestamp, &hx, Ghost(tx.hash@), e);
            proof {
                assert(f(*tx, *e) == if q_transfer_event(*e) {
                    Some((*tx, *e))
                } else {
                    None::<(Transaction, Log)>
                });
                assert(tx_srcs_upto(*tx, tx.logs@, f, j + 1 as int) == tx_srcs_upto(
                    *tx,
                    tx.logs@,
                    f,
                    j as int,
                ) + match f(*tx, tx.logs@[j as int]) {
                    Some(p) => seq![p],
                    None => Seq::<(Transaction, Log)>::empty(),
                });
            }
            match r {
                Some(rec) => {
                    out.push(rec);
                    proof {
                        assert(block_srcs_upto(*blk, logs_of(), f, i as int) + tx_srcs_upto(
                            *tx,
                            tx.logs@,
                            f,
                            j + 1 as int,
                        ) =~= pre + seq![(*tx, *e)]);
                    }
                },
                None => {
                    proof {
                        assert(block_srcs_upto(*blk, logs_of(), f, i as int) + tx_srcs_upto(
                            *tx,
                            tx.logs@,
                            f,
                            j + 1 as int,
                        ) =~= pre);
                    }
                },
            }
            j += 1;
        }
        proof {
            assert(logs_of()(*tx) == tx.logs@);
            assert(tx_srcs_upto(*tx, tx.logs@, f, tx.logs@.len() as int) == tx_srcs(
                *tx,
                logs_of(),
                f,
            ));
            assert(block_srcs_upto(*blk, logs_of(), f, i + 1 as int) == block_srcs_upto(
                *blk,
                logs_of(),
                f,
                i as int,
            ) + tx_srcs(blk.transactions@[i as int], logs_of(), f));
        }
        i += 1;
    }
    proof {
        assert(transfer_event_srcs(*blk) == block_srcs_upto(
            *blk,
            logs_of(),
            f,
            blk.transactions@.len() as int,
        ));
    }
    out
}

pub const EVT_UN_BLACKLISTED_T0: u64 = 0x117e3210bb9aa7d9;

pub const EVT_UN_BLACKLISTED_T1: u64 = 0xbaff172026820255;

pub const EVT_UN_BLACKLISTED_T2: u64 = 0xc6f6c30ba8999d1c;

pub const EVT_UN_BLACKLISTED_T3: u64 = 0x2fd88e2848137c4e;

/// Whether a log is a un_blacklisted event of the tracked contract.
pub open spec fn q_un_blacklisted_event(l: Log) -> bool {
    &&& is_tracked(l.address@)
    &&& l.topics@.len() == 2
    &&& topic_is(
        l.topics@[0]@,
        EVT_UN_BLACKLISTED_T0 as int,
        EVT_UN_BLACKLISTED_T1 as int,
        EVT_UN_BLACKLISTED_T2 as int,
        EVT_UN_BLACKLISTED_T3 as int,
    )
    &&& l.topics@[1]@.len() == 32
    &&& l.data@.len() == 0
}

pub open spec fn q_un_blacklisted_event_fn() -> spec_fn(Log) -> bool {
    |l: Log| q_un_blacklisted_event(l)
}

/// The field contents of a un_blacklisted record built from one log.
pub open spec fn un_blacklisted_event_fields(
    r: UsdcUnBlacklisted,
    number: u64,
    ts: Timestamp,
    hash: Seq<u8>,
    l: Log,
) -> bool {
    &&& r.evt_tx_hash@ == hex_str(hash)
    &&& r.evt_index == l.block_index
    &&& r.evt_block_time == Some(ts)
    &&& r.evt_block_number == number
    &&& r.u_account@ == addr_at(l.topics@[1]@, 0)
}

/// A un_blacklisted record as the block scan must build it from one source.
pub open spec fn un_blacklisted_event_rec_ok(r: UsdcUnBlacklisted, b: Block, t: Transaction, l: Log) -> bool {
    un_blacklisted_event_fields(r, b.number, b.timestamp, t.hash@, l)
}

/// The un_blacklisted sources of a block, in traversal order.
pub open spec fn un_blacklisted_event_srcs(b: Block) -> Seq<(Transaction, Log)> {
    block_srcs(b, logs_of(), src_opt(q_un_blacklisted_event_fn()))
}

/// Decodes one log against the un_blacklisted signature.
fn dec_un_blacklisted_event(
    number: u64,
    ts: &Timestamp,
    hx: &Vec<u8>,
    hash: Ghost<Seq<u8>>,
    l: &Log,
) -> (r: Option<UsdcUnBlacklisted>)
    requires
        hx@ == hex_bytes(hash@),
    ensures
        r is Some <==> q_un_blacklisted_event(*l),
        r is Some ==> un_blacklisted_event_fields(r->Some_0, number, *ts, hash@, *l),
{
    if !is_tracked_address(&l.address) {
        return None;
    }
    if l.topics.len() != 2 {
        return None;
    }
    if !check_topic(&l.topics[0], EVT_UN_BLACKLISTED_T0, EVT_UN_BLACKLISTED_T1, EVT_UN_BLACKLISTED_T2, EVT_UN_BLACKLISTED_T3) {
        return None;
    }
    if l.topics[1].len() != 32 {
        return None;
    }
    if l.data.len() != 0 {
        return None;
    }
    Some(
        UsdcUnBlacklisted {
            evt_tx_hash: hash_hex_string(hx, hash),
            evt_index: l.block_index,
            evt_block_time: Some(*ts),
            evt_block_number: number,
            u_account: addr_vec_at(&l.topics[1], 0),
        },
    )
}


/// Scans the whole block for un_blacklisted_event records.
pub fn scan_un_blacklisted_events(blk: &Block) -> (out: Vec<UsdcUnBlacklisted>)
    ensures
        out@.len() == un_blacklisted_event_srcs(*blk).len(),
        forall|k: int|
            0 <= k < out@.len() ==> un_blacklisted_event_rec_ok(
                #[trigger] out@[k],
                *blk,
                un_blacklisted_event_srcs(*blk)[k].0,
                un_blacklisted_event_srcs(*blk)[k].1,
            ),
{
    let ghost f = src_opt(q_un_blacklisted_event_fn());
    let mut out: Vec<UsdcUnBlacklisted> = Vec::new();
    let mut i: usize = 0;
    while i < blk.transactions.len()
        invariant
            i <= blk.transactions@.len(),
            f == src_opt(q_un_blacklisted_event_fn()),
            out@.len() == block_srcs_upto(*blk, logs_of(), f, i as int).len(),
            forall|k: int|
                0 <= k < out@.len() ==> un_blacklisted_event_rec_ok(
                    #[trigger] out@[k],
                    *blk,
                    block_srcs_upto(*blk, logs_of(), f, i as int)[k].0,
                    block_srcs_upto(*blk, logs_of(), f, i as int)[k].1,
                ),
        decreases blk.transactions@.len() - i,
    {
        let tx = &blk.transactions[i];
        let hx = hex_of(&tx.hash);
        let mut j: usize = 0;
        while j < tx.logs.len()
            invariant
                i < blk.transactions@.len(),
                *tx == blk.transactions@[i as int],
                hx@ == hex_bytes(tx.hash@),
                j <= tx.logs@.len(),
                f == src_opt(q_un_blacklisted_event_fn()),
                out@.len() == (block_srcs_upto(*blk, logs_of(), f, i as int) + tx_srcs_upto(
                    *tx,
                    tx.logs@,
                    f,
                    j as int,
                )).len(),
                forall|k: int|
                    0 <= k < out@.len() ==> un_blacklisted_event_rec_ok(
                        #[trigger] out@[k],
                        *blk,
                        (block_srcs_upto(*blk, logs_of(), f, i as int) + tx_srcs_upto(
                            *tx,
                            tx.logs@,
                            f,
                            j as int,
                        ))[k].0,
                        (block_srcs_upto(*blk, logs_of(), f, i as int) + tx_srcs_upto(
                            *tx,
                            tx.logs@,
                            f,
                            j as int,
                        ))[k].1,
                    ),
            decreases tx.logs@.len() - j,
        {
            let e = &tx.logs[j];
            let ghost pre = block_srcs_upto(*blk, logs_of(), f, i as int) + tx_srcs_upto(
                *tx,
                tx.logs@,
                f,
                j as int,
            );
            let r = dec_un_blacklisted_event(blk.number, &blk.timestamp, &hx, Ghost(tx.hash@), e);
            proof {
                assert(f(*tx, *e) == if q_un_blacklisted_event(*e) {
                    Some((*tx, *e))
                } else {
                    None::<(Transaction, Log)>
                });
                assert(tx_srcs_upto(*tx, tx.logs@, f, j + 1 as int) == tx_srcs_upto(
                    *tx,
                    tx.logs@,
                    f,
                    j as int,
                ) + match f(*tx, tx.logs@[j as int]) {
                    Some(p) => seq![p],
                    None => Seq::<(Transaction, Log)>::empty(),
                });
            }
            match r {
                Some(rec) => {
                    out.push(rec);
                    proof {
                        assert(block_srcs_upto(*blk, logs_of(), f, i as int) + tx_srcs_upto(
                            *tx,
                            tx.logs@,
                            f,
                            j + 1 as int,
                        ) =~= pre + seq![(*tx, *e)]);
                    }
                },
                None => {
                    proof {
                        assert(block_srcs_upto(*blk, logs_of(), f, i as int) + tx_srcs_upto(
                            *tx,
                            tx.logs@,
                            f,
                            j + 1 as int,
                        ) =~= pre);
                    }
                },
            }
            j += 1;
        }
        proof {
            assert(logs_of()(*tx) == tx.logs@);
            assert(tx_srcs_upto(*tx, tx.logs@, f, tx.logs@.len() as int) == tx_srcs(
                *tx,
                logs_of(),
                f,
            ));
            assert(block_srcs_upto(*blk, logs_of(), f, i + 1 as int) == block_srcs_upto(
                *blk,
                logs_of(),
                f,
                i as int,
            ) + tx_srcs(blk.transactions@[i as int], logs_of(), f));
        }
        i += 1;
    }
    proof {
        assert(un_blacklisted_event_srcs(*blk) == block_srcs_upto(
            *blk,
            logs_of(),
            f,
            blk.transactions@.len() as int,
        ));
    }
    out
}

pub const EVT_UNPAUSE_T0: u64 = 0x7805862f689e2f13;

pub const EVT_UNPAUSE_T1: u64 = 0xdf9f062ff482ad3a;

pub const EVT_UNPAUSE_T2: u64 = 0xd112aca9e0847911;

pub const EVT_UNPAUSE_T3: u64 = 0xed832e158c525b33;

/// Whether a log is a unpause event of the tracked contract.
pub open spec fn q_unpause_event(l: Log) -> bool {
    &&& is_tracked(l.address@)
    &&& l.topics@.len() == 1
    &&& topic_is(
        l.topics@[0]@,
        EVT_UNPAUSE_T0 as int,
        EVT_UNPAUSE_T1 as int,
        EVT_UNPAUSE_T2 as int,
        EVT_UNPAUSE_T3 as int,
    )
    &&& l.data@.len() == 0
}

pub open spec fn q_unpause_event_fn() -> spec_fn(Log) -> bool {
    |l: Log| q_unpause_event(l)
}

/// The field contents of a unpause record built from one log.
pub open spec fn unpause_event_fields(
    r: UsdcUnpause,
    number: u64,
    ts: Timestamp,
    hash: Seq<u8>,
    l: Log,
) -> bool {
    &&& r.evt_tx_hash@ == hex_str(hash)
    &&& r.evt_index == l.block_index
    &&& r.evt_block_time == Some(ts)
    &&& r.evt_block_number == number
}

/// A unpause record as the block scan must build it from one source.
pub open spec fn unpause_event_rec_ok(r: UsdcUnpause, b: Block, t: Transaction, l: Log) -> bool {
    unpause_event_fields(r, b.number, b.timestamp, t.hash@, l)
}

/// The unpause sources of a block, in traversal order.
pub open spec fn unpause_event_srcs(b: Block) -> Seq<(Transaction, Log)> {
    block_srcs(b, logs_of(), src_opt(q_unpause_event_fn()))
}

/// Decodes one log against the unpause signature.
fn dec_unpause_event(
    number: u64,
    ts: &Timestamp,
    hx: &Vec<u8>,
    hash: Ghost<Seq<u8>>,
    l: &Log,
) -> (r: Option<UsdcUnpause>)
    requires
        hx@ == hex_bytes(hash@),
    ensures
        r is Some <==> q_unpause_event(*l),
        r is Some ==> unpause_event_fields(r->Some_0, number, *ts, hash@, *l),
{
    if !is_tracked_address(&l.address) {
        return None;
    }
    if l.topics.len() != 1 {
        return None;
    }
    if !check_topic(&l.topics[0], EVT_UNPAUSE_T0, EVT_UNPAUSE_T1, EVT_UNPAUSE_T2, EVT_UNPAUSE_T3) {
        return None;
    }
    if l.data.len() != 0 {
        return None;
    }
    Some(
        UsdcUnpause {
            evt_tx_hash: hash_hex_string(hx, hash),
            evt_index: l.block_index,
            evt_block_time: Some(*ts),
            evt_block_number: number,
        },
    )
}


/// Scans the whole block for unpause_event records.
pub fn scan_unpause_events(blk: &Block) -> (out: Vec<UsdcUnpause>)
    ensures
        out@.len() == unpause_event_srcs(*blk).len(),
        forall|k: int|
            0 <= k < out@.len() ==> unpause_event_rec_ok(
                #[trigger] out@[k],
                *blk,
                unpause_event_srcs(*blk)[k].0,
                unpause_event_srcs(*blk)[k].1,
            ),
{
    let ghost f = src_opt(q_unpause_event_fn());
    let mut out: Vec<UsdcUnpause> = Vec::new();
    let mut i: usize = 0;
    while i < blk.transactions.len()
        invariant
            i <= blk.transactions@.len(),
            f == src_opt(q_unpause_event_fn()),
            out@.len() == block_srcs_upto(*blk, logs_of(), f, i as int).len(),
            forall|k: int|
                0 <= k < out@.len() ==> unpause_event_rec_ok(
                    #[trigger] out@[k],
                    *blk,
                    block_srcs_upto(*blk, logs_of(), f, i as int)[k].0,
                    block_srcs_upto(*blk, logs_of(), f, i as int)[k].1,
                ),
        decreases blk.transactions@.len() - i,
    {
        let tx = &blk.transactions[i];
        let hx = hex_of(&tx.hash);
        let mut j: usize = 0;
        while j < tx.logs.len()
            invariant
                i < blk.transactions@.len(),
                *tx == blk.transactions@[i as int],
                hx@ == hex_bytes(tx.hash@),
                j <= tx.logs@.len(),
                f == src_opt(q_unpause_event_fn()),
                out@.len() == (block_srcs_upto(*blk, logs_of(), f, i as int) + tx_srcs_upto(
                    *tx,
                    tx.logs@,
                    f,
                    j as int,
                )).len(),
                forall|k: int|
                    0 <= k < out@.len() ==> unpause_event_rec_ok(
                        #[trigger] out@[k],
                        *blk,
                        (block_srcs_upto(*blk, logs_of(), f, i as int) + tx_srcs_upto(
                            *tx,
                            tx.logs@,
                            f,
                            j as int,
                        ))[k].0,
                        (block_srcs_upto(*blk, logs_of(), f, i as int) + tx_srcs_upto(
                            *tx,
                            tx.logs@,
                            f,
                            j as int,
                        ))[k].1,
                    ),
            decreases tx.logs@.len() - j,
        {
            let e = &tx.logs[j];
            let ghost pre = block_srcs_upto(*blk, logs_of(), f, i as int) + tx_srcs_upto(
                *tx,
                tx.logs@,
                f,
                j as int,
            );
            let r = dec_unpause_event(blk.number, &blk.timestamp, &hx, Ghost(tx.hash@), e);
            proof {
                assert(f(*tx, *e) == if q_unpause_event(*e) {
                    Some((*tx, *e))
                } else {
                    None::<(Transaction, Log)>
                });
                assert(tx_srcs_upto(*tx, tx.logs@, f, j + 1 as int) == tx_srcs_upto(
                    *tx,
                    tx.logs@,
                    f,
                    j as int,
                ) + match f(*tx, tx.logs@[j as int]) {
                    Some(p) => seq![p],
                    None => Seq::<(Transaction, Log)>::empty(),
                });
            }
            match r {
                Some(rec) => {
                    out.push(rec);
                    proof {
                        assert(block_srcs_upto(*blk, logs_of(), f, i as int) + tx_srcs_upto(
                            *tx,
                            tx.logs@,
                            f,
                            j + 1 as int,
                        ) =~= pre + seq![(*tx, *e)]);
                    }
                },
                None => {
                    proof {
                        assert(block_srcs_upto(*blk, logs_of(), f, i as int) + tx_srcs_upto(
                            *tx,
                            tx.logs@,
                            f,
                            j + 1 as int,
                        ) =~= pre);
                    }
                },
            }
            j += 1;
        }
        proof {
            assert(logs_of()(*tx) == tx.logs@);
            assert(tx_srcs_upto(*tx, tx.logs@, f, tx.logs@.len() as int) == tx_srcs(
                *tx,
                logs_of(),
                f,
            ));
            assert(block_srcs_upto(*blk, logs_of(), f, i + 1 as int) == block_srcs_upto(
                *blk,
                logs_of(),
                f,
                i as int,
            ) + tx_srcs(blk.transactions@[i as int], logs_of(), f));
        }
        i += 1;
    }
    proof {
        assert(unpause_event_srcs(*blk) == block_srcs_upto(
            *blk,
            logs_of(),
            f,
            blk.transactions@.len() as int,
        ));
    }
    out
}

pub const EVT_UPGRADED_T0: u64 = 0xbc7cd75a20ee27fd;

pub const EVT_UPGRADED_T1: u64 = 0x9adebab32041f755;

pub const EVT_UPGRADED_T2: u64 = 0x214dbc6bffa90cc0;

pub const EVT_UPGRADED_T3: u64 = 0x225b39da2e5c2d3b;

/// Whether a log is a upgraded event of the tracked contract.
pub open spec fn q_upgraded_event(l: Log) -> bool {
    &&& is_tracked(l.address@)
    &&& l.topics@.len() == 1
    &&& topic_is(
        l.topics@[0]@,
        EVT_UPGRADED_T0 as int,
        EVT_UPGRADED_T1 as int,
        EVT_UPGRADED_T2 as int,
        EVT_UPGRADED_T3 as int,
    )
    &&& l.data@.len() == 32
}

pub open spec fn q_upgraded_event_fn() -> spec_fn(Log) -> bool {
    |l: Log| q_upgraded_event(l)
}

/// The field contents of a upgraded record built from one log.
pub open spec fn upgraded_event_fields(
    r: UsdcUpgraded,
    number: u64,
    ts: Timestamp,
    hash: Seq<u8>,
    l: Log,
) -> bool {
    &&& r.evt_tx_hash@ == hex_str(hash)
    &&& r.evt_index == l.block_index
    &&& r.evt_block_time == Some(ts)
    &&& r.evt_block_number == number
    &&& r.implementation@ == addr_at(l.data@, 0)
}

/// A upgraded record as the block scan must build it from one source.
pub open spec fn upgraded_event_rec_ok(r: UsdcUpgraded, b: Block, t: Transaction, l: Log) -> bool {
    upgraded_event_fields(r, b.number, b.timestamp, t.hash@, l)
}

/// The upgraded sources of a block, in traversal order.
pub open spec fn upgraded_event_srcs(b: Block) -> Seq<(Transaction, Log)> {
    block_srcs(b, logs_of(), src_opt(q_upgraded_event_fn()))
}

/// Decodes one log against the upgraded signature.
fn dec_upgraded_event(
    number: u64,
    ts: &Timestamp,
    hx: &Vec<u8>,
    hash: Ghost<Seq<u8>>,
    l: &Log,
) -> (r: Option<UsdcUpgraded>)
    requires
        hx@ == hex_bytes(hash@),
    ensures
        r is Some <==> q_upgraded_event(*l),
        r is Some ==> upgraded_event_fields(r->Some_0, number, *ts, hash@, *l),
{
    if !is_tracked_address(&l.address) {
        return None;
    }
    if l.topics.len() != 1 {
        return None;
    }
    if !check_topic(&l.topics[0], EVT_UPGRADED_T0, EVT_UPGRADED_T1, EVT_UPGRADED_T2, EVT_UPGRADED_T3) {
        return None;
    }
    if l.data.len() != 32 {
        return None;
    }
    Some(
        UsdcUpgraded {
            evt_tx_hash: hash_hex_string(hx, hash),
            evt_index: l.block_index,
            evt_block_time: Some(*ts),
            evt_block_number: number,
            implementation: addr_vec_at(&l.data, 0),
        },
    )
}


/// Scans the whole block for upgraded_event records.
pub fn scan_upgraded_events(blk: &Block) -> (out: Vec<UsdcUpgraded>)
    ensures
        out@.len() == upgraded_event_srcs(*blk).len(),
        forall|k: int|
            0 <= k < out@.len() ==> upgraded_event_rec_ok(
                #[trigger] out@[k],
                *blk,
                upgraded_event_srcs(*blk)[k].0,
                upgraded_event_srcs(*blk)[k].1,
            ),
{
    let ghost f = src_opt(q_upgraded_event_fn());
    let mut out: Vec<UsdcUpgraded> = Vec::new();
    let mut i: usize = 0;
    while i < blk.transactions.len()
        invariant
            i <= blk.transactions@.len(),
            f == src_opt(q_upgraded_event_fn()),
            out@.len() == block_srcs_upto(*blk, logs_of(), f, i as int).len(),
            forall|k: int|
                0 <= k < out@.len() ==> upgraded_event_rec_ok(
                    #[trigger] out@[k],
                    *blk,
                    block_srcs_upto(*blk, logs_of(), f, i as int)[k].0,
                    block_srcs_upto(*blk, logs_of(), f, i as int)[k].1,
                ),
        decreases blk.transactions@.len() - i,
    {
        let tx = &blk.transactions[i];
        let hx = hex_of(&tx.hash);
        let mut j: usize = 0;
        while j < tx.logs.len()
            invariant
                i < blk.transactions@.len(),
                *tx == blk.transactions@[i as int],
                hx@ == hex_bytes(tx.hash@),
                j <= tx.logs@.len(),
                f == src_opt(q_upgraded_event_fn()),
                out@.len() == (block_srcs_upto(*blk, logs_of(), f, i as int) + tx_srcs_upto(
                    *tx,
                    tx.logs@,
                    f,
                    j as int,
                )).len(),
                forall|k: int|
                    0 <= k < out@.len() ==> upgraded_event_rec_ok(
                        #[trigger] out@[k],
                        *blk,
                        (block_srcs_upto(*blk, logs_of(), f, i as int) + tx_srcs_upto(
                            *tx,
                            tx.logs@,
                            f,
                            j as int,
                        ))[k].0,
                        (block_srcs_upto(*blk, logs_of(), f, i as int) + tx_srcs_upto(
                            *tx,
                            tx.logs@,
                            f,
                            j as int,
                        ))[k].1,
                    ),
            decreases tx.logs@.len() - j,
        {
            let e = &tx.logs[j];
            let ghost pre = block_srcs_upto(*blk, logs_of(), f, i as int) + tx_srcs_upto(
                *tx,
                tx.logs@,
                f,
                j as int,
            );
            let r = dec_upgraded_event(blk.number, &blk.timestamp, &hx, Ghost(tx.hash@), e);
            proof {
                assert(f(*tx, *e) == if q_upgraded_event(*e) {
                    Some((*tx, *e))
                } else {
                    None::<(Transaction, Log)>
                });
                assert(tx_srcs_upto(*tx, tx.logs@, f, j + 1 as int) == tx_srcs_upto(
                    *tx,
                    tx.logs@,
                    f,
                    j as int,
                ) + match f(*tx, tx.logs@[j as int]) {
                    Some(p) => seq![p],
                    None => Seq::<(Transaction, Log)>::empty(),
                });
            }
            match r {
                Some(rec) => {
                    out.push(rec);
                    proof {
                        assert(block_srcs_upto(*blk, logs_of(), f, i as int) + tx_srcs_upto(
                            *tx,
                            tx.logs@,
                            f,
                            j + 1 as int,
                        ) =~= pre + seq![(*tx, *e)]);
                    }
                },
                None => {
                    proof {
                        assert(block_srcs_upto(*blk, logs_of(), f, i as int) + tx_srcs_upto(
                            *tx,
                            tx.logs@,
                            f,
                            j + 1 as int,
                        ) =~= pre);
                    }
                },
            }
            j += 1;
        }
        proof {
            assert(logs_of()(*tx) == tx.logs@);
            assert(tx_srcs_upto(*tx, tx.logs@, f, tx.logs@.len() as int) == tx_srcs(
                *tx,
                logs_of(),
                f,
            ));
            assert(block_srcs_upto(*blk, logs_of(), f, i + 1 as int) == block_srcs_upto(
                *blk,
                logs_of(),
                f,
                i as int,
            ) + tx_srcs(blk.transactions@[i as int], logs_of(), f));
        }
        i += 1;
    }
    proof {
        assert(upgraded_event_srcs(*blk) == block_srcs_upto(
            *blk,
            logs_of(),
            f,
            blk.transactions@.len() as int,
        ));
    }
    out
}

} // verus!
