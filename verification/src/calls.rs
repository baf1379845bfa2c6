//! The call projector: one verified scan per tracked function signature.
//!
//! A call qualifies for a kind when its target is the tracked contract, its
//! input starts with the kind's selector, and the input decodes against the
//! kind's argument layout.  A matched selector whose input fails to decode
//! yields nothing; a failed decode of the return data never drops the record
//! and only leaves the output field at its default.

use vstd::prelude::*;

use crate::model::Block;
use crate::model::Call;
use crate::model::Timestamp;
use crate::model::Transaction;
use crate::model::is_tracked;
use crate::model::is_tracked_address;
use crate::abi::addr_array_elem;
use crate::abi::addr_array_len;
use crate::abi::addr_array_ok;
use crate::abi::addr_at;
use crate::abi::addr_vec_at;
use crate::abi::be_val;
use crate::abi::bool_output;
use crate::abi::check_selector;
use crate::abi::dec_str;
use crate::abi::dec_word_string;
use crate::abi::decode_addr_array;
use crate::abi::decode_bool_output;
use crate::abi::decode_dyn_bytes;
use crate::abi::decode_u8_word;
use crate::abi::dyn_bytes;
use crate::abi::dyn_ok;
use crate::abi::hash_hex_string;
use crate::abi::hex_bytes;
use crate::abi::hex_of;
use crate::abi::hex_str;
use crate::abi::sel_is;
use crate::abi::u8_word_ok;
use crate::abi::u8_word_val;
use crate::abi::utf8_lossy_of;
use crate::abi::utf8_lossy_string;
use crate::abi::word_at;
use crate::abi::word_vec_at;

use crate::records::UsdcApproveCall;
use crate::records::UsdcBlacklistCall;
use crate::records::UsdcBurnCall;
use crate::records::UsdcCancelAuthorization1call;
use crate::records::UsdcCancelAuthorization2call;
use crate::records::UsdcChangeAdminCall;
use crate::records::UsdcConfigureMinterCall;
use crate::records::UsdcDecreaseAllowanceCall;
use crate::records::UsdcIncreaseAllowanceCall;
use crate::records::UsdcInitializeCall;
use crate::records::UsdcInitializeV2call;
use crate::records::UsdcInitializeV21call;
use crate::records::UsdcInitializeV22call;
use crate::records::UsdcMintCall;
use crate::records::UsdcPauseCall;
use crate::records::UsdcPermit1call;
use crate::records::UsdcPermit2call;
use crate::records::UsdcReceiveWithAuthorization1call;
use crate::records::UsdcReceiveWithAuthorization2call;
use crate::records::UsdcRemoveMinterCall;
use crate::records::UsdcRescueErc20call;
use crate::records::UsdcTransferCall;
use crate::records::UsdcTransferFromCall;
use crate::records::UsdcTransferOwnershipCall;
use crate::records::UsdcTransferWithAuthorization1call;
use crate::records::UsdcTransferWithAuthorization2call;
use crate::records::UsdcUnBlacklistCall;
use crate::records::UsdcUnpauseCall;
use crate::records::UsdcUpdateBlacklisterCall;
use crate::records::UsdcUpdateMasterMinterCall;
use crate::records::UsdcUpdatePauserCall;
use crate::records::UsdcUpdateRescuerCall;
use crate::records::UsdcUpgradeToCall;
use crate::records::UsdcUpgradeToAndCallCall;
use crate::scan::block_srcs;
use crate::scan::block_srcs_upto;
use crate::scan::calls_of;
use crate::scan::src_opt;
use crate::scan::tx_srcs;
use crate::scan::tx_srcs_upto;

verus! {

pub const SEL_APPROVE: u32 = 0x095ea7b3;

/// Whether a call is a approve call to the tracked contract whose input
/// decodes against the signature's argument layout.
pub open spec fn q_approve_call(c: Call) -> bool {
    &&& is_tracked(c.address@)
    &&& sel_is(c.input@, SEL_APPROVE as int)
    &&& c.input@.len() >= 68
}

pub open spec fn q_approve_call_fn() -> spec_fn(Call) -> bool {
    |c: Call| q_approve_call(c)
}

/// The field contents of a approve call record built from one call.
pub open spec fn approve_call_fields(
    r: UsdcApproveCall,
    number: u64,
    ts: Timestamp,
    hash: Seq<u8>,
    c: Call,
) -> bool {
    &&& r.call_tx_hash@ == hex_str(hash)
    &&& r.call_block_time == Some(ts)
    &&& r.call_block_number == number
    &&& r.call_ordinal == c.begin_ordinal
    &&& r.call_success == !c.state_reverted
    &&& r.spender@ == addr_at(c.input@, 4)
    &&& r.value@ == dec_str(be_val(word_at(c.input@, 36)))
    &&& r.output_param0 == bool_output(c.return_data@)
}

/// A approve call record as the block scan must build it from one source.
pub open spec fn approve_call_rec_ok(r: UsdcApproveCall, b: Block, t: Transaction, c: Call) -> bool {
    approve_call_fields(r, b.number, b.timestamp, t.hash@, c)
}

/// The approve call sources of a block, in traversal order.
pub open spec fn approve_call_srcs(b: Block) -> Seq<(Transaction, Call)> {
    block_srcs(b, calls_of(), src_opt(q_approve_call_fn()))
}

/// Decodes one call against the approve signature.
fn dec_approve_call(
    number: u64,
    ts: &Timestamp,
    hx: &Vec<u8>,
    hash: Ghost<Seq<u8>>,
    c: &Call,
) -> (r: Option<UsdcApproveCall>)
    requires
        hx@ == hex_bytes(hash@),
    ensures
        r is Some <==> q_approve_call(*c),
        r is Some ==> approve_call_fields(r->Some_0, number, *ts, hash@, *c),
{
    if !is_tracked_address(&c.address) {
        return None;
    }
    if !check_selector(&c.input, SEL_APPROVE) {
        return None;
    }
    if c.input.len() < 68 {
        return None;
    }
    Some(
        UsdcApproveCall {
            call_tx_hash: hash_hex_string(hx, hash),
            call_block_time: Some(*ts),
            call_block_number: number,
            call_ordinal: c.begin_ordinal,
            call_success: !c.state_reverted,
            spender: addr_vec_at(&c.input, 4),
            value: dec_word_string(&c.input, 36),
            output_param0: decode_bool_output(&c.return_data),
        },
    )
}


/// Scans the whole block for approve_call records.
pub fn scan_approve_calls(blk: &Block) -> (out: Vec<UsdcApproveCall>)
    ensures
        out@.len() == approve_call_srcs(*blk).len(),
        forall|k: int|
            0 <= k < out@.len() ==> approve_call_rec_ok(
                #[trigger] out@[k],
                *blk,
                approve_call_srcs(*blk)[k].0,
                approve_call_srcs(*blk)[k].1,
            ),
{
    let ghost f = src_opt(q_approve_call_fn());
    let mut out: Vec<UsdcApproveCall> = Vec::new();
    let mut i: usize = 0;
    while i < blk.transactions.len()
        invariant
            i <= blk.transactions@.len(),
            f == src_opt(q_approve_call_fn()),
            out@.len() == block_srcs_upto(*blk, calls_of(), f, i as int).len(),
            forall|k: int|
                0 <= k < out@.len() ==> approve_call_rec_ok(
                    #[trigger] out@[k],
                    *blk,
                    block_srcs_upto(*blk, calls_of(), f, i as int)[k].0,
                    block_srcs_upto(*blk, calls_of(), f, i as int)[k].1,
                ),
        decreases blk.transactions@.len() - i,
    {
        let tx = &blk.transactions[i];
        let hx = hex_of(&tx.hash);
        let mut j: usize = 0;
        while j < tx.calls.len()
            invariant
                i < blk.transactions@.len(),
                *tx == blk.transactions@[i as int],
                hx@ == hex_bytes(tx.hash@),
                j <= tx.calls@.len(),
                f == src_opt(q_approve_call_fn()),
                out@.len() == (block_srcs_upto(*blk, calls_of(), f, i as int) + tx_srcs_upto(
                    *tx,
                    tx.calls@,
                    f,
                    j as int,
                )).len(),
                forall|k: int|
                    0 <= k < out@.len() ==> approve_call_rec_ok(
                        #[trigger] out@[k],
                        *blk,
                        (block_srcs_upto(*blk, calls_of(), f, i as int) + tx_srcs_upto(
                            *tx,
                            tx.calls@,
                            f,
                            j as int,
                        ))[k].0,
                        (block_srcs_upto(*blk, calls_of(), f, i as int) + tx_srcs_upto(
                            *tx,
                            tx.calls@,
                            f,
                            j as int,
                        ))[k].1,
                    ),
            decreases tx.calls@.len() - j,
        {
            let e = &tx.calls[j];
            let ghost pre = block_srcs_upto(*blk, calls_of(), f, i as int) + tx_srcs_upto(
                *tx,
                tx.calls@,
                f,
                j as int,
            );
            let r = dec_approve_call(blk.number, &blk.timestamp, &hx, Ghost(tx.hash@), e);
            proof {
                assert(f(*tx, *e) == if q_approve_call(*e) {
                    Some((*tx, *e))
                } else {
                    None::<(Transaction, Call)>
                });
                assert(tx_srcs_upto(*tx, tx.calls@, f, j + 1 as int) == tx_srcs_upto(
                    *tx,
                    tx.calls@,
                    f,
                    j as int,
                ) + match f(*tx, tx.calls@[j as int]) {
                    Some(p) => seq![p],
                    None => Seq::<(Transaction, Call)>::empty(),
                });
            }
            match r {
                Some(rec) => {
                    out.push(rec);
                    proof {
                        assert(block_srcs_upto(*blk, calls_of(), f, i as int) + tx_srcs_upto(
                            *tx,
                            tx.calls@,
                            f,
                            j + 1 as int,
                        ) =~= pre + seq![(*tx, *e)]);
                    }
                },
                None => {
                    proof {
                        assert(block_srcs_upto(*blk, calls_of(), f, i as int) + tx_srcs_upto(
                            *tx,
                            tx.calls@,
                            f,
                            j + 1 as int,
                        ) =~= pre);
                    }
                },
            }
            j += 1;
        }
        proof {
            assert(calls_of()(*tx) == tx.calls@);
            assert(tx_srcs_upto(*tx, tx.calls@, f, tx.calls@.len() as int) == tx_srcs(
                *tx,
                calls_of(),
                f,
            ));
            assert(block_srcs_upto(*blk, calls_of(), f, i + 1 as int) == block_srcs_upto(
                *blk,
                calls_of(),
                f,
                i as int,
            ) + tx_srcs(blk.transactions@[i as int], calls_of(), f));
        }
        i += 1;
    }
    proof {
        assert(approve_call_srcs(*blk) == block_srcs_upto(
            *blk,
            calls_of(),
            f,
            blk.transactions@.len() as int,
        ));
    }
    out
}

pub const SEL_BLACKLIST: u32 = 0xf9f92be4;

/// Whether a call is a blacklist call to the tracked contract whose input
/// decodes against the signature's argument layout.
pub open spec fn q_blacklist_call(c: Call) -> bool {
    &&& is_tracked(c.address@)
    &&& sel_is(c.input@, SEL_BLACKLIST as int)
    &&& c.input@.len() >= 36
}

pub open spec fn q_blacklist_call_fn() -> spec_fn(Call) -> bool {
    |c: Call| q_blacklist_call(c)
}

/// The field contents of a blacklist call record built from one call.
pub open spec fn blacklist_call_fields(
    r: UsdcBlacklistCall,
    number: u64,
    ts: Timestamp,
    hash: Seq<u8>,
    c: Call,
) -> bool {
    &&& r.call_tx_hash@ == hex_str(hash)
    &&& r.call_block_time == Some(ts)
    &&& r.call_block_number == number
    &&& r.call_ordinal == c.begin_ordinal
    &&& r.call_success == !c.state_reverted
    &&& r.u_account@ == addr_at(c.input@, 4)
}

/// A blacklist call record as the block scan must build it from one source.
pub open spec fn blacklist_call_rec_ok(r: UsdcBlacklistCall, b: Block, t: Transaction, c: Call) -> bool {
    blacklist_call_fields(r, b.number, b.timestamp, t.hash@, c)
}

/// The blacklist call sources of a block, in traversal order.
pub open spec fn blacklist_call_srcs(b: Block) -> Seq<(Transaction, Call)> {
    block_srcs(b, calls_of(), src_opt(q_blacklist_call_fn()))
}

/// Decodes one call against the blacklist signature.
fn dec_blacklist_call(
    number: u64,
    ts: &Timestamp,
    hx: &Vec<u8>,
    hash: Ghost<Seq<u8>>,
    c: &Call,
) -> (r: Option<UsdcBlacklistCall>)
    requires
        hx@ == hex_bytes(hash@),
    ensures
        r is Some <==> q_blacklist_call(*c),
        r is Some ==> blacklist_call_fields(r->Some_0, number, *ts, hash@, *c),
{
    if !is_tracked_address(&c.address) {
        return None;
    }
    if !check_selector(&c.input, SEL_BLACKLIST) {
        return None;
    }
    if c.input.len() < 36 {
        return None;
    }
    Some(
        UsdcBlacklistCall {
            call_tx_hash: hash_hex_string(hx, hash),
            call_block_time: Some(*ts),
            call_block_number: number,
            call_ordinal: c.begin_ordinal,
            call_success: !c.state_reverted,
            u_account: addr_vec_at(&c.input, 4),
        },
    )
}


/// Scans the whole block for blacklist_call records.
pub fn scan_blacklist_calls(blk: &Block) -> (out: Vec<UsdcBlacklistCall>)
    ensures
        out@.len() == blacklist_call_srcs(*blk).len(),
        forall|k: int|
            0 <= k < out@.len() ==> blacklist_call_rec_ok(
                #[trigger] out@[k],
                *blk,
                blacklist_call_srcs(*blk)[k].0,
                blacklist_call_srcs(*blk)[k].1,
            ),
{
    let ghost f = src_opt(q_blacklist_call_fn());
    let mut out: Vec<UsdcBlacklistCall> = Vec::new();
    let mut i: usize = 0;
    while i < blk.transactions.len()
        invariant
            i <= blk.transactions@.len(),
            f == src_opt(q_blacklist_call_fn()),
            out@.len() == block_srcs_upto(*blk, calls_of(), f, i as int).len(),
            forall|k: int|
                0 <= k < out@.len() ==> blacklist_call_rec_ok(
                    #[trigger] out@[k],
                    *blk,
                    block_srcs_upto(*blk, calls_of(), f, i as int)[k].0,
                    block_srcs_upto(*blk, calls_of(), f, i as int)[k].1,
                ),
        decreases blk.transactions@.len() - i,
    {
        let tx = &blk.transactions[i];
        let hx = hex_of(&tx.hash);
        let mut j: usize = 0;
        while j < tx.calls.len()
            invariant
                i < blk.transactions@.len(),
                *tx == blk.transactions@[i as int],
                hx@ == hex_bytes(tx.hash@),
                j <= tx.calls@.len(),
                f == src_opt(q_blacklist_call_fn()),
                out@.len() == (block_srcs_upto(*blk, calls_of(), f, i as int) + tx_srcs_upto(
                    *tx,
                    tx.calls@,
                    f,
                    j as int,
                )).len(),
                forall|k: int|
                    0 <= k < out@.len() ==> blacklist_call_rec_ok(
                        #[trigger] out@[k],
                        *blk,
                        (block_srcs_upto(*blk, calls_of(), f, i as int) + tx_srcs_upto(
                            *tx,
                            tx.calls@,
                            f,
                            j as int,
                        ))[k].0,
                        (block_srcs_upto(*blk, calls_of(), f, i as int) + tx_srcs_upto(
                            *tx,
                            tx.calls@,
                            f,
                            j as int,
                        ))[k].1,
                    ),
            decreases tx.calls@.len() - j,
        {
            let e = &tx.calls[j];
            let ghost pre = block_srcs_upto(*blk, calls_of(), f, i as int) + tx_srcs_upto(
                *tx,
                tx.calls@,
                f,
                j as int,
            );
            let r = dec_blacklist_call(blk.number, &blk.timestamp, &hx, Ghost(tx.hash@), e);
            proof {
                assert(f(*tx, *e) == if q_blacklist_call(*e) {
                    Some((*tx, *e))
                } else {
                    None::<(Transaction, Call)>
                });
                assert(tx_srcs_upto(*tx, tx.calls@, f, j + 1 as int) == tx_srcs_upto(
                    *tx,
                    tx.calls@,
                    f,
                    j as int,
                ) + match f(*tx, tx.calls@[j as int]) {
                    Some(p) => seq![p],
                    None => Seq::<(Transaction, Call)>::empty(),
                });
            }
            match r {
                Some(rec) => {
                    out.push(rec);
                    proof {
                        assert(block_srcs_upto(*blk, calls_of(), f, i as int) + tx_srcs_upto(
                            *tx,
                            tx.calls@,
                            f,
                            j + 1 as int,
                        ) =~= pre + seq![(*tx, *e)]);
                    }
                },
                None => {
                    proof {
                        assert(block_srcs_upto(*blk, calls_of(), f, i as int) + tx_srcs_upto(
                            *tx,
                            tx.calls@,
                            f,
                            j + 1 as int,
                        ) =~= pre);
                    }
                },
            }
            j += 1;
        }
        proof {
            assert(calls_of()(*tx) == tx.calls@);
            assert(tx_srcs_upto(*tx, tx.calls@, f, tx.calls@.len() as int) == tx_srcs(
                *tx,
                calls_of(),
                f,
            ));
            assert(block_srcs_upto(*blk, calls_of(), f, i + 1 as int) == block_srcs_upto(
                *blk,
                calls_of(),
                f,
                i as int,
            ) + tx_srcs(blk.transactions@[i as int], calls_of(), f));
        }
        i += 1;
    }
    proof {
        assert(blacklist_call_srcs(*blk) == block_srcs_upto(
            *blk,
            calls_of(),
            f,
            blk.transactions@.len() as int,
        ));
    }
    out
}

pub const SEL_BURN: u32 = 0x42966c68;

/// Whether a call is a burn call to the tracked contract whose input
/// decodes against the signature's argument layout.
pub open spec fn q_burn_call(c: Call) -> bool {
    &&& is_tracked(c.address@)
    &&& sel_is(c.input@, SEL_BURN as int)
    &&& c.input@.len() >= 36
}

pub open spec fn q_burn_call_fn() -> spec_fn(Call) -> bool {
    |c: Call| q_burn_call(c)
}

/// The field contents of a burn call record built from one call.
pub open spec fn burn_call_fields(
    r: UsdcBurnCall,
    number: u64,
    ts: Timestamp,
    hash: Seq<u8>,
    c: Call,
) -> bool {
    &&& r.call_tx_hash@ == hex_str(hash)
    &&& r.call_block_time == Some(ts)
    &&& r.call_block_number == number
    &&& r.call_ordinal == c.begin_ordinal
    &&& r.call_success == !c.state_reverted
    &&& r.u_amount@ == dec_str(be_val(word_at(c.input@, 4)))
}

/// A burn call record as the block scan must build it from one source.
pub open spec fn burn_call_rec_ok(r: UsdcBurnCall, b: Block, t: Transaction, c: Call) -> bool {
    burn_call_fields(r, b.number, b.timestamp, t.hash@, c)
}

/// The burn call sources of a block, in traversal order.
pub open spec fn burn_call_srcs(b: Block) -> Seq<(Transaction, Call)> {
    block_srcs(b, calls_of(), src_opt(q_burn_call_fn()))
}

/// Decodes one call against the burn signature.
fn dec_burn_call(
    number: u64,
    ts: &Timestamp,
    hx: &Vec<u8>,
    hash: Ghost<Seq<u8>>,
    c: &Call,
) -> (r: Option<UsdcBurnCall>)
    requires
        hx@ == hex_bytes(hash@),
    ensures
        r is Some <==> q_burn_call(*c),
        r is Some ==> burn_call_fields(r->Some_0, number, *ts, hash@, *c),
{
    if !is_tracked_address(&c.address) {
        return None;
    }
    if !check_selector(&c.input, SEL_BURN) {
        return None;
    }
    if c.input.len() < 36 {
        return None;
    }
    Some(
        UsdcBurnCall {
            call_tx_hash: hash_hex_string(hx, hash),
            call_block_time: Some(*ts),
            call_block_number: number,
            call_ordinal: c.begin_ordinal,
            call_success: !c.state_reverted,
            u_amount: dec_word_string(&c.input, 4),
        },
    )
}


/// Scans the whole block for burn_call records.
pub fn scan_burn_calls(blk: &Block) -> (out: Vec<UsdcBurnCall>)
    ensures
        out@.len() == burn_call_srcs(*blk).len(),
        forall|k: int|
            0 <= k < out@.len() ==> burn_call_rec_ok(
                #[trigger] out@[k],
                *blk,
                burn_call_srcs(*blk)[k].0,
                burn_call_srcs(*blk)[k].1,
            ),
{
    let ghost f = src_opt(q_burn_call_fn());
    let mut out: Vec<UsdcBurnCall> = Vec::new();
    let mut i: usize = 0;
    while i < blk.transactions.len()
        invariant
            i <= blk.transactions@.len(),
            f == src_opt(q_burn_call_fn()),
            out@.len() == block_srcs_upto(*blk, calls_of(), f, i as int).len(),
            forall|k: int|
                0 <= k < out@.len() ==> burn_call_rec_ok(
                    #[trigger] out@[k],
                    *blk,
                    block_srcs_upto(*blk, calls_of(), f, i as int)[k].0,
                    block_srcs_upto(*blk, calls_of(), f, i as int)[k].1,
                ),
        decreases blk.transactions@.len() - i,
    {
        let tx = &blk.transactions[i];
        let hx = hex_of(&tx.hash);
        let mut j: usize = 0;
        while j < tx.calls.len()
            invariant
                i < blk.transactions@.len(),
                *tx == blk.transactions@[i as int],
                hx@ == hex_bytes(tx.hash@),
                j <= tx.calls@.len(),
                f == src_opt(q_burn_call_fn()),
                out@.len() == (block_srcs_upto(*blk, calls_of(), f, i as int) + tx_srcs_upto(
                    *tx,
                    tx.calls@,
                    f,
                    j as int,
                )).len(),
                forall|k: int|
                    0 <= k < out@.len() ==> burn_call_rec_ok(
                        #[trigger] out@[k],
                        *blk,
                        (block_srcs_upto(*blk, calls_of(), f, i as int) + tx_srcs_upto(
                            *tx,
                            tx.calls@,
                            f,
                            j as int,
                        ))[k].0,
                        (block_srcs_upto(*blk, calls_of(), f, i as int) + tx_srcs_upto(
                            *tx,
                            tx.calls@,
                            f,
                            j as int,
                        ))[k].1,
                    ),
            decreases tx.calls@.len() - j,
        {
            let e = &tx.calls[j];
            let ghost pre = block_srcs_upto(*blk, calls_of(), f, i as int) + tx_srcs_upto(
                *tx,
                tx.calls@,
                f,
                j as int,
            );
            let r = dec_burn_call(blk.number, &blk.timestamp, &hx, Ghost(tx.hash@), e);
            proof {
                assert(f(*tx, *e) == if q_burn_call(*e) {
                    Some((*tx, *e))
                } else {
                    None::<(Transaction, Call)>
                });
                assert(tx_srcs_upto(*tx, tx.calls@, f, j + 1 as int) == tx_srcs_upto(
                    *tx,
                    tx.calls@,
                    f,
                    j as int,
                ) + match f(*tx, tx.calls@[j as int]) {
                    Some(p) => seq![p],
                    None => Seq::<(Transaction, Call)>::empty(),
                });
            }
            match r {
                Some(rec) => {
                    out.push(rec);
                    proof {
                        assert(block_srcs_upto(*blk, calls_of(), f, i as int) + tx_srcs_upto(
                            *tx,
                            tx.calls@,
                            f,
                            j + 1 as int,
                        ) =~= pre + seq![(*tx, *e)]);
                    }
                },
                None => {
                    proof {
                        assert(block_srcs_upto(*blk, calls_of(), f, i as int) + tx_srcs_upto(
                            *tx,
                            tx.calls@,
                            f,
                            j + 1 as int,
                        ) =~= pre);
                    }
                },
            }
            j += 1;
        }
        proof {
            assert(calls_of()(*tx) == tx.calls@);
            assert(tx_srcs_upto(*tx, tx.calls@, f, tx.calls@.len() as int) == tx_srcs(
                *tx,
                calls_of(),
                f,
            ));
            assert(block_srcs_upto(*blk, calls_of(), f, i + 1 as int) == block_srcs_upto(
                *blk,
                calls_of(),
                f,
                i as int,
            ) + tx_srcs(blk.transactions@[i as int], calls_of(), f));
        }
        i += 1;
    }
    proof {
        assert(burn_call_srcs(*blk) == block_srcs_upto(
            *blk,
            calls_of(),
            f,
            blk.transactions@.len() as int,
        ));
    }
    out
}

pub const SEL_CANCEL_AUTHORIZATION_1: u32 = 0x5a049a70;

/// Whether a call is a cancel_authorization_1 call to the tracked contract whose input
/// decodes against the signature's argument layout.
pub open spec fn q_cancel_authorization_1_call(c: Call) -> bool {
    &&& is_tracked(c.address@)
    &&& sel_is(c.input@, SEL_CANCEL_AUTHORIZATION_1 as int)
    &&& c.input@.len() >= 164
    &&& u8_word_ok(c.input@, 68)
}

pub open spec fn q_cancel_authorization_1_call_fn() -> spec_fn(Call) -> bool {
    |c: Call| q_cancel_authorization_1_call(c)
}

/// The field contents of a cancel_authorization_1 call record built from one call.
pub open spec fn cancel_authorization_1_call_fields(
    r: UsdcCancelAuthorization1call,
    number: u64,
    ts: Timestamp,
    hash: Seq<u8>,
    c: Call,
) -> bool {
    &&& r.call_tx_hash@ == hex_str(hash)
    &&& r.call_block_time == Some(ts)
    &&& r.call_block_number == number
    &&& r.call_ordinal == c.begin_ordinal
    &&& r.call_success == !c.state_reverted
    &&& r.authorizer@ == addr_at(c.input@, 4)
    &&& r.nonce@ == word_at(c.input@, 36)
    &&& r.v == u8_word_val(c.input@, 68)
    &&& r.r@ == word_at(c.input@, 100)
    &&& r.s@ == word_at(c.input@, 132)
}

/// A cancel_authorization_1 call record as the block scan must build it from one source.
pub open spec fn cancel_authorization_1_call_rec_ok(r: UsdcCancelAuthorization1call, b: Block, t: Transaction, c: Call) -> bool {
    cancel_authorization_1_call_fields(r, b.number, b.timestamp, t.hash@, c)
}

/// The cancel_authorization_1 call sources of a block, in traversal order.
pub open spec fn cancel_authorization_1_call_srcs(b: Block) -> Seq<(Transaction, Call)> {
    block_srcs(b, calls_of(), src_opt(q_cancel_authorization_1_call_fn()))
}

/// Decodes one call against the cancel_authorization_1 signature.
fn dec_cancel_authorization_1_call(
    number: u64,
    ts: &Timestamp,
    hx: &Vec<u8>,
    hash: Ghost<Seq<u8>>,
    c: &Call,
) -> (r: Option<UsdcCancelAuthorization1call>)
    requires
        hx@ == hex_bytes(hash@),
    ensures
        r is Some <==> q_cancel_authorization_1_call(*c),
        r is Some ==> cancel_authorization_1_call_fields(r->Some_0, number, *ts, hash@, *c),
{
    if !is_tracked_address(&c.address) {
        return None;
    }
    if !check_selector(&c.input, SEL_CANCEL_AUTHORIZATION_1) {
        return None;
    }
    if c.input.len() < 164 {
        return None;
    }
    let p_v = match decode_u8_word(&c.input, 68) {
        Some(x) => x,
        None => {
            return None;
        },
    };
    Some(
        UsdcCancelAuthorization1call {
            call_tx_hash: hash_hex_string(hx, hash),
            call_block_time: Some(*ts),
            call_block_number: number,
            call_ordinal: c.begin_ordinal,
            call_success: !c.state_reverted,
            authorizer: addr_vec_at(&c.input, 4),
            nonce: word_vec_at(&c.input, 36),
            v: p_v,
            r: word_vec_at(&c.input, 100),
            s: word_vec_at(&c.input, 132),
        },
    )
}


/// Scans the whole block for cancel_authorization_1_call records.
pub fn scan_cancel_authorization_1_calls(blk: &Block) -> (out: Vec<UsdcCancelAuthorization1call>)
    ensures
        out@.len() == cancel_authorization_1_call_srcs(*blk).len(),
        forall|k: int|
            0 <= k < out@.len() ==> cancel_authorization_1_call_rec_ok(
                #[trigger] out@[k],
                *blk,
                cancel_authorization_1_call_srcs(*blk)[k].0,
                cancel_authorization_1_call_srcs(*blk)[k].1,
            ),
{
    let ghost f = src_opt(q_cancel_authorization_1_call_fn());
    let mut out: Vec<UsdcCancelAuthorization1call> = Vec::new();
    let mut i: usize = 0;
    while i < blk.transactions.len()
        invariant
            i <= blk.transactions@.len(),
            f == src_opt(q_cancel_authorization_1_call_fn()),
            out@.len() == block_srcs_upto(*blk, calls_of(), f, i as int).len(),
            forall|k: int|
                0 <= k < out@.len() ==> cancel_authorization_1_call_rec_ok(
                    #[trigger] out@[k],
                    *blk,
                    block_srcs_upto(*blk, calls_of(), f, i as int)[k].0,
                    block_srcs_upto(*blk, calls_of(), f, i as int)[k].1,
                ),
        decreases blk.transactions@.len() - i,
    {
        let tx = &blk.transactions[i];
        let hx = hex_of(&tx.hash);
        let mut j: usize = 0;
        while j < tx.calls.len()
            invariant
                i < blk.transactions@.len(),
                *tx == blk.transactions@[i as int],
                hx@ == hex_bytes(tx.hash@),
                j <= tx.calls@.len(),
                f == src_opt(q_cancel_authorization_1_call_fn()),
                out@.len() == (block_srcs_upto(*blk, calls_of(), f, i as int) + tx_srcs_upto(
                    *tx,
                    tx.calls@,
                    f,
                    j as int,
                )).len(),
                forall|k: int|
                    0 <= k < out@.len() ==> cancel_authorization_1_call_rec_ok(
                        #[trigger] out@[k],
                        *blk,
                        (block_srcs_upto(*blk, calls_of(), f, i as int) + tx_srcs_upto(
                            *tx,
                            tx.calls@,
                            f,
                            j as int,
                        ))[k].0,
                        (block_srcs_upto(*blk, calls_of(), f, i as int) + tx_srcs_upto(
                            *tx,
                            tx.calls@,
                            f,
                            j as int,
                        ))[k].1,
                    ),
            decreases tx.calls@.len() - j,
        {
            let e = &tx.calls[j];
            let ghost pre = block_srcs_upto(*blk, calls_of(), f, i as int) + tx_srcs_upto(
                *tx,
                tx.calls@,
                f,
                j as int,
            );
            let r = dec_cancel_authorization_1_call(blk.number, &blk.timestamp, &hx, Ghost(tx.hash@), e);
            proof {
                assert(f(*tx, *e) == if q_cancel_authorization_1_call(*e) {
                    Some((*tx, *e))
                } else {
                    None::<(Transaction, Call)>
                });
                assert(tx_srcs_upto(*tx, tx.calls@, f, j + 1 as int) == tx_srcs_upto(
                    *tx,
                    tx.calls@,
                    f,
                    j as int,
                ) + match f(*tx, tx.calls@[j as int]) {
                    Some(p) => seq![p],
                    None => Seq::<(Transaction, Call)>::empty(),
                });
            }
            match r {
                Some(rec) => {
                    out.push(rec);
                    proof {
                        assert(block_srcs_upto(*blk, calls_of(), f, i as int) + tx_srcs_upto(
                            *tx,
                            tx.calls@,
                            f,
                            j + 1 as int,
                        ) =~= pre + seq![(*tx, *e)]);
                    }
                },
                None => {
                    proof {
                        assert(block_srcs_upto(*blk, calls_of(), f, i as int) + tx_srcs_upto(
                            *tx,
                            tx.calls@,
                            f,
                            j + 1 as int,
                        ) =~= pre);
                    }
                },
            }
            j += 1;
        }
        proof {
            assert(calls_of()(*tx) == tx.calls@);
            assert(tx_srcs_upto(*tx, tx.calls@, f, tx.calls@.len() as int) == tx_srcs(
                *tx,
                calls_of(),
                f,
            ));
            assert(block_srcs_upto(*blk, calls_of(), f, i + 1 as int) == block_srcs_upto(
                *blk,
                calls_of(),
                f,
                i as int,
            ) + tx_srcs(blk.transactions@[i as int], calls_of(), f));
        }
        i += 1;
    }
    proof {
        assert(cancel_authorization_1_call_srcs(*blk) == block_srcs_upto(
            *blk,
            calls_of(),
            f,
            blk.transactions@.len() as int,
        ));
    }
    out
}

pub const SEL_CANCEL_AUTHORIZATION_2: u32 = 0xb7b72899;

/// Whether a call is a cancel_authorization_2 call to the tracked contract whose input
/// decodes against the signature's argument layout.
pub open spec fn q_cancel_authorization_2_call(c: Call) -> bool {
    &&& is_tracked(c.address@)
    &&& sel_is(c.input@, SEL_CANCEL_AUTHORIZATION_2 as int)
    &&& c.input@.len() >= 100
    &&& dyn_ok(c.input@, 4, 2)
}

pub open spec fn q_cancel_authorization_2_call_fn() -> spec_fn(Call) -> bool {
    |c: Call| q_cancel_authorization_2_call(c)
}

/// The field contents of a cancel_authorization_2 call record built from one call.
pub open spec fn cancel_authorization_2_call_fields(
    r: UsdcCancelAuthorization2call,
    number: u64,
    ts: Timestamp,
    hash: Seq<u8>,
    c: Call,
) -> bool {
    &&& r.call_tx_hash@ == hex_str(hash)
    &&& r.call_block_time == Some(ts)
    &&& r.call_block_number == number
    &&& r.call_ordinal == c.begin_ordinal
    &&& r.call_success == !c.state_reverted
    &&& r.authorizer@ == addr_at(c.input@, 4)
    &&& r.nonce@ == word_at(c.input@, 36)
    &&& r.signature@ == dyn_bytes(c.input@, 4, 2)
}

/// A cancel_authorization_2 call record as the block scan must build it from one source.
pub open spec fn cancel_authorization_2_call_rec_ok(r: UsdcCancelAuthorization2call, b: Block, t: Transaction, c: Call) -> bool {
    cancel_authorization_2_call_fields(r, b.number, b.timestamp, t.hash@, c)
}

/// The cancel_authorization_2 call sources of a block, in traversal order.
pub open spec fn cancel_authorization_2_call_srcs(b: Block) -> Seq<(Transaction, Call)> {
    block_srcs(b, calls_of(), src_opt(q_cancel_authorization_2_call_fn()))
}

/// Decodes one call against the cancel_authorization_2 signature.
fn dec_cancel_authorization_2_call(
    number: u64,
    ts: &Timestamp,
    hx: &Vec<u8>,
    hash: Ghost<Seq<u8>>,
    c: &Call,
) -> (r: Option<UsdcCancelAuthorization2call>)
    requires
        hx@ == hex_bytes(hash@),
    ensures
        r is Some <==> q_cancel_authorization_2_call(*c),
        r is Some ==> cancel_authorization_2_call_fields(r->Some_0, number, *ts, hash@, *c),
{
    if !is_tracked_address(&c.address) {
        return None;
    }
    if !check_selector(&c.input, SEL_CANCEL_AUTHORIZATION_2) {
        return None;
    }
    if c.input.len() < 100 {
        return None;
    }
    let p_signature = match decode_dyn_bytes(&c.input, 4, 2) {
        Some(x) => x,
        None => {
            return None;
        },
    };
    Some(
        UsdcCancelAuthorization2call {
            call_tx_hash: hash_hex_string(hx, hash),
            call_block_time: Some(*ts),
            call_block_number: number,
            call_ordinal: c.begin_ordinal,
            call_success: !c.state_reverted,
            authorizer: addr_vec_at(&c.input, 4),
            nonce: word_vec_at(&c.input, 36),
            signature: p_signature,
        },
    )
}


/// Scans the whole block for cancel_authorization_2_call records.
pub fn scan_cancel_authorization_2_calls(blk: &Block) -> (out: Vec<UsdcCancelAuthorization2call>)
    ensures
        out@.len() == cancel_authorization_2_call_srcs(*blk).len(),
        forall|k: int|
            0 <= k < out@.len() ==> cancel_authorization_2_call_rec_ok(
                #[trigger] out@[k],
                *blk,
                cancel_authorization_2_call_srcs(*blk)[k].0,
                cancel_authorization_2_call_srcs(*blk)[k].1,
            ),
{
    let ghost f = src_opt(q_cancel_authorization_2_call_fn());
    let mut out: Vec<UsdcCancelAuthorization2call> = Vec::new();
    let mut i: usize = 0;
    while i < blk.transactions.len()
        invariant
            i <= blk.transactions@.len(),
            f == src_opt(q_cancel_authorization_2_call_fn()),
            out@.len() == block_srcs_upto(*blk, calls_of(), f, i as int).len(),
            forall|k: int|
                0 <= k < out@.len() ==> cancel_authorization_2_call_rec_ok(
                    #[trigger] out@[k],
                    *blk,
                    block_srcs_upto(*blk, calls_of(), f, i as int)[k].0,
                    block_srcs_upto(*blk, calls_of(), f, i as int)[k].1,
                ),
        decreases blk.transactions@.len() - i,
    {
        let tx = &blk.transactions[i];
        let hx = hex_of(&tx.hash);
        let mut j: usize = 0;
        while j < tx.calls.len()
            invariant
                i < blk.transactions@.len(),
                *tx == blk.transactions@[i as int],
                hx@ == hex_bytes(tx.hash@),
                j <= tx.calls@.len(),
                f == src_opt(q_cancel_authorization_2_call_fn()),
                out@.len() == (block_srcs_upto(*blk, calls_of(), f, i as int) + tx_srcs_upto(
                    *tx,
                    tx.calls@,
                    f,
                    j as int,
                )).len(),
                forall|k: int|
                    0 <= k < out@.len() ==> cancel_authorization_2_call_rec_ok(
                        #[trigger] out@[k],
                        *blk,
                        (block_srcs_upto(*blk, calls_of(), f, i as int) + tx_srcs_upto(
                            *tx,
                            tx.calls@,
                            f,
                            j as int,
                        ))[k].0,
                        (block_srcs_upto(*blk, calls_of(), f, i as int) + tx_srcs_upto(
                            *tx,
                            tx.calls@,
                            f,
                            j as int,
                        ))[k].1,
                    ),
            decreases tx.calls@.len() - j,
        {
            let e = &tx.calls[j];
            let ghost pre = block_srcs_upto(*blk, calls_of(), f, i as int) + tx_srcs_upto(
                *tx,
                tx.calls@,
                f,
                j as int,
            );
            let r = dec_cancel_authorization_2_call(blk.number, &blk.timestamp, &hx, Ghost(tx.hash@), e);
            proof {
                assert(f(*tx, *e) == if q_cancel_authorization_2_call(*e) {
                    Some((*tx, *e))
                } else {
                    None::<(Transaction, Call)>
                });
                assert(tx_srcs_upto(*tx, tx.calls@, f, j + 1 as int) == tx_srcs_upto(
                    *tx,
                    tx.calls@,
                    f,
                    j as int,
                ) + match f(*tx, tx.calls@[j as int]) {
                    Some(p) => seq![p],
                    None => Seq::<(Transaction, Call)>::empty(),
                });
            }
            match r {
                Some(rec) => {
                    out.push(rec);
                    proof {
                        assert(block_srcs_upto(*blk, calls_of(), f, i as int) + tx_srcs_upto(
                            *tx,
                            tx.calls@,
                            f,
                            j + 1 as int,
                        ) =~= pre + seq![(*tx, *e)]);
                    }
                },
                None => {
                    proof {
                        assert(block_srcs_upto(*blk, calls_of(), f, i as int) + tx_srcs_upto(
                            *tx,
                            tx.calls@,
                            f,
                            j + 1 as int,
                        ) =~= pre);
                    }
                },
            }
            j += 1;
        }
        proof {
            assert(calls_of()(*tx) == tx.calls@);
            assert(tx_srcs_upto(*tx, tx.calls@, f, tx.calls@.len() as int) == tx_srcs(
                *tx,
                calls_of(),
                f,
            ));
            assert(block_srcs_upto(*blk, calls_of(), f, i + 1 as int) == block_srcs_upto(
                *blk,
                calls_of(),
                f,
                i as int,
            ) + tx_srcs(blk.transactions@[i as int], calls_of(), f));
        }
        i += 1;
    }
    proof {
        assert(cancel_authorization_2_call_srcs(*blk) == block_srcs_upto(
            *blk,
            calls_of(),
            f,
            blk.transactions@.len() as int,
        ));
    }
    out
}

pub const SEL_CHANGE_ADMIN: u32 = 0x8f283970;

/// Whether a call is a change_admin call to the tracked contract whose input
/// decodes against the signature's argument layout.
pub open spec fn q_change_admin_call(c: Call) -> bool {
    &&& is_tracked(c.address@)
    &&& sel_is(c.input@, SEL_CHANGE_ADMIN as int)
    &&& c.input@.len() >= 36
}

pub open spec fn q_change_admin_call_fn() -> spec_fn(Call) -> bool {
    |c: Call| q_change_admin_call(c)
}

/// The field contents of a change_admin call record built from one call.
pub open spec fn change_admin_call_fields(
    r: UsdcChangeAdminCall,
    number: u64,
    ts: Timestamp,
    hash: Seq<u8>,
    c: Call,
) -> bool {
    &&& r.call_tx_hash@ == hex_str(hash)
    &&& r.call_block_time == Some(ts)
    &&& r.call_block_number == number
    &&& r.call_ordinal == c.begin_ordinal
    &&& r.call_success == !c.state_reverted
    &&& r.new_admin@ == addr_at(c.input@, 4)
}

/// A change_admin call record as the block scan must build it from one source.
pub open spec fn change_admin_call_rec_ok(r: UsdcChangeAdminCall, b: Block, t: Transaction, c: Call) -> bool {
    change_admin_call_fields(r, b.number, b.timestamp, t.hash@, c)
}

/// The change_admin call sources of a block, in traversal order.
pub open spec fn change_admin_call_srcs(b: Block) -> Seq<(Transaction, Call)> {
    block_srcs(b, calls_of(), src_opt(q_change_admin_call_fn()))
}

/// Decodes one call against the change_admin signature.
fn dec_change_admin_call(
    number: u64,
    ts: &Timestamp,
    hx: &Vec<u8>,
    hash: Ghost<Seq<u8>>,
    c: &Call,
) -> (r: Option<UsdcChangeAdminCall>)
    requires
        hx@ == hex_bytes(hash@),
    ensures
        r is Some <==> q_change_admin_call(*c),
        r is Some ==> change_admin_call_fields(r->Some_0, number, *ts, hash@, *c),
{
    if !is_tracked_address(&c.address) {
        return None;
    }
    if !check_selector(&c.input, SEL_CHANGE_ADMIN) {
        return None;
    }
    if c.input.len() < 36 {
        return None;
    }
    Some(
        UsdcChangeAdminCall {
            call_tx_hash: hash_hex_string(hx, hash),
            call_block_time: Some(*ts),
            call_block_number: number,
            call_ordinal: c.begin_ordinal,
            call_success: !c.state_reverted,
            new_admin: addr_vec_at(&c.input, 4),
        },
    )
}


/// Scans the whole block for change_admin_call records.
pub fn scan_change_admin_calls(blk: &Block) -> (out: Vec<UsdcChangeAdminCall>)
    ensures
        out@.len() == change_admin_call_srcs(*blk).len(),
        forall|k: int|
            0 <= k < out@.len() ==> change_admin_call_rec_ok(
                #[trigger] out@[k],
                *blk,
                change_admin_call_srcs(*blk)[k].0,
                change_admin_call_srcs(*blk)[k].1,
            ),
{
    let ghost f = src_opt(q_change_admin_call_fn());
    let mut out: Vec<UsdcChangeAdminCall> = Vec::new();
    let mut i: usize = 0;
    while i < blk.transactions.len()
        invariant
            i <= blk.transactions@.len(),
            f == src_opt(q_change_admin_call_fn()),
            out@.len() == block_srcs_upto(*blk, calls_of(), f, i as int).len(),
            forall|k: int|
                0 <= k < out@.len() ==> change_admin_call_rec_ok(
                    #[trigger] out@[k],
                    *blk,
                    block_srcs_upto(*blk, calls_of(), f, i as int)[k].0,
                    block_srcs_upto(*blk, calls_of(), f, i as int)[k].1,
                ),
        decreases blk.transactions@.len() - i,
    {
        let tx = &blk.transactions[i];
        let hx = hex_of(&tx.hash);
        let mut j: usize = 0;
        while j < tx.calls.len()
            invariant
                i < blk.transactions@.len(),
                *tx == blk.transactions@[i as int],
                hx@ == hex_bytes(tx.hash@),
                j <= tx.calls@.len(),
                f == src_opt(q_change_admin_call_fn()),
                out@.len() == (block_srcs_upto(*blk, calls_of(), f, i as int) + tx_srcs_upto(
                    *tx,
                    tx.calls@,
                    f,
                    j as int,
                )).len(),
                forall|k: int|
                    0 <= k < out@.len() ==> change_admin_call_rec_ok(
                        #[trigger] out@[k],
                        *blk,
                        (block_srcs_upto(*blk, calls_of(), f, i as int) + tx_srcs_upto(
                            *tx,
                            tx.calls@,
                            f,
                            j as int,
                        ))[k].0,
                        (block_srcs_upto(*blk, calls_of(), f, i as int) + tx_srcs_upto(
                            *tx,
                            tx.calls@,
                            f,
                            j as int,
                        ))[k].1,
                    ),
            decreases tx.calls@.len() - j,
        {
            let e = &tx.calls[j];
            let ghost pre = block_srcs_upto(*blk, calls_of(), f, i as int) + tx_srcs_upto(
                *tx,
                tx.calls@,
                f,
                j as int,
            );
            let r = dec_change_admin_call(blk.number, &blk.timestamp, &hx, Ghost(tx.hash@), e);
            proof {
                assert(f(*tx, *e) == if q_change_admin_call(*e) {
                    Some((*tx, *e))
                } else {
                    None::<(Transaction, Call)>
                });
                assert(tx_srcs_upto(*tx, tx.calls@, f, j + 1 as int) == tx_srcs_upto(
                    *tx,
                    tx.calls@,
                    f,
                    j as int,
                ) + match f(*tx, tx.calls@[j as int]) {
                    Some(p) => seq![p],
                    None => Seq::<(Transaction, Call)>::empty(),
                });
            }
            match r {
                Some(rec) => {
                    out.push(rec);
                    proof {
                        assert(block_srcs_upto(*blk, calls_of(), f, i as int) + tx_srcs_upto(
                            *tx,
                            tx.calls@,
                            f,
                            j + 1 as int,
                        ) =~= pre + seq![(*tx, *e)]);
                    }
                },
                None => {
                    proof {
                        assert(block_srcs_upto(*blk, calls_of(), f, i as int) + tx_srcs_upto(
                            *tx,
                            tx.calls@,
                            f,
                            j + 1 as int,
                        ) =~= pre);
                    }
                },
            }
            j += 1;
        }
        proof {
            assert(calls_of()(*tx) == tx.calls@);
            assert(tx_srcs_upto(*tx, tx.calls@, f, tx.calls@.len() as int) == tx_srcs(
                *tx,
                calls_of(),
                f,
            ));
            assert(block_srcs_upto(*blk, calls_of(), f, i + 1 as int) == block_srcs_upto(
                *blk,
                calls_of(),
                f,
                i as int,
            ) + tx_srcs(blk.transactions@[i as int], calls_of(), f));
        }
        i += 1;
    }
    proof {
        assert(change_admin_call_srcs(*blk) == block_srcs_upto(
            *blk,
            calls_of(),
            f,
            blk.transactions@.len() as int,
        ));
    }
    out
}

pub const SEL_CONFIGURE_MINTER: u32 = 0x4e44d956;

/// Whether a call is a configure_minter call to the tracked contract whose input
/// decodes against the signature's argument layout.
pub open spec fn q_configure_minter_call(c: Call) -> bool {
    &&& is_tracked(c.address@)
    &&& sel_is(c.input@, SEL_CONFIGURE_MINTER as int)
    &&& c.input@.len() >= 68
}

pub open spec fn q_configure_minter_call_fn() -> spec_fn(Call) -> bool {
    |c: Call| q_configure_minter_call(c)
}

/// The field contents of a configure_minter call record built from one call.
pub open spec fn configure_minter_call_fields(
    r: UsdcConfigureMinterCall,
    number: u64,
    ts: Timestamp,
    hash: Seq<u8>,
    c: Call,
) -> bool {
    &&& r.call_tx_hash@ == hex_str(hash)
    &&& r.call_block_time == Some(ts)
    &&& r.call_block_number == number
    &&& r.call_ordinal == c.begin_ordinal
    &&& r.call_success == !c.state_reverted
    &&& r.minter@ == addr_at(c.input@, 4)
    &&& r.minter_allowed_amount@ == dec_str(be_val(word_at(c.input@, 36)))
    &&& r.output_param0 == bool_output(c.return_data@)
}

/// A configure_minter call record as the block scan must build it from one source.
pub open spec fn configure_minter_call_rec_ok(r: UsdcConfigureMinterCall, b: Block, t: Transaction, c: Call) -> bool {
    configure_minter_call_fields(r, b.number, b.timestamp, t.hash@, c)
}

/// The configure_minter call sources of a block, in traversal order.
pub open spec fn configure_minter_call_srcs(b: Block) -> Seq<(Transaction, Call)> {
    block_srcs(b, calls_of(), src_opt(q_configure_minter_call_fn()))
}

/// Decodes one call against the configure_minter signature.
fn dec_configure_minter_call(
    number: u64,
    ts: &Timestamp,
    hx: &Vec<u8>,
    hash: Ghost<Seq<u8>>,
    c: &Call,
) -> (r: Option<UsdcConfigureMinterCall>)
    requires
        hx@ == hex_bytes(hash@),
    ensures
        r is Some <==> q_configure_minter_call(*c),
        r is Some ==> configure_minter_call_fields(r->Some_0, number, *ts, hash@, *c),
{
    if !is_tracked_address(&c.address) {
        return None;
    }
    if !check_selector(&c.input, SEL_CONFIGURE_MINTER) {
        return None;
    }
    if c.input.len() < 68 {
        return None;
    }
    Some(
        UsdcConfigureMinterCall {
            call_tx_hash: hash_hex_string(hx, hash),
            call_block_time: Some(*ts),
            call_block_number: number,
            call_ordinal: c.begin_ordinal,
            call_success: !c.state_reverted,
            minter: addr_vec_at(&c.input, 4),
            minter_allowed_amount: dec_word_string(&c.input, 36),
            output_param0: decode_bool_output(&c.return_data),
        },
    )
}


/// Scans the whole block for configure_minter_call records.
pub fn scan_configure_minter_calls(blk: &Block) -> (out: Vec<UsdcConfigureMinterCall>)
    ensures
        out@.len() == configure_minter_call_srcs(*blk).len(),
        forall|k: int|
            0 <= k < out@.len() ==> configure_minter_call_rec_ok(
                #[trigger] out@[k],
                *blk,
                configure_minter_call_srcs(*blk)[k].0,
                configure_minter_call_srcs(*blk)[k].1,
            ),
{
    let ghost f = src_opt(q_configure_minter_call_fn());
    let mut out: Vec<UsdcConfigureMinterCall> = Vec::new();
    let mut i: usize = 0;
    while i < blk.transactions.len()
        invariant
            i <= blk.transactions@.len(),
            f == src_opt(q_configure_minter_call_fn()),
            out@.len() == block_srcs_upto(*blk, calls_of(), f, i as int).len(),
            forall|k: int|
                0 <= k < out@.len() ==> configure_minter_call_rec_ok(
                    #[trigger] out@[k],
                    *blk,
                    block_srcs_upto(*blk, calls_of(), f, i as int)[k].0,
                    block_srcs_upto(*blk, calls_of(), f, i as int)[k].1,
                ),
        decreases blk.transactions@.len() - i,
    {
        let tx = &blk.transactions[i];
        let hx = hex_of(&tx.hash);
        let mut j: usize = 0;
        while j < tx.calls.len()
            invariant
                i < blk.transactions@.len(),
                *tx == blk.transactions@[i as int],
                hx@ == hex_bytes(tx.hash@),
                j <= tx.calls@.len(),
                f == src_opt(q_configure_minter_call_fn()),
                out@.len() == (block_srcs_upto(*blk, calls_of(), f, i as int) + tx_srcs_upto(
                    *tx,
                    tx.calls@,
                    f,
                    j as int,
                )).len(),
                forall|k: int|
                    0 <= k < out@.len() ==> configure_minter_call_rec_ok(
                        #[trigger] out@[k],
                        *blk,
                        (block_srcs_upto(*blk, calls_of(), f, i as int) + tx_srcs_upto(
                            *tx,
                            tx.calls@,
                            f,
                            j as int,
                        ))[k].0,
                        (block_srcs_upto(*blk, calls_of(), f, i as int) + tx_srcs_upto(
                            *tx,
                            tx.calls@,
                            f,
                            j as int,
                        ))[k].1,
                    ),
            decreases tx.calls@.len() - j,
        {
            let e = &tx.calls[j];
            let ghost pre = block_srcs_upto(*blk, calls_of(), f, i as int) + tx_srcs_upto(
                *tx,
                tx.calls@,
                f,
                j as int,
            );
            let r = dec_configure_minter_call(blk.number, &blk.timestamp, &hx, Ghost(tx.hash@), e);
            proof {
                assert(f(*tx, *e) == if q_configure_minter_call(*e) {
                    Some((*tx, *e))
                } else {
                    None::<(Transaction, Call)>
                });
                assert(tx_srcs_upto(*tx, tx.calls@, f, j + 1 as int) == tx_srcs_upto(
                    *tx,
                    tx.calls@,
                    f,
                    j as int,
                ) + match f(*tx, tx.calls@[j as int]) {
                    Some(p) => seq![p],
                    None => Seq::<(Transaction, Call)>::empty(),
                });
            }
            match r {
                Some(rec) => {
                    out.push(rec);
                    proof {
                        assert(block_srcs_upto(*blk, calls_of(), f, i as int) + tx_srcs_upto(
                            *tx,
                            tx.calls@,
                            f,
                            j + 1 as int,
                        ) =~= pre + seq![(*tx, *e)]);
                    }
                },
                None => {
                    proof {
                        assert(block_srcs_upto(*blk, calls_of(), f, i as int) + tx_srcs_upto(
                            *tx,
                            tx.calls@,
                            f,
                            j + 1 as int,
                        ) =~= pre);
                    }
                },
            }
            j += 1;
        }
        proof {
            assert(calls_of()(*tx) == tx.calls@);
            assert(tx_srcs_upto(*tx, tx.calls@, f, tx.calls@.len() as int) == tx_srcs(
                *tx,
                calls_of(),
                f,
            ));
            assert(block_srcs_upto(*blk, calls_of(), f, i + 1 as int) == block_srcs_upto(
                *blk,
                calls_of(),
                f,
                i as int,
            ) + tx_srcs(blk.transactions@[i as int], calls_of(), f));
        }
        i += 1;
    }
    proof {
        assert(configure_minter_call_srcs(*blk) == block_srcs_upto(
            *blk,
            calls_of(),
            f,
            blk.transactions@.len() as int,
        ));
    }
    out
}

pub const SEL_DECREASE_ALLOWANCE: u32 = 0xa457c2d7;

/// Whether a call is a decrease_allowance call to the tracked contract whose input
/// decodes against the signature's argument layout.
pub open spec fn q_decrease_allowance_call(c: Call) -> bool {
    &&& is_tracked(c.address@)
    &&& sel_is(c.input@, SEL_DECREASE_ALLOWANCE as int)
    &&& c.input@.len() >= 68
}

pub open spec fn q_decrease_allowance_call_fn() -> spec_fn(Call) -> bool {
    |c: Call| q_decrease_allowance_call(c)
}

/// The field contents of a decrease_allowance call record built from one call.
pub open spec fn decrease_allowance_call_fields(
    r: UsdcDecreaseAllowanceCall,
    number: u64,
    ts: Timestamp,
    hash: Seq<u8>,
    c: Call,
) -> bool {
    &&& r.call_tx_hash@ == hex_str(hash)
    &&& r.call_block_time == Some(ts)
    &&& r.call_block_number == number
    &&& r.call_ordinal == c.begin_ordinal
    &&& r.call_success == !c.state_reverted
    &&& r.spender@ == addr_at(c.input@, 4)
    &&& r.decrement@ == dec_str(be_val(word_at(c.input@, 36)))
    &&& r.output_param0 == bool_output(c.return_data@)
}

/// A decrease_allowance call record as the block scan must build it from one source.
pub open spec fn decrease_allowance_call_rec_ok(r: UsdcDecreaseAllowanceCall, b: Block, t: Transaction, c: Call) -> bool {
    decrease_allowance_call_fields(r, b.number, b.timestamp, t.hash@, c)
}

/// The decrease_allowance call sources of a block, in traversal order.
pub open spec fn decrease_allowance_call_srcs(b: Block) -> Seq<(Transaction, Call)> {
    block_srcs(b, calls_of(), src_opt(q_decrease_allowance_call_fn()))
}

/// Decodes one call against the decrease_allowance signature.
fn dec_decrease_allowance_call(
    number: u64,
    ts: &Timestamp,
    hx: &Vec<u8>,
    hash: Ghost<Seq<u8>>,
    c: &Call,
) -> (r: Option<UsdcDecreaseAllowanceCall>)
    requires
        hx@ == hex_bytes(hash@),
    ensures
        r is Some <==> q_decrease_allowance_call(*c),
        r is Some ==> decrease_allowance_call_fields(r->Some_0, number, *ts, hash@, *c),
{
    if !is_tracked_address(&c.address) {
        return None;
    }
    if !check_selector(&c.input, SEL_DECREASE_ALLOWANCE) {
        return None;
    }
    if c.input.len() < 68 {
        return None;
    }
    Some(
        UsdcDecreaseAllowanceCall {
            call_tx_hash: hash_hex_string(hx, hash),
            call_block_time: Some(*ts),
            call_block_number: number,
            call_ordinal: c.begin_ordinal,
            call_success: !c.state_reverted,
            spender: addr_vec_at(&c.input, 4),
            decrement: dec_word_string(&c.input, 36),
            output_param0: decode_bool_output(&c.return_data),
        },
    )
}


/// Scans the whole block for decrease_allowance_call records.
pub fn scan_decrease_allowance_calls(blk: &Block) -> (out: Vec<UsdcDecreaseAllowanceCall>)
    ensures
        out@.len() == decrease_allowance_call_srcs(*blk).len(),
        forall|k: int|
            0 <= k < out@.len() ==> decrease_allowance_call_rec_ok(
                #[trigger] out@[k],
                *blk,
                decrease_allowance_call_srcs(*blk)[k].0,
                decrease_allowance_call_srcs(*blk)[k].1,
            ),
{
    let ghost f = src_opt(q_decrease_allowance_call_fn());
    let mut out: Vec<UsdcDecreaseAllowanceCall> = Vec::new();
    let mut i: usize = 0;
    while i < blk.transactions.len()
        invariant
            i <= blk.transactions@.len(),
            f == src_opt(q_decrease_allowance_call_fn()),
            out@.len() == block_srcs_upto(*blk, calls_of(), f, i as int).len(),
            forall|k: int|
                0 <= k < out@.len() ==> decrease_allowance_call_rec_ok(
                    #[trigger] out@[k],
                    *blk,
                    block_srcs_upto(*blk, calls_of(), f, i as int)[k].0,
                    block_srcs_upto(*blk, calls_of(), f, i as int)[k].1,
                ),
        decreases blk.transactions@.len() - i,
    {
        let tx = &blk.transactions[i];
        let hx = hex_of(&tx.hash);
        let mut j: usize = 0;
        while j < tx.calls.len()
            invariant
                i < blk.transactions@.len(),
                *tx == blk.transactions@[i as int],
                hx@ == hex_bytes(tx.hash@),
                j <= tx.calls@.len(),
                f == src_opt(q_decrease_allowance_call_fn()),
                out@.len() == (block_srcs_upto(*blk, calls_of(), f, i as int) + tx_srcs_upto(
                    *tx,
                    tx.calls@,
                    f,
                    j as int,
                )).len(),
                forall|k: int|
                    0 <= k < out@.len() ==> decrease_allowance_call_rec_ok(
                        #[trigger] out@[k],
                        *blk,
                        (block_srcs_upto(*blk, calls_of(), f, i as int) + tx_srcs_upto(
                            *tx,
                            tx.calls@,
                            f,
                            j as int,
                        ))[k].0,
                        (block_srcs_upto(*blk, calls_of(), f, i as int) + tx_srcs_upto(
                            *tx,
                            tx.calls@,
                            f,
                            j as int,
                        ))[k].1,
                    ),
            decreases tx.calls@.len() - j,
        {
            let e = &tx.calls[j];
            let ghost pre = block_srcs_upto(*blk, calls_of(), f, i as int) + tx_srcs_upto(
                *tx,
                tx.calls@,
                f,
                j as int,
            );
            let r = dec_decrease_allowance_call(blk.number, &blk.timestamp, &hx, Ghost(tx.hash@), e);
            proof {
                assert(f(*tx, *e) == if q_decrease_allowance_call(*e) {
                    Some((*tx, *e))
                } else {
                    None::<(Transaction, Call)>
                });
                assert(tx_srcs_upto(*tx, tx.calls@, f, j + 1 as int) == tx_srcs_upto(
                    *tx,
                    tx.calls@,
                    f,
                    j as int,
                ) + match f(*tx, tx.calls@[j as int]) {
                    Some(p) => seq![p],
                    None => Seq::<(Transaction, Call)>::empty(),
                });
            }
            match r {
                Some(rec) => {
                    out.push(rec);
                    proof {
                        assert(block_srcs_upto(*blk, calls_of(), f, i as int) + tx_srcs_upto(
                            *tx,
                            tx.calls@,
                            f,
                            j + 1 as int,
                        ) =~= pre + seq![(*tx, *e)]);
                    }
                },
                None => {
                    proof {
                        assert(block_srcs_upto(*blk, calls_of(), f, i as int) + tx_srcs_upto(
                            *tx,
                            tx.calls@,
                            f,
                            j + 1 as int,
                        ) =~= pre);
                    }
                },
            }
            j += 1;
        }
        proof {
            assert(calls_of()(*tx) == tx.calls@);
            assert(tx_srcs_upto(*tx, tx.calls@, f, tx.calls@.len() as int) == tx_srcs(
                *tx,
                calls_of(),
                f,
            ));
            assert(block_srcs_upto(*blk, calls_of(), f, i + 1 as int) == block_srcs_upto(
                *blk,
                calls_of(),
                f,
                i as int,
            ) + tx_srcs(blk.transactions@[i as int], calls_of(), f));
        }
        i += 1;
    }
    proof {
        assert(decrease_allowance_call_srcs(*blk) == block_srcs_upto(
            *blk,
            calls_of(),
            f,
            blk.transactions@.len() as int,
        ));
    }
    out
}

pub const SEL_INCREASE_ALLOWANCE: u32 = 0x39509351;

/// Whether a call is a increase_allowance call to the tracked contract whose input
/// decodes against the signature's argument layout.
pub open spec fn q_increase_allowance_call(c: Call) -> bool {
    &&& is_tracked(c.address@)
    &&& sel_is(c.input@, SEL_INCREASE_ALLOWANCE as int)
    &&& c.input@.len() >= 68
}

pub open spec fn q_increase_allowance_call_fn() -> spec_fn(Call) -> bool {
    |c: Call| q_increase_allowance_call(c)
}

/// The field contents of a increase_allowance call record built from one call.
pub open spec fn increase_allowance_call_fields(
    r: UsdcIncreaseAllowanceCall,
    number: u64,
    ts: Timestamp,
    hash: Seq<u8>,
    c: Call,
) -> bool {
    &&& r.call_tx_hash@ == hex_str(hash)
    &&& r.call_block_time == Some(ts)
    &&& r.call_block_number == number
    &&& r.call_ordinal == c.begin_ordinal
    &&& r.call_success == !c.state_reverted
    &&& r.spender@ == addr_at(c.input@, 4)
    &&& r.increment@ == dec_str(be_val(word_at(c.input@, 36)))
    &&& r.output_param0 == bool_output(c.return_data@)
}

/// A increase_allowance call record as the block scan must build it from one source.
pub open spec fn increase_allowance_call_rec_ok(r: UsdcIncreaseAllowanceCall, b: Block, t: Transaction, c: Call) -> bool {
    increase_allowance_call_fields(r, b.number, b.timestamp, t.hash@, c)
}

/// The increase_allowance call sources of a block, in traversal order.
pub open spec fn increase_allowance_call_srcs(b: Block) -> Seq<(Transaction, Call)> {
    block_srcs(b, calls_of(), src_opt(q_increase_allowance_call_fn()))
}

/// Decodes one call against the increase_allowance signature.
fn dec_increase_allowance_call(
    number: u64,
    ts: &Timestamp,
    hx: &Vec<u8>,
    hash: Ghost<Seq<u8>>,
    c: &Call,
) -> (r: Option<UsdcIncreaseAllowanceCall>)
    requires
        hx@ == hex_bytes(hash@),
    ensures
        r is Some <==> q_increase_allowance_call(*c),
        r is Some ==> increase_allowance_call_fields(r->Some_0, number, *ts, hash@, *c),
{
    if !is_tracked_address(&c.address) {
        return None;
    }
    if !check_selector(&c.input, SEL_INCREASE_ALLOWANCE) {
        return None;
    }
    if c.input.len() < 68 {
        return None;
    }
    Some(
        UsdcIncreaseAllowanceCall {
            call_tx_hash: hash_hex_string(hx, hash),
            call_block_time: Some(*ts),
            call_block_number: number,
            call_ordinal: c.begin_ordinal,
            call_success: !c.state_reverted,
            spender: addr_vec_at(&c.input, 4),
            increment: dec_word_string(&c.input, 36),
            output_param0: decode_bool_output(&c.return_data),
        },
    )
}


/// Scans the whole block for increase_allowance_call records.
pub fn scan_increase_allowance_calls(blk: &Block) -> (out: Vec<UsdcIncreaseAllowanceCall>)
    ensures
        out@.len() == increase_allowance_call_srcs(*blk).len(),
        forall|k: int|
            0 <= k < out@.len() ==> increase_allowance_call_rec_ok(
                #[trigger] out@[k],
                *blk,
                increase_allowance_call_srcs(*blk)[k].0,
                increase_allowance_call_srcs(*blk)[k].1,
            ),
{
    let ghost f = src_opt(q_increase_allowance_call_fn());
    let mut out: Vec<UsdcIncreaseAllowanceCall> = Vec::new();
    let mut i: usize = 0;
    while i < blk.transactions.len()
        invariant
            i <= blk.transactions@.len(),
            f == src_opt(q_increase_allowance_call_fn()),
            out@.len() == block_srcs_upto(*blk, calls_of(), f, i as int).len(),
            forall|k: int|
                0 <= k < out@.len() ==> increase_allowance_call_rec_ok(
                    #[trigger] out@[k],
                    *blk,
                    block_srcs_upto(*blk, calls_of(), f, i as int)[k].0,
                    block_srcs_upto(*blk, calls_of(), f, i as int)[k].1,
                ),
        decreases blk.transactions@.len() - i,
    {
        let tx = &blk.transactions[i];
        let hx = hex_of(&tx.hash);
        let mut j: usize = 0;
        while j < tx.calls.len()
            invariant
                i < blk.transactions@.len(),
                *tx == blk.transactions@[i as int],
                hx@ == hex_bytes(tx.hash@),
                j <= tx.calls@.len(),
                f == src_opt(q_increase_allowance_call_fn()),
                out@.len() == (block_srcs_upto(*blk, calls_of(), f, i as int) + tx_srcs_upto(
                    *tx,
                    tx.calls@,
                    f,
                    j as int,
                )).len(),
                forall|k: int|
                    0 <= k < out@.len() ==> increase_allowance_call_rec_ok(
                        #[trigger] out@[k],
                        *blk,
                        (block_srcs_upto(*blk, calls_of(), f, i as int) + tx_srcs_upto(
                            *tx,
                            tx.calls@,
                            f,
                            j as int,
                        ))[k].0,
                        (block_srcs_upto(*blk, calls_of(), f, i as int) + tx_srcs_upto(
                            *tx,
                            tx.calls@,
                            f,
                            j as int,
                        ))[k].1,
                    ),
            decreases tx.calls@.len() - j,
        {
            let e = &tx.calls[j];
            let ghost pre = block_srcs_upto(*blk, calls_of(), f, i as int) + tx_srcs_upto(
                *tx,
                tx.calls@,
                f,
                j as int,
            );
            let r = dec_increase_allowance_call(blk.number, &blk.timestamp, &hx, Ghost(tx.hash@), e);
            proof {
                assert(f(*tx, *e) == if q_increase_allowance_call(*e) {
                    Some((*tx, *e))
                } else {
                    None::<(Transaction, Call)>
                });
                assert(tx_srcs_upto(*tx, tx.calls@, f, j + 1 as int) == tx_srcs_upto(
                    *tx,
                    tx.calls@,
                    f,
                    j as int,
                ) + match f(*tx, tx.calls@[j as int]) {
                    Some(p) => seq![p],
                    None => Seq::<(Transaction, Call)>::empty(),
                });
            }
            match r {
                Some(rec) => {
                    out.push(rec);
                    proof {
                        assert(block_srcs_upto(*blk, calls_of(), f, i as int) + tx_srcs_upto(
                            *tx,
                            tx.calls@,
                            f,
                            j + 1 as int,
                        ) =~= pre + seq![(*tx, *e)]);
                    }
                },
                None => {
                    proof {
                        assert(block_srcs_upto(*blk, calls_of(), f, i as int) + tx_srcs_upto(
                            *tx,
                            tx.calls@,
                            f,
                            j + 1 as int,
                        ) =~= pre);
                    }
                },
            }
            j += 1;
        }
        proof {
            assert(calls_of()(*tx) == tx.calls@);
            assert(tx_srcs_upto(*tx, tx.calls@, f, tx.calls@.len() as int) == tx_srcs(
                *tx,
                calls_of(),
                f,
            ));
            assert(block_srcs_upto(*blk, calls_of(), f, i + 1 as int) == block_srcs_upto(
                *blk,
                calls_of(),
                f,
                i as int,
            ) + tx_srcs(blk.transactions@[i as int], calls_of(), f));
        }
        i += 1;
    }
    proof {
        assert(increase_allowance_call_srcs(*blk) == block_srcs_upto(
            *blk,
            calls_of(),
            f,
            blk.transactions@.len() as int,
        ));
    }
    out
}

pub const SEL_INITIALIZE: u32 = 0x3357162b;

/// Whether a call is a initialize call to the tracked contract whose input
/// decodes against the signature's argument layout.
pub open spec fn q_initialize_call(c: Call) -> bool {
    &&& is_tracked(c.address@)
    &&& sel_is(c.input@, SEL_INITIALIZE as int)
    &&& c.input@.len() >= 260
    &&& dyn_ok(c.input@, 4, 0)
    &&& dyn_ok(c.input@, 4, 1)
    &&& dyn_ok(c.input@, 4, 2)
    &&& u8_word_ok(c.input@, 100)
}

pub open spec fn q_initialize_call_fn() -> spec_fn(Call) -> bool {
    |c: Call| q_initialize_call(c)
}

/// The field contents of a initialize call record built from one call.
pub open spec fn initialize_call_fields(
    r: UsdcInitializeCall,
    number: u64,
    ts: Timestamp,
    hash: Seq<u8>,
    c: Call,
) -> bool {
    &&& r.call_tx_hash@ == hex_str(hash)
    &&& r.call_block_time == Some(ts)
    &&& r.call_block_number == number
    &&& r.call_ordinal == c.begin_ordinal
    &&& r.call_success == !c.state_reverted
    &&& r.token_name@ == utf8_lossy_of(dyn_bytes(c.input@, 4, 0))
    &&& r.token_symbol@ == utf8_lossy_of(dyn_bytes(c.input@, 4, 1))
    &&& r.token_currency@ == utf8_lossy_of(dyn_bytes(c.input@, 4, 2))
    &&& r.token_decimals == u8_word_val(c.input@, 100)
    &&& r.new_master_minter@ == addr_at(c.input@, 132)
    &&& r.new_pauser@ == addr_at(c.input@, 164)
    &&& r.new_blacklister@ == addr_at(c.input@, 196)
    &&& r.new_owner@ == addr_at(c.input@, 228)
}

/// A initialize call record as the block scan must build it from one source.
pub open spec fn initialize_call_rec_ok(r: UsdcInitializeCall, b: Block, t: Transaction, c: Call) -> bool {
    initialize_call_fields(r, b.number, b.timestamp, t.hash@, c)
}

/// The initialize call sources of a block, in traversal order.
pub open spec fn initialize_call_srcs(b: Block) -> Seq<(Transaction, Call)> {
    block_srcs(b, calls_of(), src_opt(q_initialize_call_fn()))
}

/// Decodes one call against the initialize signature.
fn dec_initialize_call(
    number: u64,
    ts: &Timestamp,
    hx: &Vec<u8>,
    hash: Ghost<Seq<u8>>,
    c: &Call,
) -> (r: Option<UsdcInitializeCall>)
    requires
        hx@ == hex_bytes(hash@),
    ensures
        r is Some <==> q_initialize_call(*c),
        r is Some ==> initialize_call_fields(r->Some_0, number, *ts, hash@, *c),
{
    if !is_tracked_address(&c.address) {
        return None;
    }
    if !check_selector(&c.input, SEL_INITIALIZE) {
        return None;
    }
    if c.input.len() < 260 {
        return None;
    }
    let raw_token_name = match decode_dyn_bytes(&c.input, 4, 0) {
        Some(x) => x,
        None => {
            return None;
        },
    };
    let p_token_name = utf8_lossy_string(&raw_token_name);
    let raw_token_symbol = match decode_dyn_bytes(&c.input, 4, 1) {
        Some(x) => x,
        None => {
            return None;
        },
    };
    let p_token_symbol = utf8_lossy_string(&raw_token_symbol);
    let raw_token_currency = match decode_dyn_bytes(&c.input, 4, 2) {
        Some(x) => x,
        None => {
            return None;
        },
    };
    let p_token_currency = utf8_lossy_string(&raw_token_currency);
    let p_token_decimals = match decode_u8_word(&c.input, 100) {
        Some(x) => x,
        None => {
            return None;
        },
    };
    Some(
        UsdcInitializeCall {
            call_tx_hash: hash_hex_string(hx, hash),
            call_block_time: Some(*ts),
            call_block_number: number,
            call_ordinal: c.begin_ordinal,
            call_success: !c.state_reverted,
            token_name: p_token_name,
            token_symbol: p_token_symbol,
            token_currency: p_token_currency,
            token_decimals: p_token_decimals,
            new_master_minter: addr_vec_at(&c.input, 132),
            new_pauser: addr_vec_at(&c.input, 164),
            new_blacklister: addr_vec_at(&c.input, 196),
            new_owner: addr_vec_at(&c.input, 228),
        },
    )
}


/// Scans the whole block for initialize_call records.
pub fn scan_initialize_calls(blk: &Block) -> (out: Vec<UsdcInitializeCall>)
    ensures
        out@.len() == initialize_call_srcs(*blk).len(),
        forall|k: int|
            0 <= k < out@.len() ==> initialize_call_rec_ok(
                #[trigger] out@[k],
                *blk,
                initialize_call_srcs(*blk)[k].0,
                initialize_call_srcs(*blk)[k].1,
            ),
{
    let ghost f = src_opt(q_initialize_call_fn());
    let mut out: Vec<UsdcInitializeCall> = Vec::new();
    let mut i: usize = 0;
    while i < blk.transactions.len()
        invariant
            i <= blk.transactions@.len(),
            f == src_opt(q_initialize_call_fn()),
            out@.len() == block_srcs_upto(*blk, calls_of(), f, i as int).len(),
            forall|k: int|
                0 <= k < out@.len() ==> initialize_call_rec_ok(
                    #[trigger] out@[k],
                    *blk,
                    block_srcs_upto(*blk, calls_of(), f, i as int)[k].0,
                    block_srcs_upto(*blk, calls_of(), f, i as int)[k].1,
                ),
        decreases blk.transactions@.len() - i,
    {
        let tx = &blk.transactions[i];
        let hx = hex_of(&tx.hash);
        let mut j: usize = 0;
        while j < tx.calls.len()
            invariant
                i < blk.transactions@.len(),
                *tx == blk.transactions@[i as int],
                hx@ == hex_bytes(tx.hash@),
                j <= tx.calls@.len(),
                f == src_opt(q_initialize_call_fn()),
                out@.len() == (block_srcs_upto(*blk, calls_of(), f, i as int) + tx_srcs_upto(
                    *tx,
                    tx.calls@,
                    f,
                    j as int,
                )).len(),
                forall|k: int|
                    0 <= k < out@.len() ==> initialize_call_rec_ok(
                        #[trigger] out@[k],
                        *blk,
                        (block_srcs_upto(*blk, calls_of(), f, i as int) + tx_srcs_upto(
                            *tx,
                            tx.calls@,
                            f,
                            j as int,
                        ))[k].0,
                        (block_srcs_upto(*blk, calls_of(), f, i as int) + tx_srcs_upto(
                            *tx,
                            tx.calls@,
                            f,
                            j as int,
                        ))[k].1,
                    ),
            decreases tx.calls@.len() - j,
        {
            let e = &tx.calls[j];
            let ghost pre = block_srcs_upto(*blk, calls_of(), f, i as int) + tx_srcs_upto(
                *tx,
                tx.calls@,
                f,
                j as int,
            );
            let r = dec_initialize_call(blk.number, &blk.timestamp, &hx, Ghost(tx.hash@), e);
            proof {
                assert(f(*tx, *e) == if q_initialize_call(*e) {
                    Some((*tx, *e))
                } else {
                    None::<(Transaction, Call)>
                });
                assert(tx_srcs_upto(*tx, tx.calls@, f, j + 1 as int) == tx_srcs_upto(
                    *tx,
                    tx.calls@,
                    f,
                    j as int,
                ) + match f(*tx, tx.calls@[j as int]) {
                    Some(p) => seq![p],
                    None => Seq::<(Transaction, Call)>::empty(),
                });
            }
            match r {
                Some(rec) => {
                    out.push(rec);
                    proof {
                        assert(block_srcs_upto(*blk, calls_of(), f, i as int) + tx_srcs_upto(
                            *tx,
                            tx.calls@,
                            f,
                            j + 1 as int,
                        ) =~= pre + seq![(*tx, *e)]);
                    }
                },
                None => {
                    proof {
                        assert(block_srcs_upto(*blk, calls_of(), f, i as int) + tx_srcs_upto(
                            *tx,
                            tx.calls@,
                            f,
                            j + 1 as int,
                        ) =~= pre);
                    }
                },
            }
            j += 1;
        }
        proof {
            assert(calls_of()(*tx) == tx.calls@);
            assert(tx_srcs_upto(*tx, tx.calls@, f, tx.calls@.len() as int) == tx_srcs(
                *tx,
                calls_of(),
                f,
            ));
            assert(block_srcs_upto(*blk, calls_of(), f, i + 1 as int) == block_srcs_upto(
                *blk,
                calls_of(),
                f,
                i as int,
            ) + tx_srcs(blk.transactions@[i as int], calls_of(), f));
        }
        i += 1;
    }
    proof {
        assert(initialize_call_srcs(*blk) == block_srcs_upto(
            *blk,
            calls_of(),
            f,
            blk.transactions@.len() as int,
        ));
    }
    out
}

pub const SEL_INITIALIZE_V2: u32 = 0xd608ea64;

/// Whether a call is a initialize_v2 call to the tracked contract whose input
/// decodes against the signature's argument layout.
pub open spec fn q_initialize_v2_call(c: Call) -> bool {
    &&& is_tracked(c.address@)
    &&& sel_is(c.input@, SEL_INITIALIZE_V2 as int)
    &&& c.input@.len() >= 36
    &&& dyn_ok(c.input@, 4, 0)
}

pub open spec fn q_initialize_v2_call_fn() -> spec_fn(Call) -> bool {
    |c: Call| q_initialize_v2_call(c)
}

/// The field contents of a initialize_v2 call record built from one call.
pub open spec fn initialize_v2_call_fields(
    r: UsdcInitializeV2call,
    number: u64,
    ts: Timestamp,
    hash: Seq<u8>,
    c: Call,
) -> bool {
    &&& r.call_tx_hash@ == hex_str(hash)
    &&& r.call_block_time == Some(ts)
    &&& r.call_block_number == number
    &&& r.call_ordinal == c.begin_ordinal
    &&& r.call_success == !c.state_reverted
    &&& r.new_name@ == utf8_lossy_of(dyn_bytes(c.input@, 4, 0))
}

/// A initialize_v2 call record as the block scan must build it from one source.
pub open spec fn initialize_v2_call_rec_ok(r: UsdcInitializeV2call, b: Block, t: Transaction, c: Call) -> bool {
    initialize_v2_call_fields(r, b.number, b.timestamp, t.hash@, c)
}

/// The initialize_v2 call sources of a block, in traversal order.
pub open spec fn initialize_v2_call_srcs(b: Block) -> Seq<(Transaction, Call)> {
    block_srcs(b, calls_of(), src_opt(q_initialize_v2_call_fn()))
}

/// Decodes one call against the initialize_v2 signature.
fn dec_initialize_v2_call(
    number: u64,
    ts: &Timestamp,
    hx: &Vec<u8>,
    hash: Ghost<Seq<u8>>,
    c: &Call,
) -> (r: Option<UsdcInitializeV2call>)
    requires
        hx@ == hex_bytes(hash@),
    ensures
        r is Some <==> q_initialize_v2_call(*c),
        r is Some ==> initialize_v2_call_fields(r->Some_0, number, *ts, hash@, *c),
{
    if !is_tracked_address(&c.address) {
        return None;
    }
    if !check_selector(&c.input, SEL_INITIALIZE_V2) {
        return None;
    }
    if c.input.len() < 36 {
        return None;
    }
    let raw_new_name = match decode_dyn_bytes(&c.input, 4, 0) {
        Some(x) => x,
        None => {
            return None;
        },
    };
    let p_new_name = utf8_lossy_string(&raw_new_name);
    Some(
        UsdcInitializeV2call {
            call_tx_hash: hash_hex_string(hx, hash),
            call_block_time: Some(*ts),
            call_block_number: number,
            call_ordinal: c.begin_ordinal,
            call_success: !c.state_reverted,
            new_name: p_new_name,
        },
    )
}


/// Scans the whole block for initialize_v2_call records.
pub fn scan_initialize_v2_calls(blk: &Block) -> (out: Vec<UsdcInitializeV2call>)
    ensures
        out@.len() == initialize_v2_call_srcs(*blk).len(),
        forall|k: int|
            0 <= k < out@.len() ==> initialize_v2_call_rec_ok(
                #[trigger] out@[k],
                *blk,
                initialize_v2_call_srcs(*blk)[k].0,
                initialize_v2_call_srcs(*blk)[k].1,
            ),
{
    let ghost f = src_opt(q_initialize_v2_call_fn());
    let mut out: Vec<UsdcInitializeV2call> = Vec::new();
    let mut i: usize = 0;
    while i < blk.transactions.len()
        invariant
            i <= blk.transactions@.len(),
            f == src_opt(q_initialize_v2_call_fn()),
            out@.len() == block_srcs_upto(*blk, calls_of(), f, i as int).len(),
            forall|k: int|
                0 <= k < out@.len() ==> initialize_v2_call_rec_ok(
                    #[trigger] out@[k],
                    *blk,
                    block_srcs_upto(*blk, calls_of(), f, i as int)[k].0,
                    block_srcs_upto(*blk, calls_of(), f, i as int)[k].1,
                ),
        decreases blk.transactions@.len() - i,
    {
        let tx = &blk.transactions[i];
        let hx = hex_of(&tx.hash);
        let mut j: usize = 0;
        while j < tx.calls.len()
            invariant
                i < blk.transactions@.len(),
                *tx == blk.transactions@[i as int],
                hx@ == hex_bytes(tx.hash@),
                j <= tx.calls@.len(),
                f == src_opt(q_initialize_v2_call_fn()),
                out@.len() == (block_srcs_upto(*blk, calls_of(), f, i as int) + tx_srcs_upto(
                    *tx,
                    tx.calls@,
                    f,
                    j as int,
                )).len(),
                forall|k: int|
                    0 <= k < out@.len() ==> initialize_v2_call_rec_ok(
                        #[trigger] out@[k],
                        *blk,
                        (block_srcs_upto(*blk, calls_of(), f, i as int) + tx_srcs_upto(
                            *tx,
                            tx.calls@,
                            f,
                            j as int,
                        ))[k].0,
                        (block_srcs_upto(*blk, calls_of(), f, i as int) + tx_srcs_upto(
                            *tx,
                            tx.calls@,
                            f,
                            j as int,
                        ))[k].1,
                    ),
            decreases tx.calls@.len() - j,
        {
            let e = &tx.calls[j];
            let ghost pre = block_srcs_upto(*blk, calls_of(), f, i as int) + tx_srcs_upto(
                *tx,
                tx.calls@,
                f,
                j as int,
            );
            let r = dec_initialize_v2_call(blk.number, &blk.timestamp, &hx, Ghost(tx.hash@), e);
            proof {
                assert(f(*tx, *e) == if q_initialize_v2_call(*e) {
                    Some((*tx, *e))
                } else {
                    None::<(Transaction, Call)>
                });
                assert(tx_srcs_upto(*tx, tx.calls@, f, j + 1 as int) == tx_srcs_upto(
                    *tx,
                    tx.calls@,
                    f,
                    j as int,
                ) + match f(*tx, tx.calls@[j as int]) {
                    Some(p) => seq![p],
                    None => Seq::<(Transaction, Call)>::empty(),
                });
            }
            match r {
                Some(rec) => {
                    out.push(rec);
                    proof {
                        assert(block_srcs_upto(*blk, calls_of(), f, i as int) + tx_srcs_upto(
                            *tx,
                            tx.calls@,
                            f,
                            j + 1 as int,
                        ) =~= pre + seq![(*tx, *e)]);
                    }
                },
                None => {
                    proof {
                        assert(block_srcs_upto(*blk, calls_of(), f, i as int) + tx_srcs_upto(
                            *tx,
                            tx.calls@,
                            f,
                            j + 1 as int,
                        ) =~= pre);
                    }
                },
            }
            j += 1;
        }
        proof {
            assert(calls_of()(*tx) == tx.calls@);
            assert(tx_srcs_upto(*tx, tx.calls@, f, tx.calls@.len() as int) == tx_srcs(
                *tx,
                calls_of(),
                f,
            ));
            assert(block_srcs_upto(*blk, calls_of(), f, i + 1 as int) == block_srcs_upto(
                *blk,
                calls_of(),
                f,
                i as int,
            ) + tx_srcs(blk.transactions@[i as int], calls_of(), f));
        }
        i += 1;
    }
    proof {
        assert(initialize_v2_call_srcs(*blk) == block_srcs_upto(
            *blk,
            calls_of(),
            f,
            blk.transactions@.len() as int,
        ));
    }
    out
}

pub const SEL_INITIALIZE_V2_1: u32 = 0x2fc81e09;

/// Whether a call is a initialize_v2_1 call to the tracked contract whose input
/// decodes against the signature's argument layout.
pub open spec fn q_initialize_v2_1_call(c: Call) -> bool {
    &&& is_tracked(c.address@)
    &&& sel_is(c.input@, SEL_INITIALIZE_V2_1 as int)
    &&& c.input@.len() >= 36
}

pub open spec fn q_initialize_v2_1_call_fn() -> spec_fn(Call) -> bool {
    |c: Call| q_initialize_v2_1_call(c)
}

/// The field contents of a initialize_v2_1 call record built from one call.
pub open spec fn initialize_v2_1_call_fields(
    r: UsdcInitializeV21call,
    number: u64,
    ts: Timestamp,
    hash: Seq<u8>,
    c: Call,
) -> bool {
    &&& r.call_tx_hash@ == hex_str(hash)
    &&& r.call_block_time == Some(ts)
    &&& r.call_block_number == number
    &&& r.call_ordinal == c.begin_ordinal
    &&& r.call_success == !c.state_reverted
    &&& r.lost_and_found@ == addr_at(c.input@, 4)
}

/// A initialize_v2_1 call record as the block scan must build it from one source.
pub open spec fn initialize_v2_1_call_rec_ok(r: UsdcInitializeV21call, b: Block, t: Transaction, c: Call) -> bool {
    initialize_v2_1_call_fields(r, b.number, b.timestamp, t.hash@, c)
}

/// The initialize_v2_1 call sources of a block, in traversal order.
pub open spec fn initialize_v2_1_call_srcs(b: Block) -> Seq<(Transaction, Call)> {
    block_srcs(b, calls_of(), src_opt(q_initialize_v2_1_call_fn()))
}

/// Decodes one call against the initialize_v2_1 signature.
fn dec_initialize_v2_1_call(
    number: u64,
    ts: &Timestamp,
    hx: &Vec<u8>,
    hash: Ghost<Seq<u8>>,
    c: &Call,
) -> (r: Option<UsdcInitializeV21call>)
    requires
        hx@ == hex_bytes(hash@),
    ensures
        r is Some <==> q_initialize_v2_1_call(*c),
        r is Some ==> initialize_v2_1_call_fields(r->Some_0, number, *ts, hash@, *c),
{
    if !is_tracked_address(&c.address) {
        return None;
    }
    if !check_selector(&c.input, SEL_INITIALIZE_V2_1) {
        return None;
    }
    if c.input.len() < 36 {
        return None;
    }
    Some(
        UsdcInitializeV21call {
            call_tx_hash: hash_hex_string(hx, hash),
            call_block_time: Some(*ts),
            call_block_number: number,
            call_ordinal: c.begin_ordinal,
            call_success: !c.state_reverted,
            lost_and_found: addr_vec_at(&c.input, 4),
        },
    )
}


/// Scans the whole block for initialize_v2_1_call records.
pub fn scan_initialize_v2_1_calls(blk: &Block) -> (out: Vec<UsdcInitializeV21call>)
    ensures
        out@.len() == initialize_v2_1_call_srcs(*blk).len(),
        forall|k: int|
            0 <= k < out@.len() ==> initialize_v2_1_call_rec_ok(
                #[trigger] out@[k],
                *blk,
                initialize_v2_1_call_srcs(*blk)[k].0,
                initialize_v2_1_call_srcs(*blk)[k].1,
            ),
{
    let ghost f = src_opt(q_initialize_v2_1_call_fn());
    let mut out: Vec<UsdcInitializeV21call> = Vec::new();
    let mut i: usize = 0;
    while i < blk.transactions.len()
        invariant
            i <= blk.transactions@.len(),
            f == src_opt(q_initialize_v2_1_call_fn()),
            out@.len() == block_srcs_upto(*blk, calls_of(), f, i as int).len(),
            forall|k: int|
                0 <= k < out@.len() ==> initialize_v2_1_call_rec_ok(
                    #[trigger] out@[k],
                    *blk,
                    block_srcs_upto(*blk, calls_of(), f, i as int)[k].0,
                    block_srcs_upto(*blk, calls_of(), f, i as int)[k].1,
                ),
        decreases blk.transactions@.len() - i,
    {
        let tx = &blk.transactions[i];
        let hx = hex_of(&tx.hash);
        let mut j: usize = 0;
        while j < tx.calls.len()
            invariant
                i < blk.transactions@.len(),
                *tx == blk.transactions@[i as int],
                hx@ == hex_bytes(tx.hash@),
                j <= tx.calls@.len(),
                f == src_opt(q_initialize_v2_1_call_fn()),
                out@.len() == (block_srcs_upto(*blk, calls_of(), f, i as int) + tx_srcs_upto(
                    *tx,
                    tx.calls@,
                    f,
                    j as int,
                )).len(),
                forall|k: int|
                    0 <= k < out@.len() ==> initialize_v2_1_call_rec_ok(
                        #[trigger] out@[k],
                        *blk,
                        (block_srcs_upto(*blk, calls_of(), f, i as int) + tx_srcs_upto(
                            *tx,
                            tx.calls@,
                            f,
                            j as int,
                        ))[k].0,
                        (block_srcs_upto(*blk, calls_of(), f, i as int) + tx_srcs_upto(
                            *tx,
                            tx.calls@,
                            f,
                            j as int,
                        ))[k].1,
                    ),
            decreases tx.calls@.len() - j,
        {
            let e = &tx.calls[j];
            let ghost pre = block_srcs_upto(*blk, calls_of(), f, i as int) + tx_srcs_upto(
                *tx,
                tx.calls@,
                f,
                j as int,
            );
            let r = dec_initialize_v2_1_call(blk.number, &blk.timestamp, &hx, Ghost(tx.hash@), e);
            proof {
                assert(f(*tx, *e) == if q_initialize_v2_1_call(*e) {
                    Some((*tx, *e))
                } else {
                    None::<(Transaction, Call)>
                });
                assert(tx_srcs_upto(*tx, tx.calls@, f, j + 1 as int) == tx_srcs_upto(
                    *tx,
                    tx.calls@,
                    f,
                    j as int,
                ) + match f(*tx, tx.calls@[j as int]) {
                    Some(p) => seq![p],
                    None => Seq::<(Transaction, Call)>::empty(),
                });
            }
            match r {
                Some(rec) => {
                    out.push(rec);
                    proof {
                        assert(block_srcs_upto(*blk, calls_of(), f, i as int) + tx_srcs_upto(
                            *tx,
                            tx.calls@,
                            f,
                            j + 1 as int,
                        ) =~= pre + seq![(*tx, *e)]);
                    }
                },
                None => {
                    proof {
                        assert(block_srcs_upto(*blk, calls_of(), f, i as int) + tx_srcs_upto(
                            *tx,
                            tx.calls@,
                            f,
                            j + 1 as int,
                        ) =~= pre);
                    }
                },
            }
            j += 1;
        }
        proof {
            assert(calls_of()(*tx) == tx.calls@);
            assert(tx_srcs_upto(*tx, tx.calls@, f, tx.calls@.len() as int) == tx_srcs(
                *tx,
                calls_of(),
                f,
            ));
            assert(block_srcs_upto(*blk, calls_of(), f, i + 1 as int) == block_srcs_upto(
                *blk,
                calls_of(),
                f,
                i as int,
            ) + tx_srcs(blk.transactions@[i as int], calls_of(), f));
        }
        i += 1;
    }
    proof {
        assert(initialize_v2_1_call_srcs(*blk) == block_srcs_upto(
            *blk,
            calls_of(),
            f,
            blk.transactions@.len() as int,
        ));
    }
    out
}

pub const SEL_INITIALIZE_V2_2: u32 = 0x430239b4;

/// Whether a call is a initialize_v2_2 call to the tracked contract whose input
/// decodes against the signature's argument layout.
pub open spec fn q_initialize_v2_2_call(c: Call) -> bool {
    &&& is_tracked(c.address@)
    &&& sel_is(c.input@, SEL_INITIALIZE_V2_2 as int)
    &&& c.input@.len() >= 68
    &&& addr_array_ok(c.input@, 4, 0)
    &&& dyn_ok(c.input@, 4, 1)
}

pub open spec fn q_initialize_v2_2_call_fn() -> spec_fn(Call) -> bool {
    |c: Call| q_initialize_v2_2_call(c)
}

/// The field contents of a initialize_v2_2 call record built from one call.
pub open spec fn initialize_v2_2_call_fields(
    r: UsdcInitializeV22call,
    number: u64,
    ts: Timestamp,
    hash: Seq<u8>,
    c: Call,
) -> bool {
    &&& r.call_tx_hash@ == hex_str(hash)
    &&& r.call_block_time == Some(ts)
    &&& r.call_block_number == number
    &&& r.call_ordinal == c.begin_ordinal
    &&& r.call_success == !c.state_reverted
    &&& r.accounts_to_blacklist@.len() == addr_array_len(c.input@, 4, 0)
    &&& (forall|i: int|
        0 <= i < r.accounts_to_blacklist@.len() ==> (#[trigger] r.accounts_to_blacklist@[i])@ == addr_array_elem(
            c.input@,
            4,
            0,
            i,
        ))
    &&& r.new_symbol@ == utf8_lossy_of(dyn_bytes(c.input@, 4, 1))
}

/// A initialize_v2_2 call record as the block scan must build it from one source.
pub open spec fn initialize_v2_2_call_rec_ok(r: UsdcInitializeV22call, b: Block, t: Transaction, c: Call) -> bool {
    initialize_v2_2_call_fields(r, b.number, b.timestamp, t.hash@, c)
}

/// The initialize_v2_2 call sources of a block, in traversal order.
pub open spec fn initialize_v2_2_call_srcs(b: Block) -> Seq<(Transaction, Call)> {
    block_srcs(b, calls_of(), src_opt(q_initialize_v2_2_call_fn()))
}

/// Decodes one call against the initialize_v2_2 signature.
fn dec_initialize_v2_2_call(
    number: u64,
    ts: &Timestamp,
    hx: &Vec<u8>,
    hash: Ghost<Seq<u8>>,
    c: &Call,
) -> (r: Option<UsdcInitializeV22call>)
    requires
        hx@ == hex_bytes(hash@),
    ensures
        r is Some <==> q_initialize_v2_2_call(*c),
        r is Some ==> initialize_v2_2_call_fields(r->Some_0, number, *ts, hash@, *c),
{
    if !is_tracked_address(&c.address) {
        return None;
    }
    if !check_selector(&c.input, SEL_INITIALIZE_V2_2) {
        return None;
    }
    if c.input.len() < 68 {
        return None;
    }
    let p_accounts_to_blacklist = match decode_addr_array(&c.input, 4, 0) {
        Some(x) => x,
        None => {
            return None;
        },
    };
    let raw_new_symbol = match decode_dyn_bytes(&c.input, 4, 1) {
        Some(x) => x,
        None => {
            return None;
        },
    };
    let p_new_symbol = utf8_lossy_string(&raw_new_symbol);
    Some(
        UsdcInitializeV22call {
            call_tx_hash: hash_hex_string(hx, hash),
            call_block_time: Some(*ts),
            call_block_number: number,
            call_ordinal: c.begin_ordinal,
            call_success: !c.state_reverted,
            accounts_to_blacklist: p_accounts_to_blacklist,
            new_symbol: p_new_symbol,
        },
    )
}


/// Scans the whole block for initialize_v2_2_call records.
pub fn scan_initialize_v2_2_calls(blk: &Block) -> (out: Vec<UsdcInitializeV22call>)
    ensures
        out@.len() == initialize_v2_2_call_srcs(*blk).len(),
        forall|k: int|
            0 <= k < out@.len() ==> initialize_v2_2_call_rec_ok(
                #[trigger] out@[k],
                *blk,
                initialize_v2_2_call_srcs(*blk)[k].0,
                initialize_v2_2_call_srcs(*blk)[k].1,
            ),
{
    let ghost f = src_opt(q_initialize_v2_2_call_fn());
    let mut out: Vec<UsdcInitializeV22call> = Vec::new();
    let mut i: usize = 0;
    while i < blk.transactions.len()
        invariant
            i <= blk.transactions@.len(),
            f == src_opt(q_initialize_v2_2_call_fn()),
            out@.len() == block_srcs_upto(*blk, calls_of(), f, i as int).len(),
            forall|k: int|
                0 <= k < out@.len() ==> initialize_v2_2_call_rec_ok(
                    #[trigger] out@[k],
                    *blk,
                    block_srcs_upto(*blk, calls_of(), f, i as int)[k].0,
                    block_srcs_upto(*blk, calls_of(), f, i as int)[k].1,
                ),
        decreases blk.transactions@.len() - i,
    {
        let tx = &blk.transactions[i];
        let hx = hex_of(&tx.hash);
        let mut j: usize = 0;
        while j < tx.calls.len()
            invariant
                i < blk.transactions@.len(),
                *tx == blk.transactions@[i as int],
                hx@ == hex_bytes(tx.hash@),
                j <= tx.calls@.len(),
                f == src_opt(q_initialize_v2_2_call_fn()),
                out@.len() == (block_srcs_upto(*blk, calls_of(), f, i as int) + tx_srcs_upto(
                    *tx,
                    tx.calls@,
                    f,
                    j as int,
                )).len(),
                forall|k: int|
                    0 <= k < out@.len() ==> initialize_v2_2_call_rec_ok(
                        #[trigger] out@[k],
                        *blk,
                        (block_srcs_upto(*blk, calls_of(), f, i as int) + tx_srcs_upto(
                            *tx,
                            tx.calls@,
                            f,
                            j as int,
                        ))[k].0,
                        (block_srcs_upto(*blk, calls_of(), f, i as int) + tx_srcs_upto(
                            *tx,
                            tx.calls@,
                            f,
                            j as int,
                        ))[k].1,
                    ),
            decreases tx.calls@.len() - j,
        {
            let e = &tx.calls[j];
            let ghost pre = block_srcs_upto(*blk, calls_of(), f, i as int) + tx_srcs_upto(
                *tx,
                tx.calls@,
                f,
                j as int,
            );
            let r = dec_initialize_v2_2_call(blk.number, &blk.timestamp, &hx, Ghost(tx.hash@), e);
            proof {
                assert(f(*tx, *e) == if q_initialize_v2_2_call(*e) {
                    Some((*tx, *e))
                } else {
                    None::<(Transaction, Call)>
                });
                assert(tx_srcs_upto(*tx, tx.calls@, f, j + 1 as int) == tx_srcs_upto(
                    *tx,
                    tx.calls@,
                    f,
                    j as int,
                ) + match f(*tx, tx.calls@[j as int]) {
                    Some(p) => seq![p],
                    None => Seq::<(Transaction, Call)>::empty(),
                });
            }
            match r {
                Some(rec) => {
                    out.push(rec);
                    proof {
                        assert(block_srcs_upto(*blk, calls_of(), f, i as int) + tx_srcs_upto(
                            *tx,
                            tx.calls@,
                            f,
                            j + 1 as int,
                        ) =~= pre + seq![(*tx, *e)]);
                    }
                },
                None => {
                    proof {
                        assert(block_srcs_upto(*blk, calls_of(), f, i as int) + tx_srcs_upto(
                            *tx,
                            tx.calls@,
                            f,
                            j + 1 as int,
                        ) =~= pre);
                    }
                },
            }
            j += 1;
        }
        proof {
            assert(calls_of()(*tx) == tx.calls@);
            assert(tx_srcs_upto(*tx, tx.calls@, f, tx.calls@.len() as int) == tx_srcs(
                *tx,
                calls_of(),
                f,
            ));
            assert(block_srcs_upto(*blk, calls_of(), f, i + 1 as int) == block_srcs_upto(
                *blk,
                calls_of(),
                f,
                i as int,
            ) + tx_srcs(blk.transactions@[i as int], calls_of(), f));
        }
        i += 1;
    }
    proof {
        assert(initialize_v2_2_call_srcs(*blk) == block_srcs_upto(
            *blk,
            calls_of(),
            f,
            blk.transactions@.len() as int,
        ));
    }
    out
}

pub const SEL_MINT: u32 = 0x40c10f19;

/// Whether a call is a mint call to the tracked contract whose input
/// decodes against the signature's argument layout.
pub open spec fn q_mint_call(c: Call) -> bool {
    &&& is_tracked(c.address@)
    &&& sel_is(c.input@, SEL_MINT as int)
    &&& c.input@.len() >= 68
}

pub open spec fn q_mint_call_fn() -> spec_fn(Call) -> bool {
    |c: Call| q_mint_call(c)
}

/// The field contents of a mint call record built from one call.
pub open spec fn mint_call_fields(
    r: UsdcMintCall,
    number: u64,
    ts: Timestamp,
    hash: Seq<u8>,
    c: Call,
) -> bool {
    &&& r.call_tx_hash@ == hex_str(hash)
    &&& r.call_block_time == Some(ts)
    &&& r.call_block_number == number
    &&& r.call_ordinal == c.begin_ordinal
    &&& r.call_success == !c.state_reverted
    &&& r.u_to@ == addr_at(c.input@, 4)
    &&& r.u_amount@ == dec_str(be_val(word_at(c.input@, 36)))
    &&& r.output_param0 == bool_output(c.return_data@)
}

/// A mint call record as the block scan must build it from one source.
pub open spec fn mint_call_rec_ok(r: UsdcMintCall, b: Block, t: Transaction, c: Call) -> bool {
    mint_call_fields(r, b.number, b.timestamp, t.hash@, c)
}

/// The mint call sources of a block, in traversal order.
pub open spec fn mint_call_srcs(b: Block) -> Seq<(Transaction, Call)> {
    block_srcs(b, calls_of(), src_opt(q_mint_call_fn()))
}

/// Decodes one call against the mint signature.
fn dec_mint_call(
    number: u64,
    ts: &Timestamp,
    hx: &Vec<u8>,
    hash: Ghost<Seq<u8>>,
    c: &Call,
) -> (r: Option<UsdcMintCall>)
    requires
        hx@ == hex_bytes(hash@),
    ensures
        r is Some <==> q_mint_call(*c),
        r is Some ==> mint_call_fields(r->Some_0, number, *ts, hash@, *c),
{
    if !is_tracked_address(&c.address) {
        return None;
    }
    if !check_selector(&c.input, SEL_MINT) {
        return None;
    }
    if c.input.len() < 68 {
        return None;
    }
    Some(
        UsdcMintCall {
            call_tx_hash: hash_hex_string(hx, hash),
            call_block_time: Some(*ts),
            call_block_number: number,
            call_ordinal: c.begin_ordinal,
            call_success: !c.state_reverted,
            u_to: addr_vec_at(&c.input, 4),
            u_amount: dec_word_string(&c.input, 36),
            output_param0: decode_bool_output(&c.return_data),
        },
    )
}


/// Scans the whole block for mint_call records.
pub fn scan_mint_calls(blk: &Block) -> (out: Vec<UsdcMintCall>)
    ensures
        out@.len() == mint_call_srcs(*blk).len(),
        forall|k: int|
            0 <= k < out@.len() ==> mint_call_rec_ok(
                #[trigger] out@[k],
                *blk,
                mint_call_srcs(*blk)[k].0,
                mint_call_srcs(*blk)[k].1,
            ),
{
    let ghost f = src_opt(q_mint_call_fn());
    let mut out: Vec<UsdcMintCall> = Vec::new();
    let mut i: usize = 0;
    while i < blk.transactions.len()
        invariant
            i <= blk.transactions@.len(),
            f == src_opt(q_mint_call_fn()),
            out@.len() == block_srcs_upto(*blk, calls_of(), f, i as int).len(),
            forall|k: int|
                0 <= k < out@.len() ==> mint_call_rec_ok(
                    #[trigger] out@[k],
                    *blk,
                    block_srcs_upto(*blk, calls_of(), f, i as int)[k].0,
                    block_srcs_upto(*blk, calls_of(), f, i as int)[k].1,
                ),
        decreases blk.transactions@.len() - i,
    {
        let tx = &blk.transactions[i];
        let hx = hex_of(&tx.hash);
        let mut j: usize = 0;
        while j < tx.calls.len()
            invariant
                i < blk.transactions@.len(),
                *tx == blk.transactions@[i as int],
                hx@ == hex_bytes(tx.hash@),
                j <= tx.calls@.len(),
                f == src_opt(q_mint_call_fn()),
                out@.len() == (block_srcs_upto(*blk, calls_of(), f, i as int) + tx_srcs_upto(
                    *tx,
                    tx.calls@,
                    f,
                    j as int,
                )).len(),
                forall|k: int|
                    0 <= k < out@.len() ==> mint_call_rec_ok(
                        #[trigger] out@[k],
                        *blk,
                        (block_srcs_upto(*blk, calls_of(), f, i as int) + tx_srcs_upto(
                            *tx,
                            tx.calls@,
                            f,
                            j as int,
                        ))[k].0,
                        (block_srcs_upto(*blk, calls_of(), f, i as int) + tx_srcs_upto(
                            *tx,
                            tx.calls@,
                            f,
                            j as int,
                        ))[k].1,
                    ),
            decreases tx.calls@.len() - j,
        {
            let e = &tx.calls[j];
            let ghost pre = block_srcs_upto(*blk, calls_of(), f, i as int) + tx_srcs_upto(
                *tx,
                tx.calls@,
                f,
                j as int,
            );
            let r = dec_mint_call(blk.number, &blk.timestamp, &hx, Ghost(tx.hash@), e);
            proof {
                assert(f(*tx, *e) == if q_mint_call(*e) {
                    Some((*tx, *e))
                } else {
                    None::<(Transaction, Call)>
                });
                assert(tx_srcs_upto(*tx, tx.calls@, f, j + 1 as int) == tx_srcs_upto(
                    *tx,
                    tx.calls@,
                    f,
                    j as int,
                ) + match f(*tx, tx.calls@[j as int]) {
                    Some(p) => seq![p],
                    None => Seq::<(Transaction, Call)>::empty(),
                });
            }
            match r {
                Some(rec) => {
                    out.push(rec);
                    proof {
                        assert(block_srcs_upto(*blk, calls_of(), f, i as int) + tx_srcs_upto(
                            *tx,
                            tx.calls@,
                            f,
                            j + 1 as int,
                        ) =~= pre + seq![(*tx, *e)]);
                    }
                },
                None => {
                    proof {
                        assert(block_srcs_upto(*blk, calls_of(), f, i as int) + tx_srcs_upto(
                            *tx,
                            tx.calls@,
                            f,
                            j + 1 as int,
                        ) =~= pre);
                    }
                },
            }
            j += 1;
        }
        proof {
            assert(calls_of()(*tx) == tx.calls@);
            assert(tx_srcs_upto(*tx, tx.calls@, f, tx.calls@.len() as int) == tx_srcs(
                *tx,
                calls_of(),
                f,
            ));
            assert(block_srcs_upto(*blk, calls_of(), f, i + 1 as int) == block_srcs_upto(
                *blk,
                calls_of(),
                f,
                i as int,
            ) + tx_srcs(blk.transactions@[i as int], calls_of(), f));
        }
        i += 1;
    }
    proof {
        assert(mint_call_srcs(*blk) == block_srcs_upto(
            *blk,
            calls_of(),
            f,
            blk.transactions@.len() as int,
        ));
    }
    out
}

pub const SEL_PAUSE: u32 = 0x8456cb59;

/// Whether a call is a pause call to the tracked contract whose input
/// decodes against the signature's argument layout.
pub open spec fn q_pause_call(c: Call) -> bool {
    &&& is_tracked(c.address@)
    &&& sel_is(c.input@, SEL_PAUSE as int)
}

pub open spec fn q_pause_call_fn() -> spec_fn(Call) -> bool {
    |c: Call| q_pause_call(c)
}

/// The field contents of a pause call record built from one call.
pub open spec fn pause_call_fields(
    r: UsdcPauseCall,
    number: u64,
    ts: Timestamp,
    hash: Seq<u8>,
    c: Call,
) -> bool {
    &&& r.call_tx_hash@ == hex_str(hash)
    &&& r.call_block_time == Some(ts)
    &&& r.call_block_number == number
    &&& r.call_ordinal == c.begin_ordinal
    &&& r.call_success == !c.state_reverted
}

/// A pause call record as the block scan must build it from one source.
pub open spec fn pause_call_rec_ok(r: UsdcPauseCall, b: Block, t: Transaction, c: Call) -> bool {
    pause_call_fields(r, b.number, b.timestamp, t.hash@, c)
}

/// The pause call sources of a block, in traversal order.
pub open spec fn pause_call_srcs(b: Block) -> Seq<(Transaction, Call)> {
    block_srcs(b, calls_of(), src_opt(q_pause_call_fn()))
}

/// Decodes one call against the pause signature.
fn dec_pause_call(
    number: u64,
    ts: &Timestamp,
    hx: &Vec<u8>,
    hash: Ghost<Seq<u8>>,
    c: &Call,
) -> (r: Option<UsdcPauseCall>)
    requires
        hx@ == hex_bytes(hash@),
    ensures
        r is Some <==> q_pause_call(*c),
        r is Some ==> pause_call_fields(r->Some_0, number, *ts, hash@, *c),
{
    if !is_tracked_address(&c.address) {
        return None;
    }
    if !check_selector(&c.input, SEL_PAUSE) {
        return None;
    }
    Some(
        UsdcPauseCall {
            call_tx_hash: hash_hex_string(hx, hash),
            call_block_time: Some(*ts),
            call_block_number: number,
            call_ordinal: c.begin_ordinal,
            call_success: !c.state_reverted,
        },
    )
}


/// Scans the whole block for pause_call records.
pub fn scan_pause_calls(blk: &Block) -> (out: Vec<UsdcPauseCall>)
    ensures
        out@.len() == pause_call_srcs(*blk).len(),
        forall|k: int|
            0 <= k < out@.len() ==> pause_call_rec_ok(
                #[trigger] out@[k],
                *blk,
                pause_call_srcs(*blk)[k].0,
                pause_call_srcs(*blk)[k].1,
            ),
{
    let ghost f = src_opt(q_pause_call_fn());
    let mut out: Vec<UsdcPauseCall> = Vec::new();
    let mut i: usize = 0;
    while i < blk.transactions.len()
        invariant
            i <= blk.transactions@.len(),
            f == src_opt(q_pause_call_fn()),
            out@.len() == block_srcs_upto(*blk, calls_of(), f, i as int).len(),
            forall|k: int|
                0 <= k < out@.len() ==> pause_call_rec_ok(
                    #[trigger] out@[k],
                    *blk,
                    block_srcs_upto(*blk, calls_of(), f, i as int)[k].0,
                    block_srcs_upto(*blk, calls_of(), f, i as int)[k].1,
                ),
        decreases blk.transactions@.len() - i,
    {
        let tx = &blk.transactions[i];
        let hx = hex_of(&tx.hash);
        let mut j: usize = 0;
        while j < tx.calls.len()
            invariant
                i < blk.transactions@.len(),
                *tx == blk.transactions@[i as int],
                hx@ == hex_bytes(tx.hash@),
                j <= tx.calls@.len(),
                f == src_opt(q_pause_call_fn()),
                out@.len() == (block_srcs_upto(*blk, calls_of(), f, i as int) + tx_srcs_upto(
                    *tx,
                    tx.calls@,
                    f,
                    j as int,
                )).len(),
                forall|k: int|
                    0 <= k < out@.len() ==> pause_call_rec_ok(
                        #[trigger] out@[k],
                        *blk,
                        (block_srcs_upto(*blk, calls_of(), f, i as int) + tx_srcs_upto(
                            *tx,
                            tx.calls@,
                            f,
                            j as int,
                        ))[k].0,
                        (block_srcs_upto(*blk, calls_of(), f, i as int) + tx_srcs_upto(
                            *tx,
                            tx.calls@,
                            f,
                            j as int,
                        ))[k].1,
                    ),
            decreases tx.calls@.len() - j,
        {
            let e = &tx.calls[j];
            let ghost pre = block_srcs_upto(*blk, calls_of(), f, i as int) + tx_srcs_upto(
                *tx,
                tx.calls@,
                f,
                j as int,
            );
            let r = dec_pause_call(blk.number, &blk.timestamp, &hx, Ghost(tx.hash@), e);
            proof {
                assert(f(*tx, *e) == if q_pause_call(*e) {
                    Some((*tx, *e))
                } else {
                    None::<(Transaction, Call)>
                });
                assert(tx_srcs_upto(*tx, tx.calls@, f, j + 1 as int) == tx_srcs_upto(
                    *tx,
                    tx.calls@,
                    f,
                    j as int,
                ) + match f(*tx, tx.calls@[j as int]) {
                    Some(p) => seq![p],
                    None => Seq::<(Transaction, Call)>::empty(),
                });
            }
            match r {
                Some(rec) => {
                    out.push(rec);
                    proof {
                        assert(block_srcs_upto(*blk, calls_of(), f, i as int) + tx_srcs_upto(
                            *tx,
                            tx.calls@,
                            f,
                            j + 1 as int,
                        ) =~= pre + seq![(*tx, *e)]);
                    }
                },
                None => {
                    proof {
                        assert(block_srcs_upto(*blk, calls_of(), f, i as int) + tx_srcs_upto(
                            *tx,
                            tx.calls@,
                            f,
                            j + 1 as int,
                        ) =~= pre);
                    }
                },
            }
            j += 1;
        }
        proof {
            assert(calls_of()(*tx) == tx.calls@);
            assert(tx_srcs_upto(*tx, tx.calls@, f, tx.calls@.len() as int) == tx_srcs(
                *tx,
                calls_of(),
                f,
            ));
            assert(block_srcs_upto(*blk, calls_of(), f, i + 1 as int) == block_srcs_upto(
                *blk,
                calls_of(),
                f,
                i as int,
            ) + tx_srcs(blk.transactions@[i as int], calls_of(), f));
        }
        i += 1;
    }
    proof {
        assert(pause_call_srcs(*blk) == block_srcs_upto(
            *blk,
            calls_of(),
            f,
            blk.transactions@.len() as int,
        ));
    }
    out
}

pub const SEL_PERMIT_1: u32 = 0x9fd5a6cf;

/// Whether a call is a permit_1 call to the tracked contract whose input
/// decodes against the signature's argument layout.
pub open spec fn q_permit_1_call(c: Call) -> bool {
    &&& is_tracked(c.address@)
    &&& sel_is(c.input@, SEL_PERMIT_1 as int)
    &&& c.input@.len() >= 164
    &&& dyn_ok(c.input@, 4, 4)
}

pub open spec fn q_permit_1_call_fn() -> spec_fn(Call) -> bool {
    |c: Call| q_permit_1_call(c)
}

/// The field contents of a permit_1 call record built from one call.
pub open spec fn permit_1_call_fields(
    r: UsdcPermit1call,
    number: u64,
    ts: Timestamp,
    hash: Seq<u8>,
    c: Call,
) -> bool {
    &&& r.call_tx_hash@ == hex_str(hash)
    &&& r.call_block_time == Some(ts)
    &&& r.call_block_number == number
    &&& r.call_ordinal == c.begin_ordinal
    &&& r.call_success == !c.state_reverted
    &&& r.owner@ == addr_at(c.input@, 4)
    &&& r.spender@ == addr_at(c.input@, 36)
    &&& r.value@ == dec_str(be_val(word_at(c.input@, 68)))
    &&& r.deadline@ == dec_str(be_val(word_at(c.input@, 100)))
    &&& r.signature@ == dyn_bytes(c.input@, 4, 4)
}

/// A permit_1 call record as the block scan must build it from one source.
pub open spec fn permit_1_call_rec_ok(r: UsdcPermit1call, b: Block, t: Transaction, c: Call) -> bool {
    permit_1_call_fields(r, b.number, b.timestamp, t.hash@, c)
}

/// The permit_1 call sources of a block, in traversal order.
pub open spec fn permit_1_call_srcs(b: Block) -> Seq<(Transaction, Call)> {
    block_srcs(b, calls_of(), src_opt(q_permit_1_call_fn()))
}

/// Decodes one call against the permit_1 signature.
fn dec_permit_1_call(
    number: u64,
    ts: &Timestamp,
    hx: &Vec<u8>,
    hash: Ghost<Seq<u8>>,
    c: &Call,
) -> (r: Option<UsdcPermit1call>)
    requires
        hx@ == hex_bytes(hash@),
    ensures
        r is Some <==> q_permit_1_call(*c),
        r is Some ==> permit_1_call_fields(r->Some_0, number, *ts, hash@, *c),
{
    if !is_tracked_address(&c.address) {
        return None;
    }
    if !check_selector(&c.input, SEL_PERMIT_1) {
        return None;
    }
    if c.input.len() < 164 {
        return None;
    }
    let p_signature = match decode_dyn_bytes(&c.input, 4, 4) {
        Some(x) => x,
        None => {
            return None;
        },
    };
    Some(
        UsdcPermit1call {
            call_tx_hash: hash_hex_string(hx, hash),
            call_block_time: Some(*ts),
            call_block_number: number,
            call_ordinal: c.begin_ordinal,
            call_success: !c.state_reverted,
            owner: addr_vec_at(&c.input, 4),
            spender: addr_vec_at(&c.input, 36),
            value: dec_word_string(&c.input, 68),
            deadline: dec_word_string(&c.input, 100),
            signature: p_signature,
        },
    )
}


/// Scans the whole block for permit_1_call records.
pub fn scan_permit_1_calls(blk: &Block) -> (out: Vec<UsdcPermit1call>)
    ensures
        out@.len() == permit_1_call_srcs(*blk).len(),
        forall|k: int|
            0 <= k < out@.len() ==> permit_1_call_rec_ok(
                #[trigger] out@[k],
                *blk,
                permit_1_call_srcs(*blk)[k].0,
                permit_1_call_srcs(*blk)[k].1,
            ),
{
    let ghost f = src_opt(q_permit_1_call_fn());
    let mut out: Vec<UsdcPermit1call> = Vec::new();
    let mut i: usize = 0;
    while i < blk.transactions.len()
        invariant
            i <= blk.transactions@.len(),
            f == src_opt(q_permit_1_call_fn()),
            out@.len() == block_srcs_upto(*blk, calls_of(), f, i as int).len(),
            forall|k: int|
                0 <= k < out@.len() ==> permit_1_call_rec_ok(
                    #[trigger] out@[k],
                    *blk,
                    block_srcs_upto(*blk, calls_of(), f, i as int)[k].0,
                    block_srcs_upto(*blk, calls_of(), f, i as int)[k].1,
                ),
        decreases blk.transactions@.len() - i,
    {
        let tx = &blk.transactions[i];
        let hx = hex_of(&tx.hash);
        let mut j: usize = 0;
        while j < tx.calls.len()
            invariant
                i < blk.transactions@.len(),
                *tx == blk.transactions@[i as int],
                hx@ == hex_bytes(tx.hash@),
                j <= tx.calls@.len(),
                f == src_opt(q_permit_1_call_fn()),
                out@.len() == (block_srcs_upto(*blk, calls_of(), f, i as int) + tx_srcs_upto(
                    *tx,
                    tx.calls@,
                    f,
                    j as int,
                )).len(),
                forall|k: int|
                    0 <= k < out@.len() ==> permit_1_call_rec_ok(
                        #[trigger] out@[k],
                        *blk,
                        (block_srcs_upto(*blk, calls_of(), f, i as int) + tx_srcs_upto(
                            *tx,
                            tx.calls@,
                            f,
                            j as int,
                        ))[k].0,
                        (block_srcs_upto(*blk, calls_of(), f, i as int) + tx_srcs_upto(
                            *tx,
                            tx.calls@,
                            f,
                            j as int,
                        ))[k].1,
                    ),
            decreases tx.calls@.len() - j,
        {
            let e = &tx.calls[j];
            let ghost pre = block_srcs_upto(*blk, calls_of(), f, i as int) + tx_srcs_upto(
                *tx,
                tx.calls@,
                f,
                j as int,
            );
            let r = dec_permit_1_call(blk.number, &blk.timestamp, &hx, Ghost(tx.hash@), e);
            proof {
                assert(f(*tx, *e) == if q_permit_1_call(*e) {
                    Some((*tx, *e))
                } else {
                    None::<(Transaction, Call)>
                });
                assert(tx_srcs_upto(*tx, tx.calls@, f, j + 1 as int) == tx_srcs_upto(
                    *tx,
                    tx.calls@,
                    f,
                    j as int,
                ) + match f(*tx, tx.calls@[j as int]) {
                    Some(p) => seq![p],
                    None => Seq::<(Transaction, Call)>::empty(),
                });
            }
            match r {
                Some(rec) => {
                    out.push(rec);
                    proof {
                        assert(block_srcs_upto(*blk, calls_of(), f, i as int) + tx_srcs_upto(
                            *tx,
                            tx.calls@,
                            f,
                            j + 1 as int,
                        ) =~= pre + seq![(*tx, *e)]);
                    }
                },
                None => {
                    proof {
                        assert(block_srcs_upto(*blk, calls_of(), f, i as int) + tx_srcs_upto(
                            *tx,
                            tx.calls@,
                            f,
                            j + 1 as int,
                        ) =~= pre);
                    }
                },
            }
            j += 1;
        }
        proof {
            assert(calls_of()(*tx) == tx.calls@);
            assert(tx_srcs_upto(*tx, tx.calls@, f, tx.calls@.len() as int) == tx_srcs(
                *tx,
                calls_of(),
                f,
            ));
            assert(block_srcs_upto(*blk, calls_of(), f, i + 1 as int) == block_srcs_upto(
                *blk,
                calls_of(),
                f,
                i as int,
            ) + tx_srcs(blk.transactions@[i as int], calls_of(), f));
        }
        i += 1;
    }
    proof {
        assert(permit_1_call_srcs(*blk) == block_srcs_upto(
            *blk,
            calls_of(),
            f,
            blk.transactions@.len() as int,
        ));
    }
    out
}

pub const SEL_PERMIT_2: u32 = 0xd505accf;

/// Whether a call is a permit_2 call to the tracked contract whose input
/// decodes against the signature's argument layout.
pub open spec fn q_permit_2_call(c: Call) -> bool {
    &&& is_tracked(c.address@)
    &&& sel_is(c.input@, SEL_PERMIT_2 as int)
    &&& c.input@.len() >= 228
    &&& u8_word_ok(c.input@, 132)
}

pub open spec fn q_permit_2_call_fn() -> spec_fn(Call) -> bool {
    |c: Call| q_permit_2_call(c)
}

/// The field contents of a permit_2 call record built from one call.
pub open spec fn permit_2_call_fields(
    r: UsdcPermit2call,
    number: u64,
    ts: Timestamp,
    hash: Seq<u8>,
    c: Call,
) -> bool {
    &&& r.call_tx_hash@ == hex_str(hash)
    &&& r.call_block_time == Some(ts)
    &&& r.call_block_number == number
    &&& r.call_ordinal == c.begin_ordinal
    &&& r.call_success == !c.state_reverted
    &&& r.owner@ == addr_at(c.input@, 4)
    &&& r.spender@ == addr_at(c.input@, 36)
    &&& r.value@ == dec_str(be_val(word_at(c.input@, 68)))
    &&& r.deadline@ == dec_str(be_val(word_at(c.input@, 100)))
    &&& r.v == u8_word_val(c.input@, 132)
    &&& r.r@ == word_at(c.input@, 164)
    &&& r.s@ == word_at(c.input@, 196)
}

/// A permit_2 call record as the block scan must build it from one source.
pub open spec fn permit_2_call_rec_ok(r: UsdcPermit2call, b: Block, t: Transaction, c: Call) -> bool {
    permit_2_call_fields(r, b.number, b.timestamp, t.hash@, c)
}

/// The permit_2 call sources of a block, in traversal order.
pub open spec fn permit_2_call_srcs(b: Block) -> Seq<(Transaction, Call)> {
    block_srcs(b, calls_of(), src_opt(q_permit_2_call_fn()))
}

/// Decodes one call against the permit_2 signature.
fn dec_permit_2_call(
    number: u64,
    ts: &Timestamp,
    hx: &Vec<u8>,
    hash: Ghost<Seq<u8>>,
    c: &Call,
) -> (r: Option<UsdcPermit2call>)
    requires
        hx@ == hex_bytes(hash@),
    ensures
        r is Some <==> q_permit_2_call(*c),
        r is Some ==> permit_2_call_fields(r->Some_0, number, *ts, hash@, *c),
{
    if !is_tracked_address(&c.address) {
        return None;
    }
    if !check_selector(&c.input, SEL_PERMIT_2) {
        return None;
    }
    if c.input.len() < 228 {
        return None;
    }
    let p_v = match decode_u8_word(&c.input, 132) {
        Some(x) => x,
        None => {
            return None;
        },
    };
    Some(
        UsdcPermit2call {
            call_tx_hash: hash_hex_string(hx, hash),
            call_block_time: Some(*ts),
            call_block_number: number,
            call_ordinal: c.begin_ordinal,
            call_success: !c.state_reverted,
            owner: addr_vec_at(&c.input, 4),
            spender: addr_vec_at(&c.input, 36),
            value: dec_word_string(&c.input, 68),
            deadline: dec_word_string(&c.input, 100),
            v: p_v,
            r: word_vec_at(&c.input, 164),
            s: word_vec_at(&c.input, 196),
        },
    )
}


/// Scans the whole block for permit_2_call records.
pub fn scan_permit_2_calls(blk: &Block) -> (out: Vec<UsdcPermit2call>)
    ensures
        out@.len() == permit_2_call_srcs(*blk).len(),
        forall|k: int|
            0 <= k < out@.len() ==> permit_2_call_rec_ok(
                #[trigger] out@[k],
                *blk,
                permit_2_call_srcs(*blk)[k].0,
                permit_2_call_srcs(*blk)[k].1,
            ),
{
    let ghost f = src_opt(q_permit_2_call_fn());
    let mut out: Vec<UsdcPermit2call> = Vec::new();
    let mut i: usize = 0;
    while i < blk.transactions.len()
        invariant
            i <= blk.transactions@.len(),
            f == src_opt(q_permit_2_call_fn()),
            out@.len() == block_srcs_upto(*blk, calls_of(), f, i as int).len(),
            forall|k: int|
                0 <= k < out@.len() ==> permit_2_call_rec_ok(
                    #[trigger] out@[k],
                    *blk,
                    block_srcs_upto(*blk, calls_of(), f, i as int)[k].0,
                    block_srcs_upto(*blk, calls_of(), f, i as int)[k].1,
                ),
        decreases blk.transactions@.len() - i,
    {
        let tx = &blk.transactions[i];
        let hx = hex_of(&tx.hash);
        let mut j: usize = 0;
        while j < tx.calls.len()
            invariant
                i < blk.transactions@.len(),
                *tx == blk.transactions@[i as int],
                hx@ == hex_bytes(tx.hash@),
                j <= tx.calls@.len(),
                f == src_opt(q_permit_2_call_fn()),
                out@.len() == (block_srcs_upto(*blk, calls_of(), f, i as int) + tx_srcs_upto(
                    *tx,
                    tx.calls@,
                    f,
                    j as int,
                )).len(),
                forall|k: int|
                    0 <= k < out@.len() ==> permit_2_call_rec_ok(
                        #[trigger] out@[k],
                        *blk,
                        (block_srcs_upto(*blk, calls_of(), f, i as int) + tx_srcs_upto(
                            *tx,
                            tx.calls@,
                            f,
                            j as int,
                        ))[k].0,
                        (block_srcs_upto(*blk, calls_of(), f, i as int) + tx_srcs_upto(
                            *tx,
                            tx.calls@,
                            f,
                            j as int,
                        ))[k].1,
                    ),
            decreases tx.calls@.len() - j,
        {
            let e = &tx.calls[j];
            let ghost pre = block_srcs_upto(*blk, calls_of(), f, i as int) + tx_srcs_upto(
                *tx,
                tx.calls@,
                f,
                j as int,
            );
            let r = dec_permit_2_call(blk.number, &blk.timestamp, &hx, Ghost(tx.hash@), e);
            proof {
                assert(f(*tx, *e) == if q_permit_2_call(*e) {
                    Some((*tx, *e))
                } else {
                    None::<(Transaction, Call)>
                });
                assert(tx_srcs_upto(*tx, tx.calls@, f, j + 1 as int) == tx_srcs_upto(
                    *tx,
                    tx.calls@,
                    f,
                    j as int,
                ) + match f(*tx, tx.calls@[j as int]) {
                    Some(p) => seq![p],
                    None => Seq::<(Transaction, Call)>::empty(),
                });
            }
            match r {
                Some(rec) => {
                    out.push(rec);
                    proof {
                        assert(block_srcs_upto(*blk, calls_of(), f, i as int) + tx_srcs_upto(
                            *tx,
                            tx.calls@,
                            f,
                            j + 1 as int,
                        ) =~= pre + seq![(*tx, *e)]);
                    }
                },
                None => {
                    proof {
                        assert(block_srcs_upto(*blk, calls_of(), f, i as int) + tx_srcs_upto(
                            *tx,
                            tx.calls@,
                            f,
                            j + 1 as int,
                        ) =~= pre);
                    }
                },
            }
            j += 1;
        }
        proof {
            assert(calls_of()(*tx) == tx.calls@);
            assert(tx_srcs_upto(*tx, tx.calls@, f, tx.calls@.len() as int) == tx_srcs(
                *tx,
                calls_of(),
                f,
            ));
            assert(block_srcs_upto(*blk, calls_of(), f, i + 1 as int) == block_srcs_upto(
                *blk,
                calls_of(),
                f,
                i as int,
            ) + tx_srcs(blk.transactions@[i as int], calls_of(), f));
        }
        i += 1;
    }
    proof {
        assert(permit_2_call_srcs(*blk) == block_srcs_upto(
            *blk,
            calls_of(),
            f,
            blk.transactions@.len() as int,
        ));
    }
    out
}

pub const SEL_RECEIVE_WITH_AUTHORIZATION_1: u32 = 0x88b7ab63;

/// Whether a call is a receive_with_authorization_1 call to the tracked contract whose input
/// decodes against the signature's argument layout.
pub open spec fn q_receive_with_authorization_1_call(c: Call) -> bool {
    &&& is_tracked(c.address@)
    &&& sel_is(c.input@, SEL_RECEIVE_WITH_AUTHORIZATION_1 as int)
    &&& c.input@.len() >= 228
    &&& dyn_ok(c.input@, 4, 6)
}

pub open spec fn q_receive_with_authorization_1_call_fn() -> spec_fn(Call) -> bool {
    |c: Call| q_receive_with_authorization_1_call(c)
}

/// The field contents of a receive_with_authorization_1 call record built from one call.
pub open spec fn receive_with_authorization_1_call_fields(
    r: UsdcReceiveWithAuthorization1call,
    number: u64,
    ts: Timestamp,
    hash: Seq<u8>,
    c: Call,
) -> bool {
    &&& r.call_tx_hash@ == hex_str(hash)
    &&& r.call_block_time == Some(ts)
    &&& r.call_block_number == number
    &&& r.call_ordinal == c.begin_ordinal
    &&& r.call_success == !c.state_reverted
    &&& r.from@ == addr_at(c.input@, 4)
    &&& r.to@ == addr_at(c.input@, 36)
    &&& r.value@ == dec_str(be_val(word_at(c.input@, 68)))
    &&& r.valid_after@ == dec_str(be_val(word_at(c.input@, 100)))
    &&& r.valid_before@ == dec_str(be_val(word_at(c.input@, 132)))
    &&& r.nonce@ == word_at(c.input@, 164)
    &&& r.signature@ == dyn_bytes(c.input@, 4, 6)
}

/// A receive_with_authorization_1 call record as the block scan must build it from one source.
pub open spec fn receive_with_authorization_1_call_rec_ok(r: UsdcReceiveWithAuthorization1call, b: Block, t: Transaction, c: Call) -> bool {
    receive_with_authorization_1_call_fields(r, b.number, b.timestamp, t.hash@, c)
}

/// The receive_with_authorization_1 call sources of a block, in traversal order.
pub open spec fn receive_with_authorization_1_call_srcs(b: Block) -> Seq<(Transaction, Call)> {
    block_srcs(b, calls_of(), src_opt(q_receive_with_authorization_1_call_fn()))
}

/// Decodes one call against the receive_with_authorization_1 signature.
fn dec_receive_with_authorization_1_call(
    number: u64,
    ts: &Timestamp,
    hx: &Vec<u8>,
    hash: Ghost<Seq<u8>>,
    c: &Call,
) -> (r: Option<UsdcReceiveWithAuthorization1call>)
    requires
        hx@ == hex_bytes(hash@),
    ensures
        r is Some <==> q_receive_with_authorization_1_call(*c),
        r is Some ==> receive_with_authorization_1_call_fields(r->Some_0, number, *ts, hash@, *c),
{
    if !is_tracked_address(&c.address) {
        return None;
    }
    if !check_selector(&c.input, SEL_RECEIVE_WITH_AUTHORIZATION_1) {
        return None;
    }
    if c.input.len() < 228 {
        return None;
    }
    let p_signature = match decode_dyn_bytes(&c.input, 4, 6) {
        Some(x) => x,
        None => {
            return None;
        },
    };
    Some(
        UsdcReceiveWithAuthorization1call {
            call_tx_hash: hash_hex_string(hx, hash),
            call_block_time: Some(*ts),
            call_block_number: number,
            call_ordinal: c.begin_ordinal,
            call_success: !c.state_reverted,
            from: addr_vec_at(&c.input, 4),
            to: addr_vec_at(&c.input, 36),
            value: dec_word_string(&c.input, 68),
            valid_after: dec_word_string(&c.input, 100),
            valid_before: dec_word_string(&c.input, 132),
            nonce: word_vec_at(&c.input, 164),
            signature: p_signature,
        },
    )
}


/// Scans the whole block for receive_with_authorization_1_call records.
pub fn scan_receive_with_authorization_1_calls(blk: &Block) -> (out: Vec<UsdcReceiveWithAuthorization1call>)
    ensures
        out@.len() == receive_with_authorization_1_call_srcs(*blk).len(),
        forall|k: int|
            0 <= k < out@.len() ==> receive_with_authorization_1_call_rec_ok(
                #[trigger] out@[k],
                *blk,
                receive_with_authorization_1_call_srcs(*blk)[k].0,
                receive_with_authorization_1_call_srcs(*blk)[k].1,
            ),
{
    let ghost f = src_opt(q_receive_with_authorization_1_call_fn());
    let mut out: Vec<UsdcReceiveWithAuthorization1call> = Vec::new();
    let mut i: usize = 0;
    while i < blk.transactions.len()
        invariant
            i <= blk.transactions@.len(),
            f == src_opt(q_receive_with_authorization_1_call_fn()),
            out@.len() == block_srcs_upto(*blk, calls_of(), f, i as int).len(),
            forall|k: int|
                0 <= k < out@.len() ==> receive_with_authorization_1_call_rec_ok(
                    #[trigger] out@[k],
                    *blk,
                    block_srcs_upto(*blk, calls_of(), f, i as int)[k].0,
                    block_srcs_upto(*blk, calls_of(), f, i as int)[k].1,
                ),
        decreases blk.transactions@.len() - i,
    {
        let tx = &blk.transactions[i];
        let hx = hex_of(&tx.hash);
        let mut j: usize = 0;
        while j < tx.calls.len()
            invariant
                i < blk.transactions@.len(),
                *tx == blk.transactions@[i as int],
                hx@ == hex_bytes(tx.hash@),
                j <= tx.calls@.len(),
                f == src_opt(q_receive_with_authorization_1_call_fn()),
                out@.len() == (block_srcs_upto(*blk, calls_of(), f, i as int) + tx_srcs_upto(
                    *tx,
                    tx.calls@,
                    f,
                    j as int,
                )).len(),
                forall|k: int|
                    0 <= k < out@.len() ==> receive_with_authorization_1_call_rec_ok(
                        #[trigger] out@[k],
                        *blk,
                        (block_srcs_upto(*blk, calls_of(), f, i as int) + tx_srcs_upto(
                            *tx,
                            tx.calls@,
                            f,
                            j as int,
                        ))[k].0,
                        (block_srcs_upto(*blk, calls_of(), f, i as int) + tx_srcs_upto(
                            *tx,
                            tx.calls@,
                            f,
                            j as int,
                        ))[k].1,
                    ),
            decreases tx.calls@.len() - j,
        {
            let e = &tx.calls[j];
            let ghost pre = block_srcs_upto(*blk, calls_of(), f, i as int) + tx_srcs_upto(
                *tx,
                tx.calls@,
                f,
                j as int,
            );
            let r = dec_receive_with_authorization_1_call(blk.number, &blk.timestamp, &hx, Ghost(tx.hash@), e);
            proof {
                assert(f(*tx, *e) == if q_receive_with_authorization_1_call(*e) {
                    Some((*tx, *e))
                } else {
                    None::<(Transaction, Call)>
                });
                assert(tx_srcs_upto(*tx, tx.calls@, f, j + 1 as int) == tx_srcs_upto(
                    *tx,
                    tx.calls@,
                    f,
                    j as int,
                ) + match f(*tx, tx.calls@[j as int]) {
                    Some(p) => seq![p],
                    None => Seq::<(Transaction, Call)>::empty(),
                });
            }
            match r {
                Some(rec) => {
                    out.push(rec);
                    proof {
                        assert(block_srcs_upto(*blk, calls_of(), f, i as int) + tx_srcs_upto(
                            *tx,
                            tx.calls@,
                            f,
                            j + 1 as int,
                        ) =~= pre + seq![(*tx, *e)]);
                    }
                },
                None => {
                    proof {
                        assert(block_srcs_upto(*blk, calls_of(), f, i as int) + tx_srcs_upto(
                            *tx,
                            tx.calls@,
                            f,
                            j + 1 as int,
                        ) =~= pre);
                    }
                },
            }
            j += 1;
        }
        proof {
            assert(calls_of()(*tx) == tx.calls@);
            assert(tx_srcs_upto(*tx, tx.calls@, f, tx.calls@.len() as int) == tx_srcs(
                *tx,
                calls_of(),
                f,
            ));
            assert(block_srcs_upto(*blk, calls_of(), f, i + 1 as int) == block_srcs_upto(
                *blk,
                calls_of(),
                f,
                i as int,
            ) + tx_srcs(blk.transactions@[i as int], calls_of(), f));
        }
        i += 1;
    }
    proof {
        assert(receive_with_authorization_1_call_srcs(*blk) == block_srcs_upto(
            *blk,
            calls_of(),
            f,
            blk.transactions@.len() as int,
        ));
    }
    out
}

pub const SEL_RECEIVE_WITH_AUTHORIZATION_2: u32 = 0xef55bec6;

/// Whether a call is a receive_with_authorization_2 call to the tracked contract whose input
/// decodes against the signature's argument layout.
pub open spec fn q_receive_with_authorization_2_call(c: Call) -> bool {
    &&& is_tracked(c.address@)
    &&& sel_is(c.input@, SEL_RECEIVE_WITH_AUTHORIZATION_2 as int)
    &&& c.input@.len() >= 292
    &&& u8_word_ok(c.input@, 196)
}

pub open spec fn q_receive_with_authorization_2_call_fn() -> spec_fn(Call) -> bool {
    |c: Call| q_receive_with_authorization_2_call(c)
}

/// The field contents of a receive_with_authorization_2 call record built from one call.
pub open spec fn receive_with_authorization_2_call_fields(
    r: UsdcReceiveWithAuthorization2call,
    number: u64,
    ts: Timestamp,
    hash: Seq<u8>,
    c: Call,
) -> bool {
    &&& r.call_tx_hash@ == hex_str(hash)
    &&& r.call_block_time == Some(ts)
    &&& r.call_block_number == number
    &&& r.call_ordinal == c.begin_ordinal
    &&& r.call_success == !c.state_reverted
    &&& r.from@ == addr_at(c.input@, 4)
    &&& r.to@ == addr_at(c.input@, 36)
    &&& r.value@ == dec_str(be_val(word_at(c.input@, 68)))
    &&& r.valid_after@ == dec_str(be_val(word_at(c.input@, 100)))
    &&& r.valid_before@ == dec_str(be_val(word_at(c.input@, 132)))
    &&& r.nonce@ == word_at(c.input@, 164)
    &&& r.v == u8_word_val(c.input@, 196)
    &&& r.r@ == word_at(c.input@, 228)
    &&& r.s@ == word_at(c.input@, 260)
}

/// A receive_with_authorization_2 call record as the block scan must build it from one source.
pub open spec fn receive_with_authorization_2_call_rec_ok(r: UsdcReceiveWithAuthorization2call, b: Block, t: Transaction, c: Call) -> bool {
    receive_with_authorization_2_call_fields(r, b.number, b.timestamp, t.hash@, c)
}

/// The receive_with_authorization_2 call sources of a block, in traversal order.
pub open spec fn receive_with_authorization_2_call_srcs(b: Block) -> Seq<(Transaction, Call)> {
    block_srcs(b, calls_of(), src_opt(q_receive_with_authorization_2_call_fn()))
}

/// Decodes one call against the receive_with_authorization_2 signature.
fn dec_receive_with_authorization_2_call(
    number: u64,
    ts: &Timestamp,
    hx: &Vec<u8>,
    hash: Ghost<Seq<u8>>,
    c: &Call,
) -> (r: Option<UsdcReceiveWithAuthorization2call>)
    requires
        hx@ == hex_bytes(hash@),
    ensures
        r is Some <==> q_receive_with_authorization_2_call(*c),
        r is Some ==> receive_with_authorization_2_call_fields(r->Some_0, number, *ts, hash@, *c),
{
    if !is_tracked_address(&c.address) {
        return None;
    }
    if !check_selector(&c.input, SEL_RECEIVE_WITH_AUTHORIZATION_2) {
        return None;
    }
    if c.input.len() < 292 {
        return None;
    }
    let p_v = match decode_u8_word(&c.input, 196) {
        Some(x) => x,
        None => {
            return None;
        },
    };
    Some(
        UsdcReceiveWithAuthorization2call {
            call_tx_hash: hash_hex_string(hx, hash),
            call_block_time: Some(*ts),
            call_block_number: number,
            call_ordinal: c.begin_ordinal,
            call_success: !c.state_reverted,
            from: addr_vec_at(&c.input, 4),
            to: addr_vec_at(&c.input, 36),
            value: dec_word_string(&c.input, 68),
            valid_after: dec_word_string(&c.input, 100),
            valid_before: dec_word_string(&c.input, 132),
            nonce: word_vec_at(&c.input, 164),
            v: p_v,
            r: word_vec_at(&c.input, 228),
            s: word_vec_at(&c.input, 260),
        },
    )
}


/// Scans the whole block for receive_with_authorization_2_call records.
pub fn scan_receive_with_authorization_2_calls(blk: &Block) -> (out: Vec<UsdcReceiveWithAuthorization2call>)
    ensures
        out@.len() == receive_with_authorization_2_call_srcs(*blk).len(),
        forall|k: int|
            0 <= k < out@.len() ==> receive_with_authorization_2_call_rec_ok(
                #[trigger] out@[k],
                *blk,
                receive_with_authorization_2_call_srcs(*blk)[k].0,
                receive_with_authorization_2_call_srcs(*blk)[k].1,
            ),
{
    let ghost f = src_opt(q_receive_with_authorization_2_call_fn());
    let mut out: Vec<UsdcReceiveWithAuthorization2call> = Vec::new();
    let mut i: usize = 0;
    while i < blk.transactions.len()
        invariant
            i <= blk.transactions@.len(),
            f == src_opt(q_receive_with_authorization_2_call_fn()),
            out@.len() == block_srcs_upto(*blk, calls_of(), f, i as int).len(),
            forall|k: int|
                0 <= k < out@.len() ==> receive_with_authorization_2_call_rec_ok(
                    #[trigger] out@[k],
                    *blk,
                    block_srcs_upto(*blk, calls_of(), f, i as int)[k].0,
                    block_srcs_upto(*blk, calls_of(), f, i as int)[k].1,
                ),
        decreases blk.transactions@.len() - i,
    {
        let tx = &blk.transactions[i];
        let hx = hex_of(&tx.hash);
        let mut j: usize = 0;
        while j < tx.calls.len()
            invariant
                i < blk.transactions@.len(),
                *tx == blk.transactions@[i as int],
                hx@ == hex_bytes(tx.hash@),
                j <= tx.calls@.len(),
                f == src_opt(q_receive_with_authorization_2_call_fn()),
                out@.len() == (block_srcs_upto(*blk, calls_of(), f, i as int) + tx_srcs_upto(
                    *tx,
                    tx.calls@,
                    f,
                    j as int,
                )).len(),
                forall|k: int|
                    0 <= k < out@.len() ==> receive_with_authorization_2_call_rec_ok(
                        #[trigger] out@[k],
                        *blk,
                        (block_srcs_upto(*blk, calls_of(), f, i as int) + tx_srcs_upto(
                            *tx,
                            tx.calls@,
                            f,
                            j as int,
                        ))[k].0,
                        (block_srcs_upto(*blk, calls_of(), f, i as int) + tx_srcs_upto(
                            *tx,
                            tx.calls@,
                            f,
                            j as int,
                        ))[k].1,
                    ),
            decreases tx.calls@.len() - j,
        {
            let e = &tx.calls[j];
            let ghost pre = block_srcs_upto(*blk, calls_of(), f, i as int) + tx_srcs_upto(
                *tx,
                tx.calls@,
                f,
                j as int,
            );
            let r = dec_receive_with_authorization_2_call(blk.number, &blk.timestamp, &hx, Ghost(tx.hash@), e);
            proof {
                assert(f(*tx, *e) == if q_receive_with_authorization_2_call(*e) {
                    Some((*tx, *e))
                } else {
                    None::<(Transaction, Call)>
                });
                assert(tx_srcs_upto(*tx, tx.calls@, f, j + 1 as int) == tx_srcs_upto(
                    *tx,
                    tx.calls@,
                    f,
                    j as int,
                ) + match f(*tx, tx.calls@[j as int]) {
                    Some(p) => seq![p],
                    None => Seq::<(Transaction, Call)>::empty(),
                });
            }
            match r {
                Some(rec) => {
                    out.push(rec);
                    proof {
                        assert(block_srcs_upto(*blk, calls_of(), f, i as int) + tx_srcs_upto(
                            *tx,
                            tx.calls@,
                            f,
                            j + 1 as int,
                        ) =~= pre + seq![(*tx, *e)]);
                    }
                },
                None => {
                    proof {
                        assert(block_srcs_upto(*blk, calls_of(), f, i as int) + tx_srcs_upto(
                            *tx,
                            tx.calls@,
                            f,
                            j + 1 as int,
                        ) =~= pre);
                    }
                },
            }
            j += 1;
        }
        proof {
            assert(calls_of()(*tx) == tx.calls@);
            assert(tx_srcs_upto(*tx, tx.calls@, f, tx.calls@.len() as int) == tx_srcs(
                *tx,
                calls_of(),
                f,
            ));
            assert(block_srcs_upto(*blk, calls_of(), f, i + 1 as int) == block_srcs_upto(
                *blk,
                calls_of(),
                f,
                i as int,
            ) + tx_srcs(blk.transactions@[i as int], calls_of(), f));
        }
        i += 1;
    }
    proof {
        assert(receive_with_authorization_2_call_srcs(*blk) == block_srcs_upto(
            *blk,
            calls_of(),
            f,
            blk.transactions@.len() as int,
        ));
    }
    out
}

pub const SEL_REMOVE_MINTER: u32 = 0x3092afd5;

/// Whether a call is a remove_minter call to the tracked contract whose input
/// decodes against the signature's argument layout.
pub open spec fn q_remove_minter_call(c: Call) -> bool {
    &&& is_tracked(c.address@)
    &&& sel_is(c.input@, SEL_REMOVE_MINTER as int)
    &&& c.input@.len() >= 36
}

pub open spec fn q_remove_minter_call_fn() -> spec_fn(Call) -> bool {
    |c: Call| q_remove_minter_call(c)
}

/// The field contents of a remove_minter call record built from one call.
pub open spec fn remove_minter_call_fields(
    r: UsdcRemoveMinterCall,
    number: u64,
    ts: Timestamp,
    hash: Seq<u8>,
    c: Call,
) -> bool {
    &&& r.call_tx_hash@ == hex_str(hash)
    &&& r.call_block_time == Some(ts)
    &&& r.call_block_number == number
    &&& r.call_ordinal == c.begin_ordinal
    &&& r.call_success == !c.state_reverted
    &&& r.minter@ == addr_at(c.input@, 4)
    &&& r.output_param0 == bool_output(c.return_data@)
}

/// A remove_minter call record as the block scan must build it from one source.
pub open spec fn remove_minter_call_rec_ok(r: UsdcRemoveMinterCall, b: Block, t: Transaction, c: Call) -> bool {
    remove_minter_call_fields(r, b.number, b.timestamp, t.hash@, c)
}

/// The remove_minter call sources of a block, in traversal order.
pub open spec fn remove_minter_call_srcs(b: Block) -> Seq<(Transaction, Call)> {
    block_srcs(b, calls_of(), src_opt(q_remove_minter_call_fn()))
}

/// Decodes one call against the remove_minter signature.
fn dec_remove_minter_call(
    number: u64,
    ts: &Timestamp,
    hx: &Vec<u8>,
    hash: Ghost<Seq<u8>>,
    c: &Call,
) -> (r: Option<UsdcRemoveMinterCall>)
    requires
        hx@ == hex_bytes(hash@),
    ensures
        r is Some <==> q_remove_minter_call(*c),
        r is Some ==> remove_minter_call_fields(r->Some_0, number, *ts, hash@, *c),
{
    if !is_tracked_address(&c.address) {
        return None;
    }
    if !check_selector(&c.input, SEL_REMOVE_MINTER) {
        return None;
    }
    if c.input.len() < 36 {
        return None;
    }
    Some(
        UsdcRemoveMinterCall {
            call_tx_hash: hash_hex_string(hx, hash),
            call_block_time: Some(*ts),
            call_block_number: number,
            call_ordinal: c.begin_ordinal,
            call_success: !c.state_reverted,
            minter: addr_vec_at(&c.input, 4),
            output_param0: decode_bool_output(&c.return_data),
        },
    )
}


/// Scans the whole block for remove_minter_call records.
pub fn scan_remove_minter_calls(blk: &Block) -> (out: Vec<UsdcRemoveMinterCall>)
    ensures
        out@.len() == remove_minter_call_srcs(*blk).len(),
        forall|k: int|
            0 <= k < out@.len() ==> remove_minter_call_rec_ok(
                #[trigger] out@[k],
                *blk,
                remove_minter_call_srcs(*blk)[k].0,
                remove_minter_call_srcs(*blk)[k].1,
            ),
{
    let ghost f = src_opt(q_remove_minter_call_fn());
    let mut out: Vec<UsdcRemoveMinterCall> = Vec::new();
    let mut i: usize = 0;
    while i < blk.transactions.len()
        invariant
            i <= blk.transactions@.len(),
            f == src_opt(q_remove_minter_call_fn()),
            out@.len() == block_srcs_upto(*blk, calls_of(), f, i as int).len(),
            forall|k: int|
                0 <= k < out@.len() ==> remove_minter_call_rec_ok(
                    #[trigger] out@[k],
                    *blk,
                    block_srcs_upto(*blk, calls_of(), f, i as int)[k].0,
                    block_srcs_upto(*blk, calls_of(), f, i as int)[k].1,
                ),
        decreases blk.transactions@.len() - i,
    {
        let tx = &blk.transactions[i];
        let hx = hex_of(&tx.hash);
        let mut j: usize = 0;
        while j < tx.calls.len()
            invariant
                i < blk.transactions@.len(),
                *tx == blk.transactions@[i as int],
                hx@ == hex_bytes(tx.hash@),
                j <= tx.calls@.len(),
                f == src_opt(q_remove_minter_call_fn()),
                out@.len() == (block_srcs_upto(*blk, calls_of(), f, i as int) + tx_srcs_upto(
                    *tx,
                    tx.calls@,
                    f,
                    j as int,
                )).len(),
                forall|k: int|
                    0 <= k < out@.len() ==> remove_minter_call_rec_ok(
                        #[trigger] out@[k],
                        *blk,
                        (block_srcs_upto(*blk, calls_of(), f, i as int) + tx_srcs_upto(
                            *tx,
                            tx.calls@,
                            f,
                            j as int,
                        ))[k].0,
                        (block_srcs_upto(*blk, calls_of(), f, i as int) + tx_srcs_upto(
                            *tx,
                            tx.calls@,
                            f,
                            j as int,
                        ))[k].1,
                    ),
            decreases tx.calls@.len() - j,
        {
            let e = &tx.calls[j];
            let ghost pre = block_srcs_upto(*blk, calls_of(), f, i as int) + tx_srcs_upto(
                *tx,
                tx.calls@,
                f,
                j as int,
            );
            let r = dec_remove_minter_call(blk.number, &blk.timestamp, &hx, Ghost(tx.hash@), e);
            proof {
                assert(f(*tx, *e) == if q_remove_minter_call(*e) {
                    Some((*tx, *e))
                } else {
                    None::<(Transaction, Call)>
                });
                assert(tx_srcs_upto(*tx, tx.calls@, f, j + 1 as int) == tx_srcs_upto(
                    *tx,
                    tx.calls@,
                    f,
                    j as int,
                ) + match f(*tx, tx.calls@[j as int]) {
                    Some(p) => seq![p],
                    None => Seq::<(Transaction, Call)>::empty(),
                });
            }
            match r {
                Some(rec) => {
                    out.push(rec);
                    proof {
                        assert(block_srcs_upto(*blk, calls_of(), f, i as int) + tx_srcs_upto(
                            *tx,
                            tx.calls@,
                            f,
                            j + 1 as int,
                        ) =~= pre + seq![(*tx, *e)]);
                    }
                },
                None => {
                    proof {
                        assert(block_srcs_upto(*blk, calls_of(), f, i as int) + tx_srcs_upto(
                            *tx,
                            tx.calls@,
                            f,
                            j + 1 as int,
                        ) =~= pre);
                    }
                },
            }
            j += 1;
        }
        proof {
            assert(calls_of()(*tx) == tx.calls@);
            assert(tx_srcs_upto(*tx, tx.calls@, f, tx.calls@.len() as int) == tx_srcs(
                *tx,
                calls_of(),
                f,
            ));
            assert(block_srcs_upto(*blk, calls_of(), f, i + 1 as int) == block_srcs_upto(
                *blk,
                calls_of(),
                f,
                i as int,
            ) + tx_srcs(blk.transactions@[i as int], calls_of(), f));
        }
        i += 1;
    }
    proof {
        assert(remove_minter_call_srcs(*blk) == block_srcs_upto(
            *blk,
            calls_of(),
            f,
            blk.transactions@.len() as int,
        ));
    }
    out
}

pub const SEL_RESCUE_ERC20: u32 = 0xb2118a8d;

/// Whether a call is a rescue_erc20 call to the tracked contract whose input
/// decodes against the signature's argument layout.
pub open spec fn q_rescue_erc20_call(c: Call) -> bool {
    &&& is_tracked(c.address@)
    &&& sel_is(c.input@, SEL_RESCUE_ERC20 as int)
    &&& c.input@.len() >= 100
}

pub open spec fn q_rescue_erc20_call_fn() -> spec_fn(Call) -> bool {
    |c: Call| q_rescue_erc20_call(c)
}

/// The field contents of a rescue_erc20 call record built from one call.
pub open spec fn rescue_erc20_call_fields(
    r: UsdcRescueErc20call,
    number: u64,
    ts: Timestamp,
    hash: Seq<u8>,
    c: Call,
) -> bool {
    &&& r.call_tx_hash@ == hex_str(hash)
    &&& r.call_block_time == Some(ts)
    &&& r.call_block_number == number
    &&& r.call_ordinal == c.begin_ordinal
    &&& r.call_success == !c.state_reverted
    &&& r.token_contract@ == addr_at(c.input@, 4)
    &&& r.to@ == addr_at(c.input@, 36)
    &&& r.amount@ == dec_str(be_val(word_at(c.input@, 68)))
}

/// A rescue_erc20 call record as the block scan must build it from one source.
pub open spec fn rescue_erc20_call_rec_ok(r: UsdcRescueErc20call, b: Block, t: Transaction, c: Call) -> bool {
    rescue_erc20_call_fields(r, b.number, b.timestamp, t.hash@, c)
}

/// The rescue_erc20 call sources of a block, in traversal order.
pub open spec fn rescue_erc20_call_srcs(b: Block) -> Seq<(Transaction, Call)> {
    block_srcs(b, calls_of(), src_opt(q_rescue_erc20_call_fn()))
}

/// Decodes one call against the rescue_erc20 signature.
fn dec_rescue_erc20_call(
    number: u64,
    ts: &Timestamp,
    hx: &Vec<u8>,
    hash: Ghost<Seq<u8>>,
    c: &Call,
) -> (r: Option<UsdcRescueErc20call>)
    requires
        hx@ == hex_bytes(hash@),
    ensures
        r is Some <==> q_rescue_erc20_call(*c),
        r is Some ==> rescue_erc20_call_fields(r->Some_0, number, *ts, hash@, *c),
{
    if !is_tracked_address(&c.address) {
        return None;
    }
    if !check_selector(&c.input, SEL_RESCUE_ERC20) {
        return None;
    }
    if c.input.len() < 100 {
        return None;
    }
    Some(
        UsdcRescueErc20call {
            call_tx_hash: hash_hex_string(hx, hash),
            call_block_time: Some(*ts),
            call_block_number: number,
            call_ordinal: c.begin_ordinal,
            call_success: !c.state_reverted,
            token_contract: addr_vec_at(&c.input, 4),
            to: addr_vec_at(&c.input, 36),
            amount: dec_word_string(&c.input, 68),
        },
    )
}


/// Scans the whole block for rescue_erc20_call records.
pub fn scan_rescue_erc20_calls(blk: &Block) -> (out: Vec<UsdcRescueErc20call>)
    ensures
        out@.len() == rescue_erc20_call_srcs(*blk).len(),
        forall|k: int|
            0 <= k < out@.len() ==> rescue_erc20_call_rec_ok(
                #[trigger] out@[k],
                *blk,
                rescue_erc20_call_srcs(*blk)[k].0,
                rescue_erc20_call_srcs(*blk)[k].1,
            ),
{
    let ghost f = src_opt(q_rescue_erc20_call_fn());
    let mut out: Vec<UsdcRescueErc20call> = Vec::new();
    let mut i: usize = 0;
    while i < blk.transactions.len()
        invariant
            i <= blk.transactions@.len(),
            f == src_opt(q_rescue_erc20_call_fn()),
            out@.len() == block_srcs_upto(*blk, calls_of(), f, i as int).len(),
            forall|k: int|
                0 <= k < out@.len() ==> rescue_erc20_call_rec_ok(
                    #[trigger] out@[k],
                    *blk,
                    block_srcs_upto(*blk, calls_of(), f, i as int)[k].0,
                    block_srcs_upto(*blk, calls_of(), f, i as int)[k].1,
                ),
        decreases blk.transactions@.len() - i,
    {
        let tx = &blk.transactions[i];
        let hx = hex_of(&tx.hash);
        let mut j: usize = 0;
        while j < tx.calls.len()
            invariant
                i < blk.transactions@.len(),
                *tx == blk.transactions@[i as int],
                hx@ == hex_bytes(tx.hash@),
                j <= tx.calls@.len(),
                f == src_opt(q_rescue_erc20_call_fn()),
                out@.len() == (block_srcs_upto(*blk, calls_of(), f, i as int) + tx_srcs_upto(
                    *tx,
                    tx.calls@,
                    f,
                    j as int,
                )).len(),
                forall|k: int|
                    0 <= k < out@.len() ==> rescue_erc20_call_rec_ok(
                        #[trigger] out@[k],
                        *blk,
                        (block_srcs_upto(*blk, calls_of(), f, i as int) + tx_srcs_upto(
                            *tx,
                            tx.calls@,
                            f,
                            j as int,
                        ))[k].0,
                        (block_srcs_upto(*blk, calls_of(), f, i as int) + tx_srcs_upto(
                            *tx,
                            tx.calls@,
                            f,
                            j as int,
                        ))[k].1,
                    ),
            decreases tx.calls@.len() - j,
        {
            let e = &tx.calls[j];
            let ghost pre = block_srcs_upto(*blk, calls_of(), f, i as int) + tx_srcs_upto(
                *tx,
                tx.calls@,
                f,
                j as int,
            );
            let r = dec_rescue_erc20_call(blk.number, &blk.timestamp, &hx, Ghost(tx.hash@), e);
            proof {
                assert(f(*tx, *e) == if q_rescue_erc20_call(*e) {
                    Some((*tx, *e))
                } else {
                    None::<(Transaction, Call)>
                });
                assert(tx_srcs_upto(*tx, tx.calls@, f, j + 1 as int) == tx_srcs_upto(
                    *tx,
                    tx.calls@,
                    f,
                    j as int,
                ) + match f(*tx, tx.calls@[j as int]) {
                    Some(p) => seq![p],
                    None => Seq::<(Transaction, Call)>::empty(),
                });
            }
            match r {
                Some(rec) => {
                    out.push(rec);
                    proof {
                        assert(block_srcs_upto(*blk, calls_of(), f, i as int) + tx_srcs_upto(
                            *tx,
                            tx.calls@,
                            f,
                            j + 1 as int,
                        ) =~= pre + seq![(*tx, *e)]);
                    }
                },
                None => {
                    proof {
                        assert(block_srcs_upto(*blk, calls_of(), f, i as int) + tx_srcs_upto(
                            *tx,
                            tx.calls@,
                            f,
                            j + 1 as int,
                        ) =~= pre);
                    }
                },
            }
            j += 1;
        }
        proof {
            assert(calls_of()(*tx) == tx.calls@);
            assert(tx_srcs_upto(*tx, tx.calls@, f, tx.calls@.len() as int) == tx_srcs(
                *tx,
                calls_of(),
                f,
            ));
            assert(block_srcs_upto(*blk, calls_of(), f, i + 1 as int) == block_srcs_upto(
                *blk,
                calls_of(),
                f,
                i as int,
            ) + tx_srcs(blk.transactions@[i as int], calls_of(), f));
        }
        i += 1;
    }
    proof {
        assert(rescue_erc20_call_srcs(*blk) == block_srcs_upto(
            *blk,
            calls_of(),
            f,
            blk.transactions@.len() as int,
        ));
    }
    out
}

pub const SEL_TRANSFER: u32 = 0xa9059cbb;

/// Whether a call is a transfer call to the tracked contract whose input
/// decodes against the signature's argument layout.
pub open spec fn q_transfer_call(c: Call) -> bool {
    &&& is_tracked(c.address@)
    &&& sel_is(c.input@, SEL_TRANSFER as int)
    &&& c.input@.len() >= 68
}

pub open spec fn q_transfer_call_fn() -> spec_fn(Call) -> bool {
    |c: Call| q_transfer_call(c)
}

/// The field contents of a transfer call record built from one call.
pub open spec fn transfer_call_fields(
    r: UsdcTransferCall,
    number: u64,
    ts: Timestamp,
    hash: Seq<u8>,
    c: Call,
) -> bool {
    &&& r.call_tx_hash@ == hex_str(hash)
    &&& r.call_block_time == Some(ts)
    &&& r.call_block_number == number
    &&& r.call_ordinal == c.begin_ordinal
    &&& r.call_success == !c.state_reverted
    &&& r.to@ == addr_at(c.input@, 4)
    &&& r.value@ == dec_str(be_val(word_at(c.input@, 36)))
    &&& r.output_param0 == bool_output(c.return_data@)
}

/// A transfer call record as the block scan must build it from one source.
pub open spec fn transfer_call_rec_ok(r: UsdcTransferCall, b: Block, t: Transaction, c: Call) -> bool {
    transfer_call_fields(r, b.number, b.timestamp, t.hash@, c)
}

/// The transfer call sources of a block, in traversal order.
pub open spec fn transfer_call_srcs(b: Block) -> Seq<(Transaction, Call)> {
    block_srcs(b, calls_of(), src_opt(q_transfer_call_fn()))
}

/// Decodes one call against the transfer signature.
fn dec_transfer_call(
    number: u64,
    ts: &Timestamp,
    hx: &Vec<u8>,
    hash: Ghost<Seq<u8>>,
    c: &Call,
) -> (r: Option<UsdcTransferCall>)
    requires
        hx@ == hex_bytes(hash@),
    ensures
        r is Some <==> q_transfer_call(*c),
        r is Some ==> transfer_call_fields(r->Some_0, number, *ts, hash@, *c),
{
    if !is_tracked_address(&c.address) {
        return None;
    }
    if !check_selector(&c.input, SEL_TRANSFER) {
        return None;
    }
    if c.input.len() < 68 {
        return None;
    }
    Some(
        UsdcTransferCall {
            call_tx_hash: hash_hex_string(hx, hash),
            call_block_time: Some(*ts),
            call_block_number: number,
            call_ordinal: c.begin_ordinal,
            call_success: !c.state_reverted,
            to: addr_vec_at(&c.input, 4),
            value: dec_word_string(&c.input, 36),
            output_param0: decode_bool_output(&c.return_data),
        },
    )
}


/// Scans the whole block for transfer_call records.
pub fn scan_transfer_calls(blk: &Block) -> (out: Vec<UsdcTransferCall>)
    ensures
        out@.len() == transfer_call_srcs(*blk).len(),
        forall|k: int|
            0 <= k < out@.len() ==> transfer_call_rec_ok(
                #[trigger] out@[k],
                *blk,
                transfer_call_srcs(*blk)[k].0,
                transfer_call_srcs(*blk)[k].1,
            ),
{
    let ghost f = src_opt(q_transfer_call_fn());
    let mut out: Vec<UsdcTransferCall> = Vec::new();
    let mut i: usize = 0;
    while i < blk.transactions.len()
        invariant
            i <= blk.transactions@.len(),
            f == src_opt(q_transfer_call_fn()),
            out@.len() == block_srcs_upto(*blk, calls_of(), f, i as int).len(),
            forall|k: int|
                0 <= k < out@.len() ==> transfer_call_rec_ok(
                    #[trigger] out@[k],
                    *blk,
                    block_srcs_upto(*blk, calls_of(), f, i as int)[k].0,
                    block_srcs_upto(*blk, calls_of(), f, i as int)[k].1,
                ),
        decreases blk.transactions@.len() - i,
    {
        let tx = &blk.transactions[i];
        let hx = hex_of(&tx.hash);
        let mut j: usize = 0;
        while j < tx.calls.len()
            invariant
                i < blk.transactions@.len(),
                *tx == blk.transactions@[i as int],
                hx@ == hex_bytes(tx.hash@),
                j <= tx.calls@.len(),
                f == src_opt(q_transfer_call_fn()),
                out@.len() == (block_srcs_upto(*blk, calls_of(), f, i as int) + tx_srcs_upto(
                    *tx,
                    tx.calls@,
                    f,
                    j as int,
                )).len(),
                forall|k: int|
                    0 <= k < out@.len() ==> transfer_call_rec_ok(
                        #[trigger] out@[k],
                        *blk,
                        (block_srcs_upto(*blk, calls_of(), f, i as int) + tx_srcs_upto(
                            *tx,
                            tx.calls@,
                            f,
                            j as int,
                        ))[k].0,
                        (block_srcs_upto(*blk, calls_of(), f, i as int) + tx_srcs_upto(
                            *tx,
                            tx.calls@,
                            f,
                            j as int,
                        ))[k].1,
                    ),
            decreases tx.calls@.len() - j,
        {
            let e = &tx.calls[j];
            let ghost pre = block_srcs_upto(*blk, calls_of(), f, i as int) + tx_srcs_upto(
                *tx,
                tx.calls@,
                f,
                j as int,
            );
            let r = dec_transfer_call(blk.number, &blk.timestamp, &hx, Ghost(tx.hash@), e);
            proof {
                assert(f(*tx, *e) == if q_transfer_call(*e) {
                    Some((*tx, *e))
                } else {
                    None::<(Transaction, Call)>
                });
                assert(tx_srcs_upto(*tx, tx.calls@, f, j + 1 as int) == tx_srcs_upto(
                    *tx,
                    tx.calls@,
                    f,
                    j as int,
                ) + match f(*tx, tx.calls@[j as int]) {
                    Some(p) => seq![p],
                    None => Seq::<(Transaction, Call)>::empty(),
                });
            }
            match r {
                Some(rec) => {
                    out.push(rec);
                    proof {
                        assert(block_srcs_upto(*blk, calls_of(), f, i as int) + tx_srcs_upto(
                            *tx,
                            tx.calls@,
                            f,
                            j + 1 as int,
                        ) =~= pre + seq![(*tx, *e)]);
                    }
                },
                None => {
                    proof {
                        assert(block_srcs_upto(*blk, calls_of(), f, i as int) + tx_srcs_upto(
                            *tx,
                            tx.calls@,
                            f,
                            j + 1 as int,
                        ) =~= pre);
                    }
                },
            }
            j += 1;
        }
        proof {
            assert(calls_of()(*tx) == tx.calls@);
            assert(tx_srcs_upto(*tx, tx.calls@, f, tx.calls@.len() as int) == tx_srcs(
                *tx,
                calls_of(),
                f,
            ));
            assert(block_srcs_upto(*blk, calls_of(), f, i + 1 as int) == block_srcs_upto(
                *blk,
                calls_of(),
                f,
                i as int,
            ) + tx_srcs(blk.transactions@[i as int], calls_of(), f));
        }
        i += 1;
    }
    proof {
        assert(transfer_call_srcs(*blk) == block_srcs_upto(
            *blk,
            calls_of(),
            f,
            blk.transactions@.len() as int,
        ));
    }
    out
}

pub const SEL_TRANSFER_FROM: u32 = 0x23b872dd;

/// Whether a call is a transfer_from call to the tracked contract whose input
/// decodes against the signature's argument layout.
pub open spec fn q_transfer_from_call(c: Call) -> bool {
    &&& is_tracked(c.address@)
    &&& sel_is(c.input@, SEL_TRANSFER_FROM as int)
    &&& c.input@.len() >= 100
}

pub open spec fn q_transfer_from_call_fn() -> spec_fn(Call) -> bool {
    |c: Call| q_transfer_from_call(c)
}

/// The field contents of a transfer_from call record built from one call.
pub open spec fn transfer_from_call_fields(
    r: UsdcTransferFromCall,
    number: u64,
    ts: Timestamp,
    hash: Seq<u8>,
    c: Call,
) -> bool {
    &&& r.call_tx_hash@ == hex_str(hash)
    &&& r.call_block_time == Some(ts)
    &&& r.call_block_number == number
    &&& r.call_ordinal == c.begin_ordinal
    &&& r.call_success == !c.state_reverted
    &&& r.from@ == addr_at(c.input@, 4)
    &&& r.to@ == addr_at(c.input@, 36)
    &&& r.value@ == dec_str(be_val(word_at(c.input@, 68)))
    &&& r.output_param0 == bool_output(c.return_data@)
}

/// A transfer_from call record as the block scan must build it from one source.
pub open spec fn transfer_from_call_rec_ok(r: UsdcTransferFromCall, b: Block, t: Transaction, c: Call) -> bool {
    transfer_from_call_fields(r, b.number, b.timestamp, t.hash@, c)
}

/// The transfer_from call sources of a block, in traversal order.
pub open spec fn transfer_from_call_srcs(b: Block) -> Seq<(Transaction, Call)> {
    block_srcs(b, calls_of(), src_opt(q_transfer_from_call_fn()))
}

/// Decodes one call against the transfer_from signature.
fn dec_transfer_from_call(
    number: u64,
    ts: &Timestamp,
    hx: &Vec<u8>,
    hash: Ghost<Seq<u8>>,
    c: &Call,
) -> (r: Option<UsdcTransferFromCall>)
    requires
        hx@ == hex_bytes(hash@),
    ensures
        r is Some <==> q_transfer_from_call(*c),
        r is Some ==> transfer_from_call_fields(r->Some_0, number, *ts, hash@, *c),
{
    if !is_tracked_address(&c.address) {
        return None;
    }
    if !check_selector(&c.input, SEL_TRANSFER_FROM) {
        return None;
    }
    if c.input.len() < 100 {
        return None;
    }
    Some(
        UsdcTransferFromCall {
            call_tx_hash: hash_hex_string(hx, hash),
            call_block_time: Some(*ts),
            call_block_number: number,
            call_ordinal: c.begin_ordinal,
            call_success: !c.state_reverted,
            from: addr_vec_at(&c.input, 4),
            to: addr_vec_at(&c.input, 36),
            value: dec_word_string(&c.input, 68),
            output_param0: decode_bool_output(&c.return_data),
        },
    )
}


/// Scans the whole block for transfer_from_call records.
pub fn scan_transfer_from_calls(blk: &Block) -> (out: Vec<UsdcTransferFromCall>)
    ensures
        out@.len() == transfer_from_call_srcs(*blk).len(),
        forall|k: int|
            0 <= k < out@.len() ==> transfer_from_call_rec_ok(
                #[trigger] out@[k],
                *blk,
                transfer_from_call_srcs(*blk)[k].0,
                transfer_from_call_srcs(*blk)[k].1,
            ),
{
    let ghost f = src_opt(q_transfer_from_call_fn());
    let mut out: Vec<UsdcTransferFromCall> = Vec::new();
    let mut i: usize = 0;
    while i < blk.transactions.len()
        invariant
            i <= blk.transactions@.len(),
            f == src_opt(q_transfer_from_call_fn()),
            out@.len() == block_srcs_upto(*blk, calls_of(), f, i as int).len(),
            forall|k: int|
                0 <= k < out@.len() ==> transfer_from_call_rec_ok(
                    #[trigger] out@[k],
                    *blk,
                    block_srcs_upto(*blk, calls_of(), f, i as int)[k].0,
                    block_srcs_upto(*blk, calls_of(), f, i as int)[k].1,
                ),
        decreases blk.transactions@.len() - i,
    {
        let tx = &blk.transactions[i];
        let hx = hex_of(&tx.hash);
        let mut j: usize = 0;
        while j < tx.calls.len()
            invariant
                i < blk.transactions@.len(),
                *tx == blk.transactions@[i as int],
                hx@ == hex_bytes(tx.hash@),
                j <= tx.calls@.len(),
                f == src_opt(q_transfer_from_call_fn()),
                out@.len() == (block_srcs_upto(*blk, calls_of(), f, i as int) + tx_srcs_upto(
                    *tx,
                    tx.calls@,
                    f,
                    j as int,
                )).len(),
                forall|k: int|
                    0 <= k < out@.len() ==> transfer_from_call_rec_ok(
                        #[trigger] out@[k],
                        *blk,
                        (block_srcs_upto(*blk, calls_of(), f, i as int) + tx_srcs_upto(
                            *tx,
                            tx.calls@,
                            f,
                            j as int,
                        ))[k].0,
                        (block_srcs_upto(*blk, calls_of(), f, i as int) + tx_srcs_upto(
                            *tx,
                            tx.calls@,
                            f,
                            j as int,
                        ))[k].1,
                    ),
            decreases tx.calls@.len() - j,
        {
            let e = &tx.calls[j];
            let ghost pre = block_srcs_upto(*blk, calls_of(), f, i as int) + tx_srcs_upto(
                *tx,
                tx.calls@,
                f,
                j as int,
            );
            let r = dec_transfer_from_call(blk.number, &blk.timestamp, &hx, Ghost(tx.hash@), e);
            proof {
                assert(f(*tx, *e) == if q_transfer_from_call(*e) {
                    Some((*tx, *e))
                } else {
                    None::<(Transaction, Call)>
                });
                assert(tx_srcs_upto(*tx, tx.calls@, f, j + 1 as int) == tx_srcs_upto(
                    *tx,
                    tx.calls@,
                    f,
                    j as int,
                ) + match f(*tx, tx.calls@[j as int]) {
                    Some(p) => seq![p],
                    None => Seq::<(Transaction, Call)>::empty(),
                });
            }
            match r {
                Some(rec) => {
                    out.push(rec);
                    proof {
                        assert(block_srcs_upto(*blk, calls_of(), f, i as int) + tx_srcs_upto(
                            *tx,
                            tx.calls@,
                            f,
                            j + 1 as int,
                        ) =~= pre + seq![(*tx, *e)]);
                    }
                },
                None => {
                    proof {
                        assert(block_srcs_upto(*blk, calls_of(), f, i as int) + tx_srcs_upto(
                            *tx,
                            tx.calls@,
                            f,
                            j + 1 as int,
                        ) =~= pre);
                    }
                },
            }
            j += 1;
        }
        proof {
            assert(calls_of()(*tx) == tx.calls@);
            assert(tx_srcs_upto(*tx, tx.calls@, f, tx.calls@.len() as int) == tx_srcs(
                *tx,
                calls_of(),
                f,
            ));
            assert(block_srcs_upto(*blk, calls_of(), f, i + 1 as int) == block_srcs_upto(
                *blk,
                calls_of(),
                f,
                i as int,
            ) + tx_srcs(blk.transactions@[i as int], calls_of(), f));
        }
        i += 1;
    }
    proof {
        assert(transfer_from_call_srcs(*blk) == block_srcs_upto(
            *blk,
            calls_of(),
            f,
            blk.transactions@.len() as int,
        ));
    }
    out
}

pub const SEL_TRANSFER_OWNERSHIP: u32 = 0xf2fde38b;

/// Whether a call is a transfer_ownership call to the tracked contract whose input
/// decodes against the signature's argument layout.
pub open spec fn q_transfer_ownership_call(c: Call) -> bool {
    &&& is_tracked(c.address@)
    &&& sel_is(c.input@, SEL_TRANSFER_OWNERSHIP as int)
    &&& c.input@.len() >= 36
}

pub open spec fn q_transfer_ownership_call_fn() -> spec_fn(Call) -> bool {
    |c: Call| q_transfer_ownership_call(c)
}

/// The field contents of a transfer_ownership call record built from one call.
pub open spec fn transfer_ownership_call_fields(
    r: UsdcTransferOwnershipCall,
    number: u64,
    ts: Timestamp,
    hash: Seq<u8>,
    c: Call,
) -> bool {
    &&& r.call_tx_hash@ == hex_str(hash)
    &&& r.call_block_time == Some(ts)
    &&& r.call_block_number == number
    &&& r.call_ordinal == c.begin_ordinal
    &&& r.call_success == !c.state_reverted
    &&& r.new_owner@ == addr_at(c.input@, 4)
}

/// A transfer_ownership call record as the block scan must build it from one source.
pub open spec fn transfer_ownership_call_rec_ok(r: UsdcTransferOwnershipCall, b: Block, t: Transaction, c: Call) -> bool {
    transfer_ownership_call_fields(r, b.number, b.timestamp, t.hash@, c)
}

/// The transfer_ownership call sources of a block, in traversal order.
pub open spec fn transfer_ownership_call_srcs(b: Block) -> Seq<(Transaction, Call)> {
    block_srcs(b, calls_of(), src_opt(q_transfer_ownership_call_fn()))
}

/// Decodes one call against the transfer_ownership signature.
fn dec_transfer_ownership_call(
    number: u64,
    ts: &Timestamp,
    hx: &Vec<u8>,
    hash: Ghost<Seq<u8>>,
    c: &Call,
) -> (r: Option<UsdcTransferOwnershipCall>)
    requires
        hx@ == hex_bytes(hash@),
    ensures
        r is Some <==> q_transfer_ownership_call(*c),
        r is Some ==> transfer_ownership_call_fields(r->Some_0, number, *ts, hash@, *c),
{
    if !is_tracked_address(&c.address) {
        return None;
    }
    if !check_selector(&c.input, SEL_TRANSFER_OWNERSHIP) {
        return None;
    }
    if c.input.len() < 36 {
        return None;
    }
    Some(
        UsdcTransferOwnershipCall {
            call_tx_hash: hash_hex_string(hx, hash),
            call_block_time: Some(*ts),
            call_block_number: number,
            call_ordinal: c.begin_ordinal,
            call_success: !c.state_reverted,
            new_owner: addr_vec_at(&c.input, 4),
        },
    )
}


/// Scans the whole block for transfer_ownership_call records.
pub fn scan_transfer_ownership_calls(blk: &Block) -> (out: Vec<UsdcTransferOwnershipCall>)
    ensures
        out@.len() == transfer_ownership_call_srcs(*blk).len(),
        forall|k: int|
            0 <= k < out@.len() ==> transfer_ownership_call_rec_ok(
                #[trigger] out@[k],
                *blk,
                transfer_ownership_call_srcs(*blk)[k].0,
                transfer_ownership_call_srcs(*blk)[k].1,
            ),
{
    let ghost f = src_opt(q_transfer_ownership_call_fn());
    let mut out: Vec<UsdcTransferOwnershipCall> = Vec::new();
    let mut i: usize = 0;
    while i < blk.transactions.len()
        invariant
            i <= blk.transactions@.len(),
            f == src_opt(q_transfer_ownership_call_fn()),
            out@.len() == block_srcs_upto(*blk, calls_of(), f, i as int).len(),
            forall|k: int|
                0 <= k < out@.len() ==> transfer_ownership_call_rec_ok(
                    #[trigger] out@[k],
                    *blk,
                    block_srcs_upto(*blk, calls_of(), f, i as int)[k].0,
                    block_srcs_upto(*blk, calls_of(), f, i as int)[k].1,
                ),
        decreases blk.transactions@.len() - i,
    {
        let tx = &blk.transactions[i];
        let hx = hex_of(&tx.hash);
        let mut j: usize = 0;
        while j < tx.calls.len()
            invariant
                i < blk.transactions@.len(),
                *tx == blk.transactions@[i as int],
                hx@ == hex_bytes(tx.hash@),
                j <= tx.calls@.len(),
                f == src_opt(q_transfer_ownership_call_fn()),
                out@.len() == (block_srcs_upto(*blk, calls_of(), f, i as int) + tx_srcs_upto(
                    *tx,
                    tx.calls@,
                    f,
                    j as int,
                )).len(),
                forall|k: int|
                    0 <= k < out@.len() ==> transfer_ownership_call_rec_ok(
                        #[trigger] out@[k],
                        *blk,
                        (block_srcs_upto(*blk, calls_of(), f, i as int) + tx_srcs_upto(
                            *tx,
                            tx.calls@,
                            f,
                            j as int,
                        ))[k].0,
                        (block_srcs_upto(*blk, calls_of(), f, i as int) + tx_srcs_upto(
                            *tx,
                            tx.calls@,
                            f,
                            j as int,
                        ))[k].1,
                    ),
            decreases tx.calls@.len() - j,
        {
            let e = &tx.calls[j];
            let ghost pre = block_srcs_upto(*blk, calls_of(), f, i as int) + tx_srcs_upto(
                *tx,
                tx.calls@,
                f,
                j as int,
            );
            let r = dec_transfer_ownership_call(blk.number, &blk.timestamp, &hx, Ghost(tx.hash@), e);
            proof {
                assert(f(*tx, *e) == if q_transfer_ownership_call(*e) {
                    Some((*tx, *e))
                } else {
                    None::<(Transaction, Call)>
                });
                assert(tx_srcs_upto(*tx, tx.calls@, f, j + 1 as int) == tx_srcs_upto(
                    *tx,
                    tx.calls@,
                    f,
                    j as int,
                ) + match f(*tx, tx.calls@[j as int]) {
                    Some(p) => seq![p],
                    None => Seq::<(Transaction, Call)>::empty(),
                });
            }
            match r {
                Some(rec) => {
                    out.push(rec);
                    proof {
                        assert(block_srcs_upto(*blk, calls_of(), f, i as int) + tx_srcs_upto(
                            *tx,
                            tx.calls@,
                            f,
                            j + 1 as int,
                        ) =~= pre + seq![(*tx, *e)]);
                    }
                },
                None => {
                    proof {
                        assert(block_srcs_upto(*blk, calls_of(), f, i as int) + tx_srcs_upto(
                            *tx,
                            tx.calls@,
                            f,
                            j + 1 as int,
                        ) =~= pre);
                    }
                },
            }
            j += 1;
        }
        proof {
            assert(calls_of()(*tx) == tx.calls@);
            assert(tx_srcs_upto(*tx, tx.calls@, f, tx.calls@.len() as int) == tx_srcs(
                *tx,
                calls_of(),
                f,
            ));
            assert(block_srcs_upto(*blk, calls_of(), f, i + 1 as int) == block_srcs_upto(
                *blk,
                calls_of(),
                f,
                i as int,
            ) + tx_srcs(blk.transactions@[i as int], calls_of(), f));
        }
        i += 1;
    }
    proof {
        assert(transfer_ownership_call_srcs(*blk) == block_srcs_upto(
            *blk,
            calls_of(),
            f,
            blk.transactions@.len() as int,
        ));
    }
    out
}

pub const SEL_TRANSFER_WITH_AUTHORIZATION_1: u32 = 0xcf092995;

/// Whether a call is a transfer_with_authorization_1 call to the tracked contract whose input
/// decodes against the signature's argument layout.
pub open spec fn q_transfer_with_authorization_1_call(c: Call) -> bool {
    &&& is_tracked(c.address@)
    &&& sel_is(c.input@, SEL_TRANSFER_WITH_AUTHORIZATION_1 as int)
    &&& c.input@.len() >= 228
    &&& dyn_ok(c.input@, 4, 6)
}

pub open spec fn q_transfer_with_authorization_1_call_fn() -> spec_fn(Call) -> bool {
    |c: Call| q_transfer_with_authorization_1_call(c)
}

/// The field contents of a transfer_with_authorization_1 call record built from one call.
pub open spec fn transfer_with_authorization_1_call_fields(
    r: UsdcTransferWithAuthorization1call,
    number: u64,
    ts: Timestamp,
    hash: Seq<u8>,
    c: Call,
) -> bool {
    &&& r.call_tx_hash@ == hex_str(hash)
    &&& r.call_block_time == Some(ts)
    &&& r.call_block_number == number
    &&& r.call_ordinal == c.begin_ordinal
    &&& r.call_success == !c.state_reverted
    &&& r.from@ == addr_at(c.input@, 4)
    &&& r.to@ == addr_at(c.input@, 36)
    &&& r.value@ == dec_str(be_val(word_at(c.input@, 68)))
    &&& r.valid_after@ == dec_str(be_val(word_at(c.input@, 100)))
    &&& r.valid_before@ == dec_str(be_val(word_at(c.input@, 132)))
    &&& r.nonce@ == word_at(c.input@, 164)
    &&& r.signature@ == dyn_bytes(c.input@, 4, 6)
}

/// A transfer_with_authorization_1 call record as the block scan must build it from one source.
pub open spec fn transfer_with_authorization_1_call_rec_ok(r: UsdcTransferWithAuthorization1call, b: Block, t: Transaction, c: Call) -> bool {
    transfer_with_authorization_1_call_fields(r, b.number, b.timestamp, t.hash@, c)
}

/// The transfer_with_authorization_1 call sources of a block, in traversal order.
pub open spec fn transfer_with_authorization_1_call_srcs(b: Block) -> Seq<(Transaction, Call)> {
    block_srcs(b, calls_of(), src_opt(q_transfer_with_authorization_1_call_fn()))
}

/// Decodes one call against the transfer_with_authorization_1 signature.
fn dec_transfer_with_authorization_1_call(
    number: u64,
    ts: &Timestamp,
    hx: &Vec<u8>,
    hash: Ghost<Seq<u8>>,
    c: &Call,
) -> (r: Option<UsdcTransferWithAuthorization1call>)
    requires
        hx@ == hex_bytes(hash@),
    ensures
        r is Some <==> q_transfer_with_authorization_1_call(*c),
        r is Some ==> transfer_with_authorization_1_call_fields(r->Some_0, number, *ts, hash@, *c),
{
    if !is_tracked_address(&c.address) {
        return None;
    }
    if !check_selector(&c.input, SEL_TRANSFER_WITH_AUTHORIZATION_1) {
        return None;
    }
    if c.input.len() < 228 {
        return None;
    }
    let p_signature = match decode_dyn_bytes(&c.input, 4, 6) {
        Some(x) => x,
        None => {
            return None;
        },
    };
    Some(
        UsdcTransferWithAuthorization1call {
            call_tx_hash: hash_hex_string(hx, hash),
            call_block_time: Some(*ts),
            call_block_number: number,
            call_ordinal: c.begin_ordinal,
            call_success: !c.state_reverted,
            from: addr_vec_at(&c.input, 4),
            to: addr_vec_at(&c.input, 36),
            value: dec_word_string(&c.input, 68),
            valid_after: dec_word_string(&c.input, 100),
            valid_before: dec_word_string(&c.input, 132),
            nonce: word_vec_at(&c.input, 164),
            signature: p_signature,
        },
    )
}


/// Scans the whole block for transfer_with_authorization_1_call records.
pub fn scan_transfer_with_authorization_1_calls(blk: &Block) -> (out: Vec<UsdcTransferWithAuthorization1call>)
    ensures
        out@.len() == transfer_with_authorization_1_call_srcs(*blk).len(),
        forall|k: int|
            0 <= k < out@.len() ==> transfer_with_authorization_1_call_rec_ok(
                #[trigger] out@[k],
                *blk,
                transfer_with_authorization_1_call_srcs(*blk)[k].0,
                transfer_with_authorization_1_call_srcs(*blk)[k].1,
            ),
{
    let ghost f = src_opt(q_transfer_with_authorization_1_call_fn());
    let mut out: Vec<UsdcTransferWithAuthorization1call> = Vec::new();
    let mut i: usize = 0;
    while i < blk.transactions.len()
        invariant
            i <= blk.transactions@.len(),
            f == src_opt(q_transfer_with_authorization_1_call_fn()),
            out@.len() == block_srcs_upto(*blk, calls_of(), f, i as int).len(),
            forall|k: int|
                0 <= k < out@.len() ==> transfer_with_authorization_1_call_rec_ok(
                    #[trigger] out@[k],
                    *blk,
                    block_srcs_upto(*blk, calls_of(), f, i as int)[k].0,
                    block_srcs_upto(*blk, calls_of(), f, i as int)[k].1,
                ),
        decreases blk.transactions@.len() - i,
    {
        let tx = &blk.transactions[i];
        let hx = hex_of(&tx.hash);
        let mut j: usize = 0;
        while j < tx.calls.len()
            invariant
                i < blk.transactions@.len(),
                *tx == blk.transactions@[i as int],
                hx@ == hex_bytes(tx.hash@),
                j <= tx.calls@.len(),
                f == src_opt(q_transfer_with_authorization_1_call_fn()),
                out@.len() == (block_srcs_upto(*blk, calls_of(), f, i as int) + tx_srcs_upto(
                    *tx,
                    tx.calls@,
                    f,
                    j as int,
                )).len(),
                forall|k: int|
                    0 <= k < out@.len() ==> transfer_with_authorization_1_call_rec_ok(
                        #[trigger] out@[k],
                        *blk,
                        (block_srcs_upto(*blk, calls_of(), f, i as int) + tx_srcs_upto(
                            *tx,
                            tx.calls@,
                            f,
                            j as int,
                        ))[k].0,
                        (block_srcs_upto(*blk, calls_of(), f, i as int) + tx_srcs_upto(
                            *tx,
                            tx.calls@,
                            f,
                            j as int,
                        ))[k].1,
                    ),
            decreases tx.calls@.len() - j,
        {
            let e = &tx.calls[j];
            let ghost pre = block_srcs_upto(*blk, calls_of(), f, i as int) + tx_srcs_upto(
                *tx,
                tx.calls@,
                f,
                j as int,
            );
            let r = dec_transfer_with_authorization_1_call(blk.number, &blk.timestamp, &hx, Ghost(tx.hash@), e);
            proof {
                assert(f(*tx, *e) == if q_transfer_with_authorization_1_call(*e) {
                    Some((*tx, *e))
                } else {
                    None::<(Transaction, Call)>
                });
                assert(tx_srcs_upto(*tx, tx.calls@, f, j + 1 as int) == tx_srcs_upto(
                    *tx,
                    tx.calls@,
                    f,
                    j as int,
                ) + match f(*tx, tx.calls@[j as int]) {
                    Some(p) => seq![p],
                    None => Seq::<(Transaction, Call)>::empty(),
                });
            }
            match r {
                Some(rec) => {
                    out.push(rec);
                    proof {
                        assert(block_srcs_upto(*blk, calls_of(), f, i as int) + tx_srcs_upto(
                            *tx,
                            tx.calls@,
                            f,
                            j + 1 as int,
                        ) =~= pre + seq![(*tx, *e)]);
                    }
                },
                None => {
                    proof {
                        assert(block_srcs_upto(*blk, calls_of(), f, i as int) + tx_srcs_upto(
                            *tx,
                            tx.calls@,
                            f,
                            j + 1 as int,
                        ) =~= pre);
                    }
                },
            }
            j += 1;
        }
        proof {
            assert(calls_of()(*tx) == tx.calls@);
            assert(tx_srcs_upto(*tx, tx.calls@, f, tx.calls@.len() as int) == tx_srcs(
                *tx,
                calls_of(),
                f,
            ));
            assert(block_srcs_upto(*blk, calls_of(), f, i + 1 as int) == block_srcs_upto(
                *blk,
                calls_of(),
                f,
                i as int,
            ) + tx_srcs(blk.transactions@[i as int], calls_of(), f));
        }
        i += 1;
    }
    proof {
        assert(transfer_with_authorization_1_call_srcs(*blk) == block_srcs_upto(
            *blk,
            calls_of(),
            f,
            blk.transactions@.len() as int,
        ));
    }
    out
}

pub const SEL_TRANSFER_WITH_AUTHORIZATION_2: u32 = 0xe3ee160e;

/// Whether a call is a transfer_with_authorization_2 call to the tracked contract whose input
/// decodes against the signature's argument layout.
pub open spec fn q_transfer_with_authorization_2_call(c: Call) -> bool {
    &&& is_tracked(c.address@)
    &&& sel_is(c.input@, SEL_TRANSFER_WITH_AUTHORIZATION_2 as int)
    &&& c.input@.len() >= 292
    &&& u8_word_ok(c.input@, 196)
}

pub open spec fn q_transfer_with_authorization_2_call_fn() -> spec_fn(Call) -> bool {
    |c: Call| q_transfer_with_authorization_2_call(c)
}

/// The field contents of a transfer_with_authorization_2 call record built from one call.
pub open spec fn transfer_with_authorization_2_call_fields(
    r: UsdcTransferWithAuthorization2call,
    number: u64,
    ts: Timestamp,
    hash: Seq<u8>,
    c: Call,
) -> bool {
    &&& r.call_tx_hash@ == hex_str(hash)
    &&& r.call_block_time == Some(ts)
    &&& r.call_block_number == number
    &&& r.call_ordinal == c.begin_ordinal
    &&& r.call_success == !c.state_reverted
    &&& r.from@ == addr_at(c.input@, 4)
    &&& r.to@ == addr_at(c.input@, 36)
    &&& r.value@ == dec_str(be_val(word_at(c.input@, 68)))
    &&& r.valid_after@ == dec_str(be_val(word_at(c.input@, 100)))
    &&& r.valid_before@ == dec_str(be_val(word_at(c.input@, 132)))
    &&& r.nonce@ == word_at(c.input@, 164)
    &&& r.v == u8_word_val(c.input@, 196)
    &&& r.r@ == word_at(c.input@, 228)
    &&& r.s@ == word_at(c.input@, 260)
}

/// A transfer_with_authorization_2 call record as the block scan must build it from one source.
pub open spec fn transfer_with_authorization_2_call_rec_ok(r: UsdcTransferWithAuthorization2call, b: Block, t: Transaction, c: Call) -> bool {
    transfer_with_authorization_2_call_fields(r, b.number, b.timestamp, t.hash@, c)
}

/// The transfer_with_authorization_2 call sources of a block, in traversal order.
pub open spec fn transfer_with_authorization_2_call_srcs(b: Block) -> Seq<(Transaction, Call)> {
    block_srcs(b, calls_of(), src_opt(q_transfer_with_authorization_2_call_fn()))
}

/// Decodes one call against the transfer_with_authorization_2 signature.
fn dec_transfer_with_authorization_2_call(
    number: u64,
    ts: &Timestamp,
    hx: &Vec<u8>,
    hash: Ghost<Seq<u8>>,
    c: &Call,
) -> (r: Option<UsdcTransferWithAuthorization2call>)
    requires
        hx@ == hex_bytes(hash@),
    ensures
        r is Some <==> q_transfer_with_authorization_2_call(*c),
        r is Some ==> transfer_with_authorization_2_call_fields(r->Some_0, number, *ts, hash@, *c),
{
    if !is_tracked_address(&c.address) {
        return None;
    }
    if !check_selector(&c.input, SEL_TRANSFER_WITH_AUTHORIZATION_2) {
        return None;
    }
    if c.input.len() < 292 {
        return None;
    }
    let p_v = match decode_u8_word(&c.input, 196) {
        Some(x) => x,
        None => {
            return None;
        },
    };
    Some(
        UsdcTransferWithAuthorization2call {
            call_tx_hash: hash_hex_string(hx, hash),
            call_block_time: Some(*ts),
            call_block_number: number,
            call_ordinal: c.begin_ordinal,
            call_success: !c.state_reverted,
            from: addr_vec_at(&c.input, 4),
            to: addr_vec_at(&c.input, 36),
            value: dec_word_string(&c.input, 68),
            valid_after: dec_word_string(&c.input, 100),
            valid_before: dec_word_string(&c.input, 132),
            nonce: word_vec_at(&c.input, 164),
            v: p_v,
            r: word_vec_at(&c.input, 228),
            s: word_vec_at(&c.input, 260),
        },
    )
}


/// Scans the whole block for transfer_with_authorization_2_call records.
pub fn scan_transfer_with_authorization_2_calls(blk: &Block) -> (out: Vec<UsdcTransferWithAuthorization2call>)
    ensures
        out@.len() == transfer_with_authorization_2_call_srcs(*blk).len(),
        forall|k: int|
            0 <= k < out@.len() ==> transfer_with_authorization_2_call_rec_ok(
                #[trigger] out@[k],
                *blk,
                transfer_with_authorization_2_call_srcs(*blk)[k].0,
                transfer_with_authorization_2_call_srcs(*blk)[k].1,
            ),
{
    let ghost f = src_opt(q_transfer_with_authorization_2_call_fn());
    let mut out: Vec<UsdcTransferWithAuthorization2call> = Vec::new();
    let mut i: usize = 0;
    while i < blk.transactions.len()
        invariant
            i <= blk.transactions@.len(),
            f == src_opt(q_transfer_with_authorization_2_call_fn()),
            out@.len() == block_srcs_upto(*blk, calls_of(), f, i as int).len(),
            forall|k: int|
                0 <= k < out@.len() ==> transfer_with_authorization_2_call_rec_ok(
                    #[trigger] out@[k],
                    *blk,
                    block_srcs_upto(*blk, calls_of(), f, i as int)[k].0,
                    block_srcs_upto(*blk, calls_of(), f, i as int)[k].1,
                ),
        decreases blk.transactions@.len() - i,
    {
        let tx = &blk.transactions[i];
        let hx = hex_of(&tx.hash);
        let mut j: usize = 0;
        while j < tx.calls.len()
            invariant
                i < blk.transactions@.len(),
                *tx == blk.transactions@[i as int],
                hx@ == hex_bytes(tx.hash@),
                j <= tx.calls@.len(),
                f == src_opt(q_transfer_with_authorization_2_call_fn()),
                out@.len() == (block_srcs_upto(*blk, calls_of(), f, i as int) + tx_srcs_upto(
                    *tx,
                    tx.calls@,
                    f,
                    j as int,
                )).len(),
                forall|k: int|
                    0 <= k < out@.len() ==> transfer_with_authorization_2_call_rec_ok(
                        #[trigger] out@[k],
                        *blk,
                        (block_srcs_upto(*blk, calls_of(), f, i as int) + tx_srcs_upto(
                            *tx,
                            tx.calls@,
                            f,
                            j as int,
                        ))[k].0,
                        (block_srcs_upto(*blk, calls_of(), f, i as int) + tx_srcs_upto(
                            *tx,
                            tx.calls@,
                            f,
                            j as int,
                        ))[k].1,
                    ),
            decreases tx.calls@.len() - j,
        {
            let e = &tx.calls[j];
            let ghost pre = block_srcs_upto(*blk, calls_of(), f, i as int) + tx_srcs_upto(
                *tx,
                tx.calls@,
                f,
                j as int,
            );
            let r = dec_transfer_with_authorization_2_call(blk.number, &blk.timestamp, &hx, Ghost(tx.hash@), e);
            proof {
                assert(f(*tx, *e) == if q_transfer_with_authorization_2_call(*e) {
                    Some((*tx, *e))
                } else {
                    None::<(Transaction, Call)>
                });
                assert(tx_srcs_upto(*tx, tx.calls@, f, j + 1 as int) == tx_srcs_upto(
                    *tx,
                    tx.calls@,
                    f,
                    j as int,
                ) + match f(*tx, tx.calls@[j as int]) {
                    Some(p) => seq![p],
                    None => Seq::<(Transaction, Call)>::empty(),
                });
            }
            match r {
                Some(rec) => {
                    out.push(rec);
                    proof {
                        assert(block_srcs_upto(*blk, calls_of(), f, i as int) + tx_srcs_upto(
                            *tx,
                            tx.calls@,
                            f,
                            j + 1 as int,
                        ) =~= pre + seq![(*tx, *e)]);
                    }
                },
                None => {
                    proof {
                        assert(block_srcs_upto(*blk, calls_of(), f, i as int) + tx_srcs_upto(
                            *tx,
                            tx.calls@,
                            f,
                            j + 1 as int,
                        ) =~= pre);
                    }
                },
            }
            j += 1;
        }
        proof {
            assert(calls_of()(*tx) == tx.calls@);
            assert(tx_srcs_upto(*tx, tx.calls@, f, tx.calls@.len() as int) == tx_srcs(
                *tx,
                calls_of(),
                f,
            ));
            assert(block_srcs_upto(*blk, calls_of(), f, i + 1 as int) == block_srcs_upto(
                *blk,
                calls_of(),
                f,
                i as int,
            ) + tx_srcs(blk.transactions@[i as int], calls_of(), f));
        }
        i += 1;
    }
    proof {
        assert(transfer_with_authorization_2_call_srcs(*blk) == block_srcs_upto(
            *blk,
            calls_of(),
            f,
            blk.transactions@.len() as int,
        ));
    }
    out
}

pub const SEL_UN_BLACKLIST: u32 = 0x1a895266;

/// Whether a call is a un_blacklist call to the tracked contract whose input
/// decodes against the signature's argument layout.
pub open spec fn q_un_blacklist_call(c: Call) -> bool {
    &&& is_tracked(c.address@)
    &&& sel_is(c.input@, SEL_UN_BLACKLIST as int)
    &&& c.input@.len() >= 36
}

pub open spec fn q_un_blacklist_call_fn() -> spec_fn(Call) -> bool {
    |c: Call| q_un_blacklist_call(c)
}

/// The field contents of a un_blacklist call record built from one call.
pub open spec fn un_blacklist_call_fields(
    r: UsdcUnBlacklistCall,
    number: u64,
    ts: Timestamp,
    hash: Seq<u8>,
    c: Call,
) -> bool {
    &&& r.call_tx_hash@ == hex_str(hash)
    &&& r.call_block_time == Some(ts)
    &&& r.call_block_number == number
    &&& r.call_ordinal == c.begin_ordinal
    &&& r.call_success == !c.state_reverted
    &&& r.u_account@ == addr_at(c.input@, 4)
}

/// A un_blacklist call record as the block scan must build it from one source.
pub open spec fn un_blacklist_call_rec_ok(r: UsdcUnBlacklistCall, b: Block, t: Transaction, c: Call) -> bool {
    un_blacklist_call_fields(r, b.number, b.timestamp, t.hash@, c)
}

/// The un_blacklist call sources of a block, in traversal order.
pub open spec fn un_blacklist_call_srcs(b: Block) -> Seq<(Transaction, Call)> {
    block_srcs(b, calls_of(), src_opt(q_un_blacklist_call_fn()))
}

/// Decodes one call against the un_blacklist signature.
fn dec_un_blacklist_call(
    number: u64,
    ts: &Timestamp,
    hx: &Vec<u8>,
    hash: Ghost<Seq<u8>>,
    c: &Call,
) -> (r: Option<UsdcUnBlacklistCall>)
    requires
        hx@ == hex_bytes(hash@),
    ensures
        r is Some <==> q_un_blacklist_call(*c),
        r is Some ==> un_blacklist_call_fields(r->Some_0, number, *ts, hash@, *c),
{
    if !is_tracked_address(&c.address) {
        return None;
    }
    if !check_selector(&c.input, SEL_UN_BLACKLIST) {
        return None;
    }
    if c.input.len() < 36 {
        return None;
    }
    Some(
        UsdcUnBlacklistCall {
            call_tx_hash: hash_hex_string(hx, hash),
            call_block_time: Some(*ts),
            call_block_number: number,
            call_ordinal: c.begin_ordinal,
            call_success: !c.state_reverted,
            u_account: addr_vec_at(&c.input, 4),
        },
    )
}


/// Scans the whole block for un_blacklist_call records.
pub fn scan_un_blacklist_calls(blk: &Block) -> (out: Vec<UsdcUnBlacklistCall>)
    ensures
        out@.len() == un_blacklist_call_srcs(*blk).len(),
        forall|k: int|
            0 <= k < out@.len() ==> un_blacklist_call_rec_ok(
                #[trigger] out@[k],
                *blk,
                un_blacklist_call_srcs(*blk)[k].0,
                un_blacklist_call_srcs(*blk)[k].1,
            ),
{
    let ghost f = src_opt(q_un_blacklist_call_fn());
    let mut out: Vec<UsdcUnBlacklistCall> = Vec::new();
    let mut i: usize = 0;
    while i < blk.transactions.len()
        invariant
            i <= blk.transactions@.len(),
            f == src_opt(q_un_blacklist_call_fn()),
            out@.len() == block_srcs_upto(*blk, calls_of(), f, i as int).len(),
            forall|k: int|
                0 <= k < out@.len() ==> un_blacklist_call_rec_ok(
                    #[trigger] out@[k],
                    *blk,
                    block_srcs_upto(*blk, calls_of(), f, i as int)[k].0,
                    block_srcs_upto(*blk, calls_of(), f, i as int)[k].1,
                ),
        decreases blk.transactions@.len() - i,
    {
        let tx = &blk.transactions[i];
        let hx = hex_of(&tx.hash);
        let mut j: usize = 0;
        while j < tx.calls.len()
            invariant
                i < blk.transactions@.len(),
                *tx == blk.transactions@[i as int],
                hx@ == hex_bytes(tx.hash@),
                j <= tx.calls@.len(),
                f == src_opt(q_un_blacklist_call_fn()),
                out@.len() == (block_srcs_upto(*blk, calls_of(), f, i as int) + tx_srcs_upto(
                    *tx,
                    tx.calls@,
                    f,
                    j as int,
                )).len(),
                forall|k: int|
                    0 <= k < out@.len() ==> un_blacklist_call_rec_ok(
                        #[trigger] out@[k],
                        *blk,
                        (block_srcs_upto(*blk, calls_of(), f, i as int) + tx_srcs_upto(
                            *tx,
                            tx.calls@,
                            f,
                            j as int,
                        ))[k].0,
                        (block_srcs_upto(*blk, calls_of(), f, i as int) + tx_srcs_upto(
                            *tx,
                            tx.calls@,
                            f,
                            j as int,
                        ))[k].1,
                    ),
            decreases tx.calls@.len() - j,
        {
            let e = &tx.calls[j];
            let ghost pre = block_srcs_upto(*blk, calls_of(), f, i as int) + tx_srcs_upto(
                *tx,
                tx.calls@,
                f,
                j as int,
            );
            let r = dec_un_blacklist_call(blk.number, &blk.timestamp, &hx, Ghost(tx.hash@), e);
            proof {
                assert(f(*tx, *e) == if q_un_blacklist_call(*e) {
                    Some((*tx, *e))
                } else {
                    None::<(Transaction, Call)>
                });
                assert(tx_srcs_upto(*tx, tx.calls@, f, j + 1 as int) == tx_srcs_upto(
                    *tx,
                    tx.calls@,
                    f,
                    j as int,
                ) + match f(*tx, tx.calls@[j as int]) {
                    Some(p) => seq![p],
                    None => Seq::<(Transaction, Call)>::empty(),
                });
            }
            match r {
                Some(rec) => {
                    out.push(rec);
                    proof {
                        assert(block_srcs_upto(*blk, calls_of(), f, i as int) + tx_srcs_upto(
                            *tx,
                            tx.calls@,
                            f,
                            j + 1 as int,
                        ) =~= pre + seq![(*tx, *e)]);
                    }
                },
                None => {
                    proof {
                        assert(block_srcs_upto(*blk, calls_of(), f, i as int) + tx_srcs_upto(
                            *tx,
                            tx.calls@,
                            f,
                            j + 1 as int,
                        ) =~= pre);
                    }
                },
            }
            j += 1;
        }
        proof {
            assert(calls_of()(*tx) == tx.calls@);
            assert(tx_srcs_upto(*tx, tx.calls@, f, tx.calls@.len() as int) == tx_srcs(
                *tx,
                calls_of(),
                f,
            ));
            assert(block_srcs_upto(*blk, calls_of(), f, i + 1 as int) == block_srcs_upto(
                *blk,
                calls_of(),
                f,
                i as int,
            ) + tx_srcs(blk.transactions@[i as int], calls_of(), f));
        }
        i += 1;
    }
    proof {
        assert(un_blacklist_call_srcs(*blk) == block_srcs_upto(
            *blk,
            calls_of(),
            f,
            blk.transactions@.len() as int,
        ));
    }
    out
}

pub const SEL_UNPAUSE: u32 = 0x3f4ba83a;

/// Whether a call is a unpause call to the tracked contract whose input
/// decodes against the signature's argument layout.
pub open spec fn q_unpause_call(c: Call) -> bool {
    &&& is_tracked(c.address@)
    &&& sel_is(c.input@, SEL_UNPAUSE as int)
}

pub open spec fn q_unpause_call_fn() -> spec_fn(Call) -> bool {
    |c: Call| q_unpause_call(c)
}

/// The field contents of a unpause call record built from one call.
pub open spec fn unpause_call_fields(
    r: UsdcUnpauseCall,
    number: u64,
    ts: Timestamp,
    hash: Seq<u8>,
    c: Call,
) -> bool {
    &&& r.call_tx_hash@ == hex_str(hash)
    &&& r.call_block_time == Some(ts)
    &&& r.call_block_number == number
    &&& r.call_ordinal == c.begin_ordinal
    &&& r.call_success == !c.state_reverted
}

/// A unpause call record as the block scan must build it from one source.
pub open spec fn unpause_call_rec_ok(r: UsdcUnpauseCall, b: Block, t: Transaction, c: Call) -> bool {
    unpause_call_fields(r, b.number, b.timestamp, t.hash@, c)
}

/// The unpause call sources of a block, in traversal order.
pub open spec fn unpause_call_srcs(b: Block) -> Seq<(Transaction, Call)> {
    block_srcs(b, calls_of(), src_opt(q_unpause_call_fn()))
}

/// Decodes one call against the unpause signature.
fn dec_unpause_call(
    number: u64,
    ts: &Timestamp,
    hx: &Vec<u8>,
    hash: Ghost<Seq<u8>>,
    c: &Call,
) -> (r: Option<UsdcUnpauseCall>)
    requires
        hx@ == hex_bytes(hash@),
    ensures
        r is Some <==> q_unpause_call(*c),
        r is Some ==> unpause_call_fields(r->Some_0, number, *ts, hash@, *c),
{
    if !is_tracked_address(&c.address) {
        return None;
    }
    if !check_selector(&c.input, SEL_UNPAUSE) {
        return None;
    }
    Some(
        UsdcUnpauseCall {
            call_tx_hash: hash_hex_string(hx, hash),
            call_block_time: Some(*ts),
            call_block_number: number,
            call_ordinal: c.begin_ordinal,
            call_success: !c.state_reverted,
        },
    )
}


/// Scans the whole block for unpause_call records.
pub fn scan_unpause_calls(blk: &Block) -> (out: Vec<UsdcUnpauseCall>)
    ensures
        out@.len() == unpause_call_srcs(*blk).len(),
        forall|k: int|
            0 <= k < out@.len() ==> unpause_call_rec_ok(
                #[trigger] out@[k],
                *blk,
                unpause_call_srcs(*blk)[k].0,
                unpause_call_srcs(*blk)[k].1,
            ),
{
    let ghost f = src_opt(q_unpause_call_fn());
    let mut out: Vec<UsdcUnpauseCall> = Vec::new();
    let mut i: usize = 0;
    while i < blk.transactions.len()
        invariant
            i <= blk.transactions@.len(),
            f == src_opt(q_unpause_call_fn()),
            out@.len() == block_srcs_upto(*blk, calls_of(), f, i as int).len(),
            forall|k: int|
                0 <= k < out@.len() ==> unpause_call_rec_ok(
                    #[trigger] out@[k],
                    *blk,
                    block_srcs_upto(*blk, calls_of(), f, i as int)[k].0,
                    block_srcs_upto(*blk, calls_of(), f, i as int)[k].1,
                ),
        decreases blk.transactions@.len() - i,
    {
        let tx = &blk.transactions[i];
        let hx = hex_of(&tx.hash);
        let mut j: usize = 0;
        while j < tx.calls.len()
            invariant
                i < blk.transactions@.len(),
                *tx == blk.transactions@[i as int],
                hx@ == hex_bytes(tx.hash@),
                j <= tx.calls@.len(),
                f == src_opt(q_unpause_call_fn()),
                out@.len() == (block_srcs_upto(*blk, calls_of(), f, i as int) + tx_srcs_upto(
                    *tx,
                    tx.calls@,
                    f,
                    j as int,
                )).len(),
                forall|k: int|
                    0 <= k < out@.len() ==> unpause_call_rec_ok(
                        #[trigger] out@[k],
                        *blk,
                        (block_srcs_upto(*blk, calls_of(), f, i as int) + tx_srcs_upto(
                            *tx,
                            tx.calls@,
                            f,
                            j as int,
                        ))[k].0,
                        (block_srcs_upto(*blk, calls_of(), f, i as int) + tx_srcs_upto(
                            *tx,
                            tx.calls@,
                            f,
                            j as int,
                        ))[k].1,
                    ),
            decreases tx.calls@.len() - j,
        {
            let e = &tx.calls[j];
            let ghost pre = block_srcs_upto(*blk, calls_of(), f, i as int) + tx_srcs_upto(
                *tx,
                tx.calls@,
                f,
                j as int,
            );
            let r = dec_unpause_call(blk.number, &blk.timestamp, &hx, Ghost(tx.hash@), e);
            proof {
                assert(f(*tx, *e) == if q_unpause_call(*e) {
                    Some((*tx, *e))
                } else {
                    None::<(Transaction, Call)>
                });
                assert(tx_srcs_upto(*tx, tx.calls@, f, j + 1 as int) == tx_srcs_upto(
                    *tx,
                    tx.calls@,
                    f,
                    j as int,
                ) + match f(*tx, tx.calls@[j as int]) {
                    Some(p) => seq![p],
                    None => Seq::<(Transaction, Call)>::empty(),
                });
            }
            match r {
                Some(rec) => {
                    out.push(rec);
                    proof {
                        assert(block_srcs_upto(*blk, calls_of(), f, i as int) + tx_srcs_upto(
                            *tx,
                            tx.calls@,
                            f,
                            j + 1 as int,
                        ) =~= pre + seq![(*tx, *e)]);
                    }
                },
                None => {
                    proof {
                        assert(block_srcs_upto(*blk, calls_of(), f, i as int) + tx_srcs_upto(
                            *tx,
                            tx.calls@,
                            f,
                            j + 1 as int,
                        ) =~= pre);
                    }
                },
            }
            j += 1;
        }
        proof {
            assert(calls_of()(*tx) == tx.calls@);
            assert(tx_srcs_upto(*tx, tx.calls@, f, tx.calls@.len() as int) == tx_srcs(
                *tx,
                calls_of(),
                f,
            ));
            assert(block_srcs_upto(*blk, calls_of(), f, i + 1 as int) == block_srcs_upto(
                *blk,
                calls_of(),
                f,
                i as int,
            ) + tx_srcs(blk.transactions@[i as int], calls_of(), f));
        }
        i += 1;
    }
    proof {
        assert(unpause_call_srcs(*blk) == block_srcs_upto(
            *blk,
            calls_of(),
            f,
            blk.transactions@.len() as int,
        ));
    }
    out
}

pub const SEL_UPDATE_BLACKLISTER: u32 = 0xad38bf22;

/// Whether a call is a update_blacklister call to the tracked contract whose input
/// decodes against the signature's argument layout.
pub open spec fn q_update_blacklister_call(c: Call) -> bool {
    &&& is_tracked(c.address@)
    &&& sel_is(c.input@, SEL_UPDATE_BLACKLISTER as int)
    &&& c.input@.len() >= 36
}

pub open spec fn q_update_blacklister_call_fn() -> spec_fn(Call) -> bool {
    |c: Call| q_update_blacklister_call(c)
}

/// The field contents of a update_blacklister call record built from one call.
pub open spec fn update_blacklister_call_fields(
    r: UsdcUpdateBlacklisterCall,
    number: u64,
    ts: Timestamp,
    hash: Seq<u8>,
    c: Call,
) -> bool {
    &&& r.call_tx_hash@ == hex_str(hash)
    &&& r.call_block_time == Some(ts)
    &&& r.call_block_number == number
    &&& r.call_ordinal == c.begin_ordinal
    &&& r.call_success == !c.state_reverted
    &&& r.u_new_blacklister@ == addr_at(c.input@, 4)
}

/// A update_blacklister call record as the block scan must build it from one source.
pub open spec fn update_blacklister_call_rec_ok(r: UsdcUpdateBlacklisterCall, b: Block, t: Transaction, c: Call) -> bool {
    update_blacklister_call_fields(r, b.number, b.timestamp, t.hash@, c)
}

/// The update_blacklister call sources of a block, in traversal order.
pub open spec fn update_blacklister_call_srcs(b: Block) -> Seq<(Transaction, Call)> {
    block_srcs(b, calls_of(), src_opt(q_update_blacklister_call_fn()))
}

/// Decodes one call against the update_blacklister signature.
fn dec_update_blacklister_call(
    number: u64,
    ts: &Timestamp,
    hx: &Vec<u8>,
    hash: Ghost<Seq<u8>>,
    c: &Call,
) -> (r: Option<UsdcUpdateBlacklisterCall>)
    requires
        hx@ == hex_bytes(hash@),
    ensures
        r is Some <==> q_update_blacklister_call(*c),
        r is Some ==> update_blacklister_call_fields(r->Some_0, number, *ts, hash@, *c),
{
    if !is_tracked_address(&c.address) {
        return None;
    }
    if !check_selector(&c.input, SEL_UPDATE_BLACKLISTER) {
        return None;
    }
    if c.input.len() < 36 {
        return None;
    }
    Some(
        UsdcUpdateBlacklisterCall {
            call_tx_hash: hash_hex_string(hx, hash),
            call_block_time: Some(*ts),
            call_block_number: number,
            call_ordinal: c.begin_ordinal,
            call_success: !c.state_reverted,
            u_new_blacklister: addr_vec_at(&c.input, 4),
        },
    )
}


/// Scans the whole block for update_blacklister_call records.
pub fn scan_update_blacklister_calls(blk: &Block) -> (out: Vec<UsdcUpdateBlacklisterCall>)
    ensures
        out@.len() == update_blacklister_call_srcs(*blk).len(),
        forall|k: int|
            0 <= k < out@.len() ==> update_blacklister_call_rec_ok(
                #[trigger] out@[k],
                *blk,
                update_blacklister_call_srcs(*blk)[k].0,
                update_blacklister_call_srcs(*blk)[k].1,
            ),
{
    let ghost f = src_opt(q_update_blacklister_call_fn());
    let mut out: Vec<UsdcUpdateBlacklisterCall> = Vec::new();
    let mut i: usize = 0;
    while i < blk.transactions.len()
        invariant
            i <= blk.transactions@.len(),
            f == src_opt(q_update_blacklister_call_fn()),
            out@.len() == block_srcs_upto(*blk, calls_of(), f, i as int).len(),
            forall|k: int|
                0 <= k < out@.len() ==> update_blacklister_call_rec_ok(
                    #[trigger] out@[k],
                    *blk,
                    block_srcs_upto(*blk, calls_of(), f, i as int)[k].0,
                    block_srcs_upto(*blk, calls_of(), f, i as int)[k].1,
                ),
        decreases blk.transactions@.len() - i,
    {
        let tx = &blk.transactions[i];
        let hx = hex_of(&tx.hash);
        let mut j: usize = 0;
        while j < tx.calls.len()
            invariant
                i < blk.transactions@.len(),
                *tx == blk.transactions@[i as int],
                hx@ == hex_bytes(tx.hash@),
                j <= tx.calls@.len(),
                f == src_opt(q_update_blacklister_call_fn()),
                out@.len() == (block_srcs_upto(*blk, calls_of(), f, i as int) + tx_srcs_upto(
                    *tx,
                    tx.calls@,
                    f,
                    j as int,
                )).len(),
                forall|k: int|
                    0 <= k < out@.len() ==> update_blacklister_call_rec_ok(
                        #[trigger] out@[k],
                        *blk,
                        (block_srcs_upto(*blk, calls_of(), f, i as int) + tx_srcs_upto(
                            *tx,
                            tx.calls@,
                            f,
                            j as int,
                        ))[k].0,
                        (block_srcs_upto(*blk, calls_of(), f, i as int) + tx_srcs_upto(
                            *tx,
                            tx.calls@,
                            f,
                            j as int,
                        ))[k].1,
                    ),
            decreases tx.calls@.len() - j,
        {
            let e = &tx.calls[j];
            let ghost pre = block_srcs_upto(*blk, calls_of(), f, i as int) + tx_srcs_upto(
                *tx,
                tx.calls@,
                f,
                j as int,
            );
            let r = dec_update_blacklister_call(blk.number, &blk.timestamp, &hx, Ghost(tx.hash@), e);
            proof {
                assert(f(*tx, *e) == if q_update_blacklister_call(*e) {
                    Some((*tx, *e))
                } else {
                    None::<(Transaction, Call)>
                });
                assert(tx_srcs_upto(*tx, tx.calls@, f, j + 1 as int) == tx_srcs_upto(
                    *tx,
                    tx.calls@,
                    f,
                    j as int,
                ) + match f(*tx, tx.calls@[j as int]) {
                    Some(p) => seq![p],
                    None => Seq::<(Transaction, Call)>::empty(),
                });
            }
            match r {
                Some(rec) => {
                    out.push(rec);
                    proof {
                        assert(block_srcs_upto(*blk, calls_of(), f, i as int) + tx_srcs_upto(
                            *tx,
                            tx.calls@,
                            f,
                            j + 1 as int,
                        ) =~= pre + seq![(*tx, *e)]);
                    }
                },
                None => {
                    proof {
                        assert(block_srcs_upto(*blk, calls_of(), f, i as int) + tx_srcs_upto(
                            *tx,
                            tx.calls@,
                            f,
                            j + 1 as int,
                        ) =~= pre);
                    }
                },
            }
            j += 1;
        }
        proof {
            assert(calls_of()(*tx) == tx.calls@);
            assert(tx_srcs_upto(*tx, tx.calls@, f, tx.calls@.len() as int) == tx_srcs(
                *tx,
                calls_of(),
                f,
            ));
            assert(block_srcs_upto(*blk, calls_of(), f, i + 1 as int) == block_srcs_upto(
                *blk,
                calls_of(),
                f,
                i as int,
            ) + tx_srcs(blk.transactions@[i as int], calls_of(), f));
        }
        i += 1;
    }
    proof {
        assert(update_blacklister_call_srcs(*blk) == block_srcs_upto(
            *blk,
            calls_of(),
            f,
            blk.transactions@.len() as int,
        ));
    }
    out
}

pub const SEL_UPDATE_MASTER_MINTER: u32 = 0xaa20e1e4;

/// Whether a call is a update_master_minter call to the tracked contract whose input
/// decodes against the signature's argument layout.
pub open spec fn q_update_master_minter_call(c: Call) -> bool {
    &&& is_tracked(c.address@)
    &&& sel_is(c.input@, SEL_UPDATE_MASTER_MINTER as int)
    &&& c.input@.len() >= 36
}

pub open spec fn q_update_master_minter_call_fn() -> spec_fn(Call) -> bool {
    |c: Call| q_update_master_minter_call(c)
}

/// The field contents of a update_master_minter call record built from one call.
pub open spec fn update_master_minter_call_fields(
    r: UsdcUpdateMasterMinterCall,
    number: u64,
    ts: Timestamp,
    hash: Seq<u8>,
    c: Call,
) -> bool {
    &&& r.call_tx_hash@ == hex_str(hash)
    &&& r.call_block_time == Some(ts)
    &&& r.call_block_number == number
    &&& r.call_ordinal == c.begin_ordinal
    &&& r.call_success == !c.state_reverted
    &&& r.u_new_master_minter@ == addr_at(c.input@, 4)
}

/// A update_master_minter call record as the block scan must build it from one source.
pub open spec fn update_master_minter_call_rec_ok(r: UsdcUpdateMasterMinterCall, b: Block, t: Transaction, c: Call) -> bool {
    update_master_minter_call_fields(r, b.number, b.timestamp, t.hash@, c)
}

/// The update_master_minter call sources of a block, in traversal order.
pub open spec fn update_master_minter_call_srcs(b: Block) -> Seq<(Transaction, Call)> {
    block_srcs(b, calls_of(), src_opt(q_update_master_minter_call_fn()))
}

/// Decodes one call against the update_master_minter signature.
fn dec_update_master_minter_call(
    number: u64,
    ts: &Timestamp,
    hx: &Vec<u8>,
    hash: Ghost<Seq<u8>>,
    c: &Call,
) -> (r: Option<UsdcUpdateMasterMinterCall>)
    requires
        hx@ == hex_bytes(hash@),
    ensures
        r is Some <==> q_update_master_minter_call(*c),
        r is Some ==> update_master_minter_call_fields(r->Some_0, number, *ts, hash@, *c),
{
    if !is_tracked_address(&c.address) {
        return None;
    }
    if !check_selector(&c.input, SEL_UPDATE_MASTER_MINTER) {
        return None;
    }
    if c.input.len() < 36 {
        return None;
    }
    Some(
        UsdcUpdateMasterMinterCall {
            call_tx_hash: hash_hex_string(hx, hash),
            call_block_time: Some(*ts),
            call_block_number: number,
            call_ordinal: c.begin_ordinal,
            call_success: !c.state_reverted,
            u_new_master_minter: addr_vec_at(&c.input, 4),
        },
    )
}


/// Scans the whole block for update_master_minter_call records.
pub fn scan_update_master_minter_calls(blk: &Block) -> (out: Vec<UsdcUpdateMasterMinterCall>)
    ensures
        out@.len() == update_master_minter_call_srcs(*blk).len(),
        forall|k: int|
            0 <= k < out@.len() ==> update_master_minter_call_rec_ok(
                #[trigger] out@[k],
                *blk,
                update_master_minter_call_srcs(*blk)[k].0,
                update_master_minter_call_srcs(*blk)[k].1,
            ),
{
    let ghost f = src_opt(q_update_master_minter_call_fn());
    let mut out: Vec<UsdcUpdateMasterMinterCall> = Vec::new();
    let mut i: usize = 0;
    while i < blk.transactions.len()
        invariant
            i <= blk.transactions@.len(),
            f == src_opt(q_update_master_minter_call_fn()),
            out@.len() == block_srcs_upto(*blk, calls_of(), f, i as int).len(),
            forall|k: int|
                0 <= k < out@.len() ==> update_master_minter_call_rec_ok(
                    #[trigger] out@[k],
                    *blk,
                    block_srcs_upto(*blk, calls_of(), f, i as int)[k].0,
                    block_srcs_upto(*blk, calls_of(), f, i as int)[k].1,
                ),
        decreases blk.transactions@.len() - i,
    {
        let tx = &blk.transactions[i];
        let hx = hex_of(&tx.hash);
        let mut j: usize = 0;
        while j < tx.calls.len()
            invariant
                i < blk.transactions@.len(),
                *tx == blk.transactions@[i as int],
                hx@ == hex_bytes(tx.hash@),
                j <= tx.calls@.len(),
                f == src_opt(q_update_master_minter_call_fn()),
                out@.len() == (block_srcs_upto(*blk, calls_of(), f, i as int) + tx_srcs_upto(
                    *tx,
                    tx.calls@,
                    f,
                    j as int,
                )).len(),
                forall|k: int|
                    0 <= k < out@.len() ==> update_master_minter_call_rec_ok(
                        #[trigger] out@[k],
                        *blk,
                        (block_srcs_upto(*blk, calls_of(), f, i as int) + tx_srcs_upto(
                            *tx,
                            tx.calls@,
                            f,
                            j as int,
                        ))[k].0,
                        (block_srcs_upto(*blk, calls_of(), f, i as int) + tx_srcs_upto(
                            *tx,
                            tx.calls@,
                            f,
                            j as int,
                        ))[k].1,
                    ),
            decreases tx.calls@.len() - j,
        {
            let e = &tx.calls[j];
            let ghost pre = block_srcs_upto(*blk, calls_of(), f, i as int) + tx_srcs_upto(
                *tx,
                tx.calls@,
                f,
                j as int,
            );
            let r = dec_update_master_minter_call(blk.number, &blk.timestamp, &hx, Ghost(tx.hash@), e);
            proof {
                assert(f(*tx, *e) == if q_update_master_minter_call(*e) {
                    Some((*tx, *e))
                } else {
                    None::<(Transaction, Call)>
                });
                assert(tx_srcs_upto(*tx, tx.calls@, f, j + 1 as int) == tx_srcs_upto(
                    *tx,
                    tx.calls@,
                    f,
                    j as int,
                ) + match f(*tx, tx.calls@[j as int]) {
                    Some(p) => seq![p],
                    None => Seq::<(Transaction, Call)>::empty(),
                });
            }
            match r {
                Some(rec) => {
                    out.push(rec);
                    proof {
                        assert(block_srcs_upto(*blk, calls_of(), f, i as int) + tx_srcs_upto(
                            *tx,
                            tx.calls@,
                            f,
                            j + 1 as int,
                        ) =~= pre + seq![(*tx, *e)]);
                    }
                },
                None => {
                    proof {
                        assert(block_srcs_upto(*blk, calls_of(), f, i as int) + tx_srcs_upto(
                            *tx,
                            tx.calls@,
                            f,
                            j + 1 as int,
                        ) =~= pre);
                    }
                },
            }
            j += 1;
        }
        proof {
            assert(calls_of()(*tx) == tx.calls@);
            assert(tx_srcs_upto(*tx, tx.calls@, f, tx.calls@.len() as int) == tx_srcs(
                *tx,
                calls_of(),
                f,
            ));
            assert(block_srcs_upto(*blk, calls_of(), f, i + 1 as int) == block_srcs_upto(
                *blk,
                calls_of(),
                f,
                i as int,
            ) + tx_srcs(blk.transactions@[i as int], calls_of(), f));
        }
        i += 1;
    }
    proof {
        assert(update_master_minter_call_srcs(*blk) == block_srcs_upto(
            *blk,
            calls_of(),
            f,
            blk.transactions@.len() as int,
        ));
    }
    out
}

pub const SEL_UPDATE_PAUSER: u32 = 0x554bab3c;

/// Whether a call is a update_pauser call to the tracked contract whose input
/// decodes against the signature's argument layout.
pub open spec fn q_update_pauser_call(c: Call) -> bool {
    &&& is_tracked(c.address@)
    &&& sel_is(c.input@, SEL_UPDATE_PAUSER as int)
    &&& c.input@.len() >= 36
}

pub open spec fn q_update_pauser_call_fn() -> spec_fn(Call) -> bool {
    |c: Call| q_update_pauser_call(c)
}

/// The field contents of a update_pauser call record built from one call.
pub open spec fn update_pauser_call_fields(
    r: UsdcUpdatePauserCall,
    number: u64,
    ts: Timestamp,
    hash: Seq<u8>,
    c: Call,
) -> bool {
    &&& r.call_tx_hash@ == hex_str(hash)
    &&& r.call_block_time == Some(ts)
    &&& r.call_block_number == number
    &&& r.call_ordinal == c.begin_ordinal
    &&& r.call_success == !c.state_reverted
    &&& r.u_new_pauser@ == addr_at(c.input@, 4)
}

/// A update_pauser call record as the block scan must build it from one source.
pub open spec fn update_pauser_call_rec_ok(r: UsdcUpdatePauserCall, b: Block, t: Transaction, c: Call) -> bool {
    update_pauser_call_fields(r, b.number, b.timestamp, t.hash@, c)
}

/// The update_pauser call sources of a block, in traversal order.
pub open spec fn update_pauser_call_srcs(b: Block) -> Seq<(Transaction, Call)> {
    block_srcs(b, calls_of(), src_opt(q_update_pauser_call_fn()))
}

/// Decodes one call against the update_pauser signature.
fn dec_update_pauser_call(
    number: u64,
    ts: &Timestamp,
    hx: &Vec<u8>,
    hash: Ghost<Seq<u8>>,
    c: &Call,
) -> (r: Option<UsdcUpdatePauserCall>)
    requires
        hx@ == hex_bytes(hash@),
    ensures
        r is Some <==> q_update_pauser_call(*c),
        r is Some ==> update_pauser_call_fields(r->Some_0, number, *ts, hash@, *c),
{
    if !is_tracked_address(&c.address) {
        return None;
    }
    if !check_selector(&c.input, SEL_UPDATE_PAUSER) {
        return None;
    }
    if c.input.len() < 36 {
        return None;
    }
    Some(
        UsdcUpdatePauserCall {
            call_tx_hash: hash_hex_string(hx, hash),
            call_block_time: Some(*ts),
            call_block_number: number,
            call_ordinal: c.begin_ordinal,
            call_success: !c.state_reverted,
            u_new_pauser: addr_vec_at(&c.input, 4),
        },
    )
}


/// Scans the whole block for update_pauser_call records.
pub fn scan_update_pauser_calls(blk: &Block) -> (out: Vec<UsdcUpdatePauserCall>)
    ensures
        out@.len() == update_pauser_call_srcs(*blk).len(),
        forall|k: int|
            0 <= k < out@.len() ==> update_pauser_call_rec_ok(
                #[trigger] out@[k],
                *blk,
                update_pauser_call_srcs(*blk)[k].0,
                update_pauser_call_srcs(*blk)[k].1,
            ),
{
    let ghost f = src_opt(q_update_pauser_call_fn());
    let mut out: Vec<UsdcUpdatePauserCall> = Vec::new();
    let mut i: usize = 0;
    while i < blk.transactions.len()
        invariant
            i <= blk.transactions@.len(),
            f == src_opt(q_update_pauser_call_fn()),
            out@.len() == block_srcs_upto(*blk, calls_of(), f, i as int).len(),
            forall|k: int|
                0 <= k < out@.len() ==> update_pauser_call_rec_ok(
                    #[trigger] out@[k],
                    *blk,
                    block_srcs_upto(*blk, calls_of(), f, i as int)[k].0,
                    block_srcs_upto(*blk, calls_of(), f, i as int)[k].1,
                ),
        decreases blk.transactions@.len() - i,
    {
        let tx = &blk.transactions[i];
        let hx = hex_of(&tx.hash);
        let mut j: usize = 0;
        while j < tx.calls.len()
            invariant
                i < blk.transactions@.len(),
                *tx == blk.transactions@[i as int],
                hx@ == hex_bytes(tx.hash@),
                j <= tx.calls@.len(),
                f == src_opt(q_update_pauser_call_fn()),
                out@.len() == (block_srcs_upto(*blk, calls_of(), f, i as int) + tx_srcs_upto(
                    *tx,
                    tx.calls@,
                    f,
                    j as int,
                )).len(),
                forall|k: int|
                    0 <= k < out@.len() ==> update_pauser_call_rec_ok(
                        #[trigger] out@[k],
                        *blk,
                        (block_srcs_upto(*blk, calls_of(), f, i as int) + tx_srcs_upto(
                            *tx,
                            tx.calls@,
                            f,
                            j as int,
                        ))[k].0,
                        (block_srcs_upto(*blk, calls_of(), f, i as int) + tx_srcs_upto(
                            *tx,
                            tx.calls@,
                            f,
                            j as int,
                        ))[k].1,
                    ),
            decreases tx.calls@.len() - j,
        {
            let e = &tx.calls[j];
            let ghost pre = block_srcs_upto(*blk, calls_of(), f, i as int) + tx_srcs_upto(
                *tx,
                tx.calls@,
                f,
                j as int,
            );
            let r = dec_update_pauser_call(blk.number, &blk.timestamp, &hx, Ghost(tx.hash@), e);
            proof {
                assert(f(*tx, *e) == if q_update_pauser_call(*e) {
                    Some((*tx, *e))
                } else {
                    None::<(Transaction, Call)>
                });
                assert(tx_srcs_upto(*tx, tx.calls@, f, j + 1 as int) == tx_srcs_upto(
                    *tx,
                    tx.calls@,
                    f,
                    j as int,
                ) + match f(*tx, tx.calls@[j as int]) {
                    Some(p) => seq![p],
                    None => Seq::<(Transaction, Call)>::empty(),
                });
            }
            match r {
                Some(rec) => {
                    out.push(rec);
                    proof {
                        assert(block_srcs_upto(*blk, calls_of(), f, i as int) + tx_srcs_upto(
                            *tx,
                            tx.calls@,
                            f,
                            j + 1 as int,
                        ) =~= pre + seq![(*tx, *e)]);
                    }
                },
                None => {
                    proof {
                        assert(block_srcs_upto(*blk, calls_of(), f, i as int) + tx_srcs_upto(
                            *tx,
                            tx.calls@,
                            f,
                            j + 1 as int,
                        ) =~= pre);
                    }
                },
            }
            j += 1;
        }
        proof {
            assert(calls_of()(*tx) == tx.calls@);
            assert(tx_srcs_upto(*tx, tx.calls@, f, tx.calls@.len() as int) == tx_srcs(
                *tx,
                calls_of(),
                f,
            ));
            assert(block_srcs_upto(*blk, calls_of(), f, i + 1 as int) == block_srcs_upto(
                *blk,
                calls_of(),
                f,
                i as int,
            ) + tx_srcs(blk.transactions@[i as int], calls_of(), f));
        }
        i += 1;
    }
    proof {
        assert(update_pauser_call_srcs(*blk) == block_srcs_upto(
            *blk,
            calls_of(),
            f,
            blk.transactions@.len() as int,
        ));
    }
    out
}

pub const SEL_UPDATE_RESCUER: u32 = 0x2ab60045;

/// Whether a call is a update_rescuer call to the tracked contract whose input
/// decodes against the signature's argument layout.
pub open spec fn q_update_rescuer_call(c: Call) -> bool {
    &&& is_tracked(c.address@)
    &&& sel_is(c.input@, SEL_UPDATE_RESCUER as int)
    &&& c.input@.len() >= 36
}

pub open spec fn q_update_rescuer_call_fn() -> spec_fn(Call) -> bool {
    |c: Call| q_update_rescuer_call(c)
}

/// The field contents of a update_rescuer call record built from one call.
pub open spec fn update_rescuer_call_fields(
    r: UsdcUpdateRescuerCall,
    number: u64,
    ts: Timestamp,
    hash: Seq<u8>,
    c: Call,
) -> bool {
    &&& r.call_tx_hash@ == hex_str(hash)
    &&& r.call_block_time == Some(ts)
    &&& r.call_block_number == number
    &&& r.call_ordinal == c.begin_ordinal
    &&& r.call_success == !c.state_reverted
    &&& r.new_rescuer@ == addr_at(c.input@, 4)
}

/// A update_rescuer call record as the block scan must build it from one source.
pub open spec fn update_rescuer_call_rec_ok(r: UsdcUpdateRescuerCall, b: Block, t: Transaction, c: Call) -> bool {
    update_rescuer_call_fields(r, b.number, b.timestamp, t.hash@, c)
}

/// The update_rescuer call sources of a block, in traversal order.
pub open spec fn update_rescuer_call_srcs(b: Block) -> Seq<(Transaction, Call)> {
    block_srcs(b, calls_of(), src_opt(q_update_rescuer_call_fn()))
}

/// Decodes one call against the update_rescuer signature.
fn dec_update_rescuer_call(
    number: u64,
    ts: &Timestamp,
    hx: &Vec<u8>,
    hash: Ghost<Seq<u8>>,
    c: &Call,
) -> (r: Option<UsdcUpdateRescuerCall>)
    requires
        hx@ == hex_bytes(hash@),
    ensures
        r is Some <==> q_update_rescuer_call(*c),
        r is Some ==> update_rescuer_call_fields(r->Some_0, number, *ts, hash@, *c),
{
    if !is_tracked_address(&c.address) {
        return None;
    }
    if !check_selector(&c.input, SEL_UPDATE_RESCUER) {
        return None;
    }
    if c.input.len() < 36 {
        return None;
    }
    Some(
        UsdcUpdateRescuerCall {
            call_tx_hash: hash_hex_string(hx, hash),
            call_block_time: Some(*ts),
            call_block_number: number,
            call_ordinal: c.begin_ordinal,
            call_success: !c.state_reverted,
            new_rescuer: addr_vec_at(&c.input, 4),
        },
    )
}


/// Scans the whole block for update_rescuer_call records.
pub fn scan_update_rescuer_calls(blk: &Block) -> (out: Vec<UsdcUpdateRescuerCall>)
    ensures
        out@.len() == update_rescuer_call_srcs(*blk).len(),
        forall|k: int|
            0 <= k < out@.len() ==> update_rescuer_call_rec_ok(
                #[trigger] out@[k],
                *blk,
                update_rescuer_call_srcs(*blk)[k].0,
                update_rescuer_call_srcs(*blk)[k].1,
            ),
{
    let ghost f = src_opt(q_update_rescuer_call_fn());
    let mut out: Vec<UsdcUpdateRescuerCall> = Vec::new();
    let mut i: usize = 0;
    while i < blk.transactions.len()
        invariant
            i <= blk.transactions@.len(),
            f == src_opt(q_update_rescuer_call_fn()),
            out@.len() == block_srcs_upto(*blk, calls_of(), f, i as int).len(),
            forall|k: int|
                0 <= k < out@.len() ==> update_rescuer_call_rec_ok(
                    #[trigger] out@[k],
                    *blk,
                    block_srcs_upto(*blk, calls_of(), f, i as int)[k].0,
                    block_srcs_upto(*blk, calls_of(), f, i as int)[k].1,
                ),
        decreases blk.transactions@.len() - i,
    {
        let tx = &blk.transactions[i];
        let hx = hex_of(&tx.hash);
        let mut j: usize = 0;
        while j < tx.calls.len()
            invariant
                i < blk.transactions@.len(),
                *tx == blk.transactions@[i as int],
                hx@ == hex_bytes(tx.hash@),
                j <= tx.calls@.len(),
                f == src_opt(q_update_rescuer_call_fn()),
                out@.len() == (block_srcs_upto(*blk, calls_of(), f, i as int) + tx_srcs_upto(
                    *tx,
                    tx.calls@,
                    f,
                    j as int,
                )).len(),
                forall|k: int|
                    0 <= k < out@.len() ==> update_rescuer_call_rec_ok(
                        #[trigger] out@[k],
                        *blk,
                        (block_srcs_upto(*blk, calls_of(), f, i as int) + tx_srcs_upto(
                            *tx,
                            tx.calls@,
                            f,
                            j as int,
                        ))[k].0,
                        (block_srcs_upto(*blk, calls_of(), f, i as int) + tx_srcs_upto(
                            *tx,
                            tx.calls@,
                            f,
                            j as int,
                        ))[k].1,
                    ),
            decreases tx.calls@.len() - j,
        {
            let e = &tx.calls[j];
            let ghost pre = block_srcs_upto(*blk, calls_of(), f, i as int) + tx_srcs_upto(
                *tx,
                tx.calls@,
                f,
                j as int,
            );
            let r = dec_update_rescuer_call(blk.number, &blk.timestamp, &hx, Ghost(tx.hash@), e);
            proof {
                assert(f(*tx, *e) == if q_update_rescuer_call(*e) {
                    Some((*tx, *e))
                } else {
                    None::<(Transaction, Call)>
                });
                assert(tx_srcs_upto(*tx, tx.calls@, f, j + 1 as int) == tx_srcs_upto(
                    *tx,
                    tx.calls@,
                    f,
                    j as int,
                ) + match f(*tx, tx.calls@[j as int]) {
                    Some(p) => seq![p],
                    None => Seq::<(Transaction, Call)>::empty(),
                });
            }
            match r {
                Some(rec) => {
                    out.push(rec);
                    proof {
                        assert(block_srcs_upto(*blk, calls_of(), f, i as int) + tx_srcs_upto(
                            *tx,
                            tx.calls@,
                            f,
                            j + 1 as int,
                        ) =~= pre + seq![(*tx, *e)]);
                    }
                },
                None => {
                    proof {
                        assert(block_srcs_upto(*blk, calls_of(), f, i as int) + tx_srcs_upto(
                            *tx,
                            tx.calls@,
                            f,
                            j + 1 as int,
                        ) =~= pre);
                    }
                },
            }
            j += 1;
        }
        proof {
            assert(calls_of()(*tx) == tx.calls@);
            assert(tx_srcs_upto(*tx, tx.calls@, f, tx.calls@.len() as int) == tx_srcs(
                *tx,
                calls_of(),
                f,
            ));
            assert(block_srcs_upto(*blk, calls_of(), f, i + 1 as int) == block_srcs_upto(
                *blk,
                calls_of(),
                f,
                i as int,
            ) + tx_srcs(blk.transactions@[i as int], calls_of(), f));
        }
        i += 1;
    }
    proof {
        assert(update_rescuer_call_srcs(*blk) == block_srcs_upto(
            *blk,
            calls_of(),
            f,
            blk.transactions@.len() as int,
        ));
    }
    out
}

pub const SEL_UPGRADE_TO: u32 = 0x3659cfe6;

/// Whether a call is a upgrade_to call to the tracked contract whose input
/// decodes against the signature's argument layout.
pub open spec fn q_upgrade_to_call(c: Call) -> bool {
    &&& is_tracked(c.address@)
    &&& sel_is(c.input@, SEL_UPGRADE_TO as int)
    &&& c.input@.len() >= 36
}

pub open spec fn q_upgrade_to_call_fn() -> spec_fn(Call) -> bool {
    |c: Call| q_upgrade_to_call(c)
}

/// The field contents of a upgrade_to call record built from one call.
pub open spec fn upgrade_to_call_fields(
    r: UsdcUpgradeToCall,
    number: u64,
    ts: Timestamp,
    hash: Seq<u8>,
    c: Call,
) -> bool {
    &&& r.call_tx_hash@ == hex_str(hash)
    &&& r.call_block_time == Some(ts)
    &&& r.call_block_number == number
    &&& r.call_ordinal == c.begin_ordinal
    &&& r.call_success == !c.state_reverted
    &&& r.new_implementation@ == addr_at(c.input@, 4)
}

/// A upgrade_to call record as the block scan must build it from one source.
pub open spec fn upgrade_to_call_rec_ok(r: UsdcUpgradeToCall, b: Block, t: Transaction, c: Call) -> bool {
    upgrade_to_call_fields(r, b.number, b.timestamp, t.hash@, c)
}

/// The upgrade_to call sources of a block, in traversal order.
pub open spec fn upgrade_to_call_srcs(b: Block) -> Seq<(Transaction, Call)> {
    block_srcs(b, calls_of(), src_opt(q_upgrade_to_call_fn()))
}

/// Decodes one call against the upgrade_to signature.
fn dec_upgrade_to_call(
    number: u64,
    ts: &Timestamp,
    hx: &Vec<u8>,
    hash: Ghost<Seq<u8>>,
    c: &Call,
) -> (r: Option<UsdcUpgradeToCall>)
    requires
        hx@ == hex_bytes(hash@),
    ensures
        r is Some <==> q_upgrade_to_call(*c),
        r is Some ==> upgrade_to_call_fields(r->Some_0, number, *ts, hash@, *c),
{
    if !is_tracked_address(&c.address) {
        return None;
    }
    if !check_selector(&c.input, SEL_UPGRADE_TO) {
        return None;
    }
    if c.input.len() < 36 {
        return None;
    }
    Some(
        UsdcUpgradeToCall {
            call_tx_hash: hash_hex_string(hx, hash),
            call_block_time: Some(*ts),
            call_block_number: number,
            call_ordinal: c.begin_ordinal,
            call_success: !c.state_reverted,
            new_implementation: addr_vec_at(&c.input, 4),
        },
    )
}


/// Scans the whole block for upgrade_to_call records.
pub fn scan_upgrade_to_calls(blk: &Block) -> (out: Vec<UsdcUpgradeToCall>)
    ensures
        out@.len() == upgrade_to_call_srcs(*blk).len(),
        forall|k: int|
            0 <= k < out@.len() ==> upgrade_to_call_rec_ok(
                #[trigger] out@[k],
                *blk,
                upgrade_to_call_srcs(*blk)[k].0,
                upgrade_to_call_srcs(*blk)[k].1,
            ),
{
    let ghost f = src_opt(q_upgrade_to_call_fn());
    let mut out: Vec<UsdcUpgradeToCall> = Vec::new();
    let mut i: usize = 0;
    while i < blk.transactions.len()
        invariant
            i <= blk.transactions@.len(),
            f == src_opt(q_upgrade_to_call_fn()),
            out@.len() == block_srcs_upto(*blk, calls_of(), f, i as int).len(),
            forall|k: int|
                0 <= k < out@.len() ==> upgrade_to_call_rec_ok(
                    #[trigger] out@[k],
                    *blk,
                    block_srcs_upto(*blk, calls_of(), f, i as int)[k].0,
                    block_srcs_upto(*blk, calls_of(), f, i as int)[k].1,
                ),
        decreases blk.transactions@.len() - i,
    {
        let tx = &blk.transactions[i];
        let hx = hex_of(&tx.hash);
        let mut j: usize = 0;
        while j < tx.calls.len()
            invariant
                i < blk.transactions@.len(),
                *tx == blk.transactions@[i as int],
                hx@ == hex_bytes(tx.hash@),
                j <= tx.calls@.len(),
                f == src_opt(q_upgrade_to_call_fn()),
                out@.len() == (block_srcs_upto(*blk, calls_of(), f, i as int) + tx_srcs_upto(
                    *tx,
                    tx.calls@,
                    f,
                    j as int,
                )).len(),
                forall|k: int|
                    0 <= k < out@.len() ==> upgrade_to_call_rec_ok(
                        #[trigger] out@[k],
                        *blk,
                        (block_srcs_upto(*blk, calls_of(), f, i as int) + tx_srcs_upto(
                            *tx,
                            tx.calls@,
                            f,
                            j as int,
                        ))[k].0,
                        (block_srcs_upto(*blk, calls_of(), f, i as int) + tx_srcs_upto(
                            *tx,
                            tx.calls@,
                            f,
                            j as int,
                        ))[k].1,
                    ),
            decreases tx.calls@.len() - j,
        {
            let e = &tx.calls[j];
            let ghost pre = block_srcs_upto(*blk, calls_of(), f, i as int) + tx_srcs_upto(
                *tx,
                tx.calls@,
                f,
                j as int,
            );
            let r = dec_upgrade_to_call(blk.number, &blk.timestamp, &hx, Ghost(tx.hash@), e);
            proof {
                assert(f(*tx, *e) == if q_upgrade_to_call(*e) {
                    Some((*tx, *e))
                } else {
                    None::<(Transaction, Call)>
                });
                assert(tx_srcs_upto(*tx, tx.calls@, f, j + 1 as int) == tx_srcs_upto(
                    *tx,
                    tx.calls@,
                    f,
                    j as int,
                ) + match f(*tx, tx.calls@[j as int]) {
                    Some(p) => seq![p],
                    None => Seq::<(Transaction, Call)>::empty(),
                });
            }
            match r {
                Some(rec) => {
                    out.push(rec);
                    proof {
                        assert(block_srcs_upto(*blk, calls_of(), f, i as int) + tx_srcs_upto(
                            *tx,
                            tx.calls@,
                            f,
                            j + 1 as int,
                        ) =~= pre + seq![(*tx, *e)]);
                    }
                },
                None => {
                    proof {
                        assert(block_srcs_upto(*blk, calls_of(), f, i as int) + tx_srcs_upto(
                            *tx,
                            tx.calls@,
                            f,
                            j + 1 as int,
                        ) =~= pre);
                    }
                },
            }
            j += 1;
        }
        proof {
            assert(calls_of()(*tx) == tx.calls@);
            assert(tx_srcs_upto(*tx, tx.calls@, f, tx.calls@.len() as int) == tx_srcs(
                *tx,
                calls_of(),
                f,
            ));
            assert(block_srcs_upto(*blk, calls_of(), f, i + 1 as int) == block_srcs_upto(
                *blk,
                calls_of(),
                f,
                i as int,
            ) + tx_srcs(blk.transactions@[i as int], calls_of(), f));
        }
        i += 1;
    }
    proof {
        assert(upgrade_to_call_srcs(*blk) == block_srcs_upto(
            *blk,
            calls_of(),
            f,
            blk.transactions@.len() as int,
        ));
    }
    out
}

pub const SEL_UPGRADE_TO_AND_CALL: u32 = 0x4f1ef286;

/// Whether a call is a upgrade_to_and_call call to the tracked contract whose input
/// decodes against the signature's argument layout.
pub open spec fn q_upgrade_to_and_call_call(c: Call) -> bool {
    &&& is_tracked(c.address@)
    &&& sel_is(c.input@, SEL_UPGRADE_TO_AND_CALL as int)
    &&& c.input@.len() >= 68
    &&& dyn_ok(c.input@, 4, 1)
}

pub open spec fn q_upgrade_to_and_call_call_fn() -> spec_fn(Call) -> bool {
    |c: Call| q_upgrade_to_and_call_call(c)
}

/// The field contents of a upgrade_to_and_call call record built from one call.
pub open spec fn upgrade_to_and_call_call_fields(
    r: UsdcUpgradeToAndCallCall,
    number: u64,
    ts: Timestamp,
    hash: Seq<u8>,
    c: Call,
) -> bool {
    &&& r.call_tx_hash@ == hex_str(hash)
    &&& r.call_block_time == Some(ts)
    &&& r.call_block_number == number
    &&& r.call_ordinal == c.begin_ordinal
    &&& r.call_success == !c.state_reverted
    &&& r.new_implementation@ == addr_at(c.input@, 4)
    &&& r.data@ == dyn_bytes(c.input@, 4, 1)
}

/// A upgrade_to_and_call call record as the block scan must build it from one source.
pub open spec fn upgrade_to_and_call_call_rec_ok(r: UsdcUpgradeToAndCallCall, b: Block, t: Transaction, c: Call) -> bool {
    upgrade_to_and_call_call_fields(r, b.number, b.timestamp, t.hash@, c)
}

/// The upgrade_to_and_call call sources of a block, in traversal order.
pub open spec fn upgrade_to_and_call_call_srcs(b: Block) -> Seq<(Transaction, Call)> {
    block_srcs(b, calls_of(), src_opt(q_upgrade_to_and_call_call_fn()))
}

/// Decodes one call against the upgrade_to_and_call signature.
fn dec_upgrade_to_and_call_call(
    number: u64,
    ts: &Timestamp,
    hx: &Vec<u8>,
    hash: Ghost<Seq<u8>>,
    c: &Call,
) -> (r: Option<UsdcUpgradeToAndCallCall>)
    requires
        hx@ == hex_bytes(hash@),
    ensures
        r is Some <==> q_upgrade_to_and_call_call(*c),
        r is Some ==> upgrade_to_and_call_call_fields(r->Some_0, number, *ts, hash@, *c),
{
    if !is_tracked_address(&c.address) {
        return None;
    }
    if !check_selector(&c.input, SEL_UPGRADE_TO_AND_CALL) {
        return None;
    }
    if c.input.len() < 68 {
        return None;
    }
    let p_data = match decode_dyn_bytes(&c.input, 4, 1) {
        Some(x) => x,
        None => {
            return None;
        },
    };
    Some(
        UsdcUpgradeToAndCallCall {
            call_tx_hash: hash_hex_string(hx, hash),
            call_block_time: Some(*ts),
            call_block_number: number,
            call_ordinal: c.begin_ordinal,
            call_success: !c.state_reverted,
            new_implementation: addr_vec_at(&c.input, 4),
            data: p_data,
        },
    )
}


/// Scans the whole block for upgrade_to_and_call_call records.
pub fn scan_upgrade_to_and_call_calls(blk: &Block) -> (out: Vec<UsdcUpgradeToAndCallCall>)
    ensures
        out@.len() == upgrade_to_and_call_call_srcs(*blk).len(),
        forall|k: int|
            0 <= k < out@.len() ==> upgrade_to_and_call_call_rec_ok(
                #[trigger] out@[k],
                *blk,
                upgrade_to_and_call_call_srcs(*blk)[k].0,
                upgrade_to_and_call_call_srcs(*blk)[k].1,
            ),
{
    let ghost f = src_opt(q_upgrade_to_and_call_call_fn());
    let mut out: Vec<UsdcUpgradeToAndCallCall> = Vec::new();
    let mut i: usize = 0;
    while i < blk.transactions.len()
        invariant
            i <= blk.transactions@.len(),
            f == src_opt(q_upgrade_to_and_call_call_fn()),
            out@.len() == block_srcs_upto(*blk, calls_of(), f, i as int).len(),
            forall|k: int|
                0 <= k < out@.len() ==> upgrade_to_and_call_call_rec_ok(
                    #[trigger] out@[k],
                    *blk,
                    block_srcs_upto(*blk, calls_of(), f, i as int)[k].0,
                    block_srcs_upto(*blk, calls_of(), f, i as int)[k].1,
                ),
        decreases blk.transactions@.len() - i,
    {
        let tx = &blk.transactions[i];
        let hx = hex_of(&tx.hash);
        let mut j: usize = 0;
        while j < tx.calls.len()
            invariant
                i < blk.transactions@.len(),
                *tx == blk.transactions@[i as int],
                hx@ == hex_bytes(tx.hash@),
                j <= tx.calls@.len(),
                f == src_opt(q_upgrade_to_and_call_call_fn()),
                out@.len() == (block_srcs_upto(*blk, calls_of(), f, i as int) + tx_srcs_upto(
                    *tx,
                    tx.calls@,
                    f,
                    j as int,
                )).len(),
                forall|k: int|
                    0 <= k < out@.len() ==> upgrade_to_and_call_call_rec_ok(
                        #[trigger] out@[k],
                        *blk,
                        (block_srcs_upto(*blk, calls_of(), f, i as int) + tx_srcs_upto(
                            *tx,
                            tx.calls@,
                            f,
                            j as int,
                        ))[k].0,
                        (block_srcs_upto(*blk, calls_of(), f, i as int) + tx_srcs_upto(
                            *tx,
                            tx.calls@,
                            f,
                            j as int,
                        ))[k].1,
                    ),
            decreases tx.calls@.len() - j,
        {
            let e = &tx.calls[j];
            let ghost pre = block_srcs_upto(*blk, calls_of(), f, i as int) + tx_srcs_upto(
                *tx,
                tx.calls@,
                f,
                j as int,
            );
            let r = dec_upgrade_to_and_call_call(blk.number, &blk.timestamp, &hx, Ghost(tx.hash@), e);
            proof {
                assert(f(*tx, *e) == if q_upgrade_to_and_call_call(*e) {
                    Some((*tx, *e))
                } else {
                    None::<(Transaction, Call)>
                });
                assert(tx_srcs_upto(*tx, tx.calls@, f, j + 1 as int) == tx_srcs_upto(
                    *tx,
                    tx.calls@,
                    f,
                    j as int,
                ) + match f(*tx, tx.calls@[j as int]) {
                    Some(p) => seq![p],
                    None => Seq::<(Transaction, Call)>::empty(),
                });
            }
            match r {
                Some(rec) => {
                    out.push(rec);
                    proof {
                        assert(block_srcs_upto(*blk, calls_of(), f, i as int) + tx_srcs_upto(
                            *tx,
                            tx.calls@,
                            f,
                            j + 1 as int,
                        ) =~= pre + seq![(*tx, *e)]);
                    }
                },
                None => {
                    proof {
                        assert(block_srcs_upto(*blk, calls_of(), f, i as int) + tx_srcs_upto(
                            *tx,
                            tx.calls@,
                            f,
                            j + 1 as int,
                        ) =~= pre);
                    }
                },
            }
            j += 1;
        }
        proof {
            assert(calls_of()(*tx) == tx.calls@);
            assert(tx_srcs_upto(*tx, tx.calls@, f, tx.calls@.len() as int) == tx_srcs(
                *tx,
                calls_of(),
                f,
            ));
            assert(block_srcs_upto(*blk, calls_of(), f, i + 1 as int) == block_srcs_upto(
                *blk,
                calls_of(),
                f,
                i as int,
            ) + tx_srcs(blk.transactions@[i as int], calls_of(), f));
        }
        i += 1;
    }
    proof {
        assert(upgrade_to_and_call_call_srcs(*blk) == block_srcs_upto(
            *blk,
            calls_of(),
            f,
            blk.transactions@.len() as int,
        ));
    }
    out
}

} // verus!
