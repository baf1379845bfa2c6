//! End-to-end tests of the two projectors and the batch assembler on
//! hand-built blocks.

use usdc_pipeline::model::Block;
use usdc_pipeline::model::Call;
use usdc_pipeline::model::Log;
use usdc_pipeline::model::Timestamp;
use usdc_pipeline::model::Transaction;
use usdc_pipeline::pipeline::calls_is_empty;
use usdc_pipeline::pipeline::events_is_empty;
use usdc_pipeline::pipeline::map_calls;
use usdc_pipeline::pipeline::map_events;
use usdc_pipeline::pipeline::map_events_calls;
use usdc_pipeline::pipeline::map_usdc_calls;
use usdc_pipeline::pipeline::map_usdc_events;
use usdc_pipeline::records::Calls;
use usdc_pipeline::records::Events;
use usdc_pipeline::records::UsdcTransfer;

fn unhex(s: &str) -> Vec<u8> {
    let d = |c: u8| -> u8 {
        match c {
            b'0'..=b'9' => c - b'0',
            b'a'..=b'f' => c - b'a' + 10,
            _ => panic!("bad hex digit"),
        }
    };
    let b = s.as_bytes();
    let mut out = Vec::new();
    let mut i = 0;
    while i + 2 <= b.len() {
        out.push(d(b[i]) * 16 + d(b[i + 1]));
        i += 2;
    }
    out
}

fn usdc_address() -> Vec<u8> {
    unhex("a0b86991c6218b36c1d19d4a2e9eb0ce3606eb48")
}

fn other_contract() -> Vec<u8> {
    unhex("00112233445566778899aabbccddeeff00112233")
}

fn addr_a() -> Vec<u8> {
    vec![0xaa; 20]
}

fn addr_b() -> Vec<u8> {
    vec![0xbb; 20]
}

fn topic_of_addr(a: &[u8]) -> Vec<u8> {
    let mut t = vec![0u8; 12];
    t.extend_from_slice(a);
    t
}

fn word_of_u64(v: u64) -> Vec<u8> {
    let mut w = vec![0u8; 24];
    w.extend_from_slice(&v.to_be_bytes());
    w
}

fn ts() -> Timestamp {
    Timestamp { seconds: 1_700_000_000, nanos: 7 }
}

fn tx_hash() -> Vec<u8> {
    (1u8..=32u8).collect()
}

const TX_HASH_HEX: &str = "0102030405060708090a0b0c0d0e0f101112131415161718191a1b1c1d1e1f20";

fn transfer_topic0() -> Vec<u8> {
    unhex("ddf252ad1be2c89b69c2b068fc378daa952ba7f163c4a11628f55a4df523b3ef")
}

fn pause_topic0() -> Vec<u8> {
    unhex("6985a02210a168e66602d3235cb6db0e70f92b3ba4d376a33c0f3d9434bff625")
}

fn burn_topic0() -> Vec<u8> {
    unhex("cc16f5dbb4873280815c1ee09dbd06736cffcc184412cf7a71a0fdb75d397ca5")
}

fn transfer_log(address: Vec<u8>, index: u32, value_word: Vec<u8>) -> Log {
    Log {
        address,
        block_index: index,
        topics: vec![transfer_topic0(), topic_of_addr(&addr_a()), topic_of_addr(&addr_b())],
        data: value_word,
    }
}

fn one_tx(logs: Vec<Log>, calls: Vec<Call>) -> Transaction {
    Transaction { hash: tx_hash(), logs, calls }
}

fn one_block(txs: Vec<Transaction>) -> Block {
    Block { number: 21_000_000, timestamp: ts(), transactions: txs }
}

fn approve_input(value: u64) -> Vec<u8> {
    let mut input = unhex("095ea7b3");
    input.extend_from_slice(&topic_of_addr(&addr_b()));
    input.extend_from_slice(&word_of_u64(value));
    input
}

fn approve_call(reverted: bool, ordinal: u64, return_data: Vec<u8>) -> Call {
    Call {
        address: usdc_address(),
        begin_ordinal: ordinal,
        state_reverted: reverted,
        input: approve_input(5000),
        return_data,
    }
}

fn bool_word(v: u8) -> Vec<u8> {
    let mut w = vec![0u8; 31];
    w.push(v);
    w
}

#[test]
fn transfer_event_scenario() {
    // One tracked transfer (from A to B, value 1000000) plus one unrelated log.
    let noise = Log {
        address: other_contract(),
        block_index: 1,
        topics: vec![transfer_topic0(), topic_of_addr(&addr_a()), topic_of_addr(&addr_b())],
        data: word_of_u64(42),
    };
    let wanted = transfer_log(usdc_address(), 2, word_of_u64(1_000_000));
    let blk = one_block(vec![one_tx(vec![noise, wanted], vec![])]);
    let events = map_events(&blk).expect("one qualifying log");
    assert_eq!(events.usdc_transfers.len(), 1);
    let r: &UsdcTransfer = &events.usdc_transfers[0];
    assert_eq!(r.evt_tx_hash, TX_HASH_HEX);
    assert_eq!(r.evt_index, 2);
    assert_eq!(r.evt_block_number, 21_000_000);
    assert_eq!(r.evt_block_time, Some(ts()));
    assert_eq!(r.from, addr_a());
    assert_eq!(r.to, addr_b());
    assert_eq!(r.value, "1000000");
    // every other event batch stays empty
    assert!(events.usdc_approvals.is_empty());
    assert!(events.usdc_admin_changeds.is_empty());
    assert!(events.usdc_authorization_canceleds.is_empty());
    assert!(events.usdc_authorization_useds.is_empty());
    assert!(events.usdc_blacklisteds.is_empty());
    assert!(events.usdc_blacklister_changeds.is_empty());
    assert!(events.usdc_burns.is_empty());
    assert!(events.usdc_master_minter_changeds.is_empty());
    assert!(events.usdc_mints.is_empty());
    assert!(events.usdc_minter_configureds.is_empty());
    assert!(events.usdc_minter_removeds.is_empty());
    assert!(events.usdc_ownership_transferreds.is_empty());
    assert!(events.usdc_pauses.is_empty());
    assert!(events.usdc_pauser_changeds.is_empty());
    assert!(events.usdc_rescuer_changeds.is_empty());
    assert!(events.usdc_un_blacklisteds.is_empty());
    assert!(events.usdc_unpauses.is_empty());
    assert!(events.usdc_upgradeds.is_empty());
}

#[test]
fn untracked_log_produces_nothing() {
    let log = transfer_log(other_contract(), 0, word_of_u64(9));
    let blk = one_block(vec![one_tx(vec![log], vec![])]);
    assert!(map_events(&blk).is_none());
}

#[test]
fn unknown_topic_produces_nothing() {
    let mut log = transfer_log(usdc_address(), 0, word_of_u64(9));
    log.topics[0] = vec![0x99; 32];
    let blk = one_block(vec![one_tx(vec![log], vec![])]);
    assert!(map_events(&blk).is_none());
}

#[test]
fn reverted_approve_call_scenario() {
    // A reverted approve call still yields a record with call_success false
    // and the default output: the attempted return value never reaches the
    // return data of a reverted call.
    let call = approve_call(true, 4, Vec::new());
    let blk = one_block(vec![one_tx(vec![], vec![call])]);
    let calls = map_calls(&blk).expect("one qualifying call");
    assert_eq!(calls.usdc_call_approves.len(), 1);
    let r = &calls.usdc_call_approves[0];
    assert_eq!(r.call_tx_hash, TX_HASH_HEX);
    assert_eq!(r.call_ordinal, 4);
    assert!(!r.call_success);
    assert_eq!(r.spender, addr_b());
    assert_eq!(r.value, "5000");
    assert!(!r.output_param0);
    assert!(calls.usdc_call_transfers.is_empty());
}

#[test]
fn output_decoding_ignores_revert_flag() {
    // The output field is a function of the return data alone, never of the
    // revert flag.
    let call = approve_call(true, 4, bool_word(1));
    let blk = one_block(vec![one_tx(vec![], vec![call])]);
    let calls = map_calls(&blk).expect("one qualifying call");
    let r = &calls.usdc_call_approves[0];
    assert!(!r.call_success);
    assert!(r.output_param0);
}

#[test]
fn output_decode_failure_is_isolated() {
    // Truncated return data: the record is still emitted, the output field is
    // the default, and the success flag reflects only the revert flag.
    let call = approve_call(false, 9, vec![1u8; 31]);
    let blk = one_block(vec![one_tx(vec![], vec![call])]);
    let calls = map_calls(&blk).expect("one qualifying call");
    let r = &calls.usdc_call_approves[0];
    assert!(r.call_success);
    assert!(!r.output_param0);
}

#[test]
fn successful_output_is_decoded() {
    let call = approve_call(false, 9, bool_word(1));
    let blk = one_block(vec![one_tx(vec![], vec![call])]);
    let calls = map_calls(&blk).expect("one qualifying call");
    assert!(calls.usdc_call_approves[0].output_param0);
}

#[test]
fn input_decode_failure_drops_record() {
    // Matched selector, but the input is shorter than the argument head.
    let mut input = unhex("095ea7b3");
    input.extend_from_slice(&topic_of_addr(&addr_b()));
    let call = Call {
        address: usdc_address(),
        begin_ordinal: 1,
        state_reverted: false,
        input,
        return_data: bool_word(1),
    };
    let blk = one_block(vec![one_tx(vec![], vec![call])]);
    assert!(map_calls(&blk).is_none());
}

#[test]
fn event_batch_keeps_block_order() {
    let l1 = transfer_log(usdc_address(), 3, word_of_u64(1));
    let l2 = transfer_log(usdc_address(), 7, word_of_u64(2));
    let blk = one_block(vec![one_tx(vec![l1], vec![]), one_tx(vec![l2], vec![])]);
    let events = map_events(&blk).expect("two qualifying logs");
    assert_eq!(events.usdc_transfers.len(), 2);
    assert_eq!(events.usdc_transfers[0].evt_index, 3);
    assert_eq!(events.usdc_transfers[1].evt_index, 7);
    assert_eq!(events.usdc_transfers[0].value, "1");
    assert_eq!(events.usdc_transfers[1].value, "2");
}

#[test]
fn call_batch_keeps_ordinal_order() {
    let c1 = approve_call(false, 5, Vec::new());
    let c2 = approve_call(false, 9, Vec::new());
    let blk = one_block(vec![one_tx(vec![], vec![c1, c2])]);
    let calls = map_calls(&blk).expect("two qualifying calls");
    assert_eq!(calls.usdc_call_approves.len(), 2);
    assert_eq!(calls.usdc_call_approves[0].call_ordinal, 5);
    assert_eq!(calls.usdc_call_approves[1].call_ordinal, 9);
}

#[test]
fn pipeline_is_idempotent() {
    let log = transfer_log(usdc_address(), 0, word_of_u64(77));
    let call = approve_call(false, 2, bool_word(0));
    let blk = one_block(vec![one_tx(vec![log], vec![call])]);
    let e1 = map_events(&blk);
    let e2 = map_events(&blk);
    assert_eq!(e1, e2);
    let c1 = map_calls(&blk);
    let c2 = map_calls(&blk);
    assert_eq!(c1, c2);
}

#[test]
fn empty_block_is_suppressed() {
    let blk = one_block(vec![one_tx(vec![], vec![])]);
    assert!(map_events(&blk).is_none());
    assert!(map_calls(&blk).is_none());
    let blk2 = one_block(vec![]);
    assert!(map_events(&blk2).is_none());
    assert!(map_calls(&blk2).is_none());
}

#[test]
fn suppressed_equals_all_empty() {
    let blk = one_block(vec![one_tx(vec![], vec![])]);
    let mut events = Events::default();
    map_usdc_events(&blk, &mut events);
    assert!(events_is_empty(&events));
    let mut calls = Calls::default();
    map_usdc_calls(&blk, &mut calls);
    assert!(calls_is_empty(&calls));
}

#[test]
fn combined_envelope_never_suppresses() {
    let events = Events::default();
    let calls = Calls::default();
    let both = map_events_calls(events.clone(), calls.clone());
    assert_eq!(both.events, Some(events));
    assert_eq!(both.calls, Some(calls));
}

#[test]
fn projector_appends_after_existing_records() {
    let log = transfer_log(usdc_address(), 6, word_of_u64(8));
    let blk = one_block(vec![one_tx(vec![log], vec![])]);
    let mut events = Events::default();
    map_usdc_events(&blk, &mut events);
    assert_eq!(events.usdc_transfers.len(), 1);
    let first = events.usdc_transfers[0].clone();
    map_usdc_events(&blk, &mut events);
    assert_eq!(events.usdc_transfers.len(), 2);
    assert_eq!(events.usdc_transfers[0], first);
    assert_eq!(events.usdc_transfers[1], first);
}

#[test]
fn decimal_strings_cover_extremes() {
    let zero = transfer_log(usdc_address(), 0, vec![0u8; 32]);
    let max = transfer_log(usdc_address(), 1, vec![0xffu8; 32]);
    let blk = one_block(vec![one_tx(vec![zero, max], vec![])]);
    let events = map_events(&blk).expect("two qualifying logs");
    assert_eq!(events.usdc_transfers[0].value, "0");
    assert_eq!(
        events.usdc_transfers[1].value,
        "115792089237316195423570985008687907853269984665640564039457584007913129639935",
    );
}

#[test]
fn pause_event_scenario() {
    let log = Log {
        address: usdc_address(),
        block_index: 11,
        topics: vec![pause_topic0()],
        data: Vec::new(),
    };
    let blk = one_block(vec![one_tx(vec![log], vec![])]);
    let events = map_events(&blk).expect("one qualifying log");
    assert_eq!(events.usdc_pauses.len(), 1);
    assert_eq!(events.usdc_pauses[0].evt_index, 11);
    assert!(events.usdc_transfers.is_empty());
}

#[test]
fn burn_event_scenario() {
    let log = Log {
        address: usdc_address(),
        block_index: 1,
        topics: vec![burn_topic0(), topic_of_addr(&addr_a())],
        data: word_of_u64(123_456),
    };
    let blk = one_block(vec![one_tx(vec![log], vec![])]);
    let events = map_events(&blk).expect("one qualifying log");
    assert_eq!(events.usdc_burns.len(), 1);
    assert_eq!(events.usdc_burns[0].burner, addr_a());
    assert_eq!(events.usdc_burns[0].amount, "123456");
}

#[test]
fn malformed_event_shape_is_dropped() {
    // Right topic, wrong data length: excluded from the batch.
    let mut log = transfer_log(usdc_address(), 0, word_of_u64(5));
    log.data.push(0);
    let blk = one_block(vec![one_tx(vec![log], vec![])]);
    assert!(map_events(&blk).is_none());
}

#[test]
fn admin_changed_event_decodes_data_words() {
    // Both addresses of this event live in the data payload, not in topics.
    let mut data = topic_of_addr(&addr_a());
    data.extend_from_slice(&topic_of_addr(&addr_b()));
    let log = Log {
        address: usdc_address(),
        block_index: 4,
        topics: vec![unhex("7e644d79422f17c01e4894b5f4f588d331ebfa28653d42ae832dc59e38c9798f")],
        data,
    };
    let blk = one_block(vec![one_tx(vec![log], vec![])]);
    let events = map_events(&blk).expect("one qualifying log");
    assert_eq!(events.usdc_admin_changeds.len(), 1);
    let r = &events.usdc_admin_changeds[0];
    assert_eq!(r.previous_admin, addr_a());
    assert_eq!(r.new_admin, addr_b());
}

#[test]
fn authorization_used_event_keeps_nonce_topic() {
    let log = Log {
        address: usdc_address(),
        block_index: 5,
        topics: vec![
            unhex("98de503528ee59b575ef0c0a2576a82497bfc029a5685b209e9ec333479b10a5"),
            topic_of_addr(&addr_a()),
            vec![0x77; 32],
        ],
        data: Vec::new(),
    };
    let blk = one_block(vec![one_tx(vec![log], vec![])]);
    let events = map_events(&blk).expect("one qualifying log");
    assert_eq!(events.usdc_authorization_useds.len(), 1);
    let r = &events.usdc_authorization_useds[0];
    assert_eq!(r.authorizer, addr_a());
    assert_eq!(r.nonce, vec![0x77u8; 32]);
}
