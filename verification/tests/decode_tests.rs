//! Tests of the call-input decoders: static scalars, strict padding, dynamic
//! strings and byte arrays, and address arrays.

use usdc_pipeline::model::Block;
use usdc_pipeline::model::Call;
use usdc_pipeline::model::Timestamp;
use usdc_pipeline::model::Transaction;
use usdc_pipeline::pipeline::map_calls;

fn unhex(s: &str) -> Vec<u8> {
    let d = |c: u8| -> u8 {
        match c {
            b'0'..=b'9' => c - b'0',
            b'a'..=b'f' => c - b'a' + 10,
            _ => panic!("bad hex digit"),
        }
    };
    let b = s.as_bytes();
    let mut out = Vec::new();
    let mut i = 0;
    while i + 2 <= b.len() {
        out.push(d(b[i]) * 16 + d(b[i + 1]));
        i += 2;
    }
    out
}

fn usdc_address() -> Vec<u8> {
    unhex("a0b86991c6218b36c1d19d4a2e9eb0ce3606eb48")
}

fn addr_a() -> Vec<u8> {
    vec![0xaa; 20]
}

fn addr_b() -> Vec<u8> {
    vec![0xbb; 20]
}

fn addr_word(a: &[u8]) -> Vec<u8> {
    let mut w = vec![0u8; 12];
    w.extend_from_slice(a);
    w
}

fn word_of_u64(v: u64) -> Vec<u8> {
    let mut w = vec![0u8; 24];
    w.extend_from_slice(&v.to_be_bytes());
    w
}

fn padded(bytes: &[u8]) -> Vec<u8> {
    let mut w = bytes.to_vec();
    while w.len() % 32 != 0 {
        w.push(0);
    }
    w
}

fn call_with(input: Vec<u8>) -> Call {
    Call {
        address: usdc_address(),
        begin_ordinal: 1,
        state_reverted: false,
        input,
        return_data: Vec::new(),
    }
}

fn block_with(call: Call) -> Block {
    Block {
        number: 5,
        timestamp: Timestamp { seconds: 9, nanos: 0 },
        transactions: vec![Transaction { hash: vec![0xab; 32], logs: vec![], calls: vec![call] }],
    }
}

#[test]
fn cancel_authorization_v_r_s_variant() {
    let mut input = unhex("5a049a70");
    input.extend_from_slice(&addr_word(&addr_a()));
    input.extend_from_slice(&[0x11u8; 32]);
    input.extend_from_slice(&word_of_u64(27));
    input.extend_from_slice(&[0x22u8; 32]);
    input.extend_from_slice(&[0x33u8; 32]);
    let calls = map_calls(&block_with(call_with(input))).expect("one qualifying call");
    assert_eq!(calls.usdc_call_cancel_authorization_1s.len(), 1);
    let r = &calls.usdc_call_cancel_authorization_1s[0];
    assert_eq!(r.authorizer, addr_a());
    assert_eq!(r.nonce, vec![0x11u8; 32]);
    assert_eq!(r.v, 27);
    assert_eq!(r.r, vec![0x22u8; 32]);
    assert_eq!(r.s, vec![0x33u8; 32]);
    assert!(calls.usdc_call_cancel_authorization_2s.is_empty());
}

#[test]
fn small_scalar_with_dirty_padding_is_dropped() {
    let mut input = unhex("5a049a70");
    input.extend_from_slice(&addr_word(&addr_a()));
    input.extend_from_slice(&[0x11u8; 32]);
    let mut v_word = word_of_u64(27);
    v_word[0] = 1;
    input.extend_from_slice(&v_word);
    input.extend_from_slice(&[0x22u8; 32]);
    input.extend_from_slice(&[0x33u8; 32]);
    assert!(map_calls(&block_with(call_with(input))).is_none());
}

#[test]
fn initialize_v2_decodes_new_name() {
    let mut input = unhex("d608ea64");
    input.extend_from_slice(&word_of_u64(32));
    input.extend_from_slice(&word_of_u64(8));
    input.extend_from_slice(&padded(b"USD Coin"));
    let calls = map_calls(&block_with(call_with(input))).expect("one qualifying call");
    assert_eq!(calls.usdc_call_initialize_v_2s.len(), 1);
    assert_eq!(calls.usdc_call_initialize_v_2s[0].new_name, "USD Coin");
}

#[test]
fn initialize_v2_invalid_utf8_is_replaced() {
    let mut input = unhex("d608ea64");
    input.extend_from_slice(&word_of_u64(32));
    input.extend_from_slice(&word_of_u64(2));
    input.extend_from_slice(&padded(&[0xff, 0x61]));
    let calls = map_calls(&block_with(call_with(input))).expect("one qualifying call");
    assert_eq!(calls.usdc_call_initialize_v_2s[0].new_name, "\u{FFFD}a");
}

#[test]
fn initialize_v2_out_of_bounds_offset_is_dropped() {
    let mut input = unhex("d608ea64");
    input.extend_from_slice(&word_of_u64(64));
    assert!(map_calls(&block_with(call_with(input))).is_none());
}

#[test]
fn initialize_v2_2_decodes_accounts_and_symbol() {
    let mut input = unhex("430239b4");
    input.extend_from_slice(&word_of_u64(64));
    input.extend_from_slice(&word_of_u64(160));
    input.extend_from_slice(&word_of_u64(2));
    input.extend_from_slice(&addr_word(&addr_a()));
    input.extend_from_slice(&addr_word(&addr_b()));
    input.extend_from_slice(&word_of_u64(4));
    input.extend_from_slice(&padded(b"USDC"));
    let calls = map_calls(&block_with(call_with(input))).expect("one qualifying call");
    assert_eq!(calls.usdc_call_initialize_v2_2s.len(), 1);
    let r = &calls.usdc_call_initialize_v2_2s[0];
    assert_eq!(r.accounts_to_blacklist, vec![addr_a(), addr_b()]);
    assert_eq!(r.new_symbol, "USDC");
}

#[test]
fn transfer_call_decodes_output_word() {
    let mut input = unhex("a9059cbb");
    input.extend_from_slice(&addr_word(&addr_b()));
    input.extend_from_slice(&word_of_u64(9999));
    let mut call = call_with(input);
    let mut ret = vec![0u8; 31];
    ret.push(1);
    call.return_data = ret;
    let calls = map_calls(&block_with(call)).expect("one qualifying call");
    assert_eq!(calls.usdc_call_transfers.len(), 1);
    let r = &calls.usdc_call_transfers[0];
    assert_eq!(r.to, addr_b());
    assert_eq!(r.value, "9999");
    assert!(r.output_param0);
}

#[test]
fn permit_overloads_are_told_apart() {
    // permit(address,address,uint256,uint256,uint8,bytes32,bytes32)
    let mut input = unhex("d505accf");
    input.extend_from_slice(&addr_word(&addr_a()));
    input.extend_from_slice(&addr_word(&addr_b()));
    input.extend_from_slice(&word_of_u64(1000));
    input.extend_from_slice(&word_of_u64(1_800_000_000));
    input.extend_from_slice(&word_of_u64(28));
    input.extend_from_slice(&[0x44u8; 32]);
    input.extend_from_slice(&[0x55u8; 32]);
    let calls = map_calls(&block_with(call_with(input))).expect("one qualifying call");
    assert_eq!(calls.usdc_call_permit_2s.len(), 1);
    assert!(calls.usdc_call_permit_1s.is_empty());
    let r = &calls.usdc_call_permit_2s[0];
    assert_eq!(r.owner, addr_a());
    assert_eq!(r.spender, addr_b());
    assert_eq!(r.value, "1000");
    assert_eq!(r.deadline, "1800000000");
    assert_eq!(r.v, 28);
}

#[test]
fn untracked_call_produces_nothing() {
    let mut input = unhex("a9059cbb");
    input.extend_from_slice(&addr_word(&addr_b()));
    input.extend_from_slice(&word_of_u64(1));
    let mut call = call_with(input);
    call.address = vec![0x01; 20];
    assert!(map_calls(&block_with(call)).is_none());
}

#[test]
fn mint_call_decodes_arguments_and_output() {
    let mut input = unhex("40c10f19");
    input.extend_from_slice(&addr_word(&addr_a()));
    input.extend_from_slice(&word_of_u64(250_000));
    let mut call = call_with(input);
    let mut ret = vec![0u8; 31];
    ret.push(1);
    call.return_data = ret;
    let calls = map_calls(&block_with(call)).expect("one qualifying call");
    assert_eq!(calls.usdc_call_mints.len(), 1);
    let r = &calls.usdc_call_mints[0];
    assert_eq!(r.u_to, addr_a());
    assert_eq!(r.u_amount, "250000");
    assert!(r.output_param0);
}

#[test]
fn upgrade_to_and_call_decodes_dynamic_bytes() {
    let mut input = unhex("4f1ef286");
    input.extend_from_slice(&addr_word(&addr_b()));
    input.extend_from_slice(&word_of_u64(64));
    input.extend_from_slice(&word_of_u64(3));
    input.extend_from_slice(&padded(&[1, 2, 3]));
    let calls = map_calls(&block_with(call_with(input))).expect("one qualifying call");
    assert_eq!(calls.usdc_call_upgrade_to_and_calls.len(), 1);
    let r = &calls.usdc_call_upgrade_to_and_calls[0];
    assert_eq!(r.new_implementation, addr_b());
    assert_eq!(r.data, vec![1, 2, 3]);
}
