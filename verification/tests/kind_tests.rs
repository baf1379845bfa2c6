//! One scenario per remaining signature kind: a single qualifying entry
//! yields a single record with every field decoded as the layout says.

use usdc_pipeline::model::Block;
use usdc_pipeline::model::Call;
use usdc_pipeline::model::Log;
use usdc_pipeline::model::Timestamp;
use usdc_pipeline::model::Transaction;
use usdc_pipeline::pipeline::map_calls;
use usdc_pipeline::pipeline::map_events;

fn unhex(s: &str) -> Vec<u8> {
    let d = |c: u8| -> u8 {
        match c {
            b'0'..=b'9' => c - b'0',
            b'a'..=b'f' => c - b'a' + 10,
            _ => panic!("bad hex digit"),
        }
    };
    let b = s.as_bytes();
    let mut out = Vec::new();
    let mut i = 0;
    while i + 2 <= b.len() {
        out.push(d(b[i]) * 16 + d(b[i + 1]));
        i += 2;
    }
    out
}

fn usdc_address() -> Vec<u8> {
    unhex("a0b86991c6218b36c1d19d4a2e9eb0ce3606eb48")
}

fn pad_addr(a: &[u8]) -> Vec<u8> {
    let mut w = vec![0u8; 12];
    w.extend_from_slice(a);
    w
}

fn word_of_u64(v: u64) -> Vec<u8> {
    let mut w = vec![0u8; 24];
    w.extend_from_slice(&v.to_be_bytes());
    w
}

fn event_block(log: Log) -> Block {
    Block {
        number: 7,
        timestamp: Timestamp { seconds: 100, nanos: 0 },
        transactions: vec![Transaction { hash: vec![0xcd; 32], logs: vec![log], calls: vec![] }],
    }
}

fn call_block(call: Call) -> Block {
    Block {
        number: 7,
        timestamp: Timestamp { seconds: 100, nanos: 0 },
        transactions: vec![Transaction { hash: vec![0xcd; 32], logs: vec![], calls: vec![call] }],
    }
}


fn padded(bytes: &[u8]) -> Vec<u8> {
    let mut w = bytes.to_vec();
    while w.len() % 32 != 0 {
        w.push(0);
    }
    w
}

#[test]
fn approval_event_record() {
    let mut data: Vec<u8> = Vec::new();
    data.extend_from_slice(&word_of_u64(1004));
    let log = Log {
        address: usdc_address(),
        block_index: 3,
        topics: vec![unhex("8c5be1e5ebec7d5bd14f71427d1e84f3dd0314c0f7b2291e5b200ac8c7c3b925"), pad_addr(&vec![0xa1; 20]), pad_addr(&vec![0xa2; 20])],
        data,
    };
    let events = map_events(&event_block(log)).expect("one qualifying log");
    assert_eq!(events.usdc_approvals.len(), 1);
    let r = &events.usdc_approvals[0];
    assert_eq!(r.evt_index, 3);
    assert_eq!(r.evt_block_number, 7);
    assert_eq!(r.owner, vec![0xa1; 20]);
    assert_eq!(r.spender, vec![0xa2; 20]);
    assert_eq!(r.value, "1004");
}

#[test]
fn authorization_canceled_event_record() {
    let mut data: Vec<u8> = Vec::new();
    let log = Log {
        address: usdc_address(),
        block_index: 3,
        topics: vec![unhex("1cdd46ff242716cdaa72d159d339a485b3438398348d68f09d7c8c0a59353d81"), pad_addr(&vec![0xa1; 20]), vec![0x32; 32]],
        data,
    };
    let events = map_events(&event_block(log)).expect("one qualifying log");
    assert_eq!(events.usdc_authorization_canceleds.len(), 1);
    let r = &events.usdc_authorization_canceleds[0];
    assert_eq!(r.evt_index, 3);
    assert_eq!(r.evt_block_number, 7);
    assert_eq!(r.authorizer, vec![0xa1; 20]);
    assert_eq!(r.nonce, vec![0x32u8; 32]);
}

#[test]
fn blacklisted_event_record() {
    let mut data: Vec<u8> = Vec::new();
    let log = Log {
        address: usdc_address(),
        block_index: 3,
        topics: vec![unhex("ffa4e6181777692565cf28528fc88fd1516ea86b56da075235fa575af6a4b855"), pad_addr(&vec![0xa1; 20])],
        data,
    };
    let events = map_events(&event_block(log)).expect("one qualifying log");
    assert_eq!(events.usdc_blacklisteds.len(), 1);
    let r = &events.usdc_blacklisteds[0];
    assert_eq!(r.evt_index, 3);
    assert_eq!(r.evt_block_number, 7);
    assert_eq!(r.u_account, vec![0xa1; 20]);
}

#[test]
fn blacklister_changed_event_record() {
    let mut data: Vec<u8> = Vec::new();
    let log = Log {
        address: usdc_address(),
        block_index: 3,
        topics: vec![unhex("c67398012c111ce95ecb7429b933096c977380ee6c421175a71a4a4c6c88c06e"), pad_addr(&vec![0xa1; 20])],
        data,
    };
    let events = map_events(&event_block(log)).expect("one qualifying log");
    assert_eq!(events.usdc_blacklister_changeds.len(), 1);
    let r = &events.usdc_blacklister_changeds[0];
    assert_eq!(r.evt_index, 3);
    assert_eq!(r.evt_block_number, 7);
    assert_eq!(r.new_blacklister, vec![0xa1; 20]);
}

#[test]
fn master_minter_changed_event_record() {
    let mut data: Vec<u8> = Vec::new();
    let log = Log {
        address: usdc_address(),
        block_index: 3,
        topics: vec![unhex("db66dfa9c6b8f5226fe9aac7e51897ae8ee94ac31dc70bb6c9900b2574b707e6"), pad_addr(&vec![0xa1; 20])],
        data,
    };
    let events = map_events(&event_block(log)).expect("one qualifying log");
    assert_eq!(events.usdc_master_minter_changeds.len(), 1);
    let r = &events.usdc_master_minter_changeds[0];
    assert_eq!(r.evt_index, 3);
    assert_eq!(r.evt_block_number, 7);
    assert_eq!(r.new_master_minter, vec![0xa1; 20]);
}

#[test]
fn mint_event_record() {
    let mut data: Vec<u8> = Vec::new();
    data.extend_from_slice(&word_of_u64(1004));
    let log = Log {
        address: usdc_address(),
        block_index: 3,
        topics: vec![unhex("ab8530f87dc9b59234c4623bf917212bb2536d647574c8e7e5da92c2ede0c9f8"), pad_addr(&vec![0xa1; 20]), pad_addr(&vec![0xa2; 20])],
        data,
    };
    let events = map_events(&event_block(log)).expect("one qualifying log");
    assert_eq!(events.usdc_mints.len(), 1);
    let r = &events.usdc_mints[0];
    assert_eq!(r.evt_index, 3);
    assert_eq!(r.evt_block_number, 7);
    assert_eq!(r.minter, vec![0xa1; 20]);
    assert_eq!(r.to, vec![0xa2; 20]);
    assert_eq!(r.amount, "1004");
}

#[test]
fn minter_configured_event_record() {
    let mut data: Vec<u8> = Vec::new();
    data.extend_from_slice(&word_of_u64(1003));
    let log = Log {
        address: usdc_address(),
        block_index: 3,
        topics: vec![unhex("46980fca912ef9bcdbd36877427b6b90e860769f604e89c0e67720cece530d20"), pad_addr(&vec![0xa1; 20])],
        data,
    };
    let events = map_events(&event_block(log)).expect("one qualifying log");
    assert_eq!(events.usdc_minter_configureds.len(), 1);
    let r = &events.usdc_minter_configureds[0];
    assert_eq!(r.evt_index, 3);
    assert_eq!(r.evt_block_number, 7);
    assert_eq!(r.minter, vec![0xa1; 20]);
    assert_eq!(r.minter_allowed_amount, "1003");
}

#[test]
fn minter_removed_event_record() {
    let mut data: Vec<u8> = Vec::new();
    let log = Log {
        address: usdc_address(),
        block_index: 3,
        topics: vec![unhex("e94479a9f7e1952cc78f2d6baab678adc1b772d936c6583def489e524cb66692"), pad_addr(&vec![0xa1; 20])],
        data,
    };
    let events = map_events(&event_block(log)).expect("one qualifying log");
    assert_eq!(events.usdc_minter_removeds.len(), 1);
    let r = &events.usdc_minter_removeds[0];
    assert_eq!(r.evt_index, 3);
    assert_eq!(r.evt_block_number, 7);
    assert_eq!(r.old_minter, vec![0xa1; 20]);
}

#[test]
fn ownership_transferred_event_record() {
    let mut data: Vec<u8> = Vec::new();
    data.extend_from_slice(&pad_addr(&vec![0xa3; 20]));
    data.extend_from_slice(&pad_addr(&vec![0xa4; 20]));
    let log = Log {
        address: usdc_address(),
        block_index: 3,
        topics: vec![unhex("8be0079c531659141344cd1fd0a4f28419497f9722a3daafe3b4186f6b6457e0")],
        data,
    };
    let events = map_events(&event_block(log)).expect("one qualifying log");
    assert_eq!(events.usdc_ownership_transferreds.len(), 1);
    let r = &events.usdc_ownership_transferreds[0];
    assert_eq!(r.evt_index, 3);
    assert_eq!(r.evt_block_number, 7);
    assert_eq!(r.previous_owner, vec![0xa3; 20]);
    assert_eq!(r.new_owner, vec![0xa4; 20]);
}

#[test]
fn pauser_changed_event_record() {
    let mut data: Vec<u8> = Vec::new();
    let log = Log {
        address: usdc_address(),
        block_index: 3,
        topics: vec![unhex("b80482a293ca2e013eda8683c9bd7fc8347cfdaeea5ede58cba46df502c2a604"), pad_addr(&vec![0xa1; 20])],
        data,
    };
    let events = map_events(&event_block(log)).expect("one qualifying log");
    assert_eq!(events.usdc_pauser_changeds.len(), 1);
    let r = &events.usdc_pauser_changeds[0];
    assert_eq!(r.evt_index, 3);
    assert_eq!(r.evt_block_number, 7);
    assert_eq!(r.new_address, vec![0xa1; 20]);
}

#[test]
fn rescuer_changed_event_record() {
    let mut data: Vec<u8> = Vec::new();
    let log = Log {
        address: usdc_address(),
        block_index: 3,
        topics: vec![unhex("e475e580d85111348e40d8ca33cfdd74c30fe1655c2d8537a13abc10065ffa5a"), pad_addr(&vec![0xa1; 20])],
        data,
    };
    let events = map_events(&event_block(log)).expect("one qualifying log");
    assert_eq!(events.usdc_rescuer_changeds.len(), 1);
    let r = &events.usdc_rescuer_changeds[0];
    assert_eq!(r.evt_index, 3);
    assert_eq!(r.evt_block_number, 7);
    assert_eq!(r.new_rescuer, vec![0xa1; 20]);
}

#[test]
fn un_blacklisted_event_record() {
    let mut data: Vec<u8> = Vec::new();
    let log = Log {
        address: usdc_address(),
        block_index: 3,
        topics: vec![unhex("117e3210bb9aa7d9baff172026820255c6f6c30ba8999d1c2fd88e2848137c4e"), pad_addr(&vec![0xa1; 20])],
        data,
    };
    let events = map_events(&event_block(log)).expect("one qualifying log");
    assert_eq!(events.usdc_un_blacklisteds.len(), 1);
    let r = &events.usdc_un_blacklisteds[0];
    assert_eq!(r.evt_index, 3);
    assert_eq!(r.evt_block_number, 7);
    assert_eq!(r.u_account, vec![0xa1; 20]);
}

#[test]
fn unpause_event_record() {
    let mut data: Vec<u8> = Vec::new();
    let log = Log {
        address: usdc_address(),
        block_index: 3,
        topics: vec![unhex("7805862f689e2f13df9f062ff482ad3ad112aca9e0847911ed832e158c525b33")],
        data,
    };
    let events = map_events(&event_block(log)).expect("one qualifying log");
    assert_eq!(events.usdc_unpauses.len(), 1);
    let r = &events.usdc_unpauses[0];
    assert_eq!(r.evt_index, 3);
    assert_eq!(r.evt_block_number, 7);
}

#[test]
fn upgraded_event_record() {
    let mut data: Vec<u8> = Vec::new();
    data.extend_from_slice(&pad_addr(&vec![0xa2; 20]));
    let log = Log {
        address: usdc_address(),
        block_index: 3,
        topics: vec![unhex("bc7cd75a20ee27fd9adebab32041f755214dbc6bffa90cc0225b39da2e5c2d3b")],
        data,
    };
    let events = map_events(&event_block(log)).expect("one qualifying log");
    assert_eq!(events.usdc_upgradeds.len(), 1);
    let r = &events.usdc_upgradeds[0];
    assert_eq!(r.evt_index, 3);
    assert_eq!(r.evt_block_number, 7);
    assert_eq!(r.implementation, vec![0xa2; 20]);
}

#[test]
fn blacklist_call_record() {
    let mut input = unhex("f9f92be4");
    input.extend_from_slice(&pad_addr(&vec![0xa1; 20]));
    let call = Call {
        address: usdc_address(),
        begin_ordinal: 9,
        state_reverted: false,
        input,
        return_data: Vec::new(),
    };
    let calls = map_calls(&call_block(call)).expect("one qualifying call");
    assert_eq!(calls.usdc_call_blacklists.len(), 1);
    let r = &calls.usdc_call_blacklists[0];
    assert_eq!(r.call_ordinal, 9);
    assert!(r.call_success);
    assert_eq!(r.u_account, vec![0xa1; 20]);
}

#[test]
fn burn_call_record() {
    let mut input = unhex("42966c68");
    input.extend_from_slice(&word_of_u64(5001));
    let call = Call {
        address: usdc_address(),
        begin_ordinal: 9,
        state_reverted: false,
        input,
        return_data: Vec::new(),
    };
    let calls = map_calls(&call_block(call)).expect("one qualifying call");
    assert_eq!(calls.usdc_call_burns.len(), 1);
    let r = &calls.usdc_call_burns[0];
    assert_eq!(r.call_ordinal, 9);
    assert!(r.call_success);
    assert_eq!(r.u_amount, "5001");
}

#[test]
fn cancel_authorization_2_call_record() {
    let mut input = unhex("b7b72899");
    input.extend_from_slice(&pad_addr(&vec![0xa1; 20]));
    input.extend_from_slice(&vec![0x42; 32]);
    input.extend_from_slice(&word_of_u64(96));
    input.extend_from_slice(&word_of_u64(5));
    input.extend_from_slice(&padded(&unhex("6262626262")));
    let call = Call {
        address: usdc_address(),
        begin_ordinal: 9,
        state_reverted: false,
        input,
        return_data: Vec::new(),
    };
    let calls = map_calls(&call_block(call)).expect("one qualifying call");
    assert_eq!(calls.usdc_call_cancel_authorization_2s.len(), 1);
    let r = &calls.usdc_call_cancel_authorization_2s[0];
    assert_eq!(r.call_ordinal, 9);
    assert!(r.call_success);
    assert_eq!(r.authorizer, vec![0xa1; 20]);
    assert_eq!(r.nonce, vec![0x42u8; 32]);
    assert_eq!(r.signature, vec![0x62u8; 5]);
}

#[test]
fn change_admin_call_record() {
    let mut input = unhex("8f283970");
    input.extend_from_slice(&pad_addr(&vec![0xa1; 20]));
    let call = Call {
        address: usdc_address(),
        begin_ordinal: 9,
        state_reverted: false,
        input,
        return_data: Vec::new(),
    };
    let calls = map_calls(&call_block(call)).expect("one qualifying call");
    assert_eq!(calls.usdc_call_change_admins.len(), 1);
    let r = &calls.usdc_call_change_admins[0];
    assert_eq!(r.call_ordinal, 9);
    assert!(r.call_success);
    assert_eq!(r.new_admin, vec![0xa1; 20]);
}

#[test]
fn configure_minter_call_record() {
    let mut input = unhex("4e44d956");
    input.extend_from_slice(&pad_addr(&vec![0xa1; 20]));
    input.extend_from_slice(&word_of_u64(5002));
    let call = Call {
        address: usdc_address(),
        begin_ordinal: 9,
        state_reverted: false,
        input,
        return_data: { let mut w = vec![0u8; 31]; w.push(1); w },
    };
    let calls = map_calls(&call_block(call)).expect("one qualifying call");
    assert_eq!(calls.usdc_call_configure_minters.len(), 1);
    let r = &calls.usdc_call_configure_minters[0];
    assert_eq!(r.call_ordinal, 9);
    assert!(r.call_success);
    assert!(r.output_param0);
    assert_eq!(r.minter, vec![0xa1; 20]);
    assert_eq!(r.minter_allowed_amount, "5002");
}

#[test]
fn decrease_allowance_call_record() {
    let mut input = unhex("a457c2d7");
    input.extend_from_slice(&pad_addr(&vec![0xa1; 20]));
    input.extend_from_slice(&word_of_u64(5002));
    let call = Call {
        address: usdc_address(),
        begin_ordinal: 9,
        state_reverted: false,
        input,
        return_data: { let mut w = vec![0u8; 31]; w.push(1); w },
    };
    let calls = map_calls(&call_block(call)).expect("one qualifying call");
    assert_eq!(calls.usdc_call_decrease_allowances.len(), 1);
    let r = &calls.usdc_call_decrease_allowances[0];
    assert_eq!(r.call_ordinal, 9);
    assert!(r.call_success);
    assert!(r.output_param0);
    assert_eq!(r.spender, vec![0xa1; 20]);
    assert_eq!(r.decrement, "5002");
}

#[test]
fn increase_allowance_call_record() {
    let mut input = unhex("39509351");
    input.extend_from_slice(&pad_addr(&vec![0xa1; 20]));
    input.extend_from_slice(&word_of_u64(5002));
    let call = Call {
        address: usdc_address(),
        begin_ordinal: 9,
        state_reverted: false,
        input,
        return_data: { let mut w = vec![0u8; 31]; w.push(1); w },
    };
    let calls = map_calls(&call_block(call)).expect("one qualifying call");
    assert_eq!(calls.usdc_call_increase_allowances.len(), 1);
    let r = &calls.usdc_call_increase_allowances[0];
    assert_eq!(r.call_ordinal, 9);
    assert!(r.call_success);
    assert!(r.output_param0);
    assert_eq!(r.spender, vec![0xa1; 20]);
    assert_eq!(r.increment, "5002");
}

#[test]
fn initialize_call_record() {
    let mut input = unhex("3357162b");
    input.extend_from_slice(&word_of_u64(256));
    input.extend_from_slice(&word_of_u64(320));
    input.extend_from_slice(&word_of_u64(384));
    input.extend_from_slice(&word_of_u64(24));
    input.extend_from_slice(&pad_addr(&vec![0xa5; 20]));
    input.extend_from_slice(&pad_addr(&vec![0xa6; 20]));
    input.extend_from_slice(&pad_addr(&vec![0xa7; 20]));
    input.extend_from_slice(&pad_addr(&vec![0xa8; 20]));
    input.extend_from_slice(&word_of_u64(4));
    input.extend_from_slice(&padded(&unhex("74616730")));
    input.extend_from_slice(&word_of_u64(4));
    input.extend_from_slice(&padded(&unhex("74616731")));
    input.extend_from_slice(&word_of_u64(4));
    input.extend_from_slice(&padded(&unhex("74616732")));
    let call = Call {
        address: usdc_address(),
        begin_ordinal: 9,
        state_reverted: false,
        input,
        return_data: Vec::new(),
    };
    let calls = map_calls(&call_block(call)).expect("one qualifying call");
    assert_eq!(calls.usdc_call_initializes.len(), 1);
    let r = &calls.usdc_call_initializes[0];
    assert_eq!(r.call_ordinal, 9);
    assert!(r.call_success);
    assert_eq!(r.token_name, "tag0");
    assert_eq!(r.token_symbol, "tag1");
    assert_eq!(r.token_currency, "tag2");
    assert_eq!(r.token_decimals, 24);
    assert_eq!(r.new_master_minter, vec![0xa5; 20]);
    assert_eq!(r.new_pauser, vec![0xa6; 20]);
    assert_eq!(r.new_blacklister, vec![0xa7; 20]);
    assert_eq!(r.new_owner, vec![0xa8; 20]);
}

#[test]
fn initialize_v2_1_call_record() {
    let mut input = unhex("2fc81e09");
    input.extend_from_slice(&pad_addr(&vec![0xa1; 20]));
    let call = Call {
        address: usdc_address(),
        begin_ordinal: 9,
        state_reverted: false,
        input,
        return_data: Vec::new(),
    };
    let calls = map_calls(&call_block(call)).expect("one qualifying call");
    assert_eq!(calls.usdc_call_initialize_v2_1s.len(), 1);
    let r = &calls.usdc_call_initialize_v2_1s[0];
    assert_eq!(r.call_ordinal, 9);
    assert!(r.call_success);
    assert_eq!(r.lost_and_found, vec![0xa1; 20]);
}

#[test]
fn pause_call_record() {
    let mut input = unhex("8456cb59");
    let call = Call {
        address: usdc_address(),
        begin_ordinal: 9,
        state_reverted: false,
        input,
        return_data: Vec::new(),
    };
    let calls = map_calls(&call_block(call)).expect("one qualifying call");
    assert_eq!(calls.usdc_call_pauses.len(), 1);
    let r = &calls.usdc_call_pauses[0];
    assert_eq!(r.call_ordinal, 9);
    assert!(r.call_success);
}

#[test]
fn permit_1_call_record() {
    let mut input = unhex("9fd5a6cf");
    input.extend_from_slice(&pad_addr(&vec![0xa1; 20]));
    input.extend_from_slice(&pad_addr(&vec![0xa2; 20]));
    input.extend_from_slice(&word_of_u64(5003));
    input.extend_from_slice(&word_of_u64(5004));
    input.extend_from_slice(&word_of_u64(160));
    input.extend_from_slice(&word_of_u64(5));
    input.extend_from_slice(&padded(&unhex("6464646464")));
    let call = Call {
        address: usdc_address(),
        begin_ordinal: 9,
        state_reverted: false,
        input,
        return_data: Vec::new(),
    };
    let calls = map_calls(&call_block(call)).expect("one qualifying call");
    assert_eq!(calls.usdc_call_permit_1s.len(), 1);
    let r = &calls.usdc_call_permit_1s[0];
    assert_eq!(r.call_ordinal, 9);
    assert!(r.call_success);
    assert_eq!(r.owner, vec![0xa1; 20]);
    assert_eq!(r.spender, vec![0xa2; 20]);
    assert_eq!(r.value, "5003");
    assert_eq!(r.deadline, "5004");
    assert_eq!(r.signature, vec![0x64u8; 5]);
}

#[test]
fn receive_with_authorization_1_call_record() {
    let mut input = unhex("88b7ab63");
    input.extend_from_slice(&pad_addr(&vec![0xa1; 20]));
    input.extend_from_slice(&pad_addr(&vec![0xa2; 20]));
    input.extend_from_slice(&word_of_u64(5003));
    input.extend_from_slice(&word_of_u64(5004));
    input.extend_from_slice(&word_of_u64(5005));
    input.extend_from_slice(&vec![0x46; 32]);
    input.extend_from_slice(&word_of_u64(224));
    input.extend_from_slice(&word_of_u64(5));
    input.extend_from_slice(&padded(&unhex("6666666666")));
    let call = Call {
        address: usdc_address(),
        begin_ordinal: 9,
        state_reverted: false,
        input,
        return_data: Vec::new(),
    };
    let calls = map_calls(&call_block(call)).expect("one qualifying call");
    assert_eq!(calls.usdc_call_receive_with_authorization_1s.len(), 1);
    let r = &calls.usdc_call_receive_with_authorization_1s[0];
    assert_eq!(r.call_ordinal, 9);
    assert!(r.call_success);
    assert_eq!(r.from, vec![0xa1; 20]);
    assert_eq!(r.to, vec![0xa2; 20]);
    assert_eq!(r.value, "5003");
    assert_eq!(r.valid_after, "5004");
    assert_eq!(r.valid_before, "5005");
    assert_eq!(r.nonce, vec![0x46u8; 32]);
    assert_eq!(r.signature, vec![0x66u8; 5]);
}

#[test]
fn receive_with_authorization_2_call_record() {
    let mut input = unhex("ef55bec6");
    input.extend_from_slice(&pad_addr(&vec![0xa1; 20]));
    input.extend_from_slice(&pad_addr(&vec![0xa2; 20]));
    input.extend_from_slice(&word_of_u64(5003));
    input.extend_from_slice(&word_of_u64(5004));
    input.extend_from_slice(&word_of_u64(5005));
    input.extend_from_slice(&vec![0x46; 32]);
    input.extend_from_slice(&word_of_u64(27));
    input.extend_from_slice(&vec![0x48; 32]);
    input.extend_from_slice(&vec![0x49; 32]);
    let call = Call {
        address: usdc_address(),
        begin_ordinal: 9,
        state_reverted: false,
        input,
        return_data: Vec::new(),
    };
    let calls = map_calls(&call_block(call)).expect("one qualifying call");
    assert_eq!(calls.usdc_call_receive_with_authorization_2s.len(), 1);
    let r = &calls.usdc_call_receive_with_authorization_2s[0];
    assert_eq!(r.call_ordinal, 9);
    assert!(r.call_success);
    assert_eq!(r.from, vec![0xa1; 20]);
    assert_eq!(r.to, vec![0xa2; 20]);
    assert_eq!(r.value, "5003");
    assert_eq!(r.valid_after, "5004");
    assert_eq!(r.valid_before, "5005");
    assert_eq!(r.nonce, vec![0x46u8; 32]);
    assert_eq!(r.v, 27);
    assert_eq!(r.r, vec![0x48u8; 32]);
    assert_eq!(r.s, vec![0x49u8; 32]);
}

#[test]
fn remove_minter_call_record() {
    let mut input = unhex("3092afd5");
    input.extend_from_slice(&pad_addr(&vec![0xa1; 20]));
    let call = Call {
        address: usdc_address(),
        begin_ordinal: 9,
        state_reverted: false,
        input,
        return_data: { let mut w = vec![0u8; 31]; w.push(1); w },
    };
    let calls = map_calls(&call_block(call)).expect("one qualifying call");
    assert_eq!(calls.usdc_call_remove_minters.len(), 1);
    let r = &calls.usdc_call_remove_minters[0];
    assert_eq!(r.call_ordinal, 9);
    assert!(r.call_success);
    assert!(r.output_param0);
    assert_eq!(r.minter, vec![0xa1; 20]);
}

#[test]
fn rescue_erc20_call_record() {
    let mut input = unhex("b2118a8d");
    input.extend_from_slice(&pad_addr(&vec![0xa1; 20]));
    input.extend_from_slice(&pad_addr(&vec![0xa2; 20]));
    input.extend_from_slice(&word_of_u64(5003));
    let call = Call {
        address: usdc_address(),
        begin_ordinal: 9,
        state_reverted: false,
        input,
        return_data: Vec::new(),
    };
    let calls = map_calls(&call_block(call)).expect("one qualifying call");
    assert_eq!(calls.usdc_call_rescue_erc_20s.len(), 1);
    let r = &calls.usdc_call_rescue_erc_20s[0];
    assert_eq!(r.call_ordinal, 9);
    assert!(r.call_success);
    assert_eq!(r.token_contract, vec![0xa1; 20]);
    assert_eq!(r.to, vec![0xa2; 20]);
    assert_eq!(r.amount, "5003");
}

#[test]
fn transfer_from_call_record() {
    let mut input = unhex("23b872dd");
    input.extend_from_slice(&pad_addr(&vec![0xa1; 20]));
    input.extend_from_slice(&pad_addr(&vec![0xa2; 20]));
    input.extend_from_slice(&word_of_u64(5003));
    let call = Call {
        address: usdc_address(),
        begin_ordinal: 9,
        state_reverted: false,
        input,
        return_data: { let mut w = vec![0u8; 31]; w.push(1); w },
    };
    let calls = map_calls(&call_block(call)).expect("one qualifying call");
    assert_eq!(calls.usdc_call_transfer_froms.len(), 1);
    let r = &calls.usdc_call_transfer_froms[0];
    assert_eq!(r.call_ordinal, 9);
    assert!(r.call_success);
    assert!(r.output_param0);
    assert_eq!(r.from, vec![0xa1; 20]);
    assert_eq!(r.to, vec![0xa2; 20]);
    assert_eq!(r.value, "5003");
}

#[test]
fn transfer_ownership_call_record() {
    let mut input = unhex("f2fde38b");
    input.extend_from_slice(&pad_addr(&vec![0xa1; 20]));
    let call = Call {
        address: usdc_address(),
        begin_ordinal: 9,
        state_reverted: false,
        input,
        return_data: Vec::new(),
    };
    let calls = map_calls(&call_block(call)).expect("one qualifying call");
    assert_eq!(calls.usdc_call_transfer_ownerships.len(), 1);
    let r = &calls.usdc_call_transfer_ownerships[0];
    assert_eq!(r.call_ordinal, 9);
    assert!(r.call_success);
    assert_eq!(r.new_owner, vec![0xa1; 20]);
}

#[test]
fn transfer_with_authorization_1_call_record() {
    let mut input = unhex("cf092995");
    input.extend_from_slice(&pad_addr(&vec![0xa1; 20]));
    input.extend_from_slice(&pad_addr(&vec![0xa2; 20]));
    input.extend_from_slice(&word_of_u64(5003));
    input.extend_from_slice(&word_of_u64(5004));
    input.extend_from_slice(&word_of_u64(5005));
    input.extend_from_slice(&vec![0x46; 32]);
    input.extend_from_slice(&word_of_u64(224));
    input.extend_from_slice(&word_of_u64(5));
    input.extend_from_slice(&padded(&unhex("6666666666")));
    let call = Call {
        address: usdc_address(),
        begin_ordinal: 9,
        state_reverted: false,
        input,
        return_data: Vec::new(),
    };
    let calls = map_calls(&call_block(call)).expect("one qualifying call");
    assert_eq!(calls.usdc_call_transfer_with_authorization_1s.len(), 1);
    let r = &calls.usdc_call_transfer_with_authorization_1s[0];
    assert_eq!(r.call_ordinal, 9);
    assert!(r.call_success);
    assert_eq!(r.from, vec![0xa1; 20]);
    assert_eq!(r.to, vec![0xa2; 20]);
    assert_eq!(r.value, "5003");
    assert_eq!(r.valid_after, "5004");
    assert_eq!(r.valid_before, "5005");
    assert_eq!(r.nonce, vec![0x46u8; 32]);
    assert_eq!(r.signature, vec![0x66u8; 5]);
}

#[test]
fn transfer_with_authorization_2_call_record() {
    let mut input = unhex("e3ee160e");
    input.extend_from_slice(&pad_addr(&vec![0xa1; 20]));
    input.extend_from_slice(&pad_addr(&vec![0xa2; 20]));
    input.extend_from_slice(&word_of_u64(5003));
    input.extend_from_slice(&word_of_u64(5004));
    input.extend_from_slice(&word_of_u64(5005));
    input.extend_from_slice(&vec![0x46; 32]);
    input.extend_from_slice(&word_of_u64(27));
    input.extend_from_slice(&vec![0x48; 32]);
    input.extend_from_slice(&vec![0x49; 32]);
    let call = Call {
        address: usdc_address(),
        begin_ordinal: 9,
        state_reverted: false,
        input,
        return_data: Vec::new(),
    };
    let calls = map_calls(&call_block(call)).expect("one qualifying call");
    assert_eq!(calls.usdc_call_transfer_with_authorization_2s.len(), 1);
    let r = &calls.usdc_call_transfer_with_authorization_2s[0];
    assert_eq!(r.call_ordinal, 9);
    assert!(r.call_success);
    assert_eq!(r.from, vec![0xa1; 20]);
    assert_eq!(r.to, vec![0xa2; 20]);
    assert_eq!(r.value, "5003");
    assert_eq!(r.valid_after, "5004");
    assert_eq!(r.valid_before, "5005");
    assert_eq!(r.nonce, vec![0x46u8; 32]);
    assert_eq!(r.v, 27);
    assert_eq!(r.r, vec![0x48u8; 32]);
    assert_eq!(r.s, vec![0x49u8; 32]);
}

#[test]
fn un_blacklist_call_record() {
    let mut input = unhex("1a895266");
    input.extend_from_slice(&pad_addr(&vec![0xa1; 20]));
    let call = Call {
        address: usdc_address(),
        begin_ordinal: 9,
        state_reverted: false,
        input,
        return_data: Vec::new(),
    };
    let calls = map_calls(&call_block(call)).expect("one qualifying call");
    assert_eq!(calls.usdc_call_un_blacklists.len(), 1);
    let r = &calls.usdc_call_un_blacklists[0];
    assert_eq!(r.call_ordinal, 9);
    assert!(r.call_success);
    assert_eq!(r.u_account, vec![0xa1; 20]);
}

#[test]
fn unpause_call_record() {
    let mut input = unhex("3f4ba83a");
    let call = Call {
        address: usdc_address(),
        begin_ordinal: 9,
        state_reverted: false,
        input,
        return_data: Vec::new(),
    };
    let calls = map_calls(&call_block(call)).expect("one qualifying call");
    assert_eq!(calls.usdc_call_unpauses.len(), 1);
    let r = &calls.usdc_call_unpauses[0];
    assert_eq!(r.call_ordinal, 9);
    assert!(r.call_success);
}

#[test]
fn update_blacklister_call_record() {
    let mut input = unhex("ad38bf22");
    input.extend_from_slice(&pad_addr(&vec![0xa1; 20]));
    let call = Call {
        address: usdc_address(),
        begin_ordinal: 9,
        state_reverted: false,
        input,
        return_data: Vec::new(),
    };
    let calls = map_calls(&call_block(call)).expect("one qualifying call");
    assert_eq!(calls.usdc_call_update_blacklisters.len(), 1);
    let r = &calls.usdc_call_update_blacklisters[0];
    assert_eq!(r.call_ordinal, 9);
    assert!(r.call_success);
    assert_eq!(r.u_new_blacklister, vec![0xa1; 20]);
}

#[test]
fn update_master_minter_call_record() {
    let mut input = unhex("aa20e1e4");
    input.extend_from_slice(&pad_addr(&vec![0xa1; 20]));
    let call = Call {
        address: usdc_address(),
        begin_ordinal: 9,
        state_reverted: false,
        input,
        return_data: Vec::new(),
    };
    let calls = map_calls(&call_block(call)).expect("one qualifying call");
    assert_eq!(calls.usdc_call_update_master_minters.len(), 1);
    let r = &calls.usdc_call_update_master_minters[0];
    assert_eq!(r.call_ordinal, 9);
    assert!(r.call_success);
    assert_eq!(r.u_new_master_minter, vec![0xa1; 20]);
}

#[test]
fn update_pauser_call_record() {
    let mut input = unhex("554bab3c");
    input.extend_from_slice(&pad_addr(&vec![0xa1; 20]));
    let call = Call {
        address: usdc_address(),
        begin_ordinal: 9,
        state_reverted: false,
        input,
        return_data: Vec::new(),
    };
    let calls = map_calls(&call_block(call)).expect("one qualifying call");
    assert_eq!(calls.usdc_call_update_pausers.len(), 1);
    let r = &calls.usdc_call_update_pausers[0];
    assert_eq!(r.call_ordinal, 9);
    assert!(r.call_success);
    assert_eq!(r.u_new_pauser, vec![0xa1; 20]);
}

#[test]
fn update_rescuer_call_record() {
    let mut input = unhex("2ab60045");
    input.extend_from_slice(&pad_addr(&vec![0xa1; 20]));
    let call = Call {
        address: usdc_address(),
        begin_ordinal: 9,
        state_reverted: false,
        input,
        return_data: Vec::new(),
    };
    let calls = map_calls(&call_block(call)).expect("one qualifying call");
    assert_eq!(calls.usdc_call_update_rescuers.len(), 1);
    let r = &calls.usdc_call_update_rescuers[0];
    assert_eq!(r.call_ordinal, 9);
    assert!(r.call_success);
    assert_eq!(r.new_rescuer, vec![0xa1; 20]);
}

#[test]
fn upgrade_to_call_record() {
    let mut input = unhex("3659cfe6");
    input.extend_from_slice(&pad_addr(&vec![0xa1; 20]));
    let call = Call {
        address: usdc_address(),
        begin_ordinal: 9,
        state_reverted: false,
        input,
        return_data: Vec::new(),
    };
    let calls = map_calls(&call_block(call)).expect("one qualifying call");
    assert_eq!(calls.usdc_call_upgrade_tos.len(), 1);
    let r = &calls.usdc_call_upgrade_tos[0];
    assert_eq!(r.call_ordinal, 9);
    assert!(r.call_success);
    assert_eq!(r.new_implementation, vec![0xa1; 20]);
}

