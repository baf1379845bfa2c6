//! The pipeline entry points and the batch assembler.
//!
//! `map_usdc_events` and `map_usdc_calls` append one batch per signature kind
//! to the given containers, in block traversal order.  `map_events` and
//! `map_calls` run one projector over a fresh container and suppress the
//! output (return `None`) when every batch is empty; downstream must treat a
//! suppressed output and an all-empty output as equivalent.  The combined
//! envelope `map_events_calls` never suppresses.

use vstd::prelude::*;

use crate::model::Block;
use crate::records::Events;
use crate::records::Calls;
use crate::records::EventsCalls;

use crate::events::scan_admin_changed_events;
use crate::events::admin_changed_event_srcs;
use crate::events::admin_changed_event_rec_ok;
use crate::events::scan_approval_events;
use crate::events::approval_event_srcs;
use crate::events::approval_event_rec_ok;
use crate::events::scan_authorization_canceled_events;
use crate::events::authorization_canceled_event_srcs;
use crate::events::authorization_canceled_event_rec_ok;
use crate::events::scan_authorization_used_events;
use crate::events::authorization_used_event_srcs;
use crate::events::authorization_used_event_rec_ok;
use crate::events::scan_blacklisted_events;
use crate::events::blacklisted_event_srcs;
use crate::events::blacklisted_event_rec_ok;
use crate::events::scan_blacklister_changed_events;
use crate::events::blacklister_changed_event_srcs;
use crate::events::blacklister_changed_event_rec_ok;
use crate::events::scan_burn_events;
use crate::events::burn_event_srcs;
use crate::events::burn_event_rec_ok;
use crate::events::scan_master_minter_changed_events;
use crate::events::master_minter_changed_event_srcs;
use crate::events::master_minter_changed_event_rec_ok;
use crate::events::scan_mint_events;
use crate::events::mint_event_srcs;
use crate::events::mint_event_rec_ok;
use crate::events::scan_minter_configured_events;
use crate::events::minter_configured_event_srcs;
use crate::events::minter_configured_event_rec_ok;
use crate::events::scan_minter_removed_events;
use crate::events::minter_removed_event_srcs;
use crate::events::minter_removed_event_rec_ok;
use crate::events::scan_ownership_transferred_events;
use crate::events::ownership_transferred_event_srcs;
use crate::events::ownership_transferred_event_rec_ok;
use crate::events::scan_pause_events;
use crate::events::pause_event_srcs;
use crate::events::pause_event_rec_ok;
use crate::events::scan_pauser_changed_events;
use crate::events::pauser_changed_event_srcs;
use crate::events::pauser_changed_event_rec_ok;
use crate::events::scan_rescuer_changed_events;
use crate::events::rescuer_changed_event_srcs;
use crate::events::rescuer_changed_event_rec_ok;
use crate::events::scan_transfer_events;
use crate::events::transfer_event_srcs;
use crate::events::transfer_event_rec_ok;
use crate::events::scan_un_blacklisted_events;
use crate::events::un_blacklisted_event_srcs;
use crate::events::un_blacklisted_event_rec_ok;
use crate::events::scan_unpause_events;
use crate::events::unpause_event_srcs;
use crate::events::unpause_event_rec_ok;
use crate::events::scan_upgraded_events;
use crate::events::upgraded_event_srcs;
use crate::events::upgraded_event_rec_ok;
use crate::calls::scan_approve_calls;
use crate::calls::approve_call_srcs;
use crate::calls::approve_call_rec_ok;
use crate::calls::scan_blacklist_calls;
use crate::calls::blacklist_call_srcs;
use crate::calls::blacklist_call_rec_ok;
use crate::calls::scan_burn_calls;
use crate::calls::burn_call_srcs;
use crate::calls::burn_call_rec_ok;
use crate::calls::scan_cancel_authorization_1_calls;
use crate::calls::cancel_authorization_1_call_srcs;
use crate::calls::cancel_authorization_1_call_rec_ok;
use crate::calls::scan_cancel_authorization_2_calls;
use crate::calls::cancel_authorization_2_call_srcs;
use crate::calls::cancel_authorization_2_call_rec_ok;
use crate::calls::scan_change_admin_calls;
use crate::calls::change_admin_call_srcs;
use crate::calls::change_admin_call_rec_ok;
use crate::calls::scan_configure_minter_calls;
use crate::calls::configure_minter_call_srcs;
use crate::calls::configure_minter_call_rec_ok;
use crate::calls::scan_decrease_allowance_calls;
use crate::calls::decrease_allowance_call_srcs;
use crate::calls::decrease_allowance_call_rec_ok;
use crate::calls::scan_increase_allowance_calls;
use crate::calls::increase_allowance_call_srcs;
use crate::calls::increase_allowance_call_rec_ok;
use crate::calls::scan_initialize_calls;
use crate::calls::initialize_call_srcs;
use crate::calls::initialize_call_rec_ok;
use crate::calls::scan_initialize_v2_calls;
use crate::calls::initialize_v2_call_srcs;
use crate::calls::initialize_v2_call_rec_ok;
use crate::calls::scan_initialize_v2_1_calls;
use crate::calls::initialize_v2_1_call_srcs;
use crate::calls::initialize_v2_1_call_rec_ok;
use crate::calls::scan_initialize_v2_2_calls;
use crate::calls::initialize_v2_2_call_srcs;
use crate::calls::initialize_v2_2_call_rec_ok;
use crate::calls::scan_mint_calls;
use crate::calls::mint_call_srcs;
use crate::calls::mint_call_rec_ok;
use crate::calls::scan_pause_calls;
use crate::calls::pause_call_srcs;
use crate::calls::pause_call_rec_ok;
use crate::calls::scan_permit_1_calls;
use crate::calls::permit_1_call_srcs;
use crate::calls::permit_1_call_rec_ok;
use crate::calls::scan_permit_2_calls;
use crate::calls::permit_2_call_srcs;
use crate::calls::permit_2_call_rec_ok;
use crate::calls::scan_receive_with_authorization_1_calls;
use crate::calls::receive_with_authorization_1_call_srcs;
use crate::calls::receive_with_authorization_1_call_rec_ok;
use crate::calls::scan_receive_with_authorization_2_calls;
use crate::calls::receive_with_authorization_2_call_srcs;
use crate::calls::receive_with_authorization_2_call_rec_ok;
use crate::calls::scan_remove_minter_calls;
use crate::calls::remove_minter_call_srcs;
use crate::calls::remove_minter_call_rec_ok;
use crate::calls::scan_rescue_erc20_calls;
use crate::calls::rescue_erc20_call_srcs;
use crate::calls::rescue_erc20_call_rec_ok;
use crate::calls::scan_transfer_calls;
use crate::calls::transfer_call_srcs;
use crate::calls::transfer_call_rec_ok;
use crate::calls::scan_transfer_from_calls;
use crate::calls::transfer_from_call_srcs;
use crate::calls::transfer_from_call_rec_ok;
use crate::calls::scan_transfer_ownership_calls;
use crate::calls::transfer_ownership_call_srcs;
use crate::calls::transfer_ownership_call_rec_ok;
use crate::calls::scan_transfer_with_authorization_1_calls;
use crate::calls::transfer_with_authorization_1_call_srcs;
use crate::calls::transfer_with_authorization_1_call_rec_ok;
use crate::calls::scan_transfer_with_authorization_2_calls;
use crate::calls::transfer_with_authorization_2_call_srcs;
use crate::calls::transfer_with_authorization_2_call_rec_ok;
use crate::calls::scan_un_blacklist_calls;
use crate::calls::un_blacklist_call_srcs;
use crate::calls::un_blacklist_call_rec_ok;
use crate::calls::scan_unpause_calls;
use crate::calls::unpause_call_srcs;
use crate::calls::unpause_call_rec_ok;
use crate::calls::scan_update_blacklister_calls;
use crate::calls::update_blacklister_call_srcs;
use crate::calls::update_blacklister_call_rec_ok;
use crate::calls::scan_update_master_minter_calls;
use crate::calls::update_master_minter_call_srcs;
use crate::calls::update_master_minter_call_rec_ok;
use crate::calls::scan_update_pauser_calls;
use crate::calls::update_pauser_call_srcs;
use crate::calls::update_pauser_call_rec_ok;
use crate::calls::scan_update_rescuer_calls;
use crate::calls::update_rescuer_call_srcs;
use crate::calls::update_rescuer_call_rec_ok;
use crate::calls::scan_upgrade_to_calls;
use crate::calls::upgrade_to_call_srcs;
use crate::calls::upgrade_to_call_rec_ok;
use crate::calls::scan_upgrade_to_and_call_calls;
use crate::calls::upgrade_to_and_call_call_srcs;
use crate::calls::upgrade_to_and_call_call_rec_ok;

verus! {

/// Whether every event batch is empty.
pub open spec fn events_all_empty(e: Events) -> bool {
    &&& e.usdc_admin_changeds@.len() == 0
    &&& e.usdc_approvals@.len() == 0
    &&& e.usdc_authorization_canceleds@.len() == 0
    &&& e.usdc_authorization_useds@.len() == 0
    &&& e.usdc_blacklisteds@.len() == 0
    &&& e.usdc_blacklister_changeds@.len() == 0
    &&& e.usdc_burns@.len() == 0
    &&& e.usdc_master_minter_changeds@.len() == 0
    &&& e.usdc_mints@.len() == 0
    &&& e.usdc_minter_configureds@.len() == 0
    &&& e.usdc_minter_removeds@.len() == 0
    &&& e.usdc_ownership_transferreds@.len() == 0
    &&& e.usdc_pauses@.len() == 0
    &&& e.usdc_pauser_changeds@.len() == 0
    &&& e.usdc_rescuer_changeds@.len() == 0
    &&& e.usdc_transfers@.len() == 0
    &&& e.usdc_un_blacklisteds@.len() == 0
    &&& e.usdc_unpauses@.len() == 0
    &&& e.usdc_upgradeds@.len() == 0
}

/// Whether every call batch is empty.
pub open spec fn calls_all_empty(c: Calls) -> bool {
    &&& c.usdc_call_approves@.len() == 0
    &&& c.usdc_call_blacklists@.len() == 0
    &&& c.usdc_call_burns@.len() == 0
    &&& c.usdc_call_cancel_authorization_1s@.len() == 0
    &&& c.usdc_call_cancel_authorization_2s@.len() == 0
    &&& c.usdc_call_change_admins@.len() == 0
    &&& c.usdc_call_configure_minters@.len() == 0
    &&& c.usdc_call_decrease_allowances@.len() == 0
    &&& c.usdc_call_increase_allowances@.len() == 0
    &&& c.usdc_call_initializes@.len() == 0
    &&& c.usdc_call_initialize_v_2s@.len() == 0
    &&& c.usdc_call_initialize_v2_1s@.len() == 0
    &&& c.usdc_call_initialize_v2_2s@.len() == 0
    &&& c.usdc_call_mints@.len() == 0
    &&& c.usdc_call_pauses@.len() == 0
    &&& c.usdc_call_permit_1s@.len() == 0
    &&& c.usdc_call_permit_2s@.len() == 0
    &&& c.usdc_call_receive_with_authorization_1s@.len() == 0
    &&& c.usdc_call_receive_with_authorization_2s@.len() == 0
    &&& c.usdc_call_remove_minters@.len() == 0
    &&& c.usdc_call_rescue_erc_20s@.len() == 0
    &&& c.usdc_call_transfers@.len() == 0
    &&& c.usdc_call_transfer_froms@.len() == 0
    &&& c.usdc_call_transfer_ownerships@.len() == 0
    &&& c.usdc_call_transfer_with_authorization_1s@.len() == 0
    &&& c.usdc_call_transfer_with_authorization_2s@.len() == 0
    &&& c.usdc_call_un_blacklists@.len() == 0
    &&& c.usdc_call_unpauses@.len() == 0
    &&& c.usdc_call_update_blacklisters@.len() == 0
    &&& c.usdc_call_update_master_minters@.len() == 0
    &&& c.usdc_call_update_pausers@.len() == 0
    &&& c.usdc_call_update_rescuers@.len() == 0
    &&& c.usdc_call_upgrade_tos@.len() == 0
    &&& c.usdc_call_upgrade_to_and_calls@.len() == 0
}

impl Default for Events {
    /// A container with every batch empty.
    fn default() -> (e: Events)
        ensures
            events_all_empty(e),
    {
        Events {
            usdc_admin_changeds: Vec::new(),
            usdc_approvals: Vec::new(),
            usdc_authorization_canceleds: Vec::new(),
            usdc_authorization_useds: Vec::new(),
            usdc_blacklisteds: Vec::new(),
            usdc_blacklister_changeds: Vec::new(),
            usdc_burns: Vec::new(),
            usdc_master_minter_changeds: Vec::new(),
            usdc_mints: Vec::new(),
            usdc_minter_configureds: Vec::new(),
            usdc_minter_removeds: Vec::new(),
            usdc_ownership_transferreds: Vec::new(),
            usdc_pauses: Vec::new(),
            usdc_pauser_changeds: Vec::new(),
            usdc_rescuer_changeds: Vec::new(),
            usdc_transfers: Vec::new(),
            usdc_un_blacklisteds: Vec::new(),
            usdc_unpauses: Vec::new(),
            usdc_upgradeds: Vec::new(),
        }
    }
}

impl Default for Calls {
    /// A container with every batch empty.
    fn default() -> (c: Calls)
        ensures
            calls_all_empty(c),
    {
        Calls {
            usdc_call_approves: Vec::new(),
            usdc_call_blacklists: Vec::new(),
            usdc_call_burns: Vec::new(),
            usdc_call_cancel_authorization_1s: Vec::new(),
            usdc_call_cancel_authorization_2s: Vec::new(),
            usdc_call_change_admins: Vec::new(),
            usdc_call_configure_minters: Vec::new(),
            usdc_call_decrease_allowances: Vec::new(),
            usdc_call_increase_allowances: Vec::new(),
            usdc_call_initializes: Vec::new(),
            usdc_call_initialize_v_2s: Vec::new(),
            usdc_call_initialize_v2_1s: Vec::new(),
            usdc_call_initialize_v2_2s: Vec::new(),
            usdc_call_mints: Vec::new(),
            usdc_call_pauses: Vec::new(),
            usdc_call_permit_1s: Vec::new(),
            usdc_call_permit_2s: Vec::new(),
            usdc_call_receive_with_authorization_1s: Vec::new(),
            usdc_call_receive_with_authorization_2s: Vec::new(),
            usdc_call_remove_minters: Vec::new(),
            usdc_call_rescue_erc_20s: Vec::new(),
            usdc_call_transfers: Vec::new(),
            usdc_call_transfer_froms: Vec::new(),
            usdc_call_transfer_ownerships: Vec::new(),
            usdc_call_transfer_with_authorization_1s: Vec::new(),
            usdc_call_transfer_with_authorization_2s: Vec::new(),
            usdc_call_un_blacklists: Vec::new(),
            usdc_call_unpauses: Vec::new(),
            usdc_call_update_blacklisters: Vec::new(),
            usdc_call_update_master_minters: Vec::new(),
            usdc_call_update_pausers: Vec::new(),
            usdc_call_update_rescuers: Vec::new(),
            usdc_call_upgrade_tos: Vec::new(),
            usdc_call_upgrade_to_and_calls: Vec::new(),
        }
    }
}

/// The event projector: appends one batch per tracked event signature,
/// keeping whatever records the container already held.
pub fn map_usdc_events(blk: &Block, events: &mut Events)
    ensures
        final(events).usdc_admin_changeds@.len() == old(events).usdc_admin_changeds@.len() + admin_changed_event_srcs(*blk).len(),
        forall|k: int|
            0 <= k < old(events).usdc_admin_changeds@.len() ==> final(events).usdc_admin_changeds@[k] == old(events).usdc_admin_changeds@[k],
        forall|k: int|
            0 <= k < admin_changed_event_srcs(*blk).len() ==> admin_changed_event_rec_ok(
                final(events).usdc_admin_changeds@[old(events).usdc_admin_changeds@.len() + k],
                *blk,
                (#[trigger] admin_changed_event_srcs(*blk)[k]).0,
                admin_changed_event_srcs(*blk)[k].1,
            ),
        final(events).usdc_approvals@.len() == old(events).usdc_approvals@.len() + approval_event_srcs(*blk).len(),
        forall|k: int|
            0 <= k < old(events).usdc_approvals@.len() ==> final(events).usdc_approvals@[k] == old(events).usdc_approvals@[k],
        forall|k: int|
            0 <= k < approval_event_srcs(*blk).len() ==> approval_event_rec_ok(
                final(events).usdc_approvals@[old(events).usdc_approvals@.len() + k],
                *blk,
                (#[trigger] approval_event_srcs(*blk)[k]).0,
                approval_event_srcs(*blk)[k].1,
            ),
        final(events).usdc_authorization_canceleds@.len() == old(events).usdc_authorization_canceleds@.len() + authorization_canceled_event_srcs(*blk).len(),
        forall|k: int|
            0 <= k < old(events).usdc_authorization_canceleds@.len() ==> final(events).usdc_authorization_canceleds@[k] == old(events).usdc_authorization_canceleds@[k],
        forall|k: int|
            0 <= k < authorization_canceled_event_srcs(*blk).len() ==> authorization_canceled_event_rec_ok(
                final(events).usdc_authorization_canceleds@[old(events).usdc_authorization_canceleds@.len() + k],
                *blk,
                (#[trigger] authorization_canceled_event_srcs(*blk)[k]).0,
                authorization_canceled_event_srcs(*blk)[k].1,
            ),
        final(events).usdc_authorization_useds@.len() == old(events).usdc_authorization_useds@.len() + authorization_used_event_srcs(*blk).len(),
        forall|k: int|
            0 <= k < old(events).usdc_authorization_useds@.len() ==> final(events).usdc_authorization_useds@[k] == old(events).usdc_authorization_useds@[k],
        forall|k: int|
            0 <= k < authorization_used_event_srcs(*blk).len() ==> authorization_used_event_rec_ok(
                final(events).usdc_authorization_useds@[old(events).usdc_authorization_useds@.len() + k],
                *blk,
                (#[trigger] authorization_used_event_srcs(*blk)[k]).0,
                authorization_used_event_srcs(*blk)[k].1,
            ),
        final(events).usdc_blacklisteds@.len() == old(events).usdc_blacklisteds@.len() + blacklisted_event_srcs(*blk).len(),
        forall|k: int|
            0 <= k < old(events).usdc_blacklisteds@.len() ==> final(events).usdc_blacklisteds@[k] == old(events).usdc_blacklisteds@[k],
        forall|k: int|
            0 <= k < blacklisted_event_srcs(*blk).len() ==> blacklisted_event_rec_ok(
                final(events).usdc_blacklisteds@[old(events).usdc_blacklisteds@.len() + k],
                *blk,
                (#[trigger] blacklisted_event_srcs(*blk)[k]).0,
                blacklisted_event_srcs(*blk)[k].1,
            ),
        final(events).usdc_blacklister_changeds@.len() == old(events).usdc_blacklister_changeds@.len() + blacklister_changed_event_srcs(*blk).len(),
        forall|k: int|
            0 <= k < old(events).usdc_blacklister_changeds@.len() ==> final(events).usdc_blacklister_changeds@[k] == old(events).usdc_blacklister_changeds@[k],
        forall|k: int|
            0 <= k < blacklister_changed_event_srcs(*blk).len() ==> blacklister_changed_event_rec_ok(
                final(events).usdc_blacklister_changeds@[old(events).usdc_blacklister_changeds@.len() + k],
                *blk,
                (#[trigger] blacklister_changed_event_srcs(*blk)[k]).0,
                blacklister_changed_event_srcs(*blk)[k].1,
            ),
        final(events).usdc_burns@.len() == old(events).usdc_burns@.len() + burn_event_srcs(*blk).len(),
        forall|k: int|
            0 <= k < old(events).usdc_burns@.len() ==> final(events).usdc_burns@[k] == old(events).usdc_burns@[k],
        forall|k: int|
            0 <= k < burn_event_srcs(*blk).len() ==> burn_event_rec_ok(
                final(events).usdc_burns@[old(events).usdc_burns@.len() + k],
                *blk,
                (#[trigger] burn_event_srcs(*blk)[k]).0,
                burn_event_srcs(*blk)[k].1,
            ),
        final(events).usdc_master_minter_changeds@.len() == old(events).usdc_master_minter_changeds@.len() + master_minter_changed_event_srcs(*blk).len(),
        forall|k: int|
            0 <= k < old(events).usdc_master_minter_changeds@.len() ==> final(events).usdc_master_minter_changeds@[k] == old(events).usdc_master_minter_changeds@[k],
        forall|k: int|
            0 <= k < master_minter_changed_event_srcs(*blk).len() ==> master_minter_changed_event_rec_ok(
                final(events).usdc_master_minter_changeds@[old(events).usdc_master_minter_changeds@.len() + k],
                *blk,
                (#[trigger] master_minter_changed_event_srcs(*blk)[k]).0,
                master_minter_changed_event_srcs(*blk)[k].1,
            ),
        final(events).usdc_mints@.len() == old(events).usdc_mints@.len() + mint_event_srcs(*blk).len(),
        forall|k: int|
            0 <= k < old(events).usdc_mints@.len() ==> final(events).usdc_mints@[k] == old(events).usdc_mints@[k],
        forall|k: int|
            0 <= k < mint_event_srcs(*blk).len() ==> mint_event_rec_ok(
                final(events).usdc_mints@[old(events).usdc_mints@.len() + k],
                *blk,
                (#[trigger] mint_event_srcs(*blk)[k]).0,
                mint_event_srcs(*blk)[k].1,
            ),
        final(events).usdc_minter_configureds@.len() == old(events).usdc_minter_configureds@.len() + minter_configured_event_srcs(*blk).len(),
        forall|k: int|
            0 <= k < old(events).usdc_minter_configureds@.len() ==> final(events).usdc_minter_configureds@[k] == old(events).usdc_minter_configureds@[k],
        forall|k: int|
            0 <= k < minter_configured_event_srcs(*blk).len() ==> minter_configured_event_rec_ok(
                final(events).usdc_minter_configureds@[old(events).usdc_minter_configureds@.len() + k],
                *blk,
                (#[trigger] minter_configured_event_srcs(*blk)[k]).0,
                minter_configured_event_srcs(*blk)[k].1,
            ),
        final(events).usdc_minter_removeds@.len() == old(events).usdc_minter_removeds@.len() + minter_removed_event_srcs(*blk).len(),
        forall|k: int|
            0 <= k < old(events).usdc_minter_removeds@.len() ==> final(events).usdc_minter_removeds@[k] == old(events).usdc_minter_removeds@[k],
        forall|k: int|
            0 <= k < minter_removed_event_srcs(*blk).len() ==> minter_removed_event_rec_ok(
                final(events).usdc_minter_removeds@[old(events).usdc_minter_removeds@.len() + k],
                *blk,
                (#[trigger] minter_removed_event_srcs(*blk)[k]).0,
                minter_removed_event_srcs(*blk)[k].1,
            ),
        final(events).usdc_ownership_transferreds@.len() == old(events).usdc_ownership_transferreds@.len() + ownership_transferred_event_srcs(*blk).len(),
        forall|k: int|
            0 <= k < old(events).usdc_ownership_transferreds@.len() ==> final(events).usdc_ownership_transferreds@[k] == old(events).usdc_ownership_transferreds@[k],
        forall|k: int|
            0 <= k < ownership_transferred_event_srcs(*blk).len() ==> ownership_transferred_event_rec_ok(
                final(events).usdc_ownership_transferreds@[old(events).usdc_ownership_transferreds@.len() + k],
                *blk,
                (#[trigger] ownership_transferred_event_srcs(*blk)[k]).0,
                ownership_transferred_event_srcs(*blk)[k].1,
            ),
        final(events).usdc_pauses@.len() == old(events).usdc_pauses@.len() + pause_event_srcs(*blk).len(),
        forall|k: int|
            0 <= k < old(events).usdc_pauses@.len() ==> final(events).usdc_pauses@[k] == old(events).usdc_pauses@[k],
        forall|k: int|
            0 <= k < pause_event_srcs(*blk).len() ==> pause_event_rec_ok(
                final(events).usdc_pauses@[old(events).usdc_pauses@.len() + k],
                *blk,
                (#[trigger] pause_event_srcs(*blk)[k]).0,
                pause_event_srcs(*blk)[k].1,
            ),
        final(events).usdc_pauser_changeds@.len() == old(events).usdc_pauser_changeds@.len() + pauser_changed_event_srcs(*blk).len(),
        forall|k: int|
            0 <= k < old(events).usdc_pauser_changeds@.len() ==> final(events).usdc_pauser_changeds@[k] == old(events).usdc_pauser_changeds@[k],
        forall|k: int|
            0 <= k < pauser_changed_event_srcs(*blk).len() ==> pauser_changed_event_rec_ok(
                final(events).usdc_pauser_changeds@[old(events).usdc_pauser_changeds@.len() + k],
                *blk,
                (#[trigger] pauser_changed_event_srcs(*blk)[k]).0,
                pauser_changed_event_srcs(*blk)[k].1,
            ),
        final(events).usdc_rescuer_changeds@.len() == old(events).usdc_rescuer_changeds@.len() + rescuer_changed_event_srcs(*blk).len(),
        forall|k: int|
            0 <= k < old(events).usdc_rescuer_changeds@.len() ==> final(events).usdc_rescuer_changeds@[k] == old(events).usdc_rescuer_changeds@[k],
        forall|k: int|
            0 <= k < rescuer_changed_event_srcs(*blk).len() ==> rescuer_changed_event_rec_ok(
                final(events).usdc_rescuer_changeds@[old(events).usdc_rescuer_changeds@.len() + k],
                *blk,
                (#[trigger] rescuer_changed_event_srcs(*blk)[k]).0,
                rescuer_changed_event_srcs(*blk)[k].1,
            ),
        final(events).usdc_transfers@.len() == old(events).usdc_transfers@.len() + transfer_event_srcs(*blk).len(),
        forall|k: int|
            0 <= k < old(events).usdc_transfers@.len() ==> final(events).usdc_transfers@[k] == old(events).usdc_transfers@[k],
        forall|k: int|
            0 <= k < transfer_event_srcs(*blk).len() ==> transfer_event_rec_ok(
                final(events).usdc_transfers@[old(events).usdc_transfers@.len() + k],
                *blk,
                (#[trigger] transfer_event_srcs(*blk)[k]).0,
                transfer_event_srcs(*blk)[k].1,
            ),
        final(events).usdc_un_blacklisteds@.len() == old(events).usdc_un_blacklisteds@.len() + un_blacklisted_event_srcs(*blk).len(),
        forall|k: int|
            0 <= k < old(events).usdc_un_blacklisteds@.len() ==> final(events).usdc_un_blacklisteds@[k] == old(events).usdc_un_blacklisteds@[k],
        forall|k: int|
            0 <= k < un_blacklisted_event_srcs(*blk).len() ==> un_blacklisted_event_rec_ok(
                final(events).usdc_un_blacklisteds@[old(events).usdc_un_blacklisteds@.len() + k],
                *blk,
                (#[trigger] un_blacklisted_event_srcs(*blk)[k]).0,
                un_blacklisted_event_srcs(*blk)[k].1,
            ),
        final(events).usdc_unpauses@.len() == old(events).usdc_unpauses@.len() + unpause_event_srcs(*blk).len(),
        forall|k: int|
            0 <= k < old(events).usdc_unpauses@.len() ==> final(events).usdc_unpauses@[k] == old(events).usdc_unpauses@[k],
        forall|k: int|
            0 <= k < unpause_event_srcs(*blk).len() ==> unpause_event_rec_ok(
                final(events).usdc_unpauses@[old(events).usdc_unpauses@.len() + k],
                *blk,
                (#[trigger] unpause_event_srcs(*blk)[k]).0,
                unpause_event_srcs(*blk)[k].1,
            ),
        final(events).usdc_upgradeds@.len() == old(events).usdc_upgradeds@.len() + upgraded_event_srcs(*blk).len(),
        forall|k: int|
            0 <= k < old(events).usdc_upgradeds@.len() ==> final(events).usdc_upgradeds@[k] == old(events).usdc_upgradeds@[k],
        forall|k: int|
            0 <= k < upgraded_event_srcs(*blk).len() ==> upgraded_event_rec_ok(
                final(events).usdc_upgradeds@[old(events).usdc_upgradeds@.len() + k],
                *blk,
                (#[trigger] upgraded_event_srcs(*blk)[k]).0,
                upgraded_event_srcs(*blk)[k].1,
            ),
{
    let mut v_usdc_admin_changeds = scan_admin_changed_events(blk);
    events.usdc_admin_changeds.append(&mut v_usdc_admin_changeds);
    let mut v_usdc_approvals = scan_approval_events(blk);
    events.usdc_approvals.append(&mut v_usdc_approvals);
    let mut v_usdc_authorization_canceleds = scan_authorization_canceled_events(blk);
    events.usdc_authorization_canceleds.append(&mut v_usdc_authorization_canceleds);
    let mut v_usdc_authorization_useds = scan_authorization_used_events(blk);
    events.usdc_authorization_useds.append(&mut v_usdc_authorization_useds);
    let mut v_usdc_blacklisteds = scan_blacklisted_events(blk);
    events.usdc_blacklisteds.append(&mut v_usdc_blacklisteds);
    let mut v_usdc_blacklister_changeds = scan_blacklister_changed_events(blk);
    events.usdc_blacklister_changeds.append(&mut v_usdc_blacklister_changeds);
    let mut v_usdc_burns = scan_burn_events(blk);
    events.usdc_burns.append(&mut v_usdc_burns);
    let mut v_usdc_master_minter_changeds = scan_master_minter_changed_events(blk);
    events.usdc_master_minter_changeds.append(&mut v_usdc_master_minter_changeds);
    let mut v_usdc_mints = scan_mint_events(blk);
    events.usdc_mints.append(&mut v_usdc_mints);
    let mut v_usdc_minter_configureds = scan_minter_configured_events(blk);
    events.usdc_minter_configureds.append(&mut v_usdc_minter_configureds);
    let mut v_usdc_minter_removeds = scan_minter_removed_events(blk);
    events.usdc_minter_removeds.append(&mut v_usdc_minter_removeds);
    let mut v_usdc_ownership_transferreds = scan_ownership_transferred_events(blk);
    events.usdc_ownership_transferreds.append(&mut v_usdc_ownership_transferreds);
    let mut v_usdc_pauses = scan_pause_events(blk);
    events.usdc_pauses.append(&mut v_usdc_pauses);
    let mut v_usdc_pauser_changeds = scan_pauser_changed_events(blk);
    events.usdc_pauser_changeds.append(&mut v_usdc_pauser_changeds);
    let mut v_usdc_rescuer_changeds = scan_rescuer_changed_events(blk);
    events.usdc_rescuer_changeds.append(&mut v_usdc_rescuer_changeds);
    let mut v_usdc_transfers = scan_transfer_events(blk);
    events.usdc_transfers.append(&mut v_usdc_transfers);
    let mut v_usdc_un_blacklisteds = scan_un_blacklisted_events(blk);
    events.usdc_un_blacklisteds.append(&mut v_usdc_un_blacklisteds);
    let mut v_usdc_unpauses = scan_unpause_events(blk);
    events.usdc_unpauses.append(&mut v_usdc_unpauses);
    let mut v_usdc_upgradeds = scan_upgraded_events(blk);
    events.usdc_upgradeds.append(&mut v_usdc_upgradeds);
}

/// The call projector: appends one batch per tracked function signature,
/// keeping whatever records the container already held.
pub fn map_usdc_calls(blk: &Block, calls: &mut Calls)
    ensures
        final(calls).usdc_call_approves@.len() == old(calls).usdc_call_approves@.len() + approve_call_srcs(*blk).len(),
        forall|k: int|
            0 <= k < old(calls).usdc_call_approves@.len() ==> final(calls).usdc_call_approves@[k] == old(calls).usdc_call_approves@[k],
        forall|k: int|
            0 <= k < approve_call_srcs(*blk).len() ==> approve_call_rec_ok(
                final(calls).usdc_call_approves@[old(calls).usdc_call_approves@.len() + k],
                *blk,
                (#[trigger] approve_call_srcs(*blk)[k]).0,
                approve_call_srcs(*blk)[k].1,
            ),
        final(calls).usdc_call_blacklists@.len() == old(calls).usdc_call_blacklists@.len() + blacklist_call_srcs(*blk).len(),
        forall|k: int|
            0 <= k < old(calls).usdc_call_blacklists@.len() ==> final(calls).usdc_call_blacklists@[k] == old(calls).usdc_call_blacklists@[k],
        forall|k: int|
            0 <= k < blacklist_call_srcs(*blk).len() ==> blacklist_call_rec_ok(
                final(calls).usdc_call_blacklists@[old(calls).usdc_call_blacklists@.len() + k],
                *blk,
                (#[trigger] blacklist_call_srcs(*blk)[k]).0,
                blacklist_call_srcs(*blk)[k].1,
            ),
        final(calls).usdc_call_burns@.len() == old(calls).usdc_call_burns@.len() + burn_call_srcs(*blk).len(),
        forall|k: int|
            0 <= k < old(calls).usdc_call_burns@.len() ==> final(calls).usdc_call_burns@[k] == old(calls).usdc_call_burns@[k],
        forall|k: int|
            0 <= k < burn_call_srcs(*blk).len() ==> burn_call_rec_ok(
                final(calls).usdc_call_burns@[old(calls).usdc_call_burns@.len() + k],
                *blk,
                (#[trigger] burn_call_srcs(*blk)[k]).0,
                burn_call_srcs(*blk)[k].1,
            ),
        final(calls).usdc_call_cancel_authorization_1s@.len() == old(calls).usdc_call_cancel_authorization_1s@.len() + cancel_authorization_1_call_srcs(*blk).len(),
        forall|k: int|
            0 <= k < old(calls).usdc_call_cancel_authorization_1s@.len() ==> final(calls).usdc_call_cancel_authorization_1s@[k] == old(calls).usdc_call_cancel_authorization_1s@[k],
        forall|k: int|
            0 <= k < cancel_authorization_1_call_srcs(*blk).len() ==> cancel_authorization_1_call_rec_ok(
                final(calls).usdc_call_cancel_authorization_1s@[old(calls).usdc_call_cancel_authorization_1s@.len() + k],
                *blk,
                (#[trigger] cancel_authorization_1_call_srcs(*blk)[k]).0,
                cancel_authorization_1_call_srcs(*blk)[k].1,
            ),
        final(calls).usdc_call_cancel_authorization_2s@.len() == old(calls).usdc_call_cancel_authorization_2s@.len() + cancel_authorization_2_call_srcs(*blk).len(),
        forall|k: int|
            0 <= k < old(calls).usdc_call_cancel_authorization_2s@.len() ==> final(calls).usdc_call_cancel_authorization_2s@[k] == old(calls).usdc_call_cancel_authorization_2s@[k],
        forall|k: int|
            0 <= k < cancel_authorization_2_call_srcs(*blk).len() ==> cancel_authorization_2_call_rec_ok(
                final(calls).usdc_call_cancel_authorization_2s@[old(calls).usdc_call_cancel_authorization_2s@.len() + k],
                *blk,
                (#[trigger] cancel_authorization_2_call_srcs(*blk)[k]).0,
                cancel_authorization_2_call_srcs(*blk)[k].1,
            ),
        final(calls).usdc_call_change_admins@.len() == old(calls).usdc_call_change_admins@.len() + change_admin_call_srcs(*blk).len(),
        forall|k: int|
            0 <= k < old(calls).usdc_call_change_admins@.len() ==> final(calls).usdc_call_change_admins@[k] == old(calls).usdc_call_change_admins@[k],
        forall|k: int|
            0 <= k < change_admin_call_srcs(*blk).len() ==> change_admin_call_rec_ok(
                final(calls).usdc_call_change_admins@[old(calls).usdc_call_change_admins@.len() + k],
                *blk,
                (#[trigger] change_admin_call_srcs(*blk)[k]).0,
                change_admin_call_srcs(*blk)[k].1,
            ),
        final(calls).usdc_call_configure_minters@.len() == old(calls).usdc_call_configure_minters@.len() + configure_minter_call_srcs(*blk).len(),
        forall|k: int|
            0 <= k < old(calls).usdc_call_configure_minters@.len() ==> final(calls).usdc_call_configure_minters@[k] == old(calls).usdc_call_configure_minters@[k],
        forall|k: int|
            0 <= k < configure_minter_call_srcs(*blk).len() ==> configure_minter_call_rec_ok(
                final(calls).usdc_call_configure_minters@[old(calls).usdc_call_configure_minters@.len() + k],
                *blk,
                (#[trigger] configure_minter_call_srcs(*blk)[k]).0,
                configure_minter_call_srcs(*blk)[k].1,
            ),
        final(calls).usdc_call_decrease_allowances@.len() == old(calls).usdc_call_decrease_allowances@.len() + decrease_allowance_call_srcs(*blk).len(),
        forall|k: int|
            0 <= k < old(calls).usdc_call_decrease_allowances@.len() ==> final(calls).usdc_call_decrease_allowances@[k] == old(calls).usdc_call_decrease_allowances@[k],
        forall|k: int|
            0 <= k < decrease_allowance_call_srcs(*blk).len() ==> decrease_allowance_call_rec_ok(
                final(calls).usdc_call_decrease_allowances@[old(calls).usdc_call_decrease_allowances@.len() + k],
                *blk,
                (#[trigger] decrease_allowance_call_srcs(*blk)[k]).0,
                decrease_allowance_call_srcs(*blk)[k].1,
            ),
        final(calls).usdc_call_increase_allowances@.len() == old(calls).usdc_call_increase_allowances@.len() + increase_allowance_call_srcs(*blk).len(),
        forall|k: int|
            0 <= k < old(calls).usdc_call_increase_allowances@.len() ==> final(calls).usdc_call_increase_allowances@[k] == old(calls).usdc_call_increase_allowances@[k],
        forall|k: int|
            0 <= k < increase_allowance_call_srcs(*blk).len() ==> increase_allowance_call_rec_ok(
                final(calls).usdc_call_increase_allowances@[old(calls).usdc_call_increase_allowances@.len() + k],
                *blk,
                (#[trigger] increase_allowance_call_srcs(*blk)[k]).0,
                increase_allowance_call_srcs(*blk)[k].1,
            ),
        final(calls).usdc_call_initializes@.len() == old(calls).usdc_call_initializes@.len() + initialize_call_srcs(*blk).len(),
        forall|k: int|
            0 <= k < old(calls).usdc_call_initializes@.len() ==> final(calls).usdc_call_initializes@[k] == old(calls).usdc_call_initializes@[k],
        forall|k: int|
            0 <= k < initialize_call_srcs(*blk).len() ==> initialize_call_rec_ok(
                final(calls).usdc_call_initializes@[old(calls).usdc_call_initializes@.len() + k],
                *blk,
                (#[trigger] initialize_call_srcs(*blk)[k]).0,
                initialize_call_srcs(*blk)[k].1,
            ),
        final(calls).usdc_call_initialize_v_2s@.len() == old(calls).usdc_call_initialize_v_2s@.len() + initialize_v2_call_srcs(*blk).len(),
        forall|k: int|
            0 <= k < old(calls).usdc_call_initialize_v_2s@.len() ==> final(calls).usdc_call_initialize_v_2s@[k] == old(calls).usdc_call_initialize_v_2s@[k],
        forall|k: int|
            0 <= k < initialize_v2_call_srcs(*blk).len() ==> initialize_v2_call_rec_ok(
                final(calls).usdc_call_initialize_v_2s@[old(calls).usdc_call_initialize_v_2s@.len() + k],
                *blk,
                (#[trigger] initialize_v2_call_srcs(*blk)[k]).0,
                initialize_v2_call_srcs(*blk)[k].1,
            ),
        final(calls).usdc_call_initialize_v2_1s@.len() == old(calls).usdc_call_initialize_v2_1s@.len() + initialize_v2_1_call_srcs(*blk).len(),
        forall|k: int|
            0 <= k < old(calls).usdc_call_initialize_v2_1s@.len() ==> final(calls).usdc_call_initialize_v2_1s@[k] == old(calls).usdc_call_initialize_v2_1s@[k],
        forall|k: int|
            0 <= k < initialize_v2_1_call_srcs(*blk).len() ==> initialize_v2_1_call_rec_ok(
                final(calls).usdc_call_initialize_v2_1s@[old(calls).usdc_call_initialize_v2_1s@.len() + k],
                *blk,
                (#[trigger] initialize_v2_1_call_srcs(*blk)[k]).0,
                initialize_v2_1_call_srcs(*blk)[k].1,
            ),
        final(calls).usdc_call_initialize_v2_2s@.len() == old(calls).usdc_call_initialize_v2_2s@.len() + initialize_v2_2_call_srcs(*blk).len(),
        forall|k: int|
            0 <= k < old(calls).usdc_call_initialize_v2_2s@.len() ==> final(calls).usdc_call_initialize_v2_2s@[k] == old(calls).usdc_call_initialize_v2_2s@[k],
        forall|k: int|
            0 <= k < initialize_v2_2_call_srcs(*blk).len() ==> initialize_v2_2_call_rec_ok(
                final(calls).usdc_call_initialize_v2_2s@[old(calls).usdc_call_initialize_v2_2s@.len() + k],
                *blk,
                (#[trigger] initialize_v2_2_call_srcs(*blk)[k]).0,
                initialize_v2_2_call_srcs(*blk)[k].1,
            ),
        final(calls).usdc_call_mints@.len() == old(calls).usdc_call_mints@.len() + mint_call_srcs(*blk).len(),
        forall|k: int|
            0 <= k < old(calls).usdc_call_mints@.len() ==> final(calls).usdc_call_mints@[k] == old(calls).usdc_call_mints@[k],
        forall|k: int|
            0 <= k < mint_call_srcs(*blk).len() ==> mint_call_rec_ok(
                final(calls).usdc_call_mints@[old(calls).usdc_call_mints@.len() + k],
                *blk,
                (#[trigger] mint_call_srcs(*blk)[k]).0,
                mint_call_srcs(*blk)[k].1,
            ),
        final(calls).usdc_call_pauses@.len() == old(calls).usdc_call_pauses@.len() + pause_call_srcs(*blk).len(),
        forall|k: int|
            0 <= k < old(calls).usdc_call_pauses@.len() ==> final(calls).usdc_call_pauses@[k] == old(calls).usdc_call_pauses@[k],
        forall|k: int|
            0 <= k < pause_call_srcs(*blk).len() ==> pause_call_rec_ok(
                final(calls).usdc_call_pauses@[old(calls).usdc_call_pauses@.len() + k],
                *blk,
                (#[trigger] pause_call_srcs(*blk)[k]).0,
                pause_call_srcs(*blk)[k].1,
            ),
        final(calls).usdc_call_permit_1s@.len() == old(calls).usdc_call_permit_1s@.len() + permit_1_call_srcs(*blk).len(),
        forall|k: int|
            0 <= k < old(calls).usdc_call_permit_1s@.len() ==> final(calls).usdc_call_permit_1s@[k] == old(calls).usdc_call_permit_1s@[k],
        forall|k: int|
            0 <= k < permit_1_call_srcs(*blk).len() ==> permit_1_call_rec_ok(
                final(calls).usdc_call_permit_1s@[old(calls).usdc_call_permit_1s@.len() + k],
                *blk,
                (#[trigger] permit_1_call_srcs(*blk)[k]).0,
                permit_1_call_srcs(*blk)[k].1,
            ),
        final(calls).usdc_call_permit_2s@.len() == old(calls).usdc_call_permit_2s@.len() + permit_2_call_srcs(*blk).len(),
        forall|k: int|
            0 <= k < old(calls).usdc_call_permit_2s@.len() ==> final(calls).usdc_call_permit_2s@[k] == old(calls).usdc_call_permit_2s@[k],
        forall|k: int|
            0 <= k < permit_2_call_srcs(*blk).len() ==> permit_2_call_rec_ok(
                final(calls).usdc_call_permit_2s@[old(calls).usdc_call_permit_2s@.len() + k],
                *blk,
                (#[trigger] permit_2_call_srcs(*blk)[k]).0,
                permit_2_call_srcs(*blk)[k].1,
            ),
        final(calls).usdc_call_receive_with_authorization_1s@.len() == old(calls).usdc_call_receive_with_authorization_1s@.len() + receive_with_authorization_1_call_srcs(*blk).len(),
        forall|k: int|
            0 <= k < old(calls).usdc_call_receive_with_authorization_1s@.len() ==> final(calls).usdc_call_receive_with_authorization_1s@[k] == old(calls).usdc_call_receive_with_authorization_1s@[k],
        forall|k: int|
            0 <= k < receive_with_authorization_1_call_srcs(*blk).len() ==> receive_with_authorization_1_call_rec_ok(
                final(calls).usdc_call_receive_with_authorization_1s@[old(calls).usdc_call_receive_with_authorization_1s@.len() + k],
                *blk,
                (#[trigger] receive_with_authorization_1_call_srcs(*blk)[k]).0,
                receive_with_authorization_1_call_srcs(*blk)[k].1,
            ),
        final(calls).usdc_call_receive_with_authorization_2s@.len() == old(calls).usdc_call_receive_with_authorization_2s@.len() + receive_with_authorization_2_call_srcs(*blk).len(),
        forall|k: int|
            0 <= k < old(calls).usdc_call_receive_with_authorization_2s@.len() ==> final(calls).usdc_call_receive_with_authorization_2s@[k] == old(calls).usdc_call_receive_with_authorization_2s@[k],
        forall|k: int|
            0 <= k < receive_with_authorization_2_call_srcs(*blk).len() ==> receive_with_authorization_2_call_rec_ok(
                final(calls).usdc_call_receive_with_authorization_2s@[old(calls).usdc_call_receive_with_authorization_2s@.len() + k],
                *blk,
                (#[trigger] receive_with_authorization_2_call_srcs(*blk)[k]).0,
                receive_with_authorization_2_call_srcs(*blk)[k].1,
            ),
        final(calls).usdc_call_remove_minters@.len() == old(calls).usdc_call_remove_minters@.len() + remove_minter_call_srcs(*blk).len(),
        forall|k: int|
            0 <= k < old(calls).usdc_call_remove_minters@.len() ==> final(calls).usdc_call_remove_minters@[k] == old(calls).usdc_call_remove_minters@[k],
        forall|k: int|
            0 <= k < remove_minter_call_srcs(*blk).len() ==> remove_minter_call_rec_ok(
                final(calls).usdc_call_remove_minters@[old(calls).usdc_call_remove_minters@.len() + k],
                *blk,
                (#[trigger] remove_minter_call_srcs(*blk)[k]).0,
                remove_minter_call_srcs(*blk)[k].1,
            ),
        final(calls).usdc_call_rescue_erc_20s@.len() == old(calls).usdc_call_rescue_erc_20s@.len() + rescue_erc20_call_srcs(*blk).len(),
        forall|k: int|
            0 <= k < old(calls).usdc_call_rescue_erc_20s@.len() ==> final(calls).usdc_call_rescue_erc_20s@[k] == old(calls).usdc_call_rescue_erc_20s@[k],
        forall|k: int|
            0 <= k < rescue_erc20_call_srcs(*blk).len() ==> rescue_erc20_call_rec_ok(
                final(calls).usdc_call_rescue_erc_20s@[old(calls).usdc_call_rescue_erc_20s@.len() + k],
                *blk,
                (#[trigger] rescue_erc20_call_srcs(*blk)[k]).0,
                rescue_erc20_call_srcs(*blk)[k].1,
            ),
        final(calls).usdc_call_transfers@.len() == old(calls).usdc_call_transfers@.len() + transfer_call_srcs(*blk).len(),
        forall|k: int|
            0 <= k < old(calls).usdc_call_transfers@.len() ==> final(calls).usdc_call_transfers@[k] == old(calls).usdc_call_transfers@[k],
        forall|k: int|
            0 <= k < transfer_call_srcs(*blk).len() ==> transfer_call_rec_ok(
                final(calls).usdc_call_transfers@[old(calls).usdc_call_transfers@.len() + k],
                *blk,
                (#[trigger] transfer_call_srcs(*blk)[k]).0,
                transfer_call_srcs(*blk)[k].1,
            ),
        final(calls).usdc_call_transfer_froms@.len() == old(calls).usdc_call_transfer_froms@.len() + transfer_from_call_srcs(*blk).len(),
        forall|k: int|
            0 <= k < old(calls).usdc_call_transfer_froms@.len() ==> final(calls).usdc_call_transfer_froms@[k] == old(calls).usdc_call_transfer_froms@[k],
        forall|k: int|
            0 <= k < transfer_from_call_srcs(*blk).len() ==> transfer_from_call_rec_ok(
                final(calls).usdc_call_transfer_froms@[old(calls).usdc_call_transfer_froms@.len() + k],
                *blk,
                (#[trigger] transfer_from_call_srcs(*blk)[k]).0,
                transfer_from_call_srcs(*blk)[k].1,
            ),
        final(calls).usdc_call_transfer_ownerships@.len() == old(calls).usdc_call_transfer_ownerships@.len() + transfer_ownership_call_srcs(*blk).len(),
        forall|k: int|
            0 <= k < old(calls).usdc_call_transfer_ownerships@.len() ==> final(calls).usdc_call_transfer_ownerships@[k] == old(calls).usdc_call_transfer_ownerships@[k],
        forall|k: int|
            0 <= k < transfer_ownership_call_srcs(*blk).len() ==> transfer_ownership_call_rec_ok(
                final(calls).usdc_call_transfer_ownerships@[old(calls).usdc_call_transfer_ownerships@.len() + k],
                *blk,
                (#[trigger] transfer_ownership_call_srcs(*blk)[k]).0,
                transfer_ownership_call_srcs(*blk)[k].1,
            ),
        final(calls).usdc_call_transfer_with_authorization_1s@.len() == old(calls).usdc_call_transfer_with_authorization_1s@.len() + transfer_with_authorization_1_call_srcs(*blk).len(),
        forall|k: int|
            0 <= k < old(calls).usdc_call_transfer_with_authorization_1s@.len() ==> final(calls).usdc_call_transfer_with_authorization_1s@[k] == old(calls).usdc_call_transfer_with_authorization_1s@[k],
        forall|k: int|
            0 <= k < transfer_with_authorization_1_call_srcs(*blk).len() ==> transfer_with_authorization_1_call_rec_ok(
                final(calls).usdc_call_transfer_with_authorization_1s@[old(calls).usdc_call_transfer_with_authorization_1s@.len() + k],
                *blk,
                (#[trigger] transfer_with_authorization_1_call_srcs(*blk)[k]).0,
                transfer_with_authorization_1_call_srcs(*blk)[k].1,
            ),
        final(calls).usdc_call_transfer_with_authorization_2s@.len() == old(calls).usdc_call_transfer_with_authorization_2s@.len() + transfer_with_authorization_2_call_srcs(*blk).len(),
        forall|k: int|
            0 <= k < old(calls).usdc_call_transfer_with_authorization_2s@.len() ==> final(calls).usdc_call_transfer_with_authorization_2s@[k] == old(calls).usdc_call_transfer_with_authorization_2s@[k],
        forall|k: int|
            0 <= k < transfer_with_authorization_2_call_srcs(*blk).len() ==> transfer_with_authorization_2_call_rec_ok(
                final(calls).usdc_call_transfer_with_authorization_2s@[old(calls).usdc_call_transfer_with_authorization_2s@.len() + k],
                *blk,
                (#[trigger] transfer_with_authorization_2_call_srcs(*blk)[k]).0,
                transfer_with_authorization_2_call_srcs(*blk)[k].1,
            ),
        final(calls).usdc_call_un_blacklists@.len() == old(calls).usdc_call_un_blacklists@.len() + un_blacklist_call_srcs(*blk).len(),
        forall|k: int|
            0 <= k < old(calls).usdc_call_un_blacklists@.len() ==> final(calls).usdc_call_un_blacklists@[k] == old(calls).usdc_call_un_blacklists@[k],
        forall|k: int|
            0 <= k < un_blacklist_call_srcs(*blk).len() ==> un_blacklist_call_rec_ok(
                final(calls).usdc_call_un_blacklists@[old(calls).usdc_call_un_blacklists@.len() + k],
                *blk,
                (#[trigger] un_blacklist_call_srcs(*blk)[k]).0,
                un_blacklist_call_srcs(*blk)[k].1,
            ),
        final(calls).usdc_call_unpauses@.len() == old(calls).usdc_call_unpauses@.len() + unpause_call_srcs(*blk).len(),
        forall|k: int|
            0 <= k < old(calls).usdc_call_unpauses@.len() ==> final(calls).usdc_call_unpauses@[k] == old(calls).usdc_call_unpauses@[k],
        forall|k: int|
            0 <= k < unpause_call_srcs(*blk).len() ==> unpause_call_rec_ok(
                final(calls).usdc_call_unpauses@[old(calls).usdc_call_unpauses@.len() + k],
                *blk,
                (#[trigger] unpause_call_srcs(*blk)[k]).0,
                unpause_call_srcs(*blk)[k].1,
            ),
        final(calls).usdc_call_update_blacklisters@.len() == old(calls).usdc_call_update_blacklisters@.len() + update_blacklister_call_srcs(*blk).len(),
        forall|k: int|
            0 <= k < old(calls).usdc_call_update_blacklisters@.len() ==> final(calls).usdc_call_update_blacklisters@[k] == old(calls).usdc_call_update_blacklisters@[k],
        forall|k: int|
            0 <= k < update_blacklister_call_srcs(*blk).len() ==> update_blacklister_call_rec_ok(
                final(calls).usdc_call_update_blacklisters@[old(calls).usdc_call_update_blacklisters@.len() + k],
                *blk,
                (#[trigger] update_blacklister_call_srcs(*blk)[k]).0,
                update_blacklister_call_srcs(*blk)[k].1,
            ),
        final(calls).usdc_call_update_master_minters@.len() == old(calls).usdc_call_update_master_minters@.len() + update_master_minter_call_srcs(*blk).len(),
        forall|k: int|
            0 <= k < old(calls).usdc_call_update_master_minters@.len() ==> final(calls).usdc_call_update_master_minters@[k] == old(calls).usdc_call_update_master_minters@[k],
        forall|k: int|
            0 <= k < update_master_minter_call_srcs(*blk).len() ==> update_master_minter_call_rec_ok(
                final(calls).usdc_call_update_master_minters@[old(calls).usdc_call_update_master_minters@.len() + k],
                *blk,
                (#[trigger] update_master_minter_call_srcs(*blk)[k]).0,
                update_master_minter_call_srcs(*blk)[k].1,
            ),
        final(calls).usdc_call_update_pausers@.len() == old(calls).usdc_call_update_pausers@.len() + update_pauser_call_srcs(*blk).len(),
        forall|k: int|
            0 <= k < old(calls).usdc_call_update_pausers@.len() ==> final(calls).usdc_call_update_pausers@[k] == old(calls).usdc_call_update_pausers@[k],
        forall|k: int|
            0 <= k < update_pauser_call_srcs(*blk).len() ==> update_pauser_call_rec_ok(
                final(calls).usdc_call_update_pausers@[old(calls).usdc_call_update_pausers@.len() + k],
                *blk,
                (#[trigger] update_pauser_call_srcs(*blk)[k]).0,
                update_pauser_call_srcs(*blk)[k].1,
            ),
        final(calls).usdc_call_update_rescuers@.len() == old(calls).usdc_call_update_rescuers@.len() + update_rescuer_call_srcs(*blk).len(),
        forall|k: int|
            0 <= k < old(calls).usdc_call_update_rescuers@.len() ==> final(calls).usdc_call_update_rescuers@[k] == old(calls).usdc_call_update_rescuers@[k],
        forall|k: int|
            0 <= k < update_rescuer_call_srcs(*blk).len() ==> update_rescuer_call_rec_ok(
                final(calls).usdc_call_update_rescuers@[old(calls).usdc_call_update_rescuers@.len() + k],
                *blk,
                (#[trigger] update_rescuer_call_srcs(*blk)[k]).0,
                update_rescuer_call_srcs(*blk)[k].1,
            ),
        final(calls).usdc_call_upgrade_tos@.len() == old(calls).usdc_call_upgrade_tos@.len() + upgrade_to_call_srcs(*blk).len(),
        forall|k: int|
            0 <= k < old(calls).usdc_call_upgrade_tos@.len() ==> final(calls).usdc_call_upgrade_tos@[k] == old(calls).usdc_call_upgrade_tos@[k],
        forall|k: int|
            0 <= k < upgrade_to_call_srcs(*blk).len() ==> upgrade_to_call_rec_ok(
                final(calls).usdc_call_upgrade_tos@[old(calls).usdc_call_upgrade_tos@.len() + k],
                *blk,
                (#[trigger] upgrade_to_call_srcs(*blk)[k]).0,
                upgrade_to_call_srcs(*blk)[k].1,
            ),
        final(calls).usdc_call_upgrade_to_and_calls@.len() == old(calls).usdc_call_upgrade_to_and_calls@.len() + upgrade_to_and_call_call_srcs(*blk).len(),
        forall|k: int|
            0 <= k < old(calls).usdc_call_upgrade_to_and_calls@.len() ==> final(calls).usdc_call_upgrade_to_and_calls@[k] == old(calls).usdc_call_upgrade_to_and_calls@[k],
        forall|k: int|
            0 <= k < upgrade_to_and_call_call_srcs(*blk).len() ==> upgrade_to_and_call_call_rec_ok(
                final(calls).usdc_call_upgrade_to_and_calls@[old(calls).usdc_call_upgrade_to_and_calls@.len() + k],
                *blk,
                (#[trigger] upgrade_to_and_call_call_srcs(*blk)[k]).0,
                upgrade_to_and_call_call_srcs(*blk)[k].1,
            ),
{
    let mut v_usdc_call_approves = scan_approve_calls(blk);
    calls.usdc_call_approves.append(&mut v_usdc_call_approves);
    let mut v_usdc_call_blacklists = scan_blacklist_calls(blk);
    calls.usdc_call_blacklists.append(&mut v_usdc_call_blacklists);
    let mut v_usdc_call_burns = scan_burn_calls(blk);
    calls.usdc_call_burns.append(&mut v_usdc_call_burns);
    let mut v_usdc_call_cancel_authorization_1s = scan_cancel_authorization_1_calls(blk);
    calls.usdc_call_cancel_authorization_1s.append(&mut v_usdc_call_cancel_authorization_1s);
    let mut v_usdc_call_cancel_authorization_2s = scan_cancel_authorization_2_calls(blk);
    calls.usdc_call_cancel_authorization_2s.append(&mut v_usdc_call_cancel_authorization_2s);
    let mut v_usdc_call_change_admins = scan_change_admin_calls(blk);
    calls.usdc_call_change_admins.append(&mut v_usdc_call_change_admins);
    let mut v_usdc_call_configure_minters = scan_configure_minter_calls(blk);
    calls.usdc_call_configure_minters.append(&mut v_usdc_call_configure_minters);
    let mut v_usdc_call_decrease_allowances = scan_decrease_allowance_calls(blk);
    calls.usdc_call_decrease_allowances.append(&mut v_usdc_call_decrease_allowances);
    let mut v_usdc_call_increase_allowances = scan_increase_allowance_calls(blk);
    calls.usdc_call_increase_allowances.append(&mut v_usdc_call_increase_allowances);
    let mut v_usdc_call_initializes = scan_initialize_calls(blk);
    calls.usdc_call_initializes.append(&mut v_usdc_call_initializes);
    let mut v_usdc_call_initialize_v_2s = scan_initialize_v2_calls(blk);
    calls.usdc_call_initialize_v_2s.append(&mut v_usdc_call_initialize_v_2s);
    let mut v_usdc_call_initialize_v2_1s = scan_initialize_v2_1_calls(blk);
    calls.usdc_call_initialize_v2_1s.append(&mut v_usdc_call_initialize_v2_1s);
    let mut v_usdc_call_initialize_v2_2s = scan_initialize_v2_2_calls(blk);
    calls.usdc_call_initialize_v2_2s.append(&mut v_usdc_call_initialize_v2_2s);
    let mut v_usdc_call_mints = scan_mint_calls(blk);
    calls.usdc_call_mints.append(&mut v_usdc_call_mints);
    let mut v_usdc_call_pauses = scan_pause_calls(blk);
    calls.usdc_call_pauses.append(&mut v_usdc_call_pauses);
    let mut v_usdc_call_permit_1s = scan_permit_1_calls(blk);
    calls.usdc_call_permit_1s.append(&mut v_usdc_call_permit_1s);
    let mut v_usdc_call_permit_2s = scan_permit_2_calls(blk);
    calls.usdc_call_permit_2s.append(&mut v_usdc_call_permit_2s);
    let mut v_usdc_call_receive_with_authorization_1s = scan_receive_with_authorization_1_calls(blk);
    calls.usdc_call_receive_with_authorization_1s.append(&mut v_usdc_call_receive_with_authorization_1s);
    let mut v_usdc_call_receive_with_authorization_2s = scan_receive_with_authorization_2_calls(blk);
    calls.usdc_call_receive_with_authorization_2s.append(&mut v_usdc_call_receive_with_authorization_2s);
    let mut v_usdc_call_remove_minters = scan_remove_minter_calls(blk);
    calls.usdc_call_remove_minters.append(&mut v_usdc_call_remove_minters);
    let mut v_usdc_call_rescue_erc_20s = scan_rescue_erc20_calls(blk);
    calls.usdc_call_rescue_erc_20s.append(&mut v_usdc_call_rescue_erc_20s);
    let mut v_usdc_call_transfers = scan_transfer_calls(blk);
    calls.usdc_call_transfers.append(&mut v_usdc_call_transfers);
    let mut v_usdc_call_transfer_froms = scan_transfer_from_calls(blk);
    calls.usdc_call_transfer_froms.append(&mut v_usdc_call_transfer_froms);
    let mut v_usdc_call_transfer_ownerships = scan_transfer_ownership_calls(blk);
    calls.usdc_call_transfer_ownerships.append(&mut v_usdc_call_transfer_ownerships);
    let mut v_usdc_call_transfer_with_authorization_1s = scan_transfer_with_authorization_1_calls(blk);
    calls.usdc_call_transfer_with_authorization_1s.append(&mut v_usdc_call_transfer_with_authorization_1s);
    let mut v_usdc_call_transfer_with_authorization_2s = scan_transfer_with_authorization_2_calls(blk);
    calls.usdc_call_transfer_with_authorization_2s.append(&mut v_usdc_call_transfer_with_authorization_2s);
    let mut v_usdc_call_un_blacklists = scan_un_blacklist_calls(blk);
    calls.usdc_call_un_blacklists.append(&mut v_usdc_call_un_blacklists);
    let mut v_usdc_call_unpauses = scan_unpause_calls(blk);
    calls.usdc_call_unpauses.append(&mut v_usdc_call_unpauses);
    let mut v_usdc_call_update_blacklisters = scan_update_blacklister_calls(blk);
    calls.usdc_call_update_blacklisters.append(&mut v_usdc_call_update_blacklisters);
    let mut v_usdc_call_update_master_minters = scan_update_master_minter_calls(blk);
    calls.usdc_call_update_master_minters.append(&mut v_usdc_call_update_master_minters);
    let mut v_usdc_call_update_pausers = scan_update_pauser_calls(blk);
    calls.usdc_call_update_pausers.append(&mut v_usdc_call_update_pausers);
    let mut v_usdc_call_update_rescuers = scan_update_rescuer_calls(blk);
    calls.usdc_call_update_rescuers.append(&mut v_usdc_call_update_rescuers);
    let mut v_usdc_call_upgrade_tos = scan_upgrade_to_calls(blk);
    calls.usdc_call_upgrade_tos.append(&mut v_usdc_call_upgrade_tos);
    let mut v_usdc_call_upgrade_to_and_calls = scan_upgrade_to_and_call_calls(blk);
    calls.usdc_call_upgrade_to_and_calls.append(&mut v_usdc_call_upgrade_to_and_calls);
}

/// Whether every event batch of the container is empty.
pub fn events_is_empty(e: &Events) -> (r: bool)
    ensures
        r == events_all_empty(*e),
{
    e.usdc_admin_changeds.is_empty() && e.usdc_approvals.is_empty() && e.usdc_authorization_canceleds.is_empty() && e.usdc_authorization_useds.is_empty() && e.usdc_blacklisteds.is_empty() && e.usdc_blacklister_changeds.is_empty() && e.usdc_burns.is_empty() && e.usdc_master_minter_changeds.is_empty() && e.usdc_mints.is_empty() && e.usdc_minter_configureds.is_empty() && e.usdc_minter_removeds.is_empty() && e.usdc_ownership_transferreds.is_empty() && e.usdc_pauses.is_empty() && e.usdc_pauser_changeds.is_empty() && e.usdc_rescuer_changeds.is_empty() && e.usdc_transfers.is_empty() && e.usdc_un_blacklisteds.is_empty() && e.usdc_unpauses.is_empty() && e.usdc_upgradeds.is_empty()
}

/// Whether every call batch of the container is empty.
pub fn calls_is_empty(c: &Calls) -> (r: bool)
    ensures
        r == calls_all_empty(*c),
{
    c.usdc_call_approves.is_empty() && c.usdc_call_blacklists.is_empty() && c.usdc_call_burns.is_empty() && c.usdc_call_cancel_authorization_1s.is_empty() && c.usdc_call_cancel_authorization_2s.is_empty() && c.usdc_call_change_admins.is_empty() && c.usdc_call_configure_minters.is_empty() && c.usdc_call_decrease_allowances.is_empty() && c.usdc_call_increase_allowances.is_empty() && c.usdc_call_initializes.is_empty() && c.usdc_call_initialize_v_2s.is_empty() && c.usdc_call_initialize_v2_1s.is_empty() && c.usdc_call_initialize_v2_2s.is_empty() && c.usdc_call_mints.is_empty() && c.usdc_call_pauses.is_empty() && c.usdc_call_permit_1s.is_empty() && c.usdc_call_permit_2s.is_empty() && c.usdc_call_receive_with_authorization_1s.is_empty() && c.usdc_call_receive_with_authorization_2s.is_empty() && c.usdc_call_remove_minters.is_empty() && c.usdc_call_rescue_erc_20s.is_empty() && c.usdc_call_transfers.is_empty() && c.usdc_call_transfer_froms.is_empty() && c.usdc_call_transfer_ownerships.is_empty() && c.usdc_call_transfer_with_authorization_1s.is_empty() && c.usdc_call_transfer_with_authorization_2s.is_empty() && c.usdc_call_un_blacklists.is_empty() && c.usdc_call_unpauses.is_empty() && c.usdc_call_update_blacklisters.is_empty() && c.usdc_call_update_master_minters.is_empty() && c.usdc_call_update_pausers.is_empty() && c.usdc_call_update_rescuers.is_empty() && c.usdc_call_upgrade_tos.is_empty() && c.usdc_call_upgrade_to_and_calls.is_empty()
}

/// Whether a block holds at least one qualifying log of any kind.
pub open spec fn block_has_event_records(b: Block) -> bool {
    ||| admin_changed_event_srcs(b).len() > 0
    ||| approval_event_srcs(b).len() > 0
    ||| authorization_canceled_event_srcs(b).len() > 0
    ||| authorization_used_event_srcs(b).len() > 0
    ||| blacklisted_event_srcs(b).len() > 0
    ||| blacklister_changed_event_srcs(b).len() > 0
    ||| burn_event_srcs(b).len() > 0
    ||| master_minter_changed_event_srcs(b).len() > 0
    ||| mint_event_srcs(b).len() > 0
    ||| minter_configured_event_srcs(b).len() > 0
    ||| minter_removed_event_srcs(b).len() > 0
    ||| ownership_transferred_event_srcs(b).len() > 0
    ||| pause_event_srcs(b).len() > 0
    ||| pauser_changed_event_srcs(b).len() > 0
    ||| rescuer_changed_event_srcs(b).len() > 0
    ||| transfer_event_srcs(b).len() > 0
    ||| un_blacklisted_event_srcs(b).len() > 0
    ||| unpause_event_srcs(b).len() > 0
    ||| upgraded_event_srcs(b).len() > 0
}

/// Whether a block holds at least one qualifying call of any kind.
pub open spec fn block_has_call_records(b: Block) -> bool {
    ||| approve_call_srcs(b).len() > 0
    ||| blacklist_call_srcs(b).len() > 0
    ||| burn_call_srcs(b).len() > 0
    ||| cancel_authorization_1_call_srcs(b).len() > 0
    ||| cancel_authorization_2_call_srcs(b).len() > 0
    ||| change_admin_call_srcs(b).len() > 0
    ||| configure_minter_call_srcs(b).len() > 0
    ||| decrease_allowance_call_srcs(b).len() > 0
    ||| increase_allowance_call_srcs(b).len() > 0
    ||| initialize_call_srcs(b).len() > 0
    ||| initialize_v2_call_srcs(b).len() > 0
    ||| initialize_v2_1_call_srcs(b).len() > 0
    ||| initialize_v2_2_call_srcs(b).len() > 0
    ||| mint_call_srcs(b).len() > 0
    ||| pause_call_srcs(b).len() > 0
    ||| permit_1_call_srcs(b).len() > 0
    ||| permit_2_call_srcs(b).len() > 0
    ||| receive_with_authorization_1_call_srcs(b).len() > 0
    ||| receive_with_authorization_2_call_srcs(b).len() > 0
    ||| remove_minter_call_srcs(b).len() > 0
    ||| rescue_erc20_call_srcs(b).len() > 0
    ||| transfer_call_srcs(b).len() > 0
    ||| transfer_from_call_srcs(b).len() > 0
    ||| transfer_ownership_call_srcs(b).len() > 0
    ||| transfer_with_authorization_1_call_srcs(b).len() > 0
    ||| transfer_with_authorization_2_call_srcs(b).len() > 0
    ||| un_blacklist_call_srcs(b).len() > 0
    ||| unpause_call_srcs(b).len() > 0
    ||| update_blacklister_call_srcs(b).len() > 0
    ||| update_master_minter_call_srcs(b).len() > 0
    ||| update_pauser_call_srcs(b).len() > 0
    ||| update_rescuer_call_srcs(b).len() > 0
    ||| upgrade_to_call_srcs(b).len() > 0
    ||| upgrade_to_and_call_call_srcs(b).len() > 0
}

/// Projects one block to its event batches, suppressing the output when
/// no log qualified for any kind.
pub fn map_events(blk: &Block) -> (r: Option<Events>)
    ensures
        r is Some <==> block_has_event_records(*blk),
        r is Some ==> r->Some_0.usdc_admin_changeds@.len() == admin_changed_event_srcs(*blk).len(),
        r is Some ==> forall|k: int|
            0 <= k < admin_changed_event_srcs(*blk).len() ==> admin_changed_event_rec_ok(
                r->Some_0.usdc_admin_changeds@[k],
                *blk,
                (#[trigger] admin_changed_event_srcs(*blk)[k]).0,
                admin_changed_event_srcs(*blk)[k].1,
            ),
        r is Some ==> r->Some_0.usdc_approvals@.len() == approval_event_srcs(*blk).len(),
        r is Some ==> forall|k: int|
            0 <= k < approval_event_srcs(*blk).len() ==> approval_event_rec_ok(
                r->Some_0.usdc_approvals@[k],
                *blk,
                (#[trigger] approval_event_srcs(*blk)[k]).0,
                approval_event_srcs(*blk)[k].1,
            ),
        r is Some ==> r->Some_0.usdc_authorization_canceleds@.len() == authorization_canceled_event_srcs(*blk).len(),
        r is Some ==> forall|k: int|
            0 <= k < authorization_canceled_event_srcs(*blk).len() ==> authorization_canceled_event_rec_ok(
                r->Some_0.usdc_authorization_canceleds@[k],
                *blk,
                (#[trigger] authorization_canceled_event_srcs(*blk)[k]).0,
                authorization_canceled_event_srcs(*blk)[k].1,
            ),
        r is Some ==> r->Some_0.usdc_authorization_useds@.len() == authorization_used_event_srcs(*blk).len(),
        r is Some ==> forall|k: int|
            0 <= k < authorization_used_event_srcs(*blk).len() ==> authorization_used_event_rec_ok(
                r->Some_0.usdc_authorization_useds@[k],
                *blk,
                (#[trigger] authorization_used_event_srcs(*blk)[k]).0,
                authorization_used_event_srcs(*blk)[k].1,
            ),
        r is Some ==> r->Some_0.usdc_blacklisteds@.len() == blacklisted_event_srcs(*blk).len(),
        r is Some ==> forall|k: int|
            0 <= k < blacklisted_event_srcs(*blk).len() ==> blacklisted_event_rec_ok(
                r->Some_0.usdc_blacklisteds@[k],
                *blk,
                (#[trigger] blacklisted_event_srcs(*blk)[k]).0,
                blacklisted_event_srcs(*blk)[k].1,
            ),
        r is Some ==> r->Some_0.usdc_blacklister_changeds@.len() == blacklister_changed_event_srcs(*blk).len(),
        r is Some ==> forall|k: int|
            0 <= k < blacklister_changed_event_srcs(*blk).len() ==> blacklister_changed_event_rec_ok(
                r->Some_0.usdc_blacklister_changeds@[k],
                *blk,
                (#[trigger] blacklister_changed_event_srcs(*blk)[k]).0,
                blacklister_changed_event_srcs(*blk)[k].1,
            ),
        r is Some ==> r->Some_0.usdc_burns@.len() == burn_event_srcs(*blk).len(),
        r is Some ==> forall|k: int|
            0 <= k < burn_event_srcs(*blk).len() ==> burn_event_rec_ok(
                r->Some_0.usdc_burns@[k],
                *blk,
                (#[trigger] burn_event_srcs(*blk)[k]).0,
                burn_event_srcs(*blk)[k].1,
            ),
        r is Some ==> r->Some_0.usdc_master_minter_changeds@.len() == master_minter_changed_event_srcs(*blk).len(),
        r is Some ==> forall|k: int|
            0 <= k < master_minter_changed_event_srcs(*blk).len() ==> master_minter_changed_event_rec_ok(
                r->Some_0.usdc_master_minter_changeds@[k],
                *blk,
                (#[trigger] master_minter_changed_event_srcs(*blk)[k]).0,
                master_minter_changed_event_srcs(*blk)[k].1,
            ),
        r is Some ==> r->Some_0.usdc_mints@.len() == mint_event_srcs(*blk).len(),
        r is Some ==> forall|k: int|
            0 <= k < mint_event_srcs(*blk).len() ==> mint_event_rec_ok(
                r->Some_0.usdc_mints@[k],
                *blk,
                (#[trigger] mint_event_srcs(*blk)[k]).0,
                mint_event_srcs(*blk)[k].1,
            ),
        r is Some ==> r->Some_0.usdc_minter_configureds@.len() == minter_configured_event_srcs(*blk).len(),
        r is Some ==> forall|k: int|
            0 <= k < minter_configured_event_srcs(*blk).len() ==> minter_configured_event_rec_ok(
                r->Some_0.usdc_minter_configureds@[k],
                *blk,
                (#[trigger] minter_configured_event_srcs(*blk)[k]).0,
                minter_configured_event_srcs(*blk)[k].1,
            ),
        r is Some ==> r->Some_0.usdc_minter_removeds@.len() == minter_removed_event_srcs(*blk).len(),
        r is Some ==> forall|k: int|
            0 <= k < minter_removed_event_srcs(*blk).len() ==> minter_removed_event_rec_ok(
                r->Some_0.usdc_minter_removeds@[k],
                *blk,
                (#[trigger] minter_removed_event_srcs(*blk)[k]).0,
                minter_removed_event_srcs(*blk)[k].1,
            ),
        r is Some ==> r->Some_0.usdc_ownership_transferreds@.len() == ownership_transferred_event_srcs(*blk).len(),
        r is Some ==> forall|k: int|
            0 <= k < ownership_transferred_event_srcs(*blk).len() ==> ownership_transferred_event_rec_ok(
                r->Some_0.usdc_ownership_transferreds@[k],
                *blk,
                (#[trigger] ownership_transferred_event_srcs(*blk)[k]).0,
                ownership_transferred_event_srcs(*blk)[k].1,
            ),
        r is Some ==> r->Some_0.usdc_pauses@.len() == pause_event_srcs(*blk).len(),
        r is Some ==> forall|k: int|
            0 <= k < pause_event_srcs(*blk).len() ==> pause_event_rec_ok(
                r->Some_0.usdc_pauses@[k],
                *blk,
                (#[trigger] pause_event_srcs(*blk)[k]).0,
                pause_event_srcs(*blk)[k].1,
            ),
        r is Some ==> r->Some_0.usdc_pauser_changeds@.len() == pauser_changed_event_srcs(*blk).len(),
        r is Some ==> forall|k: int|
            0 <= k < pauser_changed_event_srcs(*blk).len() ==> pauser_changed_event_rec_ok(
                r->Some_0.usdc_pauser_changeds@[k],
                *blk,
                (#[trigger] pauser_changed_event_srcs(*blk)[k]).0,
                pauser_changed_event_srcs(*blk)[k].1,
            ),
        r is Some ==> r->Some_0.usdc_rescuer_changeds@.len() == rescuer_changed_event_srcs(*blk).len(),
        r is Some ==> forall|k: int|
            0 <= k < rescuer_changed_event_srcs(*blk).len() ==> rescuer_changed_event_rec_ok(
                r->Some_0.usdc_rescuer_changeds@[k],
                *blk,
                (#[trigger] rescuer_changed_event_srcs(*blk)[k]).0,
                rescuer_changed_event_srcs(*blk)[k].1,
            ),
        r is Some ==> r->Some_0.usdc_transfers@.len() == transfer_event_srcs(*blk).len(),
        r is Some ==> forall|k: int|
            0 <= k < transfer_event_srcs(*blk).len() ==> transfer_event_rec_ok(
                r->Some_0.usdc_transfers@[k],
                *blk,
                (#[trigger] transfer_event_srcs(*blk)[k]).0,
                transfer_event_srcs(*blk)[k].1,
            ),
        r is Some ==> r->Some_0.usdc_un_blacklisteds@.len() == un_blacklisted_event_srcs(*blk).len(),
        r is Some ==> forall|k: int|
            0 <= k < un_blacklisted_event_srcs(*blk).len() ==> un_blacklisted_event_rec_ok(
                r->Some_0.usdc_un_blacklisteds@[k],
                *blk,
                (#[trigger] un_blacklisted_event_srcs(*blk)[k]).0,
                un_blacklisted_event_srcs(*blk)[k].1,
            ),
        r is Some ==> r->Some_0.usdc_unpauses@.len() == unpause_event_srcs(*blk).len(),
        r is Some ==> forall|k: int|
            0 <= k < unpause_event_srcs(*blk).len() ==> unpause_event_rec_ok(
                r->Some_0.usdc_unpauses@[k],
                *blk,
                (#[trigger] unpause_event_srcs(*blk)[k]).0,
                unpause_event_srcs(*blk)[k].1,
            ),
        r is Some ==> r->Some_0.usdc_upgradeds@.len() == upgraded_event_srcs(*blk).len(),
        r is Some ==> forall|k: int|
            0 <= k < upgraded_event_srcs(*blk).len() ==> upgraded_event_rec_ok(
                r->Some_0.usdc_upgradeds@[k],
                *blk,
                (#[trigger] upgraded_event_srcs(*blk)[k]).0,
                upgraded_event_srcs(*blk)[k].1,
            ),
{
    let mut events = Events::default();
    map_usdc_events(blk, &mut events);
    if events_is_empty(&events) {
        None
    } else {
        Some(events)
    }
}

/// Projects one block to its call batches, suppressing the output when
/// no call qualified for any kind.
pub fn map_calls(blk: &Block) -> (r: Option<Calls>)
    ensures
        r is Some <==> block_has_call_records(*blk),
        r is Some ==> r->Some_0.usdc_call_approves@.len() == approve_call_srcs(*blk).len(),
        r is Some ==> forall|k: int|
            0 <= k < approve_call_srcs(*blk).len() ==> approve_call_rec_ok(
                r->Some_0.usdc_call_approves@[k],
                *blk,
                (#[trigger] approve_call_srcs(*blk)[k]).0,
                approve_call_srcs(*blk)[k].1,
            ),
        r is Some ==> r->Some_0.usdc_call_blacklists@.len() == blacklist_call_srcs(*blk).len(),
        r is Some ==> forall|k: int|
            0 <= k < blacklist_call_srcs(*blk).len() ==> blacklist_call_rec_ok(
                r->Some_0.usdc_call_blacklists@[k],
                *blk,
                (#[trigger] blacklist_call_srcs(*blk)[k]).0,
                blacklist_call_srcs(*blk)[k].1,
            ),
        r is Some ==> r->Some_0.usdc_call_burns@.len() == burn_call_srcs(*blk).len(),
        r is Some ==> forall|k: int|
            0 <= k < burn_call_srcs(*blk).len() ==> burn_call_rec_ok(
                r->Some_0.usdc_call_burns@[k],
                *blk,
                (#[trigger] burn_call_srcs(*blk)[k]).0,
                burn_call_srcs(*blk)[k].1,
            ),
        r is Some ==> r->Some_0.usdc_call_cancel_authorization_1s@.len() == cancel_authorization_1_call_srcs(*blk).len(),
        r is Some ==> forall|k: int|
            0 <= k < cancel_authorization_1_call_srcs(*blk).len() ==> cancel_authorization_1_call_rec_ok(
                r->Some_0.usdc_call_cancel_authorization_1s@[k],
                *blk,
                (#[trigger] cancel_authorization_1_call_srcs(*blk)[k]).0,
                cancel_authorization_1_call_srcs(*blk)[k].1,
            ),
        r is Some ==> r->Some_0.usdc_call_cancel_authorization_2s@.len() == cancel_authorization_2_call_srcs(*blk).len(),
        r is Some ==> forall|k: int|
            0 <= k < cancel_authorization_2_call_srcs(*blk).len() ==> cancel_authorization_2_call_rec_ok(
                r->Some_0.usdc_call_cancel_authorization_2s@[k],
                *blk,
                (#[trigger] cancel_authorization_2_call_srcs(*blk)[k]).0,
                cancel_authorization_2_call_srcs(*blk)[k].1,
            ),
        r is Some ==> r->Some_0.usdc_call_change_admins@.len() == change_admin_call_srcs(*blk).len(),
        r is Some ==> forall|k: int|
            0 <= k < change_admin_call_srcs(*blk).len() ==> change_admin_call_rec_ok(
                r->Some_0.usdc_call_change_admins@[k],
                *blk,
                (#[trigger] change_admin_call_srcs(*blk)[k]).0,
                change_admin_call_srcs(*blk)[k].1,
            ),
        r is Some ==> r->Some_0.usdc_call_configure_minters@.len() == configure_minter_call_srcs(*blk).len(),
        r is Some ==> forall|k: int|
            0 <= k < configure_minter_call_srcs(*blk).len() ==> configure_minter_call_rec_ok(
                r->Some_0.usdc_call_configure_minters@[k],
                *blk,
                (#[trigger] configure_minter_call_srcs(*blk)[k]).0,
                configure_minter_call_srcs(*blk)[k].1,
            ),
        r is Some ==> r->Some_0.usdc_call_decrease_allowances@.len() == decrease_allowance_call_srcs(*blk).len(),
        r is Some ==> forall|k: int|
            0 <= k < decrease_allowance_call_srcs(*blk).len() ==> decrease_allowance_call_rec_ok(
                r->Some_0.usdc_call_decrease_allowances@[k],
                *blk,
                (#[trigger] decrease_allowance_call_srcs(*blk)[k]).0,
                decrease_allowance_call_srcs(*blk)[k].1,
            ),
        r is Some ==> r->Some_0.usdc_call_increase_allowances@.len() == increase_allowance_call_srcs(*blk).len(),
        r is Some ==> forall|k: int|
            0 <= k < increase_allowance_call_srcs(*blk).len() ==> increase_allowance_call_rec_ok(
                r->Some_0.usdc_call_increase_allowances@[k],
                *blk,
                (#[trigger] increase_allowance_call_srcs(*blk)[k]).0,
                increase_allowance_call_srcs(*blk)[k].1,
            ),
        r is Some ==> r->Some_0.usdc_call_initializes@.len() == initialize_call_srcs(*blk).len(),
        r is Some ==> forall|k: int|
            0 <= k < initialize_call_srcs(*blk).len() ==> initialize_call_rec_ok(
                r->Some_0.usdc_call_initializes@[k],
                *blk,
                (#[trigger] initialize_call_srcs(*blk)[k]).0,
                initialize_call_srcs(*blk)[k].1,
            ),
        r is Some ==> r->Some_0.usdc_call_initialize_v_2s@.len() == initialize_v2_call_srcs(*blk).len(),
        r is Some ==> forall|k: int|
            0 <= k < initialize_v2_call_srcs(*blk).len() ==> initialize_v2_call_rec_ok(
                r->Some_0.usdc_call_initialize_v_2s@[k],
                *blk,
                (#[trigger] initialize_v2_call_srcs(*blk)[k]).0,
                initialize_v2_call_srcs(*blk)[k].1,
            ),
        r is Some ==> r->Some_0.usdc_call_initialize_v2_1s@.len() == initialize_v2_1_call_srcs(*blk).len(),
        r is Some ==> forall|k: int|
            0 <= k < initialize_v2_1_call_srcs(*blk).len() ==> initialize_v2_1_call_rec_ok(
                r->Some_0.usdc_call_initialize_v2_1s@[k],
                *blk,
                (#[trigger] initialize_v2_1_call_srcs(*blk)[k]).0,
                initialize_v2_1_call_srcs(*blk)[k].1,
            ),
        r is Some ==> r->Some_0.usdc_call_initialize_v2_2s@.len() == initialize_v2_2_call_srcs(*blk).len(),
        r is Some ==> forall|k: int|
            0 <= k < initialize_v2_2_call_srcs(*blk).len() ==> initialize_v2_2_call_rec_ok(
                r->Some_0.usdc_call_initialize_v2_2s@[k],
                *blk,
                (#[trigger] initialize_v2_2_call_srcs(*blk)[k]).0,
                initialize_v2_2_call_srcs(*blk)[k].1,
            ),
        r is Some ==> r->Some_0.usdc_call_mints@.len() == mint_call_srcs(*blk).len(),
        r is Some ==> forall|k: int|
            0 <= k < mint_call_srcs(*blk).len() ==> mint_call_rec_ok(
                r->Some_0.usdc_call_mints@[k],
                *blk,
                (#[trigger] mint_call_srcs(*blk)[k]).0,
                mint_call_srcs(*blk)[k].1,
            ),
        r is Some ==> r->Some_0.usdc_call_pauses@.len() == pause_call_srcs(*blk).len(),
        r is Some ==> forall|k: int|
            0 <= k < pause_call_srcs(*blk).len() ==> pause_call_rec_ok(
                r->Some_0.usdc_call_pauses@[k],
                *blk,
                (#[trigger] pause_call_srcs(*blk)[k]).0,
                pause_call_srcs(*blk)[k].1,
            ),
        r is Some ==> r->Some_0.usdc_call_permit_1s@.len() == permit_1_call_srcs(*blk).len(),
        r is Some ==> forall|k: int|
            0 <= k < permit_1_call_srcs(*blk).len() ==> permit_1_call_rec_ok(
                r->Some_0.usdc_call_permit_1s@[k],
                *blk,
                (#[trigger] permit_1_call_srcs(*blk)[k]).0,
                permit_1_call_srcs(*blk)[k].1,
            ),
        r is Some ==> r->Some_0.usdc_call_permit_2s@.len() == permit_2_call_srcs(*blk).len(),
        r is Some ==> forall|k: int|
            0 <= k < permit_2_call_srcs(*blk).len() ==> permit_2_call_rec_ok(
                r->Some_0.usdc_call_permit_2s@[k],
                *blk,
                (#[trigger] permit_2_call_srcs(*blk)[k]).0,
                permit_2_call_srcs(*blk)[k].1,
            ),
        r is Some ==> r->Some_0.usdc_call_receive_with_authorization_1s@.len() == receive_with_authorization_1_call_srcs(*blk).len(),
        r is Some ==> forall|k: int|
            0 <= k < receive_with_authorization_1_call_srcs(*blk).len() ==> receive_with_authorization_1_call_rec_ok(
                r->Some_0.usdc_call_receive_with_authorization_1s@[k],
                *blk,
                (#[trigger] receive_with_authorization_1_call_srcs(*blk)[k]).0,
                receive_with_authorization_1_call_srcs(*blk)[k].1,
            ),
        r is Some ==> r->Some_0.usdc_call_receive_with_authorization_2s@.len() == receive_with_authorization_2_call_srcs(*blk).len(),
        r is Some ==> forall|k: int|
            0 <= k < receive_with_authorization_2_call_srcs(*blk).len() ==> receive_with_authorization_2_call_rec_ok(
                r->Some_0.usdc_call_receive_with_authorization_2s@[k],
                *blk,
                (#[trigger] receive_with_authorization_2_call_srcs(*blk)[k]).0,
                receive_with_authorization_2_call_srcs(*blk)[k].1,
            ),
        r is Some ==> r->Some_0.usdc_call_remove_minters@.len() == remove_minter_call_srcs(*blk).len(),
        r is Some ==> forall|k: int|
            0 <= k < remove_minter_call_srcs(*blk).len() ==> remove_minter_call_rec_ok(
                r->Some_0.usdc_call_remove_minters@[k],
                *blk,
                (#[trigger] remove_minter_call_srcs(*blk)[k]).0,
                remove_minter_call_srcs(*blk)[k].1,
            ),
        r is Some ==> r->Some_0.usdc_call_rescue_erc_20s@.len() == rescue_erc20_call_srcs(*blk).len(),
        r is Some ==> forall|k: int|
            0 <= k < rescue_erc20_call_srcs(*blk).len() ==> rescue_erc20_call_rec_ok(
                r->Some_0.usdc_call_rescue_erc_20s@[k],
                *blk,
                (#[trigger] rescue_erc20_call_srcs(*blk)[k]).0,
                rescue_erc20_call_srcs(*blk)[k].1,
            ),
        r is Some ==> r->Some_0.usdc_call_transfers@.len() == transfer_call_srcs(*blk).len(),
        r is Some ==> forall|k: int|
            0 <= k < transfer_call_srcs(*blk).len() ==> transfer_call_rec_ok(
                r->Some_0.usdc_call_transfers@[k],
                *blk,
                (#[trigger] transfer_call_srcs(*blk)[k]).0,
                transfer_call_srcs(*blk)[k].1,
            ),
        r is Some ==> r->Some_0.usdc_call_transfer_froms@.len() == transfer_from_call_srcs(*blk).len(),
        r is Some ==> forall|k: int|
            0 <= k < transfer_from_call_srcs(*blk).len() ==> transfer_from_call_rec_ok(
                r->Some_0.usdc_call_transfer_froms@[k],
                *blk,
                (#[trigger] transfer_from_call_srcs(*blk)[k]).0,
                transfer_from_call_srcs(*blk)[k].1,
            ),
        r is Some ==> r->Some_0.usdc_call_transfer_ownerships@.len() == transfer_ownership_call_srcs(*blk).len(),
        r is Some ==> forall|k: int|
            0 <= k < transfer_ownership_call_srcs(*blk).len() ==> transfer_ownership_call_rec_ok(
                r->Some_0.usdc_call_transfer_ownerships@[k],
                *blk,
                (#[trigger] transfer_ownership_call_srcs(*blk)[k]).0,
                transfer_ownership_call_srcs(*blk)[k].1,
            ),
        r is Some ==> r->Some_0.usdc_call_transfer_with_authorization_1s@.len() == transfer_with_authorization_1_call_srcs(*blk).len(),
        r is Some ==> forall|k: int|
            0 <= k < transfer_with_authorization_1_call_srcs(*blk).len() ==> transfer_with_authorization_1_call_rec_ok(
                r->Some_0.usdc_call_transfer_with_authorization_1s@[k],
                *blk,
                (#[trigger] transfer_with_authorization_1_call_srcs(*blk)[k]).0,
                transfer_with_authorization_1_call_srcs(*blk)[k].1,
            ),
        r is Some ==> r->Some_0.usdc_call_transfer_with_authorization_2s@.len() == transfer_with_authorization_2_call_srcs(*blk).len(),
        r is Some ==> forall|k: int|
            0 <= k < transfer_with_authorization_2_call_srcs(*blk).len() ==> transfer_with_authorization_2_call_rec_ok(
                r->Some_0.usdc_call_transfer_with_authorization_2s@[k],
                *blk,
                (#[trigger] transfer_with_authorization_2_call_srcs(*blk)[k]).0,
                transfer_with_authorization_2_call_srcs(*blk)[k].1,
            ),
        r is Some ==> r->Some_0.usdc_call_un_blacklists@.len() == un_blacklist_call_srcs(*blk).len(),
        r is Some ==> forall|k: int|
            0 <= k < un_blacklist_call_srcs(*blk).len() ==> un_blacklist_call_rec_ok(
                r->Some_0.usdc_call_un_blacklists@[k],
                *blk,
                (#[trigger] un_blacklist_call_srcs(*blk)[k]).0,
                un_blacklist_call_srcs(*blk)[k].1,
            ),
        r is Some ==> r->Some_0.usdc_call_unpauses@.len() == unpause_call_srcs(*blk).len(),
        r is Some ==> forall|k: int|
            0 <= k < unpause_call_srcs(*blk).len() ==> unpause_call_rec_ok(
                r->Some_0.usdc_call_unpauses@[k],
                *blk,
                (#[trigger] unpause_call_srcs(*blk)[k]).0,
                unpause_call_srcs(*blk)[k].1,
            ),
        r is Some ==> r->Some_0.usdc_call_update_blacklisters@.len() == update_blacklister_call_srcs(*blk).len(),
        r is Some ==> forall|k: int|
            0 <= k < update_blacklister_call_srcs(*blk).len() ==> update_blacklister_call_rec_ok(
                r->Some_0.usdc_call_update_blacklisters@[k],
                *blk,
                (#[trigger] update_blacklister_call_srcs(*blk)[k]).0,
                update_blacklister_call_srcs(*blk)[k].1,
            ),
        r is Some ==> r->Some_0.usdc_call_update_master_minters@.len() == update_master_minter_call_srcs(*blk).len(),
        r is Some ==> forall|k: int|
            0 <= k < update_master_minter_call_srcs(*blk).len() ==> update_master_minter_call_rec_ok(
                r->Some_0.usdc_call_update_master_minters@[k],
                *blk,
                (#[trigger] update_master_minter_call_srcs(*blk)[k]).0,
                update_master_minter_call_srcs(*blk)[k].1,
            ),
        r is Some ==> r->Some_0.usdc_call_update_pausers@.len() == update_pauser_call_srcs(*blk).len(),
        r is Some ==> forall|k: int|
            0 <= k < update_pauser_call_srcs(*blk).len() ==> update_pauser_call_rec_ok(
                r->Some_0.usdc_call_update_pausers@[k],
                *blk,
                (#[trigger] update_pauser_call_srcs(*blk)[k]).0,
                update_pauser_call_srcs(*blk)[k].1,
            ),
        r is Some ==> r->Some_0.usdc_call_update_rescuers@.len() == update_rescuer_call_srcs(*blk).len(),
        r is Some ==> forall|k: int|
            0 <= k < update_rescuer_call_srcs(*blk).len() ==> update_rescuer_call_rec_ok(
                r->Some_0.usdc_call_update_rescuers@[k],
                *blk,
                (#[trigger] update_rescuer_call_srcs(*blk)[k]).0,
                update_rescuer_call_srcs(*blk)[k].1,
            ),
        r is Some ==> r->Some_0.usdc_call_upgrade_tos@.len() == upgrade_to_call_srcs(*blk).len(),
        r is Some ==> forall|k: int|
            0 <= k < upgrade_to_call_srcs(*blk).len() ==> upgrade_to_call_rec_ok(
                r->Some_0.usdc_call_upgrade_tos@[k],
                *blk,
                (#[trigger] upgrade_to_call_srcs(*blk)[k]).0,
                upgrade_to_call_srcs(*blk)[k].1,
            ),
        r is Some ==> r->Some_0.usdc_call_upgrade_to_and_calls@.len() == upgrade_to_and_call_call_srcs(*blk).len(),
        r is Some ==> forall|k: int|
            0 <= k < upgrade_to_and_call_call_srcs(*blk).len() ==> upgrade_to_and_call_call_rec_ok(
                r->Some_0.usdc_call_upgrade_to_and_calls@[k],
                *blk,
                (#[trigger] upgrade_to_and_call_call_srcs(*blk)[k]).0,
                upgrade_to_and_call_call_srcs(*blk)[k].1,
            ),
{
    let mut calls = Calls::default();
    map_usdc_calls(blk, &mut calls);
    if calls_is_empty(&calls) {
        None
    } else {
        Some(calls)
    }
}

/// Joins already-computed per-block results; performs no suppression.
pub fn map_events_calls(events: Events, calls: Calls) -> (r: EventsCalls)
    ensures
        r.events == Some(events),
        r.calls == Some(calls),
{
    EventsCalls { events: Some(events), calls: Some(calls) }
}

} // verus!
