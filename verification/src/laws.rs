//! The stated laws of the pipeline, proved against the projector contracts.
//!
//! They cover: the address filter is exhaustive (no record ever stems from an
//! entry of another contract); a qualifying log is counted exactly once, in
//! exactly one kind's batch; batches keep the within-block order of their
//! sources; and the projection is a function of the block alone, so two runs
//! agree record for record.

use vstd::prelude::*;

use crate::model::Block;
use crate::model::Call;
use crate::model::Log;
use crate::model::Transaction;
use crate::model::is_tracked;
use crate::scan::block_entries;
use crate::scan::block_srcs;
use crate::scan::calls_of;
use crate::scan::count_matching;
use crate::scan::eq_to;
use crate::scan::lemma_block_srcs_as_filter_map;
use crate::scan::lemma_count_matching_congruent;
use crate::scan::lemma_count_matching_zero;
use crate::scan::lemma_filter_map_count;
use crate::scan::lemma_filter_map_sorted;
use crate::scan::lemma_srcs_only_matching;
use crate::scan::lift;
use crate::scan::logs_of;
use crate::scan::src_opt;
use crate::scan::yields_result;

use crate::events::q_admin_changed_event;
use crate::events::q_admin_changed_event_fn;
use crate::events::admin_changed_event_srcs;
use crate::events::admin_changed_event_rec_ok;
use crate::events::q_approval_event;
use crate::events::q_approval_event_fn;
use crate::events::approval_event_srcs;
use crate::events::approval_event_rec_ok;
use crate::events::q_authorization_canceled_event;
use crate::events::q_authorization_canceled_event_fn;
use crate::events::authorization_canceled_event_srcs;
use crate::events::authorization_canceled_event_rec_ok;
use crate::events::q_authorization_used_event;
use crate::events::q_authorization_used_event_fn;
use crate::events::authorization_used_event_srcs;
use crate::events::authorization_used_event_rec_ok;
use crate::events::q_blacklisted_event;
use crate::events::q_blacklisted_event_fn;
use crate::events::blacklisted_event_srcs;
use crate::events::blacklisted_event_rec_ok;
use crate::events::q_blacklister_changed_event;
use crate::events::q_blacklister_changed_event_fn;
use crate::events::blacklister_changed_event_srcs;
use crate::events::blacklister_changed_event_rec_ok;
use crate::events::q_burn_event;
use crate::events::q_burn_event_fn;
use crate::events::burn_event_srcs;
use crate::events::burn_event_rec_ok;
use crate::events::q_master_minter_changed_event;
use crate::events::q_master_minter_changed_event_fn;
use crate::events::master_minter_changed_event_srcs;
use crate::events::master_minter_changed_event_rec_ok;
use crate::events::q_mint_event;
use crate::events::q_mint_event_fn;
use crate::events::mint_event_srcs;
use crate::events::mint_event_rec_ok;
use crate::events::q_minter_configured_event;
use crate::events::q_minter_configured_event_fn;
use crate::events::minter_configured_event_srcs;
use crate::events::minter_configured_event_rec_ok;
use crate::events::q_minter_removed_event;
use crate::events::q_minter_removed_event_fn;
use crate::events::minter_removed_event_srcs;
use crate::events::minter_removed_event_rec_ok;
use crate::events::q_ownership_transferred_event;
use crate::events::q_ownership_transferred_event_fn;
use crate::events::ownership_transferred_event_srcs;
use crate::events::ownership_transferred_event_rec_ok;
use crate::events::q_pause_event;
use crate::events::q_pause_event_fn;
use crate::events::pause_event_srcs;
use crate::events::pause_event_rec_ok;
use crate::events::q_pauser_changed_event;
use crate::events::q_pauser_changed_event_fn;
use crate::events::pauser_changed_event_srcs;
use crate::events::pauser_changed_event_rec_ok;
use crate::events::q_rescuer_changed_event;
use crate::events::q_rescuer_changed_event_fn;
use crate::events::rescuer_changed_event_srcs;
use crate::events::rescuer_changed_event_rec_ok;
use crate::events::q_transfer_event;
use crate::events::q_transfer_event_fn;
use crate::events::transfer_event_srcs;
use crate::events::transfer_event_rec_ok;
use crate::events::q_un_blacklisted_event;
use crate::events::q_un_blacklisted_event_fn;
use crate::events::un_blacklisted_event_srcs;
use crate::events::un_blacklisted_event_rec_ok;
use crate::events::q_unpause_event;
use crate::events::q_unpause_event_fn;
use crate::events::unpause_event_srcs;
use crate::events::unpause_event_rec_ok;
use crate::events::q_upgraded_event;
use crate::events::q_upgraded_event_fn;
use crate::events::upgraded_event_srcs;
use crate::events::upgraded_event_rec_ok;
use crate::calls::q_approve_call;
use crate::calls::q_approve_call_fn;
use crate::calls::approve_call_srcs;
use crate::calls::approve_call_rec_ok;
use crate::calls::q_blacklist_call_fn;
use crate::calls::blacklist_call_srcs;
use crate::calls::blacklist_call_rec_ok;
use crate::calls::q_burn_call_fn;
use crate::calls::burn_call_srcs;
use crate::calls::burn_call_rec_ok;
use crate::calls::q_cancel_authorization_1_call_fn;
use crate::calls::cancel_authorization_1_call_srcs;
use crate::calls::cancel_authorization_1_call_rec_ok;
use crate::calls::q_cancel_authorization_2_call_fn;
use crate::calls::cancel_authorization_2_call_srcs;
use crate::calls::cancel_authorization_2_call_rec_ok;
use crate::calls::q_change_admin_call_fn;
use crate::calls::change_admin_call_srcs;
use crate::calls::change_admin_call_rec_ok;
use crate::calls::q_configure_minter_call_fn;
use crate::calls::configure_minter_call_srcs;
use crate::calls::configure_minter_call_rec_ok;
use crate::calls::q_decrease_allowance_call_fn;
use crate::calls::decrease_allowance_call_srcs;
use crate::calls::decrease_allowance_call_rec_ok;
use crate::calls::q_increase_allowance_call_fn;
use crate::calls::increase_allowance_call_srcs;
use crate::calls::increase_allowance_call_rec_ok;
use crate::calls::q_initialize_call_fn;
use crate::calls::initialize_call_srcs;
use crate::calls::initialize_call_rec_ok;
use crate::calls::q_initialize_v2_call_fn;
use crate::calls::initialize_v2_call_srcs;
use crate::calls::initialize_v2_call_rec_ok;
use crate::calls::q_initialize_v2_1_call_fn;
use crate::calls::initialize_v2_1_call_srcs;
use crate::calls::initialize_v2_1_call_rec_ok;
use crate::calls::q_initialize_v2_2_call_fn;
use crate::calls::initialize_v2_2_call_srcs;
use crate::calls::initialize_v2_2_call_rec_ok;
use crate::calls::q_mint_call_fn;
use crate::calls::mint_call_srcs;
use crate::calls::mint_call_rec_ok;
use crate::calls::q_pause_call_fn;
use crate::calls::pause_call_srcs;
use crate::calls::pause_call_rec_ok;
use crate::calls::q_permit_1_call_fn;
use crate::calls::permit_1_call_srcs;
use crate::calls::permit_1_call_rec_ok;
use crate::calls::q_permit_2_call_fn;
use crate::calls::permit_2_call_srcs;
use crate::calls::permit_2_call_rec_ok;
use crate::calls::q_receive_with_authorization_1_call_fn;
use crate::calls::receive_with_authorization_1_call_srcs;
use crate::calls::receive_with_authorization_1_call_rec_ok;
use crate::calls::q_receive_with_authorization_2_call_fn;
use crate::calls::receive_with_authorization_2_call_srcs;
use crate::calls::receive_with_authorization_2_call_rec_ok;
use crate::calls::q_remove_minter_call_fn;
use crate::calls::remove_minter_call_srcs;
use crate::calls::remove_minter_call_rec_ok;
use crate::calls::q_rescue_erc20_call_fn;
use crate::calls::rescue_erc20_call_srcs;
use crate::calls::rescue_erc20_call_rec_ok;
use crate::calls::q_transfer_call_fn;
use crate::calls::transfer_call_srcs;
use crate::calls::transfer_call_rec_ok;
use crate::calls::q_transfer_from_call_fn;
use crate::calls::transfer_from_call_srcs;
use crate::calls::transfer_from_call_rec_ok;
use crate::calls::q_transfer_ownership_call_fn;
use crate::calls::transfer_ownership_call_srcs;
use crate::calls::transfer_ownership_call_rec_ok;
use crate::calls::q_transfer_with_authorization_1_call_fn;
use crate::calls::transfer_with_authorization_1_call_srcs;
use crate::calls::transfer_with_authorization_1_call_rec_ok;
use crate::calls::q_transfer_with_authorization_2_call_fn;
use crate::calls::transfer_with_authorization_2_call_srcs;
use crate::calls::transfer_with_authorization_2_call_rec_ok;
use crate::calls::q_un_blacklist_call_fn;
use crate::calls::un_blacklist_call_srcs;
use crate::calls::un_blacklist_call_rec_ok;
use crate::calls::q_unpause_call_fn;
use crate::calls::unpause_call_srcs;
use crate::calls::unpause_call_rec_ok;
use crate::calls::q_update_blacklister_call_fn;
use crate::calls::update_blacklister_call_srcs;
use crate::calls::update_blacklister_call_rec_ok;
use crate::calls::q_update_master_minter_call_fn;
use crate::calls::update_master_minter_call_srcs;
use crate::calls::update_master_minter_call_rec_ok;
use crate::calls::q_update_pauser_call_fn;
use crate::calls::update_pauser_call_srcs;
use crate::calls::update_pauser_call_rec_ok;
use crate::calls::q_update_rescuer_call_fn;
use crate::calls::update_rescuer_call_srcs;
use crate::calls::update_rescuer_call_rec_ok;
use crate::calls::q_upgrade_to_call_fn;
use crate::calls::upgrade_to_call_srcs;
use crate::calls::upgrade_to_call_rec_ok;
use crate::calls::q_upgrade_to_and_call_call_fn;
use crate::calls::upgrade_to_and_call_call_srcs;
use crate::calls::upgrade_to_and_call_call_rec_ok;
use crate::records::UsdcAdminChanged;
use crate::records::UsdcApproval;
use crate::records::UsdcAuthorizationCanceled;
use crate::records::UsdcAuthorizationUsed;
use crate::records::UsdcBlacklisted;
use crate::records::UsdcBlacklisterChanged;
use crate::records::UsdcBurn;
use crate::records::UsdcMasterMinterChanged;
use crate::records::UsdcMint;
use crate::records::UsdcMinterConfigured;
use crate::records::UsdcMinterRemoved;
use crate::records::UsdcOwnershipTransferred;
use crate::records::UsdcPause;
use crate::records::UsdcPauserChanged;
use crate::records::UsdcRescuerChanged;
use crate::records::UsdcTransfer;
use crate::records::UsdcUnBlacklisted;
use crate::records::UsdcUnpause;
use crate::records::UsdcUpgraded;
use crate::records::UsdcApproveCall;
use crate::records::UsdcBlacklistCall;
use crate::records::UsdcBurnCall;
use crate::records::UsdcCancelAuthorization1call;
use crate::records::UsdcCancelAuthorization2call;
use crate::records::UsdcChangeAdminCall;
use crate::records::UsdcConfigureMinterCall;
use crate::records::UsdcDecreaseAllowanceCall;
use crate::records::UsdcIncreaseAllowanceCall;
use crate::records::UsdcInitializeCall;
use crate::records::UsdcInitializeV2call;
use crate::records::UsdcInitializeV21call;
use crate::records::UsdcInitializeV22call;
use crate::records::UsdcMintCall;
use crate::records::UsdcPauseCall;
use crate::records::UsdcPermit1call;
use crate::records::UsdcPermit2call;
use crate::records::UsdcReceiveWithAuthorization1call;
use crate::records::UsdcReceiveWithAuthorization2call;
use crate::records::UsdcRemoveMinterCall;
use crate::records::UsdcRescueErc20call;
use crate::records::UsdcTransferCall;
use crate::records::UsdcTransferFromCall;
use crate::records::UsdcTransferOwnershipCall;
use crate::records::UsdcTransferWithAuthorization1call;
use crate::records::UsdcTransferWithAuthorization2call;
use crate::records::UsdcUnBlacklistCall;
use crate::records::UsdcUnpauseCall;
use crate::records::UsdcUpdateBlacklisterCall;
use crate::records::UsdcUpdateMasterMinterCall;
use crate::records::UsdcUpdatePauserCall;
use crate::records::UsdcUpdateRescuerCall;
use crate::records::UsdcUpgradeToCall;
use crate::records::UsdcUpgradeToAndCallCall;
use crate::records::Events;
use crate::records::Calls;

verus! {

/// Address filtering is exhaustive: a log of any other contract is
/// selected as a source by no event kind, so no record stems from it.
pub proof fn lemma_untracked_log_excluded(b: Block, t: Transaction, l: Log)
    requires
        !is_tracked(l.address@),
    ensures
        !admin_changed_event_srcs(b).contains((t, l)),
        !approval_event_srcs(b).contains((t, l)),
        !authorization_canceled_event_srcs(b).contains((t, l)),
        !authorization_used_event_srcs(b).contains((t, l)),
        !blacklisted_event_srcs(b).contains((t, l)),
        !blacklister_changed_event_srcs(b).contains((t, l)),
        !burn_event_srcs(b).contains((t, l)),
        !master_minter_changed_event_srcs(b).contains((t, l)),
        !mint_event_srcs(b).contains((t, l)),
        !minter_configured_event_srcs(b).contains((t, l)),
        !minter_removed_event_srcs(b).contains((t, l)),
        !ownership_transferred_event_srcs(b).contains((t, l)),
        !pause_event_srcs(b).contains((t, l)),
        !pauser_changed_event_srcs(b).contains((t, l)),
        !rescuer_changed_event_srcs(b).contains((t, l)),
        !transfer_event_srcs(b).contains((t, l)),
        !un_blacklisted_event_srcs(b).contains((t, l)),
        !unpause_event_srcs(b).contains((t, l)),
        !upgraded_event_srcs(b).contains((t, l)),
{
    if admin_changed_event_srcs(b).contains((t, l)) {
        lemma_srcs_only_matching(b, logs_of(), q_admin_changed_event_fn(), t, l);
    }
    if approval_event_srcs(b).contains((t, l)) {
        lemma_srcs_only_matching(b, logs_of(), q_approval_event_fn(), t, l);
    }
    if authorization_canceled_event_srcs(b).contains((t, l)) {
        lemma_srcs_only_matching(b, logs_of(), q_authorization_canceled_event_fn(), t, l);
    }
    if authorization_used_event_srcs(b).contains((t, l)) {
        lemma_srcs_only_matching(b, logs_of(), q_authorization_used_event_fn(), t, l);
    }
    if blacklisted_event_srcs(b).contains((t, l)) {
        lemma_srcs_only_matching(b, logs_of(), q_blacklisted_event_fn(), t, l);
    }
    if blacklister_changed_event_srcs(b).contains((t, l)) {
        lemma_srcs_only_matching(b, logs_of(), q_blacklister_changed_event_fn(), t, l);
    }
    if burn_event_srcs(b).contains((t, l)) {
        lemma_srcs_only_matching(b, logs_of(), q_burn_event_fn(), t, l);
    }
    if master_minter_changed_event_srcs(b).contains((t, l)) {
        lemma_srcs_only_matching(b, logs_of(), q_master_minter_changed_event_fn(), t, l);
    }
    if mint_event_srcs(b).contains((t, l)) {
        lemma_srcs_only_matching(b, logs_of(), q_mint_event_fn(), t, l);
    }
    if minter_configured_event_srcs(b).contains((t, l)) {
        lemma_srcs_only_matching(b, logs_of(), q_minter_configured_event_fn(), t, l);
    }
    if minter_removed_event_srcs(b).contains((t, l)) {
        lemma_srcs_only_matching(b, logs_of(), q_minter_removed_event_fn(), t, l);
    }
    if ownership_transferred_event_srcs(b).contains((t, l)) {
        lemma_srcs_only_matching(b, logs_of(), q_ownership_transferred_event_fn(), t, l);
    }
    if pause_event_srcs(b).contains((t, l)) {
        lemma_srcs_only_matching(b, logs_of(), q_pause_event_fn(), t, l);
    }
    if pauser_changed_event_srcs(b).contains((t, l)) {
        lemma_srcs_only_matching(b, logs_of(), q_pauser_changed_event_fn(), t, l);
    }
    if rescuer_changed_event_srcs(b).contains((t, l)) {
        lemma_srcs_only_matching(b, logs_of(), q_rescuer_changed_event_fn(), t, l);
    }
    if transfer_event_srcs(b).contains((t, l)) {
        lemma_srcs_only_matching(b, logs_of(), q_transfer_event_fn(), t, l);
    }
    if un_blacklisted_event_srcs(b).contains((t, l)) {
        lemma_srcs_only_matching(b, logs_of(), q_un_blacklisted_event_fn(), t, l);
    }
    if unpause_event_srcs(b).contains((t, l)) {
        lemma_srcs_only_matching(b, logs_of(), q_unpause_event_fn(), t, l);
    }
    if upgraded_event_srcs(b).contains((t, l)) {
        lemma_srcs_only_matching(b, logs_of(), q_upgraded_event_fn(), t, l);
    }
}

/// Address filtering is exhaustive on the call side as well.
pub proof fn lemma_untracked_call_excluded(b: Block, t: Transaction, c: Call)
    requires
        !is_tracked(c.address@),
    ensures
        !approve_call_srcs(b).contains((t, c)),
        !blacklist_call_srcs(b).contains((t, c)),
        !burn_call_srcs(b).contains((t, c)),
        !cancel_authorization_1_call_srcs(b).contains((t, c)),
        !cancel_authorization_2_call_srcs(b).contains((t, c)),
        !change_admin_call_srcs(b).contains((t, c)),
        !configure_minter_call_srcs(b).contains((t, c)),
        !decrease_allowance_call_srcs(b).contains((t, c)),
        !increase_allowance_call_srcs(b).contains((t, c)),
        !initialize_call_srcs(b).contains((t, c)),
        !initialize_v2_call_srcs(b).contains((t, c)),
        !initialize_v2_1_call_srcs(b).contains((t, c)),
        !initialize_v2_2_call_srcs(b).contains((t, c)),
        !mint_call_srcs(b).contains((t, c)),
        !pause_call_srcs(b).contains((t, c)),
        !permit_1_call_srcs(b).contains((t, c)),
        !permit_2_call_srcs(b).contains((t, c)),
        !receive_with_authorization_1_call_srcs(b).contains((t, c)),
        !receive_with_authorization_2_call_srcs(b).contains((t, c)),
        !remove_minter_call_srcs(b).contains((t, c)),
        !rescue_erc20_call_srcs(b).contains((t, c)),
        !transfer_call_srcs(b).contains((t, c)),
        !transfer_from_call_srcs(b).contains((t, c)),
        !transfer_ownership_call_srcs(b).contains((t, c)),
        !transfer_with_authorization_1_call_srcs(b).contains((t, c)),
        !transfer_with_authorization_2_call_srcs(b).contains((t, c)),
        !un_blacklist_call_srcs(b).contains((t, c)),
        !unpause_call_srcs(b).contains((t, c)),
        !update_blacklister_call_srcs(b).contains((t, c)),
        !update_master_minter_call_srcs(b).contains((t, c)),
        !update_pauser_call_srcs(b).contains((t, c)),
        !update_rescuer_call_srcs(b).contains((t, c)),
        !upgrade_to_call_srcs(b).contains((t, c)),
        !upgrade_to_and_call_call_srcs(b).contains((t, c)),
{
    if approve_call_srcs(b).contains((t, c)) {
        lemma_srcs_only_matching(b, calls_of(), q_approve_call_fn(), t, c);
    }
    if blacklist_call_srcs(b).contains((t, c)) {
        lemma_srcs_only_matching(b, calls_of(), q_blacklist_call_fn(), t, c);
    }
    if burn_call_srcs(b).contains((t, c)) {
        lemma_srcs_only_matching(b, calls_of(), q_burn_call_fn(), t, c);
    }
    if cancel_authorization_1_call_srcs(b).contains((t, c)) {
        lemma_srcs_only_matching(b, calls_of(), q_cancel_authorization_1_call_fn(), t, c);
    }
    if cancel_authorization_2_call_srcs(b).contains((t, c)) {
        lemma_srcs_only_matching(b, calls_of(), q_cancel_authorization_2_call_fn(), t, c);
    }
    if change_admin_call_srcs(b).contains((t, c)) {
        lemma_srcs_only_matching(b, calls_of(), q_change_admin_call_fn(), t, c);
    }
    if configure_minter_call_srcs(b).contains((t, c)) {
        lemma_srcs_only_matching(b, calls_of(), q_configure_minter_call_fn(), t, c);
    }
    if decrease_allowance_call_srcs(b).contains((t, c)) {
        lemma_srcs_only_matching(b, calls_of(), q_decrease_allowance_call_fn(), t, c);
    }
    if increase_allowance_call_srcs(b).contains((t, c)) {
        lemma_srcs_only_matching(b, calls_of(), q_increase_allowance_call_fn(), t, c);
    }
    if initialize_call_srcs(b).contains((t, c)) {
        lemma_srcs_only_matching(b, calls_of(), q_initialize_call_fn(), t, c);
    }
    if initialize_v2_call_srcs(b).contains((t, c)) {
        lemma_srcs_only_matching(b, calls_of(), q_initialize_v2_call_fn(), t, c);
    }
    if initialize_v2_1_call_srcs(b).contains((t, c)) {
        lemma_srcs_only_matching(b, calls_of(), q_initialize_v2_1_call_fn(), t, c);
    }
    if initialize_v2_2_call_srcs(b).contains((t, c)) {
        lemma_srcs_only_matching(b, calls_of(), q_initialize_v2_2_call_fn(), t, c);
    }
    if mint_call_srcs(b).contains((t, c)) {
        lemma_srcs_only_matching(b, calls_of(), q_mint_call_fn(), t, c);
    }
    if pause_call_srcs(b).contains((t, c)) {
        lemma_srcs_only_matching(b, calls_of(), q_pause_call_fn(), t, c);
    }
    if permit_1_call_srcs(b).contains((t, c)) {
        lemma_srcs_only_matching(b, calls_of(), q_permit_1_call_fn(), t, c);
    }
    if permit_2_call_srcs(b).contains((t, c)) {
        lemma_srcs_only_matching(b, calls_of(), q_permit_2_call_fn(), t, c);
    }
    if receive_with_authorization_1_call_srcs(b).contains((t, c)) {
        lemma_srcs_only_matching(b, calls_of(), q_receive_with_authorization_1_call_fn(), t, c);
    }
    if receive_with_authorization_2_call_srcs(b).contains((t, c)) {
        lemma_srcs_only_matching(b, calls_of(), q_receive_with_authorization_2_call_fn(), t, c);
    }
    if remove_minter_call_srcs(b).contains((t, c)) {
        lemma_srcs_only_matching(b, calls_of(), q_remove_minter_call_fn(), t, c);
    }
    if rescue_erc20_call_srcs(b).contains((t, c)) {
        lemma_srcs_only_matching(b, calls_of(), q_rescue_erc20_call_fn(), t, c);
    }
    if transfer_call_srcs(b).contains((t, c)) {
        lemma_srcs_only_matching(b, calls_of(), q_transfer_call_fn(), t, c);
    }
    if transfer_from_call_srcs(b).contains((t, c)) {
        lemma_srcs_only_matching(b, calls_of(), q_transfer_from_call_fn(), t, c);
    }
    if transfer_ownership_call_srcs(b).contains((t, c)) {
        lemma_srcs_only_matching(b, calls_of(), q_transfer_ownership_call_fn(), t, c);
    }
    if transfer_with_authorization_1_call_srcs(b).contains((t, c)) {
        lemma_srcs_only_matching(b, calls_of(), q_transfer_with_authorization_1_call_fn(), t, c);
    }
    if transfer_with_authorization_2_call_srcs(b).contains((t, c)) {
        lemma_srcs_only_matching(b, calls_of(), q_transfer_with_authorization_2_call_fn(), t, c);
    }
    if un_blacklist_call_srcs(b).contains((t, c)) {
        lemma_srcs_only_matching(b, calls_of(), q_un_blacklist_call_fn(), t, c);
    }
    if unpause_call_srcs(b).contains((t, c)) {
        lemma_srcs_only_matching(b, calls_of(), q_unpause_call_fn(), t, c);
    }
    if update_blacklister_call_srcs(b).contains((t, c)) {
        lemma_srcs_only_matching(b, calls_of(), q_update_blacklister_call_fn(), t, c);
    }
    if update_master_minter_call_srcs(b).contains((t, c)) {
        lemma_srcs_only_matching(b, calls_of(), q_update_master_minter_call_fn(), t, c);
    }
    if update_pauser_call_srcs(b).contains((t, c)) {
        lemma_srcs_only_matching(b, calls_of(), q_update_pauser_call_fn(), t, c);
    }
    if update_rescuer_call_srcs(b).contains((t, c)) {
        lemma_srcs_only_matching(b, calls_of(), q_update_rescuer_call_fn(), t, c);
    }
    if upgrade_to_call_srcs(b).contains((t, c)) {
        lemma_srcs_only_matching(b, calls_of(), q_upgrade_to_call_fn(), t, c);
    }
    if upgrade_to_and_call_call_srcs(b).contains((t, c)) {
        lemma_srcs_only_matching(b, calls_of(), q_upgrade_to_and_call_call_fn(), t, c);
    }
}

/// The event signature hashes are pairwise distinct, so one log's first
/// topic matches at most one catalogue signature.
pub proof fn lemma_event_kinds_exclusive(l: Log)
    ensures
        !(q_admin_changed_event(l) && q_approval_event(l)),
        !(q_admin_changed_event(l) && q_authorization_canceled_event(l)),
        !(q_admin_changed_event(l) && q_authorization_used_event(l)),
        !(q_admin_changed_event(l) && q_blacklisted_event(l)),
        !(q_admin_changed_event(l) && q_blacklister_changed_event(l)),
        !(q_admin_changed_event(l) && q_burn_event(l)),
        !(q_admin_changed_event(l) && q_master_minter_changed_event(l)),
        !(q_admin_changed_event(l) && q_mint_event(l)),
        !(q_admin_changed_event(l) && q_minter_configured_event(l)),
        !(q_admin_changed_event(l) && q_minter_removed_event(l)),
        !(q_admin_changed_event(l) && q_ownership_transferred_event(l)),
        !(q_admin_changed_event(l) && q_pause_event(l)),
        !(q_admin_changed_event(l) && q_pauser_changed_event(l)),
        !(q_admin_changed_event(l) && q_rescuer_changed_event(l)),
        !(q_admin_changed_event(l) && q_transfer_event(l)),
        !(q_admin_changed_event(l) && q_un_blacklisted_event(l)),
        !(q_admin_changed_event(l) && q_unpause_event(l)),
        !(q_admin_changed_event(l) && q_upgraded_event(l)),
        !(q_approval_event(l) && q_authorization_canceled_event(l)),
        !(q_approval_event(l) && q_authorization_used_event(l)),
        !(q_approval_event(l) && q_blacklisted_event(l)),
        !(q_approval_event(l) && q_blacklister_changed_event(l)),
        !(q_approval_event(l) && q_burn_event(l)),
        !(q_approval_event(l) && q_master_minter_changed_event(l)),
        !(q_approval_event(l) && q_mint_event(l)),
        !(q_approval_event(l) && q_minter_configured_event(l)),
        !(q_approval_event(l) && q_minter_removed_event(l)),
        !(q_approval_event(l) && q_ownership_transferred_event(l)),
        !(q_approval_event(l) && q_pause_event(l)),
        !(q_approval_event(l) && q_pauser_changed_event(l)),
        !(q_approval_event(l) && q_rescuer_changed_event(l)),
        !(q_approval_event(l) && q_transfer_event(l)),
        !(q_approval_event(l) && q_un_blacklisted_event(l)),
        !(q_approval_event(l) && q_unpause_event(l)),
        !(q_approval_event(l) && q_upgraded_event(l)),
        !(q_authorization_canceled_event(l) && q_authorization_used_event(l)),
        !(q_authorization_canceled_event(l) && q_blacklisted_event(l)),
        !(q_authorization_canceled_event(l) && q_blacklister_changed_event(l)),
        !(q_authorization_canceled_event(l) && q_burn_event(l)),
        !(q_authorization_canceled_event(l) && q_master_minter_changed_event(l)),
        !(q_authorization_canceled_event(l) && q_mint_event(l)),
        !(q_authorization_canceled_event(l) && q_minter_configured_event(l)),
        !(q_authorization_canceled_event(l) && q_minter_removed_event(l)),
        !(q_authorization_canceled_event(l) && q_ownership_transferred_event(l)),
        !(q_authorization_canceled_event(l) && q_pause_event(l)),
        !(q_authorization_canceled_event(l) && q_pauser_changed_event(l)),
        !(q_authorization_canceled_event(l) && q_rescuer_changed_event(l)),
        !(q_authorization_canceled_event(l) && q_transfer_event(l)),
        !(q_authorization_canceled_event(l) && q_un_blacklisted_event(l)),
        !(q_authorization_canceled_event(l) && q_unpause_event(l)),
        !(q_authorization_canceled_event(l) && q_upgraded_event(l)),
        !(q_authorization_used_event(l) && q_blacklisted_event(l)),
        !(q_authorization_used_event(l) && q_blacklister_changed_event(l)),
        !(q_authorization_used_event(l) && q_burn_event(l)),
        !(q_authorization_used_event(l) && q_master_minter_changed_event(l)),
        !(q_authorization_used_event(l) && q_mint_event(l)),
        !(q_authorization_used_event(l) && q_minter_configured_event(l)),
        !(q_authorization_used_event(l) && q_minter_removed_event(l)),
        !(q_authorization_used_event(l) && q_ownership_transferred_event(l)),
        !(q_authorization_used_event(l) && q_pause_event(l)),
        !(q_authorization_used_event(l) && q_pauser_changed_event(l)),
        !(q_authorization_used_event(l) && q_rescuer_changed_event(l)),
        !(q_authorization_used_event(l) && q_transfer_event(l)),
        !(q_authorization_used_event(l) && q_un_blacklisted_event(l)),
        !(q_authorization_used_event(l) && q_unpause_event(l)),
        !(q_authorization_used_event(l) && q_upgraded_event(l)),
        !(q_blacklisted_event(l) && q_blacklister_changed_event(l)),
        !(q_blacklisted_event(l) && q_burn_event(l)),
        !(q_blacklisted_event(l) && q_master_minter_changed_event(l)),
        !(q_blacklisted_event(l) && q_mint_event(l)),
        !(q_blacklisted_event(l) && q_minter_configured_event(l)),
        !(q_blacklisted_event(l) && q_minter_removed_event(l)),
        !(q_blacklisted_event(l) && q_ownership_transferred_event(l)),
        !(q_blacklisted_event(l) && q_pause_event(l)),
        !(q_blacklisted_event(l) && q_pauser_changed_event(l)),
        !(q_blacklisted_event(l) && q_rescuer_changed_event(l)),
        !(q_blacklisted_event(l) && q_transfer_event(l)),
        !(q_blacklisted_event(l) && q_un_blacklisted_event(l)),
        !(q_blacklisted_event(l) && q_unpause_event(l)),
        !(q_blacklisted_event(l) && q_upgraded_event(l)),
        !(q_blacklister_changed_event(l) && q_burn_event(l)),
        !(q_blacklister_changed_event(l) && q_master_minter_changed_event(l)),
        !(q_blacklister_changed_event(l) && q_mint_event(l)),
        !(q_blacklister_changed_event(l) && q_minter_configured_event(l)),
        !(q_blacklister_changed_event(l) && q_minter_removed_event(l)),
        !(q_blacklister_changed_event(l) && q_ownership_transferred_event(l)),
        !(q_blacklister_changed_event(l) && q_pause_event(l)),
        !(q_blacklister_changed_event(l) && q_pauser_changed_event(l)),
        !(q_blacklister_changed_event(l) && q_rescuer_changed_event(l)),
        !(q_blacklister_changed_event(l) && q_transfer_event(l)),
        !(q_blacklister_changed_event(l) && q_un_blacklisted_event(l)),
        !(q_blacklister_changed_event(l) && q_unpause_event(l)),
        !(q_blacklister_changed_event(l) && q_upgraded_event(l)),
        !(q_burn_event(l) && q_master_minter_changed_event(l)),
        !(q_burn_event(l) && q_mint_event(l)),
        !(q_burn_event(l) && q_minter_configured_event(l)),
        !(q_burn_event(l) && q_minter_removed_event(l)),
        !(q_burn_event(l) && q_ownership_transferred_event(l)),
        !(q_burn_event(l) && q_pause_event(l)),
        !(q_burn_event(l) && q_pauser_changed_event(l)),
        !(q_burn_event(l) && q_rescuer_changed_event(l)),
        !(q_burn_event(l) && q_transfer_event(l)),
        !(q_burn_event(l) && q_un_blacklisted_event(l)),
        !(q_burn_event(l) && q_unpause_event(l)),
        !(q_burn_event(l) && q_upgraded_event(l)),
        !(q_master_minter_changed_event(l) && q_mint_event(l)),
        !(q_master_minter_changed_event(l) && q_minter_configured_event(l)),
        !(q_master_minter_changed_event(l) && q_minter_removed_event(l)),
        !(q_master_minter_changed_event(l) && q_ownership_transferred_event(l)),
        !(q_master_minter_changed_event(l) && q_pause_event(l)),
        !(q_master_minter_changed_event(l) && q_pauser_changed_event(l)),
        !(q_master_minter_changed_event(l) && q_rescuer_changed_event(l)),
        !(q_master_minter_changed_event(l) && q_transfer_event(l)),
        !(q_master_minter_changed_event(l) && q_un_blacklisted_event(l)),
        !(q_master_minter_changed_event(l) && q_unpause_event(l)),
        !(q_master_minter_changed_event(l) && q_upgraded_event(l)),
        !(q_mint_event(l) && q_minter_configured_event(l)),
        !(q_mint_event(l) && q_minter_removed_event(l)),
        !(q_mint_event(l) && q_ownership_transferred_event(l)),
        !(q_mint_event(l) && q_pause_event(l)),
        !(q_mint_event(l) && q_pauser_changed_event(l)),
        !(q_mint_event(l) && q_rescuer_changed_event(l)),
        !(q_mint_event(l) && q_transfer_event(l)),
        !(q_mint_event(l) && q_un_blacklisted_event(l)),
        !(q_mint_event(l) && q_unpause_event(l)),
        !(q_mint_event(l) && q_upgraded_event(l)),
        !(q_minter_configured_event(l) && q_minter_removed_event(l)),
        !(q_minter_configured_event(l) && q_ownership_transferred_event(l)),
        !(q_minter_configured_event(l) && q_pause_event(l)),
        !(q_minter_configured_event(l) && q_pauser_changed_event(l)),
        !(q_minter_configured_event(l) && q_rescuer_changed_event(l)),
        !(q_minter_configured_event(l) && q_transfer_event(l)),
        !(q_minter_configured_event(l) && q_un_blacklisted_event(l)),
        !(q_minter_configured_event(l) && q_unpause_event(l)),
        !(q_minter_configured_event(l) && q_upgraded_event(l)),
        !(q_minter_removed_event(l) && q_ownership_transferred_event(l)),
        !(q_minter_removed_event(l) && q_pause_event(l)),
        !(q_minter_removed_event(l) && q_pauser_changed_event(l)),
        !(q_minter_removed_event(l) && q_rescuer_changed_event(l)),
        !(q_minter_removed_event(l) && q_transfer_event(l)),
        !(q_minter_removed_event(l) && q_un_blacklisted_event(l)),
        !(q_minter_removed_event(l) && q_unpause_event(l)),
        !(q_minter_removed_event(l) && q_upgraded_event(l)),
        !(q_ownership_transferred_event(l) && q_pause_event(l)),
        !(q_ownership_transferred_event(l) && q_pauser_changed_event(l)),
        !(q_ownership_transferred_event(l) && q_rescuer_changed_event(l)),
        !(q_ownership_transferred_event(l) && q_transfer_event(l)),
        !(q_ownership_transferred_event(l) && q_un_blacklisted_event(l)),
        !(q_ownership_transferred_event(l) && q_unpause_event(l)),
        !(q_ownership_transferred_event(l) && q_upgraded_event(l)),
        !(q_pause_event(l) && q_pauser_changed_event(l)),
        !(q_pause_event(l) && q_rescuer_changed_event(l)),
        !(q_pause_event(l) && q_transfer_event(l)),
        !(q_pause_event(l) && q_un_blacklisted_event(l)),
        !(q_pause_event(l) && q_unpause_event(l)),
        !(q_pause_event(l) && q_upgraded_event(l)),
        !(q_pauser_changed_event(l) && q_rescuer_changed_event(l)),
        !(q_pauser_changed_event(l) && q_transfer_event(l)),
        !(q_pauser_changed_event(l) && q_un_blacklisted_event(l)),
        !(q_pauser_changed_event(l) && q_unpause_event(l)),
        !(q_pauser_changed_event(l) && q_upgraded_event(l)),
        !(q_rescuer_changed_event(l) && q_transfer_event(l)),
        !(q_rescuer_changed_event(l) && q_un_blacklisted_event(l)),
        !(q_rescuer_changed_event(l) && q_unpause_event(l)),
        !(q_rescuer_changed_event(l) && q_upgraded_event(l)),
        !(q_transfer_event(l) && q_un_blacklisted_event(l)),
        !(q_transfer_event(l) && q_unpause_event(l)),
        !(q_transfer_event(l) && q_upgraded_event(l)),
        !(q_un_blacklisted_event(l) && q_unpause_event(l)),
        !(q_un_blacklisted_event(l) && q_upgraded_event(l)),
        !(q_unpause_event(l) && q_upgraded_event(l)),
{
}

/// Each occurrence of a qualifying log in the block yields exactly one
/// source of this kind; a non-qualifying log yields none.
pub proof fn lemma_admin_changed_event_count(b: Block, t: Transaction, l: Log)
    ensures
        q_admin_changed_event(l) ==> admin_changed_event_srcs(b).to_multiset().count((t, l)) == count_matching(
            block_entries(b, logs_of()),
            eq_to((t, l)),
        ),
        !q_admin_changed_event(l) ==> admin_changed_event_srcs(b).to_multiset().count((t, l)) == 0,
{
    let f = src_opt(q_admin_changed_event_fn());
    let entries = block_entries(b, logs_of());
    lemma_block_srcs_as_filter_map(b, logs_of(), f);
    lemma_filter_map_count(entries, lift(f), (t, l));
    if q_admin_changed_event(l) {
        assert forall|i: int| 0 <= i < entries.len() implies yields_result(lift(f), (t, l))(
            #[trigger] entries[i],
        ) == eq_to((t, l))(entries[i]) by {
            assert(lift(f)(entries[i]) == f(entries[i].0, entries[i].1));
            assert(entries[i] == (entries[i].0, entries[i].1));
        }
        lemma_count_matching_congruent(entries, yields_result(lift(f), (t, l)), eq_to((t, l)));
    } else {
        assert forall|i: int| 0 <= i < entries.len() implies !yields_result(lift(f), (t, l))(
            #[trigger] entries[i],
        ) by {
            assert(lift(f)(entries[i]) == f(entries[i].0, entries[i].1));
        }
        lemma_count_matching_zero(entries, yields_result(lift(f), (t, l)));
    }
}

/// Each occurrence of a qualifying log in the block yields exactly one
/// source of this kind; a non-qualifying log yields none.
pub proof fn lemma_approval_event_count(b: Block, t: Transaction, l: Log)
    ensures
        q_approval_event(l) ==> approval_event_srcs(b).to_multiset().count((t, l)) == count_matching(
            block_entries(b, logs_of()),
            eq_to((t, l)),
        ),
        !q_approval_event(l) ==> approval_event_srcs(b).to_multiset().count((t, l)) == 0,
{
    let f = src_opt(q_approval_event_fn());
    let entries = block_entries(b, logs_of());
    lemma_block_srcs_as_filter_map(b, logs_of(), f);
    lemma_filter_map_count(entries, lift(f), (t, l));
    if q_approval_event(l) {
        assert forall|i: int| 0 <= i < entries.len() implies yields_result(lift(f), (t, l))(
            #[trigger] entries[i],
        ) == eq_to((t, l))(entries[i]) by {
            assert(lift(f)(entries[i]) == f(entries[i].0, entries[i].1));
            assert(entries[i] == (entries[i].0, entries[i].1));
        }
        lemma_count_matching_congruent(entries, yields_result(lift(f), (t, l)), eq_to((t, l)));
    } else {
        assert forall|i: int| 0 <= i < entries.len() implies !yields_result(lift(f), (t, l))(
            #[trigger] entries[i],
        ) by {
            assert(lift(f)(entries[i]) == f(entries[i].0, entries[i].1));
        }
        lemma_count_matching_zero(entries, yields_result(lift(f), (t, l)));
    }
}

/// Each occurrence of a qualifying log in the block yields exactly one
/// source of this kind; a non-qualifying log yields none.
pub proof fn lemma_authorization_canceled_event_count(b: Block, t: Transaction, l: Log)
    ensures
        q_authorization_canceled_event(l) ==> authorization_canceled_event_srcs(b).to_multiset().count((t, l)) == count_matching(
            block_entries(b, logs_of()),
            eq_to((t, l)),
        ),
        !q_authorization_canceled_event(l) ==> authorization_canceled_event_srcs(b).to_multiset().count((t, l)) == 0,
{
    let f = src_opt(q_authorization_canceled_event_fn());
    let entries = block_entries(b, logs_of());
    lemma_block_srcs_as_filter_map(b, logs_of(), f);
    lemma_filter_map_count(entries, lift(f), (t, l));
    if q_authorization_canceled_event(l) {
        assert forall|i: int| 0 <= i < entries.len() implies yields_result(lift(f), (t, l))(
            #[trigger] entries[i],
        ) == eq_to((t, l))(entries[i]) by {
            assert(lift(f)(entries[i]) == f(entries[i].0, entries[i].1));
            assert(entries[i] == (entries[i].0, entries[i].1));
        }
        lemma_count_matching_congruent(entries, yields_result(lift(f), (t, l)), eq_to((t, l)));
    } else {
        assert forall|i: int| 0 <= i < entries.len() implies !yields_result(lift(f), (t, l))(
            #[trigger] entries[i],
        ) by {
            assert(lift(f)(entries[i]) == f(entries[i].0, entries[i].1));
        }
        lemma_count_matching_zero(entries, yields_result(lift(f), (t, l)));
    }
}

/// Each occurrence of a qualifying log in the block yields exactly one
/// source of this kind; a non-qualifying log yields none.
pub proof fn lemma_authorization_used_event_count(b: Block, t: Transaction, l: Log)
    ensures
        q_authorization_used_event(l) ==> authorization_used_event_srcs(b).to_multiset().count((t, l)) == count_matching(
            block_entries(b, logs_of()),
            eq_to((t, l)),
        ),
        !q_authorization_used_event(l) ==> authorization_used_event_srcs(b).to_multiset().count((t, l)) == 0,
{
    let f = src_opt(q_authorization_used_event_fn());
    let entries = block_entries(b, logs_of());
    lemma_block_srcs_as_filter_map(b, logs_of(), f);
    lemma_filter_map_count(entries, lift(f), (t, l));
    if q_authorization_used_event(l) {
        assert forall|i: int| 0 <= i < entries.len() implies yields_result(lift(f), (t, l))(
            #[trigger] entries[i],
        ) == eq_to((t, l))(entries[i]) by {
            assert(lift(f)(entries[i]) == f(entries[i].0, entries[i].1));
            assert(entries[i] == (entries[i].0, entries[i].1));
        }
        lemma_count_matching_congruent(entries, yields_result(lift(f), (t, l)), eq_to((t, l)));
    } else {
        assert forall|i: int| 0 <= i < entries.len() implies !yields_result(lift(f), (t, l))(
            #[trigger] entries[i],
        ) by {
            assert(lift(f)(entries[i]) == f(entries[i].0, entries[i].1));
        }
        lemma_count_matching_zero(entries, yields_result(lift(f), (t, l)));
    }
}

/// Each occurrence of a qualifying log in the block yields exactly one
/// source of this kind; a non-qualifying log yields none.
pub proof fn lemma_blacklisted_event_count(b: Block, t: Transaction, l: Log)
    ensures
        q_blacklisted_event(l) ==> blacklisted_event_srcs(b).to_multiset().count((t, l)) == count_matching(
            block_entries(b, logs_of()),
            eq_to((t, l)),
        ),
        !q_blacklisted_event(l) ==> blacklisted_event_srcs(b).to_multiset().count((t, l)) == 0,
{
    let f = src_opt(q_blacklisted_event_fn());
    let entries = block_entries(b, logs_of());
    lemma_block_srcs_as_filter_map(b, logs_of(), f);
    lemma_filter_map_count(entries, lift(f), (t, l));
    if q_blacklisted_event(l) {
        assert forall|i: int| 0 <= i < entries.len() implies yields_result(lift(f), (t, l))(
            #[trigger] entries[i],
        ) == eq_to((t, l))(entries[i]) by {
            assert(lift(f)(entries[i]) == f(entries[i].0, entries[i].1));
            assert(entries[i] == (entries[i].0, entries[i].1));
        }
        lemma_count_matching_congruent(entries, yields_result(lift(f), (t, l)), eq_to((t, l)));
    } else {
        assert forall|i: int| 0 <= i < entries.len() implies !yields_result(lift(f), (t, l))(
            #[trigger] entries[i],
        ) by {
            assert(lift(f)(entries[i]) == f(entries[i].0, entries[i].1));
        }
        lemma_count_matching_zero(entries, yields_result(lift(f), (t, l)));
    }
}

/// Each occurrence of a qualifying log in the block yields exactly one
/// source of this kind; a non-qualifying log yields none.
pub proof fn lemma_blacklister_changed_event_count(b: Block, t: Transaction, l: Log)
    ensures
        q_blacklister_changed_event(l) ==> blacklister_changed_event_srcs(b).to_multiset().count((t, l)) == count_matching(
            block_entries(b, logs_of()),
            eq_to((t, l)),
        ),
        !q_blacklister_changed_event(l) ==> blacklister_changed_event_srcs(b).to_multiset().count((t, l)) == 0,
{
    let f = src_opt(q_blacklister_changed_event_fn());
    let entries = block_entries(b, logs_of());
    lemma_block_srcs_as_filter_map(b, logs_of(), f);
    lemma_filter_map_count(entries, lift(f), (t, l));
    if q_blacklister_changed_event(l) {
        assert forall|i: int| 0 <= i < entries.len() implies yields_result(lift(f), (t, l))(
            #[trigger] entries[i],
        ) == eq_to((t, l))(entries[i]) by {
            assert(lift(f)(entries[i]) == f(entries[i].0, entries[i].1));
            assert(entries[i] == (entries[i].0, entries[i].1));
        }
        lemma_count_matching_congruent(entries, yields_result(lift(f), (t, l)), eq_to((t, l)));
    } else {
        assert forall|i: int| 0 <= i < entries.len() implies !yields_result(lift(f), (t, l))(
            #[trigger] entries[i],
        ) by {
            assert(lift(f)(entries[i]) == f(entries[i].0, entries[i].1));
        }
        lemma_count_matching_zero(entries, yields_result(lift(f), (t, l)));
    }
}

/// Each occurrence of a qualifying log in the block yields exactly one
/// source of this kind; a non-qualifying log yields none.
pub proof fn lemma_burn_event_count(b: Block, t: Transaction, l: Log)
    ensures
        q_burn_event(l) ==> burn_event_srcs(b).to_multiset().count((t, l)) == count_matching(
            block_entries(b, logs_of()),
            eq_to((t, l)),
        ),
        !q_burn_event(l) ==> burn_event_srcs(b).to_multiset().count((t, l)) == 0,
{
    let f = src_opt(q_burn_event_fn());
    let entries = block_entries(b, logs_of());
    lemma_block_srcs_as_filter_map(b, logs_of(), f);
    lemma_filter_map_count(entries, lift(f), (t, l));
    if q_burn_event(l) {
        assert forall|i: int| 0 <= i < entries.len() implies yields_result(lift(f), (t, l))(
            #[trigger] entries[i],
        ) == eq_to((t, l))(entries[i]) by {
            assert(lift(f)(entries[i]) == f(entries[i].0, entries[i].1));
            assert(entries[i] == (entries[i].0, entries[i].1));
        }
        lemma_count_matching_congruent(entries, yields_result(lift(f), (t, l)), eq_to((t, l)));
    } else {
        assert forall|i: int| 0 <= i < entries.len() implies !yields_result(lift(f), (t, l))(
            #[trigger] entries[i],
        ) by {
            assert(lift(f)(entries[i]) == f(entries[i].0, entries[i].1));
        }
        lemma_count_matching_zero(entries, yields_result(lift(f), (t, l)));
    }
}

/// Each occurrence of a qualifying log in the block yields exactly one
/// source of this kind; a non-qualifying log yields none.
pub proof fn lemma_master_minter_changed_event_count(b: Block, t: Transaction, l: Log)
    ensures
        q_master_minter_changed_event(l) ==> master_minter_changed_event_srcs(b).to_multiset().count((t, l)) == count_matching(
            block_entries(b, logs_of()),
            eq_to((t, l)),
        ),
        !q_master_minter_changed_event(l) ==> master_minter_changed_event_srcs(b).to_multiset().count((t, l)) == 0,
{
    let f = src_opt(q_master_minter_changed_event_fn());
    let entries = block_entries(b, logs_of());
    lemma_block_srcs_as_filter_map(b, logs_of(), f);
    lemma_filter_map_count(entries, lift(f), (t, l));
    if q_master_minter_changed_event(l) {
        assert forall|i: int| 0 <= i < entries.len() implies yields_result(lift(f), (t, l))(
            #[trigger] entries[i],
        ) == eq_to((t, l))(entries[i]) by {
            assert(lift(f)(entries[i]) == f(entries[i].0, entries[i].1));
            assert(entries[i] == (entries[i].0, entries[i].1));
        }
        lemma_count_matching_congruent(entries, yields_result(lift(f), (t, l)), eq_to((t, l)));
    } else {
        assert forall|i: int| 0 <= i < entries.len() implies !yields_result(lift(f), (t, l))(
            #[trigger] entries[i],
        ) by {
            assert(lift(f)(entries[i]) == f(entries[i].0, entries[i].1));
        }
        lemma_count_matching_zero(entries, yields_result(lift(f), (t, l)));
    }
}

/// Each occurrence of a qualifying log in the block yields exactly one
/// source of this kind; a non-qualifying log yields none.
pub proof fn lemma_mint_event_count(b: Block, t: Transaction, l: Log)
    ensures
        q_mint_event(l) ==> mint_event_srcs(b).to_multiset().count((t, l)) == count_matching(
            block_entries(b, logs_of()),
            eq_to((t, l)),
        ),
        !q_mint_event(l) ==> mint_event_srcs(b).to_multiset().count((t, l)) == 0,
{
    let f = src_opt(q_mint_event_fn());
    let entries = block_entries(b, logs_of());
    lemma_block_srcs_as_filter_map(b, logs_of(), f);
    lemma_filter_map_count(entries, lift(f), (t, l));
    if q_mint_event(l) {
        assert forall|i: int| 0 <= i < entries.len() implies yields_result(lift(f), (t, l))(
            #[trigger] entries[i],
        ) == eq_to((t, l))(entries[i]) by {
            assert(lift(f)(entries[i]) == f(entries[i].0, entries[i].1));
            assert(entries[i] == (entries[i].0, entries[i].1));
        }
        lemma_count_matching_congruent(entries, yields_result(lift(f), (t, l)), eq_to((t, l)));
    } else {
        assert forall|i: int| 0 <= i < entries.len() implies !yields_result(lift(f), (t, l))(
            #[trigger] entries[i],
        ) by {
            assert(lift(f)(entries[i]) == f(entries[i].0, entries[i].1));
        }
        lemma_count_matching_zero(entries, yields_result(lift(f), (t, l)));
    }
}

/// Each occurrence of a qualifying log in the block yields exactly one
/// source of this kind; a non-qualifying log yields none.
pub proof fn lemma_minter_configured_event_count(b: Block, t: Transaction, l: Log)
    ensures
        q_minter_configured_event(l) ==> minter_configured_event_srcs(b).to_multiset().count((t, l)) == count_matching(
            block_entries(b, logs_of()),
            eq_to((t, l)),
        ),
        !q_minter_configured_event(l) ==> minter_configured_event_srcs(b).to_multiset().count((t, l)) == 0,
{
    let f = src_opt(q_minter_configured_event_fn());
    let entries = block_entries(b, logs_of());
    lemma_block_srcs_as_filter_map(b, logs_of(), f);
    lemma_filter_map_count(entries, lift(f), (t, l));
    if q_minter_configured_event(l) {
        assert forall|i: int| 0 <= i < entries.len() implies yields_result(lift(f), (t, l))(
            #[trigger] entries[i],
        ) == eq_to((t, l))(entries[i]) by {
            assert(lift(f)(entries[i]) == f(entries[i].0, entries[i].1));
            assert(entries[i] == (entries[i].0, entries[i].1));
        }
        lemma_count_matching_congruent(entries, yields_result(lift(f), (t, l)), eq_to((t, l)));
    } else {
        assert forall|i: int| 0 <= i < entries.len() implies !yields_result(lift(f), (t, l))(
            #[trigger] entries[i],
        ) by {
            assert(lift(f)(entries[i]) == f(entries[i].0, entries[i].1));
        }
        lemma_count_matching_zero(entries, yields_result(lift(f), (t, l)));
    }
}

/// Each occurrence of a qualifying log in the block yields exactly one
/// source of this kind; a non-qualifying log yields none.
pub proof fn lemma_minter_removed_event_count(b: Block, t: Transaction, l: Log)
    ensures
        q_minter_removed_event(l) ==> minter_removed_event_srcs(b).to_multiset().count((t, l)) == count_matching(
            block_entries(b, logs_of()),
            eq_to((t, l)),
        ),
        !q_minter_removed_event(l) ==> minter_removed_event_srcs(b).to_multiset().count((t, l)) == 0,
{
    let f = src_opt(q_minter_removed_event_fn());
    let entries = block_entries(b, logs_of());
    lemma_block_srcs_as_filter_map(b, logs_of(), f);
    lemma_filter_map_count(entries, lift(f), (t, l));
    if q_minter_removed_event(l) {
        assert forall|i: int| 0 <= i < entries.len() implies yields_result(lift(f), (t, l))(
            #[trigger] entries[i],
        ) == eq_to((t, l))(entries[i]) by {
            assert(lift(f)(entries[i]) == f(entries[i].0, entries[i].1));
            assert(entries[i] == (entries[i].0, entries[i].1));
        }
        lemma_count_matching_congruent(entries, yields_result(lift(f), (t, l)), eq_to((t, l)));
    } else {
        assert forall|i: int| 0 <= i < entries.len() implies !yields_result(lift(f), (t, l))(
            #[trigger] entries[i],
        ) by {
            assert(lift(f)(entries[i]) == f(entries[i].0, entries[i].1));
        }
        lemma_count_matching_zero(entries, yields_result(lift(f), (t, l)));
    }
}

/// Each occurrence of a qualifying log in the block yields exactly one
/// source of this kind; a non-qualifying log yields none.
pub proof fn lemma_ownership_transferred_event_count(b: Block, t: Transaction, l: Log)
    ensures
        q_ownership_transferred_event(l) ==> ownership_transferred_event_srcs(b).to_multiset().count((t, l)) == count_matching(
            block_entries(b, logs_of()),
            eq_to((t, l)),
        ),
        !q_ownership_transferred_event(l) ==> ownership_transferred_event_srcs(b).to_multiset().count((t, l)) == 0,
{
    let f = src_opt(q_ownership_transferred_event_fn());
    let entries = block_entries(b, logs_of());
    lemma_block_srcs_as_filter_map(b, logs_of(), f);
    lemma_filter_map_count(entries, lift(f), (t, l));
    if q_ownership_transferred_event(l) {
        assert forall|i: int| 0 <= i < entries.len() implies yields_result(lift(f), (t, l))(
            #[trigger] entries[i],
        ) == eq_to((t, l))(entries[i]) by {
            assert(lift(f)(entries[i]) == f(entries[i].0, entries[i].1));
            assert(entries[i] == (entries[i].0, entries[i].1));
        }
        lemma_count_matching_congruent(entries, yields_result(lift(f), (t, l)), eq_to((t, l)));
    } else {
        assert forall|i: int| 0 <= i < entries.len() implies !yields_result(lift(f), (t, l))(
            #[trigger] entries[i],
        ) by {
            assert(lift(f)(entries[i]) == f(entries[i].0, entries[i].1));
        }
        lemma_count_matching_zero(entries, yields_result(lift(f), (t, l)));
    }
}

/// Each occurrence of a qualifying log in the block yields exactly one
/// source of this kind; a non-qualifying log yields none.
pub proof fn lemma_pause_event_count(b: Block, t: Transaction, l: Log)
    ensures
        q_pause_event(l) ==> pause_event_srcs(b).to_multiset().count((t, l)) == count_matching(
            block_entries(b, logs_of()),
            eq_to((t, l)),
        ),
        !q_pause_event(l) ==> pause_event_srcs(b).to_multiset().count((t, l)) == 0,
{
    let f = src_opt(q_pause_event_fn());
    let entries = block_entries(b, logs_of());
    lemma_block_srcs_as_filter_map(b, logs_of(), f);
    lemma_filter_map_count(entries, lift(f), (t, l));
    if q_pause_event(l) {
        assert forall|i: int| 0 <= i < entries.len() implies yields_result(lift(f), (t, l))(
            #[trigger] entries[i],
        ) == eq_to((t, l))(entries[i]) by {
            assert(lift(f)(entries[i]) == f(entries[i].0, entries[i].1));
            assert(entries[i] == (entries[i].0, entries[i].1));
        }
        lemma_count_matching_congruent(entries, yields_result(lift(f), (t, l)), eq_to((t, l)));
    } else {
        assert forall|i: int| 0 <= i < entries.len() implies !yields_result(lift(f), (t, l))(
            #[trigger] entries[i],
        ) by {
            assert(lift(f)(entries[i]) == f(entries[i].0, entries[i].1));
        }
        lemma_count_matching_zero(entries, yields_result(lift(f), (t, l)));
    }
}

/// Each occurrence of a qualifying log in the block yields exactly one
/// source of this kind; a non-qualifying log yields none.
pub proof fn lemma_pauser_changed_event_count(b: Block, t: Transaction, l: Log)
    ensures
        q_pauser_changed_event(l) ==> pauser_changed_event_srcs(b).to_multiset().count((t, l)) == count_matching(
            block_entries(b, logs_of()),
            eq_to((t, l)),
        ),
        !q_pauser_changed_event(l) ==> pauser_changed_event_srcs(b).to_multiset().count((t, l)) == 0,
{
    let f = src_opt(q_pauser_changed_event_fn());
    let entries = block_entries(b, logs_of());
    lemma_block_srcs_as_filter_map(b, logs_of(), f);
    lemma_filter_map_count(entries, lift(f), (t, l));
    if q_pauser_changed_event(l) {
        assert forall|i: int| 0 <= i < entries.len() implies yields_result(lift(f), (t, l))(
            #[trigger] entries[i],
        ) == eq_to((t, l))(entries[i]) by {
            assert(lift(f)(entries[i]) == f(entries[i].0, entries[i].1));
            assert(entries[i] == (entries[i].0, entries[i].1));
        }
        lemma_count_matching_congruent(entries, yields_result(lift(f), (t, l)), eq_to((t, l)));
    } else {
        assert forall|i: int| 0 <= i < entries.len() implies !yields_result(lift(f), (t, l))(
            #[trigger] entries[i],
        ) by {
            assert(lift(f)(entries[i]) == f(entries[i].0, entries[i].1));
        }
        lemma_count_matching_zero(entries, yields_result(lift(f), (t, l)));
    }
}

/// Each occurrence of a qualifying log in the block yields exactly one
/// source of this kind; a non-qualifying log yields none.
pub proof fn lemma_rescuer_changed_event_count(b: Block, t: Transaction, l: Log)
    ensures
        q_rescuer_changed_event(l) ==> rescuer_changed_event_srcs(b).to_multiset().count((t, l)) == count_matching(
            block_entries(b, logs_of()),
            eq_to((t, l)),
        ),
        !q_rescuer_changed_event(l) ==> rescuer_changed_event_srcs(b).to_multiset().count((t, l)) == 0,
{
    let f = src_opt(q_rescuer_changed_event_fn());
    let entries = block_entries(b, logs_of());
    lemma_block_srcs_as_filter_map(b, logs_of(), f);
    lemma_filter_map_count(entries, lift(f), (t, l));
    if q_rescuer_changed_event(l) {
        assert forall|i: int| 0 <= i < entries.len() implies yields_result(lift(f), (t, l))(
            #[trigger] entries[i],
        ) == eq_to((t, l))(entries[i]) by {
            assert(lift(f)(entries[i]) == f(entries[i].0, entries[i].1));
            assert(entries[i] == (entries[i].0, entries[i].1));
        }
        lemma_count_matching_congruent(entries, yields_result(lift(f), (t, l)), eq_to((t, l)));
    } else {
        assert forall|i: int| 0 <= i < entries.len() implies !yields_result(lift(f), (t, l))(
            #[trigger] entries[i],
        ) by {
            assert(lift(f)(entries[i]) == f(entries[i].0, entries[i].1));
        }
        lemma_count_matching_zero(entries, yields_result(lift(f), (t, l)));
    }
}

/// Each occurrence of a qualifying log in the block yields exactly one
/// source of this kind; a non-qualifying log yields none.
pub proof fn lemma_transfer_event_count(b: Block, t: Transaction, l: Log)
    ensures
        q_transfer_event(l) ==> transfer_event_srcs(b).to_multiset().count((t, l)) == count_matching(
            block_entries(b, logs_of()),
            eq_to((t, l)),
        ),
        !q_transfer_event(l) ==> transfer_event_srcs(b).to_multiset().count((t, l)) == 0,
{
    let f = src_opt(q_transfer_event_fn());
    let entries = block_entries(b, logs_of());
    lemma_block_srcs_as_filter_map(b, logs_of(), f);
    lemma_filter_map_count(entries, lift(f), (t, l));
    if q_transfer_event(l) {
        assert forall|i: int| 0 <= i < entries.len() implies yields_result(lift(f), (t, l))(
            #[trigger] entries[i],
        ) == eq_to((t, l))(entries[i]) by {
            assert(lift(f)(entries[i]) == f(entries[i].0, entries[i].1));
            assert(entries[i] == (entries[i].0, entries[i].1));
        }
        lemma_count_matching_congruent(entries, yields_result(lift(f), (t, l)), eq_to((t, l)));
    } else {
        assert forall|i: int| 0 <= i < entries.len() implies !yields_result(lift(f), (t, l))(
            #[trigger] entries[i],
        ) by {
            assert(lift(f)(entries[i]) == f(entries[i].0, entries[i].1));
        }
        lemma_count_matching_zero(entries, yields_result(lift(f), (t, l)));
    }
}

/// Each occurrence of a qualifying log in the block yields exactly one
/// source of this kind; a non-qualifying log yields none.
pub proof fn lemma_un_blacklisted_event_count(b: Block, t: Transaction, l: Log)
    ensures
        q_un_blacklisted_event(l) ==> un_blacklisted_event_srcs(b).to_multiset().count((t, l)) == count_matching(
            block_entries(b, logs_of()),
            eq_to((t, l)),
        ),
        !q_un_blacklisted_event(l) ==> un_blacklisted_event_srcs(b).to_multiset().count((t, l)) == 0,
{
    let f = src_opt(q_un_blacklisted_event_fn());
    let entries = block_entries(b, logs_of());
    lemma_block_srcs_as_filter_map(b, logs_of(), f);
    lemma_filter_map_count(entries, lift(f), (t, l));
    if q_un_blacklisted_event(l) {
        assert forall|i: int| 0 <= i < entries.len() implies yields_result(lift(f), (t, l))(
            #[trigger] entries[i],
        ) == eq_to((t, l))(entries[i]) by {
            assert(lift(f)(entries[i]) == f(entries[i].0, entries[i].1));
            assert(entries[i] == (entries[i].0, entries[i].1));
        }
        lemma_count_matching_congruent(entries, yields_result(lift(f), (t, l)), eq_to((t, l)));
    } else {
        assert forall|i: int| 0 <= i < entries.len() implies !yields_result(lift(f), (t, l))(
            #[trigger] entries[i],
        ) by {
            assert(lift(f)(entries[i]) == f(entries[i].0, entries[i].1));
        }
        lemma_count_matching_zero(entries, yields_result(lift(f), (t, l)));
    }
}

/// Each occurrence of a qualifying log in the block yields exactly one
/// source of this kind; a non-qualifying log yields none.
pub proof fn lemma_unpause_event_count(b: Block, t: Transaction, l: Log)
    ensures
        q_unpause_event(l) ==> unpause_event_srcs(b).to_multiset().count((t, l)) == count_matching(
            block_entries(b, logs_of()),
            eq_to((t, l)),
        ),
        !q_unpause_event(l) ==> unpause_event_srcs(b).to_multiset().count((t, l)) == 0,
{
    let f = src_opt(q_unpause_event_fn());
    let entries = block_entries(b, logs_of());
    lemma_block_srcs_as_filter_map(b, logs_of(), f);
    lemma_filter_map_count(entries, lift(f), (t, l));
    if q_unpause_event(l) {
        assert forall|i: int| 0 <= i < entries.len() implies yields_result(lift(f), (t, l))(
            #[trigger] entries[i],
        ) == eq_to((t, l))(entries[i]) by {
            assert(lift(f)(entries[i]) == f(entries[i].0, entries[i].1));
            assert(entries[i] == (entries[i].0, entries[i].1));
        }
        lemma_count_matching_congruent(entries, yields_result(lift(f), (t, l)), eq_to((t, l)));
    } else {
        assert forall|i: int| 0 <= i < entries.len() implies !yields_result(lift(f), (t, l))(
            #[trigger] entries[i],
        ) by {
            assert(lift(f)(entries[i]) == f(entries[i].0, entries[i].1));
        }
        lemma_count_matching_zero(entries, yields_result(lift(f), (t, l)));
    }
}

/// Each occurrence of a qualifying log in the block yields exactly one
/// source of this kind; a non-qualifying log yields none.
pub proof fn lemma_upgraded_event_count(b: Block, t: Transaction, l: Log)
    ensures
        q_upgraded_event(l) ==> upgraded_event_srcs(b).to_multiset().count((t, l)) == count_matching(
            block_entries(b, logs_of()),
            eq_to((t, l)),
        ),
        !q_upgraded_event(l) ==> upgraded_event_srcs(b).to_multiset().count((t, l)) == 0,
{
    let f = src_opt(q_upgraded_event_fn());
    let entries = block_entries(b, logs_of());
    lemma_block_srcs_as_filter_map(b, logs_of(), f);
    lemma_filter_map_count(entries, lift(f), (t, l));
    if q_upgraded_event(l) {
        assert forall|i: int| 0 <= i < entries.len() implies yields_result(lift(f), (t, l))(
            #[trigger] entries[i],
        ) == eq_to((t, l))(entries[i]) by {
            assert(lift(f)(entries[i]) == f(entries[i].0, entries[i].1));
            assert(entries[i] == (entries[i].0, entries[i].1));
        }
        lemma_count_matching_congruent(entries, yields_result(lift(f), (t, l)), eq_to((t, l)));
    } else {
        assert forall|i: int| 0 <= i < entries.len() implies !yields_result(lift(f), (t, l))(
            #[trigger] entries[i],
        ) by {
            assert(lift(f)(entries[i]) == f(entries[i].0, entries[i].1));
        }
        lemma_count_matching_zero(entries, yields_result(lift(f), (t, l)));
    }
}

/// A log of the tracked contract that matches the transfer signature and
/// occurs once in the block is counted exactly once, in the transfer batch
/// alone; its record stands at a source position that carries the log.
pub proof fn lemma_transfer_log_unique(b: Block, t: Transaction, l: Log, out: Seq<UsdcTransfer>)
    requires
        q_transfer_event(l),
        count_matching(block_entries(b, logs_of()), eq_to((t, l))) == 1,
        out.len() == transfer_event_srcs(b).len(),
        forall|k: int|
            0 <= k < out.len() ==> transfer_event_rec_ok(
                #[trigger] out[k],
                b,
                transfer_event_srcs(b)[k].0,
                transfer_event_srcs(b)[k].1,
            ),
    ensures
        transfer_event_srcs(b).to_multiset().count((t, l)) == 1,
        exists|p: int|
            0 <= p < out.len() && transfer_event_srcs(b)[p] == (t, l) && (#[trigger] out[p]).evt_index
                == l.block_index,
        admin_changed_event_srcs(b).to_multiset().count((t, l)) == 0,
        approval_event_srcs(b).to_multiset().count((t, l)) == 0,
        authorization_canceled_event_srcs(b).to_multiset().count((t, l)) == 0,
        authorization_used_event_srcs(b).to_multiset().count((t, l)) == 0,
        blacklisted_event_srcs(b).to_multiset().count((t, l)) == 0,
        blacklister_changed_event_srcs(b).to_multiset().count((t, l)) == 0,
        burn_event_srcs(b).to_multiset().count((t, l)) == 0,
        master_minter_changed_event_srcs(b).to_multiset().count((t, l)) == 0,
        mint_event_srcs(b).to_multiset().count((t, l)) == 0,
        minter_configured_event_srcs(b).to_multiset().count((t, l)) == 0,
        minter_removed_event_srcs(b).to_multiset().count((t, l)) == 0,
        ownership_transferred_event_srcs(b).to_multiset().count((t, l)) == 0,
        pause_event_srcs(b).to_multiset().count((t, l)) == 0,
        pauser_changed_event_srcs(b).to_multiset().count((t, l)) == 0,
        rescuer_changed_event_srcs(b).to_multiset().count((t, l)) == 0,
        un_blacklisted_event_srcs(b).to_multiset().count((t, l)) == 0,
        unpause_event_srcs(b).to_multiset().count((t, l)) == 0,
        upgraded_event_srcs(b).to_multiset().count((t, l)) == 0,
{
    lemma_event_kinds_exclusive(l);
    lemma_admin_changed_event_count(b, t, l);
    lemma_approval_event_count(b, t, l);
    lemma_authorization_canceled_event_count(b, t, l);
    lemma_authorization_used_event_count(b, t, l);
    lemma_blacklisted_event_count(b, t, l);
    lemma_blacklister_changed_event_count(b, t, l);
    lemma_burn_event_count(b, t, l);
    lemma_master_minter_changed_event_count(b, t, l);
    lemma_mint_event_count(b, t, l);
    lemma_minter_configured_event_count(b, t, l);
    lemma_minter_removed_event_count(b, t, l);
    lemma_ownership_transferred_event_count(b, t, l);
    lemma_pause_event_count(b, t, l);
    lemma_pauser_changed_event_count(b, t, l);
    lemma_rescuer_changed_event_count(b, t, l);
    lemma_transfer_event_count(b, t, l);
    lemma_un_blacklisted_event_count(b, t, l);
    lemma_unpause_event_count(b, t, l);
    lemma_upgraded_event_count(b, t, l);
    transfer_event_srcs(b).to_multiset_ensures();
    assert(transfer_event_srcs(b).contains((t, l)));
    let p = choose|p: int|
        0 <= p < transfer_event_srcs(b).len() && transfer_event_srcs(b)[p] == (t, l);
    assert(transfer_event_rec_ok(out[p], b, transfer_event_srcs(b)[p].0, transfer_event_srcs(b)[p].1));
    assert(out[p].evt_index == l.block_index);
}

/// A call whose input fails to decode against the matched approve selector is
/// selected as a source by nothing: no partially populated record can exist.
pub proof fn lemma_undecodable_approve_dropped(b: Block, t: Transaction, c: Call)
    requires
        !q_approve_call(c),
    ensures
        !approve_call_srcs(b).contains((t, c)),
{
    if approve_call_srcs(b).contains((t, c)) {
        lemma_srcs_only_matching(b, calls_of(), q_approve_call_fn(), t, c);
    }
}

/// The within-block position of a log source.
pub open spec fn log_pair_key() -> spec_fn((Transaction, Log)) -> int {
    |p: (Transaction, Log)| p.1.block_index as int
}

/// The begin-ordinal of a call source.
pub open spec fn call_pair_key() -> spec_fn((Transaction, Call)) -> int {
    |p: (Transaction, Call)| p.1.begin_ordinal as int
}

/// Whether the block assigns strictly increasing within-block indices to its
/// logs along the traversal.
pub open spec fn logs_strictly_indexed(b: Block) -> bool {
    forall|i: int, j: int|
        0 <= i < j < block_entries(b, logs_of()).len() ==> (#[trigger] block_entries(
            b,
            logs_of(),
        )[i]).1.block_index < (#[trigger] block_entries(b, logs_of())[j]).1.block_index
}

/// Whether the block assigns strictly increasing begin-ordinals to its calls
/// along the traversal.
pub open spec fn calls_strictly_ordered(b: Block) -> bool {
    forall|i: int, j: int|
        0 <= i < j < block_entries(b, calls_of()).len() ==> (#[trigger] block_entries(
            b,
            calls_of(),
        )[i]).1.begin_ordinal < (#[trigger] block_entries(b, calls_of())[j]).1.begin_ordinal
}

/// Any event kind's sources keep the strictly increasing within-block index
/// of a well-indexed block.
pub proof fn lemma_event_srcs_ordered(b: Block, q: spec_fn(Log) -> bool)
    requires
        logs_strictly_indexed(b),
    ensures
        forall|i: int, j: int|
            0 <= i < j < block_srcs(b, logs_of(), src_opt(q)).len() ==> (#[trigger] block_srcs(
                b,
                logs_of(),
                src_opt(q),
            )[i]).1.block_index < (#[trigger] block_srcs(b, logs_of(), src_opt(q))[j]).1.block_index,
{
    let f = src_opt(q);
    let entries = block_entries(b, logs_of());
    lemma_block_srcs_as_filter_map(b, logs_of(), f);
    assert forall|a: (Transaction, Log)| (#[trigger] lift(f)(a)) is Some implies log_pair_key()(
        lift(f)(a)->Some_0,
    ) == log_pair_key()(a) by {
        assert(lift(f)(a) == f(a.0, a.1));
    }
    assert forall|i: int, j: int| 0 <= i < j < entries.len() implies log_pair_key()(
        #[trigger] entries[i],
    ) < log_pair_key()(#[trigger] entries[j]) by {
        assert(entries[i].1.block_index < entries[j].1.block_index);
    }
    lemma_filter_map_sorted(entries, lift(f), log_pair_key(), log_pair_key());
}

/// Any call kind's sources keep the strictly increasing begin-ordinal of a
/// well-ordered block.
pub proof fn lemma_call_srcs_ordered(b: Block, q: spec_fn(Call) -> bool)
    requires
        calls_strictly_ordered(b),
    ensures
        forall|i: int, j: int|
            0 <= i < j < block_srcs(b, calls_of(), src_opt(q)).len() ==> (#[trigger] block_srcs(
                b,
                calls_of(),
                src_opt(q),
            )[i]).1.begin_ordinal < (#[trigger] block_srcs(b, calls_of(), src_opt(q))[j]).1.begin_ordinal,
{
    let f = src_opt(q);
    let entries = block_entries(b, calls_of());
    lemma_block_srcs_as_filter_map(b, calls_of(), f);
    assert forall|a: (Transaction, Call)| (#[trigger] lift(f)(a)) is Some implies call_pair_key()(
        lift(f)(a)->Some_0,
    ) == call_pair_key()(a) by {
        assert(lift(f)(a) == f(a.0, a.1));
    }
    assert forall|i: int, j: int| 0 <= i < j < entries.len() implies call_pair_key()(
        #[trigger] entries[i],
    ) < call_pair_key()(#[trigger] entries[j]) by {
        assert(entries[i].1.begin_ordinal < entries[j].1.begin_ordinal);
    }
    lemma_filter_map_sorted(entries, lift(f), call_pair_key(), call_pair_key());
}

/// A UsdcAdminChanged batch keeps the order of its source logs' indices.
pub proof fn lemma_admin_changed_event_batch_ordered(b: Block, out: Seq<UsdcAdminChanged>)
    requires
        logs_strictly_indexed(b),
        out.len() == admin_changed_event_srcs(b).len(),
        forall|k: int|
            0 <= k < out.len() ==> admin_changed_event_rec_ok(
                #[trigger] out[k],
                b,
                admin_changed_event_srcs(b)[k].0,
                admin_changed_event_srcs(b)[k].1,
            ),
    ensures
        forall|i: int, j: int|
            0 <= i < j < out.len() ==> (#[trigger] out[i]).evt_index < (
            #[trigger] out[j]).evt_index,
{
    lemma_event_srcs_ordered(b, q_admin_changed_event_fn());
    assert forall|i: int, j: int| 0 <= i < j < out.len() implies (#[trigger] out[i]).evt_index
        < (#[trigger] out[j]).evt_index by {
        assert(admin_changed_event_rec_ok(out[i], b, admin_changed_event_srcs(b)[i].0, admin_changed_event_srcs(b)[i].1));
        assert(admin_changed_event_rec_ok(out[j], b, admin_changed_event_srcs(b)[j].0, admin_changed_event_srcs(b)[j].1));
    }
}

/// A UsdcApproval batch keeps the order of its source logs' indices.
pub proof fn lemma_approval_event_batch_ordered(b: Block, out: Seq<UsdcApproval>)
    requires
        logs_strictly_indexed(b),
        out.len() == approval_event_srcs(b).len(),
        forall|k: int|
            0 <= k < out.len() ==> approval_event_rec_ok(
                #[trigger] out[k],
                b,
                approval_event_srcs(b)[k].0,
                approval_event_srcs(b)[k].1,
            ),
    ensures
        forall|i: int, j: int|
            0 <= i < j < out.len() ==> (#[trigger] out[i]).evt_index < (
            #[trigger] out[j]).evt_index,
{
    lemma_event_srcs_ordered(b, q_approval_event_fn());
    assert forall|i: int, j: int| 0 <= i < j < out.len() implies (#[trigger] out[i]).evt_index
        < (#[trigger] out[j]).evt_index by {
        assert(approval_event_rec_ok(out[i], b, approval_event_srcs(b)[i].0, approval_event_srcs(b)[i].1));
        assert(approval_event_rec_ok(out[j], b, approval_event_srcs(b)[j].0, approval_event_srcs(b)[j].1));
    }
}

/// A UsdcAuthorizationCanceled batch keeps the order of its source logs' indices.
pub proof fn lemma_authorization_canceled_event_batch_ordered(b: Block, out: Seq<UsdcAuthorizationCanceled>)
    requires
        logs_strictly_indexed(b),
        out.len() == authorization_canceled_event_srcs(b).len(),
        forall|k: int|
            0 <= k < out.len() ==> authorization_canceled_event_rec_ok(
                #[trigger] out[k],
                b,
                authorization_canceled_event_srcs(b)[k].0,
                authorization_canceled_event_srcs(b)[k].1,
            ),
    ensures
        forall|i: int, j: int|
            0 <= i < j < out.len() ==> (#[trigger] out[i]).evt_index < (
            #[trigger] out[j]).evt_index,
{
    lemma_event_srcs_ordered(b, q_authorization_canceled_event_fn());
    assert forall|i: int, j: int| 0 <= i < j < out.len() implies (#[trigger] out[i]).evt_index
        < (#[trigger] out[j]).evt_index by {
        assert(authorization_canceled_event_rec_ok(out[i], b, authorization_canceled_event_srcs(b)[i].0, authorization_canceled_event_srcs(b)[i].1));
        assert(authorization_canceled_event_rec_ok(out[j], b, authorization_canceled_event_srcs(b)[j].0, authorization_canceled_event_srcs(b)[j].1));
    }
}

/// A UsdcAuthorizationUsed batch keeps the order of its source logs' indices.
pub proof fn lemma_authorization_used_event_batch_ordered(b: Block, out: Seq<UsdcAuthorizationUsed>)
    requires
        logs_strictly_indexed(b),
        out.len() == authorization_used_event_srcs(b).len(),
        forall|k: int|
            0 <= k < out.len() ==> authorization_used_event_rec_ok(
                #[trigger] out[k],
                b,
                authorization_used_event_srcs(b)[k].0,
                authorization_used_event_srcs(b)[k].1,
            ),
    ensures
        forall|i: int, j: int|
            0 <= i < j < out.len() ==> (#[trigger] out[i]).evt_index < (
            #[trigger] out[j]).evt_index,
{
    lemma_event_srcs_ordered(b, q_authorization_used_event_fn());
    assert forall|i: int, j: int| 0 <= i < j < out.len() implies (#[trigger] out[i]).evt_index
        < (#[trigger] out[j]).evt_index by {
        assert(authorization_used_event_rec_ok(out[i], b, authorization_used_event_srcs(b)[i].0, authorization_used_event_srcs(b)[i].1));
        assert(authorization_used_event_rec_ok(out[j], b, authorization_used_event_srcs(b)[j].0, authorization_used_event_srcs(b)[j].1));
    }
}

/// A UsdcBlacklisted batch keeps the order of its source logs' indices.
pub proof fn lemma_blacklisted_event_batch_ordered(b: Block, out: Seq<UsdcBlacklisted>)
    requires
        logs_strictly_indexed(b),
        out.len() == blacklisted_event_srcs(b).len(),
        forall|k: int|
            0 <= k < out.len() ==> blacklisted_event_rec_ok(
                #[trigger] out[k],
                b,
                blacklisted_event_srcs(b)[k].0,
                blacklisted_event_srcs(b)[k].1,
            ),
    ensures
        forall|i: int, j: int|
            0 <= i < j < out.len() ==> (#[trigger] out[i]).evt_index < (
            #[trigger] out[j]).evt_index,
{
    lemma_event_srcs_ordered(b, q_blacklisted_event_fn());
    assert forall|i: int, j: int| 0 <= i < j < out.len() implies (#[trigger] out[i]).evt_index
        < (#[trigger] out[j]).evt_index by {
        assert(blacklisted_event_rec_ok(out[i], b, blacklisted_event_srcs(b)[i].0, blacklisted_event_srcs(b)[i].1));
        assert(blacklisted_event_rec_ok(out[j], b, blacklisted_event_srcs(b)[j].0, blacklisted_event_srcs(b)[j].1));
    }
}

/// A UsdcBlacklisterChanged batch keeps the order of its source logs' indices.
pub proof fn lemma_blacklister_changed_event_batch_ordered(b: Block, out: Seq<UsdcBlacklisterChanged>)
    requires
        logs_strictly_indexed(b),
        out.len() == blacklister_changed_event_srcs(b).len(),
        forall|k: int|
            0 <= k < out.len() ==> blacklister_changed_event_rec_ok(
                #[trigger] out[k],
                b,
                blacklister_changed_event_srcs(b)[k].0,
                blacklister_changed_event_srcs(b)[k].1,
            ),
    ensures
        forall|i: int, j: int|
            0 <= i < j < out.len() ==> (#[trigger] out[i]).evt_index < (
            #[trigger] out[j]).evt_index,
{
    lemma_event_srcs_ordered(b, q_blacklister_changed_event_fn());
    assert forall|i: int, j: int| 0 <= i < j < out.len() implies (#[trigger] out[i]).evt_index
        < (#[trigger] out[j]).evt_index by {
        assert(blacklister_changed_event_rec_ok(out[i], b, blacklister_changed_event_srcs(b)[i].0, blacklister_changed_event_srcs(b)[i].1));
        assert(blacklister_changed_event_rec_ok(out[j], b, blacklister_changed_event_srcs(b)[j].0, blacklister_changed_event_srcs(b)[j].1));
    }
}

/// A UsdcBurn batch keeps the order of its source logs' indices.
pub proof fn lemma_burn_event_batch_ordered(b: Block, out: Seq<UsdcBurn>)
    requires
        logs_strictly_indexed(b),
        out.len() == burn_event_srcs(b).len(),
        forall|k: int|
            0 <= k < out.len() ==> burn_event_rec_ok(
                #[trigger] out[k],
                b,
                burn_event_srcs(b)[k].0,
                burn_event_srcs(b)[k].1,
            ),
    ensures
        forall|i: int, j: int|
            0 <= i < j < out.len() ==> (#[trigger] out[i]).evt_index < (
            #[trigger] out[j]).evt_index,
{
    lemma_event_srcs_ordered(b, q_burn_event_fn());
    assert forall|i: int, j: int| 0 <= i < j < out.len() implies (#[trigger] out[i]).evt_index
        < (#[trigger] out[j]).evt_index by {
        assert(burn_event_rec_ok(out[i], b, burn_event_srcs(b)[i].0, burn_event_srcs(b)[i].1));
        assert(burn_event_rec_ok(out[j], b, burn_event_srcs(b)[j].0, burn_event_srcs(b)[j].1));
    }
}

/// A UsdcMasterMinterChanged batch keeps the order of its source logs' indices.
pub proof fn lemma_master_minter_changed_event_batch_ordered(b: Block, out: Seq<UsdcMasterMinterChanged>)
    requires
        logs_strictly_indexed(b),
        out.len() == master_minter_changed_event_srcs(b).len(),
        forall|k: int|
            0 <= k < out.len() ==> master_minter_changed_event_rec_ok(
                #[trigger] out[k],
                b,
                master_minter_changed_event_srcs(b)[k].0,
                master_minter_changed_event_srcs(b)[k].1,
            ),
    ensures
        forall|i: int, j: int|
            0 <= i < j < out.len() ==> (#[trigger] out[i]).evt_index < (
            #[trigger] out[j]).evt_index,
{
    lemma_event_srcs_ordered(b, q_master_minter_changed_event_fn());
    assert forall|i: int, j: int| 0 <= i < j < out.len() implies (#[trigger] out[i]).evt_index
        < (#[trigger] out[j]).evt_index by {
        assert(master_minter_changed_event_rec_ok(out[i], b, master_minter_changed_event_srcs(b)[i].0, master_minter_changed_event_srcs(b)[i].1));
        assert(master_minter_changed_event_rec_ok(out[j], b, master_minter_changed_event_srcs(b)[j].0, master_minter_changed_event_srcs(b)[j].1));
    }
}

/// A UsdcMint batch keeps the order of its source logs' indices.
pub proof fn lemma_mint_event_batch_ordered(b: Block, out: Seq<UsdcMint>)
    requires
        logs_strictly_indexed(b),
        out.len() == mint_event_srcs(b).len(),
        forall|k: int|
            0 <= k < out.len() ==> mint_event_rec_ok(
                #[trigger] out[k],
                b,
                mint_event_srcs(b)[k].0,
                mint_event_srcs(b)[k].1,
            ),
    ensures
        forall|i: int, j: int|
            0 <= i < j < out.len() ==> (#[trigger] out[i]).evt_index < (
            #[trigger] out[j]).evt_index,
{
    lemma_event_srcs_ordered(b, q_mint_event_fn());
    assert forall|i: int, j: int| 0 <= i < j < out.len() implies (#[trigger] out[i]).evt_index
        < (#[trigger] out[j]).evt_index by {
        assert(mint_event_rec_ok(out[i], b, mint_event_srcs(b)[i].0, mint_event_srcs(b)[i].1));
        assert(mint_event_rec_ok(out[j], b, mint_event_srcs(b)[j].0, mint_event_srcs(b)[j].1));
    }
}

/// A UsdcMinterConfigured batch keeps the order of its source logs' indices.
pub proof fn lemma_minter_configured_event_batch_ordered(b: Block, out: Seq<UsdcMinterConfigured>)
    requires
        logs_strictly_indexed(b),
        out.len() == minter_configured_event_srcs(b).len(),
        forall|k: int|
            0 <= k < out.len() ==> minter_configured_event_rec_ok(
                #[trigger] out[k],
                b,
                minter_configured_event_srcs(b)[k].0,
                minter_configured_event_srcs(b)[k].1,
            ),
    ensures
        forall|i: int, j: int|
            0 <= i < j < out.len() ==> (#[trigger] out[i]).evt_index < (
            #[trigger] out[j]).evt_index,
{
    lemma_event_srcs_ordered(b, q_minter_configured_event_fn());
    assert forall|i: int, j: int| 0 <= i < j < out.len() implies (#[trigger] out[i]).evt_index
        < (#[trigger] out[j]).evt_index by {
        assert(minter_configured_event_rec_ok(out[i], b, minter_configured_event_srcs(b)[i].0, minter_configured_event_srcs(b)[i].1));
        assert(minter_configured_event_rec_ok(out[j], b, minter_configured_event_srcs(b)[j].0, minter_configured_event_srcs(b)[j].1));
    }
}

/// A UsdcMinterRemoved batch keeps the order of its source logs' indices.
pub proof fn lemma_minter_removed_event_batch_ordered(b: Block, out: Seq<UsdcMinterRemoved>)
    requires
        logs_strictly_indexed(b),
        out.len() == minter_removed_event_srcs(b).len(),
        forall|k: int|
            0 <= k < out.len() ==> minter_removed_event_rec_ok(
                #[trigger] out[k],
                b,
                minter_removed_event_srcs(b)[k].0,
                minter_removed_event_srcs(b)[k].1,
            ),
    ensures
        forall|i: int, j: int|
            0 <= i < j < out.len() ==> (#[trigger] out[i]).evt_index < (
            #[trigger] out[j]).evt_index,
{
    lemma_event_srcs_ordered(b, q_minter_removed_event_fn());
    assert forall|i: int, j: int| 0 <= i < j < out.len() implies (#[trigger] out[i]).evt_index
        < (#[trigger] out[j]).evt_index by {
        assert(minter_removed_event_rec_ok(out[i], b, minter_removed_event_srcs(b)[i].0, minter_removed_event_srcs(b)[i].1));
        assert(minter_removed_event_rec_ok(out[j], b, minter_removed_event_srcs(b)[j].0, minter_removed_event_srcs(b)[j].1));
    }
}

/// A UsdcOwnershipTransferred batch keeps the order of its source logs' indices.
pub proof fn lemma_ownership_transferred_event_batch_ordered(b: Block, out: Seq<UsdcOwnershipTransferred>)
    requires
        logs_strictly_indexed(b),
        out.len() == ownership_transferred_event_srcs(b).len(),
        forall|k: int|
            0 <= k < out.len() ==> ownership_transferred_event_rec_ok(
                #[trigger] out[k],
                b,
                ownership_transferred_event_srcs(b)[k].0,
                ownership_transferred_event_srcs(b)[k].1,
            ),
    ensures
        forall|i: int, j: int|
            0 <= i < j < out.len() ==> (#[trigger] out[i]).evt_index < (
            #[trigger] out[j]).evt_index,
{
    lemma_event_srcs_ordered(b, q_ownership_transferred_event_fn());
    assert forall|i: int, j: int| 0 <= i < j < out.len() implies (#[trigger] out[i]).evt_index
        < (#[trigger] out[j]).evt_index by {
        assert(ownership_transferred_event_rec_ok(out[i], b, ownership_transferred_event_srcs(b)[i].0, ownership_transferred_event_srcs(b)[i].1));
        assert(ownership_transferred_event_rec_ok(out[j], b, ownership_transferred_event_srcs(b)[j].0, ownership_transferred_event_srcs(b)[j].1));
    }
}

/// A UsdcPause batch keeps the order of its source logs' indices.
pub proof fn lemma_pause_event_batch_ordered(b: Block, out: Seq<UsdcPause>)
    requires
        logs_strictly_indexed(b),
        out.len() == pause_event_srcs(b).len(),
        forall|k: int|
            0 <= k < out.len() ==> pause_event_rec_ok(
                #[trigger] out[k],
                b,
                pause_event_srcs(b)[k].0,
                pause_event_srcs(b)[k].1,
            ),
    ensures
        forall|i: int, j: int|
            0 <= i < j < out.len() ==> (#[trigger] out[i]).evt_index < (
            #[trigger] out[j]).evt_index,
{
    lemma_event_srcs_ordered(b, q_pause_event_fn());
    assert forall|i: int, j: int| 0 <= i < j < out.len() implies (#[trigger] out[i]).evt_index
        < (#[trigger] out[j]).evt_index by {
        assert(pause_event_rec_ok(out[i], b, pause_event_srcs(b)[i].0, pause_event_srcs(b)[i].1));
        assert(pause_event_rec_ok(out[j], b, pause_event_srcs(b)[j].0, pause_event_srcs(b)[j].1));
    }
}

/// A UsdcPauserChanged batch keeps the order of its source logs' indices.
pub proof fn lemma_pauser_changed_event_batch_ordered(b: Block, out: Seq<UsdcPauserChanged>)
    requires
        logs_strictly_indexed(b),
        out.len() == pauser_changed_event_srcs(b).len(),
        forall|k: int|
            0 <= k < out.len() ==> pauser_changed_event_rec_ok(
                #[trigger] out[k],
                b,
                pauser_changed_event_srcs(b)[k].0,
                pauser_changed_event_srcs(b)[k].1,
            ),
    ensures
        forall|i: int, j: int|
            0 <= i < j < out.len() ==> (#[trigger] out[i]).evt_index < (
            #[trigger] out[j]).evt_index,
{
    lemma_event_srcs_ordered(b, q_pauser_changed_event_fn());
    assert forall|i: int, j: int| 0 <= i < j < out.len() implies (#[trigger] out[i]).evt_index
        < (#[trigger] out[j]).evt_index by {
        assert(pauser_changed_event_rec_ok(out[i], b, pauser_changed_event_srcs(b)[i].0, pauser_changed_event_srcs(b)[i].1));
        assert(pauser_changed_event_rec_ok(out[j], b, pauser_changed_event_srcs(b)[j].0, pauser_changed_event_srcs(b)[j].1));
    }
}

/// A UsdcRescuerChanged batch keeps the order of its source logs' indices.
pub proof fn lemma_rescuer_changed_event_batch_ordered(b: Block, out: Seq<UsdcRescuerChanged>)
    requires
        logs_strictly_indexed(b),
        out.len() == rescuer_changed_event_srcs(b).len(),
        forall|k: int|
            0 <= k < out.len() ==> rescuer_changed_event_rec_ok(
                #[trigger] out[k],
                b,
                rescuer_changed_event_srcs(b)[k].0,
                rescuer_changed_event_srcs(b)[k].1,
            ),
    ensures
        forall|i: int, j: int|
            0 <= i < j < out.len() ==> (#[trigger] out[i]).evt_index < (
            #[trigger] out[j]).evt_index,
{
    lemma_event_srcs_ordered(b, q_rescuer_changed_event_fn());
    assert forall|i: int, j: int| 0 <= i < j < out.len() implies (#[trigger] out[i]).evt_index
        < (#[trigger] out[j]).evt_index by {
        assert(rescuer_changed_event_rec_ok(out[i], b, rescuer_changed_event_srcs(b)[i].0, rescuer_changed_event_srcs(b)[i].1));
        assert(rescuer_changed_event_rec_ok(out[j], b, rescuer_changed_event_srcs(b)[j].0, rescuer_changed_event_srcs(b)[j].1));
    }
}

/// A UsdcTransfer batch keeps the order of its source logs' indices.
pub proof fn lemma_transfer_event_batch_ordered(b: Block, out: Seq<UsdcTransfer>)
    requires
        logs_strictly_indexed(b),
        out.len() == transfer_event_srcs(b).len(),
        forall|k: int|
            0 <= k < out.len() ==> transfer_event_rec_ok(
                #[trigger] out[k],
                b,
                transfer_event_srcs(b)[k].0,
                transfer_event_srcs(b)[k].1,
            ),
    ensures
        forall|i: int, j: int|
            0 <= i < j < out.len() ==> (#[trigger] out[i]).evt_index < (
            #[trigger] out[j]).evt_index,
{
    lemma_event_srcs_ordered(b, q_transfer_event_fn());
    assert forall|i: int, j: int| 0 <= i < j < out.len() implies (#[trigger] out[i]).evt_index
        < (#[trigger] out[j]).evt_index by {
        assert(transfer_event_rec_ok(out[i], b, transfer_event_srcs(b)[i].0, transfer_event_srcs(b)[i].1));
        assert(transfer_event_rec_ok(out[j], b, transfer_event_srcs(b)[j].0, transfer_event_srcs(b)[j].1));
    }
}

/// A UsdcUnBlacklisted batch keeps the order of its source logs' indices.
pub proof fn lemma_un_blacklisted_event_batch_ordered(b: Block, out: Seq<UsdcUnBlacklisted>)
    requires
        logs_strictly_indexed(b),
        out.len() == un_blacklisted_event_srcs(b).len(),
        forall|k: int|
            0 <= k < out.len() ==> un_blacklisted_event_rec_ok(
                #[trigger] out[k],
                b,
                un_blacklisted_event_srcs(b)[k].0,
                un_blacklisted_event_srcs(b)[k].1,
            ),
    ensures
        forall|i: int, j: int|
            0 <= i < j < out.len() ==> (#[trigger] out[i]).evt_index < (
            #[trigger] out[j]).evt_index,
{
    lemma_event_srcs_ordered(b, q_un_blacklisted_event_fn());
    assert forall|i: int, j: int| 0 <= i < j < out.len() implies (#[trigger] out[i]).evt_index
        < (#[trigger] out[j]).evt_index by {
        assert(un_blacklisted_event_rec_ok(out[i], b, un_blacklisted_event_srcs(b)[i].0, un_blacklisted_event_srcs(b)[i].1));
        assert(un_blacklisted_event_rec_ok(out[j], b, un_blacklisted_event_srcs(b)[j].0, un_blacklisted_event_srcs(b)[j].1));
    }
}

/// A UsdcUnpause batch keeps the order of its source logs' indices.
pub proof fn lemma_unpause_event_batch_ordered(b: Block, out: Seq<UsdcUnpause>)
    requires
        logs_strictly_indexed(b),
        out.len() == unpause_event_srcs(b).len(),
        forall|k: int|
            0 <= k < out.len() ==> unpause_event_rec_ok(
                #[trigger] out[k],
                b,
                unpause_event_srcs(b)[k].0,
                unpause_event_srcs(b)[k].1,
            ),
    ensures
        forall|i: int, j: int|
            0 <= i < j < out.len() ==> (#[trigger] out[i]).evt_index < (
            #[trigger] out[j]).evt_index,
{
    lemma_event_srcs_ordered(b, q_unpause_event_fn());
    assert forall|i: int, j: int| 0 <= i < j < out.len() implies (#[trigger] out[i]).evt_index
        < (#[trigger] out[j]).evt_index by {
        assert(unpause_event_rec_ok(out[i], b, unpause_event_srcs(b)[i].0, unpause_event_srcs(b)[i].1));
        assert(unpause_event_rec_ok(out[j], b, unpause_event_srcs(b)[j].0, unpause_event_srcs(b)[j].1));
    }
}

/// A UsdcUpgraded batch keeps the order of its source logs' indices.
pub proof fn lemma_upgraded_event_batch_ordered(b: Block, out: Seq<UsdcUpgraded>)
    requires
        logs_strictly_indexed(b),
        out.len() == upgraded_event_srcs(b).len(),
        forall|k: int|
            0 <= k < out.len() ==> upgraded_event_rec_ok(
                #[trigger] out[k],
                b,
                upgraded_event_srcs(b)[k].0,
                upgraded_event_srcs(b)[k].1,
            ),
    ensures
        forall|i: int, j: int|
            0 <= i < j < out.len() ==> (#[trigger] out[i]).evt_index < (
            #[trigger] out[j]).evt_index,
{
    lemma_event_srcs_ordered(b, q_upgraded_event_fn());
    assert forall|i: int, j: int| 0 <= i < j < out.len() implies (#[trigger] out[i]).evt_index
        < (#[trigger] out[j]).evt_index by {
        assert(upgraded_event_rec_ok(out[i], b, upgraded_event_srcs(b)[i].0, upgraded_event_srcs(b)[i].1));
        assert(upgraded_event_rec_ok(out[j], b, upgraded_event_srcs(b)[j].0, upgraded_event_srcs(b)[j].1));
    }
}

/// A UsdcApproveCall batch keeps the order of its source calls' ordinals.
pub proof fn lemma_approve_call_batch_ordered(b: Block, out: Seq<UsdcApproveCall>)
    requires
        calls_strictly_ordered(b),
        out.len() == approve_call_srcs(b).len(),
        forall|k: int|
            0 <= k < out.len() ==> approve_call_rec_ok(
                #[trigger] out[k],
                b,
                approve_call_srcs(b)[k].0,
                approve_call_srcs(b)[k].1,
            ),
    ensures
        forall|i: int, j: int|
            0 <= i < j < out.len() ==> (#[trigger] out[i]).call_ordinal < (
            #[trigger] out[j]).call_ordinal,
{
    lemma_call_srcs_ordered(b, q_approve_call_fn());
    assert forall|i: int, j: int| 0 <= i < j < out.len() implies (#[trigger] out[i]).call_ordinal
        < (#[trigger] out[j]).call_ordinal by {
        assert(approve_call_rec_ok(out[i], b, approve_call_srcs(b)[i].0, approve_call_srcs(b)[i].1));
        assert(approve_call_rec_ok(out[j], b, approve_call_srcs(b)[j].0, approve_call_srcs(b)[j].1));
    }
}

/// A UsdcBlacklistCall batch keeps the order of its source calls' ordinals.
pub proof fn lemma_blacklist_call_batch_ordered(b: Block, out: Seq<UsdcBlacklistCall>)
    requires
        calls_strictly_ordered(b),
        out.len() == blacklist_call_srcs(b).len(),
        forall|k: int|
            0 <= k < out.len() ==> blacklist_call_rec_ok(
                #[trigger] out[k],
                b,
                blacklist_call_srcs(b)[k].0,
                blacklist_call_srcs(b)[k].1,
            ),
    ensures
        forall|i: int, j: int|
            0 <= i < j < out.len() ==> (#[trigger] out[i]).call_ordinal < (
            #[trigger] out[j]).call_ordinal,
{
    lemma_call_srcs_ordered(b, q_blacklist_call_fn());
    assert forall|i: int, j: int| 0 <= i < j < out.len() implies (#[trigger] out[i]).call_ordinal
        < (#[trigger] out[j]).call_ordinal by {
        assert(blacklist_call_rec_ok(out[i], b, blacklist_call_srcs(b)[i].0, blacklist_call_srcs(b)[i].1));
        assert(blacklist_call_rec_ok(out[j], b, blacklist_call_srcs(b)[j].0, blacklist_call_srcs(b)[j].1));
    }
}

/// A UsdcBurnCall batch keeps the order of its source calls' ordinals.
pub proof fn lemma_burn_call_batch_ordered(b: Block, out: Seq<UsdcBurnCall>)
    requires
        calls_strictly_ordered(b),
        out.len() == burn_call_srcs(b).len(),
        forall|k: int|
            0 <= k < out.len() ==> burn_call_rec_ok(
                #[trigger] out[k],
                b,
                burn_call_srcs(b)[k].0,
                burn_call_srcs(b)[k].1,
            ),
    ensures
        forall|i: int, j: int|
            0 <= i < j < out.len() ==> (#[trigger] out[i]).call_ordinal < (
            #[trigger] out[j]).call_ordinal,
{
    lemma_call_srcs_ordered(b, q_burn_call_fn());
    assert forall|i: int, j: int| 0 <= i < j < out.len() implies (#[trigger] out[i]).call_ordinal
        < (#[trigger] out[j]).call_ordinal by {
        assert(burn_call_rec_ok(out[i], b, burn_call_srcs(b)[i].0, burn_call_srcs(b)[i].1));
        assert(burn_call_rec_ok(out[j], b, burn_call_srcs(b)[j].0, burn_call_srcs(b)[j].1));
    }
}

/// A UsdcCancelAuthorization1call batch keeps the order of its source calls' ordinals.
pub proof fn lemma_cancel_authorization_1_call_batch_ordered(b: Block, out: Seq<UsdcCancelAuthorization1call>)
    requires
        calls_strictly_ordered(b),
        out.len() == cancel_authorization_1_call_srcs(b).len(),
        forall|k: int|
            0 <= k < out.len() ==> cancel_authorization_1_call_rec_ok(
                #[trigger] out[k],
                b,
                cancel_authorization_1_call_srcs(b)[k].0,
                cancel_authorization_1_call_srcs(b)[k].1,
            ),
    ensures
        forall|i: int, j: int|
            0 <= i < j < out.len() ==> (#[trigger] out[i]).call_ordinal < (
            #[trigger] out[j]).call_ordinal,
{
    lemma_call_srcs_ordered(b, q_cancel_authorization_1_call_fn());
    assert forall|i: int, j: int| 0 <= i < j < out.len() implies (#[trigger] out[i]).call_ordinal
        < (#[trigger] out[j]).call_ordinal by {
        assert(cancel_authorization_1_call_rec_ok(out[i], b, cancel_authorization_1_call_srcs(b)[i].0, cancel_authorization_1_call_srcs(b)[i].1));
        assert(cancel_authorization_1_call_rec_ok(out[j], b, cancel_authorization_1_call_srcs(b)[j].0, cancel_authorization_1_call_srcs(b)[j].1));
    }
}

/// A UsdcCancelAuthorization2call batch keeps the order of its source calls' ordinals.
pub proof fn lemma_cancel_authorization_2_call_batch_ordered(b: Block, out: Seq<UsdcCancelAuthorization2call>)
    requires
        calls_strictly_ordered(b),
        out.len() == cancel_authorization_2_call_srcs(b).len(),
        forall|k: int|
            0 <= k < out.len() ==> cancel_authorization_2_call_rec_ok(
                #[trigger] out[k],
                b,
                cancel_authorization_2_call_srcs(b)[k].0,
                cancel_authorization_2_call_srcs(b)[k].1,
            ),
    ensures
        forall|i: int, j: int|
            0 <= i < j < out.len() ==> (#[trigger] out[i]).call_ordinal < (
            #[trigger] out[j]).call_ordinal,
{
    lemma_call_srcs_ordered(b, q_cancel_authorization_2_call_fn());
    assert forall|i: int, j: int| 0 <= i < j < out.len() implies (#[trigger] out[i]).call_ordinal
        < (#[trigger] out[j]).call_ordinal by {
        assert(cancel_authorization_2_call_rec_ok(out[i], b, cancel_authorization_2_call_srcs(b)[i].0, cancel_authorization_2_call_srcs(b)[i].1));
        assert(cancel_authorization_2_call_rec_ok(out[j], b, cancel_authorization_2_call_srcs(b)[j].0, cancel_authorization_2_call_srcs(b)[j].1));
    }
}

/// A UsdcChangeAdminCall batch keeps the order of its source calls' ordinals.
pub proof fn lemma_change_admin_call_batch_ordered(b: Block, out: Seq<UsdcChangeAdminCall>)
    requires
        calls_strictly_ordered(b),
        out.len() == change_admin_call_srcs(b).len(),
        forall|k: int|
            0 <= k < out.len() ==> change_admin_call_rec_ok(
                #[trigger] out[k],
                b,
                change_admin_call_srcs(b)[k].0,
                change_admin_call_srcs(b)[k].1,
            ),
    ensures
        forall|i: int, j: int|
            0 <= i < j < out.len() ==> (#[trigger] out[i]).call_ordinal < (
            #[trigger] out[j]).call_ordinal,
{
    lemma_call_srcs_ordered(b, q_change_admin_call_fn());
    assert forall|i: int, j: int| 0 <= i < j < out.len() implies (#[trigger] out[i]).call_ordinal
        < (#[trigger] out[j]).call_ordinal by {
        assert(change_admin_call_rec_ok(out[i], b, change_admin_call_srcs(b)[i].0, change_admin_call_srcs(b)[i].1));
        assert(change_admin_call_rec_ok(out[j], b, change_admin_call_srcs(b)[j].0, change_admin_call_srcs(b)[j].1));
    }
}

/// A UsdcConfigureMinterCall batch keeps the order of its source calls' ordinals.
pub proof fn lemma_configure_minter_call_batch_ordered(b: Block, out: Seq<UsdcConfigureMinterCall>)
    requires
        calls_strictly_ordered(b),
        out.len() == configure_minter_call_srcs(b).len(),
        forall|k: int|
            0 <= k < out.len() ==> configure_minter_call_rec_ok(
                #[trigger] out[k],
                b,
                configure_minter_call_srcs(b)[k].0,
                configure_minter_call_srcs(b)[k].1,
            ),
    ensures
        forall|i: int, j: int|
            0 <= i < j < out.len() ==> (#[trigger] out[i]).call_ordinal < (
            #[trigger] out[j]).call_ordinal,
{
    lemma_call_srcs_ordered(b, q_configure_minter_call_fn());
    assert forall|i: int, j: int| 0 <= i < j < out.len() implies (#[trigger] out[i]).call_ordinal
        < (#[trigger] out[j]).call_ordinal by {
        assert(configure_minter_call_rec_ok(out[i], b, configure_minter_call_srcs(b)[i].0, configure_minter_call_srcs(b)[i].1));
        assert(configure_minter_call_rec_ok(out[j], b, configure_minter_call_srcs(b)[j].0, configure_minter_call_srcs(b)[j].1));
    }
}

/// A UsdcDecreaseAllowanceCall batch keeps the order of its source calls' ordinals.
pub proof fn lemma_decrease_allowance_call_batch_ordered(b: Block, out: Seq<UsdcDecreaseAllowanceCall>)
    requires
        calls_strictly_ordered(b),
        out.len() == decrease_allowance_call_srcs(b).len(),
        forall|k: int|
            0 <= k < out.len() ==> decrease_allowance_call_rec_ok(
                #[trigger] out[k],
                b,
                decrease_allowance_call_srcs(b)[k].0,
                decrease_allowance_call_srcs(b)[k].1,
            ),
    ensures
        forall|i: int, j: int|
            0 <= i < j < out.len() ==> (#[trigger] out[i]).call_ordinal < (
            #[trigger] out[j]).call_ordinal,
{
    lemma_call_srcs_ordered(b, q_decrease_allowance_call_fn());
    assert forall|i: int, j: int| 0 <= i < j < out.len() implies (#[trigger] out[i]).call_ordinal
        < (#[trigger] out[j]).call_ordinal by {
        assert(decrease_allowance_call_rec_ok(out[i], b, decrease_allowance_call_srcs(b)[i].0, decrease_allowance_call_srcs(b)[i].1));
        assert(decrease_allowance_call_rec_ok(out[j], b, decrease_allowance_call_srcs(b)[j].0, decrease_allowance_call_srcs(b)[j].1));
    }
}

/// A UsdcIncreaseAllowanceCall batch keeps the order of its source calls' ordinals.
pub proof fn lemma_increase_allowance_call_batch_ordered(b: Block, out: Seq<UsdcIncreaseAllowanceCall>)
    requires
        calls_strictly_ordered(b),
        out.len() == increase_allowance_call_srcs(b).len(),
        forall|k: int|
            0 <= k < out.len() ==> increase_allowance_call_rec_ok(
                #[trigger] out[k],
                b,
                increase_allowance_call_srcs(b)[k].0,
                increase_allowance_call_srcs(b)[k].1,
            ),
    ensures
        forall|i: int, j: int|
            0 <= i < j < out.len() ==> (#[trigger] out[i]).call_ordinal < (
            #[trigger] out[j]).call_ordinal,
{
    lemma_call_srcs_ordered(b, q_increase_allowance_call_fn());
    assert forall|i: int, j: int| 0 <= i < j < out.len() implies (#[trigger] out[i]).call_ordinal
        < (#[trigger] out[j]).call_ordinal by {
        assert(increase_allowance_call_rec_ok(out[i], b, increase_allowance_call_srcs(b)[i].0, increase_allowance_call_srcs(b)[i].1));
        assert(increase_allowance_call_rec_ok(out[j], b, increase_allowance_call_srcs(b)[j].0, increase_allowance_call_srcs(b)[j].1));
    }
}

/// A UsdcInitializeCall batch keeps the order of its source calls' ordinals.
pub proof fn lemma_initialize_call_batch_ordered(b: Block, out: Seq<UsdcInitializeCall>)
    requires
        calls_strictly_ordered(b),
        out.len() == initialize_call_srcs(b).len(),
        forall|k: int|
            0 <= k < out.len() ==> initialize_call_rec_ok(
                #[trigger] out[k],
                b,
                initialize_call_srcs(b)[k].0,
                initialize_call_srcs(b)[k].1,
            ),
    ensures
        forall|i: int, j: int|
            0 <= i < j < out.len() ==> (#[trigger] out[i]).call_ordinal < (
            #[trigger] out[j]).call_ordinal,
{
    lemma_call_srcs_ordered(b, q_initialize_call_fn());
    assert forall|i: int, j: int| 0 <= i < j < out.len() implies (#[trigger] out[i]).call_ordinal
        < (#[trigger] out[j]).call_ordinal by {
        assert(initialize_call_rec_ok(out[i], b, initialize_call_srcs(b)[i].0, initialize_call_srcs(b)[i].1));
        assert(initialize_call_rec_ok(out[j], b, initialize_call_srcs(b)[j].0, initialize_call_srcs(b)[j].1));
    }
}

/// A UsdcInitializeV2call batch keeps the order of its source calls' ordinals.
pub proof fn lemma_initialize_v2_call_batch_ordered(b: Block, out: Seq<UsdcInitializeV2call>)
    requires
        calls_strictly_ordered(b),
        out.len() == initialize_v2_call_srcs(b).len(),
        forall|k: int|
            0 <= k < out.len() ==> initialize_v2_call_rec_ok(
                #[trigger] out[k],
                b,
                initialize_v2_call_srcs(b)[k].0,
                initialize_v2_call_srcs(b)[k].1,
            ),
    ensures
        forall|i: int, j: int|
            0 <= i < j < out.len() ==> (#[trigger] out[i]).call_ordinal < (
            #[trigger] out[j]).call_ordinal,
{
    lemma_call_srcs_ordered(b, q_initialize_v2_call_fn());
    assert forall|i: int, j: int| 0 <= i < j < out.len() implies (#[trigger] out[i]).call_ordinal
        < (#[trigger] out[j]).call_ordinal by {
        assert(initialize_v2_call_rec_ok(out[i], b, initialize_v2_call_srcs(b)[i].0, initialize_v2_call_srcs(b)[i].1));
        assert(initialize_v2_call_rec_ok(out[j], b, initialize_v2_call_srcs(b)[j].0, initialize_v2_call_srcs(b)[j].1));
    }
}

/// A UsdcInitializeV21call batch keeps the order of its source calls' ordinals.
pub proof fn lemma_initialize_v2_1_call_batch_ordered(b: Block, out: Seq<UsdcInitializeV21call>)
    requires
        calls_strictly_ordered(b),
        out.len() == initialize_v2_1_call_srcs(b).len(),
        forall|k: int|
            0 <= k < out.len() ==> initialize_v2_1_call_rec_ok(
                #[trigger] out[k],
                b,
                initialize_v2_1_call_srcs(b)[k].0,
                initialize_v2_1_call_srcs(b)[k].1,
            ),
    ensures
        forall|i: int, j: int|
            0 <= i < j < out.len() ==> (#[trigger] out[i]).call_ordinal < (
            #[trigger] out[j]).call_ordinal,
{
    lemma_call_srcs_ordered(b, q_initialize_v2_1_call_fn());
    assert forall|i: int, j: int| 0 <= i < j < out.len() implies (#[trigger] out[i]).call_ordinal
        < (#[trigger] out[j]).call_ordinal by {
        assert(initialize_v2_1_call_rec_ok(out[i], b, initialize_v2_1_call_srcs(b)[i].0, initialize_v2_1_call_srcs(b)[i].1));
        assert(initialize_v2_1_call_rec_ok(out[j], b, initialize_v2_1_call_srcs(b)[j].0, initialize_v2_1_call_srcs(b)[j].1));
    }
}

/// A UsdcInitializeV22call batch keeps the order of its source calls' ordinals.
pub proof fn lemma_initialize_v2_2_call_batch_ordered(b: Block, out: Seq<UsdcInitializeV22call>)
    requires
        calls_strictly_ordered(b),
        out.len() == initialize_v2_2_call_srcs(b).len(),
        forall|k: int|
            0 <= k < out.len() ==> initialize_v2_2_call_rec_ok(
                #[trigger] out[k],
                b,
                initialize_v2_2_call_srcs(b)[k].0,
                initialize_v2_2_call_srcs(b)[k].1,
            ),
    ensures
        forall|i: int, j: int|
            0 <= i < j < out.len() ==> (#[trigger] out[i]).call_ordinal < (
            #[trigger] out[j]).call_ordinal,
{
    lemma_call_srcs_ordered(b, q_initialize_v2_2_call_fn());
    assert forall|i: int, j: int| 0 <= i < j < out.len() implies (#[trigger] out[i]).call_ordinal
        < (#[trigger] out[j]).call_ordinal by {
        assert(initialize_v2_2_call_rec_ok(out[i], b, initialize_v2_2_call_srcs(b)[i].0, initialize_v2_2_call_srcs(b)[i].1));
        assert(initialize_v2_2_call_rec_ok(out[j], b, initialize_v2_2_call_srcs(b)[j].0, initialize_v2_2_call_srcs(b)[j].1));
    }
}

/// A UsdcMintCall batch keeps the order of its source calls' ordinals.
pub proof fn lemma_mint_call_batch_ordered(b: Block, out: Seq<UsdcMintCall>)
    requires
        calls_strictly_ordered(b),
        out.len() == mint_call_srcs(b).len(),
        forall|k: int|
            0 <= k < out.len() ==> mint_call_rec_ok(
                #[trigger] out[k],
                b,
                mint_call_srcs(b)[k].0,
                mint_call_srcs(b)[k].1,
            ),
    ensures
        forall|i: int, j: int|
            0 <= i < j < out.len() ==> (#[trigger] out[i]).call_ordinal < (
            #[trigger] out[j]).call_ordinal,
{
    lemma_call_srcs_ordered(b, q_mint_call_fn());
    assert forall|i: int, j: int| 0 <= i < j < out.len() implies (#[trigger] out[i]).call_ordinal
        < (#[trigger] out[j]).call_ordinal by {
        assert(mint_call_rec_ok(out[i], b, mint_call_srcs(b)[i].0, mint_call_srcs(b)[i].1));
        assert(mint_call_rec_ok(out[j], b, mint_call_srcs(b)[j].0, mint_call_srcs(b)[j].1));
    }
}

/// A UsdcPauseCall batch keeps the order of its source calls' ordinals.
pub proof fn lemma_pause_call_batch_ordered(b: Block, out: Seq<UsdcPauseCall>)
    requires
        calls_strictly_ordered(b),
        out.len() == pause_call_srcs(b).len(),
        forall|k: int|
            0 <= k < out.len() ==> pause_call_rec_ok(
                #[trigger] out[k],
                b,
                pause_call_srcs(b)[k].0,
                pause_call_srcs(b)[k].1,
            ),
    ensures
        forall|i: int, j: int|
            0 <= i < j < out.len() ==> (#[trigger] out[i]).call_ordinal < (
            #[trigger] out[j]).call_ordinal,
{
    lemma_call_srcs_ordered(b, q_pause_call_fn());
    assert forall|i: int, j: int| 0 <= i < j < out.len() implies (#[trigger] out[i]).call_ordinal
        < (#[trigger] out[j]).call_ordinal by {
        assert(pause_call_rec_ok(out[i], b, pause_call_srcs(b)[i].0, pause_call_srcs(b)[i].1));
        assert(pause_call_rec_ok(out[j], b, pause_call_srcs(b)[j].0, pause_call_srcs(b)[j].1));
    }
}

/// A UsdcPermit1call batch keeps the order of its source calls' ordinals.
pub proof fn lemma_permit_1_call_batch_ordered(b: Block, out: Seq<UsdcPermit1call>)
    requires
        calls_strictly_ordered(b),
        out.len() == permit_1_call_srcs(b).len(),
        forall|k: int|
            0 <= k < out.len() ==> permit_1_call_rec_ok(
                #[trigger] out[k],
                b,
                permit_1_call_srcs(b)[k].0,
                permit_1_call_srcs(b)[k].1,
            ),
    ensures
        forall|i: int, j: int|
            0 <= i < j < out.len() ==> (#[trigger] out[i]).call_ordinal < (
            #[trigger] out[j]).call_ordinal,
{
    lemma_call_srcs_ordered(b, q_permit_1_call_fn());
    assert forall|i: int, j: int| 0 <= i < j < out.len() implies (#[trigger] out[i]).call_ordinal
        < (#[trigger] out[j]).call_ordinal by {
        assert(permit_1_call_rec_ok(out[i], b, permit_1_call_srcs(b)[i].0, permit_1_call_srcs(b)[i].1));
        assert(permit_1_call_rec_ok(out[j], b, permit_1_call_srcs(b)[j].0, permit_1_call_srcs(b)[j].1));
    }
}

/// A UsdcPermit2call batch keeps the order of its source calls' ordinals.
pub proof fn lemma_permit_2_call_batch_ordered(b: Block, out: Seq<UsdcPermit2call>)
    requires
        calls_strictly_ordered(b),
        out.len() == permit_2_call_srcs(b).len(),
        forall|k: int|
            0 <= k < out.len() ==> permit_2_call_rec_ok(
                #[trigger] out[k],
                b,
                permit_2_call_srcs(b)[k].0,
                permit_2_call_srcs(b)[k].1,
            ),
    ensures
        forall|i: int, j: int|
            0 <= i < j < out.len() ==> (#[trigger] out[i]).call_ordinal < (
            #[trigger] out[j]).call_ordinal,
{
    lemma_call_srcs_ordered(b, q_permit_2_call_fn());
    assert forall|i: int, j: int| 0 <= i < j < out.len() implies (#[trigger] out[i]).call_ordinal
        < (#[trigger] out[j]).call_ordinal by {
        assert(permit_2_call_rec_ok(out[i], b, permit_2_call_srcs(b)[i].0, permit_2_call_srcs(b)[i].1));
        assert(permit_2_call_rec_ok(out[j], b, permit_2_call_srcs(b)[j].0, permit_2_call_srcs(b)[j].1));
    }
}

/// A UsdcReceiveWithAuthorization1call batch keeps the order of its source calls' ordinals.
pub proof fn lemma_receive_with_authorization_1_call_batch_ordered(b: Block, out: Seq<UsdcReceiveWithAuthorization1call>)
    requires
        calls_strictly_ordered(b),
        out.len() == receive_with_authorization_1_call_srcs(b).len(),
        forall|k: int|
            0 <= k < out.len() ==> receive_with_authorization_1_call_rec_ok(
                #[trigger] out[k],
                b,
                receive_with_authorization_1_call_srcs(b)[k].0,
                receive_with_authorization_1_call_srcs(b)[k].1,
            ),
    ensures
        forall|i: int, j: int|
            0 <= i < j < out.len() ==> (#[trigger] out[i]).call_ordinal < (
            #[trigger] out[j]).call_ordinal,
{
    lemma_call_srcs_ordered(b, q_receive_with_authorization_1_call_fn());
    assert forall|i: int, j: int| 0 <= i < j < out.len() implies (#[trigger] out[i]).call_ordinal
        < (#[trigger] out[j]).call_ordinal by {
        assert(receive_with_authorization_1_call_rec_ok(out[i], b, receive_with_authorization_1_call_srcs(b)[i].0, receive_with_authorization_1_call_srcs(b)[i].1));
        assert(receive_with_authorization_1_call_rec_ok(out[j], b, receive_with_authorization_1_call_srcs(b)[j].0, receive_with_authorization_1_call_srcs(b)[j].1));
    }
}

/// A UsdcReceiveWithAuthorization2call batch keeps the order of its source calls' ordinals.
pub proof fn lemma_receive_with_authorization_2_call_batch_ordered(b: Block, out: Seq<UsdcReceiveWithAuthorization2call>)
    requires
        calls_strictly_ordered(b),
        out.len() == receive_with_authorization_2_call_srcs(b).len(),
        forall|k: int|
            0 <= k < out.len() ==> receive_with_authorization_2_call_rec_ok(
                #[trigger] out[k],
                b,
                receive_with_authorization_2_call_srcs(b)[k].0,
                receive_with_authorization_2_call_srcs(b)[k].1,
            ),
    ensures
        forall|i: int, j: int|
            0 <= i < j < out.len() ==> (#[trigger] out[i]).call_ordinal < (
            #[trigger] out[j]).call_ordinal,
{
    lemma_call_srcs_ordered(b, q_receive_with_authorization_2_call_fn());
    assert forall|i: int, j: int| 0 <= i < j < out.len() implies (#[trigger] out[i]).call_ordinal
        < (#[trigger] out[j]).call_ordinal by {
        assert(receive_with_authorization_2_call_rec_ok(out[i], b, receive_with_authorization_2_call_srcs(b)[i].0, receive_with_authorization_2_call_srcs(b)[i].1));
        assert(receive_with_authorization_2_call_rec_ok(out[j], b, receive_with_authorization_2_call_srcs(b)[j].0, receive_with_authorization_2_call_srcs(b)[j].1));
    }
}

/// A UsdcRemoveMinterCall batch keeps the order of its source calls' ordinals.
pub proof fn lemma_remove_minter_call_batch_ordered(b: Block, out: Seq<UsdcRemoveMinterCall>)
    requires
        calls_strictly_ordered(b),
        out.len() == remove_minter_call_srcs(b).len(),
        forall|k: int|
            0 <= k < out.len() ==> remove_minter_call_rec_ok(
                #[trigger] out[k],
                b,
                remove_minter_call_srcs(b)[k].0,
                remove_minter_call_srcs(b)[k].1,
            ),
    ensures
        forall|i: int, j: int|
            0 <= i < j < out.len() ==> (#[trigger] out[i]).call_ordinal < (
            #[trigger] out[j]).call_ordinal,
{
    lemma_call_srcs_ordered(b, q_remove_minter_call_fn());
    assert forall|i: int, j: int| 0 <= i < j < out.len() implies (#[trigger] out[i]).call_ordinal
        < (#[trigger] out[j]).call_ordinal by {
        assert(remove_minter_call_rec_ok(out[i], b, remove_minter_call_srcs(b)[i].0, remove_minter_call_srcs(b)[i].1));
        assert(remove_minter_call_rec_ok(out[j], b, remove_minter_call_srcs(b)[j].0, remove_minter_call_srcs(b)[j].1));
    }
}

/// A UsdcRescueErc20call batch keeps the order of its source calls' ordinals.
pub proof fn lemma_rescue_erc20_call_batch_ordered(b: Block, out: Seq<UsdcRescueErc20call>)
    requires
        calls_strictly_ordered(b),
        out.len() == rescue_erc20_call_srcs(b).len(),
        forall|k: int|
            0 <= k < out.len() ==> rescue_erc20_call_rec_ok(
                #[trigger] out[k],
                b,
                rescue_erc20_call_srcs(b)[k].0,
                rescue_erc20_call_srcs(b)[k].1,
            ),
    ensures
        forall|i: int, j: int|
            0 <= i < j < out.len() ==> (#[trigger] out[i]).call_ordinal < (
            #[trigger] out[j]).call_ordinal,
{
    lemma_call_srcs_ordered(b, q_rescue_erc20_call_fn());
    assert forall|i: int, j: int| 0 <= i < j < out.len() implies (#[trigger] out[i]).call_ordinal
        < (#[trigger] out[j]).call_ordinal by {
        assert(rescue_erc20_call_rec_ok(out[i], b, rescue_erc20_call_srcs(b)[i].0, rescue_erc20_call_srcs(b)[i].1));
        assert(rescue_erc20_call_rec_ok(out[j], b, rescue_erc20_call_srcs(b)[j].0, rescue_erc20_call_srcs(b)[j].1));
    }
}

/// A UsdcTransferCall batch keeps the order of its source calls' ordinals.
pub proof fn lemma_transfer_call_batch_ordered(b: Block, out: Seq<UsdcTransferCall>)
    requires
        calls_strictly_ordered(b),
        out.len() == transfer_call_srcs(b).len(),
        forall|k: int|
            0 <= k < out.len() ==> transfer_call_rec_ok(
                #[trigger] out[k],
                b,
                transfer_call_srcs(b)[k].0,
                transfer_call_srcs(b)[k].1,
            ),
    ensures
        forall|i: int, j: int|
            0 <= i < j < out.len() ==> (#[trigger] out[i]).call_ordinal < (
            #[trigger] out[j]).call_ordinal,
{
    lemma_call_srcs_ordered(b, q_transfer_call_fn());
    assert forall|i: int, j: int| 0 <= i < j < out.len() implies (#[trigger] out[i]).call_ordinal
        < (#[trigger] out[j]).call_ordinal by {
        assert(transfer_call_rec_ok(out[i], b, transfer_call_srcs(b)[i].0, transfer_call_srcs(b)[i].1));
        assert(transfer_call_rec_ok(out[j], b, transfer_call_srcs(b)[j].0, transfer_call_srcs(b)[j].1));
    }
}

/// A UsdcTransferFromCall batch keeps the order of its source calls' ordinals.
pub proof fn lemma_transfer_from_call_batch_ordered(b: Block, out: Seq<UsdcTransferFromCall>)
    requires
        calls_strictly_ordered(b),
        out.len() == transfer_from_call_srcs(b).len(),
        forall|k: int|
            0 <= k < out.len() ==> transfer_from_call_rec_ok(
                #[trigger] out[k],
                b,
                transfer_from_call_srcs(b)[k].0,
                transfer_from_call_srcs(b)[k].1,
            ),
    ensures
        forall|i: int, j: int|
            0 <= i < j < out.len() ==> (#[trigger] out[i]).call_ordinal < (
            #[trigger] out[j]).call_ordinal,
{
    lemma_call_srcs_ordered(b, q_transfer_from_call_fn());
    assert forall|i: int, j: int| 0 <= i < j < out.len() implies (#[trigger] out[i]).call_ordinal
        < (#[trigger] out[j]).call_ordinal by {
        assert(transfer_from_call_rec_ok(out[i], b, transfer_from_call_srcs(b)[i].0, transfer_from_call_srcs(b)[i].1));
        assert(transfer_from_call_rec_ok(out[j], b, transfer_from_call_srcs(b)[j].0, transfer_from_call_srcs(b)[j].1));
    }
}

/// A UsdcTransferOwnershipCall batch keeps the order of its source calls' ordinals.
pub proof fn lemma_transfer_ownership_call_batch_ordered(b: Block, out: Seq<UsdcTransferOwnershipCall>)
    requires
        calls_strictly_ordered(b),
        out.len() == transfer_ownership_call_srcs(b).len(),
        forall|k: int|
            0 <= k < out.len() ==> transfer_ownership_call_rec_ok(
                #[trigger] out[k],
                b,
                transfer_ownership_call_srcs(b)[k].0,
                transfer_ownership_call_srcs(b)[k].1,
            ),
    ensures
        forall|i: int, j: int|
            0 <= i < j < out.len() ==> (#[trigger] out[i]).call_ordinal < (
            #[trigger] out[j]).call_ordinal,
{
    lemma_call_srcs_ordered(b, q_transfer_ownership_call_fn());
    assert forall|i: int, j: int| 0 <= i < j < out.len() implies (#[trigger] out[i]).call_ordinal
        < (#[trigger] out[j]).call_ordinal by {
        assert(transfer_ownership_call_rec_ok(out[i], b, transfer_ownership_call_srcs(b)[i].0, transfer_ownership_call_srcs(b)[i].1));
        assert(transfer_ownership_call_rec_ok(out[j], b, transfer_ownership_call_srcs(b)[j].0, transfer_ownership_call_srcs(b)[j].1));
    }
}

/// A UsdcTransferWithAuthorization1call batch keeps the order of its source calls' ordinals.
pub proof fn lemma_transfer_with_authorization_1_call_batch_ordered(b: Block, out: Seq<UsdcTransferWithAuthorization1call>)
    requires
        calls_strictly_ordered(b),
        out.len() == transfer_with_authorization_1_call_srcs(b).len(),
        forall|k: int|
            0 <= k < out.len() ==> transfer_with_authorization_1_call_rec_ok(
                #[trigger] out[k],
                b,
                transfer_with_authorization_1_call_srcs(b)[k].0,
                transfer_with_authorization_1_call_srcs(b)[k].1,
            ),
    ensures
        forall|i: int, j: int|
            0 <= i < j < out.len() ==> (#[trigger] out[i]).call_ordinal < (
            #[trigger] out[j]).call_ordinal,
{
    lemma_call_srcs_ordered(b, q_transfer_with_authorization_1_call_fn());
    assert forall|i: int, j: int| 0 <= i < j < out.len() implies (#[trigger] out[i]).call_ordinal
        < (#[trigger] out[j]).call_ordinal by {
        assert(transfer_with_authorization_1_call_rec_ok(out[i], b, transfer_with_authorization_1_call_srcs(b)[i].0, transfer_with_authorization_1_call_srcs(b)[i].1));
        assert(transfer_with_authorization_1_call_rec_ok(out[j], b, transfer_with_authorization_1_call_srcs(b)[j].0, transfer_with_authorization_1_call_srcs(b)[j].1));
    }
}

/// A UsdcTransferWithAuthorization2call batch keeps the order of its source calls' ordinals.
pub proof fn lemma_transfer_with_authorization_2_call_batch_ordered(b: Block, out: Seq<UsdcTransferWithAuthorization2call>)
    requires
        calls_strictly_ordered(b),
        out.len() == transfer_with_authorization_2_call_srcs(b).len(),
        forall|k: int|
            0 <= k < out.len() ==> transfer_with_authorization_2_call_rec_ok(
                #[trigger] out[k],
                b,
                transfer_with_authorization_2_call_srcs(b)[k].0,
                transfer_with_authorization_2_call_srcs(b)[k].1,
            ),
    ensures
        forall|i: int, j: int|
            0 <= i < j < out.len() ==> (#[trigger] out[i]).call_ordinal < (
            #[trigger] out[j]).call_ordinal,
{
    lemma_call_srcs_ordered(b, q_transfer_with_authorization_2_call_fn());
    assert forall|i: int, j: int| 0 <= i < j < out.len() implies (#[trigger] out[i]).call_ordinal
        < (#[trigger] out[j]).call_ordinal by {
        assert(transfer_with_authorization_2_call_rec_ok(out[i], b, transfer_with_authorization_2_call_srcs(b)[i].0, transfer_with_authorization_2_call_srcs(b)[i].1));
        assert(transfer_with_authorization_2_call_rec_ok(out[j], b, transfer_with_authorization_2_call_srcs(b)[j].0, transfer_with_authorization_2_call_srcs(b)[j].1));
    }
}

/// A UsdcUnBlacklistCall batch keeps the order of its source calls' ordinals.
pub proof fn lemma_un_blacklist_call_batch_ordered(b: Block, out: Seq<UsdcUnBlacklistCall>)
    requires
        calls_strictly_ordered(b),
        out.len() == un_blacklist_call_srcs(b).len(),
        forall|k: int|
            0 <= k < out.len() ==> un_blacklist_call_rec_ok(
                #[trigger] out[k],
                b,
                un_blacklist_call_srcs(b)[k].0,
                un_blacklist_call_srcs(b)[k].1,
            ),
    ensures
        forall|i: int, j: int|
            0 <= i < j < out.len() ==> (#[trigger] out[i]).call_ordinal < (
            #[trigger] out[j]).call_ordinal,
{
    lemma_call_srcs_ordered(b, q_un_blacklist_call_fn());
    assert forall|i: int, j: int| 0 <= i < j < out.len() implies (#[trigger] out[i]).call_ordinal
        < (#[trigger] out[j]).call_ordinal by {
        assert(un_blacklist_call_rec_ok(out[i], b, un_blacklist_call_srcs(b)[i].0, un_blacklist_call_srcs(b)[i].1));
        assert(un_blacklist_call_rec_ok(out[j], b, un_blacklist_call_srcs(b)[j].0, un_blacklist_call_srcs(b)[j].1));
    }
}

/// A UsdcUnpauseCall batch keeps the order of its source calls' ordinals.
pub proof fn lemma_unpause_call_batch_ordered(b: Block, out: Seq<UsdcUnpauseCall>)
    requires
        calls_strictly_ordered(b),
        out.len() == unpause_call_srcs(b).len(),
        forall|k: int|
            0 <= k < out.len() ==> unpause_call_rec_ok(
                #[trigger] out[k],
                b,
                unpause_call_srcs(b)[k].0,
                unpause_call_srcs(b)[k].1,
            ),
    ensures
        forall|i: int, j: int|
            0 <= i < j < out.len() ==> (#[trigger] out[i]).call_ordinal < (
            #[trigger] out[j]).call_ordinal,
{
    lemma_call_srcs_ordered(b, q_unpause_call_fn());
    assert forall|i: int, j: int| 0 <= i < j < out.len() implies (#[trigger] out[i]).call_ordinal
        < (#[trigger] out[j]).call_ordinal by {
        assert(unpause_call_rec_ok(out[i], b, unpause_call_srcs(b)[i].0, unpause_call_srcs(b)[i].1));
        assert(unpause_call_rec_ok(out[j], b, unpause_call_srcs(b)[j].0, unpause_call_srcs(b)[j].1));
    }
}

/// A UsdcUpdateBlacklisterCall batch keeps the order of its source calls' ordinals.
pub proof fn lemma_update_blacklister_call_batch_ordered(b: Block, out: Seq<UsdcUpdateBlacklisterCall>)
    requires
        calls_strictly_ordered(b),
        out.len() == update_blacklister_call_srcs(b).len(),
        forall|k: int|
            0 <= k < out.len() ==> update_blacklister_call_rec_ok(
                #[trigger] out[k],
                b,
                update_blacklister_call_srcs(b)[k].0,
                update_blacklister_call_srcs(b)[k].1,
            ),
    ensures
        forall|i: int, j: int|
            0 <= i < j < out.len() ==> (#[trigger] out[i]).call_ordinal < (
            #[trigger] out[j]).call_ordinal,
{
    lemma_call_srcs_ordered(b, q_update_blacklister_call_fn());
    assert forall|i: int, j: int| 0 <= i < j < out.len() implies (#[trigger] out[i]).call_ordinal
        < (#[trigger] out[j]).call_ordinal by {
        assert(update_blacklister_call_rec_ok(out[i], b, update_blacklister_call_srcs(b)[i].0, update_blacklister_call_srcs(b)[i].1));
        assert(update_blacklister_call_rec_ok(out[j], b, update_blacklister_call_srcs(b)[j].0, update_blacklister_call_srcs(b)[j].1));
    }
}

/// A UsdcUpdateMasterMinterCall batch keeps the order of its source calls' ordinals.
pub proof fn lemma_update_master_minter_call_batch_ordered(b: Block, out: Seq<UsdcUpdateMasterMinterCall>)
    requires
        calls_strictly_ordered(b),
        out.len() == update_master_minter_call_srcs(b).len(),
        forall|k: int|
            0 <= k < out.len() ==> update_master_minter_call_rec_ok(
                #[trigger] out[k],
                b,
                update_master_minter_call_srcs(b)[k].0,
                update_master_minter_call_srcs(b)[k].1,
            ),
    ensures
        forall|i: int, j: int|
            0 <= i < j < out.len() ==> (#[trigger] out[i]).call_ordinal < (
            #[trigger] out[j]).call_ordinal,
{
    lemma_call_srcs_ordered(b, q_update_master_minter_call_fn());
    assert forall|i: int, j: int| 0 <= i < j < out.len() implies (#[trigger] out[i]).call_ordinal
        < (#[trigger] out[j]).call_ordinal by {
        assert(update_master_minter_call_rec_ok(out[i], b, update_master_minter_call_srcs(b)[i].0, update_master_minter_call_srcs(b)[i].1));
        assert(update_master_minter_call_rec_ok(out[j], b, update_master_minter_call_srcs(b)[j].0, update_master_minter_call_srcs(b)[j].1));
    }
}

/// A UsdcUpdatePauserCall batch keeps the order of its source calls' ordinals.
pub proof fn lemma_update_pauser_call_batch_ordered(b: Block, out: Seq<UsdcUpdatePauserCall>)
    requires
        calls_strictly_ordered(b),
        out.len() == update_pauser_call_srcs(b).len(),
        forall|k: int|
            0 <= k < out.len() ==> update_pauser_call_rec_ok(
                #[trigger] out[k],
                b,
                update_pauser_call_srcs(b)[k].0,
                update_pauser_call_srcs(b)[k].1,
            ),
    ensures
        forall|i: int, j: int|
            0 <= i < j < out.len() ==> (#[trigger] out[i]).call_ordinal < (
            #[trigger] out[j]).call_ordinal,
{
    lemma_call_srcs_ordered(b, q_update_pauser_call_fn());
    assert forall|i: int, j: int| 0 <= i < j < out.len() implies (#[trigger] out[i]).call_ordinal
        < (#[trigger] out[j]).call_ordinal by {
        assert(update_pauser_call_rec_ok(out[i], b, update_pauser_call_srcs(b)[i].0, update_pauser_call_srcs(b)[i].1));
        assert(update_pauser_call_rec_ok(out[j], b, update_pauser_call_srcs(b)[j].0, update_pauser_call_srcs(b)[j].1));
    }
}

/// A UsdcUpdateRescuerCall batch keeps the order of its source calls' ordinals.
pub proof fn lemma_update_rescuer_call_batch_ordered(b: Block, out: Seq<UsdcUpdateRescuerCall>)
    requires
        calls_strictly_ordered(b),
        out.len() == update_rescuer_call_srcs(b).len(),
        forall|k: int|
            0 <= k < out.len() ==> update_rescuer_call_rec_ok(
                #[trigger] out[k],
                b,
                update_rescuer_call_srcs(b)[k].0,
                update_rescuer_call_srcs(b)[k].1,
            ),
    ensures
        forall|i: int, j: int|
            0 <= i < j < out.len() ==> (#[trigger] out[i]).call_ordinal < (
            #[trigger] out[j]).call_ordinal,
{
    lemma_call_srcs_ordered(b, q_update_rescuer_call_fn());
    assert forall|i: int, j: int| 0 <= i < j < out.len() implies (#[trigger] out[i]).call_ordinal
        < (#[trigger] out[j]).call_ordinal by {
        assert(update_rescuer_call_rec_ok(out[i], b, update_rescuer_call_srcs(b)[i].0, update_rescuer_call_srcs(b)[i].1));
        assert(update_rescuer_call_rec_ok(out[j], b, update_rescuer_call_srcs(b)[j].0, update_rescuer_call_srcs(b)[j].1));
    }
}

/// A UsdcUpgradeToCall batch keeps the order of its source calls' ordinals.
pub proof fn lemma_upgrade_to_call_batch_ordered(b: Block, out: Seq<UsdcUpgradeToCall>)
    requires
        calls_strictly_ordered(b),
        out.len() == upgrade_to_call_srcs(b).len(),
        forall|k: int|
            0 <= k < out.len() ==> upgrade_to_call_rec_ok(
                #[trigger] out[k],
                b,
                upgrade_to_call_srcs(b)[k].0,
                upgrade_to_call_srcs(b)[k].1,
            ),
    ensures
        forall|i: int, j: int|
            0 <= i < j < out.len() ==> (#[trigger] out[i]).call_ordinal < (
            #[trigger] out[j]).call_ordinal,
{
    lemma_call_srcs_ordered(b, q_upgrade_to_call_fn());
    assert forall|i: int, j: int| 0 <= i < j < out.len() implies (#[trigger] out[i]).call_ordinal
        < (#[trigger] out[j]).call_ordinal by {
        assert(upgrade_to_call_rec_ok(out[i], b, upgrade_to_call_srcs(b)[i].0, upgrade_to_call_srcs(b)[i].1));
        assert(upgrade_to_call_rec_ok(out[j], b, upgrade_to_call_srcs(b)[j].0, upgrade_to_call_srcs(b)[j].1));
    }
}

/// A UsdcUpgradeToAndCallCall batch keeps the order of its source calls' ordinals.
pub proof fn lemma_upgrade_to_and_call_call_batch_ordered(b: Block, out: Seq<UsdcUpgradeToAndCallCall>)
    requires
        calls_strictly_ordered(b),
        out.len() == upgrade_to_and_call_call_srcs(b).len(),
        forall|k: int|
            0 <= k < out.len() ==> upgrade_to_and_call_call_rec_ok(
                #[trigger] out[k],
                b,
                upgrade_to_and_call_call_srcs(b)[k].0,
                upgrade_to_and_call_call_srcs(b)[k].1,
            ),
    ensures
        forall|i: int, j: int|
            0 <= i < j < out.len() ==> (#[trigger] out[i]).call_ordinal < (
            #[trigger] out[j]).call_ordinal,
{
    lemma_call_srcs_ordered(b, q_upgrade_to_and_call_call_fn());
    assert forall|i: int, j: int| 0 <= i < j < out.len() implies (#[trigger] out[i]).call_ordinal
        < (#[trigger] out[j]).call_ordinal by {
        assert(upgrade_to_and_call_call_rec_ok(out[i], b, upgrade_to_and_call_call_srcs(b)[i].0, upgrade_to_and_call_call_srcs(b)[i].1));
        assert(upgrade_to_and_call_call_rec_ok(out[j], b, upgrade_to_and_call_call_srcs(b)[j].0, upgrade_to_and_call_call_srcs(b)[j].1));
    }
}

/// Two UsdcAdminChanged records that agree on every observable field.
pub open spec fn same_usdcadminchanged(x: UsdcAdminChanged, y: UsdcAdminChanged) -> bool {
    &&& x.evt_tx_hash@ == y.evt_tx_hash@
    &&& x.evt_index == y.evt_index
    &&& x.evt_block_time == y.evt_block_time
    &&& x.evt_block_number == y.evt_block_number
    &&& x.previous_admin@ == y.previous_admin@
    &&& x.new_admin@ == y.new_admin@
}

/// Two UsdcApproval records that agree on every observable field.
pub open spec fn same_usdcapproval(x: UsdcApproval, y: UsdcApproval) -> bool {
    &&& x.evt_tx_hash@ == y.evt_tx_hash@
    &&& x.evt_index == y.evt_index
    &&& x.evt_block_time == y.evt_block_time
    &&& x.evt_block_number == y.evt_block_number
    &&& x.owner@ == y.owner@
    &&& x.spender@ == y.spender@
    &&& x.value@ == y.value@
}

/// Two UsdcAuthorizationCanceled records that agree on every observable field.
pub open spec fn same_usdcauthorizationcanceled(x: UsdcAuthorizationCanceled, y: UsdcAuthorizationCanceled) -> bool {
    &&& x.evt_tx_hash@ == y.evt_tx_hash@
    &&& x.evt_index == y.evt_index
    &&& x.evt_block_time == y.evt_block_time
    &&& x.evt_block_number == y.evt_block_number
    &&& x.authorizer@ == y.authorizer@
    &&& x.nonce@ == y.nonce@
}

/// Two UsdcAuthorizationUsed records that agree on every observable field.
pub open spec fn same_usdcauthorizationused(x: UsdcAuthorizationUsed, y: UsdcAuthorizationUsed) -> bool {
    &&& x.evt_tx_hash@ == y.evt_tx_hash@
    &&& x.evt_index == y.evt_index
    &&& x.evt_block_time == y.evt_block_time
    &&& x.evt_block_number == y.evt_block_number
    &&& x.authorizer@ == y.authorizer@
    &&& x.nonce@ == y.nonce@
}

/// Two UsdcBlacklisted records that agree on every observable field.
pub open spec fn same_usdcblacklisted(x: UsdcBlacklisted, y: UsdcBlacklisted) -> bool {
    &&& x.evt_tx_hash@ == y.evt_tx_hash@
    &&& x.evt_index == y.evt_index
    &&& x.evt_block_time == y.evt_block_time
    &&& x.evt_block_number == y.evt_block_number
    &&& x.u_account@ == y.u_account@
}

/// Two UsdcBlacklisterChanged records that agree on every observable field.
pub open spec fn same_usdcblacklisterchanged(x: UsdcBlacklisterChanged, y: UsdcBlacklisterChanged) -> bool {
    &&& x.evt_tx_hash@ == y.evt_tx_hash@
    &&& x.evt_index == y.evt_index
    &&& x.evt_block_time == y.evt_block_time
    &&& x.evt_block_number == y.evt_block_number
    &&& x.new_blacklister@ == y.new_blacklister@
}

/// Two UsdcBurn records that agree on every observable field.
pub open spec fn same_usdcburn(x: UsdcBurn, y: UsdcBurn) -> bool {
    &&& x.evt_tx_hash@ == y.evt_tx_hash@
    &&& x.evt_index == y.evt_index
    &&& x.evt_block_time == y.evt_block_time
    &&& x.evt_block_number == y.evt_block_number
    &&& x.burner@ == y.burner@
    &&& x.amount@ == y.amount@
}

/// Two UsdcMasterMinterChanged records that agree on every observable field.
pub open spec fn same_usdcmasterminterchanged(x: UsdcMasterMinterChanged, y: UsdcMasterMinterChanged) -> bool {
    &&& x.evt_tx_hash@ == y.evt_tx_hash@
    &&& x.evt_index == y.evt_index
    &&& x.evt_block_time == y.evt_block_time
    &&& x.evt_block_number == y.evt_block_number
    &&& x.new_master_minter@ == y.new_master_minter@
}

/// Two UsdcMint records that agree on every observable field.
pub open spec fn same_usdcmint(x: UsdcMint, y: UsdcMint) -> bool {
    &&& x.evt_tx_hash@ == y.evt_tx_hash@
    &&& x.evt_index == y.evt_index
    &&& x.evt_block_time == y.evt_block_time
    &&& x.evt_block_number == y.evt_block_number
    &&& x.minter@ == y.minter@
    &&& x.to@ == y.to@
    &&& x.amount@ == y.amount@
}

/// Two UsdcMinterConfigured records that agree on every observable field.
pub open spec fn same_usdcminterconfigured(x: UsdcMinterConfigured, y: UsdcMinterConfigured) -> bool {
    &&& x.evt_tx_hash@ == y.evt_tx_hash@
    &&& x.evt_index == y.evt_index
    &&& x.evt_block_time == y.evt_block_time
    &&& x.evt_block_number == y.evt_block_number
    &&& x.minter@ == y.minter@
    &&& x.minter_allowed_amount@ == y.minter_allowed_amount@
}

/// Two UsdcMinterRemoved records that agree on every observable field.
pub open spec fn same_usdcminterremoved(x: UsdcMinterRemoved, y: UsdcMinterRemoved) -> bool {
    &&& x.evt_tx_hash@ == y.evt_tx_hash@
    &&& x.evt_index == y.evt_index
    &&& x.evt_block_time == y.evt_block_time
    &&& x.evt_block_number == y.evt_block_number
    &&& x.old_minter@ == y.old_minter@
}

/// Two UsdcOwnershipTransferred records that agree on every observable field.
pub open spec fn same_usdcownershiptransferred(x: UsdcOwnershipTransferred, y: UsdcOwnershipTransferred) -> bool {
    &&& x.evt_tx_hash@ == y.evt_tx_hash@
    &&& x.evt_index == y.evt_index
    &&& x.evt_block_time == y.evt_block_time
    &&& x.evt_block_number == y.evt_block_number
    &&& x.previous_owner@ == y.previous_owner@
    &&& x.new_owner@ == y.new_owner@
}

/// Two UsdcPause records that agree on every observable field.
pub open spec fn same_usdcpause(x: UsdcPause, y: UsdcPause) -> bool {
    &&& x.evt_tx_hash@ == y.evt_tx_hash@
    &&& x.evt_index == y.evt_index
    &&& x.evt_block_time == y.evt_block_time
    &&& x.evt_block_number == y.evt_block_number
}

/// Two UsdcPauserChanged records that agree on every observable field.
pub open spec fn same_usdcpauserchanged(x: UsdcPauserChanged, y: UsdcPauserChanged) -> bool {
    &&& x.evt_tx_hash@ == y.evt_tx_hash@
    &&& x.evt_index == y.evt_index
    &&& x.evt_block_time == y.evt_block_time
    &&& x.evt_block_number == y.evt_block_number
    &&& x.new_address@ == y.new_address@
}

/// Two UsdcRescuerChanged records that agree on every observable field.
pub open spec fn same_usdcrescuerchanged(x: UsdcRescuerChanged, y: UsdcRescuerChanged) -> bool {
    &&& x.evt_tx_hash@ == y.evt_tx_hash@
    &&& x.evt_index == y.evt_index
    &&& x.evt_block_time == y.evt_block_time
    &&& x.evt_block_number == y.evt_block_number
    &&& x.new_rescuer@ == y.new_rescuer@
}

/// Two UsdcTransfer records that agree on every observable field.
pub open spec fn same_usdctransfer(x: UsdcTransfer, y: UsdcTransfer) -> bool {
    &&& x.evt_tx_hash@ == y.evt_tx_hash@
    &&& x.evt_index == y.evt_index
    &&& x.evt_block_time == y.evt_block_time
    &&& x.evt_block_number == y.evt_block_number
    &&& x.from@ == y.from@
    &&& x.to@ == y.to@
    &&& x.value@ == y.value@
}

/// Two UsdcUnBlacklisted records that agree on every observable field.
pub open spec fn same_usdcunblacklisted(x: UsdcUnBlacklisted, y: UsdcUnBlacklisted) -> bool {
    &&& x.evt_tx_hash@ == y.evt_tx_hash@
    &&& x.evt_index == y.evt_index
    &&& x.evt_block_time == y.evt_block_time
    &&& x.evt_block_number == y.evt_block_number
    &&& x.u_account@ == y.u_account@
}

/// Two UsdcUnpause records that agree on every observable field.
pub open spec fn same_usdcunpause(x: UsdcUnpause, y: UsdcUnpause) -> bool {
    &&& x.evt_tx_hash@ == y.evt_tx_hash@
    &&& x.evt_index == y.evt_index
    &&& x.evt_block_time == y.evt_block_time
    &&& x.evt_block_number == y.evt_block_number
}

/// Two UsdcUpgraded records that agree on every observable field.
pub open spec fn same_usdcupgraded(x: UsdcUpgraded, y: UsdcUpgraded) -> bool {
    &&& x.evt_tx_hash@ == y.evt_tx_hash@
    &&& x.evt_index == y.evt_index
    &&& x.evt_block_time == y.evt_block_time
    &&& x.evt_block_number == y.evt_block_number
    &&& x.implementation@ == y.implementation@
}

/// Two UsdcApproveCall records that agree on every observable field.
pub open spec fn same_usdcapprovecall(x: UsdcApproveCall, y: UsdcApproveCall) -> bool {
    &&& x.call_tx_hash@ == y.call_tx_hash@
    &&& x.call_block_time == y.call_block_time
    &&& x.call_block_number == y.call_block_number
    &&& x.call_ordinal == y.call_ordinal
    &&& x.call_success == y.call_success
    &&& x.spender@ == y.spender@
    &&& x.value@ == y.value@
    &&& x.output_param0 == y.output_param0
}

/// Two UsdcBlacklistCall records that agree on every observable field.
pub open spec fn same_usdcblacklistcall(x: UsdcBlacklistCall, y: UsdcBlacklistCall) -> bool {
    &&& x.call_tx_hash@ == y.call_tx_hash@
    &&& x.call_block_time == y.call_block_time
    &&& x.call_block_number == y.call_block_number
    &&& x.call_ordinal == y.call_ordinal
    &&& x.call_success == y.call_success
    &&& x.u_account@ == y.u_account@
}

/// Two UsdcBurnCall records that agree on every observable field.
pub open spec fn same_usdcburncall(x: UsdcBurnCall, y: UsdcBurnCall) -> bool {
    &&& x.call_tx_hash@ == y.call_tx_hash@
    &&& x.call_block_time == y.call_block_time
    &&& x.call_block_number == y.call_block_number
    &&& x.call_ordinal == y.call_ordinal
    &&& x.call_success == y.call_success
    &&& x.u_amount@ == y.u_amount@
}

/// Two UsdcCancelAuthorization1call records that agree on every observable field.
pub open spec fn same_usdccancelauthorization1call(x: UsdcCancelAuthorization1call, y: UsdcCancelAuthorization1call) -> bool {
    &&& x.call_tx_hash@ == y.call_tx_hash@
    &&& x.call_block_time == y.call_block_time
    &&& x.call_block_number == y.call_block_number
    &&& x.call_ordinal == y.call_ordinal
    &&& x.call_success == y.call_success
    &&& x.authorizer@ == y.authorizer@
    &&& x.nonce@ == y.nonce@
    &&& x.v == y.v
    &&& x.r@ == y.r@
    &&& x.s@ == y.s@
}

/// Two UsdcCancelAuthorization2call records that agree on every observable field.
pub open spec fn same_usdccancelauthorization2call(x: UsdcCancelAuthorization2call, y: UsdcCancelAuthorization2call) -> bool {
    &&& x.call_tx_hash@ == y.call_tx_hash@
    &&& x.call_block_time == y.call_block_time
    &&& x.call_block_number == y.call_block_number
    &&& x.call_ordinal == y.call_ordinal
    &&& x.call_success == y.call_success
    &&& x.authorizer@ == y.authorizer@
    &&& x.nonce@ == y.nonce@
    &&& x.signature@ == y.signature@
}

/// Two UsdcChangeAdminCall records that agree on every observable field.
pub open spec fn same_usdcchangeadmincall(x: UsdcChangeAdminCall, y: UsdcChangeAdminCall) -> bool {
    &&& x.call_tx_hash@ == y.call_tx_hash@
    &&& x.call_block_time == y.call_block_time
    &&& x.call_block_number == y.call_block_number
    &&& x.call_ordinal == y.call_ordinal
    &&& x.call_success == y.call_success
    &&& x.new_admin@ == y.new_admin@
}

/// Two UsdcConfigureMinterCall records that agree on every observable field.
pub open spec fn same_usdcconfiguremintercall(x: UsdcConfigureMinterCall, y: UsdcConfigureMinterCall) -> bool {
    &&& x.call_tx_hash@ == y.call_tx_hash@
    &&& x.call_block_time == y.call_block_time
    &&& x.call_block_number == y.call_block_number
    &&& x.call_ordinal == y.call_ordinal
    &&& x.call_success == y.call_success
    &&& x.minter@ == y.minter@
    &&& x.minter_allowed_amount@ == y.minter_allowed_amount@
    &&& x.output_param0 == y.output_param0
}

/// Two UsdcDecreaseAllowanceCall records that agree on every observable field.
pub open spec fn same_usdcdecreaseallowancecall(x: UsdcDecreaseAllowanceCall, y: UsdcDecreaseAllowanceCall) -> bool {
    &&& x.call_tx_hash@ == y.call_tx_hash@
    &&& x.call_block_time == y.call_block_time
    &&& x.call_block_number == y.call_block_number
    &&& x.call_ordinal == y.call_ordinal
    &&& x.call_success == y.call_success
    &&& x.spender@ == y.spender@
    &&& x.decrement@ == y.decrement@
    &&& x.output_param0 == y.output_param0
}

/// Two UsdcIncreaseAllowanceCall records that agree on every observable field.
pub open spec fn same_usdcincreaseallowancecall(x: UsdcIncreaseAllowanceCall, y: UsdcIncreaseAllowanceCall) -> bool {
    &&& x.call_tx_hash@ == y.call_tx_hash@
    &&& x.call_block_time == y.call_block_time
    &&& x.call_block_number == y.call_block_number
    &&& x.call_ordinal == y.call_ordinal
    &&& x.call_success == y.call_success
    &&& x.spender@ == y.spender@
    &&& x.increment@ == y.increment@
    &&& x.output_param0 == y.output_param0
}

/// Two UsdcInitializeCall records that agree on every observable field.
pub open spec fn same_usdcinitializecall(x: UsdcInitializeCall, y: UsdcInitializeCall) -> bool {
    &&& x.call_tx_hash@ == y.call_tx_hash@
    &&& x.call_block_time == y.call_block_time
    &&& x.call_block_number == y.call_block_number
    &&& x.call_ordinal == y.call_ordinal
    &&& x.call_success == y.call_success
    &&& x.token_name@ == y.token_name@
    &&& x.token_symbol@ == y.token_symbol@
    &&& x.token_currency@ == y.token_currency@
    &&& x.token_decimals == y.token_decimals
    &&& x.new_master_minter@ == y.new_master_minter@
    &&& x.new_pauser@ == y.new_pauser@
    &&& x.new_blacklister@ == y.new_blacklister@
    &&& x.new_owner@ == y.new_owner@
}

/// Two UsdcInitializeV2call records that agree on every observable field.
pub open spec fn same_usdcinitializev2call(x: UsdcInitializeV2call, y: UsdcInitializeV2call) -> bool {
    &&& x.call_tx_hash@ == y.call_tx_hash@
    &&& x.call_block_time == y.call_block_time
    &&& x.call_block_number == y.call_block_number
    &&& x.call_ordinal == y.call_ordinal
    &&& x.call_success == y.call_success
    &&& x.new_name@ == y.new_name@
}

/// Two UsdcInitializeV21call records that agree on every observable field.
pub open spec fn same_usdcinitializev21call(x: UsdcInitializeV21call, y: UsdcInitializeV21call) -> bool {
    &&& x.call_tx_hash@ == y.call_tx_hash@
    &&& x.call_block_time == y.call_block_time
    &&& x.call_block_number == y.call_block_number
    &&& x.call_ordinal == y.call_ordinal
    &&& x.call_success == y.call_success
    &&& x.lost_and_found@ == y.lost_and_found@
}

/// Two UsdcInitializeV22call records that agree on every observable field.
pub open spec fn same_usdcinitializev22call(x: UsdcInitializeV22call, y: UsdcInitializeV22call) -> bool {
    &&& x.call_tx_hash@ == y.call_tx_hash@
    &&& x.call_block_time == y.call_block_time
    &&& x.call_block_number == y.call_block_number
    &&& x.call_ordinal == y.call_ordinal
    &&& x.call_success == y.call_success
    &&& x.accounts_to_blacklist@.len() == y.accounts_to_blacklist@.len()
    &&& (forall|i: int| 0 <= i < x.accounts_to_blacklist@.len() ==> (#[trigger] x.accounts_to_blacklist@[i])@ == y.accounts_to_blacklist@[i]@)
    &&& x.new_symbol@ == y.new_symbol@
}

/// Two UsdcMintCall records that agree on every observable field.
pub open spec fn same_usdcmintcall(x: UsdcMintCall, y: UsdcMintCall) -> bool {
    &&& x.call_tx_hash@ == y.call_tx_hash@
    &&& x.call_block_time == y.call_block_time
    &&& x.call_block_number == y.call_block_number
    &&& x.call_ordinal == y.call_ordinal
    &&& x.call_success == y.call_success
    &&& x.u_to@ == y.u_to@
    &&& x.u_amount@ == y.u_amount@
    &&& x.output_param0 == y.output_param0
}

/// Two UsdcPauseCall records that agree on every observable field.
pub open spec fn same_usdcpausecall(x: UsdcPauseCall, y: UsdcPauseCall) -> bool {
    &&& x.call_tx_hash@ == y.call_tx_hash@
    &&& x.call_block_time == y.call_block_time
    &&& x.call_block_number == y.call_block_number
    &&& x.call_ordinal == y.call_ordinal
    &&& x.call_success == y.call_success
}

/// Two UsdcPermit1call records that agree on every observable field.
pub open spec fn same_usdcpermit1call(x: UsdcPermit1call, y: UsdcPermit1call) -> bool {
    &&& x.call_tx_hash@ == y.call_tx_hash@
    &&& x.call_block_time == y.call_block_time
    &&& x.call_block_number == y.call_block_number
    &&& x.call_ordinal == y.call_ordinal
    &&& x.call_success == y.call_success
    &&& x.owner@ == y.owner@
    &&& x.spender@ == y.spender@
    &&& x.value@ == y.value@
    &&& x.deadline@ == y.deadline@
    &&& x.signature@ == y.signature@
}

/// Two UsdcPermit2call records that agree on every observable field.
pub open spec fn same_usdcpermit2call(x: UsdcPermit2call, y: UsdcPermit2call) -> bool {
    &&& x.call_tx_hash@ == y.call_tx_hash@
    &&& x.call_block_time == y.call_block_time
    &&& x.call_block_number == y.call_block_number
    &&& x.call_ordinal == y.call_ordinal
    &&& x.call_success == y.call_success
    &&& x.owner@ == y.owner@
    &&& x.spender@ == y.spender@
    &&& x.value@ == y.value@
    &&& x.deadline@ == y.deadline@
    &&& x.v == y.v
    &&& x.r@ == y.r@
    &&& x.s@ == y.s@
}

/// Two UsdcReceiveWithAuthorization1call records that agree on every observable field.
pub open spec fn same_usdcreceivewithauthorization1call(x: UsdcReceiveWithAuthorization1call, y: UsdcReceiveWithAuthorization1call) -> bool {
    &&& x.call_tx_hash@ == y.call_tx_hash@
    &&& x.call_block_time == y.call_block_time
    &&& x.call_block_number == y.call_block_number
    &&& x.call_ordinal == y.call_ordinal
    &&& x.call_success == y.call_success
    &&& x.from@ == y.from@
    &&& x.to@ == y.to@
    &&& x.value@ == y.value@
    &&& x.valid_after@ == y.valid_after@
    &&& x.valid_before@ == y.valid_before@
    &&& x.nonce@ == y.nonce@
    &&& x.signature@ == y.signature@
}

/// Two UsdcReceiveWithAuthorization2call records that agree on every observable field.
pub open spec fn same_usdcreceivewithauthorization2call(x: UsdcReceiveWithAuthorization2call, y: UsdcReceiveWithAuthorization2call) -> bool {
    &&& x.call_tx_hash@ == y.call_tx_hash@
    &&& x.call_block_time == y.call_block_time
    &&& x.call_block_number == y.call_block_number
    &&& x.call_ordinal == y.call_ordinal
    &&& x.call_success == y.call_success
    &&& x.from@ == y.from@
    &&& x.to@ == y.to@
    &&& x.value@ == y.value@
    &&& x.valid_after@ == y.valid_after@
    &&& x.valid_before@ == y.valid_before@
    &&& x.nonce@ == y.nonce@
    &&& x.v == y.v
    &&& x.r@ == y.r@
    &&& x.s@ == y.s@
}

/// Two UsdcRemoveMinterCall records that agree on every observable field.
pub open spec fn same_usdcremovemintercall(x: UsdcRemoveMinterCall, y: UsdcRemoveMinterCall) -> bool {
    &&& x.call_tx_hash@ == y.call_tx_hash@
    &&& x.call_block_time == y.call_block_time
    &&& x.call_block_number == y.call_block_number
    &&& x.call_ordinal == y.call_ordinal
    &&& x.call_success == y.call_success
    &&& x.minter@ == y.minter@
    &&& x.output_param0 == y.output_param0
}

/// Two UsdcRescueErc20call records that agree on every observable field.
pub open spec fn same_usdcrescueerc20call(x: UsdcRescueErc20call, y: UsdcRescueErc20call) -> bool {
    &&& x.call_tx_hash@ == y.call_tx_hash@
    &&& x.call_block_time == y.call_block_time
    &&& x.call_block_number == y.call_block_number
    &&& x.call_ordinal == y.call_ordinal
    &&& x.call_success == y.call_success
    &&& x.token_contract@ == y.token_contract@
    &&& x.to@ == y.to@
    &&& x.amount@ == y.amount@
}

/// Two UsdcTransferCall records that agree on every observable field.
pub open spec fn same_usdctransfercall(x: UsdcTransferCall, y: UsdcTransferCall) -> bool {
    &&& x.call_tx_hash@ == y.call_tx_hash@
    &&& x.call_block_time == y.call_block_time
    &&& x.call_block_number == y.call_block_number
    &&& x.call_ordinal == y.call_ordinal
    &&& x.call_success == y.call_success
    &&& x.to@ == y.to@
    &&& x.value@ == y.value@
    &&& x.output_param0 == y.output_param0
}

/// Two UsdcTransferFromCall records that agree on every observable field.
pub open spec fn same_usdctransferfromcall(x: UsdcTransferFromCall, y: UsdcTransferFromCall) -> bool {
    &&& x.call_tx_hash@ == y.call_tx_hash@
    &&& x.call_block_time == y.call_block_time
    &&& x.call_block_number == y.call_block_number
    &&& x.call_ordinal == y.call_ordinal
    &&& x.call_success == y.call_success
    &&& x.from@ == y.from@
    &&& x.to@ == y.to@
    &&& x.value@ == y.value@
    &&& x.output_param0 == y.output_param0
}

/// Two UsdcTransferOwnershipCall records that agree on every observable field.
pub open spec fn same_usdctransferownershipcall(x: UsdcTransferOwnershipCall, y: UsdcTransferOwnershipCall) -> bool {
    &&& x.call_tx_hash@ == y.call_tx_hash@
    &&& x.call_block_time == y.call_block_time
    &&& x.call_block_number == y.call_block_number
    &&& x.call_ordinal == y.call_ordinal
    &&& x.call_success == y.call_success
    &&& x.new_owner@ == y.new_owner@
}

/// Two UsdcTransferWithAuthorization1call records that agree on every observable field.
pub open spec fn same_usdctransferwithauthorization1call(x: UsdcTransferWithAuthorization1call, y: UsdcTransferWithAuthorization1call) -> bool {
    &&& x.call_tx_hash@ == y.call_tx_hash@
    &&& x.call_block_time == y.call_block_time
    &&& x.call_block_number == y.call_block_number
    &&& x.call_ordinal == y.call_ordinal
    &&& x.call_success == y.call_success
    &&& x.from@ == y.from@
    &&& x.to@ == y.to@
    &&& x.value@ == y.value@
    &&& x.valid_after@ == y.valid_after@
    &&& x.valid_before@ == y.valid_before@
    &&& x.nonce@ == y.nonce@
    &&& x.signature@ == y.signature@
}

/// Two UsdcTransferWithAuthorization2call records that agree on every observable field.
pub open spec fn same_usdctransferwithauthorization2call(x: UsdcTransferWithAuthorization2call, y: UsdcTransferWithAuthorization2call) -> bool {
    &&& x.call_tx_hash@ == y.call_tx_hash@
    &&& x.call_block_time == y.call_block_time
    &&& x.call_block_number == y.call_block_number
    &&& x.call_ordinal == y.call_ordinal
    &&& x.call_success == y.call_success
    &&& x.from@ == y.from@
    &&& x.to@ == y.to@
    &&& x.value@ == y.value@
    &&& x.valid_after@ == y.valid_after@
    &&& x.valid_before@ == y.valid_before@
    &&& x.nonce@ == y.nonce@
    &&& x.v == y.v
    &&& x.r@ == y.r@
    &&& x.s@ == y.s@
}

/// Two UsdcUnBlacklistCall records that agree on every observable field.
pub open spec fn same_usdcunblacklistcall(x: UsdcUnBlacklistCall, y: UsdcUnBlacklistCall) -> bool {
    &&& x.call_tx_hash@ == y.call_tx_hash@
    &&& x.call_block_time == y.call_block_time
    &&& x.call_block_number == y.call_block_number
    &&& x.call_ordinal == y.call_ordinal
    &&& x.call_success == y.call_success
    &&& x.u_account@ == y.u_account@
}

/// Two UsdcUnpauseCall records that agree on every observable field.
pub open spec fn same_usdcunpausecall(x: UsdcUnpauseCall, y: UsdcUnpauseCall) -> bool {
    &&& x.call_tx_hash@ == y.call_tx_hash@
    &&& x.call_block_time == y.call_block_time
    &&& x.call_block_number == y.call_block_number
    &&& x.call_ordinal == y.call_ordinal
    &&& x.call_success == y.call_success
}

/// Two UsdcUpdateBlacklisterCall records that agree on every observable field.
pub open spec fn same_usdcupdateblacklistercall(x: UsdcUpdateBlacklisterCall, y: UsdcUpdateBlacklisterCall) -> bool {
    &&& x.call_tx_hash@ == y.call_tx_hash@
    &&& x.call_block_time == y.call_block_time
    &&& x.call_block_number == y.call_block_number
    &&& x.call_ordinal == y.call_ordinal
    &&& x.call_success == y.call_success
    &&& x.u_new_blacklister@ == y.u_new_blacklister@
}

/// Two UsdcUpdateMasterMinterCall records that agree on every observable field.
pub open spec fn same_usdcupdatemastermintercall(x: UsdcUpdateMasterMinterCall, y: UsdcUpdateMasterMinterCall) -> bool {
    &&& x.call_tx_hash@ == y.call_tx_hash@
    &&& x.call_block_time == y.call_block_time
    &&& x.call_block_number == y.call_block_number
    &&& x.call_ordinal == y.call_ordinal
    &&& x.call_success == y.call_success
    &&& x.u_new_master_minter@ == y.u_new_master_minter@
}

/// Two UsdcUpdatePauserCall records that agree on every observable field.
pub open spec fn same_usdcupdatepausercall(x: UsdcUpdatePauserCall, y: UsdcUpdatePauserCall) -> bool {
    &&& x.call_tx_hash@ == y.call_tx_hash@
    &&& x.call_block_time == y.call_block_time
    &&& x.call_block_number == y.call_block_number
    &&& x.call_ordinal == y.call_ordinal
    &&& x.call_success == y.call_success
    &&& x.u_new_pauser@ == y.u_new_pauser@
}

/// Two UsdcUpdateRescuerCall records that agree on every observable field.
pub open spec fn same_usdcupdaterescuercall(x: UsdcUpdateRescuerCall, y: UsdcUpdateRescuerCall) -> bool {
    &&& x.call_tx_hash@ == y.call_tx_hash@
    &&& x.call_block_time == y.call_block_time
    &&& x.call_block_number == y.call_block_number
    &&& x.call_ordinal == y.call_ordinal
    &&& x.call_success == y.call_success
    &&& x.new_rescuer@ == y.new_rescuer@
}

/// Two UsdcUpgradeToCall records that agree on every observable field.
pub open spec fn same_usdcupgradetocall(x: UsdcUpgradeToCall, y: UsdcUpgradeToCall) -> bool {
    &&& x.call_tx_hash@ == y.call_tx_hash@
    &&& x.call_block_time == y.call_block_time
    &&& x.call_block_number == y.call_block_number
    &&& x.call_ordinal == y.call_ordinal
    &&& x.call_success == y.call_success
    &&& x.new_implementation@ == y.new_implementation@
}

/// Two UsdcUpgradeToAndCallCall records that agree on every observable field.
pub open spec fn same_usdcupgradetoandcallcall(x: UsdcUpgradeToAndCallCall, y: UsdcUpgradeToAndCallCall) -> bool {
    &&& x.call_tx_hash@ == y.call_tx_hash@
    &&& x.call_block_time == y.call_block_time
    &&& x.call_block_number == y.call_block_number
    &&& x.call_ordinal == y.call_ordinal
    &&& x.call_success == y.call_success
    &&& x.new_implementation@ == y.new_implementation@
    &&& x.data@ == y.data@
}

/// Projection is a function of the block alone: two containers that both
/// satisfy the projector contract for one block hold byte-identical
/// batches, record for record.
pub proof fn lemma_events_deterministic(b: Block, x1: Events, x2: Events)
    requires
        x1.usdc_admin_changeds@.len() == admin_changed_event_srcs(b).len(),
        forall|k: int|
            0 <= k < admin_changed_event_srcs(b).len() ==> admin_changed_event_rec_ok(
                #[trigger] x1.usdc_admin_changeds@[k],
                b,
                admin_changed_event_srcs(b)[k].0,
                admin_changed_event_srcs(b)[k].1,
            ),
        x2.usdc_admin_changeds@.len() == admin_changed_event_srcs(b).len(),
        forall|k: int|
            0 <= k < admin_changed_event_srcs(b).len() ==> admin_changed_event_rec_ok(
                #[trigger] x2.usdc_admin_changeds@[k],
                b,
                admin_changed_event_srcs(b)[k].0,
                admin_changed_event_srcs(b)[k].1,
            ),
        x1.usdc_approvals@.len() == approval_event_srcs(b).len(),
        forall|k: int|
            0 <= k < approval_event_srcs(b).len() ==> approval_event_rec_ok(
                #[trigger] x1.usdc_approvals@[k],
                b,
                approval_event_srcs(b)[k].0,
                approval_event_srcs(b)[k].1,
            ),
        x2.usdc_approvals@.len() == approval_event_srcs(b).len(),
        forall|k: int|
            0 <= k < approval_event_srcs(b).len() ==> approval_event_rec_ok(
                #[trigger] x2.usdc_approvals@[k],
                b,
                approval_event_srcs(b)[k].0,
                approval_event_srcs(b)[k].1,
            ),
        x1.usdc_authorization_canceleds@.len() == authorization_canceled_event_srcs(b).len(),
        forall|k: int|
            0 <= k < authorization_canceled_event_srcs(b).len() ==> authorization_canceled_event_rec_ok(
                #[trigger] x1.usdc_authorization_canceleds@[k],
                b,
                authorization_canceled_event_srcs(b)[k].0,
                authorization_canceled_event_srcs(b)[k].1,
            ),
        x2.usdc_authorization_canceleds@.len() == authorization_canceled_event_srcs(b).len(),
        forall|k: int|
            0 <= k < authorization_canceled_event_srcs(b).len() ==> authorization_canceled_event_rec_ok(
                #[trigger] x2.usdc_authorization_canceleds@[k],
                b,
                authorization_canceled_event_srcs(b)[k].0,
                authorization_canceled_event_srcs(b)[k].1,
            ),
        x1.usdc_authorization_useds@.len() == authorization_used_event_srcs(b).len(),
        forall|k: int|
            0 <= k < authorization_used_event_srcs(b).len() ==> authorization_used_event_rec_ok(
                #[trigger] x1.usdc_authorization_useds@[k],
                b,
                authorization_used_event_srcs(b)[k].0,
                authorization_used_event_srcs(b)[k].1,
            ),
        x2.usdc_authorization_useds@.len() == authorization_used_event_srcs(b).len(),
        forall|k: int|
            0 <= k < authorization_used_event_srcs(b).len() ==> authorization_used_event_rec_ok(
                #[trigger] x2.usdc_authorization_useds@[k],
                b,
                authorization_used_event_srcs(b)[k].0,
                authorization_used_event_srcs(b)[k].1,
            ),
        x1.usdc_blacklisteds@.len() == blacklisted_event_srcs(b).len(),
        forall|k: int|
            0 <= k < blacklisted_event_srcs(b).len() ==> blacklisted_event_rec_ok(
                #[trigger] x1.usdc_blacklisteds@[k],
                b,
                blacklisted_event_srcs(b)[k].0,
                blacklisted_event_srcs(b)[k].1,
            ),
        x2.usdc_blacklisteds@.len() == blacklisted_event_srcs(b).len(),
        forall|k: int|
            0 <= k < blacklisted_event_srcs(b).len() ==> blacklisted_event_rec_ok(
                #[trigger] x2.usdc_blacklisteds@[k],
                b,
                blacklisted_event_srcs(b)[k].0,
                blacklisted_event_srcs(b)[k].1,
            ),
        x1.usdc_blacklister_changeds@.len() == blacklister_changed_event_srcs(b).len(),
        forall|k: int|
            0 <= k < blacklister_changed_event_srcs(b).len() ==> blacklister_changed_event_rec_ok(
                #[trigger] x1.usdc_blacklister_changeds@[k],
                b,
                blacklister_changed_event_srcs(b)[k].0,
                blacklister_changed_event_srcs(b)[k].1,
            ),
        x2.usdc_blacklister_changeds@.len() == blacklister_changed_event_srcs(b).len(),
        forall|k: int|
            0 <= k < blacklister_changed_event_srcs(b).len() ==> blacklister_changed_event_rec_ok(
                #[trigger] x2.usdc_blacklister_changeds@[k],
                b,
                blacklister_changed_event_srcs(b)[k].0,
                blacklister_changed_event_srcs(b)[k].1,
            ),
        x1.usdc_burns@.len() == burn_event_srcs(b).len(),
        forall|k: int|
            0 <= k < burn_event_srcs(b).len() ==> burn_event_rec_ok(
                #[trigger] x1.usdc_burns@[k],
                b,
                burn_event_srcs(b)[k].0,
                burn_event_srcs(b)[k].1,
            ),
        x2.usdc_burns@.len() == burn_event_srcs(b).len(),
        forall|k: int|
            0 <= k < burn_event_srcs(b).len() ==> burn_event_rec_ok(
                #[trigger] x2.usdc_burns@[k],
                b,
                burn_event_srcs(b)[k].0,
                burn_event_srcs(b)[k].1,
            ),
        x1.usdc_master_minter_changeds@.len() == master_minter_changed_event_srcs(b).len(),
        forall|k: int|
            0 <= k < master_minter_changed_event_srcs(b).len() ==> master_minter_changed_event_rec_ok(
                #[trigger] x1.usdc_master_minter_changeds@[k],
                b,
                master_minter_changed_event_srcs(b)[k].0,
                master_minter_changed_event_srcs(b)[k].1,
            ),
        x2.usdc_master_minter_changeds@.len() == master_minter_changed_event_srcs(b).len(),
        forall|k: int|
            0 <= k < master_minter_changed_event_srcs(b).len() ==> master_minter_changed_event_rec_ok(
                #[trigger] x2.usdc_master_minter_changeds@[k],
                b,
                master_minter_changed_event_srcs(b)[k].0,
                master_minter_changed_event_srcs(b)[k].1,
            ),
        x1.usdc_mints@.len() == mint_event_srcs(b).len(),
        forall|k: int|
            0 <= k < mint_event_srcs(b).len() ==> mint_event_rec_ok(
                #[trigger] x1.usdc_mints@[k],
                b,
                mint_event_srcs(b)[k].0,
                mint_event_srcs(b)[k].1,
            ),
        x2.usdc_mints@.len() == mint_event_srcs(b).len(),
        forall|k: int|
            0 <= k < mint_event_srcs(b).len() ==> mint_event_rec_ok(
                #[trigger] x2.usdc_mints@[k],
                b,
                mint_event_srcs(b)[k].0,
                mint_event_srcs(b)[k].1,
            ),
        x1.usdc_minter_configureds@.len() == minter_configured_event_srcs(b).len(),
        forall|k: int|
            0 <= k < minter_configured_event_srcs(b).len() ==> minter_configured_event_rec_ok(
                #[trigger] x1.usdc_minter_configureds@[k],
                b,
                minter_configured_event_srcs(b)[k].0,
                minter_configured_event_srcs(b)[k].1,
            ),
        x2.usdc_minter_configureds@.len() == minter_configured_event_srcs(b).len(),
        forall|k: int|
            0 <= k < minter_configured_event_srcs(b).len() ==> minter_configured_event_rec_ok(
                #[trigger] x2.usdc_minter_configureds@[k],
                b,
                minter_configured_event_srcs(b)[k].0,
                minter_configured_event_srcs(b)[k].1,
            ),
        x1.usdc_minter_removeds@.len() == minter_removed_event_srcs(b).len(),
        forall|k: int|
            0 <= k < minter_removed_event_srcs(b).len() ==> minter_removed_event_rec_ok(
                #[trigger] x1.usdc_minter_removeds@[k],
                b,
                minter_removed_event_srcs(b)[k].0,
                minter_removed_event_srcs(b)[k].1,
            ),
        x2.usdc_minter_removeds@.len() == minter_removed_event_srcs(b).len(),
        forall|k: int|
            0 <= k < minter_removed_event_srcs(b).len() ==> minter_removed_event_rec_ok(
                #[trigger] x2.usdc_minter_removeds@[k],
                b,
                minter_removed_event_srcs(b)[k].0,
                minter_removed_event_srcs(b)[k].1,
            ),
        x1.usdc_ownership_transferreds@.len() == ownership_transferred_event_srcs(b).len(),
        forall|k: int|
            0 <= k < ownership_transferred_event_srcs(b).len() ==> ownership_transferred_event_rec_ok(
                #[trigger] x1.usdc_ownership_transferreds@[k],
                b,
                ownership_transferred_event_srcs(b)[k].0,
                ownership_transferred_event_srcs(b)[k].1,
            ),
        x2.usdc_ownership_transferreds@.len() == ownership_transferred_event_srcs(b).len(),
        forall|k: int|
            0 <= k < ownership_transferred_event_srcs(b).len() ==> ownership_transferred_event_rec_ok(
                #[trigger] x2.usdc_ownership_transferreds@[k],
                b,
                ownership_transferred_event_srcs(b)[k].0,
                ownership_transferred_event_srcs(b)[k].1,
            ),
        x1.usdc_pauses@.len() == pause_event_srcs(b).len(),
        forall|k: int|
            0 <= k < pause_event_srcs(b).len() ==> pause_event_rec_ok(
                #[trigger] x1.usdc_pauses@[k],
                b,
                pause_event_srcs(b)[k].0,
                pause_event_srcs(b)[k].1,
            ),
        x2.usdc_pauses@.len() == pause_event_srcs(b).len(),
        forall|k: int|
            0 <= k < pause_event_srcs(b).len() ==> pause_event_rec_ok(
                #[trigger] x2.usdc_pauses@[k],
                b,
                pause_event_srcs(b)[k].0,
                pause_event_srcs(b)[k].1,
            ),
        x1.usdc_pauser_changeds@.len() == pauser_changed_event_srcs(b).len(),
        forall|k: int|
            0 <= k < pauser_changed_event_srcs(b).len() ==> pauser_changed_event_rec_ok(
                #[trigger] x1.usdc_pauser_changeds@[k],
                b,
                pauser_changed_event_srcs(b)[k].0,
                pauser_changed_event_srcs(b)[k].1,
            ),
        x2.usdc_pauser_changeds@.len() == pauser_changed_event_srcs(b).len(),
        forall|k: int|
            0 <= k < pauser_changed_event_srcs(b).len() ==> pauser_changed_event_rec_ok(
                #[trigger] x2.usdc_pauser_changeds@[k],
                b,
                pauser_changed_event_srcs(b)[k].0,
                pauser_changed_event_srcs(b)[k].1,
            ),
        x1.usdc_rescuer_changeds@.len() == rescuer_changed_event_srcs(b).len(),
        forall|k: int|
            0 <= k < rescuer_changed_event_srcs(b).len() ==> rescuer_changed_event_rec_ok(
                #[trigger] x1.usdc_rescuer_changeds@[k],
                b,
                rescuer_changed_event_srcs(b)[k].0,
                rescuer_changed_event_srcs(b)[k].1,
            ),
        x2.usdc_rescuer_changeds@.len() == rescuer_changed_event_srcs(b).len(),
        forall|k: int|
            0 <= k < rescuer_changed_event_srcs(b).len() ==> rescuer_changed_event_rec_ok(
                #[trigger] x2.usdc_rescuer_changeds@[k],
                b,
                rescuer_changed_event_srcs(b)[k].0,
                rescuer_changed_event_srcs(b)[k].1,
            ),
        x1.usdc_transfers@.len() == transfer_event_srcs(b).len(),
        forall|k: int|
            0 <= k < transfer_event_srcs(b).len() ==> transfer_event_rec_ok(
                #[trigger] x1.usdc_transfers@[k],
                b,
                transfer_event_srcs(b)[k].0,
                transfer_event_srcs(b)[k].1,
            ),
        x2.usdc_transfers@.len() == transfer_event_srcs(b).len(),
        forall|k: int|
            0 <= k < transfer_event_srcs(b).len() ==> transfer_event_rec_ok(
                #[trigger] x2.usdc_transfers@[k],
                b,
                transfer_event_srcs(b)[k].0,
                transfer_event_srcs(b)[k].1,
            ),
        x1.usdc_un_blacklisteds@.len() == un_blacklisted_event_srcs(b).len(),
        forall|k: int|
            0 <= k < un_blacklisted_event_srcs(b).len() ==> un_blacklisted_event_rec_ok(
                #[trigger] x1.usdc_un_blacklisteds@[k],
                b,
                un_blacklisted_event_srcs(b)[k].0,
                un_blacklisted_event_srcs(b)[k].1,
            ),
        x2.usdc_un_blacklisteds@.len() == un_blacklisted_event_srcs(b).len(),
        forall|k: int|
            0 <= k < un_blacklisted_event_srcs(b).len() ==> un_blacklisted_event_rec_ok(
                #[trigger] x2.usdc_un_blacklisteds@[k],
                b,
                un_blacklisted_event_srcs(b)[k].0,
                un_blacklisted_event_srcs(b)[k].1,
            ),
        x1.usdc_unpauses@.len() == unpause_event_srcs(b).len(),
        forall|k: int|
            0 <= k < unpause_event_srcs(b).len() ==> unpause_event_rec_ok(
                #[trigger] x1.usdc_unpauses@[k],
                b,
                unpause_event_srcs(b)[k].0,
                unpause_event_srcs(b)[k].1,
            ),
        x2.usdc_unpauses@.len() == unpause_event_srcs(b).len(),
        forall|k: int|
            0 <= k < unpause_event_srcs(b).len() ==> unpause_event_rec_ok(
                #[trigger] x2.usdc_unpauses@[k],
                b,
                unpause_event_srcs(b)[k].0,
                unpause_event_srcs(b)[k].1,
            ),
        x1.usdc_upgradeds@.len() == upgraded_event_srcs(b).len(),
        forall|k: int|
            0 <= k < upgraded_event_srcs(b).len() ==> upgraded_event_rec_ok(
                #[trigger] x1.usdc_upgradeds@[k],
                b,
                upgraded_event_srcs(b)[k].0,
                upgraded_event_srcs(b)[k].1,
            ),
        x2.usdc_upgradeds@.len() == upgraded_event_srcs(b).len(),
        forall|k: int|
            0 <= k < upgraded_event_srcs(b).len() ==> upgraded_event_rec_ok(
                #[trigger] x2.usdc_upgradeds@[k],
                b,
                upgraded_event_srcs(b)[k].0,
                upgraded_event_srcs(b)[k].1,
            ),
    ensures
        forall|k: int|
            0 <= k < x1.usdc_admin_changeds@.len() ==> same_usdcadminchanged(#[trigger] x1.usdc_admin_changeds@[k], x2.usdc_admin_changeds@[k]),
        forall|k: int|
            0 <= k < x1.usdc_approvals@.len() ==> same_usdcapproval(#[trigger] x1.usdc_approvals@[k], x2.usdc_approvals@[k]),
        forall|k: int|
            0 <= k < x1.usdc_authorization_canceleds@.len() ==> same_usdcauthorizationcanceled(#[trigger] x1.usdc_authorization_canceleds@[k], x2.usdc_authorization_canceleds@[k]),
        forall|k: int|
            0 <= k < x1.usdc_authorization_useds@.len() ==> same_usdcauthorizationused(#[trigger] x1.usdc_authorization_useds@[k], x2.usdc_authorization_useds@[k]),
        forall|k: int|
            0 <= k < x1.usdc_blacklisteds@.len() ==> same_usdcblacklisted(#[trigger] x1.usdc_blacklisteds@[k], x2.usdc_blacklisteds@[k]),
        forall|k: int|
            0 <= k < x1.usdc_blacklister_changeds@.len() ==> same_usdcblacklisterchanged(#[trigger] x1.usdc_blacklister_changeds@[k], x2.usdc_blacklister_changeds@[k]),
        forall|k: int|
            0 <= k < x1.usdc_burns@.len() ==> same_usdcburn(#[trigger] x1.usdc_burns@[k], x2.usdc_burns@[k]),
        forall|k: int|
            0 <= k < x1.usdc_master_minter_changeds@.len() ==> same_usdcmasterminterchanged(#[trigger] x1.usdc_master_minter_changeds@[k], x2.usdc_master_minter_changeds@[k]),
        forall|k: int|
            0 <= k < x1.usdc_mints@.len() ==> same_usdcmint(#[trigger] x1.usdc_mints@[k], x2.usdc_mints@[k]),
        forall|k: int|
            0 <= k < x1.usdc_minter_configureds@.len() ==> same_usdcminterconfigured(#[trigger] x1.usdc_minter_configureds@[k], x2.usdc_minter_configureds@[k]),
        forall|k: int|
            0 <= k < x1.usdc_minter_removeds@.len() ==> same_usdcminterremoved(#[trigger] x1.usdc_minter_removeds@[k], x2.usdc_minter_removeds@[k]),
        forall|k: int|
            0 <= k < x1.usdc_ownership_transferreds@.len() ==> same_usdcownershiptransferred(#[trigger] x1.usdc_ownership_transferreds@[k], x2.usdc_ownership_transferreds@[k]),
        forall|k: int|
            0 <= k < x1.usdc_pauses@.len() ==> same_usdcpause(#[trigger] x1.usdc_pauses@[k], x2.usdc_pauses@[k]),
        forall|k: int|
            0 <= k < x1.usdc_pauser_changeds@.len() ==> same_usdcpauserchanged(#[trigger] x1.usdc_pauser_changeds@[k], x2.usdc_pauser_changeds@[k]),
        forall|k: int|
            0 <= k < x1.usdc_rescuer_changeds@.len() ==> same_usdcrescuerchanged(#[trigger] x1.usdc_rescuer_changeds@[k], x2.usdc_rescuer_changeds@[k]),
        forall|k: int|
            0 <= k < x1.usdc_transfers@.len() ==> same_usdctransfer(#[trigger] x1.usdc_transfers@[k], x2.usdc_transfers@[k]),
        forall|k: int|
            0 <= k < x1.usdc_un_blacklisteds@.len() ==> same_usdcunblacklisted(#[trigger] x1.usdc_un_blacklisteds@[k], x2.usdc_un_blacklisteds@[k]),
        forall|k: int|
            0 <= k < x1.usdc_unpauses@.len() ==> same_usdcunpause(#[trigger] x1.usdc_unpauses@[k], x2.usdc_unpauses@[k]),
        forall|k: int|
            0 <= k < x1.usdc_upgradeds@.len() ==> same_usdcupgraded(#[trigger] x1.usdc_upgradeds@[k], x2.usdc_upgradeds@[k]),
{
    assert forall|k: int| 0 <= k < x1.usdc_admin_changeds@.len() implies same_usdcadminchanged(
        #[trigger] x1.usdc_admin_changeds@[k],
        x2.usdc_admin_changeds@[k],
    ) by {
        assert(admin_changed_event_rec_ok(x1.usdc_admin_changeds@[k], b, admin_changed_event_srcs(b)[k].0, admin_changed_event_srcs(b)[k].1));
        assert(admin_changed_event_rec_ok(x2.usdc_admin_changeds@[k], b, admin_changed_event_srcs(b)[k].0, admin_changed_event_srcs(b)[k].1));
    }
    assert forall|k: int| 0 <= k < x1.usdc_approvals@.len() implies same_usdcapproval(
        #[trigger] x1.usdc_approvals@[k],
        x2.usdc_approvals@[k],
    ) by {
        assert(approval_event_rec_ok(x1.usdc_approvals@[k], b, approval_event_srcs(b)[k].0, approval_event_srcs(b)[k].1));
        assert(approval_event_rec_ok(x2.usdc_approvals@[k], b, approval_event_srcs(b)[k].0, approval_event_srcs(b)[k].1));
    }
    assert forall|k: int| 0 <= k < x1.usdc_authorization_canceleds@.len() implies same_usdcauthorizationcanceled(
        #[trigger] x1.usdc_authorization_canceleds@[k],
        x2.usdc_authorization_canceleds@[k],
    ) by {
        assert(authorization_canceled_event_rec_ok(x1.usdc_authorization_canceleds@[k], b, authorization_canceled_event_srcs(b)[k].0, authorization_canceled_event_srcs(b)[k].1));
        assert(authorization_canceled_event_rec_ok(x2.usdc_authorization_canceleds@[k], b, authorization_canceled_event_srcs(b)[k].0, authorization_canceled_event_srcs(b)[k].1));
    }
    assert forall|k: int| 0 <= k < x1.usdc_authorization_useds@.len() implies same_usdcauthorizationused(
        #[trigger] x1.usdc_authorization_useds@[k],
        x2.usdc_authorization_useds@[k],
    ) by {
        assert(authorization_used_event_rec_ok(x1.usdc_authorization_useds@[k], b, authorization_used_event_srcs(b)[k].0, authorization_used_event_srcs(b)[k].1));
        assert(authorization_used_event_rec_ok(x2.usdc_authorization_useds@[k], b, authorization_used_event_srcs(b)[k].0, authorization_used_event_srcs(b)[k].1));
    }
    assert forall|k: int| 0 <= k < x1.usdc_blacklisteds@.len() implies same_usdcblacklisted(
        #[trigger] x1.usdc_blacklisteds@[k],
        x2.usdc_blacklisteds@[k],
    ) by {
        assert(blacklisted_event_rec_ok(x1.usdc_blacklisteds@[k], b, blacklisted_event_srcs(b)[k].0, blacklisted_event_srcs(b)[k].1));
        assert(blacklisted_event_rec_ok(x2.usdc_blacklisteds@[k], b, blacklisted_event_srcs(b)[k].0, blacklisted_event_srcs(b)[k].1));
    }
    assert forall|k: int| 0 <= k < x1.usdc_blacklister_changeds@.len() implies same_usdcblacklisterchanged(
        #[trigger] x1.usdc_blacklister_changeds@[k],
        x2.usdc_blacklister_changeds@[k],
    ) by {
        assert(blacklister_changed_event_rec_ok(x1.usdc_blacklister_changeds@[k], b, blacklister_changed_event_srcs(b)[k].0, blacklister_changed_event_srcs(b)[k].1));
        assert(blacklister_changed_event_rec_ok(x2.usdc_blacklister_changeds@[k], b, blacklister_changed_event_srcs(b)[k].0, blacklister_changed_event_srcs(b)[k].1));
    }
    assert forall|k: int| 0 <= k < x1.usdc_burns@.len() implies same_usdcburn(
        #[trigger] x1.usdc_burns@[k],
        x2.usdc_burns@[k],
    ) by {
        assert(burn_event_rec_ok(x1.usdc_burns@[k], b, burn_event_srcs(b)[k].0, burn_event_srcs(b)[k].1));
        assert(burn_event_rec_ok(x2.usdc_burns@[k], b, burn_event_srcs(b)[k].0, burn_event_srcs(b)[k].1));
    }
    assert forall|k: int| 0 <= k < x1.usdc_master_minter_changeds@.len() implies same_usdcmasterminterchanged(
        #[trigger] x1.usdc_master_minter_changeds@[k],
        x2.usdc_master_minter_changeds@[k],
    ) by {
        assert(master_minter_changed_event_rec_ok(x1.usdc_master_minter_changeds@[k], b, master_minter_changed_event_srcs(b)[k].0, master_minter_changed_event_srcs(b)[k].1));
        assert(master_minter_changed_event_rec_ok(x2.usdc_master_minter_changeds@[k], b, master_minter_changed_event_srcs(b)[k].0, master_minter_changed_event_srcs(b)[k].1));
    }
    assert forall|k: int| 0 <= k < x1.usdc_mints@.len() implies same_usdcmint(
        #[trigger] x1.usdc_mints@[k],
        x2.usdc_mints@[k],
    ) by {
        assert(mint_event_rec_ok(x1.usdc_mints@[k], b, mint_event_srcs(b)[k].0, mint_event_srcs(b)[k].1));
        assert(mint_event_rec_ok(x2.usdc_mints@[k], b, mint_event_srcs(b)[k].0, mint_event_srcs(b)[k].1));
    }
    assert forall|k: int| 0 <= k < x1.usdc_minter_configureds@.len() implies same_usdcminterconfigured(
        #[trigger] x1.usdc_minter_configureds@[k],
        x2.usdc_minter_configureds@[k],
    ) by {
        assert(minter_configured_event_rec_ok(x1.usdc_minter_configureds@[k], b, minter_configured_event_srcs(b)[k].0, minter_configured_event_srcs(b)[k].1));
        assert(minter_configured_event_rec_ok(x2.usdc_minter_configureds@[k], b, minter_configured_event_srcs(b)[k].0, minter_configured_event_srcs(b)[k].1));
    }
    assert forall|k: int| 0 <= k < x1.usdc_minter_removeds@.len() implies same_usdcminterremoved(
        #[trigger] x1.usdc_minter_removeds@[k],
        x2.usdc_minter_removeds@[k],
    ) by {
        assert(minter_removed_event_rec_ok(x1.usdc_minter_removeds@[k], b, minter_removed_event_srcs(b)[k].0, minter_removed_event_srcs(b)[k].1));
        assert(minter_removed_event_rec_ok(x2.usdc_minter_removeds@[k], b, minter_removed_event_srcs(b)[k].0, minter_removed_event_srcs(b)[k].1));
    }
    assert forall|k: int| 0 <= k < x1.usdc_ownership_transferreds@.len() implies same_usdcownershiptransferred(
        #[trigger] x1.usdc_ownership_transferreds@[k],
        x2.usdc_ownership_transferreds@[k],
    ) by {
        assert(ownership_transferred_event_rec_ok(x1.usdc_ownership_transferreds@[k], b, ownership_transferred_event_srcs(b)[k].0, ownership_transferred_event_srcs(b)[k].1));
        assert(ownership_transferred_event_rec_ok(x2.usdc_ownership_transferreds@[k], b, ownership_transferred_event_srcs(b)[k].0, ownership_transferred_event_srcs(b)[k].1));
    }
    assert forall|k: int| 0 <= k < x1.usdc_pauses@.len() implies same_usdcpause(
        #[trigger] x1.usdc_pauses@[k],
        x2.usdc_pauses@[k],
    ) by {
        assert(pause_event_rec_ok(x1.usdc_pauses@[k], b, pause_event_srcs(b)[k].0, pause_event_srcs(b)[k].1));
        assert(pause_event_rec_ok(x2.usdc_pauses@[k], b, pause_event_srcs(b)[k].0, pause_event_srcs(b)[k].1));
    }
    assert forall|k: int| 0 <= k < x1.usdc_pauser_changeds@.len() implies same_usdcpauserchanged(
        #[trigger] x1.usdc_pauser_changeds@[k],
        x2.usdc_pauser_changeds@[k],
    ) by {
        assert(pauser_changed_event_rec_ok(x1.usdc_pauser_changeds@[k], b, pauser_changed_event_srcs(b)[k].0, pauser_changed_event_srcs(b)[k].1));
        assert(pauser_changed_event_rec_ok(x2.usdc_pauser_changeds@[k], b, pauser_changed_event_srcs(b)[k].0, pauser_changed_event_srcs(b)[k].1));
    }
    assert forall|k: int| 0 <= k < x1.usdc_rescuer_changeds@.len() implies same_usdcrescuerchanged(
        #[trigger] x1.usdc_rescuer_changeds@[k],
        x2.usdc_rescuer_changeds@[k],
    ) by {
        assert(rescuer_changed_event_rec_ok(x1.usdc_rescuer_changeds@[k], b, rescuer_changed_event_srcs(b)[k].0, rescuer_changed_event_srcs(b)[k].1));
        assert(rescuer_changed_event_rec_ok(x2.usdc_rescuer_changeds@[k], b, rescuer_changed_event_srcs(b)[k].0, rescuer_changed_event_srcs(b)[k].1));
    }
    assert forall|k: int| 0 <= k < x1.usdc_transfers@.len() implies same_usdctransfer(
        #[trigger] x1.usdc_transfers@[k],
        x2.usdc_transfers@[k],
    ) by {
        assert(transfer_event_rec_ok(x1.usdc_transfers@[k], b, transfer_event_srcs(b)[k].0, transfer_event_srcs(b)[k].1));
        assert(transfer_event_rec_ok(x2.usdc_transfers@[k], b, transfer_event_srcs(b)[k].0, transfer_event_srcs(b)[k].1));
    }
    assert forall|k: int| 0 <= k < x1.usdc_un_blacklisteds@.len() implies same_usdcunblacklisted(
        #[trigger] x1.usdc_un_blacklisteds@[k],
        x2.usdc_un_blacklisteds@[k],
    ) by {
        assert(un_blacklisted_event_rec_ok(x1.usdc_un_blacklisteds@[k], b, un_blacklisted_event_srcs(b)[k].0, un_blacklisted_event_srcs(b)[k].1));
        assert(un_blacklisted_event_rec_ok(x2.usdc_un_blacklisteds@[k], b, un_blacklisted_event_srcs(b)[k].0, un_blacklisted_event_srcs(b)[k].1));
    }
    assert forall|k: int| 0 <= k < x1.usdc_unpauses@.len() implies same_usdcunpause(
        #[trigger] x1.usdc_unpauses@[k],
        x2.usdc_unpauses@[k],
    ) by {
        assert(unpause_event_rec_ok(x1.usdc_unpauses@[k], b, unpause_event_srcs(b)[k].0, unpause_event_srcs(b)[k].1));
        assert(unpause_event_rec_ok(x2.usdc_unpauses@[k], b, unpause_event_srcs(b)[k].0, unpause_event_srcs(b)[k].1));
    }
    assert forall|k: int| 0 <= k < x1.usdc_upgradeds@.len() implies same_usdcupgraded(
        #[trigger] x1.usdc_upgradeds@[k],
        x2.usdc_upgradeds@[k],
    ) by {
        assert(upgraded_event_rec_ok(x1.usdc_upgradeds@[k], b, upgraded_event_srcs(b)[k].0, upgraded_event_srcs(b)[k].1));
        assert(upgraded_event_rec_ok(x2.usdc_upgradeds@[k], b, upgraded_event_srcs(b)[k].0, upgraded_event_srcs(b)[k].1));
    }
}

/// Projection is a function of the block alone: two containers that both
/// satisfy the projector contract for one block hold byte-identical
/// batches, record for record.
pub proof fn lemma_calls_deterministic(b: Block, x1: Calls, x2: Calls)
    requires
        x1.usdc_call_approves@.len() == approve_call_srcs(b).len(),
        forall|k: int|
            0 <= k < approve_call_srcs(b).len() ==> approve_call_rec_ok(
                #[trigger] x1.usdc_call_approves@[k],
                b,
                approve_call_srcs(b)[k].0,
                approve_call_srcs(b)[k].1,
            ),
        x2.usdc_call_approves@.len() == approve_call_srcs(b).len(),
        forall|k: int|
            0 <= k < approve_call_srcs(b).len() ==> approve_call_rec_ok(
                #[trigger] x2.usdc_call_approves@[k],
                b,
                approve_call_srcs(b)[k].0,
                approve_call_srcs(b)[k].1,
            ),
        x1.usdc_call_blacklists@.len() == blacklist_call_srcs(b).len(),
        forall|k: int|
            0 <= k < blacklist_call_srcs(b).len() ==> blacklist_call_rec_ok(
                #[trigger] x1.usdc_call_blacklists@[k],
                b,
                blacklist_call_srcs(b)[k].0,
                blacklist_call_srcs(b)[k].1,
            ),
        x2.usdc_call_blacklists@.len() == blacklist_call_srcs(b).len(),
        forall|k: int|
            0 <= k < blacklist_call_srcs(b).len() ==> blacklist_call_rec_ok(
                #[trigger] x2.usdc_call_blacklists@[k],
                b,
                blacklist_call_srcs(b)[k].0,
                blacklist_call_srcs(b)[k].1,
            ),
        x1.usdc_call_burns@.len() == burn_call_srcs(b).len(),
        forall|k: int|
            0 <= k < burn_call_srcs(b).len() ==> burn_call_rec_ok(
                #[trigger] x1.usdc_call_burns@[k],
                b,
                burn_call_srcs(b)[k].0,
                burn_call_srcs(b)[k].1,
            ),
        x2.usdc_call_burns@.len() == burn_call_srcs(b).len(),
        forall|k: int|
            0 <= k < burn_call_srcs(b).len() ==> burn_call_rec_ok(
                #[trigger] x2.usdc_call_burns@[k],
                b,
                burn_call_srcs(b)[k].0,
                burn_call_srcs(b)[k].1,
            ),
        x1.usdc_call_cancel_authorization_1s@.len() == cancel_authorization_1_call_srcs(b).len(),
        forall|k: int|
            0 <= k < cancel_authorization_1_call_srcs(b).len() ==> cancel_authorization_1_call_rec_ok(
                #[trigger] x1.usdc_call_cancel_authorization_1s@[k],
                b,
                cancel_authorization_1_call_srcs(b)[k].0,
                cancel_authorization_1_call_srcs(b)[k].1,
            ),
        x2.usdc_call_cancel_authorization_1s@.len() == cancel_authorization_1_call_srcs(b).len(),
        forall|k: int|
            0 <= k < cancel_authorization_1_call_srcs(b).len() ==> cancel_authorization_1_call_rec_ok(
                #[trigger] x2.usdc_call_cancel_authorization_1s@[k],
                b,
                cancel_authorization_1_call_srcs(b)[k].0,
                cancel_authorization_1_call_srcs(b)[k].1,
            ),
        x1.usdc_call_cancel_authorization_2s@.len() == cancel_authorization_2_call_srcs(b).len(),
        forall|k: int|
            0 <= k < cancel_authorization_2_call_srcs(b).len() ==> cancel_authorization_2_call_rec_ok(
                #[trigger] x1.usdc_call_cancel_authorization_2s@[k],
                b,
                cancel_authorization_2_call_srcs(b)[k].0,
                cancel_authorization_2_call_srcs(b)[k].1,
            ),
        x2.usdc_call_cancel_authorization_2s@.len() == cancel_authorization_2_call_srcs(b).len(),
        forall|k: int|
            0 <= k < cancel_authorization_2_call_srcs(b).len() ==> cancel_authorization_2_call_rec_ok(
                #[trigger] x2.usdc_call_cancel_authorization_2s@[k],
                b,
                cancel_authorization_2_call_srcs(b)[k].0,
                cancel_authorization_2_call_srcs(b)[k].1,
            ),
        x1.usdc_call_change_admins@.len() == change_admin_call_srcs(b).len(),
        forall|k: int|
            0 <= k < change_admin_call_srcs(b).len() ==> change_admin_call_rec_ok(
                #[trigger] x1.usdc_call_change_admins@[k],
                b,
                change_admin_call_srcs(b)[k].0,
                change_admin_call_srcs(b)[k].1,
            ),
        x2.usdc_call_change_admins@.len() == change_admin_call_srcs(b).len(),
        forall|k: int|
            0 <= k < change_admin_call_srcs(b).len() ==> change_admin_call_rec_ok(
                #[trigger] x2.usdc_call_change_admins@[k],
                b,
                change_admin_call_srcs(b)[k].0,
                change_admin_call_srcs(b)[k].1,
            ),
        x1.usdc_call_configure_minters@.len() == configure_minter_call_srcs(b).len(),
        forall|k: int|
            0 <= k < configure_minter_call_srcs(b).len() ==> configure_minter_call_rec_ok(
                #[trigger] x1.usdc_call_configure_minters@[k],
                b,
                configure_minter_call_srcs(b)[k].0,
                configure_minter_call_srcs(b)[k].1,
            ),
        x2.usdc_call_configure_minters@.len() == configure_minter_call_srcs(b).len(),
        forall|k: int|
            0 <= k < configure_minter_call_srcs(b).len() ==> configure_minter_call_rec_ok(
                #[trigger] x2.usdc_call_configure_minters@[k],
                b,
                configure_minter_call_srcs(b)[k].0,
                configure_minter_call_srcs(b)[k].1,
            ),
        x1.usdc_call_decrease_allowances@.len() == decrease_allowance_call_srcs(b).len(),
        forall|k: int|
            0 <= k < decrease_allowance_call_srcs(b).len() ==> decrease_allowance_call_rec_ok(
                #[trigger] x1.usdc_call_decrease_allowances@[k],
                b,
                decrease_allowance_call_srcs(b)[k].0,
                decrease_allowance_call_srcs(b)[k].1,
            ),
        x2.usdc_call_decrease_allowances@.len() == decrease_allowance_call_srcs(b).len(),
        forall|k: int|
            0 <= k < decrease_allowance_call_srcs(b).len() ==> decrease_allowance_call_rec_ok(
                #[trigger] x2.usdc_call_decrease_allowances@[k],
                b,
                decrease_allowance_call_srcs(b)[k].0,
                decrease_allowance_call_srcs(b)[k].1,
            ),
        x1.usdc_call_increase_allowances@.len() == increase_allowance_call_srcs(b).len(),
        forall|k: int|
            0 <= k < increase_allowance_call_srcs(b).len() ==> increase_allowance_call_rec_ok(
                #[trigger] x1.usdc_call_increase_allowances@[k],
                b,
                increase_allowance_call_srcs(b)[k].0,
                increase_allowance_call_srcs(b)[k].1,
            ),
        x2.usdc_call_increase_allowances@.len() == increase_allowance_call_srcs(b).len(),
        forall|k: int|
            0 <= k < increase_allowance_call_srcs(b).len() ==> increase_allowance_call_rec_ok(
                #[trigger] x2.usdc_call_increase_allowances@[k],
                b,
                increase_allowance_call_srcs(b)[k].0,
                increase_allowance_call_srcs(b)[k].1,
            ),
        x1.usdc_call_initializes@.len() == initialize_call_srcs(b).len(),
        forall|k: int|
            0 <= k < initialize_call_srcs(b).len() ==> initialize_call_rec_ok(
                #[trigger] x1.usdc_call_initializes@[k],
                b,
                initialize_call_srcs(b)[k].0,
                initialize_call_srcs(b)[k].1,
            ),
        x2.usdc_call_initializes@.len() == initialize_call_srcs(b).len(),
        forall|k: int|
            0 <= k < initialize_call_srcs(b).len() ==> initialize_call_rec_ok(
                #[trigger] x2.usdc_call_initializes@[k],
                b,
                initialize_call_srcs(b)[k].0,
                initialize_call_srcs(b)[k].1,
            ),
        x1.usdc_call_initialize_v_2s@.len() == initialize_v2_call_srcs(b).len(),
        forall|k: int|
            0 <= k < initialize_v2_call_srcs(b).len() ==> initialize_v2_call_rec_ok(
                #[trigger] x1.usdc_call_initialize_v_2s@[k],
                b,
                initialize_v2_call_srcs(b)[k].0,
                initialize_v2_call_srcs(b)[k].1,
            ),
        x2.usdc_call_initialize_v_2s@.len() == initialize_v2_call_srcs(b).len(),
        forall|k: int|
            0 <= k < initialize_v2_call_srcs(b).len() ==> initialize_v2_call_rec_ok(
                #[trigger] x2.usdc_call_initialize_v_2s@[k],
                b,
                initialize_v2_call_srcs(b)[k].0,
                initialize_v2_call_srcs(b)[k].1,
            ),
        x1.usdc_call_initialize_v2_1s@.len() == initialize_v2_1_call_srcs(b).len(),
        forall|k: int|
            0 <= k < initialize_v2_1_call_srcs(b).len() ==> initialize_v2_1_call_rec_ok(
                #[trigger] x1.usdc_call_initialize_v2_1s@[k],
                b,
                initialize_v2_1_call_srcs(b)[k].0,
                initialize_v2_1_call_srcs(b)[k].1,
            ),
        x2.usdc_call_initialize_v2_1s@.len() == initialize_v2_1_call_srcs(b).len(),
        forall|k: int|
            0 <= k < initialize_v2_1_call_srcs(b).len() ==> initialize_v2_1_call_rec_ok(
                #[trigger] x2.usdc_call_initialize_v2_1s@[k],
                b,
                initialize_v2_1_call_srcs(b)[k].0,
                initialize_v2_1_call_srcs(b)[k].1,
            ),
        x1.usdc_call_initialize_v2_2s@.len() == initialize_v2_2_call_srcs(b).len(),
        forall|k: int|
            0 <= k < initialize_v2_2_call_srcs(b).len() ==> initialize_v2_2_call_rec_ok(
                #[trigger] x1.usdc_call_initialize_v2_2s@[k],
                b,
                initialize_v2_2_call_srcs(b)[k].0,
                initialize_v2_2_call_srcs(b)[k].1,
            ),
        x2.usdc_call_initialize_v2_2s@.len() == initialize_v2_2_call_srcs(b).len(),
        forall|k: int|
            0 <= k < initialize_v2_2_call_srcs(b).len() ==> initialize_v2_2_call_rec_ok(
                #[trigger] x2.usdc_call_initialize_v2_2s@[k],
                b,
                initialize_v2_2_call_srcs(b)[k].0,
                initialize_v2_2_call_srcs(b)[k].1,
            ),
        x1.usdc_call_mints@.len() == mint_call_srcs(b).len(),
        forall|k: int|
            0 <= k < mint_call_srcs(b).len() ==> mint_call_rec_ok(
                #[trigger] x1.usdc_call_mints@[k],
                b,
                mint_call_srcs(b)[k].0,
                mint_call_srcs(b)[k].1,
            ),
        x2.usdc_call_mints@.len() == mint_call_srcs(b).len(),
        forall|k: int|
            0 <= k < mint_call_srcs(b).len() ==> mint_call_rec_ok(
                #[trigger] x2.usdc_call_mints@[k],
                b,
                mint_call_srcs(b)[k].0,
                mint_call_srcs(b)[k].1,
            ),
        x1.usdc_call_pauses@.len() == pause_call_srcs(b).len(),
        forall|k: int|
            0 <= k < pause_call_srcs(b).len() ==> pause_call_rec_ok(
                #[trigger] x1.usdc_call_pauses@[k],
                b,
                pause_call_srcs(b)[k].0,
                pause_call_srcs(b)[k].1,
            ),
        x2.usdc_call_pauses@.len() == pause_call_srcs(b).len(),
        forall|k: int|
            0 <= k < pause_call_srcs(b).len() ==> pause_call_rec_ok(
                #[trigger] x2.usdc_call_pauses@[k],
                b,
                pause_call_srcs(b)[k].0,
                pause_call_srcs(b)[k].1,
            ),
        x1.usdc_call_permit_1s@.len() == permit_1_call_srcs(b).len(),
        forall|k: int|
            0 <= k < permit_1_call_srcs(b).len() ==> permit_1_call_rec_ok(
                #[trigger] x1.usdc_call_permit_1s@[k],
                b,
                permit_1_call_srcs(b)[k].0,
                permit_1_call_srcs(b)[k].1,
            ),
        x2.usdc_call_permit_1s@.len() == permit_1_call_srcs(b).len(),
        forall|k: int|
            0 <= k < permit_1_call_srcs(b).len() ==> permit_1_call_rec_ok(
                #[trigger] x2.usdc_call_permit_1s@[k],
                b,
                permit_1_call_srcs(b)[k].0,
                permit_1_call_srcs(b)[k].1,
            ),
        x1.usdc_call_permit_2s@.len() == permit_2_call_srcs(b).len(),
        forall|k: int|
            0 <= k < permit_2_call_srcs(b).len() ==> permit_2_call_rec_ok(
                #[trigger] x1.usdc_call_permit_2s@[k],
                b,
                permit_2_call_srcs(b)[k].0,
                permit_2_call_srcs(b)[k].1,
            ),
        x2.usdc_call_permit_2s@.len() == permit_2_call_srcs(b).len(),
        forall|k: int|
            0 <= k < permit_2_call_srcs(b).len() ==> permit_2_call_rec_ok(
                #[trigger] x2.usdc_call_permit_2s@[k],
                b,
                permit_2_call_srcs(b)[k].0,
                permit_2_call_srcs(b)[k].1,
            ),
        x1.usdc_call_receive_with_authorization_1s@.len() == receive_with_authorization_1_call_srcs(b).len(),
        forall|k: int|
            0 <= k < receive_with_authorization_1_call_srcs(b).len() ==> receive_with_authorization_1_call_rec_ok(
                #[trigger] x1.usdc_call_receive_with_authorization_1s@[k],
                b,
                receive_with_authorization_1_call_srcs(b)[k].0,
                receive_with_authorization_1_call_srcs(b)[k].1,
            ),
        x2.usdc_call_receive_with_authorization_1s@.len() == receive_with_authorization_1_call_srcs(b).len(),
        forall|k: int|
            0 <= k < receive_with_authorization_1_call_srcs(b).len() ==> receive_with_authorization_1_call_rec_ok(
                #[trigger] x2.usdc_call_receive_with_authorization_1s@[k],
                b,
                receive_with_authorization_1_call_srcs(b)[k].0,
                receive_with_authorization_1_call_srcs(b)[k].1,
            ),
        x1.usdc_call_receive_with_authorization_2s@.len() == receive_with_authorization_2_call_srcs(b).len(),
        forall|k: int|
            0 <= k < receive_with_authorization_2_call_srcs(b).len() ==> receive_with_authorization_2_call_rec_ok(
                #[trigger] x1.usdc_call_receive_with_authorization_2s@[k],
                b,
                receive_with_authorization_2_call_srcs(b)[k].0,
                receive_with_authorization_2_call_srcs(b)[k].1,
            ),
        x2.usdc_call_receive_with_authorization_2s@.len() == receive_with_authorization_2_call_srcs(b).len(),
        forall|k: int|
            0 <= k < receive_with_authorization_2_call_srcs(b).len() ==> receive_with_authorization_2_call_rec_ok(
                #[trigger] x2.usdc_call_receive_with_authorization_2s@[k],
                b,
                receive_with_authorization_2_call_srcs(b)[k].0,
                receive_with_authorization_2_call_srcs(b)[k].1,
            ),
        x1.usdc_call_remove_minters@.len() == remove_minter_call_srcs(b).len(),
        forall|k: int|
            0 <= k < remove_minter_call_srcs(b).len() ==> remove_minter_call_rec_ok(
                #[trigger] x1.usdc_call_remove_minters@[k],
                b,
                remove_minter_call_srcs(b)[k].0,
                remove_minter_call_srcs(b)[k].1,
            ),
        x2.usdc_call_remove_minters@.len() == remove_minter_call_srcs(b).len(),
        forall|k: int|
            0 <= k < remove_minter_call_srcs(b).len() ==> remove_minter_call_rec_ok(
                #[trigger] x2.usdc_call_remove_minters@[k],
                b,
                remove_minter_call_srcs(b)[k].0,
                remove_minter_call_srcs(b)[k].1,
            ),
        x1.usdc_call_rescue_erc_20s@.len() == rescue_erc20_call_srcs(b).len(),
        forall|k: int|
            0 <= k < rescue_erc20_call_srcs(b).len() ==> rescue_erc20_call_rec_ok(
                #[trigger] x1.usdc_call_rescue_erc_20s@[k],
                b,
                rescue_erc20_call_srcs(b)[k].0,
                rescue_erc20_call_srcs(b)[k].1,
            ),
        x2.usdc_call_rescue_erc_20s@.len() == rescue_erc20_call_srcs(b).len(),
        forall|k: int|
            0 <= k < rescue_erc20_call_srcs(b).len() ==> rescue_erc20_call_rec_ok(
                #[trigger] x2.usdc_call_rescue_erc_20s@[k],
                b,
                rescue_erc20_call_srcs(b)[k].0,
                rescue_erc20_call_srcs(b)[k].1,
            ),
        x1.usdc_call_transfers@.len() == transfer_call_srcs(b).len(),
        forall|k: int|
            0 <= k < transfer_call_srcs(b).len() ==> transfer_call_rec_ok(
                #[trigger] x1.usdc_call_transfers@[k],
                b,
                transfer_call_srcs(b)[k].0,
                transfer_call_srcs(b)[k].1,
            ),
        x2.usdc_call_transfers@.len() == transfer_call_srcs(b).len(),
        forall|k: int|
            0 <= k < transfer_call_srcs(b).len() ==> transfer_call_rec_ok(
                #[trigger] x2.usdc_call_transfers@[k],
                b,
                transfer_call_srcs(b)[k].0,
                transfer_call_srcs(b)[k].1,
            ),
        x1.usdc_call_transfer_froms@.len() == transfer_from_call_srcs(b).len(),
        forall|k: int|
            0 <= k < transfer_from_call_srcs(b).len() ==> transfer_from_call_rec_ok(
                #[trigger] x1.usdc_call_transfer_froms@[k],
                b,
                transfer_from_call_srcs(b)[k].0,
                transfer_from_call_srcs(b)[k].1,
            ),
        x2.usdc_call_transfer_froms@.len() == transfer_from_call_srcs(b).len(),
        forall|k: int|
            0 <= k < transfer_from_call_srcs(b).len() ==> transfer_from_call_rec_ok(
                #[trigger] x2.usdc_call_transfer_froms@[k],
                b,
                transfer_from_call_srcs(b)[k].0,
                transfer_from_call_srcs(b)[k].1,
            ),
        x1.usdc_call_transfer_ownerships@.len() == transfer_ownership_call_srcs(b).len(),
        forall|k: int|
            0 <= k < transfer_ownership_call_srcs(b).len() ==> transfer_ownership_call_rec_ok(
                #[trigger] x1.usdc_call_transfer_ownerships@[k],
                b,
                transfer_ownership_call_srcs(b)[k].0,
                transfer_ownership_call_srcs(b)[k].1,
            ),
        x2.usdc_call_transfer_ownerships@.len() == transfer_ownership_call_srcs(b).len(),
        forall|k: int|
            0 <= k < transfer_ownership_call_srcs(b).len() ==> transfer_ownership_call_rec_ok(
                #[trigger] x2.usdc_call_transfer_ownerships@[k],
                b,
                transfer_ownership_call_srcs(b)[k].0,
                transfer_ownership_call_srcs(b)[k].1,
            ),
        x1.usdc_call_transfer_with_authorization_1s@.len() == transfer_with_authorization_1_call_srcs(b).len(),
        forall|k: int|
            0 <= k < transfer_with_authorization_1_call_srcs(b).len() ==> transfer_with_authorization_1_call_rec_ok(
                #[trigger] x1.usdc_call_transfer_with_authorization_1s@[k],
                b,
                transfer_with_authorization_1_call_srcs(b)[k].0,
                transfer_with_authorization_1_call_srcs(b)[k].1,
            ),
        x2.usdc_call_transfer_with_authorization_1s@.len() == transfer_with_authorization_1_call_srcs(b).len(),
        forall|k: int|
            0 <= k < transfer_with_authorization_1_call_srcs(b).len() ==> transfer_with_authorization_1_call_rec_ok(
                #[trigger] x2.usdc_call_transfer_with_authorization_1s@[k],
                b,
                transfer_with_authorization_1_call_srcs(b)[k].0,
                transfer_with_authorization_1_call_srcs(b)[k].1,
            ),
        x1.usdc_call_transfer_with_authorization_2s@.len() == transfer_with_authorization_2_call_srcs(b).len(),
        forall|k: int|
            0 <= k < transfer_with_authorization_2_call_srcs(b).len() ==> transfer_with_authorization_2_call_rec_ok(
                #[trigger] x1.usdc_call_transfer_with_authorization_2s@[k],
                b,
                transfer_with_authorization_2_call_srcs(b)[k].0,
                transfer_with_authorization_2_call_srcs(b)[k].1,
            ),
        x2.usdc_call_transfer_with_authorization_2s@.len() == transfer_with_authorization_2_call_srcs(b).len(),
        forall|k: int|
            0 <= k < transfer_with_authorization_2_call_srcs(b).len() ==> transfer_with_authorization_2_call_rec_ok(
                #[trigger] x2.usdc_call_transfer_with_authorization_2s@[k],
                b,
                transfer_with_authorization_2_call_srcs(b)[k].0,
                transfer_with_authorization_2_call_srcs(b)[k].1,
            ),
        x1.usdc_call_un_blacklists@.len() == un_blacklist_call_srcs(b).len(),
        forall|k: int|
            0 <= k < un_blacklist_call_srcs(b).len() ==> un_blacklist_call_rec_ok(
                #[trigger] x1.usdc_call_un_blacklists@[k],
                b,
                un_blacklist_call_srcs(b)[k].0,
                un_blacklist_call_srcs(b)[k].1,
            ),
        x2.usdc_call_un_blacklists@.len() == un_blacklist_call_srcs(b).len(),
        forall|k: int|
            0 <= k < un_blacklist_call_srcs(b).len() ==> un_blacklist_call_rec_ok(
                #[trigger] x2.usdc_call_un_blacklists@[k],
                b,
                un_blacklist_call_srcs(b)[k].0,
                un_blacklist_call_srcs(b)[k].1,
            ),
        x1.usdc_call_unpauses@.len() == unpause_call_srcs(b).len(),
        forall|k: int|
            0 <= k < unpause_call_srcs(b).len() ==> unpause_call_rec_ok(
                #[trigger] x1.usdc_call_unpauses@[k],
                b,
                unpause_call_srcs(b)[k].0,
                unpause_call_srcs(b)[k].1,
            ),
        x2.usdc_call_unpauses@.len() == unpause_call_srcs(b).len(),
        forall|k: int|
            0 <= k < unpause_call_srcs(b).len() ==> unpause_call_rec_ok(
                #[trigger] x2.usdc_call_unpauses@[k],
                b,
                unpause_call_srcs(b)[k].0,
                unpause_call_srcs(b)[k].1,
            ),
        x1.usdc_call_update_blacklisters@.len() == update_blacklister_call_srcs(b).len(),
        forall|k: int|
            0 <= k < update_blacklister_call_srcs(b).len() ==> update_blacklister_call_rec_ok(
                #[trigger] x1.usdc_call_update_blacklisters@[k],
                b,
                update_blacklister_call_srcs(b)[k].0,
                update_blacklister_call_srcs(b)[k].1,
            ),
        x2.usdc_call_update_blacklisters@.len() == update_blacklister_call_srcs(b).len(),
        forall|k: int|
            0 <= k < update_blacklister_call_srcs(b).len() ==> update_blacklister_call_rec_ok(
                #[trigger] x2.usdc_call_update_blacklisters@[k],
                b,
                update_blacklister_call_srcs(b)[k].0,
                update_blacklister_call_srcs(b)[k].1,
            ),
        x1.usdc_call_update_master_minters@.len() == update_master_minter_call_srcs(b).len(),
        forall|k: int|
            0 <= k < update_master_minter_call_srcs(b).len() ==> update_master_minter_call_rec_ok(
                #[trigger] x1.usdc_call_update_master_minters@[k],
                b,
                update_master_minter_call_srcs(b)[k].0,
                update_master_minter_call_srcs(b)[k].1,
            ),
        x2.usdc_call_update_master_minters@.len() == update_master_minter_call_srcs(b).len(),
        forall|k: int|
            0 <= k < update_master_minter_call_srcs(b).len() ==> update_master_minter_call_rec_ok(
                #[trigger] x2.usdc_call_update_master_minters@[k],
                b,
                update_master_minter_call_srcs(b)[k].0,
                update_master_minter_call_srcs(b)[k].1,
            ),
        x1.usdc_call_update_pausers@.len() == update_pauser_call_srcs(b).len(),
        forall|k: int|
            0 <= k < update_pauser_call_srcs(b).len() ==> update_pauser_call_rec_ok(
                #[trigger] x1.usdc_call_update_pausers@[k],
                b,
                update_pauser_call_srcs(b)[k].0,
                update_pauser_call_srcs(b)[k].1,
            ),
        x2.usdc_call_update_pausers@.len() == update_pauser_call_srcs(b).len(),
        forall|k: int|
            0 <= k < update_pauser_call_srcs(b).len() ==> update_pauser_call_rec_ok(
                #[trigger] x2.usdc_call_update_pausers@[k],
                b,
                update_pauser_call_srcs(b)[k].0,
                update_pauser_call_srcs(b)[k].1,
            ),
        x1.usdc_call_update_rescuers@.len() == update_rescuer_call_srcs(b).len(),
        forall|k: int|
            0 <= k < update_rescuer_call_srcs(b).len() ==> update_rescuer_call_rec_ok(
                #[trigger] x1.usdc_call_update_rescuers@[k],
                b,
                update_rescuer_call_srcs(b)[k].0,
                update_rescuer_call_srcs(b)[k].1,
            ),
        x2.usdc_call_update_rescuers@.len() == update_rescuer_call_srcs(b).len(),
        forall|k: int|
            0 <= k < update_rescuer_call_srcs(b).len() ==> update_rescuer_call_rec_ok(
                #[trigger] x2.usdc_call_update_rescuers@[k],
                b,
                update_rescuer_call_srcs(b)[k].0,
                update_rescuer_call_srcs(b)[k].1,
            ),
        x1.usdc_call_upgrade_tos@.len() == upgrade_to_call_srcs(b).len(),
        forall|k: int|
            0 <= k < upgrade_to_call_srcs(b).len() ==> upgrade_to_call_rec_ok(
                #[trigger] x1.usdc_call_upgrade_tos@[k],
                b,
                upgrade_to_call_srcs(b)[k].0,
                upgrade_to_call_srcs(b)[k].1,
            ),
        x2.usdc_call_upgrade_tos@.len() == upgrade_to_call_srcs(b).len(),
        forall|k: int|
            0 <= k < upgrade_to_call_srcs(b).len() ==> upgrade_to_call_rec_ok(
                #[trigger] x2.usdc_call_upgrade_tos@[k],
                b,
                upgrade_to_call_srcs(b)[k].0,
                upgrade_to_call_srcs(b)[k].1,
            ),
        x1.usdc_call_upgrade_to_and_calls@.len() == upgrade_to_and_call_call_srcs(b).len(),
        forall|k: int|
            0 <= k < upgrade_to_and_call_call_srcs(b).len() ==> upgrade_to_and_call_call_rec_ok(
                #[trigger] x1.usdc_call_upgrade_to_and_calls@[k],
                b,
                upgrade_to_and_call_call_srcs(b)[k].0,
                upgrade_to_and_call_call_srcs(b)[k].1,
            ),
        x2.usdc_call_upgrade_to_and_calls@.len() == upgrade_to_and_call_call_srcs(b).len(),
        forall|k: int|
            0 <= k < upgrade_to_and_call_call_srcs(b).len() ==> upgrade_to_and_call_call_rec_ok(
                #[trigger] x2.usdc_call_upgrade_to_and_calls@[k],
                b,
                upgrade_to_and_call_call_srcs(b)[k].0,
                upgrade_to_and_call_call_srcs(b)[k].1,
            ),
    ensures
        forall|k: int|
            0 <= k < x1.usdc_call_approves@.len() ==> same_usdcapprovecall(#[trigger] x1.usdc_call_approves@[k], x2.usdc_call_approves@[k]),
        forall|k: int|
            0 <= k < x1.usdc_call_blacklists@.len() ==> same_usdcblacklistcall(#[trigger] x1.usdc_call_blacklists@[k], x2.usdc_call_blacklists@[k]),
        forall|k: int|
            0 <= k < x1.usdc_call_burns@.len() ==> same_usdcburncall(#[trigger] x1.usdc_call_burns@[k], x2.usdc_call_burns@[k]),
        forall|k: int|
            0 <= k < x1.usdc_call_cancel_authorization_1s@.len() ==> same_usdccancelauthorization1call(#[trigger] x1.usdc_call_cancel_authorization_1s@[k], x2.usdc_call_cancel_authorization_1s@[k]),
        forall|k: int|
            0 <= k < x1.usdc_call_cancel_authorization_2s@.len() ==> same_usdccancelauthorization2call(#[trigger] x1.usdc_call_cancel_authorization_2s@[k], x2.usdc_call_cancel_authorization_2s@[k]),
        forall|k: int|
            0 <= k < x1.usdc_call_change_admins@.len() ==> same_usdcchangeadmincall(#[trigger] x1.usdc_call_change_admins@[k], x2.usdc_call_change_admins@[k]),
        forall|k: int|
            0 <= k < x1.usdc_call_configure_minters@.len() ==> same_usdcconfiguremintercall(#[trigger] x1.usdc_call_configure_minters@[k], x2.usdc_call_configure_minters@[k]),
        forall|k: int|
            0 <= k < x1.usdc_call_decrease_allowances@.len() ==> same_usdcdecreaseallowancecall(#[trigger] x1.usdc_call_decrease_allowances@[k], x2.usdc_call_decrease_allowances@[k]),
        forall|k: int|
            0 <= k < x1.usdc_call_increase_allowances@.len() ==> same_usdcincreaseallowancecall(#[trigger] x1.usdc_call_increase_allowances@[k], x2.usdc_call_increase_allowances@[k]),
        forall|k: int|
            0 <= k < x1.usdc_call_initializes@.len() ==> same_usdcinitializecall(#[trigger] x1.usdc_call_initializes@[k], x2.usdc_call_initializes@[k]),
        forall|k: int|
            0 <= k < x1.usdc_call_initialize_v_2s@.len() ==> same_usdcinitializev2call(#[trigger] x1.usdc_call_initialize_v_2s@[k], x2.usdc_call_initialize_v_2s@[k]),
        forall|k: int|
            0 <= k < x1.usdc_call_initialize_v2_1s@.len() ==> same_usdcinitializev21call(#[trigger] x1.usdc_call_initialize_v2_1s@[k], x2.usdc_call_initialize_v2_1s@[k]),
        forall|k: int|
            0 <= k < x1.usdc_call_initialize_v2_2s@.len() ==> same_usdcinitializev22call(#[trigger] x1.usdc_call_initialize_v2_2s@[k], x2.usdc_call_initialize_v2_2s@[k]),
        forall|k: int|
            0 <= k < x1.usdc_call_mints@.len() ==> same_usdcmintcall(#[trigger] x1.usdc_call_mints@[k], x2.usdc_call_mints@[k]),
        forall|k: int|
            0 <= k < x1.usdc_call_pauses@.len() ==> same_usdcpausecall(#[trigger] x1.usdc_call_pauses@[k], x2.usdc_call_pauses@[k]),
        forall|k: int|
            0 <= k < x1.usdc_call_permit_1s@.len() ==> same_usdcpermit1call(#[trigger] x1.usdc_call_permit_1s@[k], x2.usdc_call_permit_1s@[k]),
        forall|k: int|
            0 <= k < x1.usdc_call_permit_2s@.len() ==> same_usdcpermit2call(#[trigger] x1.usdc_call_permit_2s@[k], x2.usdc_call_permit_2s@[k]),
        forall|k: int|
            0 <= k < x1.usdc_call_receive_with_authorization_1s@.len() ==> same_usdcreceivewithauthorization1call(#[trigger] x1.usdc_call_receive_with_authorization_1s@[k], x2.usdc_call_receive_with_authorization_1s@[k]),
        forall|k: int|
            0 <= k < x1.usdc_call_receive_with_authorization_2s@.len() ==> same_usdcreceivewithauthorization2call(#[trigger] x1.usdc_call_receive_with_authorization_2s@[k], x2.usdc_call_receive_with_authorization_2s@[k]),
        forall|k: int|
            0 <= k < x1.usdc_call_remove_minters@.len() ==> same_usdcremovemintercall(#[trigger] x1.usdc_call_remove_minters@[k], x2.usdc_call_remove_minters@[k]),
        forall|k: int|
            0 <= k < x1.usdc_call_rescue_erc_20s@.len() ==> same_usdcrescueerc20call(#[trigger] x1.usdc_call_rescue_erc_20s@[k], x2.usdc_call_rescue_erc_20s@[k]),
        forall|k: int|
            0 <= k < x1.usdc_call_transfers@.len() ==> same_usdctransfercall(#[trigger] x1.usdc_call_transfers@[k], x2.usdc_call_transfers@[k]),
        forall|k: int|
            0 <= k < x1.usdc_call_transfer_froms@.len() ==> same_usdctransferfromcall(#[trigger] x1.usdc_call_transfer_froms@[k], x2.usdc_call_transfer_froms@[k]),
        forall|k: int|
            0 <= k < x1.usdc_call_transfer_ownerships@.len() ==> same_usdctransferownershipcall(#[trigger] x1.usdc_call_transfer_ownerships@[k], x2.usdc_call_transfer_ownerships@[k]),
        forall|k: int|
            0 <= k < x1.usdc_call_transfer_with_authorization_1s@.len() ==> same_usdctransferwithauthorization1call(#[trigger] x1.usdc_call_transfer_with_authorization_1s@[k], x2.usdc_call_transfer_with_authorization_1s@[k]),
        forall|k: int|
            0 <= k < x1.usdc_call_transfer_with_authorization_2s@.len() ==> same_usdctransferwithauthorization2call(#[trigger] x1.usdc_call_transfer_with_authorization_2s@[k], x2.usdc_call_transfer_with_authorization_2s@[k]),
        forall|k: int|
            0 <= k < x1.usdc_call_un_blacklists@.len() ==> same_usdcunblacklistcall(#[trigger] x1.usdc_call_un_blacklists@[k], x2.usdc_call_un_blacklists@[k]),
        forall|k: int|
            0 <= k < x1.usdc_call_unpauses@.len() ==> same_usdcunpausecall(#[trigger] x1.usdc_call_unpauses@[k], x2.usdc_call_unpauses@[k]),
        forall|k: int|
            0 <= k < x1.usdc_call_update_blacklisters@.len() ==> same_usdcupdateblacklistercall(#[trigger] x1.usdc_call_update_blacklisters@[k], x2.usdc_call_update_blacklisters@[k]),
        forall|k: int|
            0 <= k < x1.usdc_call_update_master_minters@.len() ==> same_usdcupdatemastermintercall(#[trigger] x1.usdc_call_update_master_minters@[k], x2.usdc_call_update_master_minters@[k]),
        forall|k: int|
            0 <= k < x1.usdc_call_update_pausers@.len() ==> same_usdcupdatepausercall(#[trigger] x1.usdc_call_update_pausers@[k], x2.usdc_call_update_pausers@[k]),
        forall|k: int|
            0 <= k < x1.usdc_call_update_rescuers@.len() ==> same_usdcupdaterescuercall(#[trigger] x1.usdc_call_update_rescuers@[k], x2.usdc_call_update_rescuers@[k]),
        forall|k: int|
            0 <= k < x1.usdc_call_upgrade_tos@.len() ==> same_usdcupgradetocall(#[trigger] x1.usdc_call_upgrade_tos@[k], x2.usdc_call_upgrade_tos@[k]),
        forall|k: int|
            0 <= k < x1.usdc_call_upgrade_to_and_calls@.len() ==> same_usdcupgradetoandcallcall(#[trigger] x1.usdc_call_upgrade_to_and_calls@[k], x2.usdc_call_upgrade_to_and_calls@[k]),
{
    assert forall|k: int| 0 <= k < x1.usdc_call_approves@.len() implies same_usdcapprovecall(
        #[trigger] x1.usdc_call_approves@[k],
        x2.usdc_call_approves@[k],
    ) by {
        assert(approve_call_rec_ok(x1.usdc_call_approves@[k], b, approve_call_srcs(b)[k].0, approve_call_srcs(b)[k].1));
        assert(approve_call_rec_ok(x2.usdc_call_approves@[k], b, approve_call_srcs(b)[k].0, approve_call_srcs(b)[k].1));
    }
    assert forall|k: int| 0 <= k < x1.usdc_call_blacklists@.len() implies same_usdcblacklistcall(
        #[trigger] x1.usdc_call_blacklists@[k],
        x2.usdc_call_blacklists@[k],
    ) by {
        assert(blacklist_call_rec_ok(x1.usdc_call_blacklists@[k], b, blacklist_call_srcs(b)[k].0, blacklist_call_srcs(b)[k].1));
        assert(blacklist_call_rec_ok(x2.usdc_call_blacklists@[k], b, blacklist_call_srcs(b)[k].0, blacklist_call_srcs(b)[k].1));
    }
    assert forall|k: int| 0 <= k < x1.usdc_call_burns@.len() implies same_usdcburncall(
        #[trigger] x1.usdc_call_burns@[k],
        x2.usdc_call_burns@[k],
    ) by {
        assert(burn_call_rec_ok(x1.usdc_call_burns@[k], b, burn_call_srcs(b)[k].0, burn_call_srcs(b)[k].1));
        assert(burn_call_rec_ok(x2.usdc_call_burns@[k], b, burn_call_srcs(b)[k].0, burn_call_srcs(b)[k].1));
    }
    assert forall|k: int| 0 <= k < x1.usdc_call_cancel_authorization_1s@.len() implies same_usdccancelauthorization1call(
        #[trigger] x1.usdc_call_cancel_authorization_1s@[k],
        x2.usdc_call_cancel_authorization_1s@[k],
    ) by {
        assert(cancel_authorization_1_call_rec_ok(x1.usdc_call_cancel_authorization_1s@[k], b, cancel_authorization_1_call_srcs(b)[k].0, cancel_authorization_1_call_srcs(b)[k].1));
        assert(cancel_authorization_1_call_rec_ok(x2.usdc_call_cancel_authorization_1s@[k], b, cancel_authorization_1_call_srcs(b)[k].0, cancel_authorization_1_call_srcs(b)[k].1));
    }
    assert forall|k: int| 0 <= k < x1.usdc_call_cancel_authorization_2s@.len() implies same_usdccancelauthorization2call(
        #[trigger] x1.usdc_call_cancel_authorization_2s@[k],
        x2.usdc_call_cancel_authorization_2s@[k],
    ) by {
        assert(cancel_authorization_2_call_rec_ok(x1.usdc_call_cancel_authorization_2s@[k], b, cancel_authorization_2_call_srcs(b)[k].0, cancel_authorization_2_call_srcs(b)[k].1));
        assert(cancel_authorization_2_call_rec_ok(x2.usdc_call_cancel_authorization_2s@[k], b, cancel_authorization_2_call_srcs(b)[k].0, cancel_authorization_2_call_srcs(b)[k].1));
    }
    assert forall|k: int| 0 <= k < x1.usdc_call_change_admins@.len() implies same_usdcchangeadmincall(
        #[trigger] x1.usdc_call_change_admins@[k],
        x2.usdc_call_change_admins@[k],
    ) by {
        assert(change_admin_call_rec_ok(x1.usdc_call_change_admins@[k], b, change_admin_call_srcs(b)[k].0, change_admin_call_srcs(b)[k].1));
        assert(change_admin_call_rec_ok(x2.usdc_call_change_admins@[k], b, change_admin_call_srcs(b)[k].0, change_admin_call_srcs(b)[k].1));
    }
    assert forall|k: int| 0 <= k < x1.usdc_call_configure_minters@.len() implies same_usdcconfiguremintercall(
        #[trigger] x1.usdc_call_configure_minters@[k],
        x2.usdc_call_configure_minters@[k],
    ) by {
        assert(configure_minter_call_rec_ok(x1.usdc_call_configure_minters@[k], b, configure_minter_call_srcs(b)[k].0, configure_minter_call_srcs(b)[k].1));
        assert(configure_minter_call_rec_ok(x2.usdc_call_configure_minters@[k], b, configure_minter_call_srcs(b)[k].0, configure_minter_call_srcs(b)[k].1));
    }
    assert forall|k: int| 0 <= k < x1.usdc_call_decrease_allowances@.len() implies same_usdcdecreaseallowancecall(
        #[trigger] x1.usdc_call_decrease_allowances@[k],
        x2.usdc_call_decrease_allowances@[k],
    ) by {
        assert(decrease_allowance_call_rec_ok(x1.usdc_call_decrease_allowances@[k], b, decrease_allowance_call_srcs(b)[k].0, decrease_allowance_call_srcs(b)[k].1));
        assert(decrease_allowance_call_rec_ok(x2.usdc_call_decrease_allowances@[k], b, decrease_allowance_call_srcs(b)[k].0, decrease_allowance_call_srcs(b)[k].1));
    }
    assert forall|k: int| 0 <= k < x1.usdc_call_increase_allowances@.len() implies same_usdcincreaseallowancecall(
        #[trigger] x1.usdc_call_increase_allowances@[k],
        x2.usdc_call_increase_allowances@[k],
    ) by {
        assert(increase_allowance_call_rec_ok(x1.usdc_call_increase_allowances@[k], b, increase_allowance_call_srcs(b)[k].0, increase_allowance_call_srcs(b)[k].1));
        assert(increase_allowance_call_rec_ok(x2.usdc_call_increase_allowances@[k], b, increase_allowance_call_srcs(b)[k].0, increase_allowance_call_srcs(b)[k].1));
    }
    assert forall|k: int| 0 <= k < x1.usdc_call_initializes@.len() implies same_usdcinitializecall(
        #[trigger] x1.usdc_call_initializes@[k],
        x2.usdc_call_initializes@[k],
    ) by {
        assert(initialize_call_rec_ok(x1.usdc_call_initializes@[k], b, initialize_call_srcs(b)[k].0, initialize_call_srcs(b)[k].1));
        assert(initialize_call_rec_ok(x2.usdc_call_initializes@[k], b, initialize_call_srcs(b)[k].0, initialize_call_srcs(b)[k].1));
    }
    assert forall|k: int| 0 <= k < x1.usdc_call_initialize_v_2s@.len() implies same_usdcinitializev2call(
        #[trigger] x1.usdc_call_initialize_v_2s@[k],
        x2.usdc_call_initialize_v_2s@[k],
    ) by {
        assert(initialize_v2_call_rec_ok(x1.usdc_call_initialize_v_2s@[k], b, initialize_v2_call_srcs(b)[k].0, initialize_v2_call_srcs(b)[k].1));
        assert(initialize_v2_call_rec_ok(x2.usdc_call_initialize_v_2s@[k], b, initialize_v2_call_srcs(b)[k].0, initialize_v2_call_srcs(b)[k].1));
    }
    assert forall|k: int| 0 <= k < x1.usdc_call_initialize_v2_1s@.len() implies same_usdcinitializev21call(
        #[trigger] x1.usdc_call_initialize_v2_1s@[k],
        x2.usdc_call_initialize_v2_1s@[k],
    ) by {
        assert(initialize_v2_1_call_rec_ok(x1.usdc_call_initialize_v2_1s@[k], b, initialize_v2_1_call_srcs(b)[k].0, initialize_v2_1_call_srcs(b)[k].1));
        assert(initialize_v2_1_call_rec_ok(x2.usdc_call_initialize_v2_1s@[k], b, initialize_v2_1_call_srcs(b)[k].0, initialize_v2_1_call_srcs(b)[k].1));
    }
    assert forall|k: int| 0 <= k < x1.usdc_call_initialize_v2_2s@.len() implies same_usdcinitializev22call(
        #[trigger] x1.usdc_call_initialize_v2_2s@[k],
        x2.usdc_call_initialize_v2_2s@[k],
    ) by {
        assert(initialize_v2_2_call_rec_ok(x1.usdc_call_initialize_v2_2s@[k], b, initialize_v2_2_call_srcs(b)[k].0, initialize_v2_2_call_srcs(b)[k].1));
        assert(initialize_v2_2_call_rec_ok(x2.usdc_call_initialize_v2_2s@[k], b, initialize_v2_2_call_srcs(b)[k].0, initialize_v2_2_call_srcs(b)[k].1));
    }
    assert forall|k: int| 0 <= k < x1.usdc_call_mints@.len() implies same_usdcmintcall(
        #[trigger] x1.usdc_call_mints@[k],
        x2.usdc_call_mints@[k],
    ) by {
        assert(mint_call_rec_ok(x1.usdc_call_mints@[k], b, mint_call_srcs(b)[k].0, mint_call_srcs(b)[k].1));
        assert(mint_call_rec_ok(x2.usdc_call_mints@[k], b, mint_call_srcs(b)[k].0, mint_call_srcs(b)[k].1));
    }
    assert forall|k: int| 0 <= k < x1.usdc_call_pauses@.len() implies same_usdcpausecall(
        #[trigger] x1.usdc_call_pauses@[k],
        x2.usdc_call_pauses@[k],
    ) by {
        assert(pause_call_rec_ok(x1.usdc_call_pauses@[k], b, pause_call_srcs(b)[k].0, pause_call_srcs(b)[k].1));
        assert(pause_call_rec_ok(x2.usdc_call_pauses@[k], b, pause_call_srcs(b)[k].0, pause_call_srcs(b)[k].1));
    }
    assert forall|k: int| 0 <= k < x1.usdc_call_permit_1s@.len() implies same_usdcpermit1call(
        #[trigger] x1.usdc_call_permit_1s@[k],
        x2.usdc_call_permit_1s@[k],
    ) by {
        assert(permit_1_call_rec_ok(x1.usdc_call_permit_1s@[k], b, permit_1_call_srcs(b)[k].0, permit_1_call_srcs(b)[k].1));
        assert(permit_1_call_rec_ok(x2.usdc_call_permit_1s@[k], b, permit_1_call_srcs(b)[k].0, permit_1_call_srcs(b)[k].1));
    }
    assert forall|k: int| 0 <= k < x1.usdc_call_permit_2s@.len() implies same_usdcpermit2call(
        #[trigger] x1.usdc_call_permit_2s@[k],
        x2.usdc_call_permit_2s@[k],
    ) by {
        assert(permit_2_call_rec_ok(x1.usdc_call_permit_2s@[k], b, permit_2_call_srcs(b)[k].0, permit_2_call_srcs(b)[k].1));
        assert(permit_2_call_rec_ok(x2.usdc_call_permit_2s@[k], b, permit_2_call_srcs(b)[k].0, permit_2_call_srcs(b)[k].1));
    }
    assert forall|k: int| 0 <= k < x1.usdc_call_receive_with_authorization_1s@.len() implies same_usdcreceivewithauthorization1call(
        #[trigger] x1.usdc_call_receive_with_authorization_1s@[k],
        x2.usdc_call_receive_with_authorization_1s@[k],
    ) by {
        assert(receive_with_authorization_1_call_rec_ok(x1.usdc_call_receive_with_authorization_1s@[k], b, receive_with_authorization_1_call_srcs(b)[k].0, receive_with_authorization_1_call_srcs(b)[k].1));
        assert(receive_with_authorization_1_call_rec_ok(x2.usdc_call_receive_with_authorization_1s@[k], b, receive_with_authorization_1_call_srcs(b)[k].0, receive_with_authorization_1_call_srcs(b)[k].1));
    }
    assert forall|k: int| 0 <= k < x1.usdc_call_receive_with_authorization_2s@.len() implies same_usdcreceivewithauthorization2call(
        #[trigger] x1.usdc_call_receive_with_authorization_2s@[k],
        x2.usdc_call_receive_with_authorization_2s@[k],
    ) by {
        assert(receive_with_authorization_2_call_rec_ok(x1.usdc_call_receive_with_authorization_2s@[k], b, receive_with_authorization_2_call_srcs(b)[k].0, receive_with_authorization_2_call_srcs(b)[k].1));
        assert(receive_with_authorization_2_call_rec_ok(x2.usdc_call_receive_with_authorization_2s@[k], b, receive_with_authorization_2_call_srcs(b)[k].0, receive_with_authorization_2_call_srcs(b)[k].1));
    }
    assert forall|k: int| 0 <= k < x1.usdc_call_remove_minters@.len() implies same_usdcremovemintercall(
        #[trigger] x1.usdc_call_remove_minters@[k],
        x2.usdc_call_remove_minters@[k],
    ) by {
        assert(remove_minter_call_rec_ok(x1.usdc_call_remove_minters@[k], b, remove_minter_call_srcs(b)[k].0, remove_minter_call_srcs(b)[k].1));
        assert(remove_minter_call_rec_ok(x2.usdc_call_remove_minters@[k], b, remove_minter_call_srcs(b)[k].0, remove_minter_call_srcs(b)[k].1));
    }
    assert forall|k: int| 0 <= k < x1.usdc_call_rescue_erc_20s@.len() implies same_usdcrescueerc20call(
        #[trigger] x1.usdc_call_rescue_erc_20s@[k],
        x2.usdc_call_rescue_erc_20s@[k],
    ) by {
        assert(rescue_erc20_call_rec_ok(x1.usdc_call_rescue_erc_20s@[k], b, rescue_erc20_call_srcs(b)[k].0, rescue_erc20_call_srcs(b)[k].1));
        assert(rescue_erc20_call_rec_ok(x2.usdc_call_rescue_erc_20s@[k], b, rescue_erc20_call_srcs(b)[k].0, rescue_erc20_call_srcs(b)[k].1));
    }
    assert forall|k: int| 0 <= k < x1.usdc_call_transfers@.len() implies same_usdctransfercall(
        #[trigger] x1.usdc_call_transfers@[k],
        x2.usdc_call_transfers@[k],
    ) by {
        assert(transfer_call_rec_ok(x1.usdc_call_transfers@[k], b, transfer_call_srcs(b)[k].0, transfer_call_srcs(b)[k].1));
        assert(transfer_call_rec_ok(x2.usdc_call_transfers@[k], b, transfer_call_srcs(b)[k].0, transfer_call_srcs(b)[k].1));
    }
    assert forall|k: int| 0 <= k < x1.usdc_call_transfer_froms@.len() implies same_usdctransferfromcall(
        #[trigger] x1.usdc_call_transfer_froms@[k],
        x2.usdc_call_transfer_froms@[k],
    ) by {
        assert(transfer_from_call_rec_ok(x1.usdc_call_transfer_froms@[k], b, transfer_from_call_srcs(b)[k].0, transfer_from_call_srcs(b)[k].1));
        assert(transfer_from_call_rec_ok(x2.usdc_call_transfer_froms@[k], b, transfer_from_call_srcs(b)[k].0, transfer_from_call_srcs(b)[k].1));
    }
    assert forall|k: int| 0 <= k < x1.usdc_call_transfer_ownerships@.len() implies same_usdctransferownershipcall(
        #[trigger] x1.usdc_call_transfer_ownerships@[k],
        x2.usdc_call_transfer_ownerships@[k],
    ) by {
        assert(transfer_ownership_call_rec_ok(x1.usdc_call_transfer_ownerships@[k], b, transfer_ownership_call_srcs(b)[k].0, transfer_ownership_call_srcs(b)[k].1));
        assert(transfer_ownership_call_rec_ok(x2.usdc_call_transfer_ownerships@[k], b, transfer_ownership_call_srcs(b)[k].0, transfer_ownership_call_srcs(b)[k].1));
    }
    assert forall|k: int| 0 <= k < x1.usdc_call_transfer_with_authorization_1s@.len() implies same_usdctransferwithauthorization1call(
        #[trigger] x1.usdc_call_transfer_with_authorization_1s@[k],
        x2.usdc_call_transfer_with_authorization_1s@[k],
    ) by {
        assert(transfer_with_authorization_1_call_rec_ok(x1.usdc_call_transfer_with_authorization_1s@[k], b, transfer_with_authorization_1_call_srcs(b)[k].0, transfer_with_authorization_1_call_srcs(b)[k].1));
        assert(transfer_with_authorization_1_call_rec_ok(x2.usdc_call_transfer_with_authorization_1s@[k], b, transfer_with_authorization_1_call_srcs(b)[k].0, transfer_with_authorization_1_call_srcs(b)[k].1));
    }
    assert forall|k: int| 0 <= k < x1.usdc_call_transfer_with_authorization_2s@.len() implies same_usdctransferwithauthorization2call(
        #[trigger] x1.usdc_call_transfer_with_authorization_2s@[k],
        x2.usdc_call_transfer_with_authorization_2s@[k],
    ) by {
        assert(transfer_with_authorization_2_call_rec_ok(x1.usdc_call_transfer_with_authorization_2s@[k], b, transfer_with_authorization_2_call_srcs(b)[k].0, transfer_with_authorization_2_call_srcs(b)[k].1));
        assert(transfer_with_authorization_2_call_rec_ok(x2.usdc_call_transfer_with_authorization_2s@[k], b, transfer_with_authorization_2_call_srcs(b)[k].0, transfer_with_authorization_2_call_srcs(b)[k].1));
    }
    assert forall|k: int| 0 <= k < x1.usdc_call_un_blacklists@.len() implies same_usdcunblacklistcall(
        #[trigger] x1.usdc_call_un_blacklists@[k],
        x2.usdc_call_un_blacklists@[k],
    ) by {
        assert(un_blacklist_call_rec_ok(x1.usdc_call_un_blacklists@[k], b, un_blacklist_call_srcs(b)[k].0, un_blacklist_call_srcs(b)[k].1));
        assert(un_blacklist_call_rec_ok(x2.usdc_call_un_blacklists@[k], b, un_blacklist_call_srcs(b)[k].0, un_blacklist_call_srcs(b)[k].1));
    }
    assert forall|k: int| 0 <= k < x1.usdc_call_unpauses@.len() implies same_usdcunpausecall(
        #[trigger] x1.usdc_call_unpauses@[k],
        x2.usdc_call_unpauses@[k],
    ) by {
        assert(unpause_call_rec_ok(x1.usdc_call_unpauses@[k], b, unpause_call_srcs(b)[k].0, unpause_call_srcs(b)[k].1));
        assert(unpause_call_rec_ok(x2.usdc_call_unpauses@[k], b, unpause_call_srcs(b)[k].0, unpause_call_srcs(b)[k].1));
    }
    assert forall|k: int| 0 <= k < x1.usdc_call_update_blacklisters@.len() implies same_usdcupdateblacklistercall(
        #[trigger] x1.usdc_call_update_blacklisters@[k],
        x2.usdc_call_update_blacklisters@[k],
    ) by {
        assert(update_blacklister_call_rec_ok(x1.usdc_call_update_blacklisters@[k], b, update_blacklister_call_srcs(b)[k].0, update_blacklister_call_srcs(b)[k].1));
        assert(update_blacklister_call_rec_ok(x2.usdc_call_update_blacklisters@[k], b, update_blacklister_call_srcs(b)[k].0, update_blacklister_call_srcs(b)[k].1));
    }
    assert forall|k: int| 0 <= k < x1.usdc_call_update_master_minters@.len() implies same_usdcupdatemastermintercall(
        #[trigger] x1.usdc_call_update_master_minters@[k],
        x2.usdc_call_update_master_minters@[k],
    ) by {
        assert(update_master_minter_call_rec_ok(x1.usdc_call_update_master_minters@[k], b, update_master_minter_call_srcs(b)[k].0, update_master_minter_call_srcs(b)[k].1));
        assert(update_master_minter_call_rec_ok(x2.usdc_call_update_master_minters@[k], b, update_master_minter_call_srcs(b)[k].0, update_master_minter_call_srcs(b)[k].1));
    }
    assert forall|k: int| 0 <= k < x1.usdc_call_update_pausers@.len() implies same_usdcupdatepausercall(
        #[trigger] x1.usdc_call_update_pausers@[k],
        x2.usdc_call_update_pausers@[k],
    ) by {
        assert(update_pauser_call_rec_ok(x1.usdc_call_update_pausers@[k], b, update_pauser_call_srcs(b)[k].0, update_pauser_call_srcs(b)[k].1));
        assert(update_pauser_call_rec_ok(x2.usdc_call_update_pausers@[k], b, update_pauser_call_srcs(b)[k].0, update_pauser_call_srcs(b)[k].1));
    }
    assert forall|k: int| 0 <= k < x1.usdc_call_update_rescuers@.len() implies same_usdcupdaterescuercall(
        #[trigger] x1.usdc_call_update_rescuers@[k],
        x2.usdc_call_update_rescuers@[k],
    ) by {
        assert(update_rescuer_call_rec_ok(x1.usdc_call_update_rescuers@[k], b, update_rescuer_call_srcs(b)[k].0, update_rescuer_call_srcs(b)[k].1));
        assert(update_rescuer_call_rec_ok(x2.usdc_call_update_rescuers@[k], b, update_rescuer_call_srcs(b)[k].0, update_rescuer_call_srcs(b)[k].1));
    }
    assert forall|k: int| 0 <= k < x1.usdc_call_upgrade_tos@.len() implies same_usdcupgradetocall(
        #[trigger] x1.usdc_call_upgrade_tos@[k],
        x2.usdc_call_upgrade_tos@[k],
    ) by {
        assert(upgrade_to_call_rec_ok(x1.usdc_call_upgrade_tos@[k], b, upgrade_to_call_srcs(b)[k].0, upgrade_to_call_srcs(b)[k].1));
        assert(upgrade_to_call_rec_ok(x2.usdc_call_upgrade_tos@[k], b, upgrade_to_call_srcs(b)[k].0, upgrade_to_call_srcs(b)[k].1));
    }
    assert forall|k: int| 0 <= k < x1.usdc_call_upgrade_to_and_calls@.len() implies same_usdcupgradetoandcallcall(
        #[trigger] x1.usdc_call_upgrade_to_and_calls@[k],
        x2.usdc_call_upgrade_to_and_calls@[k],
    ) by {
        assert(upgrade_to_and_call_call_rec_ok(x1.usdc_call_upgrade_to_and_calls@[k], b, upgrade_to_and_call_call_srcs(b)[k].0, upgrade_to_and_call_call_srcs(b)[k].1));
        assert(upgrade_to_and_call_call_rec_ok(x2.usdc_call_upgrade_to_and_calls@[k], b, upgrade_to_and_call_call_srcs(b)[k].0, upgrade_to_and_call_call_srcs(b)[k].1));
    }
}

/// Failure of the secondary output decode never drops the record: it is
/// still present with the default output value, and the success flag still
/// reflects only the call's own revert flag.
pub proof fn lemma_output_decode_isolated(r: UsdcApproveCall, b: Block, t: Transaction, c: Call)
    requires
        approve_call_rec_ok(r, b, t, c),
        c.return_data@.len() != 32,
    ensures
        r.output_param0 == false,
        r.call_success == !c.state_reverted,
{
}

} // verus!
