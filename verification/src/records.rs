//! The record schema: one struct per tracked event or function signature,
//! and the per-block batch containers.
//!
//! Byte fields carry addresses, hashes and raw payloads as they stand in the
//! block; large unsigned integers are normalized to decimal strings.

use vstd::prelude::*;

use crate::model::Timestamp;

verus! {

#[derive(Clone, Debug, PartialEq)]
pub struct UsdcAdminChanged {
    pub evt_tx_hash: String,
    pub evt_index: u32,
    pub evt_block_time: Option<Timestamp>,
    pub evt_block_number: u64,
    pub previous_admin: Vec<u8>,
    pub new_admin: Vec<u8>,
}

#[derive(Clone, Debug, PartialEq)]
pub struct UsdcApproval {
    pub evt_tx_hash: String,
    pub evt_index: u32,
    pub evt_block_time: Option<Timestamp>,
    pub evt_block_number: u64,
    pub owner: Vec<u8>,
    pub spender: Vec<u8>,
    pub value: String,
}

#[derive(Clone, Debug, PartialEq)]
pub struct UsdcAuthorizationCanceled {
    pub evt_tx_hash: String,
    pub evt_index: u32,
    pub evt_block_time: Option<Timestamp>,
    pub evt_block_number: u64,
    pub authorizer: Vec<u8>,
    pub nonce: Vec<u8>,
}

#[derive(Clone, Debug, PartialEq)]
pub struct UsdcAuthorizationUsed {
    pub evt_tx_hash: String,
    pub evt_index: u32,
    pub evt_block_time: Option<Timestamp>,
    pub evt_block_number: u64,
    pub authorizer: Vec<u8>,
    pub nonce: Vec<u8>,
}

#[derive(Clone, Debug, PartialEq)]
pub struct UsdcBlacklisted {
    pub evt_tx_hash: String,
    pub evt_index: u32,
    pub evt_block_time: Option<Timestamp>,
    pub evt_block_number: u64,
    pub u_account: Vec<u8>,
}

#[derive(Clone, Debug, PartialEq)]
pub struct UsdcBlacklisterChanged {
    pub evt_tx_hash: String,
    pub evt_index: u32,
    pub evt_block_time: Option<Timestamp>,
    pub evt_block_number: u64,
    pub new_blacklister: Vec<u8>,
}

#[derive(Clone, Debug, PartialEq)]
pub struct UsdcBurn {
    pub evt_tx_hash: String,
    pub evt_index: u32,
    pub evt_block_time: Option<Timestamp>,
    pub evt_block_number: u64,
    pub burner: Vec<u8>,
    pub amount: String,
}

#[derive(Clone, Debug, PartialEq)]
pub struct UsdcMasterMinterChanged {
    pub evt_tx_hash: String,
    pub evt_index: u32,
    pub evt_block_time: Option<Timestamp>,
    pub evt_block_number: u64,
    pub new_master_minter: Vec<u8>,
}

#[derive(Clone, Debug, PartialEq)]
pub struct UsdcMint {
    pub evt_tx_hash: String,
    pub evt_index: u32,
    pub evt_block_time: Option<Timestamp>,
    pub evt_block_number: u64,
    pub minter: Vec<u8>,
    pub to: Vec<u8>,
    pub amount: String,
}

#[derive(Clone, Debug, PartialEq)]
pub struct UsdcMinterConfigured {
    pub evt_tx_hash: String,
    pub evt_index: u32,
    pub evt_block_time: Option<Timestamp>,
    pub evt_block_number: u64,
    pub minter: Vec<u8>,
    pub minter_allowed_amount: String,
}

#[derive(Clone, Debug, PartialEq)]
pub struct UsdcMinterRemoved {
    pub evt_tx_hash: String,
    pub evt_index: u32,
    pub evt_block_time: Option<Timestamp>,
    pub evt_block_number: u64,
    pub old_minter: Vec<u8>,
}

#[derive(Clone, Debug, PartialEq)]
pub struct UsdcOwnershipTransferred {
    pub evt_tx_hash: String,
    pub evt_index: u32,
    pub evt_block_time: Option<Timestamp>,
    pub evt_block_number: u64,
    pub previous_owner: Vec<u8>,
    pub new_owner: Vec<u8>,
}

#[derive(Clone, Debug, PartialEq)]
pub struct UsdcPause {
    pub evt_tx_hash: String,
    pub evt_index: u32,
    pub evt_block_time: Option<Timestamp>,
    pub evt_block_number: u64,
}

#[derive(Clone, Debug, PartialEq)]
pub struct UsdcPauserChanged {
    pub evt_tx_hash: String,
    pub evt_index: u32,
    pub evt_block_time: Option<Timestamp>,
    pub evt_block_number: u64,
    pub new_address: Vec<u8>,
}

#[derive(Clone, Debug, PartialEq)]
pub struct UsdcRescuerChanged {
    pub evt_tx_hash: String,
    pub evt_index: u32,
    pub evt_block_time: Option<Timestamp>,
    pub evt_block_number: u64,
    pub new_rescuer: Vec<u8>,
}

#[derive(Clone, Debug, PartialEq)]
pub struct UsdcTransfer {
    pub evt_tx_hash: String,
    pub evt_index: u32,
    pub evt_block_time: Option<Timestamp>,
    pub evt_block_number: u64,
    pub from: Vec<u8>,
    pub to: Vec<u8>,
    pub value: String,
}

#[derive(Clone, Debug, PartialEq)]
pub struct UsdcUnBlacklisted {
    pub evt_tx_hash: String,
    pub evt_index: u32,
    pub evt_block_time: Option<Timestamp>,
    pub evt_block_number: u64,
    pub u_account: Vec<u8>,
}

#[derive(Clone, Debug, PartialEq)]
pub struct UsdcUnpause {
    pub evt_tx_hash: String,
    pub evt_index: u32,
    pub evt_block_time: Option<Timestamp>,
    pub evt_block_number: u64,
}

#[derive(Clone, Debug, PartialEq)]
pub struct UsdcUpgraded {
    pub evt_tx_hash: String,
    pub evt_index: u32,
    pub evt_block_time: Option<Timestamp>,
    pub evt_block_number: u64,
    pub implementation: Vec<u8>,
}

#[derive(Clone, Debug, PartialEq)]
pub struct UsdcApproveCall {
    pub call_tx_hash: String,
    pub call_block_time: Option<Timestamp>,
    pub call_block_number: u64,
    pub call_ordinal: u64,
    pub call_success: bool,
    pub spender: Vec<u8>,
    pub value: String,
    pub output_param0: bool,
}

#[derive(Clone, Debug, PartialEq)]
pub struct UsdcBlacklistCall {
    pub call_tx_hash: String,
    pub call_block_time: Option<Timestamp>,
    pub call_block_number: u64,
    pub call_ordinal: u64,
    pub call_success: bool,
    pub u_account: Vec<u8>,
}

#[derive(Clone, Debug, PartialEq)]
pub struct UsdcBurnCall {
    pub call_tx_hash: String,
    pub call_block_time: Option<Timestamp>,
    pub call_block_number: u64,
    pub call_ordinal: u64,
    pub call_success: bool,
    pub u_amount: String,
}

#[derive(Clone, Debug, PartialEq)]
pub struct UsdcCancelAuthorization1call {
    pub call_tx_hash: String,
    pub call_block_time: Option<Timestamp>,
    pub call_block_number: u64,
    pub call_ordinal: u64,
    pub call_success: bool,
    pub authorizer: Vec<u8>,
    pub nonce: Vec<u8>,
    pub v: u64,
    pub r: Vec<u8>,
    pub s: Vec<u8>,
}

#[derive(Clone, Debug, PartialEq)]
pub struct UsdcCancelAuthorization2call {
    pub call_tx_hash: String,
    pub call_block_time: Option<Timestamp>,
    pub call_block_number: u64,
    pub call_ordinal: u64,
    pub call_success: bool,
    pub authorizer: Vec<u8>,
    pub nonce: Vec<u8>,
    pub signature: Vec<u8>,
}

#[derive(Clone, Debug, PartialEq)]
pub struct UsdcChangeAdminCall {
    pub call_tx_hash: String,
    pub call_block_time: Option<Timestamp>,
    pub call_block_number: u64,
    pub call_ordinal: u64,
    pub call_success: bool,
    pub new_admin: Vec<u8>,
}

#[derive(Clone, Debug, PartialEq)]
pub struct UsdcConfigureMinterCall {
    pub call_tx_hash: String,
    pub call_block_time: Option<Timestamp>,
    pub call_block_number: u64,
    pub call_ordinal: u64,
    pub call_success: bool,
    pub minter: Vec<u8>,
    pub minter_allowed_amount: String,
    pub output_param0: bool,
}

#[derive(Clone, Debug, PartialEq)]
pub struct UsdcDecreaseAllowanceCall {
    pub call_tx_hash: String,
    pub call_block_time: Option<Timestamp>,
    pub call_block_number: u64,
    pub call_ordinal: u64,
    pub call_success: bool,
    pub spender: Vec<u8>,
    pub decrement: String,
    pub output_param0: bool,
}

#[derive(Clone, Debug, PartialEq)]
pub struct UsdcIncreaseAllowanceCall {
    pub call_tx_hash: String,
    pub call_block_time: Option<Timestamp>,
    pub call_block_number: u64,
    pub call_ordinal: u64,
    pub call_success: bool,
    pub spender: Vec<u8>,
    pub increment: String,
    pub output_param0: bool,
}

#[derive(Clone, Debug, PartialEq)]
pub struct UsdcInitializeCall {
    pub call_tx_hash: String,
    pub call_block_time: Option<Timestamp>,
    pub call_block_number: u64,
    pub call_ordinal: u64,
    pub call_success: bool,
    pub token_name: String,
    pub token_symbol: String,
    pub token_currency: String,
    pub token_decimals: u64,
    pub new_master_minter: Vec<u8>,
    pub new_pauser: Vec<u8>,
    pub new_blacklister: Vec<u8>,
    pub new_owner: Vec<u8>,
}

#[derive(Clone, Debug, PartialEq)]
pub struct UsdcInitializeV2call {
    pub call_tx_hash: String,
    pub call_block_time: Option<Timestamp>,
    pub call_block_number: u64,
    pub call_ordinal: u64,
    pub call_success: bool,
    pub new_name: String,
}

#[derive(Clone, Debug, PartialEq)]
pub struct UsdcInitializeV21call {
    pub call_tx_hash: String,
    pub call_block_time: Option<Timestamp>,
    pub call_block_number: u64,
    pub call_ordinal: u64,
    pub call_success: bool,
    pub lost_and_found: Vec<u8>,
}

#[derive(Clone, Debug, PartialEq)]
pub struct UsdcInitializeV22call {
    pub call_tx_hash: String,
    pub call_block_time: Option<Timestamp>,
    pub call_block_number: u64,
    pub call_ordinal: u64,
    pub call_success: bool,
    pub accounts_to_blacklist: Vec<Vec<u8>>,
    pub new_symbol: String,
}

#[derive(Clone, Debug, PartialEq)]
pub struct UsdcMintCall {
    pub call_tx_hash: String,
    pub call_block_time: Option<Timestamp>,
    pub call_block_number: u64,
    pub call_ordinal: u64,
    pub call_success: bool,
    pub u_to: Vec<u8>,
    pub u_amount: String,
    pub output_param0: bool,
}

#[derive(Clone, Debug, PartialEq)]
pub struct UsdcPauseCall {
    pub call_tx_hash: String,
    pub call_block_time: Option<Timestamp>,
    pub call_block_number: u64,
    pub call_ordinal: u64,
    pub call_success: bool,
}

#[derive(Clone, Debug, PartialEq)]
pub struct UsdcPermit1call {
    pub call_tx_hash: String,
    pub call_block_time: Option<Timestamp>,
    pub call_block_number: u64,
    pub call_ordinal: u64,
    pub call_success: bool,
    pub owner: Vec<u8>,
    pub spender: Vec<u8>,
    pub value: String,
    pub deadline: String,
    pub signature: Vec<u8>,
}

#[derive(Clone, Debug, PartialEq)]
pub struct UsdcPermit2call {
    pub call_tx_hash: String,
    pub call_block_time: Option<Timestamp>,
    pub call_block_number: u64,
    pub call_ordinal: u64,
    pub call_success: bool,
    pub owner: Vec<u8>,
    pub spender: Vec<u8>,
    pub value: String,
    pub deadline: String,
    pub v: u64,
    pub r: Vec<u8>,
    pub s: Vec<u8>,
}

#[derive(Clone, Debug, PartialEq)]
pub struct UsdcReceiveWithAuthorization1call {
    pub call_tx_hash: String,
    pub call_block_time: Option<Timestamp>,
    pub call_block_number: u64,
    pub call_ordinal: u64,
    pub call_success: bool,
    pub from: Vec<u8>,
    pub to: Vec<u8>,
    pub value: String,
    pub valid_after: String,
    pub valid_before: String,
    pub nonce: Vec<u8>,
    pub signature: Vec<u8>,
}

#[derive(Clone, Debug, PartialEq)]
pub struct UsdcReceiveWithAuthorization2call {
    pub call_tx_hash: String,
    pub call_block_time: Option<Timestamp>,
    pub call_block_number: u64,
    pub call_ordinal: u64,
    pub call_success: bool,
    pub from: Vec<u8>,
    pub to: Vec<u8>,
    pub value: String,
    pub valid_after: String,
    pub valid_before: String,
    pub nonce: Vec<u8>,
    pub v: u64,
    pub r: Vec<u8>,
    pub s: Vec<u8>,
}

#[derive(Clone, Debug, PartialEq)]
pub struct UsdcRemoveMinterCall {
    pub call_tx_hash: String,
    pub call_block_time: Option<Timestamp>,
    pub call_block_number: u64,
    pub call_ordinal: u64,
    pub call_success: bool,
    pub minter: Vec<u8>,
    pub output_param0: bool,
}

#[derive(Clone, Debug, PartialEq)]
pub struct UsdcRescueErc20call {
    pub call_tx_hash: String,
    pub call_block_time: Option<Timestamp>,
    pub call_block_number: u64,
    pub call_ordinal: u64,
    pub call_success: bool,
    pub token_contract: Vec<u8>,
    pub to: Vec<u8>,
    pub amount: String,
}

#[derive(Clone, Debug, PartialEq)]
pub struct UsdcTransferCall {
    pub call_tx_hash: String,
    pub call_block_time: Option<Timestamp>,
    pub call_block_number: u64,
    pub call_ordinal: u64,
    pub call_success: bool,
    pub to: Vec<u8>,
    pub value: String,
    pub output_param0: bool,
}

#[derive(Clone, Debug, PartialEq)]
pub struct UsdcTransferFromCall {
    pub call_tx_hash: String,
    pub call_block_time: Option<Timestamp>,
    pub call_block_number: u64,
    pub call_ordinal: u64,
    pub call_success: bool,
    pub from: Vec<u8>,
    pub to: Vec<u8>,
    pub value: String,
    pub output_param0: bool,
}

#[derive(Clone, Debug, PartialEq)]
pub struct UsdcTransferOwnershipCall {
    pub call_tx_hash: String,
    pub call_block_time: Option<Timestamp>,
    pub call_block_number: u64,
    pub call_ordinal: u64,
    pub call_success: bool,
    pub new_owner: Vec<u8>,
}

#[derive(Clone, Debug, PartialEq)]
pub struct UsdcTransferWithAuthorization1call {
    pub call_tx_hash: String,
    pub call_block_time: Option<Timestamp>,
    pub call_block_number: u64,
    pub call_ordinal: u64,
    pub call_success: bool,
    pub from: Vec<u8>,
    pub to: Vec<u8>,
    pub value: String,
    pub valid_after: String,
    pub valid_before: String,
    pub nonce: Vec<u8>,
    pub signature: Vec<u8>,
}

#[derive(Clone, Debug, PartialEq)]
pub struct UsdcTransferWithAuthorization2call {
    pub call_tx_hash: String,
    pub call_block_time: Option<Timestamp>,
    pub call_block_number: u64,
    pub call_ordinal: u64,
    pub call_success: bool,
    pub from: Vec<u8>,
    pub to: Vec<u8>,
    pub value: String,
    pub valid_after: String,
    pub valid_before: String,
    pub nonce: Vec<u8>,
    pub v: u64,
    pub r: Vec<u8>,
    pub s: Vec<u8>,
}

#[derive(Clone, Debug, PartialEq)]
pub struct UsdcUnBlacklistCall {
    pub call_tx_hash: String,
    pub call_block_time: Option<Timestamp>,
    pub call_block_number: u64,
    pub call_ordinal: u64,
    pub call_success: bool,
    pub u_account: Vec<u8>,
}

#[derive(Clone, Debug, PartialEq)]
pub struct UsdcUnpauseCall {
    pub call_tx_hash: String,
    pub call_block_time: Option<Timestamp>,
    pub call_block_number: u64,
    pub call_ordinal: u64,
    pub call_success: bool,
}

#[derive(Clone, Debug, PartialEq)]
pub struct UsdcUpdateBlacklisterCall {
    pub call_tx_hash: String,
    pub call_block_time: Option<Timestamp>,
    pub call_block_number: u64,
    pub call_ordinal: u64,
    pub call_success: bool,
    pub u_new_blacklister: Vec<u8>,
}

#[derive(Clone, Debug, PartialEq)]
pub struct UsdcUpdateMasterMinterCall {
    pub call_tx_hash: String,
    pub call_block_time: Option<Timestamp>,
    pub call_block_number: u64,
    pub call_ordinal: u64,
    pub call_success: bool,
    pub u_new_master_minter: Vec<u8>,
}

#[derive(Clone, Debug, PartialEq)]
pub struct UsdcUpdatePauserCall {
    pub call_tx_hash: String,
    pub call_block_time: Option<Timestamp>,
    pub call_block_number: u64,
    pub call_ordinal: u64,
    pub call_success: bool,
    pub u_new_pauser: Vec<u8>,
}

#[derive(Clone, Debug, PartialEq)]
pub struct UsdcUpdateRescuerCall {
    pub call_tx_hash: String,
    pub call_block_time: Option<Timestamp>,
    pub call_block_number: u64,
    pub call_ordinal: u64,
    pub call_success: bool,
    pub new_rescuer: Vec<u8>,
}

#[derive(Clone, Debug, PartialEq)]
pub struct UsdcUpgradeToCall {
    pub call_tx_hash: String,
    pub call_block_time: Option<Timestamp>,
    pub call_block_number: u64,
    pub call_ordinal: u64,
    pub call_success: bool,
    pub new_implementation: Vec<u8>,
}

#[derive(Clone, Debug, PartialEq)]
pub struct UsdcUpgradeToAndCallCall {
    pub call_tx_hash: String,
    pub call_block_time: Option<Timestamp>,
    pub call_block_number: u64,
    pub call_ordinal: u64,
    pub call_success: bool,
    pub new_implementation: Vec<u8>,
    pub data: Vec<u8>,
}

/// The per-block batches of every tracked event kind.
#[derive(Clone, Debug, PartialEq)]
pub struct Events {
    pub usdc_admin_changeds: Vec<UsdcAdminChanged>,
    pub usdc_approvals: Vec<UsdcApproval>,
    pub usdc_authorization_canceleds: Vec<UsdcAuthorizationCanceled>,
    pub usdc_authorization_useds: Vec<UsdcAuthorizationUsed>,
    pub usdc_blacklisteds: Vec<UsdcBlacklisted>,
    pub usdc_blacklister_changeds: Vec<UsdcBlacklisterChanged>,
    pub usdc_burns: Vec<UsdcBurn>,
    pub usdc_master_minter_changeds: Vec<UsdcMasterMinterChanged>,
    pub usdc_mints: Vec<UsdcMint>,
    pub usdc_minter_configureds: Vec<UsdcMinterConfigured>,
    pub usdc_minter_removeds: Vec<UsdcMinterRemoved>,
    pub usdc_ownership_transferreds: Vec<UsdcOwnershipTransferred>,
    pub usdc_pauses: Vec<UsdcPause>,
    pub usdc_pauser_changeds: Vec<UsdcPauserChanged>,
    pub usdc_rescuer_changeds: Vec<UsdcRescuerChanged>,
    pub usdc_transfers: Vec<UsdcTransfer>,
    pub usdc_un_blacklisteds: Vec<UsdcUnBlacklisted>,
    pub usdc_unpauses: Vec<UsdcUnpause>,
    pub usdc_upgradeds: Vec<UsdcUpgraded>,
}

/// The per-block batches of every tracked function signature.
#[derive(Clone, Debug, PartialEq)]
pub struct Calls {
    pub usdc_call_approves: Vec<UsdcApproveCall>,
    pub usdc_call_blacklists: Vec<UsdcBlacklistCall>,
    pub usdc_call_burns: Vec<UsdcBurnCall>,
    pub usdc_call_cancel_authorization_1s: Vec<UsdcCancelAuthorization1call>,
    pub usdc_call_cancel_authorization_2s: Vec<UsdcCancelAuthorization2call>,
    pub usdc_call_change_admins: Vec<UsdcChangeAdminCall>,
    pub usdc_call_configure_minters: Vec<UsdcConfigureMinterCall>,
    pub usdc_call_decrease_allowances: Vec<UsdcDecreaseAllowanceCall>,
    pub usdc_call_increase_allowances: Vec<UsdcIncreaseAllowanceCall>,
    pub usdc_call_initializes: Vec<UsdcInitializeCall>,
    pub usdc_call_initialize_v_2s: Vec<UsdcInitializeV2call>,
    pub usdc_call_initialize_v2_1s: Vec<UsdcInitializeV21call>,
    pub usdc_call_initialize_v2_2s: Vec<UsdcInitializeV22call>,
    pub usdc_call_mints: Vec<UsdcMintCall>,
    pub usdc_call_pauses: Vec<UsdcPauseCall>,
    pub usdc_call_permit_1s: Vec<UsdcPermit1call>,
    pub usdc_call_permit_2s: Vec<UsdcPermit2call>,
    pub usdc_call_receive_with_authorization_1s: Vec<UsdcReceiveWithAuthorization1call>,
    pub usdc_call_receive_with_authorization_2s: Vec<UsdcReceiveWithAuthorization2call>,
    pub usdc_call_remove_minters: Vec<UsdcRemoveMinterCall>,
    pub usdc_call_rescue_erc_20s: Vec<UsdcRescueErc20call>,
    pub usdc_call_transfers: Vec<UsdcTransferCall>,
    pub usdc_call_transfer_froms: Vec<UsdcTransferFromCall>,
    pub usdc_call_transfer_ownerships: Vec<UsdcTransferOwnershipCall>,
    pub usdc_call_transfer_with_authorization_1s: Vec<UsdcTransferWithAuthorization1call>,
    pub usdc_call_transfer_with_authorization_2s: Vec<UsdcTransferWithAuthorization2call>,
    pub usdc_call_un_blacklists: Vec<UsdcUnBlacklistCall>,
    pub usdc_call_unpauses: Vec<UsdcUnpauseCall>,
    pub usdc_call_update_blacklisters: Vec<UsdcUpdateBlacklisterCall>,
    pub usdc_call_update_master_minters: Vec<UsdcUpdateMasterMinterCall>,
    pub usdc_call_update_pausers: Vec<UsdcUpdatePauserCall>,
    pub usdc_call_update_rescuers: Vec<UsdcUpdateRescuerCall>,
    pub usdc_call_upgrade_tos: Vec<UsdcUpgradeToCall>,
    pub usdc_call_upgrade_to_and_calls: Vec<UsdcUpgradeToAndCallCall>,
}

/// The combined per-block envelope of both pipelines.
#[derive(Clone, Debug, PartialEq)]
pub struct EventsCalls {
    pub events: Option<Events>,
    pub calls: Option<Calls>,
}

} // verus!
