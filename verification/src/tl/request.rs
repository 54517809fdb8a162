use vstd::prelude::*;

use crate::tl::common::{AccountId, BlockId, BlockIdExt, Int256, TransactionId3};

verus! {

/// Asks for the last masterchain state, with extra fields selected by `mode`.
#[derive(Debug, Clone, PartialEq, Eq)]
pub struct GetMasterchainInfoExt {
    pub mode: u32,
}

/// Asks for the data of a block.
#[derive(Debug, Clone, PartialEq, Eq)]
pub struct GetBlock {
    pub id: BlockIdExt,
}

/// Asks for the state of a block.
#[derive(Debug, Clone, PartialEq, Eq)]
pub struct GetState {
    pub id: BlockIdExt,
}

/// Asks for the header of a block and for the proofs that each set flag names.
#[derive(Debug, PartialEq, Eq)]
pub struct GetBlockHeader {
    pub id: BlockIdExt,
    pub mode: (),
    pub with_state_update: Option<()>,
    pub with_value_flow: Option<()>,
    pub with_extra: Option<()>,
    pub with_shard_hashes: Option<()>,
    pub with_prev_blk_signatures: Option<()>,
}

/// Hands an external message to the server.
#[derive(Debug, Clone, PartialEq, Eq)]
pub struct SendMessage {
    pub body: Vec<u8>,
}

/// Asks for the state of an account at a block.
#[derive(Debug, Clone, PartialEq, Eq)]
pub struct GetAccountState {
    pub id: BlockIdExt,
    pub account: AccountId,
}

/// Asks the server to run a get-method of a smart contract.
#[derive(Debug, Clone, PartialEq, Eq)]
pub struct RunSmcMethod {
    pub mode: u32,
    pub id: BlockIdExt,
    pub account: AccountId,
    pub method_id: u64,
    pub params: Vec<u8>,
}

/// Asks for the description of a shard at a masterchain block.
#[derive(Debug, Clone, PartialEq, Eq)]
pub struct GetShardInfo {
    pub id: BlockIdExt,
    pub workchain: i32,
    pub shard: u64,
    pub exact: bool,
}

/// Asks for the descriptions of all shards at a masterchain block.
#[derive(Debug, Clone, PartialEq, Eq)]
pub struct GetAllShardsInfo {
    pub id: BlockIdExt,
}

/// Asks for one transaction of an account in a block.
#[derive(Debug, Clone, PartialEq, Eq)]
pub struct GetOneTransaction {
    pub id: BlockIdExt,
    pub account: AccountId,
    pub lt: u64,
}

/// Asks for up to `count` transactions of an account, going back from the
/// transaction with logical time `lt` and hash `hash`.
#[derive(Debug, Clone, PartialEq, Eq)]
pub struct GetTransactions {
    pub count: u32,
    pub account: AccountId,
    pub lt: u64,
    pub hash: Int256,
}

/// Looks a block up by sequence number, logical time or unix time.
#[derive(Debug, PartialEq, Eq)]
pub struct LookupBlock {
    pub mode: (),
    pub id: BlockId,
    pub seqno: Option<()>,
    pub lt: Option<u64>,
    pub utime: Option<u32>,
    pub with_state_update: Option<()>,
    pub with_value_flow: Option<()>,
    pub with_extra: Option<()>,
    pub with_shard_hashes: Option<()>,
    pub with_prev_blk_signatures: Option<()>,
}

/// Lists up to `count` transactions of a block, after `after` when it is given.
#[derive(Debug, PartialEq, Eq)]
pub struct ListBlockTransactions {
    pub id: BlockIdExt,
    pub mode: (),
    pub count: u32,
    pub after: Option<TransactionId3>,
    pub reverse_order: Option<()>,
    pub want_proof: Option<()>,
}

/// Asks for a chain of proofs from a known block to a target block.
#[derive(Debug, PartialEq, Eq)]
pub struct GetBlockProof {
    pub mode: (),
    pub known_block: BlockIdExt,
    pub target_block: Option<BlockIdExt>,
    pub allow_weak_target: Option<()>,
    pub base_block_from_request: Option<()>,
}

/// Asks for the whole configuration at a block, with the parts each set
/// flag names.
#[derive(Debug, PartialEq, Eq)]
pub struct GetConfigAll {
    pub mode: (),
    pub id: BlockIdExt,
    pub with_state_root: Option<()>,
    pub with_libraries: Option<()>,
    pub with_state_extra_root: Option<()>,
    pub with_shard_hashes: Option<()>,
    pub with_validator_set: Option<()>,
    pub with_special_smc: Option<()>,
    pub with_accounts_root: Option<()>,
    pub with_prev_blocks: Option<()>,
    pub with_workchain_info: Option<()>,
    pub with_capabilities: Option<()>,
    pub extract_from_key_block: Option<()>,
}

/// Asks for the listed configuration parameters at a block, with the parts
/// each set flag names.
#[derive(Debug, PartialEq, Eq)]
pub struct GetConfigParams {
    pub mode: (),
    pub id: BlockIdExt,
    pub param_list: Vec<i32>,
    pub with_state_root: Option<()>,
    pub with_libraries: Option<()>,
    pub with_state_extra_root: Option<()>,
    pub with_shard_hashes: Option<()>,
    pub with_validator_set: Option<()>,
    pub with_special_smc: Option<()>,
    pub with_accounts_root: Option<()>,
    pub with_prev_blocks: Option<()>,
    pub with_workchain_info: Option<()>,
    pub with_capabilities: Option<()>,
    pub extract_from_key_block: Option<()>,
}

/// Asks for up to `limit` validator statistics of a block.
#[derive(Debug, PartialEq, Eq)]
pub struct GetValidatorStats {
    pub mode: (),
    pub id: BlockIdExt,
    pub limit: u32,
    pub start_after: Option<Int256>,
    pub modified_after: Option<u32>,
}

/// Asks for the libraries with the listed hashes.
#[derive(Debug, Clone, PartialEq, Eq)]
pub struct GetLibraries {
    pub library_list: Vec<Int256>,
}

/// A query to a lite server.
#[derive(Debug, PartialEq, Eq)]
pub enum Request {
    GetMasterchainInfo,
    GetMasterchainInfoExt(GetMasterchainInfoExt),
    GetTime,
    GetVersion,
    GetBlock(GetBlock),
    GetState(GetState),
    GetBlockHeader(GetBlockHeader),
    SendMessage(SendMessage),
    GetAccountState(GetAccountState),
    RunSmcMethod(RunSmcMethod),
    GetShardInfo(GetShardInfo),
    GetAllShardsInfo(GetAllShardsInfo),
    GetOneTransaction(GetOneTransaction),
    GetTransactions(GetTransactions),
    LookupBlock(LookupBlock),
    ListBlockTransactions(ListBlockTransactions),
    ListBlockTransactionsExt(ListBlockTransactions),
    GetBlockProof(GetBlockProof),
    GetConfigAll(GetConfigAll),
    GetConfigParams(GetConfigParams),
    GetValidatorStats(GetValidatorStats),
    GetLibraries(GetLibraries),
}

/// Asks the server to wait, for at most `timeout_ms` milliseconds, until it
/// knows the masterchain block `seqno` before it answers.
#[derive(Debug, Clone, Copy, PartialEq, Eq)]
pub struct WaitMasterchainSeqno {
    pub seqno: u32,
    pub timeout_ms: u32,
}

/// A query as it is sent: the query itself, and the masterchain block that
/// the server must know first, if any.
#[derive(Debug, PartialEq, Eq)]
pub struct WrappedRequest {
    pub wait_masterchain_seqno: Option<WaitMasterchainSeqno>,
    pub request: Request,
}

} // verus!
