use vstd::prelude::*;

use crate::tl::common::{BlockIdExt, Int256, TransactionId, ZeroStateIdExt};

verus! {

/// The last masterchain block a server knows.
#[derive(Debug, Clone, PartialEq, Eq)]
pub struct MasterchainInfo {
    pub last: BlockIdExt,
    pub state_root_hash: Int256,
    pub init: ZeroStateIdExt,
}

/// The last masterchain block a server knows, with the server's version and
/// clock.
#[derive(Debug, Clone, PartialEq, Eq)]
pub struct MasterchainInfoExt {
    pub version: i32,
    pub capabilities: u64,
    pub last: BlockIdExt,
    pub last_utime: u32,
    pub now: u32,
    pub state_root_hash: Int256,
    pub init: ZeroStateIdExt,
}

/// The server's clock, in unix seconds.
#[derive(Debug, Clone, PartialEq, Eq)]
pub struct CurrentTime {
    pub now: u32,
}

/// The server's version and clock.
#[derive(Debug, Clone, PartialEq, Eq)]
pub struct Version {
    pub version: i32,
    pub capabilities: u64,
    pub now: u32,
}

/// The data of a block.
#[derive(Debug, Clone, PartialEq, Eq)]
pub struct BlockData {
    pub id: BlockIdExt,
    pub data: Vec<u8>,
}

/// The state of a block.
#[derive(Debug, Clone, PartialEq, Eq)]
pub struct BlockState {
    pub id: BlockIdExt,
    pub root_hash: Int256,
    pub file_hash: Int256,
    pub data: Vec<u8>,
}

/// The header of a block, as a proof.
#[derive(Debug, Clone, PartialEq, Eq)]
pub struct BlockHeader {
    pub id: BlockIdExt,
    pub header_proof: Vec<u8>,
}

/// What became of an external message.
#[derive(Debug, Clone, PartialEq, Eq)]
pub struct SendMsgStatus {
    pub status: u32,
}

/// The state of an account, with the proofs that tie it to a block.
#[derive(Debug, Clone, PartialEq, Eq)]
pub struct AccountState {
    pub id: BlockIdExt,
    pub shardblk: BlockIdExt,
    pub shard_proof: Vec<u8>,
    pub proof: Vec<u8>,
    pub state: Vec<u8>,
}

/// What a get-method returned, with the proofs that the mode asked for.
#[derive(Debug, Clone, PartialEq, Eq)]
pub struct RunMethodResult {
    pub id: BlockIdExt,
    pub shardblk: BlockIdExt,
    pub shard_proof: Option<Vec<u8>>,
    pub proof: Option<Vec<u8>>,
    pub state_proof: Option<Vec<u8>>,
    pub init_c7: Option<Vec<u8>>,
    pub lib_extras: Option<Vec<u8>>,
    pub exit_code: i32,
    pub result: Option<Vec<u8>>,
}

/// The description of one shard.
#[derive(Debug, Clone, PartialEq, Eq)]
pub struct ShardInfo {
    pub id: BlockIdExt,
    pub shardblk: BlockIdExt,
    pub shard_proof: Vec<u8>,
    pub shard_descr: Vec<u8>,
}

/// The descriptions of all shards.
#[derive(Debug, Clone, PartialEq, Eq)]
pub struct AllShardsInfo {
    pub id: BlockIdExt,
    pub proof: Vec<u8>,
    pub data: Vec<u8>,
}

/// One transaction with its proof.
#[derive(Debug, Clone, PartialEq, Eq)]
pub struct TransactionInfo {
    pub id: BlockIdExt,
    pub proof: Vec<u8>,
    pub transaction: Vec<u8>,
}

/// Transactions of an account and the blocks they belong to.
#[derive(Debug, Clone, PartialEq, Eq)]
pub struct TransactionList {
    pub ids: Vec<BlockIdExt>,
    pub transactions: Vec<u8>,
}

/// Transactions of a block, listed by name.
#[derive(Debug, Clone, PartialEq, Eq)]
pub struct BlockTransactions {
    pub id: BlockIdExt,
    pub req_count: u32,
    pub incomplete: bool,
    pub ids: Vec<TransactionId>,
    pub proof: Vec<u8>,
}

/// Transactions of a block, in full.
#[derive(Debug, Clone, PartialEq, Eq)]
pub struct BlockTransactionsExt {
    pub id: BlockIdExt,
    pub req_count: u32,
    pub incomplete: bool,
    pub transactions: Vec<u8>,
    pub proof: Vec<u8>,
}

/// A validator's signature.
#[derive(Debug, Clone, PartialEq, Eq)]
pub struct Signature {
    pub node_id_short: Int256,
    pub signature: Vec<u8>,
}

/// Signatures of a validator set.
#[derive(Debug, Clone, PartialEq, Eq)]
pub struct SignatureSet {
    pub validator_set_hash: i32,
    pub catchain_seqno: i32,
    pub signatures: Vec<Signature>,
}

/// One step of a block proof.
#[derive(Debug, Clone, PartialEq, Eq)]
pub enum BlockLink {
    BlockLinkBack {
        to_key_block: bool,
        from: BlockIdExt,
        to: BlockIdExt,
        dest_proof: Vec<u8>,
        proof: Vec<u8>,
        state_proof: Vec<u8>,
    },
    BlockLinkForward {
        to_key_block: bool,
        from: BlockIdExt,
        to: BlockIdExt,
        dest_proof: Vec<u8>,
        config_proof: Vec<u8>,
        signatures: SignatureSet,
    },
}

/// A chain of proofs from one block to another; `complete` says whether it
/// reaches the target.
#[derive(Debug, Clone, PartialEq, Eq)]
pub struct PartialBlockProof {
    pub complete: bool,
    pub from: BlockIdExt,
    pub to: BlockIdExt,
    pub steps: Vec<BlockLink>,
}

/// Configuration at a block, with its proofs.
#[derive(Debug, Clone, PartialEq, Eq)]
pub struct ConfigInfo {
    pub id: BlockIdExt,
    pub state_proof: Vec<u8>,
    pub config_proof: Vec<u8>,
}

/// Validator statistics of a block.
#[derive(Debug, Clone, PartialEq, Eq)]
pub struct ValidatorStats {
    pub id: BlockIdExt,
    pub count: i32,
    pub complete: bool,
    pub state_proof: Vec<u8>,
    pub data_proof: Vec<u8>,
}

/// A library and its code.
#[derive(Debug, Clone, PartialEq, Eq)]
pub struct LibraryEntry {
    pub hash: Int256,
    pub data: Vec<u8>,
}

/// The libraries a server found.
#[derive(Debug, Clone, PartialEq, Eq)]
pub struct LibraryResult {
    pub result: Vec<LibraryEntry>,
}

/// A query that the server refused, with its code and message.
#[derive(Debug, Clone, PartialEq, Eq)]
pub struct Error {
    pub code: i32,
    pub message: String,
}

/// An answer from a lite server.
#[derive(Debug, Clone, PartialEq, Eq)]
pub enum Response {
    MasterchainInfo(MasterchainInfo),
    MasterchainInfoExt(MasterchainInfoExt),
    CurrentTime(CurrentTime),
    Version(Version),
    BlockData(BlockData),
    BlockState(BlockState),
    BlockHeader(BlockHeader),
    SendMsgStatus(SendMsgStatus),
    AccountState(AccountState),
    RunMethodResult(RunMethodResult),
    ShardInfo(ShardInfo),
    AllShardsInfo(AllShardsInfo),
    TransactionInfo(TransactionInfo),
    TransactionList(TransactionList),
    BlockTransactions(BlockTransactions),
    BlockTransactionsExt(BlockTransactionsExt),
    PartialBlockProof(PartialBlockProof),
    ConfigInfo(ConfigInfo),
    ValidatorStats(ValidatorStats),
    LibraryResult(LibraryResult),
    Error(Error),
}

} // verus!
