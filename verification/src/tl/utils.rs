use vstd::prelude::*;

use crate::tl::response::{
    AccountState, AllShardsInfo, BlockData, BlockHeader, BlockState, BlockTransactions,
    BlockTransactionsExt, ConfigInfo, CurrentTime, Error, LibraryResult, MasterchainInfo,
    MasterchainInfoExt, PartialBlockProof, Response, RunMethodResult, SendMsgStatus, ShardInfo,
    TransactionInfo, TransactionList, ValidatorStats, Version,
};
use crate::types::LiteError;

verus! {

/// A kind of answer that a query can call for.
///
/// Each kind is one variant of `Response`: `to_response` puts a value into
/// its variant and `of_response` takes it out again, and the two lemmas say
/// that they undo each other.
pub trait FromResponse: Sized {
    /// The answer that carries `self`.
    spec fn to_response(self) -> Response;

    /// The value that `response` carries, when it is an answer of this kind.
    spec fn of_response(response: Response) -> Option<Self>;

    /// Reads an answer of this kind; any other answer is unexpected.
    fn from_response(response: Response) -> (r: Result<Self, LiteError>)
        ensures
            r == (match Self::of_response(response) {
                Some(x) => Ok(x),
                None => Err(LiteError::UnexpectedMessage),
            }),
    ;

    /// Reading back an answer that carries `x` gives `x`.
    proof fn lemma_of_to_response(x: Self)
        ensures
            Self::of_response(x.to_response()) == Some(x),
    ;

    /// An answer that reads as `x` is the answer that carries `x`.
    proof fn lemma_to_of_response(response: Response)
        ensures
            Self::of_response(response) matches Some(x) ==> x.to_response() == response,
    ;

    /// A refusal is no answer of this kind.
    proof fn lemma_error_is_no_answer(e: Error)
        ensures
            Self::of_response(Response::Error(e)) is None,
    ;
}

impl FromResponse for MasterchainInfo {
    open spec fn to_response(self) -> Response {
        Response::MasterchainInfo(self)
    }

    open spec fn of_response(response: Response) -> Option<Self> {
        match response {
            Response::MasterchainInfo(x) => Some(x),
            _ => None,
        }
    }

    fn from_response(response: Response) -> (r: Result<Self, LiteError>)
        ensures
            r == (match response {
                Response::MasterchainInfo(x) => Ok(x),
                _ => Err(LiteError::UnexpectedMessage),
            }),
    {
        match response {
            Response::MasterchainInfo(x) => Ok(x),
            _ => Err(LiteError::UnexpectedMessage),
        }
    }

    proof fn lemma_of_to_response(x: Self) {
    }

    proof fn lemma_to_of_response(response: Response) {
    }

    proof fn lemma_error_is_no_answer(e: Error) {
    }
}

impl FromResponse for MasterchainInfoExt {
    open spec fn to_response(self) -> Response {
        Response::MasterchainInfoExt(self)
    }

    open spec fn of_response(response: Response) -> Option<Self> {
        match response {
            Response::MasterchainInfoExt(x) => Some(x),
            _ => None,
        }
    }

    fn from_response(response: Response) -> (r: Result<Self, LiteError>)
        ensures
            r == (match response {
                Response::MasterchainInfoExt(x) => Ok(x),
                _ => Err(LiteError::UnexpectedMessage),
            }),
    {
        match response {
            Response::MasterchainInfoExt(x) => Ok(x),
            _ => Err(LiteError::UnexpectedMessage),
        }
    }

    proof fn lemma_of_to_response(x: Self) {
    }

    proof fn lemma_to_of_response(response: Response) {
    }

    proof fn lemma_error_is_no_answer(e: Error) {
    }
}

impl FromResponse for CurrentTime {
    open spec fn to_response(self) -> Response {
        Response::CurrentTime(self)
    }

    open spec fn of_response(response: Response) -> Option<Self> {
        match response {
            Response::CurrentTime(x) => Some(x),
            _ => None,
        }
    }

    fn from_response(response: Response) -> (r: Result<Self, LiteError>)
        ensures
            r == (match response {
                Response::CurrentTime(x) => Ok(x),
                _ => Err(LiteError::UnexpectedMessage),
            }),
    {
        match response {
            Response::CurrentTime(x) => Ok(x),
            _ => Err(LiteError::UnexpectedMessage),
        }
    }

    proof fn lemma_of_to_response(x: Self) {
    }

    proof fn lemma_to_of_response(response: Response) {
    }

    proof fn lemma_error_is_no_answer(e: Error) {
    }
}

impl FromResponse for Version {
    open spec fn to_response(self) -> Response {
        Response::Version(self)
    }

    open spec fn of_response(response: Response) -> Option<Self> {
        match response {
            Response::Version(x) => Some(x),
            _ => None,
        }
    }

    fn from_response(response: Response) -> (r: Result<Self, LiteError>)
        ensures
            r == (match response {
                Response::Version(x) => Ok(x),
                _ => Err(LiteError::UnexpectedMessage),
            }),
    {
        match response {
            Response::Version(x) => Ok(x),
            _ => Err(LiteError::UnexpectedMessage),
        }
    }

    proof fn lemma_of_to_response(x: Self) {
    }

    proof fn lemma_to_of_response(response: Response) {
    }

    proof fn lemma_error_is_no_answer(e: Error) {
    }
}

impl FromResponse for BlockData {
    open spec fn to_response(self) -> Response {
        Response::BlockData(self)
    }

    open spec fn of_response(response: Response) -> Option<Self> {
        match response {
            Response::BlockData(x) => Some(x),
            _ => None,
        }
    }

    fn from_response(response: Response) -> (r: Result<Self, LiteError>)
        ensures
            r == (match response {
                Response::BlockData(x) => Ok(x),
                _ => Err(LiteError::UnexpectedMessage),
            }),
    {
        match response {
            Response::BlockData(x) => Ok(x),
            _ => Err(LiteError::UnexpectedMessage),
        }
    }

    proof fn lemma_of_to_response(x: Self) {
    }

    proof fn lemma_to_of_response(response: Response) {
    }

    proof fn lemma_error_is_no_answer(e: Error) {
    }
}

impl FromResponse for BlockState {
    open spec fn to_response(self) -> Response {
        Response::BlockState(self)
    }

    open spec fn of_response(response: Response) -> Option<Self> {
        match response {
            Response::BlockState(x) => Some(x),
            _ => None,
        }
    }

    fn from_response(response: Response) -> (r: Result<Self, LiteError>)
        ensures
            r == (match response {
                Response::BlockState(x) => Ok(x),
                _ => Err(LiteError::UnexpectedMessage),
            }),
    {
        match response {
            Response::BlockState(x) => Ok(x),
            _ => Err(LiteError::UnexpectedMessage),
        }
    }

    proof fn lemma_of_to_response(x: Self) {
    }

    proof fn lemma_to_of_response(response: Response) {
    }

    proof fn lemma_error_is_no_answer(e: Error) {
    }
}

impl FromResponse for BlockHeader {
    open spec fn to_response(self) -> Response {
        Response::BlockHeader(self)
    }

    open spec fn of_response(response: Response) -> Option<Self> {
        match response {
            Response::BlockHeader(x) => Some(x),
            _ => None,
        }
    }

    fn from_response(response: Response) -> (r: Result<Self, LiteError>)
        ensures
            r == (match response {
                Response::BlockHeader(x) => Ok(x),
                _ => Err(LiteError::UnexpectedMessage),
            }),
    {
        match response {
            Response::BlockHeader(x) => Ok(x),
            _ => Err(LiteError::UnexpectedMessage),
        }
    }

    proof fn lemma_of_to_response(x: Self) {
    }

    proof fn lemma_to_of_response(response: Response) {
    }

    proof fn lemma_error_is_no_answer(e: Error) {
    }
}

impl FromResponse for SendMsgStatus {
    open spec fn to_response(self) -> Response {
        Response::SendMsgStatus(self)
    }

    open spec fn of_response(response: Response) -> Option<Self> {
        match response {
            Response::SendMsgStatus(x) => Some(x),
            _ => None,
        }
    }

    fn from_response(response: Response) -> (r: Result<Self, LiteError>)
        ensures
            r == (match response {
                Response::SendMsgStatus(x) => Ok(x),
                _ => Err(LiteError::UnexpectedMessage),
            }),
    {
        match response {
            Response::SendMsgStatus(x) => Ok(x),
            _ => Err(LiteError::UnexpectedMessage),
        }
    }

    proof fn lemma_of_to_response(x: Self) {
    }

    proof fn lemma_to_of_response(response: Response) {
    }

    proof fn lemma_error_is_no_answer(e: Error) {
    }
}

impl FromResponse for AccountState {
    open spec fn to_response(self) -> Response {
        Response::AccountState(self)
    }

    open spec fn of_response(response: Response) -> Option<Self> {
        match response {
            Response::AccountState(x) => Some(x),
            _ => None,
        }
    }

    fn from_response(response: Response) -> (r: Result<Self, LiteError>)
        ensures
            r == (match response {
                Response::AccountState(x) => Ok(x),
                _ => Err(LiteError::UnexpectedMessage),
            }),
    {
        match response {
            Response::AccountState(x) => Ok(x),
            _ => Err(LiteError::UnexpectedMessage),
        }
    }

    proof fn lemma_of_to_response(x: Self) {
    }

    proof fn lemma_to_of_response(response: Response) {
    }

    proof fn lemma_error_is_no_answer(e: Error) {
    }
}

impl FromResponse for RunMethodResult {
    open spec fn to_response(self) -> Response {
        Response::RunMethodResult(self)
    }

    open spec fn of_response(response: Response) -> Option<Self> {
        match response {
            Response::RunMethodResult(x) => Some(x),
            _ => None,
        }
    }

    fn from_response(response: Response) -> (r: Result<Self, LiteError>)
        ensures
            r == (match response {
                Response::RunMethodResult(x) => Ok(x),
                _ => Err(LiteError::UnexpectedMessage),
            }),
    {
        match response {
            Response::RunMethodResult(x) => Ok(x),
            _ => Err(LiteError::UnexpectedMessage),
        }
    }

    proof fn lemma_of_to_response(x: Self) {
    }

    proof fn lemma_to_of_response(response: Response) {
    }

    proof fn lemma_error_is_no_answer(e: Error) {
    }
}

impl FromResponse for ShardInfo {
    open spec fn to_response(self) -> Response {
        Response::ShardInfo(self)
    }

    open spec fn of_response(response: Response) -> Option<Self> {
        match response {
            Response::ShardInfo(x) => Some(x),
            _ => None,
        }
    }

    fn from_response(response: Response) -> (r: Result<Self, LiteError>)
        ensures
            r == (match response {
                Response::ShardInfo(x) => Ok(x),
                _ => Err(LiteError::UnexpectedMessage),
            }),
    {
        match response {
            Response::ShardInfo(x) => Ok(x),
            _ => Err(LiteError::UnexpectedMessage),
        }
    }

    proof fn lemma_of_to_response(x: Self) {
    }

    proof fn lemma_to_of_response(response: Response) {
    }

    proof fn lemma_error_is_no_answer(e: Error) {
    }
}

impl FromResponse for AllShardsInfo {
    open spec fn to_response(self) -> Response {
        Response::AllShardsInfo(self)
    }

    open spec fn of_response(response: Response) -> Option<Self> {
        match response {
            Response::AllShardsInfo(x) => Some(x),
            _ => None,
        }
    }

    fn from_response(response: Response) -> (r: Result<Self, LiteError>)
        ensures
            r == (match response {
                Response::AllShardsInfo(x) => Ok(x),
                _ => Err(LiteError::UnexpectedMessage),
            }),
    {
        match response {
            Response::AllShardsInfo(x) => Ok(x),
            _ => Err(LiteError::UnexpectedMessage),
        }
    }

    proof fn lemma_of_to_response(x: Self) {
    }

    proof fn lemma_to_of_response(response: Response) {
    }

    proof fn lemma_error_is_no_answer(e: Error) {
    }
}

impl FromResponse for TransactionInfo {
    open spec fn to_response(self) -> Response {
        Response::TransactionInfo(self)
    }

    open spec fn of_response(response: Response) -> Option<Self> {
        match response {
            Response::TransactionInfo(x) => Some(x),
            _ => None,
        }
    }

    fn from_response(response: Response) -> (r: Result<Self, LiteError>)
        ensures
            r == (match response {
                Response::TransactionInfo(x) => Ok(x),
                _ => Err(LiteError::UnexpectedMessage),
            }),
    {
        match response {
            Response::TransactionInfo(x) => Ok(x),
            _ => Err(LiteError::UnexpectedMessage),
        }
    }

    proof fn lemma_of_to_response(x: Self) {
    }

    proof fn lemma_to_of_response(response: Response) {
    }

    proof fn lemma_error_is_no_answer(e: Error) {
    }
}

impl FromResponse for TransactionList {
    open spec fn to_response(self) -> Response {
        Response::TransactionList(self)
    }

    open spec fn of_response(response: Response) -> Option<Self> {
        match response {
            Response::TransactionList(x) => Some(x),
            _ => None,
        }
    }

    fn from_response(response: Response) -> (r: Result<Self, LiteError>)
        ensures
            r == (match response {
                Response::TransactionList(x) => Ok(x),
                _ => Err(LiteError::UnexpectedMessage),
            }),
    {
        match response {
            Response::TransactionList(x) => Ok(x),
            _ => Err(LiteError::UnexpectedMessage),
        }
    }

    proof fn lemma_of_to_response(x: Self) {
    }

    proof fn lemma_to_of_response(response: Response) {
    }

    proof fn lemma_error_is_no_answer(e: Error) {
    }
}

impl FromResponse for BlockTransactions {
    open spec fn to_response(self) -> Response {
        Response::BlockTransactions(self)
    }

    open spec fn of_response(response: Response) -> Option<Self> {
        match response {
            Response::BlockTransactions(x) => Some(x),
            _ => None,
        }
    }

    fn from_response(response: Response) -> (r: Result<Self, LiteError>)
        ensures
            r == (match response {
                Response::BlockTransactions(x) => Ok(x),
                _ => Err(LiteError::UnexpectedMessage),
            }),
    {
        match response {
            Response::BlockTransactions(x) => Ok(x),
            _ => Err(LiteError::UnexpectedMessage),
        }
    }

    proof fn lemma_of_to_response(x: Self) {
    }

    proof fn lemma_to_of_response(response: Response) {
    }

    proof fn lemma_error_is_no_answer(e: Error) {
    }
}

impl FromResponse for BlockTransactionsExt {
    open spec fn to_response(self) -> Response {
        Response::BlockTransactionsExt(self)
    }

    open spec fn of_response(response: Response) -> Option<Self> {
        match response {
            Response::BlockTransactionsExt(x) => Some(x),
            _ => None,
        }
    }

    fn from_response(response: Response) -> (r: Result<Self, LiteError>)
        ensures
            r == (match response {
                Response::BlockTransactionsExt(x) => Ok(x),
                _ => Err(LiteError::UnexpectedMessage),
            }),
    {
        match response {
            Response::BlockTransactionsExt(x) => Ok(x),
            _ => Err(LiteError::UnexpectedMessage),
        }
    }

    proof fn lemma_of_to_response(x: Self) {
    }

    proof fn lemma_to_of_response(response: Response) {
    }

    proof fn lemma_error_is_no_answer(e: Error) {
    }
}

impl FromResponse for PartialBlockProof {
    open spec fn to_response(self) -> Response {
        Response::PartialBlockProof(self)
    }

    open spec fn of_response(response: Response) -> Option<Self> {
        match response {
            Response::PartialBlockProof(x) => Some(x),
            _ => None,
        }
    }

    fn from_response(response: Response) -> (r: Result<Self, LiteError>)
        ensures
            r == (match response {
                Response::PartialBlockProof(x) => Ok(x),
                _ => Err(LiteError::UnexpectedMessage),
            }),
    {
        match response {
            Response::PartialBlockProof(x) => Ok(x),
            _ => Err(LiteError::UnexpectedMessage),
        }
    }

    proof fn lemma_of_to_response(x: Self) {
    }

    proof fn lemma_to_of_response(response: Response) {
    }

    proof fn lemma_error_is_no_answer(e: Error) {
    }
}

impl FromResponse for ConfigInfo {
    open spec fn to_response(self) -> Response {
        Response::ConfigInfo(self)
    }

    open spec fn of_response(response: Response) -> Option<Self> {
        match response {
            Response::ConfigInfo(x) => Some(x),
            _ => None,
        }
    }

    fn from_response(response: Response) -> (r: Result<Self, LiteError>)
        ensures
            r == (match response {
                Response::ConfigInfo(x) => Ok(x),
                _ => Err(LiteError::UnexpectedMessage),
            }),
    {
        match response {
            Response::ConfigInfo(x) => Ok(x),
            _ => Err(LiteError::UnexpectedMessage),
        }
    }

    proof fn lemma_of_to_response(x: Self) {
    }

    proof fn lemma_to_of_response(response: Response) {
    }

    proof fn lemma_error_is_no_answer(e: Error) {
    }
}

impl FromResponse for ValidatorStats {
    open spec fn to_response(self) -> Response {
        Response::ValidatorStats(self)
    }

    open spec fn of_response(response: Response) -> Option<Self> {
        match response {
            Response::ValidatorStats(x) => Some(x),
            _ => None,
        }
    }

    fn from_response(response: Response) -> (r: Result<Self, LiteError>)
        ensures
            r == (match response {
                Response::ValidatorStats(x) => Ok(x),
                _ => Err(LiteError::UnexpectedMessage),
            }),
    {
        match response {
            Response::ValidatorStats(x) => Ok(x),
            _ => Err(LiteError::UnexpectedMessage),
        }
    }

    proof fn lemma_of_to_response(x: Self) {
    }

    proof fn lemma_to_of_response(response: Response) {
    }

    proof fn lemma_error_is_no_answer(e: Error) {
    }
}

impl FromResponse for LibraryResult {
    open spec fn to_response(self) -> Response {
        Response::LibraryResult(self)
    }

    open spec fn of_response(response: Response) -> Option<Self> {
        match response {
            Response::LibraryResult(x) => Some(x),
            _ => None,
        }
    }

    fn from_response(response: Response) -> (r: Result<Self, LiteError>)
        ensures
            r == (match response {
                Response::LibraryResult(x) => Ok(x),
                _ => Err(LiteError::UnexpectedMessage),
            }),
    {
        match response {
            Response::LibraryResult(x) => Ok(x),
            _ => Err(LiteError::UnexpectedMessage),
        }
    }

    proof fn lemma_of_to_response(x: Self) {
    }

    proof fn lemma_to_of_response(response: Response) {
    }

    proof fn lemma_error_is_no_answer(e: Error) {
    }
}

/// An answer `MasterchainInfo` reads as exactly the value the server sent, and only
/// such an answer reads as a `MasterchainInfo`.
pub proof fn lemma_reads_masterchain_info(x: MasterchainInfo, response: Response)
    ensures
        MasterchainInfo::of_response(Response::MasterchainInfo(x)) == Some(x),
        x.to_response() == Response::MasterchainInfo(x),
        MasterchainInfo::of_response(response) matches Some(y) ==> response == Response::MasterchainInfo(y),
{
}

/// An answer `MasterchainInfoExt` reads as exactly the value the server sent, and only
/// such an answer reads as a `MasterchainInfoExt`.
pub proof fn lemma_reads_masterchain_info_ext(x: MasterchainInfoExt, response: Response)
    ensures
        MasterchainInfoExt::of_response(Response::MasterchainInfoExt(x)) == Some(x),
        x.to_response() == Response::MasterchainInfoExt(x),
        MasterchainInfoExt::of_response(response) matches Some(y) ==> response == Response::MasterchainInfoExt(y),
{
}

/// An answer `CurrentTime` reads as exactly the value the server sent, and only
/// such an answer reads as a `CurrentTime`.
pub proof fn lemma_reads_current_time(x: CurrentTime, response: Response)
    ensures
        CurrentTime::of_response(Response::CurrentTime(x)) == Some(x),
        x.to_response() == Response::CurrentTime(x),
        CurrentTime::of_response(response) matches Some(y) ==> response == Response::CurrentTime(y),
{
}

/// An answer `Version` reads as exactly the value the server sent, and only
/// such an answer reads as a `Version`.
pub proof fn lemma_reads_version(x: Version, response: Response)
    ensures
        Version::of_response(Response::Version(x)) == Some(x),
        x.to_response() == Response::Version(x),
        Version::of_response(response) matches Some(y) ==> response == Response::Version(y),
{
}

/// An answer `BlockData` reads as exactly the value the server sent, and only
/// such an answer reads as a `BlockData`.
pub proof fn lemma_reads_block_data(x: BlockData, response: Response)
    ensures
        BlockData::of_response(Response::BlockData(x)) == Some(x),
        x.to_response() == Response::BlockData(x),
        BlockData::of_response(response) matches Some(y) ==> response == Response::BlockData(y),
{
}

/// An answer `BlockState` reads as exactly the value the server sent, and only
/// such an answer reads as a `BlockState`.
pub proof fn lemma_reads_block_state(x: BlockState, response: Response)
    ensures
        BlockState::of_response(Response::BlockState(x)) == Some(x),
        x.to_response() == Response::BlockState(x),
        BlockState::of_response(response) matches Some(y) ==> response == Response::BlockState(y),
{
}

/// An answer `BlockHeader` reads as exactly the value the server sent, and only
/// such an answer reads as a `BlockHeader`.
pub proof fn lemma_reads_block_header(x: BlockHeader, response: Response)
    ensures
        BlockHeader::of_response(Response::BlockHeader(x)) == Some(x),
        x.to_response() == Response::BlockHeader(x),
        BlockHeader::of_response(response) matches Some(y) ==> response == Response::BlockHeader(y),
{
}

/// An answer `SendMsgStatus` reads as exactly the value the server sent, and only
/// such an answer reads as a `SendMsgStatus`.
pub proof fn lemma_reads_send_msg_status(x: SendMsgStatus, response: Response)
    ensures
        SendMsgStatus::of_response(Response::SendMsgStatus(x)) == Some(x),
        x.to_response() == Response::SendMsgStatus(x),
        SendMsgStatus::of_response(response) matches Some(y) ==> response == Response::SendMsgStatus(y),
{
}

/// An answer `AccountState` reads as exactly the value the server sent, and only
/// such an answer reads as a `AccountState`.
pub proof fn lemma_reads_account_state(x: AccountState, response: Response)
    ensures
        AccountState::of_response(Response::AccountState(x)) == Some(x),
        x.to_response() == Response::AccountState(x),
        AccountState::of_response(response) matches Some(y) ==> response == Response::AccountState(y),
{
}

/// An answer `RunMethodResult` reads as exactly the value the server sent, and only
/// such an answer reads as a `RunMethodResult`.
pub proof fn lemma_reads_run_method_result(x: RunMethodResult, response: Response)
    ensures
        RunMethodResult::of_response(Response::RunMethodResult(x)) == Some(x),
        x.to_response() == Response::RunMethodResult(x),
        RunMethodResult::of_response(response) matches Some(y) ==> response == Response::RunMethodResult(y),
{
}

/// An answer `ShardInfo` reads as exactly the value the server sent, and only
/// such an answer reads as a `ShardInfo`.
pub proof fn lemma_reads_shard_info(x: ShardInfo, response: Response)
    ensures
        ShardInfo::of_response(Response::ShardInfo(x)) == Some(x),
        x.to_response() == Response::ShardInfo(x),
        ShardInfo::of_response(response) matches Some(y) ==> response == Response::ShardInfo(y),
{
}

/// An answer `AllShardsInfo` reads as exactly the value the server sent, and only
/// such an answer reads as a `AllShardsInfo`.
pub proof fn lemma_reads_all_shards_info(x: AllShardsInfo, response: Response)
    ensures
        AllShardsInfo::of_response(Response::AllShardsInfo(x)) == Some(x),
        x.to_response() == Response::AllShardsInfo(x),
        AllShardsInfo::of_response(response) matches Some(y) ==> response == Response::AllShardsInfo(y),
{
}

/// An answer `TransactionInfo` reads as exactly the value the server sent, and only
/// such an answer reads as a `TransactionInfo`.
pub proof fn lemma_reads_transaction_info(x: TransactionInfo, response: Response)
    ensures
        TransactionInfo::of_response(Response::TransactionInfo(x)) == Some(x),
        x.to_response() == Response::TransactionInfo(x),
        TransactionInfo::of_response(response) matches Some(y) ==> response == Response::TransactionInfo(y),
{
}

/// An answer `TransactionList` reads as exactly the value the server sent, and only
/// such an answer reads as a `TransactionList`.
pub proof fn lemma_reads_transaction_list(x: TransactionList, response: Response)
    ensures
        TransactionList::of_response(Response::TransactionList(x)) == Some(x),
        x.to_response() == Response::TransactionList(x),
        TransactionList::of_response(response) matches Some(y) ==> response == Response::TransactionList(y),
{
}

/// An answer `BlockTransactions` reads as exactly the value the server sent, and only
/// such an answer reads as a `BlockTransactions`.
pub proof fn lemma_reads_block_transactions(x: BlockTransactions, response: Response)
    ensures
        BlockTransactions::of_response(Response::BlockTransactions(x)) == Some(x),
        x.to_response() == Response::BlockTransactions(x),
        BlockTransactions::of_response(response) matches Some(y) ==> response == Response::BlockTransactions(y),
{
}

/// An answer `BlockTransactionsExt` reads as exactly the value the server sent, and only
/// such an answer reads as a `BlockTransactionsExt`.
pub proof fn lemma_reads_block_transactions_ext(x: BlockTransactionsExt, response: Response)
    ensures
        BlockTransactionsExt::of_response(Response::BlockTransactionsExt(x)) == Some(x),
        x.to_response() == Response::BlockTransactionsExt(x),
        BlockTransactionsExt::of_response(response) matches Some(y) ==> response == Response::BlockTransactionsExt(y),
{
}

/// An answer `PartialBlockProof` reads as exactly the value the server sent, and only
/// such an answer reads as a `PartialBlockProof`.
pub proof fn lemma_reads_partial_block_proof(x: PartialBlockProof, response: Response)
    ensures
        PartialBlockProof::of_response(Response::PartialBlockProof(x)) == Some(x),
        x.to_response() == Response::PartialBlockProof(x),
        PartialBlockProof::of_response(response) matches Some(y) ==> response == Response::PartialBlockProof(y),
{
}

/// An answer `ConfigInfo` reads as exactly the value the server sent, and only
/// such an answer reads as a `ConfigInfo`.
pub proof fn lemma_reads_config_info(x: ConfigInfo, response: Response)
    ensures
        ConfigInfo::of_response(Response::ConfigInfo(x)) == Some(x),
        x.to_response() == Response::ConfigInfo(x),
        ConfigInfo::of_response(response) matches Some(y) ==> response == Response::ConfigInfo(y),
{
}

/// An answer `ValidatorStats` reads as exactly the value the server sent, and only
/// such an answer reads as a `ValidatorStats`.
pub proof fn lemma_reads_validator_stats(x: ValidatorStats, response: Response)
    ensures
        ValidatorStats::of_response(Response::ValidatorStats(x)) == Some(x),
        x.to_response() == Response::ValidatorStats(x),
        ValidatorStats::of_response(response) matches Some(y) ==> response == Response::ValidatorStats(y),
{
}

/// An answer `LibraryResult` reads as exactly the value the server sent, and only
/// such an answer reads as a `LibraryResult`.
pub proof fn lemma_reads_library_result(x: LibraryResult, response: Response)
    ensures
        LibraryResult::of_response(Response::LibraryResult(x)) == Some(x),
        x.to_response() == Response::LibraryResult(x),
        LibraryResult::of_response(response) matches Some(y) ==> response == Response::LibraryResult(y),
{
}

} // verus!
