use vstd::prelude::*;

use crate::tl::common::{flag, flag_of, AccountId, BlockId, BlockIdExt, Int256, TransactionId3};
use crate::tl::request::{
    GetAccountState, GetAllShardsInfo, GetBlock, GetBlockHeader, GetBlockProof, GetConfigAll,
    GetConfigParams, GetLibraries, GetMasterchainInfoExt, GetOneTransaction, GetShardInfo,
    GetState, GetTransactions, GetValidatorStats, ListBlockTransactions, LookupBlock, Request,
    RunSmcMethod, SendMessage, WaitMasterchainSeqno, WrappedRequest,
};
use crate::tl::response::{
    BlockData, BlockHeader, CurrentTime, Error, LibraryEntry, LibraryResult, Response,
    SendMsgStatus,
};
use crate::tl::utils::FromResponse;
use crate::types::LiteError;

verus! {

/// The boxed `tower` service that carries queries to a lite server and
/// brings back its answers. The client holds it and hands it out; it never
/// looks inside it.
#[verifier::external_type_specification]
#[verifier::external_body]
#[verifier::reject_recursive_types(T)]
#[verifier::reject_recursive_types(U)]
#[verifier::reject_recursive_types(E)]
pub struct ExBoxService<T, U, E>(tower::util::BoxService<T, U, E>);

/// The connection a client sends its queries over.
pub type LiteService = tower::util::BoxService<WrappedRequest, Response, LiteError>;

/// How long, in milliseconds, the server may wait for a masterchain block
/// that a query asks it to know first.
pub const WAIT_MASTERCHAIN_TIMEOUT_MS: u32 = 10000;

/// What a client keeps between queries, seen as plain values.
pub struct LiteClientView {
    /// The masterchain block that the next query asks the server to know first.
    pub wait_seqno: Option<u32>,
    /// Where the client connects.
    pub address: Seq<char>,
    /// The server's public key.
    pub pubkey: Seq<u8>,
}

/// The wait that a pending sequence number puts on a query.
pub open spec fn wait_for(wait_seqno: Option<u32>) -> Option<WaitMasterchainSeqno> {
    match wait_seqno {
        Some(seqno) => Some(
            WaitMasterchainSeqno { seqno, timeout_ms: WAIT_MASTERCHAIN_TIMEOUT_MS },
        ),
        None => None,
    }
}

impl LiteClientView {
    /// The client after it was told to make its next query wait for `seqno`.
    pub open spec fn with_wait(self, seqno: u32) -> LiteClientView {
        LiteClientView { wait_seqno: Some(seqno), ..self }
    }

    /// The client after it sent a query: nothing is pending any more.
    pub open spec fn sent(self) -> LiteClientView {
        LiteClientView { wait_seqno: None, ..self }
    }

    /// The query this client sends for `request`.
    pub open spec fn wrap(self, request: Request) -> WrappedRequest {
        WrappedRequest { wait_masterchain_seqno: wait_for(self.wait_seqno), request }
    }
}

/// A client of a lite server.
///
/// It holds the connection and what the next query must carry. Each
/// operation comes in two steps: a `..._query` method that builds what is
/// sent, and a reading of what came back (`receive`, or an `..._answer`
/// function where the operation returns one part of the answer).
pub struct LiteClient {
    inner: LiteService,
    wait_seqno: Option<u32>,
    address: String,
    pubkey: Vec<u8>,
}

impl View for LiteClient {
    type V = LiteClientView;

    closed spec fn view(&self) -> LiteClientView {
        LiteClientView { wait_seqno: self.wait_seqno, address: self.address@, pubkey: self.pubkey@ }
    }
}

/// The part of a lite client that its users can rely on whatever the
/// implementation: a sequence number that the next query waits for.
pub trait LiteClientTrait {
    /// The state of the client.
    spec fn state(&self) -> LiteClientView;

    /// The client, set to make its next query wait for the masterchain block `seqno`.
    fn wait_masterchain_seqno(self, seqno: u32) -> (r: Self) where Self: Sized
        ensures
            r.state() == self.state().with_wait(seqno),
    ;

    /// Makes the next query wait for the masterchain block `seqno`.
    fn set_wait_masterchain_seqno(&mut self, seqno: u32)
        ensures
            final(self).state() == old(self).state().with_wait(seqno),
    ;
}

impl LiteClientTrait for LiteClient {
    open spec fn state(&self) -> LiteClientView {
        self@
    }

    fn wait_masterchain_seqno(self, seqno: u32) -> (r: Self)
        ensures
            r.service() == self.service(),
    {
        let mut client = self;
        client.wait_seqno = Some(seqno);
        client
    }

    fn set_wait_masterchain_seqno(&mut self, seqno: u32)
        ensures
            final(self).service() == old(self).service(),
    {
        self.wait_seqno = Some(seqno);
    }
}

impl LiteClient {
    /// The connection the client holds.
    pub closed spec fn service(&self) -> LiteService {
        self.inner
    }

    /// `next` is `self` after it sent `request` as `wrapped`.
    pub open spec fn sends(
        self,
        next: LiteClient,
        request: Request,
        wrapped: WrappedRequest,
    ) -> bool {
        &&& wrapped == self@.wrap(request)
        &&& next@ == self@.sent()
        &&& next.service() == self.service()
    }

    /// What a client reads from an answer: a failed exchange gives its error,
    /// a refusal gives the server's error, and otherwise the answer must be
    /// of the kind `T`.
    pub open spec fn received<T: FromResponse>(
        answer: Result<Response, LiteError>,
    ) -> Result<T, LiteError> {
        match answer {
            Err(e) => Err(e),
            Ok(Response::Error(e)) => Err(LiteError::ServerError(e)),
            Ok(response) => match T::of_response(response) {
                Some(x) => Ok(x),
                None => Err(LiteError::UnexpectedMessage),
            },
        }
    }

    /// A client over the connection `inner` to the server at `address` with
    /// the public key `pubkey`, with nothing pending.
    pub fn new(inner: LiteService, address: String, pubkey: Vec<u8>) -> (c: LiteClient)
        ensures
            c@ == (LiteClientView { wait_seqno: None, address: address@, pubkey: pubkey@ }),
            c.service() == inner,
    {
        LiteClient { inner, wait_seqno: None, address, pubkey }
    }

    /// Where the client connects.
    pub fn address(&self) -> (r: &String)
        ensures
            r@ == self@.address,
    {
        &self.address
    }

    /// The server's public key.
    pub fn pubkey(&self) -> (r: &Vec<u8>)
        ensures
            r@ == self@.pubkey,
    {
        &self.pubkey
    }

    /// Puts a new connection in place of the old one; what is pending stays.
    pub fn set_service(&mut self, inner: LiteService)
        ensures
            final(self)@ == old(self)@,
            final(self).service() == inner,
    {
        self.inner = inner;
    }

    /// The connection, to send a query over.
    pub fn service_mut(&mut self) -> (s: &mut LiteService)
        ensures
            *s == old(self).service(),
            final(self)@ == old(self)@,
            final(self).service() == *final(s),
    {
        &mut self.inner
    }

    /// Wraps `request` for sending: the pending sequence number, if any, goes
    /// with it and is used up.
    pub fn wrap_request(&mut self, request: Request) -> (w: WrappedRequest)
        ensures
            old(self).sends(*final(self), request, w),
    {
        let wait_seqno = self.wait_seqno;
        self.wait_seqno = None;
        let wait_masterchain_seqno = match wait_seqno {
            Some(seqno) => Some(
                WaitMasterchainSeqno { seqno, timeout_ms: WAIT_MASTERCHAIN_TIMEOUT_MS },
            ),
            None => None,
        };
        WrappedRequest { wait_masterchain_seqno, request }
    }

    /// Reads an answer of the kind `T`.
    pub fn receive<T: FromResponse>(
        answer: Result<Response, LiteError>,
    ) -> (r: Result<T, LiteError>)
        ensures
            r == Self::received::<T>(answer),
    {
        match answer {
            Err(e) => Err(e),
            Ok(Response::Error(e)) => Err(LiteError::ServerError(e)),
            Ok(response) => T::from_response(response),
        }
    }

    /// The query for the last masterchain block the server knows.
    pub fn get_masterchain_info_query(&mut self) -> (w: WrappedRequest)
        ensures
            old(self).sends(*final(self), Request::GetMasterchainInfo, w),
    {
        self.wrap_request(Request::GetMasterchainInfo)
    }

    /// The query for the last masterchain block, with the extra fields `mode` selects.
    pub fn get_masterchain_info_ext_query(&mut self, mode: u32) -> (w: WrappedRequest)
        ensures
            old(self).sends(
                *final(self),
                Request::GetMasterchainInfoExt(GetMasterchainInfoExt { mode }),
                w,
            ),
    {
        self.wrap_request(Request::GetMasterchainInfoExt(GetMasterchainInfoExt { mode }))
    }

    /// The query for the server's clock.
    pub fn get_time_query(&mut self) -> (w: WrappedRequest)
        ensures
            old(self).sends(*final(self), Request::GetTime, w),
    {
        self.wrap_request(Request::GetTime)
    }

    /// The query for the server's version.
    pub fn get_version_query(&mut self) -> (w: WrappedRequest)
        ensures
            old(self).sends(*final(self), Request::GetVersion, w),
    {
        self.wrap_request(Request::GetVersion)
    }

    /// The query for the data of block `id`.
    pub fn get_block_query(&mut self, id: BlockIdExt) -> (w: WrappedRequest)
        ensures
            old(self).sends(*final(self), Request::GetBlock(GetBlock { id }), w),
    {
        self.wrap_request(Request::GetBlock(GetBlock { id }))
    }

    /// The query for the state of block `id`.
    pub fn get_state_query(&mut self, id: BlockIdExt) -> (w: WrappedRequest)
        ensures
            old(self).sends(*final(self), Request::GetState(GetState { id }), w),
    {
        self.wrap_request(Request::GetState(GetState { id }))
    }

    /// The query for the header of block `id`, with a proof for each flag that is `true`.
    pub fn get_block_header_query(
        &mut self,
        id: BlockIdExt,
        with_state_update: bool,
        with_value_flow: bool,
        with_extra: bool,
        with_shard_hashes: bool,
        with_prev_blk_signatures: bool,
    ) -> (w: WrappedRequest)
        ensures
            old(self).sends(*final(self), Request::GetBlockHeader(GetBlockHeader {
                id,
                mode: (),
                with_state_update: flag_of(with_state_update),
                with_value_flow: flag_of(with_value_flow),
                with_extra: flag_of(with_extra),
                with_shard_hashes: flag_of(with_shard_hashes),
                with_prev_blk_signatures: flag_of(with_prev_blk_signatures),
            }), w),
    {
        self.wrap_request(Request::GetBlockHeader(GetBlockHeader {
            id,
            mode: (),
            with_state_update: flag(with_state_update),
            with_value_flow: flag(with_value_flow),
            with_extra: flag(with_extra),
            with_shard_hashes: flag(with_shard_hashes),
            with_prev_blk_signatures: flag(with_prev_blk_signatures),
        }))
    }

    /// The query that hands the external message `body` to the server.
    pub fn send_message_query(&mut self, body: Vec<u8>) -> (w: WrappedRequest)
        ensures
            old(self).sends(*final(self), Request::SendMessage(SendMessage { body }), w),
    {
        self.wrap_request(Request::SendMessage(SendMessage { body }))
    }

    /// The query for the state of `account` at block `id`.
    pub fn get_account_state_query(
        &mut self,
        id: BlockIdExt,
        account: AccountId,
    ) -> (w: WrappedRequest)
        ensures
            old(self).sends(
                *final(self),
                Request::GetAccountState(GetAccountState { id, account }),
                w,
            ),
    {
        self.wrap_request(Request::GetAccountState(GetAccountState { id, account }))
    }

    /// The query that runs get-method `method_id` of `account` at block `id` on `params`.
    pub fn run_smc_method_query(
        &mut self,
        mode: u32,
        id: BlockIdExt,
        account: AccountId,
        method_id: u64,
        params: Vec<u8>,
    ) -> (w: WrappedRequest)
        ensures
            old(self).sends(
                *final(self),
                Request::RunSmcMethod(RunSmcMethod { mode, id, account, method_id, params }),
                w,
            ),
    {
        self.wrap_request(Request::RunSmcMethod(RunSmcMethod {
            mode,
            id,
            account,
            method_id,
            params,
        }))
    }

    /// The query for the shard of `workchain` holding `shard` at block `id`.
    pub fn get_shard_info_query(
        &mut self,
        id: BlockIdExt,
        workchain: i32,
        shard: u64,
        exact: bool,
    ) -> (w: WrappedRequest)
        ensures
            old(self).sends(
                *final(self),
                Request::GetShardInfo(GetShardInfo { id, workchain, shard, exact }),
                w,
            ),
    {
        self.wrap_request(Request::GetShardInfo(GetShardInfo { id, workchain, shard, exact }))
    }

    /// The query for all shards at block `id`.
    pub fn get_all_shards_info_query(&mut self, id: BlockIdExt) -> (w: WrappedRequest)
        ensures
            old(self).sends(*final(self), Request::GetAllShardsInfo(GetAllShardsInfo { id }), w),
    {
        self.wrap_request(Request::GetAllShardsInfo(GetAllShardsInfo { id }))
    }

    /// The query for the transaction of `account` at logical time `lt` in block `id`.
    pub fn get_one_transaction_query(
        &mut self,
        id: BlockIdExt,
        account: AccountId,
        lt: u64,
    ) -> (w: WrappedRequest)
        ensures
            old(self).sends(
                *final(self),
                Request::GetOneTransaction(GetOneTransaction { id, account, lt }),
                w,
            ),
    {
        self.wrap_request(Request::GetOneTransaction(GetOneTransaction { id, account, lt }))
    }

    /// The query for up to `count` transactions of `account`, back from the
    /// one at logical time `lt` with hash `hash`.
    pub fn get_transactions_query(
        &mut self,
        count: u32,
        account: AccountId,
        lt: u64,
        hash: Int256,
    ) -> (w: WrappedRequest)
        ensures
            old(self).sends(
                *final(self),
                Request::GetTransactions(GetTransactions { count, account, lt, hash }),
                w,
            ),
    {
        self.wrap_request(Request::GetTransactions(GetTransactions { count, account, lt, hash }))
    }

    /// The query that looks block `id` up, with a proof for each flag that is `true`.
    pub fn lookup_block_query(
        &mut self,
        mode: (),
        id: BlockId,
        seqno: Option<()>,
        lt: Option<u64>,
        utime: Option<u32>,
        with_state_update: bool,
        with_value_flow: bool,
        with_extra: bool,
        with_shard_hashes: bool,
        with_prev_blk_signatures: bool,
    ) -> (w: WrappedRequest)
        ensures
            old(self).sends(*final(self), Request::LookupBlock(LookupBlock {
                mode,
                id,
                seqno,
                lt,
                utime,
                with_state_update: flag_of(with_state_update),
                with_value_flow: flag_of(with_value_flow),
                with_extra: flag_of(with_extra),
                with_shard_hashes: flag_of(with_shard_hashes),
                with_prev_blk_signatures: flag_of(with_prev_blk_signatures),
            }), w),
    {
        self.wrap_request(Request::LookupBlock(LookupBlock {
            mode,
            id,
            seqno,
            lt,
            utime,
            with_state_update: flag(with_state_update),
            with_value_flow: flag(with_value_flow),
            with_extra: flag(with_extra),
            with_shard_hashes: flag(with_shard_hashes),
            with_prev_blk_signatures: flag(with_prev_blk_signatures),
        }))
    }

    /// The query that lists up to `count` transactions of block `id` by name.
    pub fn list_block_transactions_query(
        &mut self,
        id: BlockIdExt,
        count: u32,
        after: Option<TransactionId3>,
        reverse_order: bool,
        want_proof: bool,
    ) -> (w: WrappedRequest)
        ensures
            old(self).sends(*final(self), Request::ListBlockTransactions(ListBlockTransactions {
                id,
                mode: (),
                count,
                after,
                reverse_order: flag_of(reverse_order),
                want_proof: flag_of(want_proof),
            }), w),
    {
        self.wrap_request(Request::ListBlockTransactions(ListBlockTransactions {
            id,
            mode: (),
            count,
            after,
            reverse_order: flag(reverse_order),
            want_proof: flag(want_proof),
        }))
    }

    /// The query that lists up to `count` transactions of block `id` in full.
    pub fn list_block_transactions_ext_query(
        &mut self,
        id: BlockIdExt,
        count: u32,
        after: Option<TransactionId3>,
        reverse_order: bool,
        want_proof: bool,
    ) -> (w: WrappedRequest)
        ensures
            old(self).sends(*final(self), Request::ListBlockTransactionsExt(ListBlockTransactions {
                id,
                mode: (),
                count,
                after,
                reverse_order: flag_of(reverse_order),
                want_proof: flag_of(want_proof),
            }), w),
    {
        self.wrap_request(Request::ListBlockTransactionsExt(ListBlockTransactions {
            id,
            mode: (),
            count,
            after,
            reverse_order: flag(reverse_order),
            want_proof: flag(want_proof),
        }))
    }

    /// The query for a proof from `known_block` to `target_block`, or to the
    /// last block when there is none.
    pub fn get_block_proof_query(
        &mut self,
        known_block: BlockIdExt,
        target_block: Option<BlockIdExt>,
        allow_weak_target: bool,
        base_block_from_request: bool,
    ) -> (w: WrappedRequest)
        ensures
            old(self).sends(*final(self), Request::GetBlockProof(GetBlockProof {
                mode: (),
                known_block,
                target_block,
                allow_weak_target: flag_of(allow_weak_target),
                base_block_from_request: flag_of(base_block_from_request),
            }), w),
    {
        self.wrap_request(Request::GetBlockProof(GetBlockProof {
            mode: (),
            known_block,
            target_block,
            allow_weak_target: flag(allow_weak_target),
            base_block_from_request: flag(base_block_from_request),
        }))
    }

    /// The query for the whole configuration at block `id`, with each part whose flag is `true`.
    pub fn get_config_all_query(
        &mut self,
        id: BlockIdExt,
        with_state_root: bool,
        with_libraries: bool,
        with_state_extra_root: bool,
        with_shard_hashes: bool,
        with_validator_set: bool,
        with_special_smc: bool,
        with_accounts_root: bool,
        with_prev_blocks: bool,
        with_workchain_info: bool,
        with_capabilities: bool,
        extract_from_key_block: bool,
    ) -> (w: WrappedRequest)
        ensures
            old(self).sends(*final(self), Request::GetConfigAll(GetConfigAll {
                mode: (),
                id,
                with_state_root: flag_of(with_state_root),
                with_libraries: flag_of(with_libraries),
                with_state_extra_root: flag_of(with_state_extra_root),
                with_shard_hashes: flag_of(with_shard_hashes),
                with_validator_set: flag_of(with_validator_set),
                with_special_smc: flag_of(with_special_smc),
                with_accounts_root: flag_of(with_accounts_root),
                with_prev_blocks: flag_of(with_prev_blocks),
                with_workchain_info: flag_of(with_workchain_info),
                with_capabilities: flag_of(with_capabilities),
                extract_from_key_block: flag_of(extract_from_key_block),
            }), w),
    {
        self.wrap_request(Request::GetConfigAll(GetConfigAll {
            mode: (),
            id,
            with_state_root: flag(with_state_root),
            with_libraries: flag(with_libraries),
            with_state_extra_root: flag(with_state_extra_root),
            with_shard_hashes: flag(with_shard_hashes),
            with_validator_set: flag(with_validator_set),
            with_special_smc: flag(with_special_smc),
            with_accounts_root: flag(with_accounts_root),
            with_prev_blocks: flag(with_prev_blocks),
            with_workchain_info: flag(with_workchain_info),
            with_capabilities: flag(with_capabilities),
            extract_from_key_block: flag(extract_from_key_block),
        }))
    }

    /// The query for the configuration parameters `param_list` at block `id`,
    /// with each part whose flag is `true`.
    pub fn get_config_params_query(
        &mut self,
        id: BlockIdExt,
        param_list: Vec<i32>,
        with_state_root: bool,
        with_libraries: bool,
        with_state_extra_root: bool,
        with_shard_hashes: bool,
        with_validator_set: bool,
        with_special_smc: bool,
        with_accounts_root: bool,
        with_prev_blocks: bool,
        with_workchain_info: bool,
        with_capabilities: bool,
        extract_from_key_block: bool,
    ) -> (w: WrappedRequest)
        ensures
            old(self).sends(*final(self), Request::GetConfigParams(GetConfigParams {
                mode: (),
                id,
                param_list,
                with_state_root: flag_of(with_state_root),
                with_libraries: flag_of(with_libraries),
                with_state_extra_root: flag_of(with_state_extra_root),
                with_shard_hashes: flag_of(with_shard_hashes),
                with_validator_set: flag_of(with_validator_set),
                with_special_smc: flag_of(with_special_smc),
                with_accounts_root: flag_of(with_accounts_root),
                with_prev_blocks: flag_of(with_prev_blocks),
                with_workchain_info: flag_of(with_workchain_info),
                with_capabilities: flag_of(with_capabilities),
                extract_from_key_block: flag_of(extract_from_key_block),
            }), w),
    {
        self.wrap_request(Request::GetConfigParams(GetConfigParams {
            mode: (),
            id,
            param_list,
            with_state_root: flag(with_state_root),
            with_libraries: flag(with_libraries),
            with_state_extra_root: flag(with_state_extra_root),
            with_shard_hashes: flag(with_shard_hashes),
            with_validator_set: flag(with_validator_set),
            with_special_smc: flag(with_special_smc),
            with_accounts_root: flag(with_accounts_root),
            with_prev_blocks: flag(with_prev_blocks),
            with_workchain_info: flag(with_workchain_info),
            with_capabilities: flag(with_capabilities),
            extract_from_key_block: flag(extract_from_key_block),
        }))
    }

    /// The query for up to `limit` validator statistics of block `id`.
    pub fn get_validator_stats_query(
        &mut self,
        id: BlockIdExt,
        limit: u32,
        start_after: Option<Int256>,
        modified_after: Option<u32>,
    ) -> (w: WrappedRequest)
        ensures
            old(self).sends(
                *final(self),
                Request::GetValidatorStats(GetValidatorStats {
                    mode: (),
                    id,
                    limit,
                    start_after,
                    modified_after,
                }),
                w,
            ),
    {
        self.wrap_request(Request::GetValidatorStats(GetValidatorStats {
            mode: (),
            id,
            limit,
            start_after,
            modified_after,
        }))
    }

    /// The query for the libraries with the hashes in `library_list`.
    pub fn get_libraries_query(&mut self, library_list: Vec<Int256>) -> (w: WrappedRequest)
        ensures
            old(self).sends(*final(self), Request::GetLibraries(GetLibraries { library_list }), w),
    {
        self.wrap_request(Request::GetLibraries(GetLibraries { library_list }))
    }

    /// Reads the server's clock from the answer to `get_time_query`.
    pub fn get_time_answer(answer: Result<Response, LiteError>) -> (r: Result<u32, LiteError>)
        ensures
            r == (match Self::received::<CurrentTime>(answer) {
                Ok(x) => Ok(x.now),
                Err(e) => Err(e),
            }),
    {
        match Self::receive::<CurrentTime>(answer) {
            Ok(x) => Ok(x.now),
            Err(e) => Err(e),
        }
    }

    /// Reads the block data from the answer to `get_block_query`.
    pub fn get_block_answer(answer: Result<Response, LiteError>) -> (r: Result<Vec<u8>, LiteError>)
        ensures
            r == (match Self::received::<BlockData>(answer) {
                Ok(x) => Ok(x.data),
                Err(e) => Err(e),
            }),
    {
        match Self::receive::<BlockData>(answer) {
            Ok(x) => Ok(x.data),
            Err(e) => Err(e),
        }
    }

    /// Reads the header proof from the answer to `get_block_header_query`.
    pub fn get_block_header_answer(
        answer: Result<Response, LiteError>,
    ) -> (r: Result<Vec<u8>, LiteError>)
        ensures
            r == (match Self::received::<BlockHeader>(answer) {
                Ok(x) => Ok(x.header_proof),
                Err(e) => Err(e),
            }),
    {
        match Self::receive::<BlockHeader>(answer) {
            Ok(x) => Ok(x.header_proof),
            Err(e) => Err(e),
        }
    }

    /// Reads the status from the answer to `send_message_query`.
    pub fn send_message_answer(answer: Result<Response, LiteError>) -> (r: Result<u32, LiteError>)
        ensures
            r == (match Self::received::<SendMsgStatus>(answer) {
                Ok(x) => Ok(x.status),
                Err(e) => Err(e),
            }),
    {
        match Self::receive::<SendMsgStatus>(answer) {
            Ok(x) => Ok(x.status),
            Err(e) => Err(e),
        }
    }

    /// Reads the libraries from the answer to `get_libraries_query`.
    pub fn get_libraries_answer(
        answer: Result<Response, LiteError>,
    ) -> (r: Result<Vec<LibraryEntry>, LiteError>)
        ensures
            r == (match Self::received::<LibraryResult>(answer) {
                Ok(x) => Ok(x.result),
                Err(e) => Err(e),
            }),
    {
        match Self::receive::<LibraryResult>(answer) {
            Ok(x) => Ok(x.result),
            Err(e) => Err(e),
        }
    }
}

/// The sequence number that the client was told to wait for goes with the
/// next query, and with that query only.
pub proof fn lemma_wait_applies_to_next_query_only(
    c: LiteClientView,
    seqno: u32,
    first: Request,
    second: Request,
)
    ensures
        c.with_wait(seqno).wrap(first).wait_masterchain_seqno == Some(
            WaitMasterchainSeqno { seqno, timeout_ms: WAIT_MASTERCHAIN_TIMEOUT_MS },
        ),
        c.with_wait(seqno).sent().wrap(second).wait_masterchain_seqno is None,
{
}

/// Of two sequence numbers to wait for, the later one counts.
pub proof fn lemma_last_wait_wins(c: LiteClientView, earlier: u32, later: u32)
    ensures
        c.with_wait(earlier).with_wait(later) == c.with_wait(later),
{
}

/// With nothing pending, a query waits for nothing, and sending it leaves
/// the client as it was.
pub proof fn lemma_no_wait_without_request(c: LiteClientView, request: Request)
    requires
        c.wait_seqno is None,
    ensures
        c.wrap(request).wait_masterchain_seqno is None,
        c.sent() == c,
{
}

/// A query carries the request it was built from, unchanged, and neither
/// waiting nor sending changes where the client connects.
pub proof fn lemma_queries_keep_request_and_peer(c: LiteClientView, request: Request, seqno: u32)
    ensures
        c.wrap(request).request == request,
        c.sent().address == c.address,
        c.sent().pubkey == c.pubkey,
        c.with_wait(seqno).address == c.address,
        c.with_wait(seqno).pubkey == c.pubkey,
{
}

/// An answer that carries a value of the kind asked for reads as that value.
pub proof fn lemma_receive_answer<T: FromResponse>(x: T)
    ensures
        LiteClient::received::<T>(Ok(x.to_response())) == Ok::<T, LiteError>(x),
{
    T::lemma_of_to_response(x);
    match x.to_response() {
        Response::Error(e) => {
            T::lemma_error_is_no_answer(e);
        },
        _ => {},
    }
}

/// A failed exchange gives its own error, and a refusal gives the server's
/// error, whatever kind of answer was asked for.
pub proof fn lemma_receive_errors<T: FromResponse>(e: LiteError, refusal: Error)
    ensures
        LiteClient::received::<T>(Err(e)) == Err::<T, LiteError>(e),
        LiteClient::received::<T>(Ok(Response::Error(refusal))) == Err::<T, LiteError>(
            LiteError::ServerError(refusal),
        ),
{
}

/// An answer of another kind than the one asked for is unexpected.
pub proof fn lemma_receive_other_kind<T: FromResponse>(response: Response)
    requires
        T::of_response(response) is None,
        !(response is Error),
    ensures
        LiteClient::received::<T>(Ok(response)) == Err::<T, LiteError>(
            LiteError::UnexpectedMessage,
        ),
{
}

} // verus!
