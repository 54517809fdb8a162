use tower::Service;
use tower::ServiceExt;
use liteapi::client::{LiteClient, LiteClientTrait, LiteService, WAIT_MASTERCHAIN_TIMEOUT_MS};
use liteapi::tl::common::{flag, AccountId, BlockId, BlockIdExt, Int256, TransactionId3};
use liteapi::tl::request::{
    GetAccountState, GetAllShardsInfo, GetBlock, GetBlockHeader, GetBlockProof, GetConfigAll,
    GetConfigParams, GetLibraries, GetMasterchainInfoExt, GetOneTransaction, GetShardInfo,
    GetState, GetTransactions, GetValidatorStats, ListBlockTransactions, LookupBlock, Request,
    RunSmcMethod, SendMessage, WaitMasterchainSeqno, WrappedRequest,
};
use liteapi::tl::response::{
    BlockData, BlockHeader, CurrentTime, Error, LibraryEntry, LibraryResult, Response,
    SendMsgStatus, Version,
};
use liteapi::types::LiteError;

fn echo_time_service(now: u32) -> LiteService {
    tower::util::BoxService::new(tower::service_fn(move |_request: WrappedRequest| {
        std::future::ready(Ok::<Response, LiteError>(Response::CurrentTime(CurrentTime { now })))
    }))
}

fn client() -> LiteClient {
    LiteClient::new(echo_time_service(1), "127.0.0.1:4924".to_string(), vec![1, 2, 3])
}

fn block(seqno: u32) -> BlockIdExt {
    BlockIdExt {
        workchain: -1,
        shard: 0x8000_0000_0000_0000,
        seqno,
        root_hash: Int256([seqno as u8; 32]),
        file_hash: Int256([0xab; 32]),
    }
}

fn account() -> AccountId {
    AccountId { workchain: 0, id: Int256([7; 32]) }
}

fn wait(seqno: u32) -> Option<WaitMasterchainSeqno> {
    Some(WaitMasterchainSeqno { seqno, timeout_ms: 10000 })
}

fn server_error() -> Error {
    Error { code: 651, message: "block not found".to_string() }
}

#[test]
fn new_client_waits_for_nothing() {
    let mut c = client();
    assert_eq!(c.address(), "127.0.0.1:4924");
    assert_eq!(c.pubkey(), &vec![1u8, 2, 3]);
    let w = c.get_time_query();
    assert_eq!(w, WrappedRequest { wait_masterchain_seqno: None, request: Request::GetTime });
}

#[test]
fn wait_goes_with_next_query_only() {
    let mut c = client().wait_masterchain_seqno(42);
    let first = c.get_masterchain_info_query();
    assert_eq!(first.wait_masterchain_seqno, wait(42));
    assert_eq!(first.request, Request::GetMasterchainInfo);
    let second = c.get_version_query();
    assert_eq!(second.wait_masterchain_seqno, None);
    assert_eq!(second.request, Request::GetVersion);
}

#[test]
fn set_wait_goes_with_next_query_only() {
    let mut c = client();
    c.set_wait_masterchain_seqno(9);
    let first = c.get_block_query(block(3));
    assert_eq!(first.wait_masterchain_seqno, wait(9));
    assert_eq!(first.request, Request::GetBlock(GetBlock { id: block(3) }));
    let second = c.get_block_query(block(3));
    assert_eq!(second.wait_masterchain_seqno, None);
}

#[test]
fn last_wait_wins() {
    let mut c = client().wait_masterchain_seqno(1);
    c.set_wait_masterchain_seqno(2);
    let w = c.get_time_query();
    assert_eq!(w.wait_masterchain_seqno, wait(2));
}

#[test]
fn wait_timeout_is_ten_seconds() {
    assert_eq!(WAIT_MASTERCHAIN_TIMEOUT_MS, 10000);
    let mut c = client();
    c.set_wait_masterchain_seqno(0);
    assert_eq!(c.wrap_request(Request::GetTime).wait_masterchain_seqno.unwrap().timeout_ms, 10000);
}

#[test]
fn new_connection_keeps_pending_wait_and_peer() {
    let mut c = client().wait_masterchain_seqno(5);
    c.set_service(echo_time_service(2));
    assert_eq!(c.address(), "127.0.0.1:4924");
    assert_eq!(c.pubkey(), &vec![1u8, 2, 3]);
    assert_eq!(c.get_time_query().wait_masterchain_seqno, wait(5));
}

#[test]
fn exchange_over_the_connection() {
    let mut c = LiteClient::new(echo_time_service(1_700_000_000), "a".to_string(), vec![]);
    let query = c.get_time_query();
    let runtime = tokio::runtime::Builder::new_current_thread().build().unwrap();
    let answer = runtime.block_on(async { c.service_mut().ready().await?.call(query).await });
    assert_eq!(LiteClient::get_time_answer(answer), Ok(1_700_000_000));
}

#[test]
fn flags() {
    assert_eq!(flag(true), Some(()));
    assert_eq!(flag(false), None);
}

#[test]
fn simple_queries() {
    let mut c = client();
    assert_eq!(
        c.get_masterchain_info_ext_query(3).request,
        Request::GetMasterchainInfoExt(GetMasterchainInfoExt { mode: 3 })
    );
    assert_eq!(c.get_state_query(block(4)).request, Request::GetState(GetState { id: block(4) }));
    assert_eq!(
        c.send_message_query(vec![0xb5, 0xee]).request,
        Request::SendMessage(SendMessage { body: vec![0xb5, 0xee] })
    );
    assert_eq!(
        c.get_account_state_query(block(5), account()).request,
        Request::GetAccountState(GetAccountState { id: block(5), account: account() })
    );
    assert_eq!(
        c.get_all_shards_info_query(block(6)).request,
        Request::GetAllShardsInfo(GetAllShardsInfo { id: block(6) })
    );
    assert_eq!(
        c.get_libraries_query(vec![Int256([1; 32])]).request,
        Request::GetLibraries(GetLibraries { library_list: vec![Int256([1; 32])] })
    );
}

#[test]
fn run_smc_method_query() {
    let mut c = client();
    let w = c.run_smc_method_query(4, block(1), account(), 85143, vec![1, 2]);
    assert_eq!(
        w.request,
        Request::RunSmcMethod(RunSmcMethod {
            mode: 4,
            id: block(1),
            account: account(),
            method_id: 85143,
            params: vec![1, 2],
        })
    );
}

#[test]
fn shard_and_transaction_queries() {
    let mut c = client();
    assert_eq!(
        c.get_shard_info_query(block(1), 0, 1 << 63, true).request,
        Request::GetShardInfo(GetShardInfo { id: block(1), workchain: 0, shard: 1 << 63, exact: true })
    );
    assert_eq!(
        c.get_one_transaction_query(block(2), account(), 77).request,
        Request::GetOneTransaction(GetOneTransaction { id: block(2), account: account(), lt: 77 })
    );
    assert_eq!(
        c.get_transactions_query(10, account(), 88, Int256([9; 32])).request,
        Request::GetTransactions(GetTransactions {
            count: 10,
            account: account(),
            lt: 88,
            hash: Int256([9; 32]),
        })
    );
}

#[test]
fn block_header_query_flags() {
    let mut c = client();
    let w = c.get_block_header_query(block(8), true, false, true, false, true);
    assert_eq!(
        w.request,
        Request::GetBlockHeader(GetBlockHeader {
            id: block(8),
            mode: (),
            with_state_update: Some(()),
            with_value_flow: None,
            with_extra: Some(()),
            with_shard_hashes: None,
            with_prev_blk_signatures: Some(()),
        })
    );
}

#[test]
fn lookup_block_query() {
    let mut c = client();
    let id = BlockId { workchain: -1, shard: 1 << 63, seqno: 100 };
    let w = c.lookup_block_query((), id, Some(()), None, Some(1_600_000_000), false, false, false, true, false);
    assert_eq!(
        w.request,
        Request::LookupBlock(LookupBlock {
            mode: (),
            id,
            seqno: Some(()),
            lt: None,
            utime: Some(1_600_000_000),
            with_state_update: None,
            with_value_flow: None,
            with_extra: None,
            with_shard_hashes: Some(()),
            with_prev_blk_signatures: None,
        })
    );
}

#[test]
fn list_block_transactions_queries() {
    let mut c = client();
    let after = Some(TransactionId3 { account: Int256([3; 32]), lt: 5 });
    let expected = ListBlockTransactions {
        id: block(2),
        mode: (),
        count: 16,
        after,
        reverse_order: Some(()),
        want_proof: None,
    };
    assert_eq!(
        c.list_block_transactions_query(block(2), 16, after, true, false).request,
        Request::ListBlockTransactions(expected)
    );
    let expected_ext = ListBlockTransactions {
        id: block(2),
        mode: (),
        count: 16,
        after,
        reverse_order: Some(()),
        want_proof: None,
    };
    assert_eq!(
        c.list_block_transactions_ext_query(block(2), 16, after, true, false).request,
        Request::ListBlockTransactionsExt(expected_ext)
    );
}

#[test]
fn block_proof_query() {
    let mut c = client();
    assert_eq!(
        c.get_block_proof_query(block(1), Some(block(9)), false, true).request,
        Request::GetBlockProof(GetBlockProof {
            mode: (),
            known_block: block(1),
            target_block: Some(block(9)),
            allow_weak_target: None,
            base_block_from_request: Some(()),
        })
    );
    assert_eq!(
        c.get_block_proof_query(block(1), None, true, false).request,
        Request::GetBlockProof(GetBlockProof {
            mode: (),
            known_block: block(1),
            target_block: None,
            allow_weak_target: Some(()),
            base_block_from_request: None,
        })
    );
}

#[test]
fn config_queries() {
    let mut c = client();
    let w = c.get_config_all_query(block(1), true, false, false, true, false, false, true, false, false, true, true);
    assert_eq!(
        w.request,
        Request::GetConfigAll(GetConfigAll {
            mode: (),
            id: block(1),
            with_state_root: Some(()),
            with_libraries: None,
            with_state_extra_root: None,
            with_shard_hashes: Some(()),
            with_validator_set: None,
            with_special_smc: None,
            with_accounts_root: Some(()),
            with_prev_blocks: None,
            with_workchain_info: None,
            with_capabilities: Some(()),
            extract_from_key_block: Some(()),
        })
    );
    let w = c.get_config_params_query(
        block(2), vec![34, 36], false, true, true, false, true, true, false, true, true, false, false,
    );
    assert_eq!(
        w.request,
        Request::GetConfigParams(GetConfigParams {
            mode: (),
            id: block(2),
            param_list: vec![34, 36],
            with_state_root: None,
            with_libraries: Some(()),
            with_state_extra_root: Some(()),
            with_shard_hashes: None,
            with_validator_set: Some(()),
            with_special_smc: Some(()),
            with_accounts_root: None,
            with_prev_blocks: Some(()),
            with_workchain_info: Some(()),
            with_capabilities: None,
            extract_from_key_block: None,
        })
    );
}

#[test]
fn validator_stats_query() {
    let mut c = client();
    assert_eq!(
        c.get_validator_stats_query(block(1), 1000, Some(Int256([2; 32])), Some(12)).request,
        Request::GetValidatorStats(GetValidatorStats {
            mode: (),
            id: block(1),
            limit: 1000,
            start_after: Some(Int256([2; 32])),
            modified_after: Some(12),
        })
    );
}

#[test]
fn receive_answer_of_the_asked_kind() {
    let v = Version { version: 0x101, capabilities: 7, now: 99 };
    assert_eq!(LiteClient::receive::<Version>(Ok(Response::Version(v.clone()))), Ok(v));
}

#[test]
fn receive_errors() {
    let e = LiteError::TransportError("closed".to_string());
    assert_eq!(LiteClient::receive::<Version>(Err(e.clone())), Err(e));
    assert_eq!(
        LiteClient::receive::<Version>(Ok(Response::Error(server_error()))),
        Err(LiteError::ServerError(server_error()))
    );
    assert_eq!(
        LiteClient::receive::<Version>(Ok(Response::CurrentTime(CurrentTime { now: 1 }))),
        Err(LiteError::UnexpectedMessage)
    );
}

#[test]
fn answers_read_their_part() {
    assert_eq!(LiteClient::get_time_answer(Ok(Response::CurrentTime(CurrentTime { now: 12345 }))), Ok(12345));
    assert_eq!(
        LiteClient::get_block_answer(Ok(Response::BlockData(BlockData { id: block(1), data: vec![1, 2, 3] }))),
        Ok(vec![1, 2, 3])
    );
    assert_eq!(
        LiteClient::get_block_header_answer(Ok(Response::BlockHeader(BlockHeader {
            id: block(1),
            header_proof: vec![4, 5],
        }))),
        Ok(vec![4, 5])
    );
    assert_eq!(
        LiteClient::send_message_answer(Ok(Response::SendMsgStatus(SendMsgStatus { status: 1 }))),
        Ok(1)
    );
    let entry = LibraryEntry { hash: Int256([5; 32]), data: vec![6] };
    assert_eq!(
        LiteClient::get_libraries_answer(Ok(Response::LibraryResult(LibraryResult { result: vec![entry.clone()] }))),
        Ok(vec![entry])
    );
}

#[test]
fn answers_of_the_wrong_kind_or_refused() {
    assert_eq!(
        LiteClient::get_time_answer(Ok(Response::SendMsgStatus(SendMsgStatus { status: 1 }))),
        Err(LiteError::UnexpectedMessage)
    );
    assert_eq!(
        LiteClient::get_block_answer(Ok(Response::Error(server_error()))),
        Err(LiteError::ServerError(server_error()))
    );
    assert_eq!(
        LiteClient::send_message_answer(Err(LiteError::TransportError("reset".to_string()))),
        Err(LiteError::TransportError("reset".to_string()))
    );
}
