use bitcoin::consensus::encode::Error as EncodeError;
use bitcoin_core_sv2::context::IpcContext;
use bitcoin_core_sv2::error::IpcError;
use bitcoin_core_sv2::fetch::{
    fetch_template_concurrent, fetch_template_sequential, finish_if_complete, ConcurrentState,
    FetchAction, FetchEvent, FetchThreads, SequentialState, TemplateCall, TemplateData,
};
use bitcoin_core_sv2::types::{BlockHash, BlockHeader, Capability, Transaction};

fn cap(id: u64) -> Capability {
    Capability { id }
}

fn context() -> IpcContext {
    IpcContext { thread_map: cap(1), mining_client: cap(2), block_template_client: cap(3) }
}

fn threads() -> FetchThreads {
    FetchThreads { header: cap(11), coinbase_tx: cap(12), merkle_path: cap(13) }
}

fn header_bytes() -> Vec<u8> {
    (0..80u8).collect()
}

fn coinbase_bytes() -> Vec<u8> {
    let mut bytes: Vec<u8> = vec![1, 0, 0, 0, 1];
    bytes.extend_from_slice(&[0u8; 32]);
    bytes.extend_from_slice(&[0xff, 0xff, 0xff, 0xff, 1, 0x51, 0xff, 0xff, 0xff, 0xff, 1]);
    bytes.extend_from_slice(&[42, 0, 0, 0, 0, 0, 0, 0, 1, 0x51, 0, 0, 0, 0]);
    bytes
}

fn header() -> FetchEvent {
    FetchEvent::Header(Ok(header_bytes()))
}

fn coinbase() -> FetchEvent {
    FetchEvent::CoinbaseTx(Ok(coinbase_bytes()))
}

fn path() -> FetchEvent {
    FetchEvent::MerklePath(Ok(vec![Ok(vec![1u8, 2]), Ok(vec![3u8])]))
}

fn failed(text: &str) -> capnp::Error {
    capnp::Error::failed(text.to_string())
}

fn check_data(data: &TemplateData) {
    assert_eq!(data.header.version, 0x03020100);
    assert_eq!(data.header.prev_blockhash.bytes[0], 4);
    assert_eq!(data.header.nonce, 0x4f4e4d4c);
    assert_eq!(data.coinbase_tx.output[0].value, 42);
    assert_eq!(data.merkle_path, vec![vec![1u8, 2], vec![3u8]]);
}

fn run_sequential(events: Vec<FetchEvent>) -> Result<TemplateData, IpcError> {
    let mut step =
        fetch_template_sequential(&context(), SequentialState::Starting, FetchEvent::Started);
    for event in events {
        step = fetch_template_sequential(&context(), step.0, event);
        if let FetchAction::Finish(outcome) = step.1 {
            return outcome;
        }
    }
    panic!("the fetch has no end");
}

fn run_concurrent(events: Vec<FetchEvent>) -> Result<TemplateData, IpcError> {
    let mut step = fetch_template_concurrent(
        &context(),
        &threads(),
        ConcurrentState::Starting,
        FetchEvent::Started,
    );
    for event in events {
        step = fetch_template_concurrent(&context(), &threads(), step.0, event);
        if let FetchAction::Finish(outcome) = step.1 {
            return outcome;
        }
    }
    panic!("the fetch has no end");
}

#[test]
fn sequential_fetch_makes_three_calls_on_one_thread() {
    let call = TemplateCall { template: cap(3), thread: cap(50) };
    let step =
        fetch_template_sequential(&context(), SequentialState::Starting, FetchEvent::Started);
    assert!(matches!(step.1, FetchAction::MakeThread { thread_map } if thread_map == cap(1)));
    let step = fetch_template_sequential(&context(), step.0, FetchEvent::ThreadMade(Ok(cap(50))));
    assert!(matches!(step.1, FetchAction::GetBlockHeader(made) if made == call));
    let step = fetch_template_sequential(&context(), step.0, header());
    assert!(matches!(step.1, FetchAction::GetCoinbaseTx(made) if made == call));
    let step = fetch_template_sequential(&context(), step.0, coinbase());
    assert!(matches!(step.1, FetchAction::GetCoinbaseMerklePath(made) if made == call));
    let step = fetch_template_sequential(&context(), step.0, path());
    assert!(matches!(step.0, SequentialState::Done));
    match step.1 {
        FetchAction::Finish(Ok(data)) => check_data(&data),
        other => panic!("no data: {:?}", other),
    }
}

#[test]
fn concurrent_fetch_makes_three_calls_at_once() {
    let step = fetch_template_concurrent(
        &context(),
        &threads(),
        ConcurrentState::Starting,
        FetchEvent::Started,
    );
    match step.1 {
        FetchAction::GetAll { header, coinbase_tx, merkle_path } => {
            assert_eq!(header, TemplateCall { template: cap(3), thread: cap(11) });
            assert_eq!(coinbase_tx, TemplateCall { template: cap(3), thread: cap(12) });
            assert_eq!(merkle_path, TemplateCall { template: cap(3), thread: cap(13) });
        }
        other => panic!("not all calls: {:?}", other),
    }
}

#[test]
fn both_ways_give_the_same_data() {
    let made = || FetchEvent::ThreadMade(Ok(cap(50)));
    check_data(&run_sequential(vec![made(), header(), coinbase(), path()]).unwrap());
    check_data(&run_concurrent(vec![header(), coinbase(), path()]).unwrap());
    check_data(&run_concurrent(vec![header(), path(), coinbase()]).unwrap());
    check_data(&run_concurrent(vec![coinbase(), header(), path()]).unwrap());
    check_data(&run_concurrent(vec![coinbase(), path(), header()]).unwrap());
    check_data(&run_concurrent(vec![path(), header(), coinbase()]).unwrap());
    check_data(&run_concurrent(vec![path(), coinbase(), header()]).unwrap());
}

#[test]
fn sequential_fetch_ends_at_its_first_failure() {
    let made = || FetchEvent::ThreadMade(Ok(cap(50)));
    let no_thread = run_sequential(vec![FetchEvent::ThreadMade(Err(failed("thread")))]);
    assert!(matches!(no_thread, Err(IpcError::Capnp(e)) if e.extra == "thread"));
    let no_header = run_sequential(vec![made(), FetchEvent::Header(Err(failed("header")))]);
    assert!(matches!(no_header, Err(IpcError::Capnp(e)) if e.extra == "header"));
    let bad_header = run_sequential(vec![made(), FetchEvent::Header(Ok(vec![0u8; 79]))]);
    assert!(matches!(bad_header, Err(IpcError::Decode(EncodeError::Io(_)))));
    let long_header = run_sequential(vec![made(), FetchEvent::Header(Ok(vec![0u8; 81]))]);
    assert!(matches!(long_header, Err(IpcError::Decode(EncodeError::ParseFailed(_)))));
    let no_tx =
        run_sequential(vec![made(), header(), FetchEvent::CoinbaseTx(Err(failed("coinbase")))]);
    assert!(matches!(no_tx, Err(IpcError::Capnp(e)) if e.extra == "coinbase"));
    let bad_tx = run_sequential(vec![made(), header(), FetchEvent::CoinbaseTx(Ok(vec![1u8]))]);
    assert!(matches!(bad_tx, Err(IpcError::Decode(EncodeError::Io(_)))));
    let odd_tx = run_sequential(vec![
        made(),
        header(),
        FetchEvent::CoinbaseTx(Ok(vec![1u8, 0, 0, 0, 0, 5])),
    ]);
    assert!(matches!(
        odd_tx,
        Err(IpcError::Decode(EncodeError::UnsupportedSegwitFlag(5)))
    ));
    let no_path = run_sequential(vec![
        made(),
        header(),
        coinbase(),
        FetchEvent::MerklePath(Err(failed("path"))),
    ]);
    assert!(matches!(no_path, Err(IpcError::Capnp(e)) if e.extra == "path"));
    let bad_path = run_sequential(vec![
        made(),
        header(),
        coinbase(),
        FetchEvent::MerklePath(Ok(vec![Ok(vec![1u8]), Err(failed("item"))])),
    ]);
    assert!(matches!(bad_path, Err(IpcError::Capnp(e)) if e.extra == "item"));
}

#[test]
fn concurrent_fetch_ends_at_the_first_failure_to_arrive() {
    let outcome = run_concurrent(vec![
        path(),
        FetchEvent::CoinbaseTx(Err(failed("coinbase"))),
        FetchEvent::Header(Err(failed("header"))),
    ]);
    assert!(matches!(outcome, Err(IpcError::Capnp(e)) if e.extra == "coinbase"));
    let outcome = run_concurrent(vec![FetchEvent::Header(Ok(Vec::new()))]);
    assert!(matches!(outcome, Err(IpcError::Decode(EncodeError::Io(_)))));
    let outcome = run_concurrent(vec![
        header(),
        FetchEvent::CoinbaseTx(Ok(vec![1u8, 0, 0, 0, 0, 5])),
    ]);
    assert!(matches!(
        outcome,
        Err(IpcError::Decode(EncodeError::UnsupportedSegwitFlag(5)))
    ));
}

#[test]
fn both_ways_fail_together() {
    let made = || FetchEvent::ThreadMade(Ok(cap(50)));
    let bad_header = || FetchEvent::Header(Ok(vec![0u8; 79]));
    let bad_path = || FetchEvent::MerklePath(Err(failed("path")));
    let sequential = run_sequential(vec![made(), bad_header()]);
    assert!(matches!(sequential, Err(IpcError::Decode(_))));
    let concurrent = run_concurrent(vec![coinbase(), bad_path(), bad_header()]);
    assert!(matches!(concurrent, Err(IpcError::Capnp(e)) if e.extra == "path"));
    let concurrent = run_concurrent(vec![coinbase(), bad_header(), bad_path()]);
    assert!(matches!(concurrent, Err(IpcError::Decode(_))));
}

#[test]
fn unawaited_events_leave_a_fetch_alone() {
    let step = fetch_template_sequential(&context(), SequentialState::MakingThread, header());
    assert!(matches!(step, (SequentialState::MakingThread, FetchAction::KeepWaiting)));
    let step =
        fetch_template_concurrent(&context(), &threads(), ConcurrentState::Done, header());
    assert!(matches!(step, (ConcurrentState::Done, FetchAction::KeepWaiting)));
}

#[test]
fn concurrent_fetch_is_complete_with_all_three() {
    let hash = BlockHash { bytes: [5; 32] };
    let header = BlockHeader {
        version: 1,
        prev_blockhash: hash,
        merkle_root: hash,
        time: 2,
        bits: 3,
        nonce: 4,
    };
    let tx = || Transaction { version: 9, lock_time: 8, input: Vec::new(), output: Vec::new() };
    let step = finish_if_complete(Some(header), Some(tx()), Some(Vec::new()));
    assert!(matches!(step.0, ConcurrentState::Done));
    match step.1 {
        FetchAction::Finish(Ok(data)) => {
            assert_eq!(data.header.nonce, 4);
            assert_eq!(data.coinbase_tx.lock_time, 8);
        }
        other => panic!("no data: {:?}", other),
    }
    let step = finish_if_complete(Some(header), None, Some(Vec::new()));
    assert!(matches!(step.1, FetchAction::KeepWaiting));
    assert!(matches!(
        step.0,
        ConcurrentState::Getting { header: Some(_), coinbase_tx: None, merkle_path: Some(_) }
    ));
}
