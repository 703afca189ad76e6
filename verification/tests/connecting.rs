use bitcoin_core_sv2::context::{
    thread_made, BlockCreateOptions, ConnectAction, ConnectEvent, ConnectState, IpcContext,
};
use bitcoin_core_sv2::error::IpcError;
use bitcoin_core_sv2::types::Capability;
use std::path::PathBuf;

fn cap(id: u64) -> Capability {
    Capability { id }
}

#[test]
fn context_is_reached_step_by_step() {
    let socket = PathBuf::from("/tmp/node.sock");
    let step = IpcContext::new(ConnectState::Starting, ConnectEvent::Started(socket.clone()));
    assert!(
        matches!(step.action, ConnectAction::Connect { unix_socket_path } if unix_socket_path == socket)
    );
    let step = IpcContext::new(step.state, ConnectEvent::Connected(Ok(())));
    assert!(matches!(step.action, ConnectAction::Construct));
    let step = IpcContext::new(step.state, ConnectEvent::Constructed(Ok(cap(1))));
    assert!(matches!(step.action, ConnectAction::MakeThread { thread_map } if thread_map == cap(1)));
    let step = IpcContext::new(step.state, ConnectEvent::ThreadMade(Ok(cap(2))));
    assert!(matches!(step.action, ConnectAction::MakeMining { thread } if thread == cap(2)));
    let step = IpcContext::new(step.state, ConnectEvent::MiningMade(Ok(cap(3))));
    let wanted = BlockCreateOptions {
        block_reserved_weight: 2000,
        coinbase_output_max_additional_sigops: 0,
        use_mempool: true,
    };
    assert!(matches!(
        step.action,
        ConnectAction::CreateNewBlock { mining_client, options }
            if mining_client == cap(3) && options == wanted
    ));
    let step = IpcContext::new(step.state, ConnectEvent::TemplateCreated(Ok(cap(4))));
    assert_eq!(step.state, ConnectState::Done);
    match step.action {
        ConnectAction::Finish(Ok(context)) => {
            assert_eq!(context.thread_map, cap(1));
            assert_eq!(context.mining_client, cap(3));
            assert_eq!(context.block_template_client, cap(4));
            assert_eq!(context.new_thread_client(), cap(1));
        }
        other => panic!("no context: {:?}", other),
    }
}

#[test]
fn missing_socket_ends_the_way() {
    let error = std::io::Error::new(std::io::ErrorKind::NotFound, "no socket");
    let step = IpcContext::new(ConnectState::Connecting, ConnectEvent::Connected(Err(error)));
    assert_eq!(step.state, ConnectState::Done);
    assert!(matches!(
        step.action,
        ConnectAction::Finish(Err(IpcError::Connect(e))) if e.kind() == std::io::ErrorKind::NotFound
    ));
}

#[test]
fn refused_requests_end_the_way() {
    let failed = || capnp::Error::failed("refused".to_string());
    let ways = vec![
        (ConnectState::Constructing, ConnectEvent::Constructed(Err(failed()))),
        (
            ConnectState::MakingThread { thread_map: cap(1) },
            ConnectEvent::ThreadMade(Err(failed())),
        ),
        (
            ConnectState::MakingMining { thread_map: cap(1) },
            ConnectEvent::MiningMade(Err(failed())),
        ),
        (
            ConnectState::CreatingTemplate { thread_map: cap(1), mining_client: cap(3) },
            ConnectEvent::TemplateCreated(Err(failed())),
        ),
    ];
    for (state, event) in ways {
        let step = IpcContext::new(state, event);
        assert_eq!(step.state, ConnectState::Done);
        assert!(matches!(
            step.action,
            ConnectAction::Finish(Err(IpcError::Capnp(e))) if e.extra == "refused"
        ));
    }
}

#[test]
fn unawaited_events_leave_the_way_alone() {
    let step = IpcContext::new(ConnectState::Constructing, ConnectEvent::Connected(Ok(())));
    assert_eq!(step.state, ConnectState::Constructing);
    assert!(matches!(step.action, ConnectAction::KeepWaiting));
}

#[test]
fn every_thread_is_asked_for_and_handed_on() {
    let context =
        IpcContext { thread_map: cap(1), mining_client: cap(2), block_template_client: cap(3) };
    for thread in [10, 11, 10] {
        assert_eq!(context.new_thread_client(), cap(1));
        assert_eq!(thread_made(Ok(cap(thread))).unwrap(), cap(thread));
    }
    let failed = thread_made(Err(capnp::Error::failed("no thread".to_string())));
    assert!(matches!(failed, Err(IpcError::Capnp(e)) if e.extra == "no thread"));
}
