use autotest::evloop::{EvLoopCtl, Req, Res};
use autotest::msg::{MsgReq, MsgRes};
use autotest::server::{Inbox, Server, Tick};
use autotest::service::{Handling, Service};
use autotest::tty::{before_read, ConsoleError};

#[test]
fn test_runner() {
    let mut server = Server::new(Service::new(false));
    match server.pool(Inbox::Request(MsgReq::GetConfig { key: "k".to_string() })) {
        Tick::Work(req) => {
            assert!(matches!(
                server.repo().handle_req(req),
                Handling::Reply(MsgRes::ConfigValue(None))
            ));
        }
        other => panic!("unexpected {:?}", other),
    }
    assert_eq!(server.try_stop(true), Some(vec![]));
    assert!(matches!(server.pool(Inbox::Empty), Tick::Exit));
}

#[test]
fn shutdown_cancels_a_wait_within_a_tick() {
    let mut ctl = EvLoopCtl::new(0);
    assert!(matches!(ctl.send(Req::Stop), Ok(Res::Done)));
    assert!(ctl.send(Req::Read).is_err());
    assert!(matches!(before_read(true, 0, 5000), Some(ConsoleError::Cancel)));
}
