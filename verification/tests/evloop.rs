use autotest::evloop::{EvLoopCtl, PoolStep, ReadOutcome, Req, Res};


#[test]
fn read_delivers_only_what_is_new() {
    let mut ctl = EvLoopCtl::new(0);
    let (logged, step) = ctl.event_loop().pool(5, ReadOutcome::Data(b"abc".to_vec()));
    assert_eq!(logged, b"abc".to_vec());
    assert_eq!(step, PoolStep::Wait);
    match ctl.send(Req::Read) {
        Ok(Res::Value(v)) => assert_eq!(v, b"abc".to_vec()),
        other => panic!("unexpected answer {:?}", other),
    }
    match ctl.send(Req::Read) {
        Ok(Res::Value(v)) => assert!(v.is_empty()),
        other => panic!("unexpected answer {:?}", other),
    }
}

#[test]
fn write_is_queued_for_the_device() {
    let mut ctl = EvLoopCtl::new(0);
    assert!(matches!(ctl.send(Req::Write(b"ls".to_vec())), Ok(Res::Done)));
    assert!(matches!(ctl.send(Req::Write(b"\r".to_vec())), Ok(Res::Done)));
    assert_eq!(ctl.event_loop().take_outgoing(), b"ls\r".to_vec());
    assert!(ctl.event_loop().take_outgoing().is_empty());
}

#[test]
fn dump_delivers_the_whole_history() {
    let mut ctl = EvLoopCtl::new(0);
    ctl.event_loop().pool(1, ReadOutcome::Data(b"ab".to_vec()));
    assert!(matches!(ctl.send(Req::Read), Ok(Res::Value(v)) if v == b"ab".to_vec()));
    ctl.event_loop().pool(2, ReadOutcome::Data(b"cd".to_vec()));
    assert_eq!(ctl.event_loop().last_read_index(), 2);
    assert!(matches!(ctl.send(Req::Dump), Ok(Res::Value(v)) if v == b"abcd".to_vec()));
    assert_eq!(ctl.event_loop().last_read_index(), 2);
    assert!(matches!(ctl.send(Req::Read), Ok(Res::Value(v)) if v == b"cd".to_vec()));
    assert_eq!(ctl.event_loop().last_read_index(), 4);
    assert_eq!(ctl.event_loop().history(), b"abcd".to_vec());
}

#[test]
fn requests_are_paced() {
    let mut ctl = EvLoopCtl::new(100);
    let lp = ctl.event_loop();
    assert_eq!(lp.pool(1099, ReadOutcome::TimedOut).1, PoolStep::Wait);
    assert_eq!(lp.pool(1100, ReadOutcome::Data(Vec::new())).1, PoolStep::Serve);
    assert_eq!(lp.pool(1101, ReadOutcome::TimedOut).1, PoolStep::Wait);
    assert_eq!(lp.pool(2099, ReadOutcome::TimedOut).1, PoolStep::Wait);
    assert_eq!(lp.pool(2100, ReadOutcome::TimedOut).1, PoolStep::Serve);
}

#[test]
fn a_failed_read_ends_the_loop() {
    let mut ctl = EvLoopCtl::new(0);
    assert_eq!(ctl.event_loop().pool(5000, ReadOutcome::Failed), (Vec::new(), PoolStep::Exit));
    assert!(ctl.event_loop().is_stopped());
    assert!(ctl.send(Req::Dump).is_err());
    assert_eq!(ctl.event_loop().pool(9000, ReadOutcome::Data(b"x".to_vec())).1, PoolStep::Exit);
    assert!(ctl.event_loop().history().is_empty());
    let mut other = EvLoopCtl::new(0);
    other.event_loop().fail();
    assert!(other.send(Req::Read).is_err());
    assert!(other.event_loop().try_read_buffer(ReadOutcome::Failed).is_err());
}

#[test]
fn a_refused_write_ends_the_loop_without_an_answer() {
    let mut ctl = EvLoopCtl::new(0);
    let answer = ctl.send(Req::Write(b"ls\r".to_vec())).unwrap();
    assert!(matches!(ctl.event_loop().after_write(true, answer), Some(Res::Done)));
    assert!(!ctl.event_loop().is_stopped());
    let answer = ctl.send(Req::Write(b"pwd\r".to_vec())).unwrap();
    assert!(ctl.event_loop().after_write(false, answer).is_none());
    assert!(ctl.event_loop().is_stopped());
    assert!(ctl.send(Req::Read).is_err());
}
