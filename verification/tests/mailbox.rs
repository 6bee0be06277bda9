use promising_future::mailbox;

#[test]
fn mailbox_basic() {
    {
        let (mut m, p) = mailbox();
        assert!(!p.isdead());
        assert_eq!(m.take(), Ok(None));
        p.post(123).expect("post");
        assert_eq!(m.take(), Ok(Some(123)));
        assert_eq!(m.take(), Err(()));
        m.release();
    }
    {
        let (m, p) = mailbox();
        p.post(123).expect("post");
        assert_eq!(m.wait().ok().unwrap(), 123);
    }
}

#[test]
fn postdead() {
    {
        let (mut m, p) = mailbox::<()>();
        p.release();
        assert!(m.take().is_err())
    }
    {
        let (m, p) = mailbox::<()>();
        p.release();
        assert!(m.wait().is_err())
    }
}

#[test]
fn boxdead() {
    let (m, p) = mailbox();
    m.release();
    assert!(p.isdead());
    assert_eq!(p.post(123), Err(123))
}

#[test]
fn wait_after_post() {
    let (m, p) = mailbox();
    assert!(!p.isdead());
    assert_eq!(p.post("x"), Ok(()));
    assert_eq!(m.wait(), Ok("x"));
}

#[test]
fn take_once_then_nothing_more() {
    let (mut m, p) = mailbox::<i32>();
    p.post(1).expect("post");
    assert_eq!(m.take(), Ok(Some(1)));
    assert_eq!(m.take(), Err(()));
    assert_eq!(m.wait(), Err(()));
}
