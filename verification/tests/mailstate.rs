// The transitions of the state shared by a mailbox and its post.
use promising_future::mailbox::MailState;
use promising_future::sync::Awaitable;

#[test]
fn mail_delivered_once() {
    let s: MailState<i32> = MailState::new();
    let (s, r) = s.take();
    assert_eq!(r, Ok(None));
    let (s, r) = s.post(7);
    assert_eq!(r, Ok(()));
    assert!(s.isdead());
    let (s, r) = s.take();
    assert_eq!(r, Ok(Some(7)));
    let (_, r) = s.take();
    assert_eq!(r, Err(()));
}

#[test]
fn wait_gets_post() {
    let (s, _) = MailState::new().post(8);
    assert!(!s.must_wait(&()));
    let (s, r) = s.collect();
    assert_eq!(r, Ok(8));
    assert!(s.dead && s.v.is_none());
}

#[test]
fn post_to_gone_mailbox_is_handed_back() {
    let s: MailState<i32> = MailState::new().close();
    let (s, r) = s.post(5);
    assert_eq!(r, Err(5));
    assert!(s.v.is_none());
}

#[test]
fn abandoned_post() {
    let s: MailState<i32> = MailState::new();
    assert!(s.must_wait(&()));
    let s = s.close();
    assert!(!s.must_wait(&()));
    let (s, r) = s.take();
    assert_eq!(r, Err(()));
    let (_, r) = s.collect();
    assert_eq!(r, Err(()));
}
