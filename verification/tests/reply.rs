use std::future::Future;
use std::pin::Pin;
use std::task::{Context, Poll};

use bastion::message::{Msg, ReplyPoll};

/// Suspends exactly once without scheduling a wake-up, like a cooperative
/// yield back to the scheduler.
struct SuspendOnce {
    yielded: bool,
}

impl Future for SuspendOnce {
    type Output = ();

    fn poll(self: Pin<&mut Self>, _cx: &mut Context<'_>) -> Poll<()> {
        let this = self.get_mut();
        if this.yielded {
            Poll::Ready(())
        } else {
            this.yielded = true;
            Poll::Pending
        }
    }
}

fn suspend_once() -> SuspendOnce {
    SuspendOnce { yielded: false }
}

#[test]
fn ask_roundtrip_resolves_answer_exactly_once() {
    let (mut msg, mut answer) = Msg::ask(1u8);
    assert!(matches!(answer.poll_reply(), ReplyPoll::Pending));

    let sender = msg.take_sender().expect("an ask envelope carries a sender");
    assert_eq!(msg.downcast::<u8>().ok(), Some(1u8));
    assert!(sender.send(2u8).is_ok());

    match answer.poll_reply() {
        ReplyPoll::Delivered(reply) => {
            assert!(reply.is_tell());
            assert_eq!(reply.downcast::<u8>().ok(), Some(2u8));
        },
        _ => panic!("the reply must be delivered after the send"),
    }
    // Observing again after resolution never yields a second value.
    assert!(matches!(answer.poll_reply(), ReplyPoll::Dropped));
}

#[test]
fn awaiting_loop_suspends_until_the_reply_is_sent() {
    let (mut msg, mut answer) = Msg::ask("ping");
    let sender = msg.take_sender().expect("an ask envelope carries a sender");

    let mut awaiting = Box::pin(async {
        loop {
            match answer.poll_reply() {
                ReplyPoll::Delivered(reply) => return Ok(reply),
                ReplyPoll::Pending => suspend_once().await,
                ReplyPoll::Dropped => return Err(()),
            }
        }
    });

    let waker = futures::task::noop_waker();
    let mut cx = Context::from_waker(&waker);

    // Before the reply is sent, the awaiting loop suspends.
    assert!(awaiting.as_mut().poll(&mut cx).is_pending());
    assert!(awaiting.as_mut().poll(&mut cx).is_pending());

    assert!(sender.send("pong").is_ok());
    match awaiting.as_mut().poll(&mut cx) {
        Poll::Ready(Ok(reply)) => {
            assert!(reply.is_tell());
            assert_eq!(reply.downcast::<&'static str>().ok(), Some("pong"));
        },
        _ => panic!("the awaiting loop must resolve after the send"),
    }
}

#[test]
fn awaiting_loop_fails_after_dropped_sender_without_hanging() {
    let (mut msg, mut answer) = Msg::ask(3u16);
    let sender = msg.take_sender().expect("an ask envelope carries a sender");
    drop(sender);

    let mut awaiting = Box::pin(async {
        loop {
            match answer.poll_reply() {
                ReplyPoll::Delivered(reply) => return Ok(reply),
                ReplyPoll::Pending => suspend_once().await,
                ReplyPoll::Dropped => return Err(()),
            }
        }
    });

    let waker = futures::task::noop_waker();
    let mut cx = Context::from_waker(&waker);

    // The very first poll resolves to the failure: no waiting, no hanging.
    match awaiting.as_mut().poll(&mut cx) {
        Poll::Ready(Err(())) => {},
        _ => panic!("the awaiting loop must fail immediately"),
    }
}

#[test]
fn dropped_sender_polls_as_dropped() {
    let (mut msg, mut answer) = Msg::ask(3u16);
    let sender = msg.take_sender().expect("an ask envelope carries a sender");
    drop(sender);
    assert!(matches!(answer.poll_reply(), ReplyPoll::Dropped));
}

#[test]
fn send_after_answer_dropped_returns_value() {
    let (mut msg, answer) = Msg::ask(4u32);
    let sender = msg.take_sender().expect("an ask envelope carries a sender");
    drop(answer);
    match sender.send(9u32) {
        Ok(()) => panic!("delivery must fail once the answer is gone"),
        Err(value) => assert_eq!(value, 9u32),
    }
}
