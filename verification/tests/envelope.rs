use bastion::message::{Msg, ReplyPoll};

#[test]
fn tell_downcast_match_returns_value() {
    let msg = Msg::tell(42i32);
    assert!(msg.is_tell());
    assert!(!msg.is_broadcast());
    assert!(!msg.is_ask());
    assert_eq!(msg.downcast::<i32>().ok(), Some(42i32));
}

#[test]
fn tell_downcast_mismatch_returns_envelope_unchanged() {
    let msg = Msg::tell("hello");
    let msg = match msg.downcast::<i32>() {
        Ok(_) => panic!("an i32 candidate must not match a str payload"),
        Err(envelope) => envelope,
    };
    assert!(msg.is_tell());
    assert_eq!(msg.downcast::<&'static str>().ok(), Some("hello"));
}

#[test]
fn ask_downcast_mismatch_keeps_sender() {
    let (msg, _answer) = Msg::ask(7u16);
    let mut msg = match msg.downcast::<String>() {
        Ok(_) => panic!("a String candidate must not match a u16 payload"),
        Err(envelope) => envelope,
    };
    assert!(msg.is_ask());
    assert!(msg.take_sender().is_some());
}

#[test]
fn broadcast_downcast_ref_yields_equal_shared_views() {
    let msg = Msg::broadcast(7u64);
    let first = msg.downcast_ref::<u64>().expect("the payload type matches");
    let second = msg.downcast_ref::<u64>().expect("the envelope is untouched");
    assert_eq!(*first, 7u64);
    assert_eq!(*second, 7u64);
    assert!(msg.is_broadcast());
}

#[test]
fn broadcast_downcast_ref_mismatch_yields_none() {
    let msg = Msg::broadcast(7u64);
    assert!(msg.downcast_ref::<i32>().is_none());
    assert!(msg.is_broadcast());
    assert_eq!(msg.downcast_ref::<u64>().map(|v| *v), Some(7u64));
}

#[test]
fn downcast_ref_on_tell_yields_none() {
    let msg = Msg::tell(7u64);
    assert!(msg.downcast_ref::<u64>().is_none());
}

#[test]
fn downcast_on_broadcast_returns_envelope() {
    let msg = Msg::broadcast(5u8);
    let msg = match msg.downcast::<u8>() {
        Ok(_) => panic!("a broadcast payload cannot be moved out by downcast"),
        Err(envelope) => envelope,
    };
    assert!(msg.is_broadcast());
}

#[test]
fn try_clone_succeeds_only_on_broadcast() {
    let broadcast = Msg::broadcast(3u8);
    let clone = broadcast.try_clone().expect("broadcast envelopes are clonable");
    assert!(clone.is_broadcast());
    assert_eq!(clone.downcast_ref::<u8>().map(|v| *v), Some(3u8));

    let tell = Msg::tell(3u8);
    assert!(tell.try_clone().is_none());

    let (ask, _answer) = Msg::ask(3u8);
    assert!(ask.try_clone().is_none());
}

#[test]
fn take_sender_detaches_exactly_once() {
    let (mut msg, _answer) = Msg::ask(1u8);
    assert!(msg.take_sender().is_some());
    assert!(msg.take_sender().is_none());
    assert!(msg.is_ask());

    let mut tell = Msg::tell(1u8);
    assert!(tell.take_sender().is_none());
    let mut broadcast = Msg::broadcast(1u8);
    assert!(broadcast.take_sender().is_none());
}

#[test]
fn try_unwrap_recovers_last_broadcast_handle() {
    let msg = Msg::broadcast(11i64);
    assert_eq!(msg.try_unwrap::<i64>().ok(), Some(11i64));
}

#[test]
fn try_unwrap_fails_while_a_view_is_live() {
    let msg = Msg::broadcast(11i64);
    let view = msg.downcast_ref::<i64>().expect("the payload type matches");
    let msg = match msg.try_unwrap::<i64>() {
        Ok(_) => panic!("another live handle must prevent unwrapping"),
        Err(envelope) => envelope,
    };
    assert!(msg.is_broadcast());
    assert_eq!(*view, 11i64);
    drop(view);
    assert_eq!(msg.try_unwrap::<i64>().ok(), Some(11i64));
}

#[test]
fn try_unwrap_on_tell_behaves_like_downcast() {
    let msg = Msg::tell(11i64);
    assert_eq!(msg.try_unwrap::<i64>().ok(), Some(11i64));

    let msg = Msg::tell(11i64);
    let msg = match msg.try_unwrap::<u8>() {
        Ok(_) => panic!("a u8 candidate must not match an i64 payload"),
        Err(envelope) => envelope,
    };
    assert!(msg.is_tell());
}

#[test]
fn ask_dispatcher_probes_candidates_in_order() {
    let (mut envelope, mut answer) = Msg::ask("ping");
    let sender = envelope.take_sender().expect("an ask envelope carries a sender");
    let envelope = match envelope.downcast::<i32>() {
        Ok(_) => panic!("an i32 candidate must not match a str payload"),
        Err(e) => e,
    };
    let question = envelope.downcast::<&'static str>().ok().expect("the str candidate matches");
    assert_eq!(question, "ping");
    assert!(sender.send("pong").is_ok());
    let reply = match answer.poll_reply() {
        ReplyPoll::Delivered(reply) => reply,
        _ => panic!("the reply was sent"),
    };
    assert!(reply.is_tell());
    assert_eq!(reply.downcast::<&'static str>().ok(), Some("pong"));
}
