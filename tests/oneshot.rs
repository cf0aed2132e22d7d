use std::sync::Arc;

use tarantool::cbus::{LCPipe, RecvError};
use tarantool::oneshot::{channel, channel_on_pipe, Cord, EndpointReceiver, Receive};

/// Runs a receive to its end on the cord: the cord's loop runs whatever
/// arrives while the task is suspended. Returns whether the task yielded.
fn receive_to_end<T>(cord: &mut Cord<T>, receiver: EndpointReceiver<T>) -> (bool, Result<T, RecvError>) {
    let mut step = receiver.receive(cord);
    let mut yielded = false;
    loop {
        match step {
            Receive::Ready(r) => return (yielded, r),
            Receive::Suspended(pending) => {
                yielded = true;
                assert!(cord.deliver(), "a suspended receive with nothing left to deliver");
                step = pending.resume(cord);
            }
        }
    }
}

#[test]
fn oneshot_test() {
    let mut cord = Cord::new("oneshot_test");

    // The receive starts before the value is sent: the task yields.
    let (sender, receiver) = channel(&mut cord, "oneshot_test");
    let pending = match receiver.receive(&mut cord) {
        Receive::Suspended(p) => p,
        Receive::Ready(_) => panic!("the receive must suspend before the send"),
    };
    sender.send(&mut cord, 1);
    cord.deliver_all();
    assert!(matches!(pending.resume(&mut cord), Receive::Ready(Ok(1))));

    // The value is sent before the receive starts: no yield.
    let (sender, receiver) = channel(&mut cord, "oneshot_test");
    sender.send(&mut cord, 2);
    assert!(matches!(receiver.receive(&mut cord), Receive::Ready(Ok(2))));
}

#[test]
fn oneshot_multiple_channels_test() {
    let mut cord = Cord::new("oneshot_multiple_channels_test");
    let pipe = Arc::new(LCPipe::new("oneshot_multiple_channels_test"));

    let (sender1, receiver1) = channel_on_pipe(&mut cord, Arc::clone(&pipe));
    let (sender2, receiver2) = channel_on_pipe(&mut cord, Arc::clone(&pipe));

    // The second receiver waits first; the first sender acts first.
    let pending2 = match receiver2.receive(&mut cord) {
        Receive::Suspended(p) => p,
        Receive::Ready(_) => panic!("nothing was sent yet"),
    };
    sender1.send(&mut cord, "1");
    cord.deliver_all();
    let pending2 = match pending2.resume(&mut cord) {
        Receive::Suspended(p) => p,
        Receive::Ready(_) => panic!("the other channel's wake must not end this receive"),
    };
    sender2.send(&mut cord, "2");
    cord.deliver_all();
    let result2 = match pending2.resume(&mut cord) {
        Receive::Ready(r) => r,
        Receive::Suspended(_) => panic!("the wake was delivered"),
    };
    let result1 = match receiver1.receive(&mut cord) {
        Receive::Ready(r) => r,
        Receive::Suspended(_) => panic!("the value was ready"),
    };

    assert!(matches!(result1, Ok("1")));
    assert!(matches!(result2, Ok("2")));
}

#[test]
fn oneshot_sender_drop_test() {
    let mut cord = Cord::new("oneshot_sender_drop_test");

    let (sender, receiver) = channel::<()>(&mut cord, "oneshot_sender_drop_test");
    let pending = match receiver.receive(&mut cord) {
        Receive::Suspended(p) => p,
        Receive::Ready(_) => panic!("the sender has not finished"),
    };
    sender.close(&mut cord);
    cord.deliver_all();
    let result = match pending.resume(&mut cord) {
        Receive::Ready(r) => r,
        Receive::Suspended(_) => panic!("the wake was delivered"),
    };
    assert!(matches!(result, Err(RecvError::Disconnected)));
}

#[test]
fn send_then_receive_gives_the_value() {
    let mut cord = Cord::new("ep");
    let (sender, receiver) = channel(&mut cord, "ep");
    sender.send(&mut cord, String::from("payload"));
    let (yielded, r) = receive_to_end(&mut cord, receiver);
    assert!(!yielded);
    assert_eq!(r, Ok(String::from("payload")));
}

#[test]
fn send_then_delivery_then_receive_gives_the_value() {
    let mut cord = Cord::new("ep");
    let (sender, receiver) = channel(&mut cord, "ep");
    sender.send(&mut cord, vec![7u8, 8, 9]);
    assert_eq!(cord.pending_wakes(), 1);
    cord.deliver_all();
    assert_eq!(cord.pending_wakes(), 0);
    let (yielded, r) = receive_to_end(&mut cord, receiver);
    assert!(!yielded);
    assert_eq!(r, Ok(vec![7u8, 8, 9]));
}

#[test]
fn close_before_receive_disconnects_at_once() {
    let mut cord = Cord::<u32>::new("ep");
    let (sender, receiver) = channel(&mut cord, "ep");
    sender.close(&mut cord);
    // The wake is still on its way, yet the receive does not wait for it.
    assert_eq!(cord.pending_wakes(), 1);
    let (yielded, r) = receive_to_end(&mut cord, receiver);
    assert!(!yielded);
    assert_eq!(r, Err(RecvError::Disconnected));
}

#[test]
fn receive_then_close_disconnects_after_the_wake() {
    let mut cord = Cord::<u32>::new("ep");
    let (sender, receiver) = channel(&mut cord, "ep");
    let pending = match receiver.receive(&mut cord) {
        Receive::Suspended(p) => p,
        Receive::Ready(_) => panic!("the sender has not finished"),
    };
    sender.close(&mut cord);
    let pending = match pending.resume(&mut cord) {
        Receive::Suspended(p) => p,
        Receive::Ready(_) => panic!("the wake is not delivered yet"),
    };
    cord.deliver_all();
    assert!(matches!(pending.resume(&mut cord), Receive::Ready(Err(RecvError::Disconnected))));
}

#[test]
fn cord_reports_its_endpoint() {
    let cord = Cord::<u8>::new("tx_endpoint");
    assert_eq!(cord.endpoint(), "tx_endpoint");
}

#[test]
fn close_and_delivery_before_receive_disconnects() {
    let mut cord = Cord::<u32>::new("ep");
    let (sender, receiver) = channel(&mut cord, "ep");
    sender.close(&mut cord);
    cord.deliver_all();
    let (yielded, r) = receive_to_end(&mut cord, receiver);
    assert!(!yielded);
    assert_eq!(r, Err(RecvError::Disconnected));
}

#[test]
fn suspended_receive_waits_for_the_wake() {
    let mut cord = Cord::new("ep");
    let (sender, receiver) = channel(&mut cord, "ep");
    let pending = match receiver.receive(&mut cord) {
        Receive::Suspended(p) => p,
        Receive::Ready(_) => panic!("nothing was sent yet"),
    };
    let pending = match pending.resume(&mut cord) {
        Receive::Suspended(p) => p,
        Receive::Ready(_) => panic!("no wake yet"),
    };
    sender.send(&mut cord, 5u64);
    // Sent, but the wake is still in the inbox: the task stays suspended.
    let pending = match pending.resume(&mut cord) {
        Receive::Suspended(p) => p,
        Receive::Ready(_) => panic!("the wake is not delivered yet"),
    };
    assert!(cord.deliver());
    assert!(!cord.deliver());
    let step = pending.resume(&mut cord);
    assert!(step.is_ready());
    assert!(matches!(step, Receive::Ready(Ok(5))));
}

#[test]
fn one_wake_per_sender() {
    let mut cord = Cord::new("ep");
    let (s1, _r1) = channel(&mut cord, "ep");
    let (s2, _r2) = channel(&mut cord, "ep");
    let (_s3, _r3) = channel::<i32>(&mut cord, "ep");
    assert_eq!(cord.pending_wakes(), 0);
    s1.send(&mut cord, 1);
    assert_eq!(cord.pending_wakes(), 1);
    s2.close(&mut cord);
    assert_eq!(cord.pending_wakes(), 2);
    assert!(cord.deliver());
    assert!(cord.deliver());
    assert!(!cord.deliver());
}

#[test]
fn two_channels_in_either_order() {
    let mut cord = Cord::new("ep");
    let pipe = Arc::new(LCPipe::new("ep"));
    let (sa, ra) = channel_on_pipe(&mut cord, Arc::clone(&pipe));
    let (sb, rb) = channel_on_pipe(&mut cord, Arc::clone(&pipe));
    sb.send(&mut cord, 20);
    sa.send(&mut cord, 10);
    let (_, b) = receive_to_end(&mut cord, rb);
    let (_, a) = receive_to_end(&mut cord, ra);
    assert_eq!(a, Ok(10));
    assert_eq!(b, Ok(20));
}

#[test]
fn two_channels_one_sent_one_closed() {
    let mut cord = Cord::new("ep");
    let pipe = Arc::new(LCPipe::new("ep"));
    let (sa, ra) = channel_on_pipe(&mut cord, Arc::clone(&pipe));
    let (sb, rb) = channel_on_pipe(&mut cord, pipe);
    let pending_a = match ra.receive(&mut cord) {
        Receive::Suspended(p) => p,
        Receive::Ready(_) => panic!("nothing was sent yet"),
    };
    sb.close(&mut cord);
    sa.send(&mut cord, 'x');
    cord.deliver_all();
    assert!(matches!(pending_a.resume(&mut cord), Receive::Ready(Ok('x'))));
    let (_, b) = receive_to_end(&mut cord, rb);
    assert_eq!(b, Err(RecvError::Disconnected));
}

#[test]
fn unused_receiver_can_be_dropped() {
    let mut cord = Cord::new("ep");
    let (sender, receiver) = channel(&mut cord, "ep");
    drop(receiver);
    sender.send(&mut cord, 3);
    cord.deliver_all();
    assert_eq!(cord.pending_wakes(), 0);
}

#[test]
fn default_channel_is_empty() {
    let c: tarantool::oneshot::Channel<u8> = Default::default();
    assert!(c.message.is_none());
    assert!(!c.ready);
    assert!(!c.signaled);
    assert!(!c.sender_done);
}
