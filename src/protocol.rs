//! What the one-shot protocol guarantees, over every state of a cord that
//! satisfies its invariant.
use vstd::prelude::*;

use crate::cbus::RecvError;
use crate::oneshot::{
    lemma_close_wf, lemma_deliver_all, lemma_deliver_wf, lemma_open_wf, lemma_receive_wf,
    lemma_resume_wf, lemma_send_wf, CordView,
};

verus! {

/// Exactly-once delivery: a value sent on a channel is what its receiver
/// gets, whether the receive starts before or after the cord ran the wake
/// notification, and the slot is empty afterwards: the value was moved out,
/// not copied.
pub proof fn lemma_send_then_receive<T>(c: CordView<T>, i: int, v: T)
    requires
        c.wf(),
        c.can_send(i),
        c.can_receive(i),
    ensures
        c.send(i, v).receive_result(i) == Some(Ok::<T, RecvError>(v)),
        c.send(i, v).receive(i).channels[i].message is None,
        c.send(i, v).deliver_all().receive_result(i) == Some(Ok::<T, RecvError>(v)),
        c.send(i, v).deliver_all().receive(i).channels[i].message is None,
{
    lemma_send_wf(c, i, v);
    lemma_deliver_all(c.send(i, v));
}

/// A sender closed without sending makes its receiver fail with
/// `Disconnected`: at once when the receive starts after the close, whether
/// or not the cord has run the wake notification yet, and on resumption
/// after the wake when the receive was already waiting.
pub proof fn lemma_close_then_receive<T>(c: CordView<T>, i: int)
    requires
        c.wf(),
        c.can_send(i),
        c.can_receive(i),
    ensures
        c.close(i).receive_result(i) == Some(Err::<T, RecvError>(RecvError::Disconnected)),
        c.close(i).deliver_all().receive_result(i) == Some(
            Err::<T, RecvError>(RecvError::Disconnected),
        ),
        c.receive(i).close(i).resume_result(i) is None,
        c.receive(i).close(i).deliver_all().resume_result(i) == Some(
            Err::<T, RecvError>(RecvError::Disconnected),
        ),
{
    assert(c.channel_wf(i));
    lemma_close_wf(c, i);
    lemma_deliver_all(c.close(i));
    lemma_receive_wf(c, i);
    assert(c.receive(i).channel_wf(i));
    lemma_close_wf(c.receive(i), i);
    lemma_deliver_all(c.receive(i).close(i));
}

/// Fast path: once the sender has finished, by sending or by being closed,
/// a receive returns at once, without suspending: the sent value, or
/// `Disconnected` when nothing was sent.
pub proof fn lemma_fast_path<T>(c: CordView<T>, i: int)
    requires
        c.wf(),
        c.can_receive(i),
        c.channels[i].sender_done,
    ensures
        c.receive_result(i) == Some(c.channels[i].outcome()),
        c.receive(i).channels[i].receiver is Done,
        c.channels[i].message matches Some(v) ==> c.receive_result(i) == Some(
            Ok::<T, RecvError>(v),
        ),
        c.channels[i].message is None ==> c.receive_result(i) == Some(
            Err::<T, RecvError>(RecvError::Disconnected),
        ),
{
    assert(c.channel_wf(i));
}

/// Slow path: a receive that starts before the sender acts suspends its
/// task, stays suspended after the send until the cord runs the wake
/// notification, and then resumes with the sent value.
pub proof fn lemma_receive_then_send<T>(c: CordView<T>, i: int, v: T)
    requires
        c.wf(),
        c.can_send(i),
        c.can_receive(i),
    ensures
        c.receive_result(i) is None,
        c.receive(i).can_resume(i),
        c.receive(i).resume_result(i) is None,
        c.receive(i).send(i, v).resume_result(i) is None,
        c.receive(i).send(i, v).deliver_all().resume_result(i) == Some(Ok::<T, RecvError>(v)),
        c.receive(i).send(i, v).deliver_all().resume(i).channels[i].message is None,
{
    assert(c.channel_wf(i));
    let d = c.receive(i);
    lemma_receive_wf(c, i);
    assert(d.channel_wf(i));
    lemma_send_wf(d, i, v);
    lemma_deliver_all(d.send(i, v));
}

/// Channels are independent: a step of one channel leaves the state of every
/// other channel as it was. Only delivering a notification touches the
/// channel that the notification belongs to.
pub proof fn lemma_other_channels_untouched<T>(c: CordView<T>, i: int, j: int, v: T)
    requires
        c.wf(),
        c.has_channel(i),
        c.has_channel(j),
        i != j,
    ensures
        c.send(i, v).channels[j] == c.channels[j],
        c.close(i).channels[j] == c.channels[j],
        c.receive(i).channels[j] == c.channels[j],
        c.resume(i).channels[j] == c.channels[j],
        c.open().channels[j] == c.channels[j],
        c.inbox.len() > 0 && c.inbox[0] != j ==> c.deliver().channels[j] == c.channels[j],
{
}

/// Two channels sharing one pipe each deliver their own value to their own
/// receiver, whichever sends first and whichever receiver starts first.
pub proof fn lemma_two_channels<T>(c: CordView<T>, i: int, j: int, a: T, b: T)
    requires
        c.wf(),
        i != j,
        c.can_send(i),
        c.can_receive(i),
        c.can_send(j),
        c.can_receive(j),
    ensures
        c.send(i, a).send(j, b).receive_result(j) == Some(Ok::<T, RecvError>(b)),
        c.send(i, a).send(j, b).receive(j).receive_result(i) == Some(Ok::<T, RecvError>(a)),
        c.send(j, b).send(i, a).receive_result(i) == Some(Ok::<T, RecvError>(a)),
        c.send(j, b).send(i, a).receive(i).receive_result(j) == Some(Ok::<T, RecvError>(b)),
        c.receive(j).send(i, a).deliver_all().resume_result(j) is None,
        c.receive(j).send(i, a).deliver_all().send(j, b).deliver_all().resume_result(j) == Some(
            Ok::<T, RecvError>(b),
        ),
        c.receive(j).send(i, a).deliver_all().send(j, b).deliver_all().resume(j).receive_result(i)
            == Some(Ok::<T, RecvError>(a)),
{
    assert(c.channel_wf(i));
    assert(c.channel_wf(j));
    let d = c.receive(j);
    lemma_receive_wf(c, j);
    lemma_send_wf(d, i, a);
    let e = d.send(i, a).deliver_all();
    lemma_deliver_all(d.send(i, a));
    assert(e.channel_wf(j));
    lemma_send_wf(e, j, b);
    lemma_deliver_all(e.send(j, b));
}

/// A receive is consumed once: after it starts, its channel cannot be
/// received on again, and after it finishes it cannot be resumed either.
pub proof fn lemma_receive_once<T>(c: CordView<T>, i: int)
    requires
        c.wf(),
        c.can_receive(i),
    ensures
        !c.receive(i).can_receive(i),
        c.receive_result(i) is Some ==> !c.receive(i).can_resume(i),
        c.receive_result(i) is None ==> c.receive(i).can_resume(i),
        c.receive(i).can_resume(i) && c.receive(i).resume_result(i) is Some ==> !c.receive(
            i,
        ).resume(i).can_resume(i) && !c.receive(i).resume(i).can_receive(i),
{
}

/// One step that a sender, the cord's loop or a receiver can take.
pub enum Step<T> {
    /// A channel is created.
    Open,
    /// The sender of a channel sends a value.
    Send(int, T),
    /// The sender of a channel finishes without sending.
    Close(int),
    /// The cord's loop runs the oldest wake notification.
    Deliver,
    /// The receiver of a channel starts.
    Receive(int),
    /// The suspended receiver of a channel is given the cord again.
    Resume(int),
}

impl<T> CordView<T> {
    /// Whether `s` can be taken now.
    pub open spec fn enabled(self, s: Step<T>) -> bool {
        match s {
            Step::Open => self.channels.len() < usize::MAX,
            Step::Send(i, _) => self.can_send(i),
            Step::Close(i) => self.can_send(i),
            Step::Deliver => self.inbox.len() > 0,
            Step::Receive(i) => self.can_receive(i),
            Step::Resume(i) => self.can_resume(i),
        }
    }

    /// The state after `s`.
    pub open spec fn step(self, s: Step<T>) -> CordView<T> {
        match s {
            Step::Open => self.open(),
            Step::Send(i, v) => self.send(i, v),
            Step::Close(i) => self.close(i),
            Step::Deliver => self.deliver(),
            Step::Receive(i) => self.receive(i),
            Step::Resume(i) => self.resume(i),
        }
    }

    /// What `s` returns to a receiver: `None` for the other steps and for a
    /// receive that suspends.
    pub open spec fn step_result(self, s: Step<T>) -> Option<Result<T, RecvError>> {
        match s {
            Step::Receive(i) => self.receive_result(i),
            Step::Resume(i) => self.resume_result(i),
            _ => None,
        }
    }

    /// The state after the steps of `steps`, in order.
    pub open spec fn run(self, steps: Seq<Step<T>>) -> CordView<T>
        decreases steps.len(),
    {
        if steps.len() == 0 {
            self
        } else {
            self.run(steps.drop_last()).step(steps.last())
        }
    }

    /// Whether every step of `steps` is enabled when its turn comes.
    pub open spec fn valid_run(self, steps: Seq<Step<T>>) -> bool
        decreases steps.len(),
    {
        if steps.len() == 0 {
            true
        } else {
            self.valid_run(steps.drop_last()) && self.run(steps.drop_last()).enabled(steps.last())
        }
    }

    /// Channel `i` holds nothing that the run `steps` did not put there:
    /// a value in its slot was sent on it, and a finished sender with an
    /// empty slot and a receiver still to take it was closed.
    pub open spec fn holds_only_own(self, steps: Seq<Step<T>>, i: int) -> bool {
        self.has_channel(i) ==> {
            let c = self.channels[i];
            &&& c.message matches Some(v) ==> exists|m: int|
                0 <= m < steps.len() && #[trigger] steps[m] == Step::Send(i, v)
            &&& c.sender_done && c.message is None && !(c.receiver is Done) ==> exists|m: int|
                0 <= m < steps.len() && #[trigger] steps[m] == Step::<T>::Close(i)
        }
    }
}

/// Every enabled step keeps the invariant.
pub proof fn lemma_step_wf<T>(c: CordView<T>, s: Step<T>)
    requires
        c.wf(),
        c.enabled(s),
    ensures
        c.step(s).wf(),
{
    match s {
        Step::Open => lemma_open_wf(c),
        Step::Send(i, v) => lemma_send_wf(c, i, v),
        Step::Close(i) => lemma_close_wf(c, i),
        Step::Deliver => lemma_deliver_wf(c),
        Step::Receive(i) => lemma_receive_wf(c, i),
        Step::Resume(i) => lemma_resume_wf(c, i),
    }
}

/// Along any run, channel `i` holds only what the run's own steps on `i`
/// put there.
proof fn lemma_run_holds_only_own<T>(c: CordView<T>, steps: Seq<Step<T>>, i: int)
    requires
        c.wf(),
        !c.has_channel(i) || !c.channels[i].sender_done,
        c.valid_run(steps),
    ensures
        c.run(steps).wf(),
        c.run(steps).holds_only_own(steps, i),
    decreases steps.len(),
{
    if steps.len() == 0 {
        if c.has_channel(i) {
            assert(c.channel_wf(i));
        }
    } else {
        let p = steps.drop_last();
        let s = steps.last();
        lemma_run_holds_only_own(c, p, i);
        let d = c.run(p);
        lemma_step_wf(d, s);
        let e = d.step(s);
        assert(e == c.run(steps));
        if e.has_channel(i) {
            if d.has_channel(i) {
                assert(d.channel_wf(i));
            }
            let ce = e.channels[i];
            if ce.message is Some {
                let v = ce.message->Some_0;
                if s == Step::Send(i, v) {
                    assert(steps[steps.len() - 1] == Step::Send(i, v));
                } else {
                    let m = choose|m: int| 0 <= m < p.len() && #[trigger] p[m] == Step::Send(i, v);
                    assert(steps[m] == p[m]);
                }
            }
            if ce.sender_done && ce.message is None && !(ce.receiver is Done) {
                if s == Step::<T>::Close(i) {
                    assert(steps[steps.len() - 1] == Step::<T>::Close(i));
                } else {
                    let m = choose|m: int| 0 <= m < p.len() && #[trigger] p[m] == Step::<T>::Close(i);
                    assert(steps[m] == p[m]);
                }
            }
        }
    }
}

/// Channels sharing a cord and its pipe never mix, in any interleaving of
/// senders, the cord's loop and receivers: whenever a receive of channel `i`
/// returns a value, that value was sent on channel `i` earlier in the run,
/// and whenever it returns `Disconnected`, the sender of channel `i` was
/// closed earlier in the run.
pub proof fn lemma_runs_keep_channels_apart<T>(c: CordView<T>, steps: Seq<Step<T>>, i: int)
    requires
        c.wf(),
        !c.has_channel(i) || !c.channels[i].sender_done,
        c.valid_run(steps),
        steps.len() > 0,
        steps.last() == Step::<T>::Receive(i) || steps.last() == Step::<T>::Resume(i),
    ensures
        c.run(steps.drop_last()).step_result(steps.last()) matches Some(Ok(v)) ==> exists|m: int|
            0 <= m < steps.len() - 1 && #[trigger] steps[m] == Step::Send(i, v),
        c.run(steps.drop_last()).step_result(steps.last()) == Some(
            Err::<T, RecvError>(RecvError::Disconnected),
        ) ==> exists|m: int| 0 <= m < steps.len() - 1 && #[trigger] steps[m] == Step::<T>::Close(i),
{
    let p = steps.drop_last();
    lemma_run_holds_only_own(c, p, i);
    let d = c.run(p);
    assert(d.channel_wf(i));
    let ch = d.channels[i];
    if ch.message is Some {
        let v = ch.message->Some_0;
        let m = choose|m: int| 0 <= m < p.len() && #[trigger] p[m] == Step::Send(i, v);
        assert(steps[m] == p[m]);
    } else if ch.sender_done && !(ch.receiver is Done) {
        let m = choose|m: int| 0 <= m < p.len() && #[trigger] p[m] == Step::<T>::Close(i);
        assert(steps[m] == p[m]);
    }
}

} // verus!
