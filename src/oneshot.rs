//! A one-shot channel between a producer and a cooperative task on a cord.
//!
//! The cord is an explicit value here: it owns the inbox of the endpoint its
//! loop consumes and the state that the two halves of each of its channels
//! share. Every operation of a half is a step on the cord, so the handoff can
//! be driven in any interleaving and each step is stated exactly.
//!
//! The protocol: `send` fills the slot; the sender then finishes. Finishing,
//! with or without a value, raises `ready` once the slot holds its final
//! contents and pushes one wake notification through the pipe. `receive`
//! swaps `ready` to false; if it was raised, or the wake was already
//! delivered, the slot is taken at once. Otherwise the receiving task
//! suspends until the cord's loop delivers the wake. An empty slot means the
//! sender went away without sending.
use std::marker::PhantomData;
use std::sync::Arc;
use vstd::prelude::*;

use crate::cbus::{LCPipe, RecvError};

verus! {

/// Where the receiving half of a channel stands.
#[derive(Debug, Clone, Copy, PartialEq, Eq, Structural)]
pub enum ReceiverState {
    /// `receive` has not been called.
    Idle,
    /// `receive` suspended the task until the wake arrives.
    Waiting,
    /// The receive has finished; the slot was taken.
    Done,
}

/// The state shared by the two halves of one channel.
pub struct Channel<T> {
    /// The slot: the value once it is sent, until the receiver takes it.
    pub message: Option<T>,
    /// Raised by the sender when it finishes, once the slot holds what it
    /// will hold (the value, or nothing when the sender was closed); swapped
    /// back to false by the receiver.
    pub ready: bool,
    /// The wake primitive: latched once the wake notification has been
    /// delivered on the cord, whether or not anyone was waiting.
    pub signaled: bool,
    /// The sender has finished, by sending or by being closed.
    pub sender_done: bool,
    /// Where the receiver stands.
    pub receiver: ReceiverState,
}

impl<T> Channel<T> {
    /// A channel as it is created: empty, nothing raised, nobody finished.
    pub open spec fn fresh() -> Channel<T> {
        Channel {
            message: None,
            ready: false,
            signaled: false,
            sender_done: false,
            receiver: ReceiverState::Idle,
        }
    }

    /// What the receiver gets when it takes the slot.
    pub open spec fn outcome(self) -> Result<T, RecvError> {
        match self.message {
            Some(v) => Ok(v),
            None => Err(RecvError::Disconnected),
        }
    }

    /// Whether a receive started now finishes without suspending: the value
    /// is marked ready, or the wake was already delivered.
    pub open spec fn can_proceed(self) -> bool {
        self.ready || self.signaled
    }

    /// Creates an empty channel.
    pub fn new() -> (r: Channel<T>)
        ensures
            r == Channel::<T>::fresh(),
    {
        Channel {
            message: None,
            ready: false,
            signaled: false,
            sender_done: false,
            receiver: ReceiverState::Idle,
        }
    }
}

impl<T> Default for Channel<T> {
    fn default() -> (r: Channel<T>)
        ensures
            r == Channel::<T>::fresh(),
    {
        Channel::new()
    }
}

/// The abstract state of a cord: its endpoint, the channels it hosts (a
/// channel is known by its index), and the wake notifications that were
/// pushed to its endpoint and not yet delivered, oldest first.
pub struct CordView<T> {
    pub endpoint: Seq<char>,
    pub channels: Seq<Channel<T>>,
    pub inbox: Seq<usize>,
}

impl<T> CordView<T> {
    pub open spec fn has_channel(self, i: int) -> bool {
        0 <= i < self.channels.len()
    }

    /// The wake notification of channel `i` is on its way to the cord.
    pub open spec fn wake_pending(self, i: int) -> bool {
        self.inbox.contains(i as usize)
    }

    /// The invariant of one channel. Its first two clauses say that a
    /// sender produces exactly one wake notification over its lifetime:
    /// none before it finishes, and afterwards one that is either still on
    /// its way or delivered.
    pub open spec fn channel_wf(self, i: int) -> bool {
        let c = self.channels[i];
        &&& c.sender_done == (self.wake_pending(i) || c.signaled)
        &&& !(self.wake_pending(i) && c.signaled)
        &&& !c.sender_done ==> c.message is None && !c.ready && !(c.receiver is Done)
        &&& c.receiver is Done ==> c.message is None
        &&& c.sender_done && c.receiver is Idle ==> c.ready
    }

    pub open spec fn wf(self) -> bool {
        &&& self.channels.len() <= usize::MAX
        &&& self.inbox.no_duplicates()
        &&& forall|k: int| 0 <= k < self.inbox.len() ==> (#[trigger] self.inbox[k]) < self.channels.len()
        &&& forall|i: int| 0 <= i < self.channels.len() ==> #[trigger] self.channel_wf(i)
    }

    /// The sender of channel `i` has not finished.
    pub open spec fn can_send(self, i: int) -> bool {
        self.has_channel(i) && !self.channels[i].sender_done
    }

    /// The receiver of channel `i` has not started.
    pub open spec fn can_receive(self, i: int) -> bool {
        self.has_channel(i) && self.channels[i].receiver is Idle
    }

    /// The receiver of channel `i` is suspended.
    pub open spec fn can_resume(self, i: int) -> bool {
        self.has_channel(i) && self.channels[i].receiver is Waiting
    }

    /// A fresh channel is added at the end.
    pub open spec fn open(self) -> CordView<T> {
        CordView { channels: self.channels.push(Channel::fresh()), ..self }
    }

    /// Channel `i` is sent `v`: the slot is filled, `ready` raised, and the
    /// sender finishes, pushing its wake notification.
    pub open spec fn send(self, i: int, v: T) -> CordView<T> {
        let c = self.channels[i];
        CordView {
            channels: self.channels.update(
                i,
                Channel { message: Some(v), ready: true, sender_done: true, ..c },
            ),
            inbox: self.inbox.push(i as usize),
            ..self
        }
    }

    /// The sender of channel `i` finishes without sending: the empty slot is
    /// marked ready and the wake notification is pushed.
    pub open spec fn close(self, i: int) -> CordView<T> {
        let c = self.channels[i];
        CordView {
            channels: self.channels.update(i, Channel { ready: true, sender_done: true, ..c }),
            inbox: self.inbox.push(i as usize),
            ..self
        }
    }

    /// The cord's loop runs the oldest notification in the inbox, which
    /// signals the wake primitive of its channel.
    pub open spec fn deliver(self) -> CordView<T> {
        let i = self.inbox[0] as int;
        let c = self.channels[i];
        CordView {
            channels: self.channels.update(i, Channel { signaled: true, ..c }),
            inbox: self.inbox.drop_first(),
            ..self
        }
    }

    /// The cord's loop runs every notification in the inbox.
    pub open spec fn deliver_all(self) -> CordView<T>
        decreases self.inbox.len(),
    {
        if self.inbox.len() == 0 {
            self
        } else {
            self.deliver().deliver_all()
        }
    }

    /// The receiver of channel `i` starts: `ready` is swapped to false; the
    /// slot is taken at once if the receive can proceed, else the receiver
    /// waits.
    pub open spec fn receive(self, i: int) -> CordView<T> {
        let c = self.channels[i];
        if c.can_proceed() {
            CordView {
                channels: self.channels.update(
                    i,
                    Channel { message: None, ready: false, receiver: ReceiverState::Done, ..c },
                ),
                ..self
            }
        } else {
            CordView {
                channels: self.channels.update(
                    i,
                    Channel { ready: false, receiver: ReceiverState::Waiting, ..c },
                ),
                ..self
            }
        }
    }

    /// What the receive of channel `i` returns when it starts: `None` when
    /// it suspends.
    pub open spec fn receive_result(self, i: int) -> Option<Result<T, RecvError>> {
        if self.channels[i].can_proceed() {
            Some(self.channels[i].outcome())
        } else {
            None
        }
    }

    /// The waiting receiver of channel `i` is given the cord again: once the
    /// wake was delivered it takes the slot, else it stays suspended.
    pub open spec fn resume(self, i: int) -> CordView<T> {
        let c = self.channels[i];
        if c.signaled {
            CordView {
                channels: self.channels.update(
                    i,
                    Channel { message: None, receiver: ReceiverState::Done, ..c },
                ),
                ..self
            }
        } else {
            self
        }
    }

    /// What the waiting receive of channel `i` returns when resumed: `None`
    /// when it stays suspended.
    pub open spec fn resume_result(self, i: int) -> Option<Result<T, RecvError>> {
        if self.channels[i].signaled {
            Some(self.channels[i].outcome())
        } else {
            None
        }
    }
}

/// A cord: a thread whose loop consumes one endpoint and runs cooperative
/// tasks. It holds the endpoint's inbox and the shared state of the
/// channels whose receivers run on it.
pub struct Cord<T> {
    endpoint: String,
    channels: Vec<Channel<T>>,
    inbox: Vec<usize>,
}

impl<T> View for Cord<T> {
    type V = CordView<T>;

    closed spec fn view(&self) -> CordView<T> {
        CordView { endpoint: self.endpoint@, channels: self.channels@, inbox: self.inbox@ }
    }
}

impl<T> Cord<T> {
    /// A cord whose loop consumes the endpoint named `endpoint`, hosting no
    /// channel yet.
    pub fn new(endpoint: &str) -> (r: Cord<T>)
        ensures
            r@.endpoint == endpoint@,
            r@.channels.len() == 0,
            r@.inbox.len() == 0,
            r@.wf(),
    {
        Cord { endpoint: endpoint.to_owned(), channels: Vec::new(), inbox: Vec::new() }
    }

    /// The name of the endpoint this cord's loop consumes.
    pub fn endpoint(&self) -> (r: &str)
        ensures
            r@ == self@.endpoint,
    {
        self.endpoint.as_str()
    }

    /// How many wake notifications are on their way to this cord.
    pub fn pending_wakes(&self) -> (r: usize)
        ensures
            r == self@.inbox.len(),
    {
        self.inbox.len()
    }

    /// The loop runs the oldest notification that arrived through the
    /// endpoint, if there is one. Returns whether there was one.
    pub fn deliver(&mut self) -> (r: bool)
        requires
            old(self)@.wf(),
        ensures
            r == (old(self)@.inbox.len() > 0),
            r ==> final(self)@ == old(self)@.deliver(),
            !r ==> final(self)@ == old(self)@,
            final(self)@.wf(),
    {
        if self.inbox.len() == 0 {
            return false;
        }
        let ghost before = self@;
        let i = self.inbox.remove(0);
        self.channels[i].signaled = true;
        proof {
            assert(self@.inbox =~= before.deliver().inbox);
            assert(self@.channels =~= before.deliver().channels);
            lemma_deliver_wf(before);
        }
        true
    }

    /// The loop runs every notification that arrived through the endpoint.
    pub fn deliver_all(&mut self)
        requires
            old(self)@.wf(),
        ensures
            final(self)@ == old(self)@.deliver_all(),
            final(self)@.wf(),
            final(self)@.inbox.len() == 0,
            final(self)@.endpoint == old(self)@.endpoint,
            final(self)@.channels.len() == old(self)@.channels.len(),
            forall|j: int|
                0 <= j < old(self)@.channels.len() ==> #[trigger] final(self)@.channels[j] == (Channel {
                    signaled: old(self)@.channels[j].sender_done,
                    ..old(self)@.channels[j]
                }),
    {
        proof {
            lemma_deliver_all(self@);
        }
        while self.inbox.len() > 0
            invariant
                self@.wf(),
                self@.deliver_all() == old(self)@.deliver_all(),
            decreases self@.inbox.len(),
        {
            self.deliver();
        }
    }

    /// Adds a fresh channel and returns its index.
    fn open(&mut self) -> (i: usize)
        requires
            old(self)@.wf(),
            old(self)@.channels.len() < usize::MAX,
        ensures
            final(self)@ == old(self)@.open(),
            i == old(self)@.channels.len(),
            final(self)@.wf(),
    {
        let ghost before = self@;
        let i = self.channels.len();
        self.channels.push(Channel::new());
        proof {
            lemma_open_wf(before);
        }
        i
    }

    /// The sender of channel `i` finishes: its wake notification goes into
    /// the inbox.
    fn finish_sender(&mut self, i: usize)
        requires
            old(self)@.has_channel(i as int),
        ensures
            final(self)@ == (CordView {
                channels: old(self)@.channels.update(
                    i as int,
                    Channel { sender_done: true, ..old(self)@.channels[i as int] },
                ),
                inbox: old(self)@.inbox.push(i),
                ..old(self)@
            }),
    {
        self.channels[i].sender_done = true;
        self.inbox.push(i);
        proof {
            assert(self@.channels =~= old(self)@.channels.update(
                i as int,
                Channel { sender_done: true, ..old(self)@.channels[i as int] },
            ));
        }
    }
}

/// The sending half of a one-shot channel. It can be used anywhere; its
/// value goes to the receiver through the cord its pipe reaches. It ends by
/// `send` or by `close`; one that is only dropped never wakes its receiver.
#[must_use]
pub struct Sender<T> {
    channel: usize,
    pipe: Arc<LCPipe>,
    marker: PhantomData<T>,
}

/// The receiving half of a one-shot channel. It is used on the cord that
/// consumes its endpoint.
pub struct EndpointReceiver<T> {
    channel: usize,
    endpoint: Ghost<Seq<char>>,
    marker: PhantomData<T>,
}

/// A receive that suspended its task until the wake arrives.
pub struct PendingReceive<T> {
    channel: usize,
    endpoint: Ghost<Seq<char>>,
    marker: PhantomData<T>,
}

/// What a step of a receive hands back.
pub enum Receive<T> {
    /// The receive finished.
    Ready(Result<T, RecvError>),
    /// The task yielded to the cord and waits for the wake.
    Suspended(PendingReceive<T>),
}

impl<T> Sender<T> {
    /// The index of the channel on its cord.
    pub closed spec fn index(&self) -> int {
        self.channel as int
    }

    /// The endpoint its pipe delivers to.
    pub closed spec fn endpoint(&self) -> Seq<char> {
        self.pipe.endpoint()
    }

    /// Sends `message` and finishes the sender: the slot is filled, then
    /// marked ready, then the wake notification is pushed through the pipe.
    pub fn send(self, cord: &mut Cord<T>, message: T)
        requires
            old(cord)@.wf(),
            old(cord)@.can_send(self.index()),
            self.endpoint() == old(cord)@.endpoint,
        ensures
            final(cord)@ == old(cord)@.send(self.index(), message),
            final(cord)@.wf(),
    {
        let ghost before = cord@;
        let i = self.channel;
        cord.channels[i].message = Some(message);
        cord.channels[i].ready = true;
        cord.finish_sender(i);
        proof {
            assert(cord@.channels =~= before.send(i as int, message).channels);
            lemma_send_wf(before, i as int, message);
        }
    }

    /// Finishes the sender without sending: only the wake notification is
    /// pushed, and the receiver will find the slot empty.
    pub fn close(self, cord: &mut Cord<T>)
        requires
            old(cord)@.wf(),
            old(cord)@.can_send(self.index()),
            self.endpoint() == old(cord)@.endpoint,
        ensures
            final(cord)@ == old(cord)@.close(self.index()),
            final(cord)@.wf(),
    {
        let ghost before = cord@;
        let i = self.channel;
        cord.channels[i].ready = true;
        cord.finish_sender(i);
        proof {
            assert(cord@.channels =~= before.close(i as int).channels);
            lemma_close_wf(before, i as int);
        }
    }
}

impl<T> EndpointReceiver<T> {
    /// The index of the channel on its cord.
    pub closed spec fn index(&self) -> int {
        self.channel as int
    }

    /// The endpoint of the cord the channel lives on.
    pub closed spec fn endpoint(&self) -> Seq<char> {
        self.endpoint@
    }

    /// Starts receiving on the cord. `ready` is swapped to false; if it was
    /// raised, or the wake was already delivered, the slot is taken and the
    /// value, or `Disconnected` when it is empty, is returned at once.
    /// Otherwise the task suspends until the cord delivers the wake.
    pub fn receive(self, cord: &mut Cord<T>) -> (r: Receive<T>)
        requires
            old(cord)@.wf(),
            old(cord)@.can_receive(self.index()),
            self.endpoint() == old(cord)@.endpoint,
        ensures
            final(cord)@ == old(cord)@.receive(self.index()),
            r.result() == old(cord)@.receive_result(self.index()),
            r is Suspended ==> r->Suspended_0.index() == self.index()
                && r->Suspended_0.endpoint() == self.endpoint(),
            final(cord)@.wf(),
    {
        let ghost before = cord@;
        let i = self.channel;
        let was_ready = cord.channels[i].ready;
        cord.channels[i].ready = false;
        if !was_ready && !cord.channels[i].signaled {
            cord.channels[i].receiver = ReceiverState::Waiting;
            proof {
                assert(cord@.channels =~= before.receive(i as int).channels);
                lemma_receive_wf(before, i as int);
            }
            return Receive::Suspended(
                PendingReceive { channel: i, endpoint: self.endpoint, marker: PhantomData },
            );
        }
        let r = take_outcome(cord, i);
        proof {
            assert(cord@.channels =~= before.receive(i as int).channels);
            lemma_receive_wf(before, i as int);
        }
        Receive::Ready(r)
    }
}

impl<T> PendingReceive<T> {
    /// The index of the channel on its cord.
    pub closed spec fn index(&self) -> int {
        self.channel as int
    }

    /// The endpoint of the cord the channel lives on.
    pub closed spec fn endpoint(&self) -> Seq<char> {
        self.endpoint@
    }

    /// Gives the suspended task the cord again. Once the wake was delivered
    /// the slot is taken and the value, or `Disconnected` when it is empty,
    /// is returned; before that the task stays suspended.
    pub fn resume(self, cord: &mut Cord<T>) -> (r: Receive<T>)
        requires
            old(cord)@.wf(),
            old(cord)@.can_resume(self.index()),
            self.endpoint() == old(cord)@.endpoint,
        ensures
            final(cord)@ == old(cord)@.resume(self.index()),
            r.result() == old(cord)@.resume_result(self.index()),
            r is Suspended ==> r->Suspended_0.index() == self.index()
                && r->Suspended_0.endpoint() == self.endpoint(),
            final(cord)@.wf(),
    {
        let ghost before = cord@;
        let i = self.channel;
        if !cord.channels[i].signaled {
            return Receive::Suspended(self);
        }
        let r = take_outcome(cord, i);
        proof {
            assert(cord@.channels =~= before.resume(i as int).channels);
            lemma_resume_wf(before, i as int);
        }
        Receive::Ready(r)
    }
}

impl<T> Receive<T> {
    /// The result of the receive, or `None` while it is suspended.
    pub open spec fn result(self) -> Option<Result<T, RecvError>> {
        match self {
            Receive::Ready(r) => Some(r),
            Receive::Suspended(_) => None,
        }
    }

    /// Whether the receive finished.
    pub fn is_ready(&self) -> (r: bool)
        ensures
            r == (self is Ready),
    {
        match self {
            Receive::Ready(_) => true,
            Receive::Suspended(_) => false,
        }
    }
}

/// Takes the slot of channel `i` and ends its receiver: the value, or
/// `Disconnected` when the slot is empty.
fn take_outcome<T>(cord: &mut Cord<T>, i: usize) -> (r: Result<T, RecvError>)
    requires
        old(cord)@.has_channel(i as int),
    ensures
        r == old(cord)@.channels[i as int].outcome(),
        final(cord)@ == (CordView {
            channels: old(cord)@.channels.update(
                i as int,
                Channel {
                    message: None,
                    receiver: ReceiverState::Done,
                    ..old(cord)@.channels[i as int]
                },
            ),
            ..old(cord)@
        }),
{
    let ghost before = cord@;
    cord.channels[i].receiver = ReceiverState::Done;
    let m = cord.channels[i].message.take();
    proof {
        assert(cord@.channels =~= before.channels.update(
            i as int,
            Channel { message: None, receiver: ReceiverState::Done, ..before.channels[i as int] },
        ));
    }
    match m {
        Some(v) => Ok(v),
        None => Err(RecvError::Disconnected),
    }
}

/// Adding a channel keeps the invariant.
pub proof fn lemma_open_wf<T>(c: CordView<T>)
    requires
        c.wf(),
        c.channels.len() < usize::MAX,
    ensures
        c.open().wf(),
{
    let d = c.open();
    assert forall|j: int| 0 <= j < d.channels.len() implies #[trigger] d.channel_wf(j) by {
        if j < c.channels.len() {
            assert(c.channel_wf(j));
        } else {
            assert(!d.wake_pending(j));
        }
    }
}

/// Sending on a channel whose sender has not finished keeps the invariant.
pub proof fn lemma_send_wf<T>(c: CordView<T>, i: int, v: T)
    requires
        c.wf(),
        c.can_send(i),
    ensures
        c.send(i, v).wf(),
{
    let d = c.send(i, v);
    assert(c.channel_wf(i));
    lemma_push_contains(c.inbox, i as usize, i as usize);
    assert forall|j: int| 0 <= j < d.channels.len() implies #[trigger] d.channel_wf(j) by {
        assert(c.channel_wf(j));
        lemma_push_contains(c.inbox, i as usize, j as usize);
    }
}

/// Closing a sender that has not finished keeps the invariant.
pub proof fn lemma_close_wf<T>(c: CordView<T>, i: int)
    requires
        c.wf(),
        c.can_send(i),
    ensures
        c.close(i).wf(),
{
    let d = c.close(i);
    assert(c.channel_wf(i));
    lemma_push_contains(c.inbox, i as usize, i as usize);
    assert forall|j: int| 0 <= j < d.channels.len() implies #[trigger] d.channel_wf(j) by {
        assert(c.channel_wf(j));
        lemma_push_contains(c.inbox, i as usize, j as usize);
    }
}

/// Delivering the oldest wake notification keeps the invariant.
pub proof fn lemma_deliver_wf<T>(c: CordView<T>)
    requires
        c.wf(),
        c.inbox.len() > 0,
    ensures
        c.deliver().wf(),
{
    let d = c.deliver();
    assert(c.inbox[0] < c.channels.len());
    lemma_drop_first_contains(c.inbox, c.inbox[0]);
    assert forall|k: int| 0 <= k < d.inbox.len() implies (#[trigger] d.inbox[k]) < d.channels.len() by {
        assert(d.inbox[k] == c.inbox[k + 1]);
    }
    assert forall|j: int| 0 <= j < d.channels.len() implies #[trigger] d.channel_wf(j) by {
        assert(c.channel_wf(j));
        lemma_drop_first_contains(c.inbox, j as usize);
    }
}

/// Starting a receive keeps the invariant.
pub proof fn lemma_receive_wf<T>(c: CordView<T>, i: int)
    requires
        c.wf(),
        c.can_receive(i),
    ensures
        c.receive(i).wf(),
{
    let d = c.receive(i);
    assert forall|j: int| 0 <= j < d.channels.len() implies #[trigger] d.channel_wf(j) by {
        assert(c.channel_wf(j));
    }
}

/// Resuming a waiting receive keeps the invariant.
pub proof fn lemma_resume_wf<T>(c: CordView<T>, i: int)
    requires
        c.wf(),
        c.can_resume(i),
    ensures
        c.resume(i).wf(),
{
    let d = c.resume(i);
    assert forall|j: int| 0 <= j < d.channels.len() implies #[trigger] d.channel_wf(j) by {
        assert(c.channel_wf(j));
    }
}

/// Running every pending notification signals exactly the channels whose
/// sender has finished, and changes nothing else.
pub proof fn lemma_deliver_all<T>(c: CordView<T>)
    requires
        c.wf(),
    ensures
        c.deliver_all().wf(),
        c.deliver_all().inbox.len() == 0,
        c.deliver_all().endpoint == c.endpoint,
        c.deliver_all().channels.len() == c.channels.len(),
        forall|j: int|
            0 <= j < c.channels.len() ==> #[trigger] c.deliver_all().channels[j] == (Channel {
                signaled: c.channels[j].sender_done,
                ..c.channels[j]
            }),
    decreases c.inbox.len(),
{
    if c.inbox.len() > 0 {
        let d = c.deliver();
        lemma_deliver_wf(c);
        lemma_deliver_all(d);
        let i0 = c.inbox[0] as int;
        assert(c.channel_wf(i0));
        assert forall|j: int| 0 <= j < c.channels.len() implies #[trigger] c.deliver_all().channels[j]
            == (Channel { signaled: c.channels[j].sender_done, ..c.channels[j] }) by {
            assert(c.channel_wf(j));
            assert(d.deliver_all().channels[j] == (Channel {
                signaled: d.channels[j].sender_done,
                ..d.channels[j]
            }));
        }
    } else {
        assert forall|j: int| 0 <= j < c.channels.len() implies #[trigger] c.deliver_all().channels[j]
            == (Channel { signaled: c.channels[j].sender_done, ..c.channels[j] }) by {
            assert(c.channel_wf(j));
            assert(!c.wake_pending(j));
        }
    }
}

/// Dropping the oldest entry of a sequence without duplicates removes
/// exactly that entry.
proof fn lemma_drop_first_contains(s: Seq<usize>, x: usize)
    requires
        s.len() > 0,
        s.no_duplicates(),
    ensures
        s.drop_first().contains(x) == (s.contains(x) && x != s[0]),
        s.drop_first().no_duplicates(),
{
    if s.contains(x) && x != s[0] {
        let k = choose|k: int| 0 <= k < s.len() && s[k] == x;
        assert(s.drop_first()[k - 1] == x);
    }
    if s.drop_first().contains(x) {
        let k = choose|k: int| 0 <= k < s.len() - 1 && s.drop_first()[k] == x;
        assert(s[k + 1] == x);
    }
    assert forall|a: int, b: int| 0 <= a < b < s.len() - 1 implies s.drop_first()[a] != s.drop_first()[b] by {
        assert(s[a + 1] != s[b + 1]);
    }
}

/// Appending `y` adds exactly `y`, and keeps a sequence free of
/// duplicates when `y` was not in it.
proof fn lemma_push_contains(s: Seq<usize>, y: usize, x: usize)
    ensures
        s.push(y).contains(x) == (s.contains(x) || x == y),
        s.no_duplicates() && !s.contains(y) ==> s.push(y).no_duplicates(),
{
    if s.contains(x) {
        let k = choose|k: int| 0 <= k < s.len() && s[k] == x;
        assert(s.push(y)[k] == x);
    }
    if x == y {
        assert(s.push(y)[s.len() as int] == x);
    }
    if s.push(y).contains(x) && x != y {
        let k = choose|k: int| 0 <= k < s.len() + 1 && s.push(y)[k] == x;
        assert(s[k] == x);
    }
    if s.no_duplicates() && !s.contains(y) {
        assert forall|a: int, b: int| 0 <= a < b < s.len() + 1 implies s.push(y)[a] != s.push(y)[b] by {
            if b == s.len() {
                assert(s[a] != y);
            }
        }
    }
}

/// Creates a one-shot channel on `cord` whose sender pushes its wake
/// notification through `pipe`. One pipe can serve many channels.
pub fn channel_on_pipe<T>(cord: &mut Cord<T>, pipe: Arc<LCPipe>) -> (r: (
    Sender<T>,
    EndpointReceiver<T>,
))
    requires
        old(cord)@.wf(),
        old(cord)@.channels.len() < usize::MAX,
        pipe.endpoint() == old(cord)@.endpoint,
    ensures
        final(cord)@ == old(cord)@.open(),
        r.0.index() == old(cord)@.channels.len(),
        r.1.index() == old(cord)@.channels.len(),
        r.0.endpoint() == pipe.endpoint(),
        r.1.endpoint() == pipe.endpoint(),
        final(cord)@.wf(),
{
    let ghost endpoint = pipe.endpoint();
    let i = cord.open();
    (Sender { channel: i, pipe, marker: PhantomData }, EndpointReceiver {
        channel: i,
        endpoint: Ghost(endpoint),
        marker: PhantomData,
    })
}

/// Creates a one-shot channel on `cord` with a pipe of its own towards
/// `cbus_endpoint`, which must be the endpoint that the cord's loop consumes.
pub fn channel<T>(cord: &mut Cord<T>, cbus_endpoint: &str) -> (r: (
    Sender<T>,
    EndpointReceiver<T>,
))
    requires
        old(cord)@.wf(),
        old(cord)@.channels.len() < usize::MAX,
        cbus_endpoint@ == old(cord)@.endpoint,
    ensures
        final(cord)@ == old(cord)@.open(),
        r.0.index() == old(cord)@.channels.len(),
        r.1.index() == old(cord)@.channels.len(),
        r.0.endpoint() == cbus_endpoint@,
        r.1.endpoint() == cbus_endpoint@,
        final(cord)@.wf(),
{
    channel_on_pipe(cord, Arc::new(LCPipe::new(cbus_endpoint)))
}

} // verus!
