//! A channel that hands its messages out by priority.
//!
//! A message is known by a number. Sending a message that is still waiting changes its priority.

use ahash::RandomState;
use priority_queue::PriorityQueue;
use vstd::prelude::*;

verus! {

/// `priority_queue::PriorityQueue`, a collection of items with a priority each.
#[verifier::external_type_specification]
#[verifier::external_body]
#[verifier::reject_recursive_types(I)]
#[verifier::reject_recursive_types(P)]
#[verifier::reject_recursive_types(H)]
pub struct ExPriorityQueue<I, P, H>(priority_queue::PriorityQueue<I, P, H>);

/// `ahash::RandomState`, which seeds the hashes of a queue.
#[verifier::external_type_specification]
#[verifier::external_body]
pub struct ExRandomState(ahash::RandomState);

/// The items that a queue holds, with their priorities.
pub uninterp spec fn queue_contents(queue: PriorityQueue<u64, u64, RandomState>) -> Map<u64, u64>;

/// Whether no item has a higher priority than this one.
pub open spec fn is_first(contents: Map<u64, u64>, item: u64) -> bool {
    &&& contents.dom().contains(item)
    &&& forall|other: u64| #[trigger]
        contents.dom().contains(other) ==> contents[other] <= contents[item]
}

/// `PriorityQueue::with_default_hasher`: an empty queue.
#[verifier::external_body]
fn new_queue() -> (queue: PriorityQueue<u64, u64, RandomState>)
    ensures
        (queue_contents(queue) == Map::<u64, u64>::empty()),
{
    PriorityQueue::<u64, u64, RandomState>::with_default_hasher()
}

/// `PriorityQueue::push`: inserts the item, or changes its priority if it is there already. Returns
/// the priority that it had.
#[verifier::external_body]
fn push_item(queue: &mut PriorityQueue<u64, u64, RandomState>, item: u64, priority: u64) -> (before:
    Option<u64>)
    ensures
        before == (if queue_contents(*old(queue)).dom().contains(item) {
            Some(queue_contents(*old(queue))[item])
        } else {
            None
        }),
        queue_contents(*final(queue)) == queue_contents(*old(queue)).insert(item, priority),
{
    queue.push(item, priority)
}

/// `PriorityQueue::pop`: takes out an item that no other exceeds in priority, if there is any.
/// Which of several such items is taken is left open.
#[verifier::external_body]
fn pop_item(queue: &mut PriorityQueue<u64, u64, RandomState>) -> (popped: Option<(u64, u64)>)
    ensures
        popped is None <==> (queue_contents(*old(queue)) == Map::<u64, u64>::empty()),
        popped is None ==> queue_contents(*final(queue)) == queue_contents(*old(queue)),
        popped matches Some((item, priority)) ==> is_first(queue_contents(*old(queue)), item)
            && priority == queue_contents(*old(queue))[item] && queue_contents(*final(queue))
            == queue_contents(*old(queue)).remove(item),
{
    queue.pop()
}

/// The channel does not take a message any more.
#[derive(Clone, Copy, Debug, PartialEq, Eq, Structural)]
pub enum SendError<T> {
    /// The channel is closed and no more messages may be sent. Hands the message back.
    Closed(T),
}

/// There is no message to be had.
#[derive(Clone, Copy, Debug, PartialEq, Eq, Structural)]
pub enum TryRecvError {
    /// The channel is empty.
    Empty,
    /// The channel is closed and empty.
    ClosedAndEmpty,
}

/// There will be no message any more.
#[derive(Clone, Copy, Debug, PartialEq, Eq, Structural)]
pub enum RecvError {
    /// The channel is closed and empty.
    ClosedAndEmpty,
}

/// What the ends of a channel share.
pub struct PriorityChannelInner {
    id: Ghost<int>,
    queue: PriorityQueue<u64, u64, RandomState>,
    sender_count: usize,
    receiver_count: usize,
    closed: bool,
    len: usize,
}

/// The mathematical content of a channel.
#[verifier::ext_equal]
pub struct ChannelView {
    /// A tag that the channel shares with its ends, so that they are used with no other. Nothing
    /// is known of the tags of two channels: neither that they differ nor that they are the same.
    pub id: int,
    /// The messages that wait, with their priorities.
    pub waiting: Map<u64, u64>,
    /// How many messages wait.
    pub len: nat,
    pub senders: nat,
    pub receivers: nat,
    pub closed: bool,
}

impl View for PriorityChannelInner {
    type V = ChannelView;

    closed spec fn view(&self) -> ChannelView {
        ChannelView {
            id: self.id@,
            waiting: queue_contents(self.queue),
            len: self.len as nat,
            senders: self.sender_count as nat,
            receivers: self.receiver_count as nat,
            closed: self.closed,
        }
    }
}

impl ChannelView {
    /// Whether a channel can be in this state: it counts the messages that wait.
    pub open spec fn valid(self) -> bool {
        &&& self.waiting.dom().finite()
        &&& self.waiting.len() == self.len
    }

    /// The channel, closed.
    pub open spec fn shut(self) -> ChannelView {
        ChannelView { closed: true, ..self }
    }

    /// The channel after `msg` was sent: a closed one takes no message, and a message that waits
    /// already is given another priority.
    pub open spec fn sent(self, msg: u64, prio: u64) -> ChannelView {
        if self.closed {
            self
        } else {
            ChannelView {
                waiting: self.waiting.insert(msg, prio),
                len: if self.waiting.dom().contains(msg) {
                    self.len
                } else {
                    self.len + 1
                },
                ..self
            }
        }
    }

    /// The channel after `msg` was received.
    pub open spec fn received(self, msg: u64) -> ChannelView {
        ChannelView {
            waiting: self.waiting.remove(msg),
            len: (self.len - 1) as nat,
            ..self
        }
    }

    /// The channel with another sender.
    pub open spec fn with_sender(self) -> ChannelView {
        ChannelView { senders: self.senders + 1, ..self }
    }

    /// The channel without one of its senders. Without the last one, it is closed.
    pub open spec fn without_sender(self) -> ChannelView {
        ChannelView {
            senders: (self.senders - 1) as nat,
            closed: self.closed || self.senders == 1,
            ..self
        }
    }

    /// The channel without one of its receivers. Without the last one, it is closed.
    pub open spec fn without_receiver(self) -> ChannelView {
        ChannelView {
            receivers: (self.receivers - 1) as nat,
            closed: self.closed || self.receivers == 1,
            ..self
        }
    }

    /// Whether `msg`, with its priority, is one that can be received next.
    pub open spec fn hands_out(self, msg: u64, prio: u64) -> bool {
        &&& self.len > 0
        &&& is_first(self.waiting, msg)
        &&& prio == self.waiting[msg]
    }
}

impl PriorityChannelInner {
    /// Closes the channel. Returns whether it was open.
    pub fn close(&mut self) -> (was_open: bool)
        ensures
            was_open == !old(self)@.closed,
            final(self)@ == old(self)@.shut(),
    {
        let was_open = !self.closed;
        self.closed = true;
        was_open
    }

    /// Whether the channel is closed.
    pub fn is_closed(&self) -> (closed: bool)
        ensures
            closed == self@.closed,
    {
        self.closed
    }

    /// Whether no message waits.
    pub fn is_empty(&self) -> (empty: bool)
        ensures
            empty == (self@.len == 0),
    {
        self.len == 0
    }

    /// Whether one more sender can be counted.
    pub fn takes_sender(&self) -> (takes: bool)
        ensures
            takes == (self@.senders < usize::MAX),
    {
        self.sender_count < usize::MAX
    }

    /// Whether one more message can be counted.
    pub fn takes_message(&self) -> (takes: bool)
        ensures
            takes == (self@.len < usize::MAX),
    {
        self.len < usize::MAX
    }

    /// Whether a receiver that waits has to look again.
    pub fn wakes_receiver(&self) -> (wakes: bool)
        ensures
            wakes == (self@.len > 0 || self@.closed),
    {
        self.len > 0 || self.closed
    }
}

/// The end of a channel that messages are put in at. It works on a channel that is known to have
/// its tag.
pub struct PrioritySender {
    channel: Ghost<int>,
}

/// The end of a channel that messages are taken out at. It works on a channel that is known to
/// have its tag.
pub struct PriorityReceiver {
    channel: Ghost<int>,
}

/// The messages of a channel, one after the other.
pub struct PriorityStream {
    receiver: PriorityReceiver,
}

/// What a stream comes up with.
pub enum StreamStep {
    /// A message with its priority, and the stream of those after it.
    Item(u64, u64, PriorityStream),
    /// There is no message yet: the stream has to wait until
    /// [`PriorityChannelInner::wakes_receiver`] holds.
    Wait(PriorityStream),
    /// There will be no message any more.
    End,
}

/// Creates an open, empty channel with one sender and one receiver.
pub fn priority_channel() -> (channel: (PriorityChannelInner, PrioritySender, PriorityReceiver))
    ensures
        channel.0@ == (ChannelView {
            id: channel.0@.id,
            waiting: Map::empty(),
            len: 0,
            senders: 1,
            receivers: 1,
            closed: false,
        }),
        channel.0@.valid(),
        channel.1.channel() == channel.0@.id,
        channel.2.channel() == channel.0@.id,
        closed_without_an_end(channel.0@),
{
    let id: Ghost<int> = Ghost(arbitrary());
    let inner = PriorityChannelInner {
        id,
        queue: new_queue(),
        sender_count: 1,
        receiver_count: 1,
        closed: false,
        len: 0,
    };
    (inner, PrioritySender { channel: id }, PriorityReceiver { channel: id })
}

impl PrioritySender {
    /// The tag of the channel that the sender belongs to.
    pub closed spec fn channel(self) -> int {
        self.channel@
    }

    /// Adds another sender to the channel.
    pub fn clone(&self, inner: &mut PriorityChannelInner) -> (sender: PrioritySender)
        requires
            self.channel() == old(inner)@.id,
            old(inner)@.senders < usize::MAX,
        ensures
            sender.channel() == self.channel(),
            final(inner)@ == old(inner)@.with_sender(),
    {
        inner.sender_count = inner.sender_count + 1;
        PrioritySender { channel: self.channel }
    }

    /// Takes this sender away from the channel. The last one closes it.
    pub fn drop(self, inner: &mut PriorityChannelInner)
        requires
            self.channel() == old(inner)@.id,
            old(inner)@.senders > 0,
        ensures
            final(inner)@ == old(inner)@.without_sender(),
    {
        let last = inner.sender_count == 1;
        inner.sender_count = inner.sender_count - 1;
        if last {
            inner.close();
        }
    }

    /// Sends a message, unless the channel is closed.
    pub fn send(&self, inner: &mut PriorityChannelInner, msg: u64, prio: u64) -> (sent: Result<
        (),
        SendError<u64>,
    >)
        requires
            self.channel() == old(inner)@.id,
            !old(inner)@.closed && !old(inner)@.waiting.dom().contains(msg) ==> old(inner)@.len
                < usize::MAX,
        ensures
            old(inner)@.closed ==> sent == Err::<(), _>(SendError::Closed(msg)),
            !old(inner)@.closed ==> sent == Ok::<_, SendError<u64>>(()),
            final(inner)@ == old(inner)@.sent(msg, prio),
            old(inner)@.valid() ==> final(inner)@.valid(),
    {
        if inner.is_closed() {
            return Err(SendError::Closed(msg));
        }
        if push_item(&mut inner.queue, msg, prio).is_none() {
            inner.len = inner.len + 1;
        }
        Ok(())
    }
}

impl PriorityReceiver {
    /// The tag of the channel that the receiver belongs to.
    pub closed spec fn channel(self) -> int {
        self.channel@
    }

    /// Takes this receiver away from the channel. The last one closes it.
    pub fn drop(self, inner: &mut PriorityChannelInner)
        requires
            self.channel() == old(inner)@.id,
            old(inner)@.receivers > 0,
        ensures
            final(inner)@ == old(inner)@.without_receiver(),
    {
        let last = inner.receiver_count == 1;
        inner.receiver_count = inner.receiver_count - 1;
        if last {
            inner.close();
        }
    }

    /// Receives a message that no other exceeds in priority, if there is any.
    pub fn try_recv(&self, inner: &mut PriorityChannelInner) -> (received: Result<
        (u64, u64),
        TryRecvError,
    >)
        requires
            self.channel() == old(inner)@.id,
            old(inner)@.valid(),
        ensures
            match received {
                Ok((msg, prio)) => {
                    &&& old(inner)@.hands_out(msg, prio)
                    &&& final(inner)@ == old(inner)@.received(msg)
                },
                Err(error) => {
                    &&& old(inner)@.len == 0
                    &&& error == (if old(inner)@.closed {
                        TryRecvError::ClosedAndEmpty
                    } else {
                        TryRecvError::Empty
                    })
                    &&& final(inner)@ == old(inner)@
                },
            },
            final(inner)@.valid(),
    {
        match (inner.is_closed(), inner.is_empty()) {
            (true, true) => Err(TryRecvError::ClosedAndEmpty),
            (false, true) => Err(TryRecvError::Empty),
            (_, false) => {
                proof {
                    law_empty_channel_has_no_message(inner@);
                }
                let popped = pop_item(&mut inner.queue);
                inner.len = inner.len - 1;
                let (msg, prio) = popped.unwrap();
                Ok((msg, prio))
            },
        }
    }

    /// Receives a message that no other exceeds in priority. `None` tells that there is none yet:
    /// the receiver has to wait until [`PriorityChannelInner::wakes_receiver`] holds.
    pub fn recv(&self, inner: &mut PriorityChannelInner) -> (received: Result<
        Option<(u64, u64)>,
        RecvError,
    >)
        requires
            self.channel() == old(inner)@.id,
            old(inner)@.valid(),
        ensures
            match received {
                Ok(Some((msg, prio))) => {
                    &&& old(inner)@.hands_out(msg, prio)
                    &&& final(inner)@ == old(inner)@.received(msg)
                },
                Ok(None) => {
                    &&& old(inner)@.len == 0
                    &&& !old(inner)@.closed
                    &&& final(inner)@ == old(inner)@
                },
                Err(RecvError::ClosedAndEmpty) => {
                    &&& old(inner)@.len == 0
                    &&& old(inner)@.closed
                    &&& final(inner)@ == old(inner)@
                },
            },
            final(inner)@.valid(),
    {
        match self.try_recv(inner) {
            Ok(message) => Ok(Some(message)),
            Err(TryRecvError::Empty) => Ok(None),
            Err(TryRecvError::ClosedAndEmpty) => Err(RecvError::ClosedAndEmpty),
        }
    }

    /// Turns the receiver into a stream of what it receives, from the channel it belongs to.
    pub fn into_stream(self) -> (stream: PriorityStream)
        ensures
            stream.source() == self,
    {
        PriorityStream { receiver: self }
    }
}

impl PriorityStream {
    /// The receiver that the messages come from.
    pub closed spec fn source(self) -> PriorityReceiver {
        self.receiver
    }

    /// Takes the stream one step further. A stream that has ended takes its receiver away from the
    /// channel.
    pub fn next(self, inner: &mut PriorityChannelInner) -> (step: StreamStep)
        requires
            self.source().channel() == old(inner)@.id,
            old(inner)@.valid(),
            old(inner)@.receivers > 0,
        ensures
            match step {
                StreamStep::Item(msg, prio, rest) => {
                    &&& old(inner)@.hands_out(msg, prio)
                    &&& final(inner)@ == old(inner)@.received(msg)
                    &&& rest.source() == self.source()
                },
                StreamStep::Wait(rest) => {
                    &&& old(inner)@.len == 0
                    &&& !old(inner)@.closed
                    &&& final(inner)@ == old(inner)@
                    &&& rest.source() == self.source()
                },
                StreamStep::End => {
                    &&& old(inner)@.len == 0
                    &&& old(inner)@.closed
                    &&& final(inner)@ == old(inner)@.without_receiver()
                },
            },
            final(inner)@.valid(),
    {
        match self.receiver.recv(inner) {
            Ok(Some((msg, prio))) => StreamStep::Item(msg, prio, self),
            Ok(None) => StreamStep::Wait(self),
            Err(RecvError::ClosedAndEmpty) => {
                self.receiver.drop(inner);
                StreamStep::End
            },
        }
    }
}

/// The channel after these messages were received, one after the other.
pub open spec fn channel_after(channel: ChannelView, messages: Seq<(u64, u64)>) -> ChannelView
    decreases messages.len(),
{
    if messages.len() == 0 {
        channel
    } else {
        channel_after(channel, messages.drop_last()).received(messages.last().0)
    }
}

/// Whether these messages can be received one after the other.
pub open spec fn can_receive(channel: ChannelView, messages: Seq<(u64, u64)>) -> bool
    decreases messages.len(),
{
    messages.len() > 0 ==> {
        &&& can_receive(channel, messages.drop_last())
        &&& channel_after(channel, messages.drop_last()).hands_out(
            messages.last().0,
            messages.last().1,
        )
    }
}

/// Whether `msg` is among `messages`.
pub open spec fn taken(messages: Seq<(u64, u64)>, msg: u64) -> bool {
    exists|i: int| 0 <= i < messages.len() && (#[trigger] messages[i]).0 == msg
}

/// Whether `messages` is all of `contents`, each message once, by falling priority.
pub open spec fn drained(contents: Map<u64, u64>, messages: Seq<(u64, u64)>) -> bool {
    &&& messages.len() == contents.len()
    &&& forall|i: int|
        0 <= i < messages.len() ==> contents.dom().contains((#[trigger] messages[i]).0)
            && contents[messages[i].0] == messages[i].1
    &&& forall|msg: u64| #[trigger] contents.dom().contains(msg) ==> taken(messages, msg)
    &&& forall|i: int, j: int|
        0 <= i < j < messages.len() ==> (#[trigger] messages[i]).0 != (#[trigger] messages[j]).0
            && messages[i].1 >= messages[j].1
}

/// Whether `messages` is what came out of `contents` so far, and `waiting` what is left.
spec fn partly_drained(
    contents: Map<u64, u64>,
    waiting: Map<u64, u64>,
    messages: Seq<(u64, u64)>,
) -> bool {
    &&& forall|i: int|
        0 <= i < messages.len() ==> contents.dom().contains((#[trigger] messages[i]).0)
            && contents[messages[i].0] == messages[i].1 && !waiting.dom().contains(messages[i].0)
    &&& forall|msg: u64| #[trigger]
        waiting.dom().contains(msg) ==> contents.dom().contains(msg) && contents[msg]
            == waiting[msg]
    &&& forall|msg: u64| #[trigger]
        contents.dom().contains(msg) ==> waiting.dom().contains(msg) || taken(messages, msg)
    &&& forall|i: int, j: int|
        0 <= i < j < messages.len() ==> (#[trigger] messages[i]).0 != (#[trigger] messages[j]).0
            && messages[i].1 >= messages[j].1
    &&& forall|i: int, msg: u64|
        0 <= i < messages.len() && #[trigger] waiting.dom().contains(msg) ==> (
        #[trigger] messages[i]).1 >= waiting[msg]
}

/// Taking out a message that no other exceeds in priority keeps the order.
proof fn lemma_drain_step(
    contents: Map<u64, u64>,
    waiting: Map<u64, u64>,
    messages: Seq<(u64, u64)>,
    msg: u64,
)
    requires
        partly_drained(contents, waiting, messages),
        is_first(waiting, msg),
    ensures
        partly_drained(contents, waiting.remove(msg), messages.push((msg, waiting[msg]))),
{
    let more = messages.push((msg, waiting[msg]));
    assert forall|m: u64| #[trigger] contents.dom().contains(m) implies waiting.remove(
        msg,
    ).dom().contains(m) || taken(more, m) by {
        if m == msg {
            assert(more[messages.len() as int].0 == m);
        } else if taken(messages, m) {
            let i = choose|i: int| 0 <= i < messages.len() && (#[trigger] messages[i]).0 == m;
            assert(more[i].0 == m);
        }
    }
}

/// What came out of a channel so far is in order, and what is left is no more urgent.
proof fn lemma_partly_drained(channel: ChannelView, messages: Seq<(u64, u64)>)
    requires
        channel.valid(),
        can_receive(channel, messages),
    ensures
        partly_drained(channel.waiting, channel_after(channel, messages).waiting, messages),
        channel_after(channel, messages).valid(),
        channel_after(channel, messages).len + messages.len() == channel.len,
    decreases messages.len(),
{
    if messages.len() > 0 {
        let earlier = messages.drop_last();
        let before = channel_after(channel, earlier);
        let (msg, prio) = messages.last();
        lemma_partly_drained(channel, earlier);
        lemma_drain_step(channel.waiting, before.waiting, earlier, msg);
        assert(messages =~= earlier.push((msg, before.waiting[msg])));
    }
}

/// A finite map without elements is the empty map.
proof fn lemma_empty_waiting(waiting: Map<u64, u64>)
    requires
        waiting.dom().finite(),
        waiting.len() == 0,
    ensures
        waiting == Map::<u64, u64>::empty(),
{
    assert(waiting.dom() =~= Set::empty());
    assert(waiting =~= Map::empty());
}

/// A channel is empty exactly if no message waits.
pub proof fn law_empty_channel_has_no_message(channel: ChannelView)
    requires
        channel.valid(),
    ensures
        channel.len == 0 <==> channel.waiting == Map::<u64, u64>::empty(),
{
    if channel.len == 0 {
        lemma_empty_waiting(channel.waiting);
    }
}

/// Messages that are received with none sent in between come by falling priority, each once and
/// with the priority that it waited with, and once nothing is left, they are all that waited.
pub proof fn law_messages_come_by_priority(channel: ChannelView, messages: Seq<(u64, u64)>)
    requires
        channel.valid(),
        can_receive(channel, messages),
    ensures
        forall|i: int|
            0 <= i < messages.len() ==> channel.waiting.dom().contains((#[trigger] messages[i]).0)
                && channel.waiting[messages[i].0] == messages[i].1,
        forall|i: int, j: int|
            0 <= i < j < messages.len() ==> (#[trigger] messages[i]).0 != (
            #[trigger] messages[j]).0 && messages[i].1 >= messages[j].1,
        channel_after(channel, messages).len == 0 ==> drained(channel.waiting, messages),
{
    lemma_partly_drained(channel, messages);
    law_empty_channel_has_no_message(channel_after(channel, messages));
}

/// Whatever happens to a channel, it counts the messages that wait.
pub proof fn law_waiting_messages_are_counted(channel: ChannelView, msg: u64, prio: u64)
    requires
        channel.valid(),
    ensures
        channel.sent(msg, prio).valid(),
        channel.waiting.dom().contains(msg) ==> channel.received(msg).valid(),
        channel.shut().valid(),
        channel.with_sender().valid(),
        channel.without_sender().valid(),
        channel.without_receiver().valid(),
{
    if channel.waiting.dom().contains(msg) {
        assert(channel.waiting.insert(msg, prio).dom() =~= channel.waiting.dom());
    }
}

/// Sending a message that waits changes its priority, and it still waits once: once it is received,
/// it does not wait any more.
pub proof fn law_sending_again_changes_priority(channel: ChannelView, msg: u64, prio: u64)
    requires
        !channel.closed,
        channel.waiting.dom().contains(msg),
    ensures
        channel.sent(msg, prio).waiting[msg] == prio,
        channel.sent(msg, prio).waiting.dom() == channel.waiting.dom(),
        channel.sent(msg, prio).len == channel.len,
        channel.sent(msg, prio).received(msg) == channel.received(msg),
{
    assert(channel.waiting.insert(msg, prio).dom() =~= channel.waiting.dom());
    assert(channel.waiting.insert(msg, prio).remove(msg) =~= channel.waiting.remove(msg));
}

/// A message with a higher priority than all that wait is the next to be received, and once it is,
/// the channel is as it was before the message was sent.
pub proof fn law_highest_priority_overtakes(channel: ChannelView, msg: u64, prio: u64, next: u64)
    requires
        !channel.closed,
        !channel.waiting.dom().contains(msg),
        forall|other: u64| #[trigger]
            channel.waiting.dom().contains(other) ==> channel.waiting[other] < prio,
        is_first(channel.sent(msg, prio).waiting, next),
    ensures
        next == msg,
        channel.sent(msg, prio).received(next) == channel,
{
    let after = channel.sent(msg, prio).waiting;
    assert(after.dom().contains(msg));
    if next != msg {
        assert(channel.waiting.dom().contains(next));
        assert(after[msg] <= after[next]);
    }
    assert(after.remove(msg) =~= channel.waiting);
}

/// Receiving a message leaves all others waiting, and closing the channel leaves them all.
pub proof fn law_no_message_is_lost(channel: ChannelView, received: u64, other: u64)
    requires
        channel.waiting.dom().contains(other),
        received != other,
    ensures
        channel.received(received).waiting.dom().contains(other),
        channel.received(received).waiting[other] == channel.waiting[other],
        channel.shut().waiting == channel.waiting,
        channel.shut().len == channel.len,
{
}

/// A closed channel stays closed, whatever happens to it, and takes no message.
pub proof fn law_closed_stays_closed(channel: ChannelView, msg: u64, prio: u64)
    requires
        channel.closed,
    ensures
        channel.shut() == channel,
        channel.sent(msg, prio) == channel,
        channel.received(msg).closed,
        channel.with_sender().closed,
        channel.without_sender().closed,
        channel.without_receiver().closed,
{
}

/// Whether the channel is closed exactly if one of its sides has no end left.
pub open spec fn closed_without_an_end(channel: ChannelView) -> bool {
    channel.closed <==> (channel.senders == 0 || channel.receivers == 0)
}

/// A channel is closed exactly if its last sender or its last receiver is gone, whatever is done
/// with its ends.
pub proof fn law_closed_exactly_without_an_end(channel: ChannelView, msg: u64, prio: u64)
    requires
        closed_without_an_end(channel),
    ensures
        closed_without_an_end(channel.sent(msg, prio)),
        closed_without_an_end(channel.received(msg)),
        channel.senders > 0 ==> closed_without_an_end(channel.with_sender()),
        channel.senders > 0 ==> closed_without_an_end(channel.without_sender()),
        channel.receivers > 0 ==> closed_without_an_end(channel.without_receiver()),
{
}

/// A message that is sent on an open channel waits with its priority, once. All others wait as
/// before, and nothing else changes.
pub proof fn law_sent_message_waits(channel: ChannelView, msg: u64, prio: u64, other: u64)
    requires
        !channel.closed,
    ensures
        ({
            let sent = channel.sent(msg, prio);
            &&& sent.waiting.dom().contains(msg) && sent.waiting[msg] == prio
            &&& other != msg ==> (sent.waiting.dom().contains(other)
                <==> channel.waiting.dom().contains(other)) && sent.waiting[other]
                == channel.waiting[other]
            &&& sent.len == channel.len + (if channel.waiting.dom().contains(msg) {
                0nat
            } else {
                1nat
            })
            &&& sent.id == channel.id && sent.senders == channel.senders && sent.receivers
                == channel.receivers && !sent.closed
        }),
{
}

/// A message that is received does not wait any more. All others wait as before, and nothing else
/// changes.
pub proof fn law_received_message_is_gone(channel: ChannelView, msg: u64, other: u64)
    requires
        channel.valid(),
        channel.waiting.dom().contains(msg),
    ensures
        ({
            let received = channel.received(msg);
            &&& !received.waiting.dom().contains(msg)
            &&& other != msg ==> (received.waiting.dom().contains(other)
                <==> channel.waiting.dom().contains(other)) && (
            channel.waiting.dom().contains(other) ==> received.waiting[other]
                == channel.waiting[other])
            &&& received.len + 1 == channel.len
            &&& received.id == channel.id && received.senders == channel.senders
                && received.receivers == channel.receivers && received.closed == channel.closed
        }),
{
}

/// Ends are counted, and the last one of a side closes the channel. No message is touched.
pub proof fn law_ends_are_counted(channel: ChannelView)
    ensures
        channel.with_sender().senders == channel.senders + 1,
        channel.with_sender().receivers == channel.receivers,
        channel.with_sender().closed == channel.closed,
        channel.senders > 0 ==> channel.without_sender().senders + 1 == channel.senders,
        channel.senders > 0 ==> (channel.without_sender().closed <==> channel.closed
            || channel.without_sender().senders == 0),
        channel.without_sender().receivers == channel.receivers,
        channel.receivers > 0 ==> channel.without_receiver().receivers + 1 == channel.receivers,
        channel.receivers > 0 ==> (channel.without_receiver().closed <==> channel.closed
            || channel.without_receiver().receivers == 0),
        channel.without_receiver().senders == channel.senders,
        channel.shut().closed,
        channel.shut().senders == channel.senders,
        channel.shut().receivers == channel.receivers,
        channel.with_sender().waiting == channel.waiting,
        channel.without_sender().waiting == channel.waiting,
        channel.without_receiver().waiting == channel.waiting,
        channel.with_sender().len == channel.len,
        channel.without_sender().len == channel.len,
        channel.without_receiver().len == channel.len,
        channel.with_sender().id == channel.id,
        channel.without_sender().id == channel.id,
        channel.without_receiver().id == channel.id,
        channel.shut().id == channel.id,
{
}

/// What is handed out waits, with that priority, and nothing that waits has a higher one.
pub proof fn law_most_urgent_is_handed_out(channel: ChannelView, msg: u64, prio: u64, other: u64)
    requires
        channel.valid(),
    ensures
        channel.hands_out(msg, prio) ==> channel.waiting.dom().contains(msg)
            && channel.waiting[msg] == prio && (channel.waiting.dom().contains(other)
            ==> channel.waiting[other] <= prio),
        channel.waiting.dom().contains(msg) && channel.waiting[msg] == prio && (forall|m: u64|
            #[trigger] channel.waiting.dom().contains(m) ==> channel.waiting[m] <= prio)
            ==> channel.hands_out(msg, prio),
{
    if channel.waiting.dom().contains(msg) {
        law_empty_channel_has_no_message(channel);
        assert(channel.waiting != Map::<u64, u64>::empty());
    }
}

/// A new channel is open and empty, with one end on each side.
pub proof fn law_new_channel_is_open_and_empty(
    channel: (PriorityChannelInner, PrioritySender, PriorityReceiver),
)
    requires
        call_ensures(priority_channel, (), channel),
    ensures
        !channel.0@.closed,
        channel.0@.len == 0,
        channel.0@.senders == 1,
        channel.0@.receivers == 1,
        forall|msg: u64| !#[trigger] channel.0@.waiting.dom().contains(msg),
        channel.1.channel() == channel.0@.id,
        channel.2.channel() == channel.0@.id,
{
}

/// What is told of a channel is how it is.
pub proof fn law_channel_tells_how_it_is(
    inner: &PriorityChannelInner,
    closed: bool,
    empty: bool,
    wakes: bool,
)
    requires
        inner@.valid(),
        call_ensures(PriorityChannelInner::is_closed, (inner,), closed),
        call_ensures(PriorityChannelInner::is_empty, (inner,), empty),
        call_ensures(PriorityChannelInner::wakes_receiver, (inner,), wakes),
    ensures
        closed <==> inner@.closed,
        empty <==> forall|msg: u64| !#[trigger] inner@.waiting.dom().contains(msg),
        wakes <==> closed || !empty,
{
    law_empty_channel_has_no_message(inner@);
    if inner@.len != 0 {
        if forall|msg: u64| !#[trigger] inner@.waiting.dom().contains(msg) {
            assert(inner@.waiting =~= Map::<u64, u64>::empty());
        }
    }
}

/// A send succeeds exactly if the channel is open, and hands the message back otherwise.
pub proof fn law_send_succeeds_while_open(
    sender: &PrioritySender,
    inner: &mut PriorityChannelInner,
    msg: u64,
    prio: u64,
    sent: Result<(), SendError<u64>>,
)
    requires
        call_ensures(PrioritySender::send, (sender, inner, msg, prio), sent),
    ensures
        !old(inner)@.closed ==> sent is Ok && final(inner)@.waiting.dom().contains(msg)
            && final(inner)@.waiting[msg] == prio,
        old(inner)@.closed ==> sent == Err::<(), _>(SendError::Closed(msg)) && final(inner)@ == old(inner)@,
{
}

/// As long as a message waits, a receiver gets one, and none that waits is more urgent. Without
/// one, it is told so, and whether one can still come.
pub proof fn law_receiver_gets_most_urgent(
    receiver: &PriorityReceiver,
    inner: &mut PriorityChannelInner,
    received: Result<(u64, u64), TryRecvError>,
    other: u64,
)
    requires
        old(inner)@.valid(),
        call_ensures(PriorityReceiver::try_recv, (receiver, inner), received),
    ensures
        old(inner)@.waiting.dom().contains(other) ==> received is Ok && old(inner)@.waiting[other]
            <= received.unwrap().1,
        received matches Ok((msg, prio)) ==> old(inner)@.waiting.dom().contains(msg)
            && old(inner)@.waiting[msg] == prio && final(inner)@.waiting == old(inner)@.waiting.remove(msg)
            && final(inner)@.closed == old(inner)@.closed,
        received == Err::<(u64, u64), _>(TryRecvError::Empty) <==> old(inner)@.waiting == Map::<
            u64,
            u64,
        >::empty() && !old(inner)@.closed,
        received == Err::<(u64, u64), _>(TryRecvError::ClosedAndEmpty) <==> old(inner)@.waiting
            == Map::<u64, u64>::empty() && old(inner)@.closed,
        received is Err ==> final(inner)@ == old(inner)@,
{
    law_empty_channel_has_no_message(old(inner)@);
}

/// Waiting for a message comes to the same as looking for one, but for an open and empty channel,
/// where it goes on.
pub proof fn law_waiting_receiver_gets_most_urgent(
    receiver: &PriorityReceiver,
    inner: &mut PriorityChannelInner,
    received: Result<Option<(u64, u64)>, RecvError>,
    other: u64,
)
    requires
        old(inner)@.valid(),
        call_ensures(PriorityReceiver::recv, (receiver, inner), received),
    ensures
        old(inner)@.waiting.dom().contains(other) ==> received is Ok && received.unwrap() is Some
            && old(inner)@.waiting[other] <= received.unwrap().unwrap().1,
        received matches Ok(Some((msg, prio))) ==> old(inner)@.waiting.dom().contains(msg)
            && old(inner)@.waiting[msg] == prio && final(inner)@.waiting == old(inner)@.waiting.remove(msg),
        received matches Ok(None) <==> old(inner)@.waiting == Map::<u64, u64>::empty()
            && !old(inner)@.closed,
        received is Err <==> old(inner)@.waiting == Map::<u64, u64>::empty() && old(inner)@.closed,
{
    law_empty_channel_has_no_message(old(inner)@);
}

/// A stream goes on while there is a message or one can still come, and ends exactly if neither is
/// so. Then it leaves the channel.
pub proof fn law_stream_ends_with_the_channel(
    stream: PriorityStream,
    inner: &mut PriorityChannelInner,
    step: StreamStep,
    other: u64,
)
    requires
        old(inner)@.valid(),
        old(inner)@.receivers > 0,
        call_ensures(PriorityStream::next, (stream, inner), step),
    ensures
        old(inner)@.waiting.dom().contains(other) ==> (step matches StreamStep::Item(_, prio, _)
            && old(inner)@.waiting[other] <= prio),
        step matches StreamStep::Item(msg, prio, _) ==> old(inner)@.waiting.dom().contains(msg)
            && old(inner)@.waiting[msg] == prio && final(inner)@.waiting == old(inner)@.waiting.remove(msg)
            && final(inner)@.receivers == old(inner)@.receivers,
        step is Wait <==> old(inner)@.waiting == Map::<u64, u64>::empty() && !old(inner)@.closed,
        step is End <==> old(inner)@.waiting == Map::<u64, u64>::empty() && old(inner)@.closed,
        step is End ==> final(inner)@.receivers + 1 == old(inner)@.receivers,
{
    law_empty_channel_has_no_message(old(inner)@);
}

/// The ends of a channel belong to it, and a stream to the channel of its receiver.
pub proof fn law_ends_keep_their_channel(
    sender: &PrioritySender,
    inner: &mut PriorityChannelInner,
    another: PrioritySender,
    receiver: PriorityReceiver,
    stream: PriorityStream,
)
    requires
        call_ensures(PrioritySender::clone, (sender, inner), another),
        call_ensures(PriorityReceiver::into_stream, (receiver,), stream),
    ensures
        another.channel() == sender.channel(),
        final(inner)@.senders == old(inner)@.senders + 1,
        final(inner)@.waiting == old(inner)@.waiting,
        stream.source() == receiver,
{
}

/// Closing tells whether the channel was open, and leaves the messages. Leaving takes one end away,
/// and closes the channel exactly if it was the last one of its side, or if it was closed before.
pub proof fn law_leaving_and_closing(
    inner: &mut PriorityChannelInner,
    was_open: bool,
    sender: PrioritySender,
    left_by_sender: &mut PriorityChannelInner,
    receiver: PriorityReceiver,
    left_by_receiver: &mut PriorityChannelInner,
)
    requires
        call_ensures(PriorityChannelInner::close, (inner,), was_open),
        call_ensures(PrioritySender::drop, (sender, left_by_sender), ()),
        call_ensures(PriorityReceiver::drop, (receiver, left_by_receiver), ()),
        old(left_by_sender)@.senders > 0,
        old(left_by_receiver)@.receivers > 0,
    ensures
        was_open <==> !old(inner)@.closed,
        final(inner)@.closed,
        final(inner)@.waiting == old(inner)@.waiting,
        final(left_by_sender)@.senders + 1 == old(left_by_sender)@.senders,
        final(left_by_sender)@.closed <==> old(left_by_sender)@.closed
            || old(left_by_sender)@.senders == 1,
        final(left_by_sender)@.waiting == old(left_by_sender)@.waiting,
        final(left_by_receiver)@.receivers + 1 == old(left_by_receiver)@.receivers,
        final(left_by_receiver)@.closed <==> old(left_by_receiver)@.closed
            || old(left_by_receiver)@.receivers == 1,
        final(left_by_receiver)@.waiting == old(left_by_receiver)@.waiting,
{
}

/// There is room as long as a counter is not full.
pub proof fn law_room_is_told(inner: &PriorityChannelInner, sender: bool, message: bool)
    requires
        call_ensures(PriorityChannelInner::takes_sender, (inner,), sender),
        call_ensures(PriorityChannelInner::takes_message, (inner,), message),
    ensures
        sender <==> inner@.senders + 1 <= usize::MAX,
        message <==> inner@.len + 1 <= usize::MAX,
{
}

} // verus!
