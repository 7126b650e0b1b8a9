//! The stop signal: a channel of capacity one on which a request to stop is
//! raised at one end and looked for, without waiting, at the other.

use vstd::prelude::*;

verus! {

/// `crossbeam_channel::Sender`, the sending side of a channel. Nothing of
/// what it holds is visible to the proofs.
#[verifier::external_type_specification]
#[verifier::external_body]
#[verifier::reject_recursive_types(T)]
pub struct ExSender<T>(crossbeam_channel::Sender<T>);

/// `crossbeam_channel::Receiver`, the receiving side of a channel. Nothing
/// of what it holds is visible to the proofs.
#[verifier::external_type_specification]
#[verifier::external_body]
#[verifier::reject_recursive_types(T)]
pub struct ExReceiver<T>(crossbeam_channel::Receiver<T>);

/// How many requests the signal holds at most.
pub const STOP_CAPACITY: usize = 1;

/// What one look at the receiving end found.
#[derive(Clone, Copy, Debug, PartialEq, Eq, Structural)]
pub enum Poll {
    /// A request to stop was waiting and has been taken.
    Signalled,
    /// Nothing was waiting.
    Idle,
    /// Nothing was waiting and every sending end is gone.
    Disconnected,
}

impl Poll {
    /// Whether a loop that found this must end. Only a request ends it: a
    /// loop whose senders are all gone goes on as one that found nothing.
    pub open spec fn ends_loop(self) -> bool {
        self == Poll::Signalled
    }

    #[verifier::when_used_as_spec(ends_loop)]
    pub fn is_final(self) -> (b: bool)
        ensures
            b == self.ends_loop(),
    {
        match self {
            Poll::Signalled => true,
            _ => false,
        }
    }
}

/// The end on which a stop is requested.
pub struct StopSender {
    tx: crossbeam_channel::Sender<()>,
}

/// The end on which a running loop looks for a request.
pub struct StopReceiver {
    rx: crossbeam_channel::Receiver<()>,
}

/// What `crossbeam_channel::Sender::capacity` returns for a sending end: the
/// most messages that its channel holds, or nothing for a channel without a
/// bound. It is fixed when the channel is made.
pub uninterp spec fn sender_capacity(tx: crossbeam_channel::Sender<()>) -> Option<usize>;

/// What `crossbeam_channel::Receiver::capacity` returns for a receiving end.
pub uninterp spec fn receiver_capacity(rx: crossbeam_channel::Receiver<()>) -> Option<usize>;

/// Whether a sending end and a receiving end are the two ends of one
/// channel, as `crossbeam_channel::bounded` hands them out together: what is
/// sent on the one is what the other receives.
pub uninterp spec fn same_channel(
    tx: crossbeam_channel::Sender<()>,
    rx: crossbeam_channel::Receiver<()>,
) -> bool;

/// `crossbeam_channel::bounded`: a new channel that holds at most `capacity`
/// messages, which is what both of its ends report as their capacity. The
/// two ends returned are the ends of that one channel.
#[verifier::external_body]
fn bounded_unit_channel(capacity: usize) -> (ends: (
    crossbeam_channel::Sender<()>,
    crossbeam_channel::Receiver<()>,
))
    requires
        0 < capacity <= 1024,
    ensures
        sender_capacity(ends.0) == Some(capacity),
        receiver_capacity(ends.1) == Some(capacity),
        same_channel(ends.0, ends.1),
{
    crossbeam_channel::bounded::<()>(capacity)
}

/// `crossbeam_channel::Sender::capacity`: the bound of the channel, which
/// depends on the channel alone.
#[verifier::external_body]
fn capacity_of_sender(tx: &crossbeam_channel::Sender<()>) -> (bound: Option<usize>)
    ensures
        bound == sender_capacity(*tx),
{
    tx.capacity()
}

/// `crossbeam_channel::Receiver::capacity`: the bound of the channel, which
/// depends on the channel alone.
#[verifier::external_body]
fn capacity_of_receiver(rx: &crossbeam_channel::Receiver<()>) -> (bound: Option<usize>)
    ensures
        bound == receiver_capacity(*rx),
{
    rx.capacity()
}

/// `crossbeam_channel::Sender::try_send`: puts a message into the channel if
/// there is room and a receiver is left, and returns at once either way. The
/// answer is whether the message was taken; it depends on what the other
/// threads have done.
#[verifier::external_body]
fn try_send_unit(tx: &crossbeam_channel::Sender<()>) -> (accepted: bool) {
    tx.try_send(()).is_ok()
}

/// `crossbeam_channel::Receiver::try_recv`: takes a waiting message if there
/// is one, and returns at once either way. The answer depends on what the
/// other threads have done.
#[verifier::external_body]
fn try_recv_unit(rx: &crossbeam_channel::Receiver<()>) -> (found: Poll) {
    match rx.try_recv() {
        Ok(()) => Poll::Signalled,
        Err(crossbeam_channel::TryRecvError::Empty) => Poll::Idle,
        Err(crossbeam_channel::TryRecvError::Disconnected) => Poll::Disconnected,
    }
}

/// Makes a fresh stop signal and returns its two ends: a request raised on
/// the first is what the second finds. The signal holds one request at most.
pub fn stop_signal() -> (ends: (StopSender, StopReceiver))
    ensures
        ends.0.signals(ends.1),
        ends.0.limit() == Some(STOP_CAPACITY),
        ends.1.limit() == Some(STOP_CAPACITY),
{
    let (tx, rx) = bounded_unit_channel(STOP_CAPACITY);
    (StopSender { tx }, StopReceiver { rx })
}

impl StopSender {
    /// Whether `receiver` is the other end of the signal of this end.
    pub closed spec fn signals(&self, receiver: StopReceiver) -> bool {
        same_channel(self.tx, receiver.rx)
    }

    /// How many requests the signal of this end holds at most.
    pub closed spec fn limit(&self) -> Option<usize> {
        sender_capacity(self.tx)
    }

    /// How many requests the signal holds at most.
    pub fn capacity(&self) -> (bound: Option<usize>)
        ensures
            bound == self.limit(),
    {
        capacity_of_sender(&self.tx)
    }

    /// Requests a stop. Never waits: when a request is already pending, or
    /// no receiver is left, nothing happens and the answer is `false`.
    pub fn request_stop(&self) -> (accepted: bool) {
        try_send_unit(&self.tx)
    }
}

impl StopReceiver {
    /// How many requests the signal of this end holds at most.
    pub closed spec fn limit(&self) -> Option<usize> {
        receiver_capacity(self.rx)
    }

    /// How many requests the signal holds at most.
    pub fn capacity(&self) -> (bound: Option<usize>)
        ensures
            bound == self.limit(),
    {
        capacity_of_receiver(&self.rx)
    }

    /// Looks for a pending request without waiting, and takes it if there
    /// is one.
    pub fn poll(&self) -> (found: Poll) {
        try_recv_unit(&self.rx)
    }
}

} // verus!
