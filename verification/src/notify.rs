//! The notification broadcaster: a publish point for pairs of a session
//! identifier and a message. Delivery is best effort: a pair reaches the
//! listeners subscribed at that moment and is dropped when there are none.

use vstd::prelude::*;

verus! {

/// `tokio::sync::broadcast::Sender`, the publishing side of a broadcast
/// channel. Nothing of what it holds is visible to the proofs.
#[verifier::external_type_specification]
#[verifier::external_body]
#[verifier::reject_recursive_types(T)]
pub struct ExBroadcastSender<T>(tokio::sync::broadcast::Sender<T>);

/// `tokio::sync::broadcast::Receiver`, one listener of a broadcast channel.
/// Nothing of what it holds is visible to the proofs.
#[verifier::external_type_specification]
#[verifier::external_body]
#[verifier::reject_recursive_types(T)]
pub struct ExBroadcastReceiver<T>(tokio::sync::broadcast::Receiver<T>);

/// How many pairs the broadcaster keeps, at the least, for listeners that
/// lag behind.
pub const HISTORY_CAPACITY: usize = 100;

/// The publish point.
pub struct Broadcaster {
    tx: tokio::sync::broadcast::Sender<(String, String)>,
}

/// What became of a published pair.
#[derive(Clone, Copy, Debug, PartialEq, Eq, Structural)]
pub enum Delivery {
    /// The pair was queued for this many subscribed listeners.
    Delivered { listeners: usize },
    /// Nobody was subscribed; the pair is gone.
    Dropped,
}

/// The number of values that a broadcast channel was made to keep for its
/// listeners. It is fixed when the channel is made; the channel keeps at
/// least that many.
pub uninterp spec fn history_limit(tx: tokio::sync::broadcast::Sender<(String, String)>) -> usize;

/// `tokio::sync::broadcast::channel`: a new broadcast channel made to keep
/// `capacity` values. The receiver that comes with it is let go, so the
/// channel starts without listeners.
#[verifier::external_body]
fn open_channel(capacity: usize) -> (tx: tokio::sync::broadcast::Sender<(String, String)>)
    requires
        0 < capacity <= 65536,
    ensures
        history_limit(tx) == capacity,
{
    tokio::sync::broadcast::channel::<(String, String)>(capacity).0
}

/// `tokio::sync::broadcast::Sender::send`: hands a value to the receivers
/// that are subscribed now. It returns their number, which is at least one,
/// or fails when there is none; which of the two depends on the other
/// execution contexts.
#[verifier::external_body]
fn send_pair(
    tx: &tokio::sync::broadcast::Sender<(String, String)>,
    session_id: String,
    message: String,
) -> (listeners: Option<usize>)
    ensures
        listeners matches Some(n) ==> n >= 1,
{
    match tx.send((session_id, message)) {
        Ok(n) => Some(n),
        Err(_) => None,
    }
}

/// `tokio::sync::broadcast::Sender::subscribe`: a new receiver for the
/// values sent from now on. It panics only when the channel already has the
/// largest number of receivers it can count, which is more than memory can
/// hold.
#[verifier::external_body]
fn subscribe_to(tx: &tokio::sync::broadcast::Sender<(String, String)>) -> (rx:
    tokio::sync::broadcast::Receiver<(String, String)>) {
    tx.subscribe()
}

/// What a send that reached `listeners` receivers, or none, amounts to.
pub fn delivery_of(listeners: Option<usize>) -> (delivery: Delivery)
    ensures
        delivery == match listeners {
            Some(n) => Delivery::Delivered { listeners: n },
            None => Delivery::Dropped,
        },
{
    match listeners {
        Some(n) => Delivery::Delivered { listeners: n },
        None => Delivery::Dropped,
    }
}

/// Makes the broadcaster, with room for [`HISTORY_CAPACITY`] pairs and no
/// listener yet.
pub fn init_broadcaster() -> (broadcaster: Broadcaster)
    ensures
        broadcaster.history() == HISTORY_CAPACITY,
{
    Broadcaster { tx: open_channel(HISTORY_CAPACITY) }
}

impl Broadcaster {
    /// How many pairs the broadcaster was made to keep for its listeners.
    pub closed spec fn history(&self) -> usize {
        history_limit(self.tx)
    }

    /// Adds a listener, which sees the pairs published from now on.
    pub fn subscribe(&self) -> (rx: tokio::sync::broadcast::Receiver<(String, String)>) {
        subscribe_to(&self.tx)
    }
}

/// The pair that is published for a session: the session identifier first,
/// the message second, each text as it was given.
pub fn session_pair(session_id: &str, message: &str) -> (pair: (String, String))
    ensures
        pair.0@ == session_id@,
        pair.1@ == message@,
{
    (session_id.to_owned(), message.to_owned())
}

/// Publishes `message` for the session `session_id`. What is handed to the
/// channel is [`session_pair`] of the two. The pair is queued for the
/// listeners subscribed at this moment; with none it is dropped. A delivery
/// always counts at least one listener.
pub fn notify_session(broadcaster: &Broadcaster, session_id: &str, message: &str) -> (delivery:
    Delivery)
    ensures
        delivery matches Delivery::Delivered { listeners } ==> listeners >= 1,
{
    let pair = session_pair(session_id, message);
    delivery_of(send_pair(&broadcaster.tx, pair.0, pair.1))
}

} // verus!
