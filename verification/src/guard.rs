//! The one-shot shutdown handshake between a caller and the exporter loop.
//!
//! A caller holds a guard with a single sending slot for the shutdown
//! request; the exporter loop, once it has drained and flushed, consumes
//! the signal embedded in the request to acknowledge completion. Every
//! race — requesting twice, an exporter that is already gone, a guard that
//! no longer waits for the acknowledgment — is a benign no-op, never an
//! error.

use vstd::prelude::*;

verus! {

#[verifier::external_type_specification]
#[verifier::external_body]
#[verifier::reject_recursive_types(T)]
pub struct ExOneshotSender<T>(tokio::sync::oneshot::Sender<T>);

#[verifier::external_type_specification]
#[verifier::external_body]
#[verifier::reject_recursive_types(T)]
pub struct ExOneshotReceiver<T>(tokio::sync::oneshot::Receiver<T>);

#[verifier::external_type_specification]
#[verifier::external_body]
pub struct ExOneshotRecvError(tokio::sync::oneshot::error::RecvError);

/// Relies on `tokio::sync::oneshot::channel`: returns a fresh connected
/// sender/receiver pair. What the receiver will observe depends on what is
/// later sent, so nothing further is promised.
pub assume_specification<T>[ tokio::sync::oneshot::channel::<T> ]() -> (r: (
    tokio::sync::oneshot::Sender<T>,
    tokio::sync::oneshot::Receiver<T>,
));

/// Relies on `tokio::sync::oneshot::Sender::send`: consumes the sender (a
/// second send is impossible by type), completes immediately without
/// blocking or panicking, and either delivers the value or — when the
/// receiver is already gone — hands it back unchanged inside the error.
/// Whether the receiver is still alive depends on the peer, so nothing is
/// promised about which variant comes back.
pub assume_specification<T>[ tokio::sync::oneshot::Sender::<T>::send ](
    sender: tokio::sync::oneshot::Sender<T>,
    t: T,
) -> (r: Result<(), T>)
    ensures
        r matches Err(v) ==> v == t,
;

/// The acknowledgment capability embedded in a shutdown request.
///
/// The exporter loop consumes it exactly once, only after its final flush
/// has completed, so the waiting guard gets a true "fully drained" signal.
pub struct ShutdownSignal {
    ack_tx: tokio::sync::oneshot::Sender<()>,
}

impl ShutdownSignal {
    /// A fresh signal, and the receiver on which its acknowledgment will
    /// arrive.
    pub fn new() -> (ShutdownSignal, tokio::sync::oneshot::Receiver<()>) {
        let (ack_tx, ack_rx) = tokio::sync::oneshot::channel();
        (ShutdownSignal { ack_tx }, ack_rx)
    }

    /// Acknowledge: report that draining and the final flush are done.
    /// Consumes the signal, so a second acknowledgment is impossible; if
    /// nobody is waiting any more, the send is a benign no-op.
    pub fn ack(self) {
        let ShutdownSignal { ack_tx } = self;
        let _ = ack_tx.send(());
    }
}

/// Caller-facing half of the shutdown handshake.
///
/// Holds the single sending slot for the shutdown request. The slot is
/// consumed on first use: requesting shutdown a second time, or discarding
/// the guard after an explicit shutdown already completed, can neither
/// panic, block, nor acknowledge twice.
pub struct CloudWatchWorkerGuard {
    shutdown_tx: Option<tokio::sync::oneshot::Sender<ShutdownSignal>>,
}

impl CloudWatchWorkerGuard {
    /// Whether the guard still holds its single-use shutdown slot.
    pub closed spec fn armed(self) -> bool {
        self.shutdown_tx is Some
    }

    /// A guard over the sending half of the channel on which the exporter
    /// loop waits for its shutdown request.
    pub fn new(shutdown_tx: tokio::sync::oneshot::Sender<ShutdownSignal>) -> (r: Self)
        ensures
            r.armed(),
    {
        CloudWatchWorkerGuard { shutdown_tx: Some(shutdown_tx) }
    }

    /// Whether shutdown has not been requested through this guard yet.
    pub fn is_armed(&self) -> (r: bool)
        ensures
            r == self.armed(),
    {
        self.shutdown_tx.is_some()
    }

    /// Take the single-use sending slot out of the guard: the first call
    /// returns it, every later call returns nothing.
    fn take_shutdown_tx(&mut self) -> (r: Option<tokio::sync::oneshot::Sender<ShutdownSignal>>)
        ensures
            !final(self).armed(),
            r is Some <==> old(self).armed(),
    {
        self.shutdown_tx.take()
    }

    /// Request a graceful shutdown.
    ///
    /// The first call sends the shutdown request and returns the receiver
    /// on which the acknowledgment — sent by the exporter loop only after
    /// its final flush — will arrive; the caller may await it (explicit
    /// shutdown) or drop it (best-effort cleanup that must not block).
    /// When shutdown was already requested the guard is unchanged and
    /// nothing is sent: the call is a silent no-op. When the exporter is
    /// already gone the request is swallowed just as silently.
    pub fn request_shutdown(&mut self) -> (ack: Option<tokio::sync::oneshot::Receiver<()>>)
        ensures
            !final(self).armed(),
            !old(self).armed() ==> ack is None && *final(self) == *old(self),
            ack is Some ==> old(self).armed(),
    {
        let tx_opt = self.take_shutdown_tx();
        match tx_opt {
            None => None,
            Some(tx) => {
                let (signal, ack_rx) = ShutdownSignal::new();
                match tx.send(signal) {
                    Ok(()) => Some(ack_rx),
                    Err(_) => None,
                }
            },
        }
    }
}

} // verus!
