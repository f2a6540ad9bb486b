//! The two channel kinds of the bus, both from outside crates: the one-shot
//! channel that carries a command's result back to its caller
//! (`futures::channel::oneshot`), and the unbounded FIFO channel of command
//! ids that feeds one worker (`crossbeam_channel`).
use vstd::prelude::*;
use crate::commands::DockCommandResult;

verus! {

#[verifier::external_type_specification]
#[verifier::external_body]
#[verifier::reject_recursive_types(T)]
pub struct ExOneshotReceiver<T>(futures::channel::oneshot::Receiver<T>);

/// Declared because the receiver's `Future` impl names it.
#[verifier::external_type_specification]
#[verifier::external_body]
pub struct ExCanceled(futures::channel::oneshot::Canceled);

/// The sending half of a command's one-shot result channel, kept after the
/// send so that what was sent on it can be stated.
#[verifier::external_body]
#[derive(Debug)]
pub struct ResultSender {
    s: Option<futures::channel::oneshot::Sender<DockCommandResult>>,
}

/// The result sent on a result channel, if one was.
pub uninterp spec fn sent_result(s: ResultSender) -> Option<DockCommandResult>;

impl ResultSender {
    /// Relies on `futures::channel::oneshot::channel`: a new channel, on
    /// which nothing was sent yet; the receiving half goes to the caller.
    #[verifier::external_body]
    pub(crate) fn new() -> (r: (ResultSender, futures::channel::oneshot::Receiver<DockCommandResult>))
        ensures
            sent_result(r.0) is None,
    {
        let (s, r) = futures::channel::oneshot::channel();
        (ResultSender { s: Some(s) }, r)
    }

    /// Relies on `futures::channel::oneshot::Sender::send`: the value is
    /// placed in the channel for the receiver to take (a send to a dropped
    /// receiver hands the value back, which is ignored: the caller gave up).
    #[verifier::external_body]
    pub(crate) fn send(&mut self, r: DockCommandResult)
        requires
            sent_result(*old(self)) is None,
        ensures
            sent_result(*final(self)) == Some(r),
    {
        if let Some(s) = self.s.take() {
            let _ = s.send(r);
        }
    }
}

/// A FIFO queue of command ids: both halves of one unbounded
/// `crossbeam_channel` channel, held together so that every id pushed here is
/// the one popped here. The halves are hidden so that no other code can pair
/// a sender with a foreign receiver.
#[verifier::external_body]
#[derive(Debug)]
pub struct IdQueue {
    tx: crossbeam_channel::Sender<u32>,
    rx: crossbeam_channel::Receiver<u32>,
}

/// The ids that a queue holds, oldest first.
pub uninterp spec fn queued_ids(q: IdQueue) -> Seq<u32>;

impl IdQueue {
    /// Relies on `crossbeam_channel::unbounded`: a new channel holds no
    /// message.
    #[verifier::external_body]
    pub(crate) fn new() -> (q: IdQueue)
        ensures
            queued_ids(q) == Seq::<u32>::empty(),
    {
        let (tx, rx) = crossbeam_channel::unbounded();
        IdQueue { tx, rx }
    }

    /// Relies on `crossbeam_channel::Sender::send`: on an unbounded channel
    /// whose receiver is alive (it is held here) the message is appended and
    /// the call does not block or fail.
    #[verifier::external_body]
    pub(crate) fn push(&mut self, id: u32)
        ensures
            queued_ids(*final(self)) == queued_ids(*old(self)).push(id),
    {
        let _ = self.tx.send(id);
    }

    /// Relies on `crossbeam_channel::Receiver::try_recv`: without blocking, it
    /// returns the oldest message, or `Empty` when there is none (a sender is
    /// alive: it is held here, so the channel is never disconnected).
    #[verifier::external_body]
    pub(crate) fn try_pop(&mut self) -> (r: Option<u32>)
        ensures
            queued_ids(*old(self)).len() == 0 ==> r is None && queued_ids(*final(self))
                == queued_ids(*old(self)),
            queued_ids(*old(self)).len() > 0 ==> r == Some(queued_ids(*old(self))[0])
                && queued_ids(*final(self)) == queued_ids(*old(self)).drop_first(),
    {
        self.rx.try_recv().ok()
    }
}

} // verus!
