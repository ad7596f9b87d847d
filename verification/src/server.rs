//! The mailbox server: what serves a sender on the receiving end of a
//! channel does with each thing that happens.

use vstd::prelude::*;
use crate::envelope::{EnvelopeView, MessageEnvelope, ReturnHandle};
use crate::error::{ChannelError, ChannelErrorView, MailboxServerError, MailboxServerErrorView};
use crate::sender::{after_return, MailboxSender};

verus! {

/// The handle to a running mailbox server: through it the server is told
/// to stop.
#[derive(Debug)]
pub struct MailboxServerHandle {
    stopped: bool,
    detached: bool,
}

/// What happens to a mailbox server.
#[derive(Debug)]
pub enum ServeEvent {
    /// The channel handed over an envelope, or failed.
    Received(Result<MessageEnvelope, ChannelError>),
    /// The stop signal changed, or its sending side went away.
    StopChanged { gone: bool },
}

/// What a mailbox server does next.
#[derive(Debug)]
pub enum Served {
    /// Go on serving.
    Continue,
    /// End, with this result.
    Done(Result<(), MailboxServerError>),
}

impl MailboxServerHandle {
    /// Whether the server was told to stop.
    pub closed spec fn is_stopped(&self) -> bool {
        self.stopped
    }

    /// Whether the server no longer listens for the stop signal.
    pub closed spec fn is_detached(&self) -> bool {
        self.detached
    }

    /// The handle to a server that starts to serve.
    pub fn new() -> (r: Self)
        ensures
            !r.is_stopped(),
            !r.is_detached(),
    {
        MailboxServerHandle { stopped: false, detached: false }
    }

    /// Tells the server to stop serving. To be called at most once.
    pub fn stop(&mut self, reason: &str)
        requires
            !old(self).is_stopped(),
        ensures
            final(self).is_stopped(),
            final(self).is_detached() == old(self).is_detached(),
    {
        self.stopped = true;
    }

    /// Whether the server was told to stop: it looks before it waits for
    /// the next thing to happen, and ends in good order if so.
    pub fn stopped(&self) -> (r: bool)
        ensures
            r == self.is_stopped(),
    {
        self.stopped
    }

    /// Notes whether the sending side of the stop signal is gone.
    fn set_detached(&mut self, gone: bool)
        ensures
            final(self).is_detached() == gone,
            final(self).is_stopped() == old(self).is_stopped(),
    {
        self.detached = gone;
    }

    /// Whether the server still listens for the stop signal.
    pub fn listening(&self) -> (r: bool)
        ensures
            r == !self.is_detached(),
    {
        !self.detached
    }
}

/// Serving a sender on the receiving end of a channel.
pub trait MailboxServer: MailboxSender + Sized {
    /// What serving does with an event: an envelope is posted to the
    /// sender; a closed channel ends the serving in good order, any other
    /// channel error ends it with that error; and once the sending side of
    /// the stop signal is gone the server no longer listens for it.
    fn serve(
        &mut self,
        handle: &mut MailboxServerHandle,
        event: ServeEvent,
        return_handle: &mut ReturnHandle,
    ) -> (r: Served)
        requires
            old(self).wf(),
            event matches ServeEvent::Received(Ok(envelope)) ==> !old(self).refuses(envelope@),
        ensures
            final(self).wf(),
            final(handle).is_stopped() == old(handle).is_stopped(),
            served(
                *old(self),
                *old(handle),
                event,
                old(return_handle)@,
                *final(self),
                *final(handle),
                final(return_handle)@,
                r,
            ),
    {
        match event {
            ServeEvent::Received(Ok(envelope)) => {
                self.post(envelope, return_handle);
                Served::Continue
            },
            ServeEvent::Received(Err(ChannelError::Closed)) => Served::Done(Ok(())),
            ServeEvent::Received(Err(e)) => Served::Done(Err(MailboxServerError::Channel(e))),
            ServeEvent::StopChanged { gone } => {
                handle.set_detached(gone);
                Served::Continue
            },
        }
    }
}

impl<T: MailboxSender> MailboxServer for T {

}

/// See [`MailboxServer::serve`].
pub open spec fn served<S: MailboxSender>(
    sender_before: S,
    handle_before: MailboxServerHandle,
    event: ServeEvent,
    returned_before: Seq<EnvelopeView>,
    sender_after: S,
    handle_after: MailboxServerHandle,
    returned_after: Seq<EnvelopeView>,
    r: Served,
) -> bool {
    match event {
        ServeEvent::Received(Ok(envelope)) => {
            &&& r is Continue
            &&& sender_after.state() == sender_before.after(envelope@)
            &&& returned_after == after_return(returned_before, sender_before.bounced(envelope@))
            &&& handle_after.is_detached() == handle_before.is_detached()
        },
        ServeEvent::Received(Err(e)) => {
            &&& sender_after == sender_before
            &&& returned_after == returned_before
            &&& handle_after.is_detached() == handle_before.is_detached()
            &&& r matches Served::Done(result) && match e@ {
                ChannelErrorView::Closed => result is Ok,
                other => result matches Err(error) && error@ == MailboxServerErrorView::Channel(
                    other,
                ),
            }
        },
        ServeEvent::StopChanged { gone } => {
            &&& r is Continue
            &&& sender_after == sender_before
            &&& returned_after == returned_before
            &&& handle_after.is_detached() == gone
        },
    }
}

} // verus!
