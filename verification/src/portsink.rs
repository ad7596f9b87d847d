//! Sending through a port reference, one message after the other.

use vstd::prelude::*;
use crate::attrs::Attrs;
use crate::data::{RemoteMessage, Serialized, SerializedView};
use crate::envelope::{EnvelopeView, ReturnHandle};
use crate::error::{MailboxSenderError, MailboxSenderErrorKind, PortLocationView};
use crate::mailbox::{bounce, sent, Mailbox, MailboxView};
use crate::portref::PortRef;
use crate::sender::MailboxSender;

verus! {

/// What a mailbox sends for a typed message to a port: the serialized
/// message, without headers.
pub open spec fn typed_outgoing<M: RemoteMessage>(
    mailbox: MailboxView,
    port: crate::reference::PortKey,
    bytes: Seq<u8>,
) -> EnvelopeView {
    mailbox.outgoing(
        port,
        Seq::empty(),
        SerializedView { typename: Some(M::typename_spec()), bytes },
    )
}

impl<M: RemoteMessage> PortRef<M> {
    /// Sends a message to the port from the actor of the mailbox `caps`:
    /// see [`Mailbox::send`]. The error says why the message could not be
    /// serialized; nothing is sent then.
    pub fn send<F: MailboxSender>(
        &self,
        caps: &mut Mailbox<F>,
        message: M,
        monitored: &mut ReturnHandle,
    ) -> (r: Result<bool, MailboxSenderError>)
        requires
            old(caps).wf(),
            message.encoding() matches Some(bytes) ==> !old(caps).refuses(
                typed_outgoing::<M>(old(caps)@, self.id(), bytes),
            ),
        ensures
            final(caps).wf(),
            send_post(
                *self,
                *old(caps),
                message,
                old(monitored)@,
                *final(caps),
                final(monitored)@,
                r,
            ),
    {
        match Serialized::serialize(&message) {
            Ok(data) => Ok(caps.send(self.port_id().clone(), Attrs::new(), data, monitored)),
            Err(reason) => Err(
                MailboxSenderError::new_bound(
                    self.port_id().clone(),
                    MailboxSenderErrorKind::Serialize(reason),
                ),
            ),
        }
    }
}

/// See [`PortRef::send`].
pub open spec fn send_post<F: MailboxSender, M: RemoteMessage>(
    port: PortRef<M>,
    before: Mailbox<F>,
    message: M,
    monitored_before: Seq<EnvelopeView>,
    after: Mailbox<F>,
    monitored_after: Seq<EnvelopeView>,
    r: Result<bool, MailboxSenderError>,
) -> bool {
    match message.encoding() {
        Some(bytes) => {
            let envelope = typed_outgoing::<M>(before@, port.id(), bytes);
            r matches Ok(warn) && sent(
                before@,
                envelope,
                bounce(before.forwarder_spec(), before@.posted(envelope).1),
                monitored_before,
                after@,
                monitored_after,
                warn,
            )
        },
        None => {
            &&& after == before
            &&& monitored_after == monitored_before
            &&& r matches Err(e) && e@.location == PortLocationView::Bound(port.id()) && e@.kind
                is Serialize
        },
    }
}

/// A port reference to send through, one message after the other.
#[derive(Debug)]
pub struct PortSink<M> {
    port: PortRef<M>,
}

impl<M: RemoteMessage> PortSink<M> {
    /// The port that the sink sends to.
    pub closed spec fn port(&self) -> PortRef<M> {
        self.port
    }

    /// A sink that sends to the port.
    pub fn new(port: PortRef<M>) -> (r: Self)
        ensures
            r.port() == port,
    {
        Self { port }
    }

    /// Whether the sink takes a message: it always does.
    pub fn poll_ready(&self) -> (r: bool)
        ensures
            r,
    {
        true
    }

    /// Sends a message to the port: see [`PortRef::send`].
    pub fn start_send<F: MailboxSender>(
        &mut self,
        caps: &mut Mailbox<F>,
        item: M,
        monitored: &mut ReturnHandle,
    ) -> (r: Result<bool, MailboxSenderError>)
        requires
            old(caps).wf(),
            item.encoding() matches Some(bytes) ==> !old(caps).refuses(
                typed_outgoing::<M>(old(caps)@, old(self).port().id(), bytes),
            ),
        ensures
            final(caps).wf(),
            final(self).port() == old(self).port(),
            send_post(
                old(self).port(),
                *old(caps),
                item,
                old(monitored)@,
                *final(caps),
                final(monitored)@,
                r,
            ),
    {
        self.port.send(caps, item, monitored)
    }
}

} // verus!
