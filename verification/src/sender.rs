//! The contract of everything that messages can be posted to, and the
//! senders that need no state.

use vstd::prelude::*;
use crate::client::AddrView;
use crate::data::{RemoteMessage, Serialized, SerializedView};
use crate::port::Held;
use crate::envelope::{
    unknown_sender, DeliveryError, DeliveryErrorView, EnvelopeView, MessageEnvelope, ReturnHandle,
};
use crate::error::{MailboxSenderError, MailboxSenderErrorKind, PortLocationView};
use crate::mailbox::MailboxView;
use crate::portref::{OncePortRef, PortRef};

verus! {

/// The envelopes that a return handle holds once `returned`, if any, came back.
pub open spec fn after_return(before: Seq<EnvelopeView>, returned: Option<EnvelopeView>) -> Seq<
    EnvelopeView,
> {
    match returned {
        Some(envelope) => before.push(envelope),
        None => before,
    }
}

/// What a sender stands for, as far as posting changes it.
pub enum SenderState {
    /// A sender that no post changes.
    Stateless,
    /// A sender that counts the posts to the sender that it holds.
    Counted { posts: u64, inner: Box<SenderState> },
    /// A mailbox with its forwarder.
    Mailbox { mailbox: MailboxView, forwarder: Box<SenderState> },
    /// A mailbox client: the envelopes that wait for transmission, whether
    /// it still takes envelopes, and its counts of posts and transmissions.
    Client { outbox: Seq<EnvelopeView>, open: bool, sent: usize, done: usize },
    /// A table of senders, in the order of the table.
    Table(Seq<SenderState>),
    /// A router that may be gone.
    Weak(Option<Box<SenderState>>),
    /// A dial router: the cached addresses with their clients, the default
    /// sender, and the addresses that wait to be dialed.
    Dial {
        cache: Seq<AddrView>,
        clients: Seq<SenderState>,
        default: Box<SenderState>,
        requests: Seq<AddrView>,
    },
}

/// A sender: messages are posted to it, and whatever it cannot deliver it
/// hands to the return handle. Posting fails in no other way.
pub trait MailboxSender {
    /// Whether the sender is in a consistent state.
    spec fn wf(&self) -> bool;

    /// What the sender stands for.
    spec fn state(&self) -> SenderState;

    /// What the sender stands for once the envelope was posted to it.
    spec fn after(&self, envelope: EnvelopeView) -> SenderState;

    /// Whether posting the envelope is an error of the program.
    spec fn refuses(&self, envelope: EnvelopeView) -> bool;

    /// The envelope that comes back when the given one is posted, if one does.
    spec fn bounced(&self, envelope: EnvelopeView) -> Option<EnvelopeView>;

    /// Posts the envelope. At most one envelope comes back through the
    /// return handle, and what comes back carries a delivery error.
    fn post(&mut self, envelope: MessageEnvelope, return_handle: &mut ReturnHandle)
        requires
            old(self).wf(),
            !old(self).refuses(envelope@),
        ensures
            final(self).wf(),
            final(self).state() == old(self).after(envelope@),
            final(return_handle)@ == after_return(
                old(return_handle)@,
                old(self).bounced(envelope@),
            ),
            old(self).bounced(envelope@) matches Some(returned) ==> returned.error is Some,
    ;
}

/// What a typed send posts: the serialized message for the port, from an
/// unknown sender and without headers.
pub open spec fn posted_for(port: crate::reference::PortKey, data: SerializedView) -> EnvelopeView {
    EnvelopeView {
        sender: unknown_sender(),
        dest: port,
        data,
        error: None,
        headers: Seq::empty(),
    }
}

/// Typed sending through any sender.
pub trait PortSender: MailboxSender + Sized {
    /// Serializes `message` and posts it to the port. The error says why the
    /// message could not be serialized; nothing is posted then.
    fn serialize_and_send<M: RemoteMessage>(
        &mut self,
        port: &PortRef<M>,
        message: M,
        return_handle: &mut ReturnHandle,
    ) -> (r: Result<(), MailboxSenderError>)
        requires
            old(self).wf(),
            message.encoding() matches Some(bytes) ==> !old(self).refuses(
                posted_for(port.id(), SerializedView { typename: Some(M::typename_spec()), bytes }),
            ),
        ensures
            final(self).wf(),
            match r {
                Ok(()) => message.encoding() matches Some(bytes) && final(return_handle)@
                    == after_return(
                    old(return_handle)@,
                    old(self).bounced(
                        posted_for(
                            port.id(),
                            SerializedView { typename: Some(M::typename_spec()), bytes },
                        ),
                    ),
                ) && final(self).state() == old(self).after(
                    posted_for(
                        port.id(),
                        SerializedView { typename: Some(M::typename_spec()), bytes },
                    ),
                ),
                Err(e) => message.encoding() is None && final(return_handle)@ == old(return_handle)@
                    && *final(self) == *old(self) && e@.location == PortLocationView::Bound(
                    port.id(),
                ) && e@.kind is Serialize,
            },
    {
        match Serialized::serialize(&message) {
            Ok(serialized) => {
                self.post(
                    MessageEnvelope::new_unknown(port.port_id().clone(), serialized),
                    return_handle,
                );
                Ok(())
            },
            Err(reason) => Err(
                MailboxSenderError::new_bound(
                    port.port_id().clone(),
                    MailboxSenderErrorKind::Serialize(reason),
                ),
            ),
        }
    }

    /// Serializes `message` and posts it to the one-shot port, which is used
    /// up. The error says why the message could not be serialized; nothing is
    /// posted then.
    fn serialize_and_send_once<M: RemoteMessage>(
        &mut self,
        once_port: OncePortRef<M>,
        message: M,
        return_handle: &mut ReturnHandle,
    ) -> (r: Result<(), MailboxSenderError>)
        requires
            old(self).wf(),
            message.encoding() matches Some(bytes) ==> !old(self).refuses(
                posted_for(
                    once_port.id(),
                    SerializedView { typename: Some(M::typename_spec()), bytes },
                ),
            ),
        ensures
            final(self).wf(),
            match r {
                Ok(()) => message.encoding() matches Some(bytes) && final(return_handle)@
                    == after_return(
                    old(return_handle)@,
                    old(self).bounced(
                        posted_for(
                            once_port.id(),
                            SerializedView { typename: Some(M::typename_spec()), bytes },
                        ),
                    ),
                ) && final(self).state() == old(self).after(
                    posted_for(
                        once_port.id(),
                        SerializedView { typename: Some(M::typename_spec()), bytes },
                    ),
                ),
                Err(e) => message.encoding() is None && final(return_handle)@ == old(return_handle)@
                    && *final(self) == *old(self) && e@.location == PortLocationView::Bound(
                    once_port.id(),
                ) && e@.kind is Serialize,
            },
    {
        match Serialized::serialize(&message) {
            Ok(serialized) => {
                self.post(
                    MessageEnvelope::new_unknown(once_port.port_id().clone(), serialized),
                    return_handle,
                );
                Ok(())
            },
            Err(reason) => Err(
                MailboxSenderError::new_bound(
                    once_port.port_id().clone(),
                    MailboxSenderErrorKind::Serialize(reason),
                ),
            ),
        }
    }
}

impl<T: MailboxSender> PortSender for T {

}

/// The sender of a detached mailbox: nothing may be posted to it.
#[derive(Clone, Copy, Debug)]
pub struct PanickingMailboxSender;

impl MailboxSender for PanickingMailboxSender {
    open spec fn wf(&self) -> bool {
        true
    }

    open spec fn state(&self) -> SenderState {
        SenderState::Stateless
    }

    open spec fn after(&self, envelope: EnvelopeView) -> SenderState {
        SenderState::Stateless
    }

    open spec fn refuses(&self, envelope: EnvelopeView) -> bool {
        true
    }

    open spec fn bounced(&self, envelope: EnvelopeView) -> Option<EnvelopeView> {
        None
    }

    fn post(&mut self, envelope: MessageEnvelope, return_handle: &mut ReturnHandle) {
    }

}

/// A sender that takes every message and delivers none: the end of the
/// line for messages that already came back once.
#[derive(Clone, Copy, Debug)]
pub struct UndeliverableMailboxSender;

impl MailboxSender for UndeliverableMailboxSender {
    open spec fn wf(&self) -> bool {
        true
    }

    open spec fn state(&self) -> SenderState {
        SenderState::Stateless
    }

    open spec fn after(&self, envelope: EnvelopeView) -> SenderState {
        SenderState::Stateless
    }

    open spec fn refuses(&self, envelope: EnvelopeView) -> bool {
        false
    }

    open spec fn bounced(&self, envelope: EnvelopeView) -> Option<EnvelopeView> {
        None
    }

    fn post(&mut self, envelope: MessageEnvelope, return_handle: &mut ReturnHandle) {
    }

}

/// The error of the sender that knows no route.
pub open spec fn no_route() -> DeliveryErrorView {
    DeliveryErrorView::Unroutable("destination not found in routing table"@)
}

/// A sender that returns every envelope as unroutable.
#[derive(Clone, Copy, Debug)]
pub struct UnroutableMailboxSender;

impl MailboxSender for UnroutableMailboxSender {
    open spec fn wf(&self) -> bool {
        true
    }

    open spec fn state(&self) -> SenderState {
        SenderState::Stateless
    }

    open spec fn after(&self, envelope: EnvelopeView) -> SenderState {
        SenderState::Stateless
    }

    open spec fn refuses(&self, envelope: EnvelopeView) -> bool {
        false
    }

    open spec fn bounced(&self, envelope: EnvelopeView) -> Option<EnvelopeView> {
        Some(envelope.stamped(no_route()))
    }

    fn post(&mut self, envelope: MessageEnvelope, return_handle: &mut ReturnHandle) {
        envelope.undeliverable(
            DeliveryError::unroutable("destination not found in routing table"),
            return_handle,
        );
    }

}

/// Senders that can be boxed.
pub trait IntoBoxedMailboxSender: MailboxSender + Sized + 'static {
    /// Puts this sender into a box: the boxed sender holds this sender,
    /// and has counted no post yet.
    fn into_boxed(self) -> (r: BoxedMailboxSender<Self>)
        ensures
            r.posted() == 0,
            *r.sender() == self,
    {
        BoxedMailboxSender::new(self)
    }
}

impl<T: MailboxSender + 'static> IntoBoxedMailboxSender for T {

}

/// Senders of which a copy can be boxed.
pub trait BoxableMailboxSender: MailboxSender + Clone + 'static {
    /// A boxed copy of this sender: the boxed sender holds a clone of this
    /// sender, and has counted no post yet.
    fn boxed(&self) -> (r: BoxedMailboxSender<Self>)
        ensures
            r.posted() == 0,
            cloned(*self, *r.sender()),
    {
        BoxedMailboxSender::new(self.clone())
    }
}

impl<T: MailboxSender + Clone + 'static> BoxableMailboxSender for T {

}

/// A sender in a box, with a count of the messages posted through it. It
/// does with every envelope what the sender in the box does. Without a
/// type argument the box holds a sender of any kind, so that senders of
/// different kinds can stand side by side.
pub struct BoxedMailboxSender<S: ?Sized = dyn MailboxSender> {
    posts: u64,
    inner: Held<Box<S>>,
}

impl<S: ?Sized> BoxedMailboxSender<S> {
    /// The number of messages posted through this sender, as far as a
    /// `u64` counts.
    pub closed spec fn posted(&self) -> u64 {
        self.posts
    }

    /// The sender in the box.
    pub closed spec fn sender(&self) -> &S {
        &*self.inner.held()
    }

    /// The number of messages posted through this sender, as far as a
    /// `u64` counts.
    pub fn posts(&self) -> (r: u64)
        ensures
            r == self.posted(),
    {
        self.posts
    }

    /// The sender in the given box, of one kind or of whichever kind, as a
    /// boxed sender that has counted no post yet.
    pub fn from_box(sender: Box<S>) -> (r: Self)
        ensures
            r.posted() == 0,
            r.sender() == &*sender,
    {
        let held = Held::new(sender);
        BoxedMailboxSender { posts: 0, inner: held }
    }
}

impl<S: MailboxSender + 'static> BoxedMailboxSender<S> {
    /// Boxes a sender: the boxed sender holds the given sender, and has
    /// counted no post yet.
    pub fn new(sender: S) -> (r: Self)
        ensures
            r.posted() == 0,
            *r.sender() == sender,
    {
        Self::from_box(Box::new(sender))
    }
}

/// The count after one more post, as far as a `u64` counts.
pub open spec fn counted(posts: u64) -> u64 {
    if posts < u64::MAX {
        (posts + 1) as u64
    } else {
        u64::MAX
    }
}

/// The box of a sender of one kind.
impl<S: MailboxSender> MailboxSender for BoxedMailboxSender<S> {
    open spec fn wf(&self) -> bool {
        self.sender().wf()
    }

    open spec fn state(&self) -> SenderState {
        SenderState::Counted { posts: self.posted(), inner: Box::new(self.sender().state()) }
    }

    open spec fn after(&self, envelope: EnvelopeView) -> SenderState {
        SenderState::Counted {
            posts: counted(self.posted()),
            inner: Box::new(self.sender().after(envelope)),
        }
    }

    open spec fn refuses(&self, envelope: EnvelopeView) -> bool {
        self.sender().refuses(envelope)
    }

    open spec fn bounced(&self, envelope: EnvelopeView) -> Option<EnvelopeView> {
        self.sender().bounced(envelope)
    }

    /// Counts the post, and posts the envelope to the sender in the box.
    fn post(&mut self, envelope: MessageEnvelope, return_handle: &mut ReturnHandle)
        ensures
            final(self).posted() == counted(old(self).posted()),
    {
        if self.posts < u64::MAX {
            self.posts = self.posts + 1;
        }
        self.inner.get_mut().post(envelope, return_handle);
    }
}

/// The box of a sender of whichever kind: it has no size of its own, so the
/// impl above does not reach it.
impl MailboxSender for BoxedMailboxSender<dyn MailboxSender> {
    open spec fn wf(&self) -> bool {
        self.sender().wf()
    }

    open spec fn state(&self) -> SenderState {
        SenderState::Counted { posts: self.posted(), inner: Box::new(self.sender().state()) }
    }

    open spec fn after(&self, envelope: EnvelopeView) -> SenderState {
        SenderState::Counted {
            posts: counted(self.posted()),
            inner: Box::new(self.sender().after(envelope)),
        }
    }

    open spec fn refuses(&self, envelope: EnvelopeView) -> bool {
        self.sender().refuses(envelope)
    }

    open spec fn bounced(&self, envelope: EnvelopeView) -> Option<EnvelopeView> {
        self.sender().bounced(envelope)
    }

    /// Counts the post, and posts the envelope to the sender in the box.
    fn post(&mut self, envelope: MessageEnvelope, return_handle: &mut ReturnHandle)
        ensures
            final(self).posted() == counted(old(self).posted()),
    {
        if self.posts < u64::MAX {
            self.posts = self.posts + 1;
        }
        self.inner.get_mut().post(envelope, return_handle);
    }
}

} // verus!
