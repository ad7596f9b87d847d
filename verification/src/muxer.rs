//! The muxer: a sender that hands each envelope to the sender bound to the
//! actor that the envelope is for.

use vstd::prelude::*;
use vstd::string::StringExecFns;
use crate::envelope::{
    DeliveryError, DeliveryErrorView, EnvelopeView, MessageEnvelope, ReturnHandle,
};
use crate::mailbox::Mailbox;
use crate::reference::{ActorId, ActorKey};
use crate::sender::{MailboxSender, SenderState};

verus! {

/// One entry of a muxer: an actor and the sender bound to it.
pub struct MuxerEntry<S> {
    pub actor_id: ActorId,
    pub sender: S,
}

/// An in-memory muxer: it routes each envelope to the sender that is bound
/// to the actor of the envelope's destination. No actor is bound twice.
pub struct MailboxMuxer<S> {
    mailboxes: Vec<MuxerEntry<S>>,
}

/// The place of an actor in a list of actors, if it is in the list.
pub open spec fn place(actors: Seq<ActorKey>, actor: ActorKey) -> Option<int> {
    if exists|i: int| 0 <= i < actors.len() && actors[i] == actor {
        Some(choose|i: int| 0 <= i < actors.len() && actors[i] == actor)
    } else {
        None
    }
}

/// The list without the item at the given place, if a place is given.
pub open spec fn dropped<T>(items: Seq<T>, at: Option<int>) -> Seq<T> {
    match at {
        Some(i) => items.remove(i),
        None => items,
    }
}

/// Whether no actor occurs twice in the list.
pub open spec fn distinct(actors: Seq<ActorKey>) -> bool {
    forall|i: int, j: int| 0 <= i < j < actors.len() ==> actors[i] != actors[j]
}

/// The error of an envelope for an actor that is not bound in the muxer.
pub open spec fn no_mailbox(actor: ActorKey) -> DeliveryErrorView {
    DeliveryErrorView::Unroutable(
        "no mailbox for actor "@ + actor.shown() + " registered in muxer"@,
    )
}

impl<S> MailboxMuxer<S> {
    /// The actors that are bound, in the order in which they were bound.
    pub closed spec fn actors(&self) -> Seq<ActorKey> {
        Seq::new(self.mailboxes@.len(), |i: int| self.mailboxes@[i].actor_id@)
    }

    /// The senders that are bound, each at the place of its actor.
    pub closed spec fn senders(&self) -> Seq<S> {
        Seq::new(self.mailboxes@.len(), |i: int| self.mailboxes@[i].sender)
    }

    /// The sender bound to the actor, if one is.
    pub open spec fn sender_of(&self, actor: ActorKey) -> Option<S> {
        match place(self.actors(), actor) {
            Some(i) => Some(self.senders()[i]),
            None => None,
        }
    }

    /// The two lists go together.
    pub proof fn lemma_lengths(&self)
        ensures
            self.actors().len() == self.senders().len(),
    {
    }

    /// A new, empty muxer.
    pub fn new() -> (r: Self)
        ensures
            r.actors() == Seq::<ActorKey>::empty(),
            r.senders() == Seq::<S>::empty(),
    {
        let r = MailboxMuxer { mailboxes: Vec::new() };
        assert(r.actors() =~= Seq::empty());
        assert(r.senders() =~= Seq::empty());
        r
    }

    /// Where the actor is bound, if it is.
    fn find(&self, actor_id: &ActorId) -> (r: Option<usize>)
        ensures
            match r {
                Some(i) => i < self.actors().len() && self.actors()[i as int] == actor_id@,
                None => forall|i: int| 0 <= i < self.actors().len() ==> self.actors()[i]
                    != actor_id@,
            },
    {
        let mut i: usize = 0;
        while i < self.mailboxes.len()
            invariant
                i <= self.mailboxes@.len(),
                forall|j: int| 0 <= j < i ==> self.actors()[j] != actor_id@,
            decreases self.mailboxes@.len() - i,
        {
            if self.mailboxes[i].actor_id == *actor_id {
                return Some(i);
            }
            i += 1;
        }
        None
    }

    /// Routes the messages for the actor to the sender. Where a sender is
    /// bound to the actor already, that one stays, nothing changes, and
    /// the result is false: the caller unbinds it first.
    pub fn bind(&mut self, actor_id: ActorId, sender: S) -> (r: bool)
        requires
            distinct(old(self).actors()),
        ensures
            r == (place(old(self).actors(), actor_id@) is None),
            final(self).actors() == if r {
                old(self).actors().push(actor_id@)
            } else {
                old(self).actors()
            },
            final(self).senders() == if r {
                old(self).senders().push(sender)
            } else {
                old(self).senders()
            },
            distinct(final(self).actors()),
    {
        match self.find(&actor_id) {
            Some(_) => false,
            None => {
                self.mailboxes.push(MuxerEntry { actor_id, sender });
                assert(self.actors() =~= old(self).actors().push(actor_id@));
                assert(self.senders() =~= old(self).senders().push(sender));
                true
            },
        }
    }

    /// Unbinds the sender of the actor and hands it out, if one is bound:
    /// the muxer then has no route to the actor.
    pub fn unbind(&mut self, actor_id: &ActorId) -> (r: Option<S>)
        requires
            distinct(old(self).actors()),
        ensures
            distinct(final(self).actors()),
            r == match place(old(self).actors(), actor_id@) {
                Some(i) => Some(old(self).senders()[i]),
                None => None,
            },
            final(self).actors() == dropped(
                old(self).actors(),
                place(old(self).actors(), actor_id@),
            ),
            final(self).senders() == dropped(
                old(self).senders(),
                place(old(self).actors(), actor_id@),
            ),
            place(final(self).actors(), actor_id@) is None,
    {
        match self.find(actor_id) {
            Some(i) => {
                let entry = self.mailboxes.remove(i);
                assert(self.actors() =~= old(self).actors().remove(i as int));
                assert(self.senders() =~= old(self).senders().remove(i as int));
                Some(entry.sender)
            },
            None => None,
        }
    }

    /// The actors that are bound.
    pub fn bound_actors(&self) -> (r: Vec<ActorId>)
        ensures
            r@.len() == self.actors().len(),
            forall|i: int| 0 <= i < r@.len() ==> r@[i]@ == self.actors()[i],
    {
        let mut actors: Vec<ActorId> = Vec::new();
        let mut i: usize = 0;
        while i < self.mailboxes.len()
            invariant
                i <= self.mailboxes@.len(),
                actors@.len() == i,
                forall|j: int| 0 <= j < i ==> actors@[j]@ == self.actors()[j],
            decreases self.mailboxes@.len() - i,
        {
            actors.push(self.mailboxes[i].actor_id.clone());
            i += 1;
        }
        actors
    }

    /// The sender bound to the actor, to work on it in place.
    pub fn sender_mut(&mut self, actor_id: &ActorId) -> (r: Option<&mut S>)
        requires
            distinct(old(self).actors()),
        ensures
            final(self).actors() == old(self).actors(),
            final(self).senders().len() == old(self).senders().len(),
            match r {
                Some(sender) => place(old(self).actors(), actor_id@) matches Some(i) && *sender
                    == old(self).senders()[i] && final(self).senders()[i] == *final(sender)
                    && forall|j: int|
                    0 <= j < old(self).senders().len() && j != i ==> final(self).senders()[j]
                        == old(self).senders()[j],
                None => place(old(self).actors(), actor_id@) is None && final(self).senders()
                    == old(self).senders(),
            },
    {
        match self.find(actor_id) {
            Some(i) => {
                let entry = &mut self.mailboxes[i];
                Some(&mut entry.sender)
            },
            None => None,
        }
    }

    /// Whether a sender is bound to the actor.
    pub fn is_bound(&self, actor_id: &ActorId) -> (r: bool)
        ensures
            r == (place(self.actors(), actor_id@) is Some),
    {
        self.find(actor_id).is_some()
    }
}

impl<F> MailboxMuxer<Mailbox<F>> {
    /// Routes the messages for the actor of the mailbox to the mailbox:
    /// see [`MailboxMuxer::bind`].
    pub fn bind_mailbox(&mut self, mailbox: Mailbox<F>) -> (r: bool)
        requires
            distinct(old(self).actors()),
        ensures
            r == (place(old(self).actors(), mailbox@.actor_id) is None),
            final(self).actors() == if r {
                old(self).actors().push(mailbox@.actor_id)
            } else {
                old(self).actors()
            },
            final(self).senders() == if r {
                old(self).senders().push(mailbox)
            } else {
                old(self).senders()
            },
            distinct(final(self).actors()),
    {
        let actor_id = mailbox.actor_id().clone();
        self.bind(actor_id, mailbox)
    }
}

/// What each of the senders stands for.
pub open spec fn states<S: MailboxSender>(senders: Seq<S>) -> Seq<SenderState> {
    Seq::new(senders.len(), |i: int| senders[i].state())
}

/// What each of the senders stands for once the envelope was posted to the
/// one at the given place, if a place is given.
pub open spec fn states_after<S: MailboxSender>(
    senders: Seq<S>,
    at: Option<int>,
    envelope: EnvelopeView,
) -> Seq<SenderState> {
    Seq::new(
        senders.len(),
        |i: int|
            if at == Some(i) {
                senders[i].after(envelope)
            } else {
                senders[i].state()
            },
    )
}

impl<S: MailboxSender> MailboxSender for MailboxMuxer<S> {
    open spec fn wf(&self) -> bool {
        &&& distinct(self.actors())
        &&& self.actors().len() == self.senders().len()
        &&& forall|i: int| 0 <= i < self.senders().len() ==> (#[trigger] self.senders()[i]).wf()
    }

    open spec fn state(&self) -> SenderState {
        SenderState::Table(states(self.senders()))
    }

    open spec fn after(&self, envelope: EnvelopeView) -> SenderState {
        SenderState::Table(
            states_after(self.senders(), place(self.actors(), envelope.dest.actor), envelope),
        )
    }

    open spec fn refuses(&self, envelope: EnvelopeView) -> bool {
        match self.sender_of(envelope.dest.actor) {
            Some(sender) => sender.refuses(envelope),
            None => false,
        }
    }

    open spec fn bounced(&self, envelope: EnvelopeView) -> Option<EnvelopeView> {
        match self.sender_of(envelope.dest.actor) {
            Some(sender) => sender.bounced(envelope),
            None => Some(envelope.stamped(no_mailbox(envelope.dest.actor))),
        }
    }

    /// Posts the envelope to the sender that is bound to the actor of its
    /// destination, and to no other; where none is bound the envelope goes
    /// back as unroutable.
    fn post(&mut self, envelope: MessageEnvelope, return_handle: &mut ReturnHandle)
        ensures
            final(self).actors() == old(self).actors(),
            final(self).senders().len() == old(self).senders().len(),
            forall|i: int|
                0 <= i < old(self).senders().len() && Some(i) != place(
                    old(self).actors(),
                    envelope@.dest.actor,
                ) ==> final(self).senders()[i] == old(self).senders()[i],
    {
        match self.find(envelope.dest().actor_id()) {
            None => {
                let mut reason = String::from_str("no mailbox for actor ");
                reason.append(envelope.dest().actor_id().to_string().as_str());
                reason.append(" registered in muxer");
                envelope.undeliverable(DeliveryError::Unroutable(reason), return_handle);
                assert(states(self.senders()) =~= states_after(self.senders(), None, envelope@));
            },
            Some(i) => {
                let ghost before = self.mailboxes@;
                assert(old(self).senders()[i as int].wf());
                let entry = &mut self.mailboxes[i];
                entry.sender.post(envelope, return_handle);
                assert(self.actors() =~= old(self).actors());
                assert forall|j: int| 0 <= j < self.senders().len() implies (
                #[trigger] self.senders()[j]).wf() by {
                    if j != i {
                        assert(self.senders()[j] == old(self).senders()[j]);
                    }
                }
                assert(states(self.senders()) =~= states_after(
                    old(self).senders(),
                    Some(i as int),
                    envelope@,
                )) by {
                    assert forall|j: int| 0 <= j < self.senders().len() implies states(
                        self.senders(),
                    )[j] == states_after(old(self).senders(), Some(i as int), envelope@)[j] by {
                        if j != i {
                            assert(self.senders()[j] == old(self).senders()[j]);
                        }
                    }
                }
            },
        }
    }
}

} // verus!
