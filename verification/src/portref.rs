//! References to ports that can be handed to other actors.

use vstd::prelude::*;
use std::marker::PhantomData;
use crate::accum::{opt_spec, ReducerSpec, ReducerSpecView};
use crate::reference::{PortId, PortKey};

verus! {

/// A reference to a bound port for messages of type `M`, with the reducer
/// that remote peers may apply to updates on their way to it.
#[derive(Debug)]
pub struct PortRef<M> {
    port_id: PortId,
    reducer_spec: Option<ReducerSpec>,
    phantom: PhantomData<M>,
}

impl<M> PortRef<M> {
    /// What the reference names.
    pub closed spec fn id(&self) -> PortKey {
        self.port_id@
    }

    /// The reducer that goes with the port.
    pub closed spec fn reducer(&self) -> Option<ReducerSpecView> {
        opt_spec(self.reducer_spec)
    }

    /// The reference to the port of the given id, on the caller's word that
    /// the port takes messages of type `M`.
    pub fn attest(port_id: PortId) -> (r: Self)
        ensures
            r.id() == port_id@,
            r.reducer() is None,
    {
        PortRef { port_id, reducer_spec: None, phantom: PhantomData }
    }

    /// As [`PortRef::attest`], with the reducer that goes with the port.
    pub fn attest_reducible(port_id: PortId, reducer_spec: Option<ReducerSpec>) -> (r: Self)
        ensures
            r.id() == port_id@,
            r.reducer() == opt_spec(reducer_spec),
    {
        PortRef { port_id, reducer_spec, phantom: PhantomData }
    }

    /// The id of the port.
    pub fn port_id(&self) -> (r: &PortId)
        ensures
            r@ == self.id(),
    {
        &self.port_id
    }

    /// The reducer that goes with the port.
    pub fn reducer_spec(&self) -> (r: &Option<ReducerSpec>)
        ensures
            opt_spec(*r) == self.reducer(),
    {
        &self.reducer_spec
    }
}

/// A reference to a bound one-shot port for a message of type `M`.
#[derive(Debug)]
pub struct OncePortRef<M> {
    port_id: PortId,
    phantom: PhantomData<M>,
}

impl<M> OncePortRef<M> {
    /// What the reference names.
    pub closed spec fn id(&self) -> PortKey {
        self.port_id@
    }

    /// The reference to the one-shot port of the given id, on the caller's
    /// word that the port takes a message of type `M`.
    pub fn attest(port_id: PortId) -> (r: Self)
        ensures
            r.id() == port_id@,
    {
        OncePortRef { port_id, phantom: PhantomData }
    }

    /// The id of the port.
    pub fn port_id(&self) -> (r: &PortId)
        ensures
            r@ == self.id(),
    {
        &self.port_id
    }
}

} // verus!
