//!Wrappers that connect [`Getter`]s to the device system.
use vstd::prelude::*;
use core::marker::PhantomData;
use crate::datum::Output;
use crate::error::NothingOrError;
use crate::interfaces::{may_get, readable_after_update, Getter, Updatable};
use super::{DeviceUpdatable, NodeID, System};

verus! {

///The state that a node is given from what a getter returned: the value of a datum, and no
///state for `Ok(None)` or an error.
pub open spec fn state_from_output<S, E>(o: Output<S, E>) -> Option<S> {
    match o {
        Ok(Some(d)) => Some(d.value),
        _ => None,
    }
}

///The result of writing what a getter returned to a node: the getter's error, if any.
pub open spec fn result_from_output<S, E>(o: Output<S, E>) -> NothingOrError<E> {
    match o {
        Err(e) => Err(e),
        Ok(_) => Ok(()),
    }
}

///Calls the getter's `get` method and, if it returns `Ok(Some(_))`, writes the value to a node in
///the system. If `get` does not return a value (`Ok(None)` or `Err(_)`), the node's state is set
///to `None`. If `get` returns an error, it is returned. Nothing else in the system changes.
pub fn get_and_write_to_node<G: Getter<S, E>, const N: usize, S: Copy, C: Copy, E>(
    getter: &G,
    system: &mut System<N, S, C>,
    node: NodeID,
) -> (r: NothingOrError<E>)
    requires
        getter.get_req(),
        old(system).wf(),
        old(system).valid(node),
    ensures
        final(system).wf(),
        final(system).id() == old(system).id(),
        exists|o: Output<S, E>|
            #[trigger] may_get(*getter, o) && final(system).state_at(node.index())
                == state_from_output(o) && r == result_from_output(o),
        forall|i: int| #[trigger] final(system).is_node(i) == old(system).is_node(i),
        forall|i: int|
            old(system).is_node(i) && i != node.index() ==> #[trigger] final(system).state_at(i)
                == old(system).state_at(i),
        forall|i: int|
            old(system).is_node(i) ==> #[trigger] final(system).root_of(i) == old(system).root_of(i),
{
    let gotten = getter.get();
    assert(may_get(*getter, gotten));
    let to_set = match gotten {
        Ok(option) => match option {
            Some(datum) => Some(datum.value),
            None => None,
        },
        Err(error) => {
            system.set_state_local(node, None);
            return Err(error);
        },
    };
    system.set_state_local(node, to_set);
    Ok(())
}

///Writes a state gotten from a [`Getter`] to a node. This uses [`get_and_write_to_node`]
///internally, after updating the getter; if the update fails, the node's state is set to `None`
///and the error is returned.
pub struct GetterWrapper<G, E> {
    getter: G,
    node: NodeID,
    phantom_e: PhantomData<E>,
}

impl<G, E> GetterWrapper<G, E> {
    ///Constructor for `GetterWrapper`.
    pub fn new(node: NodeID, getter: G) -> (r: Self)
        ensures
            r.node() == node,
            r.getter() == getter,
    {
        GetterWrapper { getter, node, phantom_e: PhantomData }
    }

    ///The node written to.
    pub closed spec fn node(self) -> NodeID {
        self.node
    }

    ///The getter read from.
    pub closed spec fn getter(self) -> G {
        self.getter
    }
}

impl<G: Getter<S, E>, S: Copy, C: Copy, E> DeviceUpdatable<E, S, C> for GetterWrapper<G, E> {
    ///The one node that the wrapper writes.
    open spec fn device_nodes(&self) -> Set<NodeID> {
        set![self.node()]
    }

    ///The getter can be updated and read.
    open spec fn device_update_req(&self) -> bool {
        self.getter().update_req() && readable_after_update(self.getter())
    }

    ///Updates the getter. If that fails, the node's state is set to `None` and the error is
    ///returned; otherwise the getter's output is written to the node as
    ///[`get_and_write_to_node`] does. No other node's state changes.
    fn device_update<const N: usize>(&mut self, system: &mut System<N, S, C>) -> (r:
        NothingOrError<E>)
        ensures
            final(self).node() == old(self).node(),
            exists|ru: NothingOrError<E>|
                #[trigger] G::update_spec(old(self).getter(), final(self).getter(), ru) && match ru {
                    Err(e) => r == Err::<(), E>(e)
                        && final(system).state_at(old(self).node().index()) == None::<S>,
                    Ok(_) => exists|o: Output<S, E>|
                        #[trigger] may_get(final(self).getter(), o) && r == result_from_output(o)
                            && final(system).state_at(old(self).node().index())
                            == state_from_output(o),
                },
            forall|i: int| #[trigger] final(system).is_node(i) == old(system).is_node(i),
            forall|i: int|
                old(system).is_node(i) && i != old(self).node().index()
                    ==> #[trigger] final(system).state_at(i) == old(system).state_at(i),
            forall|i: int|
                old(system).is_node(i)
                    ==> #[trigger] final(system).root_of(i) == old(system).root_of(i),
    {
        let node = self.node;
        let updated = self.getter.update();
        assert(G::update_spec(old(self).getter(), self.getter(), updated));
        match updated {
            Err(error) => {
                system.set_state_local(node, None);
                Err(error)
            },
            Ok(()) => get_and_write_to_node(&self.getter, system, node),
        }
    }
}

} // verus!
