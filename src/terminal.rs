use vstd::prelude::*;

use crate::error::GridError;

verus! {

/// Handle of a node; two handles name the same node exactly when they are equal.
#[derive(Debug, Clone, Copy, PartialEq, Eq, Structural)]
pub struct NodeId(pub usize);

/// One attachment point of a component, holding at most one node.
#[derive(Debug)]
pub struct Terminal {
    node: Option<NodeId>,
}

impl View for Terminal {
    type V = Option<NodeId>;

    closed spec fn view(&self) -> Option<NodeId> {
        self.node
    }
}

impl Terminal {
    pub fn new() -> (r: Terminal)
        ensures
            r@ is None,
    {
        Terminal { node: None }
    }

    /// The node held, or `NotConnected`.
    pub fn get_node(&self) -> (r: Result<NodeId, GridError>)
        ensures
            match self@ {
                Some(n) => r == Ok::<NodeId, GridError>(n),
                None => r == Err::<NodeId, GridError>(GridError::NotConnected),
            },
    {
        match self.node {
            Some(n) => Ok(n),
            None => Err(GridError::NotConnected),
        }
    }

    /// Holds `node`; refused with `AlreadyConnected` when a node is held.
    pub fn connect(&mut self, node: NodeId) -> (r: Result<(), GridError>)
        ensures
            old(self)@ is Some ==> r == Err::<(), GridError>(GridError::AlreadyConnected)
                && final(self)@ == old(self)@,
            old(self)@ is None ==> r == Ok::<(), GridError>(()) && final(self)@ == Some(node),
    {
        match self.node {
            Some(_) => Err(GridError::AlreadyConnected),
            None => {
                self.node = Some(node);
                Ok(())
            },
        }
    }

    /// Lets go of the node held; refused with `NotConnected` when none is.
    pub fn disconnect(&mut self) -> (r: Result<(), GridError>)
        ensures
            old(self)@ is None ==> r == Err::<(), GridError>(GridError::NotConnected)
                && final(self)@ == old(self)@,
            old(self)@ is Some ==> r == Ok::<(), GridError>(()) && final(self)@ is None,
    {
        match self.node {
            None => Err(GridError::NotConnected),
            Some(_) => {
                self.node = None;
                Ok(())
            },
        }
    }
}

} // verus!
