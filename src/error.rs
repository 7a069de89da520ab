use vstd::prelude::*;

verus! {

/// Why an operation on the topology was refused.
#[derive(Debug, Clone, Copy, PartialEq, Eq, Structural)]
pub enum GridError {
    /// A terminal holds no node.
    NotConnected,
    /// A terminal already holds a node.
    AlreadyConnected,
    /// A terminal index at or past the component's terminal count.
    TerminalIndexOutOfRange { index: usize, count: usize },
    /// The node already sits on another terminal of the same component.
    DuplicateNodeConnection { terminal: usize },
    /// No terminal of the component holds the node.
    NotConnectedToNode,
    /// The component kind has no switch position.
    NoPositionCapability,
    /// The component kind has no measurement.
    NoMeasurementCapability,
    /// The switch is open already.
    AlreadyOpen,
    /// The switch is closed already.
    AlreadyClosed,
    /// The node lists the component already.
    DuplicateComponent,
    /// The node does not list the component.
    ComponentNotFound,
}

} // verus!
