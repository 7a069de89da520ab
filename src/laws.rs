use vstd::prelude::*;

use crate::component::{holder_except, ComponentType, ComponentView};
use crate::error::GridError;
use crate::node::{ComponentId, NodeView};
use crate::position::SwitchState;
use crate::terminal::NodeId;

verus! {

/// Wiring a node to a terminal a second time is refused with
/// `AlreadyConnected`, and the first wiring stays.
pub proof fn connect_twice_refused(v: ComponentView, node: NodeId, index: usize)
    requires
        v.wf(),
        v.connect(node, index as int).1 is Ok,
    ensures
        ({
            let v1 = v.connect(node, index as int).0;
            &&& v1.connect(node, index as int) == (v1, Err::<(), GridError>(GridError::AlreadyConnected))
            &&& v1.links[index as int] == Some(node)
        }),
{
    let v1 = v.connect(node, index as int).0;
    assert(v1.links[index as int] == Some(node));
    if v1.held_elsewhere(node, index as int) {
        let j = choose|j: int| 0 <= j < v1.links.len() && j != index && v1.links[j] == Some(node);
        assert(v.links[j] == Some(node));
    }
}

/// A component that has just been built holds no node, so disconnecting any
/// node fails with `NotConnectedToNode`.
pub proof fn disconnect_unwired_refused(kind: ComponentType, name: Seq<char>, node: NodeId)
    ensures
        ({
            let v = ComponentView::fresh(kind, name);
            v.disconnect(node) == (v, Err::<(), GridError>(GridError::NotConnectedToNode))
        }),
{
}

/// A node that sits on terminal `i` cannot be wired to another terminal
/// `j` of the same component: `DuplicateNodeConnection` names `i`, and
/// nothing changes.
pub proof fn connect_same_node_twice_refused(v: ComponentView, node: NodeId, i: usize, j: usize)
    requires
        v.wf(),
        i != j,
        i < v.links.len(),
        j < v.links.len(),
        v.links[i as int] == Some(node),
    ensures
        v.connect(node, j as int) == (
            v,
            Err::<(), GridError>(GridError::DuplicateNodeConnection { terminal: i }),
        ),
{
    assert(v.held_elsewhere(node, j as int));
    let k = holder_except(v.links, node, j as int);
    assert(v.links[k] == Some(node));
}

/// A switching component starts open: `open` fails with `AlreadyOpen`,
/// `close` succeeds, a second `close` fails with `AlreadyClosed`, and `open`
/// then succeeds, back where it started.
pub proof fn switch_cycle(kind: ComponentType, name: Seq<char>)
    requires
        kind.has_position(),
    ensures
        ({
            let v0 = ComponentView::fresh(kind, name);
            let (v1, r1) = v0.close();
            let (v2, r2) = v1.open();
            &&& v0.open() == (v0, Err::<(), GridError>(GridError::AlreadyOpen))
            &&& r1 == Ok::<(), GridError>(())
            &&& v1.position == Some(SwitchState::Closed)
            &&& v1.close() == (v1, Err::<(), GridError>(GridError::AlreadyClosed))
            &&& r2 == Ok::<(), GridError>(())
            &&& v2 == v0
        }),
{
    let v0 = ComponentView::fresh(kind, name);
    assert(v0.close().0.open().0 =~= v0);
}

/// Voltage transformers and transformers have no switch: `open` and `close`
/// always fail with `NoPositionCapability` and change nothing.
pub proof fn no_switch_refused(v: ComponentView)
    requires
        v.wf(),
        v.kind is VoltageTransformer || v.kind is Transformer,
    ensures
        v.open() == (v, Err::<(), GridError>(GridError::NoPositionCapability)),
        v.close() == (v, Err::<(), GridError>(GridError::NoPositionCapability)),
{
}

/// A voltage transformer reads 0.0 (all bits zero) when built, and reads
/// back exactly what was last stored.
pub proof fn measurement_round_trip(name: Seq<char>, v: ComponentView, bits: u64)
    requires
        v.wf(),
        v.kind is VoltageTransformer,
    ensures
        ComponentView::fresh(ComponentType::VoltageTransformer, name).value() == Ok::<u64, GridError>(0),
        v.update(bits).1 == Ok::<(), GridError>(()),
        v.update(bits).0.value() == Ok::<u64, GridError>(bits),
{
}

/// Components of every kind but the voltage transformer have no
/// measurement: `update` and `value` fail with `NoMeasurementCapability`.
pub proof fn no_measurement_refused(v: ComponentView, bits: u64)
    requires
        v.wf(),
        !(v.kind is VoltageTransformer),
    ensures
        v.update(bits) == (v, Err::<(), GridError>(GridError::NoMeasurementCapability)),
        v.value() == Err::<u64, GridError>(GridError::NoMeasurementCapability),
{
}

/// Registering a component twice on a node fails the second time with
/// `DuplicateComponent` and leaves the registry as the first call left it.
pub proof fn add_twice_refused(n: NodeView, c: ComponentId)
    requires
        n.wf(),
    ensures
        ({
            let n1 = n.add(c).0;
            &&& n1.add(c) == (n1, Err::<(), GridError>(GridError::DuplicateComponent))
            &&& n1.members.len() == n.members.len() + if n.members.contains(c) { 0int } else { 1 }
        }),
{
    let n1 = n.add(c).0;
    if !n.members.contains(c) {
        assert(n1.members[n.members.len() as int] == c);
    }
}

/// Unregistering a component twice fails the second time with
/// `ComponentNotFound`.
pub proof fn remove_twice_refused(n: NodeView, c: ComponentId)
    requires
        n.wf(),
    ensures
        ({
            let n1 = n.remove(c).0;
            n1.remove(c) == (n1, Err::<(), GridError>(GridError::ComponentNotFound))
        }),
{
    let n1 = n.remove(c).0;
    if n.members.contains(c) {
        let k = n.members.index_of(c);
        assert(n.members[k] == c);
        if n1.members.contains(c) {
            let j = n1.members.index_of(c);
            assert(n1.members[j] == c);
            if j < k {
                assert(n.members[j] == c);
            } else {
                assert(n.members[j + 1] == c);
            }
        }
    }
}

} // verus!
