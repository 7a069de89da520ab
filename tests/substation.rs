use substation::component::{CircuitBreaker, ComponentType, VoltageTransformer};
use substation::error::GridError;
use substation::node::ComponentId;
use substation::substation::Substation;
use substation::terminal::NodeId;

#[test]
fn arena_hands_out_distinct_handles() {
    let mut s = Substation::new();
    let a = s.add_node("node");
    let b = s.add_node("node");
    assert_ne!(a, b);
    assert_eq!(a, NodeId(0));
    assert_eq!(b, NodeId(1));
    let c = s.add_component(CircuitBreaker::new("cb"));
    let d = s.add_component(CircuitBreaker::new("cb"));
    assert_ne!(c, d);
    assert_eq!(d, ComponentId(1));
    assert!(s.node(NodeId(2)).is_none());
    assert!(s.component(ComponentId(2)).is_none());
    assert_eq!(s.node(b).unwrap().name(), "node");
    assert_eq!(
        s.component(c).unwrap().component_type(),
        ComponentType::CircuitBreaker
    );
}

#[test]
fn same_name_nodes_are_distinct() {
    let mut s = Substation::new();
    let a = s.add_node("bus");
    let b = s.add_node("bus");
    let cb = s.add_component(CircuitBreaker::new("cb"));
    assert_eq!(s.connect(cb, a, 0), Ok(()));
    assert_eq!(s.connect(cb, b, 1), Ok(()));
    assert_eq!(
        s.connect(cb, a, 1),
        Err(GridError::DuplicateNodeConnection { terminal: 0 })
    );
    assert_eq!(s.disconnect(cb, b), Ok(()));
    assert_eq!(s.disconnect(cb, b), Err(GridError::NotConnectedToNode));
    assert_eq!(
        s.component(cb).unwrap().terminal(0).unwrap().get_node(),
        Ok(a)
    );
}

#[test]
fn wiring_and_registry_stay_independent() {
    let mut s = Substation::new();
    let n = s.add_node("n");
    let cb = s.add_component(CircuitBreaker::new("cb"));
    assert_eq!(s.connect(cb, n, 0), Ok(()));
    assert_eq!(s.node(n).unwrap().components().len(), 0);
    assert_eq!(s.attach(n, cb), Ok(()));
    assert_eq!(s.attach(n, cb), Err(GridError::DuplicateComponent));
    assert_eq!(s.node(n).unwrap().components(), &vec![cb]);
    assert_eq!(s.detach(n, cb), Ok(()));
    assert_eq!(s.detach(n, cb), Err(GridError::ComponentNotFound));
    assert_eq!(
        s.component(cb).unwrap().terminal(0).unwrap().get_node(),
        Ok(n)
    );
}

#[test]
fn arena_switching_and_measuring() {
    let mut s = Substation::new();
    let cb = s.add_component(CircuitBreaker::new("cb"));
    let vt = s.add_component(VoltageTransformer::new("vt"));
    assert_eq!(s.open(cb), Err(GridError::AlreadyOpen));
    assert_eq!(s.close(cb), Ok(()));
    assert_eq!(s.close(cb), Err(GridError::AlreadyClosed));
    assert_eq!(s.open(cb), Ok(()));
    assert_eq!(s.open(vt), Err(GridError::NoPositionCapability));
    assert_eq!(s.update(cb, 1), Err(GridError::NoMeasurementCapability));
    assert_eq!(s.update(vt, 230.5f64.to_bits()), Ok(()));
    assert_eq!(
        f64::from_bits(s.component(vt).unwrap().value().unwrap()),
        230.5
    );
}
