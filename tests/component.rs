use substation::component::{
    CircuitBreaker, Component, ComponentType, Disconnector, EarthingSwitch, Transformer,
    VoltageTransformer,
};
use substation::error::GridError;
use substation::terminal::NodeId;

fn create_test_components() -> (Component, Component, Component, Component, Component) {
    let cb = CircuitBreaker::new("cb");
    let ds = Disconnector::new("ds");
    let es = EarthingSwitch::new("es");
    let vt = VoltageTransformer::new("vt");
    let tf = Transformer::new("tf");

    (cb, ds, es, vt, tf)
}

#[test]
fn component_names() {
    let (cb, ds, es, vt, tf) = create_test_components();

    assert_eq!(cb.name(), "cb");
    assert_eq!(ds.name(), "ds");
    assert_eq!(es.name(), "es");
    assert_eq!(vt.name(), "vt");
    assert_eq!(tf.name(), "tf");
}

#[test]
fn component_types() {
    let (cb, ds, es, vt, tf) = create_test_components();

    assert_eq!(cb.component_type(), ComponentType::CircuitBreaker);
    assert_eq!(ds.component_type(), ComponentType::Disconnector);
    assert_eq!(es.component_type(), ComponentType::EarthingSwitch);
    assert_eq!(vt.component_type(), ComponentType::VoltageTransformer);
    assert_eq!(tf.component_type(), ComponentType::Transformer)
}

#[test]
fn component_terminals() {
    let (cb, ds, es, vt, tf) = create_test_components();

    assert_eq!(cb.terminal_count(), 2);
    assert_eq!(ds.terminal_count(), 2);
    assert_eq!(es.terminal_count(), 1);
    assert_eq!(vt.terminal_count(), 1);
    assert_eq!(tf.terminal_count(), 3);

    assert!(cb.terminal(2).is_err());
    assert!(ds.terminal(2).is_err());
    assert!(es.terminal(1).is_err());
    assert!(vt.terminal(1).is_err());
    assert!(tf.terminal(3).is_err());
}

#[test]
fn component_connect() {
    let n = NodeId(0);
    let n2 = NodeId(1);
    let mut cb = CircuitBreaker::new("cb");

    assert!(cb.disconnect(n).is_err());
    assert!(cb.connect(n, 2).is_err());
    assert!(cb.connect(n, 0).is_ok());
    assert!(cb.connect(n, 0).is_err());
    assert!(cb.connect(n, 1).is_err());
    assert!(cb.connect(n2, 1).is_ok());
    assert!(cb.disconnect(n2).is_ok());
    assert!(cb.connect(n2, 0).is_err());
}

#[test]
fn component_openclose() {
    let (mut cb, mut ds, mut es, mut vt, mut tf) = create_test_components();

    assert!(vt.close().is_err());
    assert!(tf.close().is_err());

    assert!(cb.open().is_err());
    assert!(cb.close().is_ok());
    assert!(cb.close().is_err());
    assert!(cb.open().is_ok());

    assert!(ds.open().is_err());
    assert!(ds.close().is_ok());
    assert!(ds.close().is_err());
    assert!(ds.open().is_ok());

    assert!(es.open().is_err());
    assert!(es.close().is_ok());
    assert!(es.close().is_err());
    assert!(es.open().is_ok());
}

#[test]
fn component_update() {
    let (mut cb, mut ds, mut es, mut vt, mut tf) = create_test_components();

    assert!(cb.update(0f64.to_bits()).is_err());
    assert!(ds.update(0f64.to_bits()).is_err());
    assert!(es.update(0f64.to_bits()).is_err());
    assert!(tf.update(0f64.to_bits()).is_err());

    assert_eq!(f64::from_bits(vt.value().unwrap()), 0.0);
    assert!(vt.update(1578.51758f64.to_bits()).is_ok());
    assert_eq!(f64::from_bits(vt.value().unwrap()), 1578.51758);
}

#[test]
fn terminal_bounds_per_kind() {
    let (cb, ds, es, vt, tf) = create_test_components();
    for (c, n) in [(&cb, 2usize), (&ds, 2), (&es, 1), (&vt, 1), (&tf, 3)] {
        assert_eq!(
            c.terminal(n).unwrap_err(),
            GridError::TerminalIndexOutOfRange { index: n, count: n }
        );
        assert!(c.terminal(n - 1).is_ok());
    }
    assert_eq!(
        tf.terminal(7).unwrap_err(),
        GridError::TerminalIndexOutOfRange { index: 7, count: 3 }
    );
}

#[test]
fn connect_scenario_errors() {
    let n = NodeId(0);
    let n2 = NodeId(1);
    let mut cb = CircuitBreaker::new("cb");

    assert_eq!(cb.disconnect(n), Err(GridError::NotConnectedToNode));
    assert_eq!(
        cb.connect(n, 2),
        Err(GridError::TerminalIndexOutOfRange { index: 2, count: 2 })
    );
    assert_eq!(cb.connect(n, 0), Ok(()));
    assert_eq!(cb.connect(n, 0), Err(GridError::AlreadyConnected));
    assert_eq!(cb.terminal(0).unwrap().get_node(), Ok(n));
    assert_eq!(
        cb.connect(n, 1),
        Err(GridError::DuplicateNodeConnection { terminal: 0 })
    );
    assert_eq!(cb.terminal(1).unwrap().get_node(), Err(GridError::NotConnected));
    assert_eq!(cb.connect(n2, 1), Ok(()));
    assert_eq!(cb.disconnect(n2), Ok(()));
    assert_eq!(cb.terminal(1).unwrap().get_node(), Err(GridError::NotConnected));
    assert_eq!(cb.connect(n2, 0), Err(GridError::AlreadyConnected));
    assert_eq!(cb.terminal(0).unwrap().get_node(), Ok(n));
}

#[test]
fn index_checked_before_duplicates() {
    let n = NodeId(4);
    let mut es = EarthingSwitch::new("es");
    assert_eq!(es.connect(n, 0), Ok(()));
    assert_eq!(
        es.connect(n, 1),
        Err(GridError::TerminalIndexOutOfRange { index: 1, count: 1 })
    );
}

#[test]
fn transformer_three_terminals() {
    let mut tf = Transformer::new("tf");
    assert_eq!(tf.connect(NodeId(1), 2), Ok(()));
    assert_eq!(tf.connect(NodeId(2), 0), Ok(()));
    assert_eq!(
        tf.connect(NodeId(1), 1),
        Err(GridError::DuplicateNodeConnection { terminal: 2 })
    );
    assert_eq!(tf.disconnect(NodeId(1)), Ok(()));
    assert_eq!(tf.disconnect(NodeId(1)), Err(GridError::NotConnectedToNode));
    assert_eq!(tf.connect(NodeId(1), 1), Ok(()));
    assert_eq!(tf.terminal(1).unwrap().get_node(), Ok(NodeId(1)));
    assert_eq!(tf.terminal(2).unwrap().get_node(), Err(GridError::NotConnected));
}

#[test]
fn switch_errors_exact() {
    let mut ds = Disconnector::new("ds");
    assert_eq!(ds.open(), Err(GridError::AlreadyOpen));
    assert_eq!(ds.close(), Ok(()));
    assert_eq!(ds.close(), Err(GridError::AlreadyClosed));
    assert_eq!(ds.open(), Ok(()));

    let mut vt = VoltageTransformer::new("vt");
    let mut tf = Transformer::new("tf");
    assert_eq!(vt.open(), Err(GridError::NoPositionCapability));
    assert_eq!(vt.close(), Err(GridError::NoPositionCapability));
    assert_eq!(tf.open(), Err(GridError::NoPositionCapability));
    assert_eq!(tf.close(), Err(GridError::NoPositionCapability));
    assert!(tf.position().is_err());
    assert!(ds.position().is_ok());
}

#[test]
fn measurement_capability() {
    let mut cb = CircuitBreaker::new("cb");
    assert_eq!(cb.value(), Err(GridError::NoMeasurementCapability));
    assert_eq!(cb.update(5), Err(GridError::NoMeasurementCapability));

    let mut vt = VoltageTransformer::new("vt");
    assert_eq!(vt.value(), Ok(0));
    let x = -0.125f64;
    assert_eq!(vt.update(x.to_bits()), Ok(()));
    assert_eq!(f64::from_bits(vt.value().unwrap()), x);
    assert_eq!(vt.update(7), Ok(()));
    assert_eq!(vt.value(), Ok(7));
}

#[test]
fn component_rendering() {
    let es = EarthingSwitch::new("es1");
    assert_eq!(es.describe(), "Component es1 of type EarthingSwitch");
    assert_eq!(ComponentType::EarthingSwitch.label(), "Earthing Switch");
    assert_eq!(ComponentType::VoltageTransformer.label(), "Voltage Transformer");
    assert_eq!(ComponentType::CircuitBreaker.variant_name(), "CircuitBreaker");
    assert_eq!(ComponentType::Transformer.terminals(), 3);
}
