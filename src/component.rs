use vstd::prelude::*;
use vstd::string::*;

use crate::error::GridError;
use crate::measurement::Measurement;
use crate::position::{close_step, open_step, SwitchState, SwitchgearPosition};
use crate::terminal::{NodeId, Terminal};

verus! {

/// The kinds of equipment.
#[derive(Debug, Clone, Copy, PartialEq, Eq, Structural)]
pub enum ComponentType {
    CircuitBreaker,
    Disconnector,
    EarthingSwitch,
    VoltageTransformer,
    Transformer,
}

impl ComponentType {
    /// How many terminals a component of this kind has.
    pub open spec fn terminal_count(self) -> nat {
        match self {
            ComponentType::CircuitBreaker => 2,
            ComponentType::Disconnector => 2,
            ComponentType::EarthingSwitch => 1,
            ComponentType::VoltageTransformer => 1,
            ComponentType::Transformer => 3,
        }
    }

    /// Whether components of this kind switch.
    pub open spec fn has_position(self) -> bool {
        self is CircuitBreaker || self is Disconnector || self is EarthingSwitch
    }

    /// Whether components of this kind measure.
    pub open spec fn has_measurement(self) -> bool {
        self is VoltageTransformer
    }

    pub open spec fn label_spec(self) -> Seq<char> {
        match self {
            ComponentType::CircuitBreaker => "CircuitBreaker"@,
            ComponentType::Disconnector => "Disconnector"@,
            ComponentType::EarthingSwitch => "Earthing Switch"@,
            ComponentType::VoltageTransformer => "Voltage Transformer"@,
            ComponentType::Transformer => "Transformer"@,
        }
    }

    pub open spec fn variant_name_spec(self) -> Seq<char> {
        match self {
            ComponentType::CircuitBreaker => "CircuitBreaker"@,
            ComponentType::Disconnector => "Disconnector"@,
            ComponentType::EarthingSwitch => "EarthingSwitch"@,
            ComponentType::VoltageTransformer => "VoltageTransformer"@,
            ComponentType::Transformer => "Transformer"@,
        }
    }

    /// Human-readable name of the kind, words separated by spaces.
    pub fn label(&self) -> (r: &'static str)
        ensures
            r@ == self.label_spec(),
    {
        proof {
            reveal_strlit("CircuitBreaker");
            reveal_strlit("Disconnector");
            reveal_strlit("Earthing Switch");
            reveal_strlit("Voltage Transformer");
            reveal_strlit("Transformer");
        }
        match self {
            ComponentType::CircuitBreaker => "CircuitBreaker",
            ComponentType::Disconnector => "Disconnector",
            ComponentType::EarthingSwitch => "Earthing Switch",
            ComponentType::VoltageTransformer => "Voltage Transformer",
            ComponentType::Transformer => "Transformer",
        }
    }

    /// Name of the kind as one identifier.
    pub fn variant_name(&self) -> (r: &'static str)
        ensures
            r@ == self.variant_name_spec(),
    {
        proof {
            reveal_strlit("CircuitBreaker");
            reveal_strlit("Disconnector");
            reveal_strlit("EarthingSwitch");
            reveal_strlit("VoltageTransformer");
            reveal_strlit("Transformer");
        }
        match self {
            ComponentType::CircuitBreaker => "CircuitBreaker",
            ComponentType::Disconnector => "Disconnector",
            ComponentType::EarthingSwitch => "EarthingSwitch",
            ComponentType::VoltageTransformer => "VoltageTransformer",
            ComponentType::Transformer => "Transformer",
        }
    }
}

/// The abstract state of a component.
pub struct ComponentView {
    pub kind: ComponentType,
    pub name: Seq<char>,
    /// The node held by each terminal, in terminal order.
    pub links: Seq<Option<NodeId>>,
    pub position: Option<SwitchState>,
    /// Bit pattern of the last reading.
    pub measurement: Option<u64>,
}

/// Index of some terminal other than `skip` that holds `node`.
pub open spec fn holder_except(links: Seq<Option<NodeId>>, node: NodeId, skip: int) -> int {
    choose|j: int| 0 <= j < links.len() && j != skip && links[j] == Some(node)
}

impl ComponentView {
    /// Terminal count and capabilities follow the kind, and no node sits on
    /// two terminals.
    pub open spec fn wf(self) -> bool {
        &&& self.links.len() == self.kind.terminal_count()
        &&& self.position is Some <==> self.kind.has_position()
        &&& self.measurement is Some <==> self.kind.has_measurement()
        &&& forall|i: int, j: int|
            0 <= i < self.links.len() && 0 <= j < self.links.len() && i != j
                && self.links[i] is Some ==> self.links[i] != self.links[j]
    }

    /// A newly built component of kind `kind`: nothing wired, open, reading 0.
    pub open spec fn fresh(kind: ComponentType, name: Seq<char>) -> ComponentView {
        ComponentView {
            kind,
            name,
            links: Seq::new(kind.terminal_count(), |i: int| None),
            position: if kind.has_position() { Some(SwitchState::Open) } else { None },
            measurement: if kind.has_measurement() { Some(0u64) } else { None },
        }
    }

    pub open spec fn out_of_range(self, index: int) -> GridError {
        GridError::TerminalIndexOutOfRange {
            index: index as usize,
            count: self.kind.terminal_count() as usize,
        }
    }

    /// Whether a terminal other than `skip` holds `node`.
    pub open spec fn held_elsewhere(self, node: NodeId, skip: int) -> bool {
        exists|j: int| 0 <= j < self.links.len() && j != skip && self.links[j] == Some(node)
    }

    /// What `connect(node, index)` does: the new state and the outcome.
    pub open spec fn connect(self, node: NodeId, index: int) -> (ComponentView, Result<(), GridError>) {
        if index >= self.links.len() {
            (self, Err(self.out_of_range(index)))
        } else if self.held_elsewhere(node, index) {
            (
                self,
                Err(
                    GridError::DuplicateNodeConnection {
                        terminal: holder_except(self.links, node, index) as usize,
                    },
                ),
            )
        } else if self.links[index] is Some {
            (self, Err(GridError::AlreadyConnected))
        } else {
            (ComponentView { links: self.links.update(index, Some(node)), ..self }, Ok(()))
        }
    }

    /// What `disconnect(node)` does: the new state and the outcome.
    pub open spec fn disconnect(self, node: NodeId) -> (ComponentView, Result<(), GridError>) {
        if self.held_elsewhere(node, -1) {
            let j = holder_except(self.links, node, -1);
            (ComponentView { links: self.links.update(j, None), ..self }, Ok(()))
        } else {
            (self, Err(GridError::NotConnectedToNode))
        }
    }

    /// What `open` does: the new state and the outcome.
    pub open spec fn open(self) -> (ComponentView, Result<(), GridError>) {
        match self.position {
            Some(s) => {
                let (s2, r) = open_step(s);
                (ComponentView { position: Some(s2), ..self }, r)
            },
            None => (self, Err(GridError::NoPositionCapability)),
        }
    }

    /// What `close` does: the new state and the outcome.
    pub open spec fn close(self) -> (ComponentView, Result<(), GridError>) {
        match self.position {
            Some(s) => {
                let (s2, r) = close_step(s);
                (ComponentView { position: Some(s2), ..self }, r)
            },
            None => (self, Err(GridError::NoPositionCapability)),
        }
    }

    /// What `update(bits)` does: the new state and the outcome.
    pub open spec fn update(self, bits: u64) -> (ComponentView, Result<(), GridError>) {
        if self.measurement is Some {
            (ComponentView { measurement: Some(bits), ..self }, Ok(()))
        } else {
            (self, Err(GridError::NoMeasurementCapability))
        }
    }

    /// What `value()` returns.
    pub open spec fn value(self) -> Result<u64, GridError> {
        match self.measurement {
            Some(b) => Ok(b),
            None => Err(GridError::NoMeasurementCapability),
        }
    }
}

impl ComponentType {
    /// How many terminals a component of this kind has.
    pub fn terminals(&self) -> (r: usize)
        ensures
            r == self.terminal_count(),
    {
        match self {
            ComponentType::CircuitBreaker => 2,
            ComponentType::Disconnector => 2,
            ComponentType::EarthingSwitch => 1,
            ComponentType::VoltageTransformer => 1,
            ComponentType::Transformer => 3,
        }
    }
}

/// A piece of equipment: a name, a fixed row of terminals and, by kind, a
/// switch position or a measurement.
#[derive(Debug)]
pub struct Component {
    kind: ComponentType,
    name: String,
    terminals: Vec<Terminal>,
    position: Option<SwitchgearPosition>,
    measurement: Option<Measurement>,
}

impl View for Component {
    type V = ComponentView;

    closed spec fn view(&self) -> ComponentView {
        ComponentView {
            kind: self.kind,
            name: self.name@,
            links: self.terminals@.map_values(|t: Terminal| t@),
            position: match self.position {
                Some(p) => Some(p@),
                None => None,
            },
            measurement: match self.measurement {
                Some(m) => Some(m@),
                None => None,
            },
        }
    }
}

impl Component {
    /// A component of kind `kind` named `name`, with no terminal wired, open
    /// if it switches and reading 0.0 if it measures.
    pub fn new(kind: ComponentType, name: &str) -> (r: Component)
        ensures
            r@ == ComponentView::fresh(kind, name@),
            r@.wf(),
    {
        let count = kind.terminals();
        let mut terminals: Vec<Terminal> = Vec::new();
        let mut i: usize = 0;
        while i < count
            invariant
                i <= count,
                count == kind.terminal_count(),
                terminals@.len() == i,
                forall|j: int| 0 <= j < i ==> (#[trigger] terminals@[j])@ is None,
            decreases count - i,
        {
            terminals.push(Terminal::new());
            i = i + 1;
        }
        let position = match kind {
            ComponentType::CircuitBreaker | ComponentType::Disconnector
            | ComponentType::EarthingSwitch => Some(SwitchgearPosition::new()),
            _ => None,
        };
        let measurement = match kind {
            ComponentType::VoltageTransformer => Some(Measurement::new()),
            _ => None,
        };
        let r = Component { kind, name: name.to_owned(), terminals, position, measurement };
        assert(r@.links =~= ComponentView::fresh(kind, name@).links);
        r
    }

    pub fn name(&self) -> (r: &String)
        ensures
            r@ == self@.name,
    {
        &self.name
    }

    pub fn component_type(&self) -> (r: ComponentType)
        ensures
            r == self@.kind,
    {
        self.kind
    }

    /// How many terminals the component has.
    pub fn terminal_count(&self) -> (r: usize)
        requires
            self@.wf(),
        ensures
            r == self@.kind.terminal_count(),
    {
        self.terminals.len()
    }

    /// The terminal at `index`, or `TerminalIndexOutOfRange` naming the
    /// terminal count.
    pub fn terminal(&self, index: usize) -> (r: Result<&Terminal, GridError>)
        requires
            self@.wf(),
        ensures
            index < self@.kind.terminal_count() ==> (r matches Ok(t) && t@ == self@.links[index as int]),
            index >= self@.kind.terminal_count() ==> r == Err::<&Terminal, GridError>(self@.out_of_range(index as int)),
    {
        if index < self.terminals.len() {
            Ok(&self.terminals[index])
        } else {
            Err(GridError::TerminalIndexOutOfRange { index, count: self.terminals.len() })
        }
    }

    /// Wires terminal `terminal_index` to `node`. Refused, with nothing
    /// changed: `TerminalIndexOutOfRange` for an index past the terminals,
    /// then `DuplicateNodeConnection` naming the other terminal that holds
    /// `node`, then `AlreadyConnected` when the terminal holds a node.
    pub fn connect(&mut self, node: NodeId, terminal_index: usize) -> (r: Result<(), GridError>)
        requires
            old(self)@.wf(),
        ensures
            (final(self)@, r) == old(self)@.connect(node, terminal_index as int),
            final(self)@.wf(),
    {
        let len = self.terminals.len();
        if terminal_index >= len {
            return Err(GridError::TerminalIndexOutOfRange { index: terminal_index, count: len });
        }
        let ghost links = self@.links;
        let mut i: usize = 0;
        while i < len
            invariant
                len == self.terminals@.len(),
                links == self@.links,
                self@ == old(self)@,
                old(self)@.wf(),
                terminal_index < len,
                i <= len,
                forall|j: int| 0 <= j < i && j != terminal_index ==> links[j] != Some(node),
            decreases len - i,
        {
            if i != terminal_index {
                if let Ok(n) = self.terminals[i].get_node() {
                    if n == node {
                        proof {
                            assert(links[i as int] == Some(node));
                            let k = holder_except(links, node, terminal_index as int);
                            assert(links[k] == Some(node));
                        }
                        return Err(GridError::DuplicateNodeConnection { terminal: i });
                    }
                }
            }
            i = i + 1;
        }
        assert(!old(self)@.held_elsewhere(node, terminal_index as int));
        let r = self.terminals[terminal_index].connect(node);
        proof {
            if r is Ok {
                assert(self@.links =~= links.update(terminal_index as int, Some(node)));
                assert(self@ == old(self)@.connect(node, terminal_index as int).0);
            } else {
                assert(self@.links =~= links);
                assert(self@ == old(self)@);
            }
        }
        r
    }

    /// Lets go of `node` on the terminal that holds it, or fails with
    /// `NotConnectedToNode` when none does.
    pub fn disconnect(&mut self, node: NodeId) -> (r: Result<(), GridError>)
        requires
            old(self)@.wf(),
        ensures
            (final(self)@, r) == old(self)@.disconnect(node),
            final(self)@.wf(),
    {
        let len = self.terminals.len();
        let ghost links = self@.links;
        let mut i: usize = 0;
        while i < len
            invariant
                len == self.terminals@.len(),
                links == self@.links,
                self@ == old(self)@,
                old(self)@.wf(),
                i <= len,
                forall|j: int| 0 <= j < i ==> links[j] != Some(node),
            decreases len - i,
        {
            if let Ok(n) = self.terminals[i].get_node() {
                if n == node {
                    proof {
                        assert(links[i as int] == Some(node));
                        let k = holder_except(links, node, -1);
                        assert(links[k] == Some(node));
                        assert(k == i);
                    }
                    let r = self.terminals[i].disconnect();
                    assert(self@.links =~= links.update(i as int, None));
                    assert(self@ == old(self)@.disconnect(node).0);
                    return r;
                }
            }
            i = i + 1;
        }
        Err(GridError::NotConnectedToNode)
    }

    /// The switch position, or `NoPositionCapability`.
    pub fn position(&self) -> (r: Result<&SwitchgearPosition, GridError>)
        ensures
            match self@.position {
                Some(s) => r matches Ok(p) && p@ == s,
                None => r == Err::<&SwitchgearPosition, GridError>(GridError::NoPositionCapability),
            },
    {
        match &self.position {
            Some(p) => Ok(p),
            None => Err(GridError::NoPositionCapability),
        }
    }

    /// Opens the switch; `NoPositionCapability` or `AlreadyOpen` otherwise.
    pub fn open(&mut self) -> (r: Result<(), GridError>)
        requires
            old(self)@.wf(),
        ensures
            (final(self)@, r) == old(self)@.open(),
            final(self)@.wf(),
    {
        match &mut self.position {
            Some(p) => p.open(),
            None => Err(GridError::NoPositionCapability),
        }
    }

    /// Closes the switch; `NoPositionCapability` or `AlreadyClosed` otherwise.
    pub fn close(&mut self) -> (r: Result<(), GridError>)
        requires
            old(self)@.wf(),
        ensures
            (final(self)@, r) == old(self)@.close(),
            final(self)@.wf(),
    {
        match &mut self.position {
            Some(p) => p.close(),
            None => Err(GridError::NoPositionCapability),
        }
    }

    /// Stores a reading, given as the bits of an `f64`; `NoMeasurementCapability`
    /// for kinds that do not measure.
    pub fn update(&mut self, bits: u64) -> (r: Result<(), GridError>)
        requires
            old(self)@.wf(),
        ensures
            (final(self)@, r) == old(self)@.update(bits),
            final(self)@.wf(),
    {
        match &mut self.measurement {
            Some(m) => {
                m.update(bits);
                Ok(())
            },
            None => Err(GridError::NoMeasurementCapability),
        }
    }

    /// The last reading, as the bits of an `f64`; `NoMeasurementCapability`
    /// for kinds that do not measure.
    pub fn value(&self) -> (r: Result<u64, GridError>)
        ensures
            r == self@.value(),
    {
        match &self.measurement {
            Some(m) => Ok(m.value()),
            None => Err(GridError::NoMeasurementCapability),
        }
    }

    /// "Component <name> of type <kind>".
    pub fn describe(&self) -> (r: String)
        ensures
            r@ == "Component "@ + self@.name + " of type "@ + self@.kind.variant_name_spec(),
    {
        let mut s = "Component ".to_owned();
        s.append(self.name.as_str());
        s.append(" of type ");
        s.append(self.kind.variant_name());
        s
    }
}

/// Builds circuit breakers: two terminals, a switch position.
pub struct CircuitBreaker;

impl CircuitBreaker {
    pub fn new(name: &str) -> (r: Component)
        ensures
            r@ == ComponentView::fresh(ComponentType::CircuitBreaker, name@),
            r@.wf(),
    {
        Component::new(ComponentType::CircuitBreaker, name)
    }
}

/// Builds disconnectors: two terminals, a switch position.
pub struct Disconnector;

impl Disconnector {
    pub fn new(name: &str) -> (r: Component)
        ensures
            r@ == ComponentView::fresh(ComponentType::Disconnector, name@),
            r@.wf(),
    {
        Component::new(ComponentType::Disconnector, name)
    }
}

/// Builds earthing switches: one terminal, a switch position.
pub struct EarthingSwitch;

impl EarthingSwitch {
    pub fn new(name: &str) -> (r: Component)
        ensures
            r@ == ComponentView::fresh(ComponentType::EarthingSwitch, name@),
            r@.wf(),
    {
        Component::new(ComponentType::EarthingSwitch, name)
    }
}

/// Builds voltage transformers: one terminal, a measurement.
pub struct VoltageTransformer;

impl VoltageTransformer {
    pub fn new(name: &str) -> (r: Component)
        ensures
            r@ == ComponentView::fresh(ComponentType::VoltageTransformer, name@),
            r@.wf(),
    {
        Component::new(ComponentType::VoltageTransformer, name)
    }
}

/// Builds transformers: three terminals, neither capability.
pub struct Transformer;

impl Transformer {
    pub fn new(name: &str) -> (r: Component)
        ensures
            r@ == ComponentView::fresh(ComponentType::Transformer, name@),
            r@.wf(),
    {
        Component::new(ComponentType::Transformer, name)
    }
}

} // verus!
