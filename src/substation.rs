use vstd::prelude::*;

use crate::component::{Component, ComponentView};
use crate::error::GridError;
use crate::node::{ComponentId, Node, NodeView};
use crate::terminal::NodeId;

verus! {

/// The abstract state of a substation: its nodes and components, each at
/// the index that its handle holds.
pub struct SubstationView {
    pub nodes: Seq<NodeView>,
    pub components: Seq<ComponentView>,
}

impl SubstationView {
    pub open spec fn wf(self) -> bool {
        &&& forall|i: int| 0 <= i < self.nodes.len() ==> (#[trigger] self.nodes[i]).wf()
        &&& forall|i: int| 0 <= i < self.components.len() ==> (#[trigger] self.components[i]).wf()
    }

    pub open spec fn has_node(self, n: NodeId) -> bool {
        n.0 < self.nodes.len()
    }

    pub open spec fn has_component(self, c: ComponentId) -> bool {
        c.0 < self.components.len()
    }

    /// The substation with component `c` replaced by `v`.
    pub open spec fn with_component(self, c: ComponentId, v: ComponentView) -> SubstationView {
        SubstationView { components: self.components.update(c.0 as int, v), ..self }
    }

    /// The substation with node `n` replaced by `v`.
    pub open spec fn with_node(self, n: NodeId, v: NodeView) -> SubstationView {
        SubstationView { nodes: self.nodes.update(n.0 as int, v), ..self }
    }
}

/// Owns the nodes and components of one substation and hands out the
/// handles by which they refer to each other. A handle is an index into
/// this arena, so two distinct entities never share one, whatever their
/// names.
#[derive(Debug)]
pub struct Substation {
    nodes: Vec<Node>,
    components: Vec<Component>,
}

impl View for Substation {
    type V = SubstationView;

    closed spec fn view(&self) -> SubstationView {
        SubstationView {
            nodes: self.nodes@.map_values(|n: Node| n@),
            components: self.components@.map_values(|c: Component| c@),
        }
    }
}

impl Substation {
    pub fn new() -> (r: Substation)
        ensures
            r@.nodes == Seq::<NodeView>::empty(),
            r@.components == Seq::<ComponentView>::empty(),
            r@.wf(),
    {
        let r = Substation { nodes: Vec::new(), components: Vec::new() };
        assert(r@.nodes =~= Seq::<NodeView>::empty());
        assert(r@.components =~= Seq::<ComponentView>::empty());
        r
    }

    /// Adds a node named `name` and returns its handle.
    pub fn add_node(&mut self, name: &str) -> (id: NodeId)
        requires
            old(self)@.wf(),
            old(self)@.nodes.len() < usize::MAX,
        ensures
            id.0 == old(self)@.nodes.len(),
            final(self)@.nodes == old(self)@.nodes.push(
                NodeView { name: name@, members: Seq::<ComponentId>::empty() },
            ),
            final(self)@.components == old(self)@.components,
            final(self)@.wf(),
    {
        let id = NodeId(self.nodes.len());
        self.nodes.push(Node::new(name));
        proof {
            let want = old(self)@.nodes.push(
                NodeView { name: name@, members: Seq::<ComponentId>::empty() },
            );
            assert(self@.nodes =~= want);
            assert(self@.components =~= old(self)@.components);
        }
        id
    }

    /// Takes ownership of `c` and returns its handle.
    pub fn add_component(&mut self, c: Component) -> (id: ComponentId)
        requires
            old(self)@.wf(),
            old(self)@.components.len() < usize::MAX,
            c@.wf(),
        ensures
            id.0 == old(self)@.components.len(),
            final(self)@.components == old(self)@.components.push(c@),
            final(self)@.nodes == old(self)@.nodes,
            final(self)@.wf(),
    {
        let id = ComponentId(self.components.len());
        let ghost cv = c@;
        self.components.push(c);
        proof {
            assert(self@.components =~= old(self)@.components.push(cv));
            assert(self@.nodes =~= old(self)@.nodes);
        }
        id
    }

    /// The node with handle `n`, if this substation made it.
    pub fn node(&self, n: NodeId) -> (r: Option<&Node>)
        ensures
            self@.has_node(n) ==> (r matches Some(x) && x@ == self@.nodes[n.0 as int]),
            !self@.has_node(n) ==> r is None,
    {
        if n.0 < self.nodes.len() {
            Some(&self.nodes[n.0])
        } else {
            None
        }
    }

    /// The component with handle `c`, if this substation holds it.
    pub fn component(&self, c: ComponentId) -> (r: Option<&Component>)
        ensures
            self@.has_component(c) ==> (r matches Some(x) && x@ == self@.components[c.0 as int]),
            !self@.has_component(c) ==> r is None,
    {
        if c.0 < self.components.len() {
            Some(&self.components[c.0])
        } else {
            None
        }
    }

    /// Wires terminal `terminal_index` of component `c` to node `n`, as
    /// `Component::connect` does. The node's registry is left alone.
    pub fn connect(&mut self, c: ComponentId, n: NodeId, terminal_index: usize) -> (r: Result<(), GridError>)
        requires
            old(self)@.wf(),
            old(self)@.has_component(c),
            old(self)@.has_node(n),
        ensures
            ({
                let (v, res) = old(self)@.components[c.0 as int].connect(n, terminal_index as int);
                final(self)@ == old(self)@.with_component(c, v) && r == res
            }),
            final(self)@.wf(),
    {
        let r = self.components[c.0].connect(n, terminal_index);
        proof { self.component_changed(old(self)@, c); }
        r
    }

    /// Lets go of node `n` on component `c`, as `Component::disconnect` does.
    /// The node's registry is left alone.
    pub fn disconnect(&mut self, c: ComponentId, n: NodeId) -> (r: Result<(), GridError>)
        requires
            old(self)@.wf(),
            old(self)@.has_component(c),
        ensures
            ({
                let (v, res) = old(self)@.components[c.0 as int].disconnect(n);
                final(self)@ == old(self)@.with_component(c, v) && r == res
            }),
            final(self)@.wf(),
    {
        let r = self.components[c.0].disconnect(n);
        proof { self.component_changed(old(self)@, c); }
        r
    }

    /// Opens the switch of component `c`, as `Component::open` does.
    pub fn open(&mut self, c: ComponentId) -> (r: Result<(), GridError>)
        requires
            old(self)@.wf(),
            old(self)@.has_component(c),
        ensures
            ({
                let (v, res) = old(self)@.components[c.0 as int].open();
                final(self)@ == old(self)@.with_component(c, v) && r == res
            }),
            final(self)@.wf(),
    {
        let r = self.components[c.0].open();
        proof { self.component_changed(old(self)@, c); }
        r
    }

    /// Closes the switch of component `c`, as `Component::close` does.
    pub fn close(&mut self, c: ComponentId) -> (r: Result<(), GridError>)
        requires
            old(self)@.wf(),
            old(self)@.has_component(c),
        ensures
            ({
                let (v, res) = old(self)@.components[c.0 as int].close();
                final(self)@ == old(self)@.with_component(c, v) && r == res
            }),
            final(self)@.wf(),
    {
        let r = self.components[c.0].close();
        proof { self.component_changed(old(self)@, c); }
        r
    }

    /// Stores a reading on component `c`, as `Component::update` does.
    pub fn update(&mut self, c: ComponentId, bits: u64) -> (r: Result<(), GridError>)
        requires
            old(self)@.wf(),
            old(self)@.has_component(c),
        ensures
            ({
                let (v, res) = old(self)@.components[c.0 as int].update(bits);
                final(self)@ == old(self)@.with_component(c, v) && r == res
            }),
            final(self)@.wf(),
    {
        let r = self.components[c.0].update(bits);
        proof { self.component_changed(old(self)@, c); }
        r
    }

    /// Records component `c` in the registry of node `n`, as
    /// `Node::add_component` does. The component's terminals are left alone.
    pub fn attach(&mut self, n: NodeId, c: ComponentId) -> (r: Result<(), GridError>)
        requires
            old(self)@.wf(),
            old(self)@.has_node(n),
            old(self)@.has_component(c),
        ensures
            ({
                let (v, res) = old(self)@.nodes[n.0 as int].add(c);
                final(self)@ == old(self)@.with_node(n, v) && r == res
            }),
            final(self)@.wf(),
    {
        let r = self.nodes[n.0].add_component(c);
        proof { self.node_changed(old(self)@, n); }
        r
    }

    /// Takes component `c` out of the registry of node `n`, as
    /// `Node::remove_component` does. The component's terminals are left alone.
    pub fn detach(&mut self, n: NodeId, c: ComponentId) -> (r: Result<(), GridError>)
        requires
            old(self)@.wf(),
            old(self)@.has_node(n),
        ensures
            ({
                let (v, res) = old(self)@.nodes[n.0 as int].remove(c);
                final(self)@ == old(self)@.with_node(n, v) && r == res
            }),
            final(self)@.wf(),
    {
        let r = self.nodes[n.0].remove_component(c);
        proof { self.node_changed(old(self)@, n); }
        r
    }

    /// After component `c` alone changed, the view is `before` with it
    /// replaced.
    proof fn component_changed(&self, before: SubstationView, c: ComponentId)
        requires
            c.0 < self.components@.len(),
            self.nodes@.map_values(|n: Node| n@) == before.nodes,
            self.components@.len() == before.components.len(),
            forall|i: int|
                0 <= i < before.components.len() && i != c.0 ==> self.components@[i]@
                    == before.components[i],
        ensures
            self@ == before.with_component(c, self.components@[c.0 as int]@),
    {
        assert(self@.components =~= before.components.update(
            c.0 as int,
            self.components@[c.0 as int]@,
        ));
    }

    /// After node `n` alone changed, the view is `before` with it replaced.
    proof fn node_changed(&self, before: SubstationView, n: NodeId)
        requires
            n.0 < self.nodes@.len(),
            self.components@.map_values(|c: Component| c@) == before.components,
            self.nodes@.len() == before.nodes.len(),
            forall|i: int|
                0 <= i < before.nodes.len() && i != n.0 ==> self.nodes@[i]@ == before.nodes[i],
        ensures
            self@ == before.with_node(n, self.nodes@[n.0 as int]@),
    {
        assert(self@.nodes =~= before.nodes.update(n.0 as int, self.nodes@[n.0 as int]@));
    }
}

} // verus!
