use vstd::prelude::*;
use vstd::string::*;

use crate::error::GridError;

verus! {

/// Handle of a component; two handles name the same component exactly when
/// they are equal.
#[derive(Debug, Clone, Copy, PartialEq, Eq, Structural)]
pub struct ComponentId(pub usize);

/// The abstract state of a node.
pub struct NodeView {
    pub name: Seq<char>,
    /// The components registered on the node, in order of registration.
    pub members: Seq<ComponentId>,
}

impl NodeView {
    /// No component is registered twice.
    pub open spec fn wf(self) -> bool {
        self.members.no_duplicates()
    }

    /// What `add_component(c)` does: the new state and the outcome.
    pub open spec fn add(self, c: ComponentId) -> (NodeView, Result<(), GridError>) {
        if self.members.contains(c) {
            (self, Err(GridError::DuplicateComponent))
        } else {
            (NodeView { members: self.members.push(c), ..self }, Ok(()))
        }
    }

    /// What `remove_component(c)` does: the new state and the outcome.
    pub open spec fn remove(self, c: ComponentId) -> (NodeView, Result<(), GridError>) {
        if self.members.contains(c) {
            (NodeView { members: self.members.remove(self.members.index_of(c)), ..self }, Ok(()))
        } else {
            (self, Err(GridError::ComponentNotFound))
        }
    }
}

/// An electrical node: a name and a registry of the components that callers
/// record as attached to it. The registry does not own the components.
#[derive(Debug)]
pub struct Node {
    name: String,
    members: Vec<ComponentId>,
}

impl View for Node {
    type V = NodeView;

    closed spec fn view(&self) -> NodeView {
        NodeView { name: self.name@, members: self.members@ }
    }
}

impl Node {
    /// A node named `name` with no component registered.
    pub fn new(name: &str) -> (r: Node)
        ensures
            r@.name == name@,
            r@.members == Seq::<ComponentId>::empty(),
            r@.wf(),
    {
        Node { name: name.to_owned(), members: Vec::new() }
    }

    pub fn name(&self) -> (r: &String)
        ensures
            r@ == self@.name,
    {
        &self.name
    }

    /// The registered components, in order of registration.
    pub fn components(&self) -> (r: &Vec<ComponentId>)
        ensures
            r@ == self@.members,
    {
        &self.members
    }

    /// Where `c` stands in the registry, if it is there.
    fn find(&self, c: ComponentId) -> (r: Option<usize>)
        ensures
            match r {
                Some(i) => i < self@.members.len() && self@.members[i as int] == c,
                None => !self@.members.contains(c),
            },
    {
        let mut i: usize = 0;
        while i < self.members.len()
            invariant
                i <= self.members@.len(),
                forall|j: int| 0 <= j < i ==> self.members@[j] != c,
            decreases self.members@.len() - i,
        {
            if self.members[i] == c {
                return Some(i);
            }
            i = i + 1;
        }
        None
    }

    /// Registers `c` at the end; `DuplicateComponent` when it is registered.
    pub fn add_component(&mut self, c: ComponentId) -> (r: Result<(), GridError>)
        requires
            old(self)@.wf(),
        ensures
            (final(self)@, r) == old(self)@.add(c),
            final(self)@.wf(),
    {
        match self.find(c) {
            Some(_) => Err(GridError::DuplicateComponent),
            None => {
                self.members.push(c);
                proof {
                    assert forall|i: int, j: int|
                        0 <= i < j < self.members@.len() implies self.members@[i]
                        != self.members@[j] by {
                        if j == self.members@.len() - 1 {
                            assert(old(self)@.members[i] == self.members@[i]);
                        }
                    }
                }
                Ok(())
            },
        }
    }

    /// Unregisters `c`, keeping the order of the rest; `ComponentNotFound`
    /// when it is not registered.
    pub fn remove_component(&mut self, c: ComponentId) -> (r: Result<(), GridError>)
        requires
            old(self)@.wf(),
        ensures
            (final(self)@, r) == old(self)@.remove(c),
            final(self)@.wf(),
    {
        match self.find(c) {
            Some(i) => {
                proof {
                    let k = old(self)@.members.index_of(c);
                    assert(old(self)@.members[k] == c);
                    assert(k == i);
                }
                self.members.remove(i);
                proof {
                    let m = old(self)@.members;
                    assert forall|a: int, b: int|
                        0 <= a < b < self.members@.len() implies self.members@[a]
                        != self.members@[b] by {
                        let a0 = if a < i { a } else { a + 1 };
                        let b0 = if b < i { b } else { b + 1 };
                        assert(self.members@[a] == m[a0]);
                        assert(self.members@[b] == m[b0]);
                    }
                }
                Ok(())
            },
            None => Err(GridError::ComponentNotFound),
        }
    }

    /// "Node <name>".
    pub fn describe(&self) -> (r: String)
        ensures
            r@ == "Node "@ + self@.name,
    {
        let mut s = "Node ".to_owned();
        s.append(self.name.as_str());
        s
    }
}

} // verus!
