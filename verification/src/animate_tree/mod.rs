//! The blend tree: named nodes, one of them tracked.

pub mod nodes;

pub use nodes::{Control, NodeView, SpriteAnimateVec2};

use crate::registry::{node_entries, NodeTable};
use nodes::name_view;
use vstd::prelude::*;

verus! {

/// What every blend node can do: tell its name and its successor, take a
/// control vector, resolve to a clip, and go back to its resting state.
pub trait SpriteAnimateNode {
    /// The node's name, as contracts see it.
    spec fn name(&self) -> Seq<char>;

    /// The node's successor, as contracts see it.
    spec fn successor(&self) -> Seq<char>;

    /// The clip that the node resolves to, as contracts see it.
    spec fn resolved(&self) -> Option<Seq<char>>;

    /// The name under which a tree keeps the node.
    fn node_name(&self) -> (r: String)
        ensures
            r@ == self.name(),
    ;

    /// Gives the node a successor. Its name and what it resolves to stay.
    fn set_next_node_name(&mut self, node: &str)
        ensures
            final(self).successor() == node@,
            final(self).name() == old(self).name(),
            final(self).resolved() == old(self).resolved(),
    ;

    /// The node to go to when a one-shot clip of this node has run out; the
    /// node's own name means staying.
    fn next_node_name(&self) -> (r: String)
        ensures
            r@ == self.successor(),
    ;

    /// The clip that the node stands for at present, if any.
    fn get_frame_animate(&self) -> (r: Option<String>)
        ensures
            name_view(r) == self.resolved(),
    ;

    /// Takes a control vector. A node that has no use for one ignores it.
    /// Name and successor stay.
    fn set_vec2(&mut self, _value: Control)
        ensures
            final(self).name() == old(self).name(),
            final(self).successor() == old(self).successor(),
    {
    }

    /// Goes back to the resting state. Name and successor stay.
    fn reset(&mut self)
        ensures
            final(self).name() == old(self).name(),
            final(self).successor() == old(self).successor(),
    ;
}

impl SpriteAnimateNode for SpriteAnimateVec2 {
    open spec fn name(&self) -> Seq<char> {
        self@.name
    }

    open spec fn successor(&self) -> Seq<char> {
        self@.successor()
    }

    open spec fn resolved(&self) -> Option<Seq<char>> {
        self@.resolve()
    }

    fn node_name(&self) -> (r: String) {
        SpriteAnimateVec2::node_name(self)
    }

    fn set_next_node_name(&mut self, node: &str)
        ensures
            final(self)@ == (NodeView { next: Some(node@), ..old(self)@ }),
    {
        SpriteAnimateVec2::set_next_node_name(self, node);
        proof {
            old(self)@.lemma_resolve_reads(self@);
        }
    }

    fn next_node_name(&self) -> (r: String) {
        SpriteAnimateVec2::next_node_name(self)
    }

    fn get_frame_animate(&self) -> (r: Option<String>) {
        SpriteAnimateVec2::get_frame_animate(self)
    }

    fn set_vec2(&mut self, control: Control)
        ensures
            final(self)@ == old(self)@.set_control(control),
    {
        self.set_control(control)
    }

    fn reset(&mut self)
        ensures
            final(self)@ == old(self)@.reset(),
    {
        SpriteAnimateVec2::reset(self)
    }
}

/// What a blend tree is, as plain mathematics: its nodes under their names,
/// and the name of the node that is tracked. A name that no node stands under
/// means that no node is active.
pub struct TreeView {
    pub nodes: Map<Seq<char>, NodeView>,
    pub current: Seq<char>,
}

impl TreeView {
    /// The tracked node, if the current name leads to one.
    pub open spec fn active(self) -> Option<NodeView> {
        if self.nodes.contains_key(self.current) {
            Some(self.nodes[self.current])
        } else {
            None
        }
    }

    /// The tree with `node` registered under the node's own name.
    pub open spec fn add_node(self, node: NodeView) -> TreeView {
        TreeView { nodes: self.nodes.insert(node.name, node), ..self }
    }

    /// The tree without the node under `name`.
    pub open spec fn remove(self, name: Seq<char>) -> TreeView {
        TreeView { nodes: self.nodes.remove(name), ..self }
    }

    /// The tree with `control` handed to the node under `name`, tracked or
    /// not; unchanged where there is no such node.
    pub open spec fn set_vec2(self, name: Seq<char>, control: Control) -> TreeView {
        if self.nodes.contains_key(name) {
            TreeView {
                nodes: self.nodes.insert(name, self.nodes[name].set_control(control)),
                ..self
            }
        } else {
            self
        }
    }

    /// The tree with the tracked node put to rest, if there is one.
    pub open spec fn rest(self) -> TreeView {
        match self.active() {
            Some(node) => TreeView { nodes: self.nodes.insert(self.current, node.reset()), ..self },
            None => self,
        }
    }

    /// The tree tracking `name`. Where that is a change, the node that is
    /// left is put to rest; the node that is entered is not touched.
    pub open spec fn track(self, name: Seq<char>) -> TreeView {
        if self.current == name {
            self
        } else {
            TreeView { current: name, ..self.rest() }
        }
    }

    /// The clip that the tracked node resolves to, if any.
    pub open spec fn frame_animate(self) -> Option<Seq<char>> {
        match self.active() {
            Some(node) => node.resolve(),
            None => None,
        }
    }

    /// The successor of the tracked node, if a node is tracked.
    pub open spec fn next_node(self) -> Option<Seq<char>> {
        match self.active() {
            Some(node) => Some(node.successor()),
            None => None,
        }
    }

    /// Leaving a node for another puts the one that is left to rest and no
    /// other: a control vector handed to the target beforehand is still there
    /// afterwards, and every third node is as it was.
    pub proof fn lemma_track_rests_only_the_left(
        self,
        target: Seq<char>,
        control: Control,
        other: Seq<char>,
    )
        requires
            self.current != target,
            self.nodes.contains_key(target),
        ensures
            self.set_vec2(target, control).track(target).current == target,
            self.set_vec2(target, control).track(target).nodes[target]
                == self.nodes[target].set_control(control),
            self.nodes.contains_key(self.current) ==> self.set_vec2(target, control).track(
                target,
            ).nodes[self.current] == self.nodes[self.current].reset(),
            self.nodes.contains_key(other) && other != target && other != self.current
                ==> self.set_vec2(target, control).track(target).nodes[other] == self.nodes[other],
            self.set_vec2(target, control).track(target).nodes.dom() == self.nodes.dom(),
    {
        let t = self.set_vec2(target, control).track(target);
        assert(t.nodes.dom() =~= self.nodes.dom());
    }

    /// Tracking the node that is tracked already changes nothing, so a node
    /// is put to rest once when it is left and not again.
    pub proof fn lemma_track_again(self, name: Seq<char>)
        ensures
            self.track(name).track(name) == self.track(name),
    {
    }
}

/// The blend tree of one entity: named nodes, one of them tracked.
#[derive(Debug)]
pub struct SpriteAnimateTree {
    nodes: NodeTable,
    cul_node: String,
}

impl View for SpriteAnimateTree {
    type V = TreeView;

    closed spec fn view(&self) -> TreeView {
        TreeView { nodes: node_entries(self.nodes), current: self.cul_node@ }
    }
}

impl Default for SpriteAnimateTree {
    /// A tree without nodes that tracks nothing.
    fn default() -> (r: Self)
        ensures
            r@.nodes == Map::<Seq<char>, NodeView>::empty(),
            r@.current == Seq::<char>::empty(),
    {
        SpriteAnimateTree { nodes: NodeTable::new(), cul_node: String::new() }
    }
}

impl SpriteAnimateTree {
    /// Registers `node` under its own name, in place of whatever stood there.
    pub fn add_node(&mut self, node: SpriteAnimateVec2)
        ensures
            final(self)@ == old(self)@.add_node(node@),
    {
        let name = node.node_name();
        self.nodes.insert(name, node);
    }

    /// Hands `control` to the node under `name`, whether it is tracked or
    /// not. Nothing changes where there is no such node.
    pub fn set_vec2(&mut self, name: &str, control: Control)
        ensures
            final(self)@ == old(self)@.set_vec2(name@, control),
    {
        match self.nodes.get_mut(name) {
            Some(node) => {
                node.set_control(control);
            },
            None => {},
        }
    }

    /// Tracks `node`. Where another node was tracked, that one is put to rest
    /// first.
    pub fn track(&mut self, node: &str)
        ensures
            final(self)@ == old(self)@.track(node@),
    {
        let name = node.to_owned();
        if !(self.cul_node == name) {
            let tmp = self.cul_node.clone();
            match self.nodes.get_mut(tmp.as_str()) {
                Some(left) => {
                    left.reset();
                },
                None => {},
            }
            self.cul_node = name;
        }
    }

    /// The name of the tracked node; empty where none was ever tracked.
    pub fn cul_node(&self) -> (r: &str)
        ensures
            r@ == self@.current,
    {
        self.cul_node.as_str()
    }

    /// The node registered under `name`, or nothing.
    pub fn get(&self, name: &str) -> (r: Option<&SpriteAnimateVec2>)
        ensures
            r.is_some() == self@.nodes.contains_key(name@),
            r matches Some(node) ==> node@ == self@.nodes[name@],
    {
        self.nodes.get(name)
    }

    /// Takes the node under `name` out of the tree and hands it over, where
    /// there is one. The tracked name stays, so taking out the tracked node
    /// leaves no node active.
    pub fn remove(&mut self, name: &str) -> (r: Option<SpriteAnimateVec2>)
        ensures
            final(self)@ == old(self)@.remove(name@),
            r.is_some() == old(self)@.nodes.contains_key(name@),
            r matches Some(node) ==> node@ == old(self)@.nodes[name@],
    {
        self.nodes.remove(name)
    }

    /// The clip that the tracked node resolves to; nothing where no node is
    /// tracked or the tracked node has no sample.
    pub fn get_frame_animate(&self) -> (r: Option<String>)
        ensures
            name_view(r) == self@.frame_animate(),
    {
        match self.nodes.get(self.cul_node.as_str()) {
            Some(node) => node.get_frame_animate(),
            None => None,
        }
    }

    /// The successor of the tracked node; nothing where no node is tracked.
    pub fn get_next_node(&self) -> (r: Option<String>)
        ensures
            name_view(r) == self@.next_node(),
    {
        match self.nodes.get(self.cul_node.as_str()) {
            Some(node) => Some(node.next_node_name()),
            None => None,
        }
    }
}

} // verus!
