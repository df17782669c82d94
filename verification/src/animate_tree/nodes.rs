//! The directional blend node: it picks the clip whose sample direction lies
//! nearest to the control vector.

use vstd::prelude::*;

verus! {

/// A control vector, or the direction of a sample: a point of the integer
/// plane, on whatever scale the host feeds the tree.
#[derive(Clone, Copy, Debug, PartialEq, Eq, Structural)]
pub struct Control {
    pub x: i32,
    pub y: i32,
}

/// The squared Euclidean distance between two points.
pub open spec fn dist_sq(a: Control, b: Control) -> int {
    (a.x - b.x) * (a.x - b.x) + (a.y - b.y) * (a.y - b.y)
}

/// The name in an optional string, as a sequence of characters.
pub open spec fn name_view(name: Option<String>) -> Option<Seq<char>> {
    match name {
        Some(s) => Some(s@),
        None => None,
    }
}

/// What a directional node is, as plain mathematics: its name, its samples
/// in the order of their registration, the control vector last set, and the
/// successor it was given, if any.
pub struct NodeView {
    pub name: Seq<char>,
    pub samples: Seq<(Control, Seq<char>)>,
    pub control: Control,
    pub next: Option<Seq<char>>,
}

impl NodeView {
    /// The squared distance from the control vector to sample `i`.
    pub open spec fn distance(self, i: int) -> int {
        dist_sq(self.samples[i].0, self.control)
    }

    /// Sample `i` is the one that resolution picks: no sample lies nearer to
    /// the control vector, and every sample registered before it lies farther.
    pub open spec fn is_nearest(self, i: int) -> bool {
        &&& 0 <= i < self.samples.len()
        &&& forall|j: int|
            0 <= j < self.samples.len() ==> self.distance(i) <= #[trigger] self.distance(j)
        &&& forall|j: int| 0 <= j < i ==> self.distance(i) < #[trigger] self.distance(j)
    }

    /// The position of the sample that resolution picks.
    pub open spec fn nearest(self) -> int {
        choose|i: int| self.is_nearest(i)
    }

    /// The clip that the node stands for: that of the nearest sample, or
    /// nothing where the node has no sample.
    pub open spec fn resolve(self) -> Option<Seq<char>> {
        if self.samples.len() == 0 {
            None
        } else {
            Some(self.samples[self.nearest()].1)
        }
    }

    /// The node with its control vector back at the origin.
    pub open spec fn reset(self) -> NodeView {
        NodeView { control: Control { x: 0, y: 0 }, ..self }
    }

    /// The node with `control` as its control vector.
    pub open spec fn set_control(self, control: Control) -> NodeView {
        NodeView { control, ..self }
    }

    /// The node with one more sample, registered last.
    pub open spec fn add_sample(self, clip: Seq<char>, position: Control) -> NodeView {
        NodeView { samples: self.samples.push((position, clip)), ..self }
    }

    /// The node to go to when a one-shot clip of this node has run out: the
    /// successor it was given, or the node itself, which means staying.
    pub open spec fn successor(self) -> Seq<char> {
        match self.next {
            Some(next) => next,
            None => self.name,
        }
    }

    /// At most one sample is the nearest: resolution is deterministic.
    pub proof fn lemma_nearest_unique(self, i: int, j: int)
        requires
            self.is_nearest(i),
            self.is_nearest(j),
        ensures
            i == j,
    {
        if i < j {
            assert(self.distance(j) < self.distance(i));
            assert(self.distance(i) <= self.distance(j));
        } else if j < i {
            assert(self.distance(i) < self.distance(j));
            assert(self.distance(j) <= self.distance(i));
        }
    }

    /// Resolution is total: a node with a sample has a nearest one, and it is
    /// the one that `nearest` names.
    pub proof fn lemma_nearest_exists(self)
        requires
            self.samples.len() > 0,
        ensures
            self.is_nearest(self.nearest()),
    {
        let i = self.scan(self.samples.len() as int);
        self.lemma_scan(self.samples.len() as int);
        assert(self.is_nearest(i));
    }

    /// Resolution looks at the samples and the control vector and at nothing
    /// else: two nodes that agree on these resolve alike.
    pub proof fn lemma_resolve_reads(self, other: NodeView)
        requires
            self.samples == other.samples,
            self.control == other.control,
        ensures
            self.resolve() == other.resolve(),
    {
        if self.samples.len() > 0 {
            self.lemma_nearest_exists();
            other.lemma_nearest_exists();
            let i = self.nearest();
            assert(forall|j: int| self.distance(j) == other.distance(j));
            assert(other.is_nearest(i));
            other.lemma_nearest_unique(i, other.nearest());
        }
    }

    /// The first sample of least distance among the first `n` samples.
    pub open spec fn scan(self, n: int) -> int
        decreases n,
    {
        if n <= 1 {
            0
        } else {
            let best = self.scan(n - 1);
            if self.distance(n - 1) < self.distance(best) {
                n - 1
            } else {
                best
            }
        }
    }

    /// What `scan` finds is the first sample of least distance among those
    /// it looked at.
    pub proof fn lemma_scan(self, n: int)
        requires
            1 <= n <= self.samples.len(),
        ensures
            0 <= self.scan(n) < n,
            forall|j: int|
                0 <= j < n ==> self.distance(self.scan(n)) <= #[trigger] self.distance(j),
            forall|j: int|
                0 <= j < self.scan(n) ==> self.distance(self.scan(n)) < #[trigger] self.distance(j),
        decreases n,
    {
        if n > 1 {
            self.lemma_scan(n - 1);
        }
    }
}

/// A blend node that resolves a two-dimensional control vector to the clip
/// of the nearest sample direction.
#[derive(Debug)]
pub struct SpriteAnimateVec2 {
    node_name: String,
    frame_animates: Vec<(Control, String)>,
    cul_control: Control,
    next_node_name: Option<String>,
}

impl View for SpriteAnimateVec2 {
    type V = NodeView;

    closed spec fn view(&self) -> NodeView {
        NodeView {
            name: self.node_name@,
            samples: Seq::new(
                self.frame_animates@.len(),
                |i: int| (self.frame_animates@[i].0, self.frame_animates@[i].1@),
            ),
            control: self.cul_control,
            next: name_view(self.next_node_name),
        }
    }
}

impl Default for SpriteAnimateVec2 {
    /// A node without a name, a sample or a successor, with its control
    /// vector at the origin.
    fn default() -> (r: Self)
        ensures
            r@ == (NodeView {
                name: Seq::empty(),
                samples: Seq::empty(),
                control: Control { x: 0, y: 0 },
                next: None,
            }),
    {
        let r = SpriteAnimateVec2 {
            node_name: String::new(),
            frame_animates: Vec::new(),
            cul_control: Control { x: 0, y: 0 },
            next_node_name: None,
        };
        assert(r@.samples =~= Seq::empty());
        r
    }
}

/// The squared distance between two points, computed wide enough that it
/// cannot overflow.
pub fn distance_squared(a: Control, b: Control) -> (r: i128)
    ensures
        r == dist_sq(a, b),
{
    let dx: i128 = a.x as i128 - b.x as i128;
    let dy: i128 = a.y as i128 - b.y as i128;
    assert(0 <= dx * dx <= 0x1_0000_0000 * 0x1_0000_0000) by (nonlinear_arith)
        requires
            -0x1_0000_0000 <= dx <= 0x1_0000_0000,
    ;
    assert(0 <= dy * dy <= 0x1_0000_0000 * 0x1_0000_0000) by (nonlinear_arith)
        requires
            -0x1_0000_0000 <= dy <= 0x1_0000_0000,
    ;
    dx * dx + dy * dy
}

impl SpriteAnimateVec2 {
    /// Registers one more sample: the clip `frame_animate` at the direction
    /// `position`. It comes after the samples registered before.
    pub fn add_frame_animate(&mut self, frame_animate: &str, position: Control)
        ensures
            final(self)@ == old(self)@.add_sample(frame_animate@, position),
    {
        self.frame_animates.push((position, frame_animate.to_owned()));
        assert(self@.samples =~= old(self)@.samples.push((position, frame_animate@)));
    }

    /// Overwrites the control vector.
    pub fn set_control(&mut self, control: Control)
        ensures
            final(self)@ == old(self)@.set_control(control),
    {
        self.cul_control = control;
    }

    /// Names the node.
    pub fn set_node_name(&mut self, name: &str)
        ensures
            final(self)@ == (NodeView { name: name@, ..old(self)@ }),
    {
        self.node_name = name.to_owned();
    }

    /// The node's name.
    pub fn node_name(&self) -> (r: String)
        ensures
            r@ == self@.name,
    {
        self.node_name.clone()
    }

    /// Gives the node a successor.
    pub fn set_next_node_name(&mut self, node: &str)
        ensures
            final(self)@ == (NodeView { next: Some(node@), ..old(self)@ }),
    {
        self.next_node_name = Some(node.to_owned());
    }

    /// The successor that the node was given, or its own name where it was
    /// given none.
    pub fn next_node_name(&self) -> (r: String)
        ensures
            r@ == self@.successor(),
    {
        match &self.next_node_name {
            Some(next) => next.clone(),
            None => self.node_name.clone(),
        }
    }

    /// The control vector last set.
    pub fn control(&self) -> (r: Control)
        ensures
            r == self@.control,
    {
        self.cul_control
    }

    /// The clip of the sample nearest to the control vector, the earliest
    /// registered among equally near ones; nothing where there is no sample.
    pub fn get_frame_animate(&self) -> (r: Option<String>)
        ensures
            name_view(r) == self@.resolve(),
    {
        let n = self.frame_animates.len();
        if n == 0 {
            return None;
        }
        let mut min_index: usize = 0;
        let mut min: i128 = distance_squared(self.frame_animates[0].0, self.cul_control);
        let mut i: usize = 1;
        while i < n
            invariant
                1 <= i <= n,
                n == self.frame_animates.len(),
                n == self@.samples.len(),
                min_index < i,
                min == self@.distance(min_index as int),
                forall|j: int| 0 <= j < i ==> min <= #[trigger] self@.distance(j),
                forall|j: int| 0 <= j < min_index ==> min < #[trigger] self@.distance(j),
            decreases n - i,
        {
            let d = distance_squared(self.frame_animates[i].0, self.cul_control);
            if d < min {
                min_index = i;
                min = d;
            }
            i += 1;
        }
        proof {
            assert(self@.is_nearest(min_index as int));
            self@.lemma_nearest_unique(self@.nearest(), min_index as int);
        }
        Some(self.frame_animates[min_index].1.clone())
    }

    /// Puts the control vector back at the origin.
    pub fn reset(&mut self)
        ensures
            final(self)@ == old(self)@.reset(),
    {
        self.cul_control = Control { x: 0, y: 0 };
    }
}

} // verus!
