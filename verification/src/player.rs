//! The hero of the game: the clips cut from its sprite sheet, the blend tree
//! over them, and what the keys that are held do to that tree.

use crate::animate_player::{ClipView, FrameAnimate, PlayerView, SpriteAnimatePlayer};
use crate::animate_tree::nodes::{Control, NodeView, SpriteAnimateVec2};
use crate::animate_tree::{SpriteAnimateTree, TreeView};
use vstd::prelude::*;

verus! {

/// How long one frame of every clip of the hero lasts, in ticks of a
/// microsecond: a tenth of a second.
pub const FRAME_TICKS: u64 = 100_000;

/// A clip of the hero at rest on its first frame.
pub open spec fn strip(frames: Seq<usize>, is_loop: bool) -> ClipView {
    ClipView { frames, playhead: 0, is_loop, frame_time: FRAME_TICKS as int, carry: 0 }
}

/// The clips of the hero: for each of the four directions a run of six
/// frames and a single idle frame, which loop, and an attack of four frames,
/// which plays once.
pub open spec fn hero_clips() -> Map<Seq<char>, ClipView> {
    Map::<Seq<char>, ClipView>::empty().insert(
        "RunRight"@,
        strip(seq![0, 1, 2, 3, 4, 5], true),
    ).insert("AttackRight"@, strip(seq![24, 24, 26, 27], false)).insert(
        "IdleRight"@,
        strip(seq![0], true),
    ).insert("RunUp"@, strip(seq![6, 7, 8, 9, 10, 11], true)).insert(
        "AttackUp"@,
        strip(seq![28, 29, 30, 31], false),
    ).insert("IdleUp"@, strip(seq![6], true)).insert(
        "RunLeft"@,
        strip(seq![12, 13, 14, 15, 16, 17], true),
    ).insert("AttackLeft"@, strip(seq![32, 33, 34, 35], false)).insert(
        "IdleLeft"@,
        strip(seq![12], true),
    ).insert("RunDown"@, strip(seq![18, 19, 20, 21, 22, 23], true)).insert(
        "AttackDown"@,
        strip(seq![36, 37, 38, 39], false),
    ).insert("IdleDown"@, strip(seq![18], true))
}

/// A node with one sample for each of the four directions, one unit from
/// the origin, registered in the order left, down, right, up.
pub open spec fn compass(
    name: Seq<char>,
    left: Seq<char>,
    down: Seq<char>,
    right: Seq<char>,
    up: Seq<char>,
) -> NodeView {
    NodeView {
        name,
        samples: seq![
            (Control { x: -1i32, y: 0 }, left),
            (Control { x: 0, y: -1i32 }, down),
            (Control { x: 1, y: 0 }, right),
            (Control { x: 0, y: 1 }, up),
        ],
        control: Control { x: 0, y: 0 },
        next: None,
    }
}

/// The nodes of the hero's tree: running and idling, which stay, and
/// attacking, which goes over to idling.
pub open spec fn hero_nodes() -> Map<Seq<char>, NodeView> {
    Map::<Seq<char>, NodeView>::empty().insert(
        "Run"@,
        compass("Run"@, "RunLeft"@, "RunDown"@, "RunRight"@, "RunUp"@),
    ).insert("Idle"@, compass("Idle"@, "IdleLeft"@, "IdleDown"@, "IdleRight"@, "IdleUp"@)).insert(
        "Attack"@,
        NodeView {
            next: Some("Idle"@),
            ..compass("Attack"@, "AttackLeft"@, "AttackDown"@, "AttackRight"@, "AttackUp"@)
        },
    )
}

/// The hero's tree and player fit together: every clip that a node of the
/// tree can resolve to is a clip of the player, and every successor of a
/// node is a node of the tree.
pub proof fn lemma_hero_fits()
    ensures
        forall|node: Seq<char>, i: int|
            hero_nodes().contains_key(node) && 0 <= i < hero_nodes()[node].samples.len()
                ==> hero_clips().contains_key(#[trigger] hero_nodes()[node].samples[i].1),
        forall|node: Seq<char>| #[trigger]
            hero_nodes().contains_key(node) ==> hero_nodes().contains_key(
                hero_nodes()[node].successor(),
            ),
{
    let run = compass("Run"@, "RunLeft"@, "RunDown"@, "RunRight"@, "RunUp"@);
    let idle = compass("Idle"@, "IdleLeft"@, "IdleDown"@, "IdleRight"@, "IdleUp"@);
    let attack = NodeView {
        next: Some("Idle"@),
        ..compass("Attack"@, "AttackLeft"@, "AttackDown"@, "AttackRight"@, "AttackUp"@)
    };
    assert forall|node: Seq<char>| #[trigger] hero_nodes().contains_key(node) implies {
        let n = hero_nodes()[node];
        n == run || n == idle || n == attack
    } by {}
    assert forall|i: int| 0 <= i < 4 implies hero_clips().contains_key(
        #[trigger] run.samples[i].1,
    ) by {}
    assert forall|i: int| 0 <= i < 4 implies hero_clips().contains_key(
        #[trigger] idle.samples[i].1,
    ) by {}
    assert forall|i: int| 0 <= i < 4 implies hero_clips().contains_key(
        #[trigger] attack.samples[i].1,
    ) by {}
}

/// The keys of the hero that are held down.
#[derive(Clone, Copy, Debug, PartialEq, Eq, Structural)]
pub struct Keys {
    pub right: bool,
    pub left: bool,
    pub up: bool,
    pub down: bool,
    pub attack: bool,
}

/// What the keys ask of the hero's body.
#[derive(Clone, Copy, Debug, PartialEq, Eq, Structural)]
pub enum Motion {
    /// Stand still.
    Stop,
    /// Go on as before.
    Keep,
    /// Move in this direction.
    Head(Control),
}

/// One for a key that is held, zero for one that is not.
pub open spec fn pressed(key: bool) -> int {
    if key {
        1
    } else {
        0
    }
}

/// The direction that the four direction keys spell: right less left, up
/// less down.
pub open spec fn heading(keys: Keys) -> Control {
    Control {
        x: (pressed(keys.right) - pressed(keys.left)) as i32,
        y: (pressed(keys.up) - pressed(keys.down)) as i32,
    }
}

/// What the keys ask of the body: to stop for an attack, to head where the
/// direction keys point, to go on as before where they point nowhere.
pub open spec fn motion(keys: Keys) -> Motion {
    if keys.attack {
        Motion::Stop
    } else if heading(keys) != (Control { x: 0, y: 0 }) {
        Motion::Head(heading(keys))
    } else {
        Motion::Keep
    }
}

/// The tree after the keys have been read: it tracks the attack for an
/// attack; else, where the direction keys point somewhere, all three nodes
/// are handed the heading and the tree tracks the run; else it is as it was.
pub open spec fn steered(tree: TreeView, keys: Keys) -> TreeView {
    if keys.attack {
        tree.track("Attack"@)
    } else if heading(keys) != (Control { x: 0, y: 0 }) {
        tree.set_vec2("Run"@, heading(keys)).set_vec2("Idle"@, heading(keys)).set_vec2(
            "Attack"@,
            heading(keys),
        ).track("Run"@)
    } else {
        tree
    }
}

/// One for a key that is held, zero for one that is not.
pub fn boo_as_i32(key: bool) -> (r: i32)
    ensures
        r == pressed(key),
{
    if key {
        1
    } else {
        0
    }
}

/// Steers the hero's tree by the keys that are held, and says what they ask
/// of the body.
pub fn player_control(tree: &mut SpriteAnimateTree, keys: Keys) -> (r: Motion)
    ensures
        final(tree)@ == steered(old(tree)@, keys),
        r == motion(keys),
{
    if keys.attack {
        tree.track("Attack");
        Motion::Stop
    } else {
        let input = Control {
            x: boo_as_i32(keys.right) - boo_as_i32(keys.left),
            y: boo_as_i32(keys.up) - boo_as_i32(keys.down),
        };
        if input.x != 0 || input.y != 0 {
            tree.set_vec2("Run", input);
            tree.set_vec2("Idle", input);
            tree.set_vec2("Attack", input);
            tree.track("Run");
            Motion::Head(input)
        } else {
            Motion::Keep
        }
    }
}

/// The hero.
pub struct Player;

impl Player {
    /// One clip of the hero, at rest on its first frame.
    fn clip(indexs: Vec<usize>, is_loop: bool) -> (r: FrameAnimate)
        requires
            indexs.len() >= 1,
        ensures
            r@ == strip(indexs@, is_loop),
    {
        FrameAnimate::new(indexs, 0, is_loop, FRAME_TICKS).unwrap()
    }

    /// The hero's player: its twelve clips, idling to the right.
    pub fn animate_player() -> (r: SpriteAnimatePlayer)
        ensures
            r@ == (PlayerView { clips: hero_clips(), current: "IdleRight"@ }),
    {
        let mut player = SpriteAnimatePlayer::default();
        player.set_cul_animate("IdleRight");
        let run_right: Vec<usize> = vec![0, 1, 2, 3, 4, 5];
        assert(run_right@ =~= seq![0, 1, 2, 3, 4, 5]);
        player.add("RunRight", Self::clip(run_right, true));
        let attack_right: Vec<usize> = vec![24, 24, 26, 27];
        assert(attack_right@ =~= seq![24, 24, 26, 27]);
        player.add("AttackRight", Self::clip(attack_right, false));
        let idle_right: Vec<usize> = vec![0];
        assert(idle_right@ =~= seq![0]);
        player.add("IdleRight", Self::clip(idle_right, true));
        let run_up: Vec<usize> = vec![6, 7, 8, 9, 10, 11];
        assert(run_up@ =~= seq![6, 7, 8, 9, 10, 11]);
        player.add("RunUp", Self::clip(run_up, true));
        let attack_up: Vec<usize> = vec![28, 29, 30, 31];
        assert(attack_up@ =~= seq![28, 29, 30, 31]);
        player.add("AttackUp", Self::clip(attack_up, false));
        let idle_up: Vec<usize> = vec![6];
        assert(idle_up@ =~= seq![6]);
        player.add("IdleUp", Self::clip(idle_up, true));
        let run_left: Vec<usize> = vec![12, 13, 14, 15, 16, 17];
        assert(run_left@ =~= seq![12, 13, 14, 15, 16, 17]);
        player.add("RunLeft", Self::clip(run_left, true));
        let attack_left: Vec<usize> = vec![32, 33, 34, 35];
        assert(attack_left@ =~= seq![32, 33, 34, 35]);
        player.add("AttackLeft", Self::clip(attack_left, false));
        let idle_left: Vec<usize> = vec![12];
        assert(idle_left@ =~= seq![12]);
        player.add("IdleLeft", Self::clip(idle_left, true));
        let run_down: Vec<usize> = vec![18, 19, 20, 21, 22, 23];
        assert(run_down@ =~= seq![18, 19, 20, 21, 22, 23]);
        player.add("RunDown", Self::clip(run_down, true));
        let attack_down: Vec<usize> = vec![36, 37, 38, 39];
        assert(attack_down@ =~= seq![36, 37, 38, 39]);
        player.add("AttackDown", Self::clip(attack_down, false));
        let idle_down: Vec<usize> = vec![18];
        assert(idle_down@ =~= seq![18]);
        player.add("IdleDown", Self::clip(idle_down, true));
        player
    }

    /// One node of the hero's tree, with a clip for each direction.
    fn node(name: &str, left: &str, down: &str, right: &str, up: &str) -> (r: SpriteAnimateVec2)
        ensures
            r@ == compass(name@, left@, down@, right@, up@),
    {
        let mut node = SpriteAnimateVec2::default();
        node.add_frame_animate(left, Control { x: -1, y: 0 });
        node.add_frame_animate(down, Control { x: 0, y: -1 });
        node.add_frame_animate(right, Control { x: 1, y: 0 });
        node.add_frame_animate(up, Control { x: 0, y: 1 });
        node.set_node_name(name);
        assert(node@.samples =~= compass(name@, left@, down@, right@, up@).samples);
        node
    }

    /// The hero's tree: running, idling and attacking, with nothing
    /// tracked yet.
    pub fn animate_tree() -> (r: SpriteAnimateTree)
        ensures
            r@ == (TreeView { nodes: hero_nodes(), current: Seq::empty() }),
    {
        let mut tree = SpriteAnimateTree::default();
        let run_node = Self::node("Run", "RunLeft", "RunDown", "RunRight", "RunUp");
        tree.add_node(run_node);
        let idle_node = Self::node("Idle", "IdleLeft", "IdleDown", "IdleRight", "IdleUp");
        tree.add_node(idle_node);
        let mut attack_node = Self::node(
            "Attack",
            "AttackLeft",
            "AttackDown",
            "AttackRight",
            "AttackUp",
        );
        attack_node.set_next_node_name("Idle");
        tree.add_node(attack_node);
        tree
    }
}

} // verus!
