use sprite_animate_player::animate_tree::nodes::distance_squared;
use sprite_animate_player::{
    follow_tree, Control, FrameAnimate, SpriteAnimateNode, SpriteAnimatePlayer, SpriteAnimateTree,
    SpriteAnimateVec2,
};

fn at(x: i32, y: i32) -> Control {
    Control { x, y }
}

fn compass(name: &str, prefix: &str) -> SpriteAnimateVec2 {
    let mut node = SpriteAnimateVec2::default();
    node.add_frame_animate(&format!("{}Left", prefix), at(-1000, 0));
    node.add_frame_animate(&format!("{}Down", prefix), at(0, -1000));
    node.add_frame_animate(&format!("{}Right", prefix), at(1000, 0));
    node.add_frame_animate(&format!("{}Up", prefix), at(0, 1000));
    node.set_node_name(name);
    node
}

fn letters() -> SpriteAnimateVec2 {
    let mut node = SpriteAnimateVec2::default();
    node.add_frame_animate("L", at(-10, 0));
    node.add_frame_animate("D", at(0, -10));
    node.add_frame_animate("R", at(10, 0));
    node.add_frame_animate("U", at(0, 10));
    node
}

#[test]
fn distance_squared_is_exact() {
    assert_eq!(distance_squared(at(1000, 0), at(900, 100)), 20_000);
    assert_eq!(distance_squared(at(3, 4), at(0, 0)), 25);
    assert_eq!(distance_squared(at(-2, 7), at(-2, 7)), 0);
    assert_eq!(
        distance_squared(at(i32::MAX, i32::MIN), at(i32::MIN, i32::MAX)),
        2 * (u32::MAX as i128) * (u32::MAX as i128)
    );
}

#[test]
fn node_resolves_to_the_nearest_sample() {
    let mut node = letters();
    node.set_control(at(9, 1));
    assert_eq!(node.get_frame_animate(), Some("R".to_string()));
    node.set_control(at(-1, 8));
    assert_eq!(node.get_frame_animate(), Some("U".to_string()));
    node.set_control(at(-3, -4));
    assert_eq!(node.get_frame_animate(), Some("D".to_string()));
}

#[test]
fn node_at_the_origin_resolves_to_the_first_sample() {
    let mut node = letters();
    node.set_control(at(0, 0));
    assert_eq!(node.get_frame_animate(), Some("L".to_string()));
    let fresh = letters();
    assert_eq!(fresh.get_frame_animate(), Some("L".to_string()));
}

#[test]
fn node_breaks_a_tie_by_registration_order() {
    let mut node = letters();
    node.set_control(at(5, 5));
    assert_eq!(node.get_frame_animate(), Some("R".to_string()));
    node.set_control(at(5, -5));
    assert_eq!(node.get_frame_animate(), Some("D".to_string()));

    let mut twice = SpriteAnimateVec2::default();
    twice.add_frame_animate("far", at(50, 50));
    twice.add_frame_animate("first", at(1, 1));
    twice.add_frame_animate("second", at(1, 1));
    twice.set_control(at(1, 2));
    assert_eq!(twice.get_frame_animate(), Some("first".to_string()));
}

#[test]
fn node_without_samples_resolves_to_nothing() {
    let mut node = SpriteAnimateVec2::default();
    assert_eq!(node.get_frame_animate(), None);
    node.set_control(at(3, 3));
    assert_eq!(node.get_frame_animate(), None);
}

#[test]
fn node_with_far_apart_points_does_not_overflow() {
    let mut node = SpriteAnimateVec2::default();
    node.add_frame_animate("low", at(i32::MIN, i32::MIN));
    node.add_frame_animate("high", at(i32::MAX, i32::MAX));
    node.set_control(at(i32::MAX, i32::MAX - 1));
    assert_eq!(node.get_frame_animate(), Some("high".to_string()));
    // as far from the one as from the other: the earlier sample wins
    node.set_control(at(i32::MIN, i32::MAX));
    assert_eq!(node.get_frame_animate(), Some("low".to_string()));
    node.set_control(at(i32::MIN + 1, i32::MAX));
    assert_eq!(node.get_frame_animate(), Some("high".to_string()));
    node.set_control(at(-1, -1));
    assert_eq!(node.get_frame_animate(), Some("low".to_string()));
}

#[test]
fn node_reset_puts_the_control_at_the_origin() {
    let mut node = letters();
    node.set_control(at(0, 9));
    assert_eq!(node.control(), at(0, 9));
    node.reset();
    assert_eq!(node.control(), at(0, 0));
    assert_eq!(node.get_frame_animate(), Some("L".to_string()));
}

#[test]
fn node_without_a_successor_names_itself() {
    let mut node = SpriteAnimateVec2::default();
    node.set_node_name("Idle");
    assert_eq!(node.node_name(), "Idle");
    assert_eq!(node.next_node_name(), "Idle");
    node.set_next_node_name("Run");
    assert_eq!(node.next_node_name(), "Run");
    assert_eq!(node.node_name(), "Idle");
}

#[test]
fn node_through_the_trait_behaves_the_same() {
    let mut node = letters();
    SpriteAnimateNode::set_vec2(&mut node, at(0, -7));
    assert_eq!(SpriteAnimateNode::get_frame_animate(&node), Some("D".to_string()));
    SpriteAnimateNode::reset(&mut node);
    assert_eq!(node.control(), at(0, 0));
    node.set_node_name("Attack");
    assert_eq!(SpriteAnimateNode::next_node_name(&node), "Attack");
    SpriteAnimateNode::set_next_node_name(&mut node, "Idle");
    assert_eq!(SpriteAnimateNode::next_node_name(&node), "Idle");
    assert_eq!(SpriteAnimateNode::node_name(&node), "Attack");
}

#[test]
fn default_tree_tracks_nothing() {
    let tree = SpriteAnimateTree::default();
    assert_eq!(tree.cul_node(), "");
    assert_eq!(tree.get_frame_animate(), None);
    assert_eq!(tree.get_next_node(), None);
    assert!(tree.get("Run").is_none());
}

#[test]
fn tree_resolves_through_the_tracked_node() {
    let mut tree = SpriteAnimateTree::default();
    tree.add_node(compass("Run", "Run"));
    tree.add_node(compass("Idle", "Idle"));
    assert_eq!(tree.get_frame_animate(), None);
    tree.track("Run");
    tree.set_vec2("Run", at(900, 100));
    assert_eq!(tree.get_frame_animate(), Some("RunRight".to_string()));
    assert_eq!(tree.get_next_node(), Some("Run".to_string()));
    tree.track("Swim");
    assert_eq!(tree.cul_node(), "Swim");
    assert_eq!(tree.get_frame_animate(), None);
    assert_eq!(tree.get_next_node(), None);
}

#[test]
fn tree_add_node_overwrites_a_node_of_the_same_name() {
    let mut tree = SpriteAnimateTree::default();
    tree.add_node(compass("Run", "Run"));
    tree.add_node(compass("Run", "Walk"));
    tree.track("Run");
    assert_eq!(tree.get_frame_animate(), Some("WalkLeft".to_string()));
}

#[test]
fn tree_set_vec2_on_an_unknown_node_changes_nothing() {
    let mut tree = SpriteAnimateTree::default();
    tree.add_node(compass("Run", "Run"));
    tree.track("Run");
    tree.set_vec2("Swim", at(0, 1000));
    assert_eq!(tree.get("Run").unwrap().control(), at(0, 0));
    assert!(tree.get("Swim").is_none());
}

#[test]
fn track_rests_the_node_that_is_left_and_not_the_one_entered() {
    let mut tree = SpriteAnimateTree::default();
    tree.add_node(compass("A", "A"));
    tree.add_node(compass("B", "B"));
    tree.add_node(compass("C", "C"));
    tree.track("A");
    tree.set_vec2("A", at(0, 1000));
    tree.set_vec2("B", at(1000, 0));
    tree.set_vec2("C", at(0, -1000));
    assert_eq!(tree.get_frame_animate(), Some("AUp".to_string()));
    tree.track("B");
    assert_eq!(tree.cul_node(), "B");
    assert_eq!(tree.get("A").unwrap().control(), at(0, 0));
    assert_eq!(tree.get("B").unwrap().control(), at(1000, 0));
    assert_eq!(tree.get("C").unwrap().control(), at(0, -1000));
    assert_eq!(tree.get_frame_animate(), Some("BRight".to_string()));
}

#[test]
fn track_the_tracked_node_again_rests_nothing() {
    let mut tree = SpriteAnimateTree::default();
    tree.add_node(compass("A", "A"));
    tree.track("A");
    tree.set_vec2("A", at(0, 1000));
    tree.track("A");
    assert_eq!(tree.get("A").unwrap().control(), at(0, 1000));
    assert_eq!(tree.get_frame_animate(), Some("AUp".to_string()));
}

fn hero() -> (SpriteAnimatePlayer, SpriteAnimateTree) {
    let mut player = SpriteAnimatePlayer::default();
    player.add("AttackRight", FrameAnimate::new(vec![24, 25, 26, 27], 0, false, 100).unwrap());
    player.add("IdleRight", FrameAnimate::new(vec![0], 0, true, 100).unwrap());
    player.add("IdleLeft", FrameAnimate::new(vec![12], 0, true, 100).unwrap());
    player.add("RunRight", FrameAnimate::new(vec![0, 1, 2, 3, 4, 5], 0, true, 100).unwrap());
    let mut tree = SpriteAnimateTree::default();
    tree.add_node(compass("Run", "Run"));
    tree.add_node(compass("Idle", "Idle"));
    let mut attack = compass("Attack", "Attack");
    attack.set_next_node_name("Idle");
    tree.add_node(attack);
    (player, tree)
}

#[test]
fn follow_tree_plays_what_the_tree_resolves_to() {
    let (mut player, mut tree) = hero();
    follow_tree(&mut player, &mut tree);
    assert_eq!(player.cul_animate(), "");
    tree.set_vec2("Run", at(1000, 0));
    tree.track("Run");
    follow_tree(&mut player, &mut tree);
    assert_eq!(player.cul_animate(), "RunRight");
    assert_eq!(tree.cul_node(), "Run");
    player.update(250).unwrap();
    follow_tree(&mut player, &mut tree);
    assert_eq!(player.get_frame_index(), Some(2));
    assert_eq!(player.get_frame().unwrap().delta_time(), 50);
}

#[test]
fn follow_tree_moves_on_when_a_one_shot_clip_has_run_out() {
    let (mut player, mut tree) = hero();
    tree.set_vec2("Attack", at(1000, 0));
    tree.set_vec2("Idle", at(1000, 0));
    tree.track("Attack");
    follow_tree(&mut player, &mut tree);
    assert_eq!(player.cul_animate(), "AttackRight");
    player.update(200).unwrap();
    follow_tree(&mut player, &mut tree);
    assert_eq!(tree.cul_node(), "Attack");
    assert_eq!(player.get_frame_index(), Some(26));
    player.update(100).unwrap();
    assert!(player.get_frame().unwrap().is_end());
    follow_tree(&mut player, &mut tree);
    assert_eq!(tree.cul_node(), "Idle");
    assert_eq!(player.cul_animate(), "IdleRight");
    assert_eq!(player.get_frame_index(), Some(0));
    // the node that was left is at rest, the one entered kept its control
    assert_eq!(tree.get("Attack").unwrap().control(), at(0, 0));
    assert_eq!(tree.get("Idle").unwrap().control(), at(1000, 0));
}

#[test]
fn follow_tree_stays_on_a_looping_clip_at_its_last_frame() {
    let (mut player, mut tree) = hero();
    tree.set_vec2("Run", at(1000, 0));
    tree.track("Run");
    follow_tree(&mut player, &mut tree);
    player.update(500).unwrap();
    assert!(player.get_frame().unwrap().is_end());
    follow_tree(&mut player, &mut tree);
    assert_eq!(tree.cul_node(), "Run");
    assert_eq!(player.get_frame_index(), Some(5));
}

#[test]
fn tree_remove_hands_the_node_over_and_leaves_the_others() {
    let mut tree = SpriteAnimateTree::default();
    tree.add_node(compass("Run", "Run"));
    tree.add_node(compass("Idle", "Idle"));
    tree.set_vec2("Run", at(0, 1000));
    tree.track("Run");
    assert!(tree.remove("Swim").is_none());
    let taken = tree.remove("Run").unwrap();
    assert_eq!(taken.node_name(), "Run");
    assert_eq!(taken.control(), at(0, 1000));
    assert!(tree.get("Run").is_none());
    assert!(tree.get("Idle").is_some());
    assert_eq!(tree.cul_node(), "Run");
    assert_eq!(tree.get_frame_animate(), None);
    assert_eq!(tree.get_next_node(), None);
    // leaving a name that leads nowhere rests nothing
    tree.set_vec2("Idle", at(1000, 0));
    tree.track("Idle");
    assert_eq!(tree.get("Idle").unwrap().control(), at(1000, 0));
}
