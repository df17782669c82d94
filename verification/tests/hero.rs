use sprite_animate_player::player::{boo_as_i32, player_control, Keys, Motion, Player, FRAME_TICKS};
use sprite_animate_player::state::{AppState, GameState};
use sprite_animate_player::{advance_frame, follow_tree, Control};

fn keys(right: bool, left: bool, up: bool, down: bool, attack: bool) -> Keys {
    Keys { right, left, up, down, attack }
}

#[test]
fn hero_player_has_its_twelve_clips_and_idles_to_the_right() {
    let p = Player::animate_player();
    assert_eq!(p.cul_animate(), "IdleRight");
    assert_eq!(p.get_frame_index(), Some(0));
    let expected: [(&str, Vec<usize>, bool); 12] = [
        ("RunRight", vec![0, 1, 2, 3, 4, 5], true),
        ("AttackRight", vec![24, 24, 26, 27], false),
        ("IdleRight", vec![0], true),
        ("RunUp", vec![6, 7, 8, 9, 10, 11], true),
        ("AttackUp", vec![28, 29, 30, 31], false),
        ("IdleUp", vec![6], true),
        ("RunLeft", vec![12, 13, 14, 15, 16, 17], true),
        ("AttackLeft", vec![32, 33, 34, 35], false),
        ("IdleLeft", vec![12], true),
        ("RunDown", vec![18, 19, 20, 21, 22, 23], true),
        ("AttackDown", vec![36, 37, 38, 39], false),
        ("IdleDown", vec![18], true),
    ];
    for (name, frames, is_loop) in expected {
        let clip = p.get(name).unwrap();
        assert_eq!(clip.indexs(), &frames);
        assert_eq!(clip.is_loop(), is_loop);
        assert_eq!(clip.position(), 0);
        assert_eq!(clip.delta_time(), 0);
        assert_eq!(clip.frame_time(), FRAME_TICKS);
    }
    assert!(p.get("Swim").is_none());
    assert_eq!(FRAME_TICKS, 100_000);
}

#[test]
fn hero_tree_has_its_three_nodes_and_tracks_nothing() {
    let mut t = Player::animate_tree();
    assert_eq!(t.cul_node(), "");
    assert_eq!(t.get_frame_animate(), None);
    for (node, next) in [("Run", "Run"), ("Idle", "Idle"), ("Attack", "Idle")] {
        assert_eq!(t.get(node).unwrap().node_name(), node);
        assert_eq!(t.get(node).unwrap().next_node_name(), next);
        assert_eq!(t.get(node).unwrap().control(), Control { x: 0, y: 0 });
    }
    for (x, y, way) in [(-1, 0, "Left"), (0, -1, "Down"), (1, 0, "Right"), (0, 1, "Up")] {
        for node in ["Run", "Idle", "Attack"] {
            t.set_vec2(node, Control { x, y });
            t.track(node);
            assert_eq!(t.get_frame_animate(), Some(format!("{}{}", node, way)));
        }
    }
}

#[test]
fn boo_as_i32_counts_a_held_key() {
    assert_eq!(boo_as_i32(true), 1);
    assert_eq!(boo_as_i32(false), 0);
}

#[test]
fn attack_key_tracks_the_attack_and_stops_the_hero() {
    let mut t = Player::animate_tree();
    t.set_vec2("Run", Control { x: 0, y: 1 });
    t.track("Run");
    let m = player_control(&mut t, keys(true, false, false, false, true));
    assert_eq!(m, Motion::Stop);
    assert_eq!(t.cul_node(), "Attack");
    // the run was left, so it is at rest; the attack was handed nothing
    assert_eq!(t.get("Run").unwrap().control(), Control { x: 0, y: 0 });
    assert_eq!(t.get("Attack").unwrap().control(), Control { x: 0, y: 0 });
    assert_eq!(t.get_frame_animate(), Some("AttackLeft".to_string()));
}

#[test]
fn direction_keys_arm_every_node_and_track_the_run() {
    let mut t = Player::animate_tree();
    let m = player_control(&mut t, keys(false, true, false, false, false));
    assert_eq!(m, Motion::Head(Control { x: -1, y: 0 }));
    assert_eq!(t.cul_node(), "Run");
    for node in ["Run", "Idle", "Attack"] {
        assert_eq!(t.get(node).unwrap().control(), Control { x: -1, y: 0 });
    }
    assert_eq!(t.get_frame_animate(), Some("RunLeft".to_string()));
    let m = player_control(&mut t, keys(false, false, false, true, false));
    assert_eq!(m, Motion::Head(Control { x: 0, y: -1 }));
    assert_eq!(t.get_frame_animate(), Some("RunDown".to_string()));
}

#[test]
fn diagonal_keys_resolve_to_the_earlier_sample() {
    let mut t = Player::animate_tree();
    let m = player_control(&mut t, keys(true, false, true, false, false));
    assert_eq!(m, Motion::Head(Control { x: 1, y: 1 }));
    assert_eq!(t.get_frame_animate(), Some("RunRight".to_string()));
    let m = player_control(&mut t, keys(false, true, true, false, false));
    assert_eq!(m, Motion::Head(Control { x: -1, y: 1 }));
    assert_eq!(t.get_frame_animate(), Some("RunLeft".to_string()));
}

#[test]
fn no_keys_or_opposed_keys_change_nothing() {
    let mut t = Player::animate_tree();
    player_control(&mut t, keys(false, false, true, false, false));
    assert_eq!(player_control(&mut t, keys(false, false, false, false, false)), Motion::Keep);
    assert_eq!(player_control(&mut t, keys(true, true, false, false, false)), Motion::Keep);
    assert_eq!(player_control(&mut t, keys(true, true, true, true, false)), Motion::Keep);
    assert_eq!(t.cul_node(), "Run");
    assert_eq!(t.get("Run").unwrap().control(), Control { x: 0, y: 1 });
    assert_eq!(t.get_frame_animate(), Some("RunUp".to_string()));
}

#[test]
fn hero_attacks_and_falls_back_to_idling() {
    let mut p = Player::animate_player();
    let mut t = Player::animate_tree();
    player_control(&mut t, keys(false, false, true, false, false));
    follow_tree(&mut p, &mut t);
    assert_eq!(p.cul_animate(), "RunUp");
    assert_eq!(advance_frame(&mut p, 250_000).ok(), Some(8));
    player_control(&mut t, keys(false, false, true, false, true));
    follow_tree(&mut p, &mut t);
    // the attack node still holds the heading it was handed with the run
    assert_eq!(p.cul_animate(), "AttackUp");
    assert_eq!(advance_frame(&mut p, 16_000).ok(), Some(28));
    let mut shown = vec![];
    for _ in 0..30 {
        follow_tree(&mut p, &mut t);
        shown.push(advance_frame(&mut p, 16_000).unwrap());
    }
    assert_eq!(t.cul_node(), "Idle");
    assert_eq!(p.cul_animate(), "IdleUp");
    assert_eq!(shown[0], 28);
    assert_eq!(shown[16], 30);
    assert_eq!(shown[17], 31);
    assert_eq!(shown[18], 6);
    assert_eq!(shown[29], 6);
    assert!(shown.windows(2).all(|w| w[0] <= w[1] || w[1] == 6));
}

#[test]
fn states_compare_by_variant() {
    assert_eq!(AppState::Menu, AppState::Menu.clone());
    assert_ne!(AppState::Menu, AppState::Game);
    assert_eq!(GameState::AssetLoading, GameState::AssetLoading.clone());
    assert_ne!(GameState::Null, GameState::InGame);
}
