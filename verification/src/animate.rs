//! One tick of one entity: what the host does with a player, and with the
//! blend tree beside it, between reading the clock and writing the sprite.

use crate::animate_player::{ClipNotFound, PlayerView, SpriteAnimatePlayer};
use crate::animate_tree::nodes::name_view;
use crate::animate_tree::{SpriteAnimateTree, TreeView};
use vstd::prelude::*;

verus! {

/// The current clip of the player is a one-shot clip on its last frame.
pub open spec fn one_shot_done(player: PlayerView) -> bool {
    match player.active() {
        Some(clip) => !clip.is_loop && clip.is_end(),
        None => false,
    }
}

/// The tree after it has looked at the player: where a one-shot clip has run
/// out and a node is tracked, the tree tracks that node's successor.
pub open spec fn tree_after(tree: TreeView, player: PlayerView) -> TreeView {
    match tree.next_node() {
        Some(next) if one_shot_done(player) => tree.track(next),
        _ => tree,
    }
}

/// The player after it has been told what the tree resolves to: it plays
/// that clip, or goes on as it was where the tree resolves to nothing.
pub open spec fn player_after(player: PlayerView, tree: TreeView) -> PlayerView {
    match tree.frame_animate() {
        Some(name) => player.play(name),
        None => player,
    }
}

/// Lets the blend tree choose the player's clip for this tick. First the
/// tree moves on to the successor of its tracked node if the player's
/// one-shot clip has run out; then the player is asked to play what the tree
/// resolves to.
pub fn follow_tree(player: &mut SpriteAnimatePlayer, tree: &mut SpriteAnimateTree)
    ensures
        final(tree)@ == tree_after(old(tree)@, old(player)@),
        final(player)@ == player_after(old(player)@, final(tree)@),
{
    let mut is_loop = false;
    let mut is_end = false;
    match player.get_frame() {
        Some(frame) => {
            is_loop = frame.is_loop();
            is_end = frame.is_end();
        },
        None => {},
    }
    if !is_loop && is_end {
        match tree.get_next_node() {
            Some(next_node) => {
                tree.track(next_node.as_str());
            },
            None => {},
        }
    }
    match tree.get_frame_animate() {
        Some(frame_name) => {
            player.play(frame_name.as_str());
        },
        None => {},
    }
}

/// Spends the tick's time on the player and reads the sprite-sheet cell to
/// show. Where no clip stands under the current name nothing changes and
/// the name comes back instead: the sprite then keeps the cell it shows.
pub fn advance_frame(
    player: &mut SpriteAnimatePlayer,
    delta_time: u64,
) -> (r: Result<usize, ClipNotFound>)
    ensures
        final(player)@ == old(player)@.update(delta_time as int),
        r.is_ok() == old(player)@.active().is_some(),
        r matches Ok(index) ==> final(player)@.frame_index() == Some(index),
        r matches Err(e) ==> e.name@ == old(player)@.current,
{
    match player.update(delta_time) {
        Ok(()) => {
            let index = player.get_frame_index();
            assert(old(player)@.update(delta_time as int).active().is_some());
            Ok(index.unwrap())
        },
        Err(e) => Err(e),
    }
}

} // verus!
