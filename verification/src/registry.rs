//! Name-keyed storage, kept in the hash map that bevy ships.
//!
//! `bevy::utils::HashMap` is hashbrown's `HashMap` with bevy's choice of
//! hasher. Its allocator parameter is bounded by a trait that hashbrown keeps
//! to itself, so the verifier cannot be told of the type as it is; each table
//! here holds one in a field that the verifier does not look into.
//!
//! Nothing in this file is proved. Each function hands one call through to
//! the map, and its contract records what hashbrown's source shows of that
//! call: what it does to the entries and what it returns. Names are compared
//! as strings are, character by character, so a table is keyed by the
//! character sequence of a name. The order in which a map would be walked
//! is never looked at.

use crate::animate_player::{ClipView, FrameAnimate};
use crate::animate_tree::nodes::{NodeView, SpriteAnimateVec2};
use vstd::prelude::*;

verus! {

/// The clips of a player under their names, in a `bevy::utils::HashMap`.
#[verifier::external_body]
#[derive(Debug)]
pub struct ClipTable {
    map: bevy::utils::HashMap<String, FrameAnimate>,
}

/// The entries of a clip table: each name it holds, with the clip under it.
pub uninterp spec fn clip_entries(table: ClipTable) -> Map<Seq<char>, ClipView>;

impl ClipTable {
    /// `HashMap::default`: a table without entries.
    #[verifier::external_body]
    pub(crate) fn new() -> (r: Self)
        ensures
            (clip_entries(r) == Map::<Seq<char>, ClipView>::empty()),
    {
        ClipTable { map: bevy::utils::HashMap::default() }
    }

    /// `HashMap::insert`: afterwards `name` leads to `clip`, whatever it led to
    /// before, and every other name leads where it did.
    #[verifier::external_body]
    pub(crate) fn insert(&mut self, name: String, clip: FrameAnimate)
        ensures
            clip_entries(*final(self)) == clip_entries(*old(self)).insert(name@, clip@),
    {
        self.map.insert(name, clip);
    }

    /// `HashMap::remove`: the clip under `name` leaves the table and is handed
    /// out, where there is one. No other entry changes.
    #[verifier::external_body]
    pub(crate) fn remove(&mut self, name: &str) -> (r: Option<FrameAnimate>)
        ensures
            clip_entries(*final(self)) == clip_entries(*old(self)).remove(name@),
            r.is_some() == clip_entries(*old(self)).contains_key(name@),
            r matches Some(clip) ==> clip@ == clip_entries(*old(self))[name@],
    {
        self.map.remove(name)
    }

    /// `HashMap::get`: the clip under `name`, where there is one.
    #[verifier::external_body]
    pub(crate) fn get(&self, name: &str) -> (r: Option<&FrameAnimate>)
        ensures
            r.is_some() == clip_entries(*self).contains_key(name@),
            r matches Some(clip) ==> clip@ == clip_entries(*self)[name@],
    {
        self.map.get(name)
    }

    /// `HashMap::get_mut`: the clip under `name`, where there is one, to be
    /// changed in place. What the caller leaves behind the reference is what
    /// `name` leads to afterwards. No other entry changes.
    #[verifier::external_body]
    pub(crate) fn get_mut(&mut self, name: &str) -> (r: Option<&mut FrameAnimate>)
        ensures
            r.is_some() == clip_entries(*old(self)).contains_key(name@),
            r matches Some(clip) ==> clip@ == clip_entries(*old(self))[name@]
                && clip_entries(*final(self)) == clip_entries(*old(self)).insert(
                name@,
                final(clip)@,
            ),
            r is None ==> clip_entries(*final(self)) == clip_entries(*old(self)),
    {
        self.map.get_mut(name)
    }
}

/// The nodes of a blend tree under their names, in a `bevy::utils::HashMap`.
#[verifier::external_body]
#[derive(Debug)]
pub struct NodeTable {
    map: bevy::utils::HashMap<String, SpriteAnimateVec2>,
}

/// The entries of a node table: each name it holds, with the node under it.
pub uninterp spec fn node_entries(table: NodeTable) -> Map<Seq<char>, NodeView>;

impl NodeTable {
    /// `HashMap::default`: a table without entries.
    #[verifier::external_body]
    pub(crate) fn new() -> (r: Self)
        ensures
            (node_entries(r) == Map::<Seq<char>, NodeView>::empty()),
    {
        NodeTable { map: bevy::utils::HashMap::default() }
    }

    /// `HashMap::insert`: afterwards `name` leads to `node`, whatever it led to
    /// before, and every other name leads where it did.
    #[verifier::external_body]
    pub(crate) fn insert(&mut self, name: String, node: SpriteAnimateVec2)
        ensures
            node_entries(*final(self)) == node_entries(*old(self)).insert(name@, node@),
    {
        self.map.insert(name, node);
    }

    /// `HashMap::remove`: the node under `name` leaves the table and is handed
    /// out, where there is one. No other entry changes.
    #[verifier::external_body]
    pub(crate) fn remove(&mut self, name: &str) -> (r: Option<SpriteAnimateVec2>)
        ensures
            node_entries(*final(self)) == node_entries(*old(self)).remove(name@),
            r.is_some() == node_entries(*old(self)).contains_key(name@),
            r matches Some(node) ==> node@ == node_entries(*old(self))[name@],
    {
        self.map.remove(name)
    }

    /// `HashMap::get`: the node under `name`, where there is one.
    #[verifier::external_body]
    pub(crate) fn get(&self, name: &str) -> (r: Option<&SpriteAnimateVec2>)
        ensures
            r.is_some() == node_entries(*self).contains_key(name@),
            r matches Some(node) ==> node@ == node_entries(*self)[name@],
    {
        self.map.get(name)
    }

    /// `HashMap::get_mut`: the node under `name`, where there is one, to be
    /// changed in place. What the caller leaves behind the reference is what
    /// `name` leads to afterwards. No other entry changes.
    #[verifier::external_body]
    pub(crate) fn get_mut(&mut self, name: &str) -> (r: Option<&mut SpriteAnimateVec2>)
        ensures
            r.is_some() == node_entries(*old(self)).contains_key(name@),
            r matches Some(node) ==> node@ == node_entries(*old(self))[name@]
                && node_entries(*final(self)) == node_entries(*old(self)).insert(
                name@,
                final(node)@,
            ),
            r is None ==> node_entries(*final(self)) == node_entries(*old(self)),
    {
        self.map.get_mut(name)
    }
}

} // verus!
