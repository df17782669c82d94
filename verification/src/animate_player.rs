//! Clips and the player that owns them.

use crate::registry::{clip_entries, ClipTable};
use vstd::arithmetic::div_mod::{
    lemma_add_mod_noop, lemma_basic_div, lemma_div_pos_is_pos, lemma_fundamental_div_mod,
    lemma_hoist_over_denominator, lemma_mod_bound, lemma_mod_multiples_vanish, lemma_mod_twice,
    lemma_small_mod,
};
use vstd::prelude::*;

verus! {

/// What a clip is, as plain mathematics: its frames, where the playhead
/// stands, whether it loops, how many ticks one frame lasts, and how many
/// ticks have been received but not yet spent on a step.
pub struct ClipView {
    pub frames: Seq<usize>,
    pub playhead: int,
    pub is_loop: bool,
    pub frame_time: int,
    pub carry: int,
}

impl ClipView {
    /// The clip has a frame to show, the playhead points at one of its
    /// frames, a frame lasts at least one tick, and less than one frame's
    /// worth of time is being carried.
    pub open spec fn wf(self) -> bool {
        &&& self.frames.len() >= 1
        &&& 0 <= self.playhead < self.frames.len()
        &&& self.frame_time > 0
        &&& 0 <= self.carry < self.frame_time
    }

    /// Where the playhead comes to rest when a step count would carry it to
    /// `target`: there if that is inside the clip, wrapped round for a looping
    /// clip, on the last frame for a one-shot clip.
    pub open spec fn settle(self, target: int) -> int {
        let n = self.frames.len() as int;
        if target < n {
            target
        } else if self.is_loop {
            target % n
        } else {
            n - 1
        }
    }

    /// The clip after `dt` more ticks.
    pub open spec fn advance(self, dt: int) -> ClipView {
        let t = self.carry + dt;
        ClipView {
            playhead: self.settle(self.playhead + t / self.frame_time),
            carry: t % self.frame_time,
            ..self
        }
    }

    /// The clip rewound to its first frame, with no time carried.
    pub open spec fn reset(self) -> ClipView {
        ClipView { playhead: 0, carry: 0, ..self }
    }

    /// The playhead stands on the last frame.
    pub open spec fn is_end(self) -> bool {
        self.playhead == self.frames.len() - 1
    }

    /// The sprite-sheet cell under the playhead.
    pub open spec fn frame(self) -> usize {
        self.frames[self.playhead]
    }

    /// Rewinding keeps a clip well formed.
    pub proof fn lemma_reset_wf(self)
        requires
            self.wf(),
        ensures
            self.reset().wf(),
    {
    }

    /// Advancing keeps a clip well formed.
    pub proof fn lemma_advance_wf(self, dt: int)
        requires
            self.wf(),
            dt >= 0,
        ensures
            self.advance(dt).wf(),
            self.advance(dt).frames == self.frames,
            self.advance(dt).is_loop == self.is_loop,
            self.advance(dt).frame_time == self.frame_time,
    {
        let t = self.carry + dt;
        lemma_mod_bound(t, self.frame_time);
        lemma_div_pos_is_pos(t, self.frame_time);
        lemma_mod_bound(self.playhead + t / self.frame_time, self.frames.len() as int);
    }

    /// Settling is the same whether a run of steps is taken at once or in
    /// two parts.
    pub proof fn lemma_settle_twice(self, target: int, more: int)
        requires
            self.frames.len() >= 1,
            target >= 0,
            more >= 0,
        ensures
            self.settle(self.settle(target) + more) == self.settle(target + more),
    {
        let n = self.frames.len() as int;
        if target >= n && self.is_loop {
            let m = target % n;
            lemma_mod_bound(target, n);
            lemma_add_mod_noop(target, more, n);
            lemma_add_mod_noop(m, more, n);
            lemma_mod_twice(target, n);
            if m + more < n {
                lemma_small_mod((m + more) as nat, n as nat);
            }
        }
    }

    /// Frame-rate independence: two advances in a row leave the clip where one
    /// advance by the sum of the two times leaves it.
    pub proof fn lemma_advance_split(self, dt1: int, dt2: int)
        requires
            self.wf(),
            dt1 >= 0,
            dt2 >= 0,
        ensures
            self.advance(dt1).advance(dt2) == self.advance(dt1 + dt2),
    {
        let f = self.frame_time;
        let t1 = self.carry + dt1;
        let q1 = t1 / f;
        let r1 = t1 % f;
        let t2 = r1 + dt2;
        lemma_mod_bound(t1, f);
        lemma_div_pos_is_pos(t1, f);
        lemma_div_pos_is_pos(t2, f);
        lemma_whole_frames_shift(t2, q1, f);
        lemma_fundamental_div_mod(t1, f);
        assert(self.carry + (dt1 + dt2) == f * q1 + t2);
        self.lemma_settle_twice(self.playhead + q1, t2 / f);
    }

    /// The clip after a run of time steps, taken one after the other.
    pub open spec fn advance_all(self, steps: Seq<int>) -> ClipView
        decreases steps.len(),
    {
        if steps.len() == 0 {
            self
        } else {
            self.advance_all(steps.drop_last()).advance(steps.last())
        }
    }

    /// Frame-rate independence for any number of steps: however a stretch of
    /// time is cut into steps, the clip ends where one advance by the whole
    /// stretch leaves it.
    pub proof fn lemma_advance_all(self, steps: Seq<int>)
        requires
            self.wf(),
            forall|i: int| 0 <= i < steps.len() ==> steps[i] >= 0,
        ensures
            total(steps) >= 0,
            self.advance_all(steps) == self.advance(total(steps)),
        decreases steps.len(),
    {
        if steps.len() == 0 {
            lemma_small_mod(self.carry as nat, self.frame_time as nat);
            lemma_basic_div(self.carry, self.frame_time);
        } else {
            self.lemma_advance_all(steps.drop_last());
            self.lemma_advance_split(total(steps.drop_last()), steps.last());
        }
    }

    /// A looping clip that starts at rest on its first frame and receives
    /// exactly `k` frame times stands on frame `k` modulo its length, with
    /// nothing carried.
    pub proof fn lemma_loop_whole_frames(self, k: int)
        requires
            self.wf(),
            self.is_loop,
            self.playhead == 0,
            self.carry == 0,
            k >= 0,
        ensures
            self.advance(k * self.frame_time).playhead == k % (self.frames.len() as int),
            self.advance(k * self.frame_time).carry == 0,
    {
        let f = self.frame_time;
        let n = self.frames.len() as int;
        lemma_whole_frames_shift(0, k, f);
        assert(f * k == k * f) by (nonlinear_arith);
        if k < n {
            lemma_small_mod(k as nat, n as nat);
        }
    }

    /// The same in any number of steps: a looping clip that starts at rest on
    /// its first frame and receives `k` frame times in all, cut up in whatever
    /// way, stands on frame `k` modulo its length, with nothing carried.
    pub proof fn lemma_loop_whole_frames_in_steps(self, steps: Seq<int>, k: int)
        requires
            self.wf(),
            self.is_loop,
            self.playhead == 0,
            self.carry == 0,
            forall|i: int| 0 <= i < steps.len() ==> steps[i] >= 0,
            total(steps) == k * self.frame_time,
        ensures
            k >= 0,
            self.advance_all(steps).playhead == k % (self.frames.len() as int),
            self.advance_all(steps).carry == 0,
    {
        self.lemma_advance_all(steps);
        assert(k >= 0) by (nonlinear_arith)
            requires
                k * self.frame_time >= 0,
                self.frame_time > 0,
        ;
        self.lemma_loop_whole_frames(k);
    }

    /// A one-shot clip that stands on its last frame stays there, whatever
    /// time it receives.
    pub proof fn lemma_one_shot_holds(self, dt: int)
        requires
            self.wf(),
            !self.is_loop,
            self.is_end(),
            dt >= 0,
        ensures
            self.advance(dt).playhead == self.playhead,
            self.advance(dt).is_end(),
    {
        lemma_div_pos_is_pos(self.carry + dt, self.frame_time);
    }

    /// The same in any number of steps: a one-shot clip on its last frame is
    /// on its last frame after every further run of advances.
    pub proof fn lemma_one_shot_holds_in_steps(self, steps: Seq<int>)
        requires
            self.wf(),
            !self.is_loop,
            self.is_end(),
            forall|i: int| 0 <= i < steps.len() ==> steps[i] >= 0,
        ensures
            self.advance_all(steps).playhead == self.playhead,
            self.advance_all(steps).is_end(),
    {
        self.lemma_advance_all(steps);
        self.lemma_one_shot_holds(total(steps));
    }
}

/// The sum of a run of time steps.
pub open spec fn total(steps: Seq<int>) -> int
    decreases steps.len(),
{
    if steps.len() == 0 {
        0
    } else {
        total(steps.drop_last()) + steps.last()
    }
}

/// Whole frame times put in front of a time add to its quotient and leave its
/// remainder alone.
pub proof fn lemma_whole_frames_shift(x: int, q: int, f: int)
    requires
        f > 0,
    ensures
        (f * q + x) / f == q + x / f,
        (f * q + x) % f == x % f,
{
    lemma_hoist_over_denominator(x, q, f as nat);
    lemma_mod_multiples_vanish(q, x, f);
    assert(x + q * f == f * q + x) by (nonlinear_arith);
}

/// One clip: a run of sprite-sheet cells with its timing and looping policy.
#[derive(Debug)]
pub struct FrameAnimate {
    indexs: Vec<usize>,
    index: usize,
    is_loop: bool,
    frame_time: u64,
    delta_time: u64,
}

impl View for FrameAnimate {
    type V = ClipView;

    closed spec fn view(&self) -> ClipView {
        ClipView {
            frames: self.indexs@,
            playhead: self.index as int,
            is_loop: self.is_loop,
            frame_time: self.frame_time as int,
            carry: self.delta_time as int,
        }
    }
}

impl FrameAnimate {
    /// Every clip that exists is well formed.
    #[verifier::type_invariant]
    pub open spec fn inv(&self) -> bool {
        self@.wf()
    }

    /// Whether a clip can be made of these parts.
    pub open spec fn accepts(indexs: Seq<usize>, index: usize, frame_time: u64) -> bool {
        indexs.len() >= 1 && index < indexs.len() && frame_time > 0
    }

    /// A clip over `indexs` that starts on position `index` with no time
    /// carried, or nothing where the parts do not make a clip: no frames, a
    /// start outside the frames, or frames that last no time.
    pub fn new(
        indexs: Vec<usize>,
        index: usize,
        is_loop: bool,
        frame_time: u64,
    ) -> (r: Option<Self>)
        ensures
            r.is_some() == Self::accepts(indexs@, index, frame_time),
            r matches Some(c) ==> c@.wf() && c@ == (ClipView {
                frames: indexs@,
                playhead: index as int,
                is_loop,
                frame_time: frame_time as int,
                carry: 0,
            }),
    {
        if indexs.len() >= 1 && index < indexs.len() && frame_time > 0 {
            Some(FrameAnimate { indexs, index, is_loop, frame_time, delta_time: 0 })
        } else {
            None
        }
    }

    /// Rewinds to the first frame and forgets the carried time.
    pub fn reset(&mut self)
        ensures
            final(self)@ == old(self)@.reset(),
            final(self)@.wf(),
    {
        proof {
            use_type_invariant(&*self);
        }
        self.delta_time = 0;
        self.index = 0;
    }

    /// Spends `delta_time` more ticks: the playhead moves one frame for each
    /// whole frame time in the carried time plus `delta_time`, and the
    /// remainder is carried on.
    pub fn next(&mut self, delta_time: u64)
        ensures
            final(self)@ == old(self)@.advance(delta_time as int),
            final(self)@.wf(),
    {
        proof {
            use_type_invariant(&*self);
        }
        let total: u128 = self.delta_time as u128 + delta_time as u128;
        let period: u128 = self.frame_time as u128;
        let count: u128 = total / period;
        let carry: u64 = (total % period) as u64;
        let len: u128 = self.indexs.len() as u128;
        let target: u128 = self.index as u128 + count;
        let index: usize = if target < len {
            target as usize
        } else if self.is_loop {
            (target % len) as usize
        } else {
            self.indexs.len() - 1
        };
        self.delta_time = carry;
        self.index = index;
    }

    /// The frames of the clip, in playing order.
    pub fn indexs(&self) -> (r: &Vec<usize>)
        ensures
            r@ == self@.frames,
    {
        &self.indexs
    }

    /// The position of the playhead among the frames.
    pub fn position(&self) -> (r: usize)
        ensures
            r == self@.playhead,
    {
        self.index
    }

    /// Whether the clip starts over after its last frame.
    pub fn is_loop(&self) -> (r: bool)
        ensures
            r == self@.is_loop,
    {
        self.is_loop
    }

    /// How many ticks one frame lasts.
    pub fn frame_time(&self) -> (r: u64)
        ensures
            r == self@.frame_time,
    {
        self.frame_time
    }

    /// How many ticks have been received and not yet spent on a step.
    pub fn delta_time(&self) -> (r: u64)
        ensures
            r == self@.carry,
    {
        self.delta_time
    }

    /// Whether the playhead stands on the last frame.
    pub fn is_end(&self) -> (r: bool)
        ensures
            r == self@.is_end(),
    {
        proof {
            use_type_invariant(self);
        }
        self.index == self.indexs.len() - 1
    }

    /// The sprite-sheet cell under the playhead.
    pub fn index(&self) -> (r: usize)
        ensures
            r == self@.frame(),
    {
        proof {
            use_type_invariant(self);
        }
        self.indexs[self.index]
    }
}

/// What a player is, as plain mathematics: its clips under their names, and
/// the name of the clip that is playing. A name that no clip stands under
/// means that nothing plays.
pub struct PlayerView {
    pub clips: Map<Seq<char>, ClipView>,
    pub current: Seq<char>,
}

impl PlayerView {
    /// The clip that is playing, if the current name leads to one.
    pub open spec fn active(self) -> Option<ClipView> {
        if self.clips.contains_key(self.current) {
            Some(self.clips[self.current])
        } else {
            None
        }
    }

    /// The player with the clip under `name` rewound, if there is one.
    pub open spec fn reset_animate(self, name: Seq<char>) -> PlayerView {
        if self.clips.contains_key(name) {
            PlayerView { clips: self.clips.insert(name, self.clips[name].reset()), ..self }
        } else {
            self
        }
    }

    /// The player after a request to play `name`: unchanged where `name` is
    /// playing already; else `name` is current and its clip, if there is one,
    /// starts from the beginning.
    pub open spec fn play(self, name: Seq<char>) -> PlayerView {
        if self.current == name {
            self
        } else {
            PlayerView { current: name, ..self.reset_animate(name) }
        }
    }

    /// The player after `dt` more ticks: the playing clip has advanced, and
    /// nothing has changed where nothing plays.
    pub open spec fn update(self, dt: int) -> PlayerView {
        match self.active() {
            Some(clip) => PlayerView {
                clips: self.clips.insert(self.current, clip.advance(dt)),
                ..self
            },
            None => self,
        }
    }

    /// The player with `clip` registered under `name`.
    pub open spec fn add(self, name: Seq<char>, clip: ClipView) -> PlayerView {
        PlayerView { clips: self.clips.insert(name, clip), ..self }
    }

    /// The player without the clip under `name`.
    pub open spec fn remove(self, name: Seq<char>) -> PlayerView {
        PlayerView { clips: self.clips.remove(name), ..self }
    }

    /// The sprite-sheet cell to show, if a clip is playing.
    pub open spec fn frame_index(self) -> Option<usize> {
        match self.active() {
            Some(clip) => Some(clip.frame()),
            None => None,
        }
    }

    /// Asking for a registered clip that is not playing starts it from its
    /// beginning, and from then on a clip is playing, also as time passes.
    pub proof fn lemma_play_registered(self, name: Seq<char>, dt: int)
        requires
            self.clips.contains_key(name),
        ensures
            self.current != name ==> self.play(name).active() == Some(self.clips[name].reset()),
            self.play(name).active().is_some(),
            self.play(name).update(dt).active().is_some(),
            self.play(name).update(dt).current == name,
    {
    }

    /// Frame-rate independence of the player: two updates in a row leave it
    /// where one update by the sum of the two times leaves it.
    pub proof fn lemma_update_split(self, dt1: int, dt2: int)
        requires
            self.active() matches Some(clip) ==> clip.wf(),
            dt1 >= 0,
            dt2 >= 0,
        ensures
            self.update(dt1).update(dt2) == self.update(dt1 + dt2),
    {
        match self.active() {
            Some(clip) => {
                clip.lemma_advance_split(dt1, dt2);
                assert(self.update(dt1).update(dt2).clips =~= self.update(dt1 + dt2).clips);
            },
            None => {},
        }
    }

    /// No redundant reset: once `name` has been asked for, asking again
    /// changes nothing, also after time has passed in between.
    pub proof fn lemma_play_again(self, name: Seq<char>, dt: int)
        ensures
            self.play(name).play(name) == self.play(name),
            self.play(name).update(dt).play(name) == self.play(name).update(dt),
    {
    }
}

/// The report of an update that found no clip under the current name.
#[derive(Debug)]
pub struct ClipNotFound {
    pub name: String,
}

/// The animation player of one entity: named clips, one of them current.
#[derive(Debug)]
pub struct SpriteAnimatePlayer {
    frame_animates: ClipTable,
    cul_animate: String,
}

impl View for SpriteAnimatePlayer {
    type V = PlayerView;

    closed spec fn view(&self) -> PlayerView {
        PlayerView { clips: clip_entries(self.frame_animates), current: self.cul_animate@ }
    }
}

impl Default for SpriteAnimatePlayer {
    /// A player without clips, with nothing playing.
    fn default() -> (r: Self)
        ensures
            r@.clips == Map::<Seq<char>, ClipView>::empty(),
            r@.current == Seq::<char>::empty(),
    {
        SpriteAnimatePlayer { frame_animates: ClipTable::new(), cul_animate: String::new() }
    }
}

impl SpriteAnimatePlayer {
    /// The name of the current clip; empty where none was ever chosen.
    pub fn cul_animate(&self) -> (r: &str)
        ensures
            r@ == self@.current,
    {
        self.cul_animate.as_str()
    }

    /// Makes `animate` the current name and touches no clip: the clip under
    /// it goes on from where it stands.
    pub fn set_cul_animate(&mut self, animate: &str)
        ensures
            final(self)@ == (PlayerView { current: animate@, ..old(self)@ }),
    {
        self.cul_animate = animate.to_owned();
    }

    /// Makes `animate` the current clip. Where it is current already nothing
    /// changes; else its clip, if it is registered, is rewound first.
    pub fn play(&mut self, animate: &str)
        ensures
            final(self)@ == old(self)@.play(animate@),
    {
        let name = animate.to_owned();
        if !(self.cul_animate == name) {
            self.reset_animate(animate);
            self.cul_animate = name;
        }
    }

    /// The sprite-sheet cell to show: that of the current clip, or nothing
    /// where no clip stands under the current name.
    pub fn get_frame_index(&self) -> (r: Option<usize>)
        ensures
            r == self@.frame_index(),
    {
        match self.frame_animates.get(self.cul_animate.as_str()) {
            Some(frame) => Some(frame.index()),
            None => None,
        }
    }

    /// The current clip, or nothing where no clip stands under the current
    /// name.
    pub fn get_frame(&self) -> (r: Option<&FrameAnimate>)
        ensures
            r.is_some() == self@.active().is_some(),
            r matches Some(frame) ==> Some(frame@) == self@.active() && frame@.wf(),
    {
        let r = self.frame_animates.get(self.cul_animate.as_str());
        proof {
            if let Some(frame) = r {
                use_type_invariant(frame);
            }
        }
        r
    }

    /// The clip registered under `name`, or nothing.
    pub fn get(&self, name: &str) -> (r: Option<&FrameAnimate>)
        ensures
            r.is_some() == self@.clips.contains_key(name@),
            r matches Some(frame) ==> frame@ == self@.clips[name@] && frame@.wf(),
    {
        let r = self.frame_animates.get(name);
        proof {
            if let Some(frame) = r {
                use_type_invariant(frame);
            }
        }
        r
    }

    /// Rewinds the clip under `node`, if there is one.
    pub fn reset_animate(&mut self, node: &str)
        ensures
            final(self)@ == old(self)@.reset_animate(node@),
    {
        match self.frame_animates.get_mut(node) {
            Some(frame) => {
                frame.reset();
            },
            None => {},
        }
    }

    /// Advances the current clip by `delta_time` ticks. Where no clip stands
    /// under the current name, nothing changes and the name is reported.
    pub fn update(&mut self, delta_time: u64) -> (r: Result<(), ClipNotFound>)
        ensures
            final(self)@ == old(self)@.update(delta_time as int),
            r.is_ok() == old(self)@.active().is_some(),
            r matches Err(e) ==> e.name@ == old(self)@.current,
    {
        let cul_animate = self.cul_animate.clone();
        match self.frame_animates.get_mut(cul_animate.as_str()) {
            Some(frame) => {
                frame.next(delta_time);
                Ok(())
            },
            None => Err(ClipNotFound { name: cul_animate }),
        }
    }

    /// Takes the clip under `name` out of the player and hands it over, where
    /// there is one. The current name stays, so taking out the current clip
    /// leaves nothing playing.
    pub fn remove(&mut self, name: &str) -> (r: Option<FrameAnimate>)
        ensures
            final(self)@ == old(self)@.remove(name@),
            r.is_some() == old(self)@.clips.contains_key(name@),
            r matches Some(frame) ==> frame@ == old(self)@.clips[name@],
    {
        self.frame_animates.remove(name)
    }

    /// Registers `frame_animate` under `animate_name`, in place of whatever
    /// stood there.
    pub fn add(&mut self, animate_name: &str, frame_animate: FrameAnimate)
        ensures
            final(self)@ == old(self)@.add(animate_name@, frame_animate@),
    {
        self.frame_animates.insert(animate_name.to_owned(), frame_animate);
    }
}

} // verus!
