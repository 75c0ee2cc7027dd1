use vstd::prelude::*;

use crate::text::same_text;

verus! {

/// One frame of animation: the texture it shows and for how many whole
/// milliseconds it stays on screen.
pub struct Frame {
    pub texture_key: String,
    pub duration_ms: u32,
}

/// What a frame is, as plain values.
pub struct FrameView {
    pub texture_key: Seq<char>,
    pub duration_ms: u32,
}

/// A named animation sequence.
pub struct Animation {
    pub name: String,
    pub frames: Vec<Frame>,
    pub looping: bool,
}

/// What an animation is, as plain values.
pub struct AnimationView {
    pub name: Seq<char>,
    pub frames: Seq<FrameView>,
    pub looping: bool,
}

impl View for Frame {
    type V = FrameView;

    open spec fn view(&self) -> FrameView {
        FrameView { texture_key: self.texture_key@, duration_ms: self.duration_ms }
    }
}

impl View for Animation {
    type V = AnimationView;

    open spec fn view(&self) -> AnimationView {
        AnimationView {
            name: self.name@,
            frames: self.frames@.map_values(|f: Frame| f@),
            looping: self.looping,
        }
    }
}

impl Frame {
    /// A frame showing `texture_key` for `duration_ms` milliseconds.
    pub fn new(texture_key: String, duration_ms: u32) -> (r: Frame)
        ensures
            r@ == (FrameView { texture_key: texture_key@, duration_ms }),
    {
        Frame { texture_key, duration_ms }
    }
}

/// Animations by name. Each name occurs once; inserting under a name that is
/// present replaces its animation.
pub struct AnimationSet {
    entries: Vec<(String, Animation)>,
}

impl AnimationSet {
    /// No name occurs twice among the entries.
    #[verifier::type_invariant]
    closed spec fn keys_distinct(self) -> bool {
        forall|i: int, j: int|
            0 <= i < self.entries@.len() && 0 <= j < self.entries@.len() && i != j
                ==> #[trigger] self.entries@[i].0@ != #[trigger] self.entries@[j].0@
    }

    closed spec fn has_key_at(self, k: Seq<char>, i: int) -> bool {
        0 <= i < self.entries@.len() && self.entries@[i].0@ == k
    }
}

impl View for AnimationSet {
    type V = Map<Seq<char>, AnimationView>;

    closed spec fn view(&self) -> Map<Seq<char>, AnimationView> {
        Map::new(
            |k: Seq<char>| exists|i: int| self.has_key_at(k, i),
            |k: Seq<char>| self.entries@[choose|i: int| self.has_key_at(k, i)].1@,
        )
    }
}

impl AnimationSet {
    proof fn lemma_entry(self, i: int)
        requires
            self.keys_distinct(),
            0 <= i < self.entries@.len(),
        ensures
            self@.contains_key(self.entries@[i].0@),
            self@[self.entries@[i].0@] == self.entries@[i].1@,
    {
        let k = self.entries@[i].0@;
        assert(self.has_key_at(k, i));
        let c: int = choose|j: int| self.has_key_at(k, j);
        assert(self.has_key_at(k, c));
        assert(c == i);
    }

    /// An empty set.
    pub fn new() -> (r: AnimationSet)
        ensures
            r@ == Map::<Seq<char>, AnimationView>::empty(),
    {
        let r = AnimationSet { entries: Vec::new() };
        assert(r@ =~= Map::<Seq<char>, AnimationView>::empty());
        r
    }

    /// The position of the entry named `key`, if there is one.
    fn position(&self, key: &str) -> (r: Option<usize>)
        ensures
            match r {
                Some(i) => i < self.entries@.len() && self.entries@[i as int].0@ == key@,
                None => forall|i: int| 0 <= i < self.entries@.len() ==> self.entries@[i].0@ != key@,
            },
    {
        let n: usize = self.entries.len();
        let mut i: usize = 0;
        while i < n
            invariant
                n == self.entries@.len(),
                i <= n,
                forall|j: int| 0 <= j < i ==> self.entries@[j].0@ != key@,
            decreases n - i,
        {
            if same_text(self.entries[i].0.as_str(), key) {
                return Some(i);
            }
            i = i + 1;
        }
        None
    }

    /// Puts `animation` under `key`, replacing what was there.
    pub fn insert(&mut self, key: String, animation: Animation)
        ensures
            final(self)@ == old(self)@.insert(key@, animation@),
    {
        proof {
            use_type_invariant(&*self);
        }
        let ghost old_entries = self.entries@;
        let ghost k = key@;
        let ghost a = animation@;
        let found = self.position(key.as_str());
        let mut entries: Vec<(String, Animation)> = Vec::new();
        std::mem::swap(&mut entries, &mut self.entries);
        match found {
            Some(i) => {
                entries.set(i, (key, animation));
            },
            None => {
                entries.push((key, animation));
            },
        }
        let ghost new_entries = entries@;
        proof {
            assert forall|i: int, j: int|
                0 <= i < new_entries.len() && 0 <= j < new_entries.len() && i != j
                    implies #[trigger] new_entries[i].0@ != #[trigger] new_entries[j].0@ by {
                if i < old_entries.len() && j < old_entries.len() {
                    if found is Some {
                        let f: int = found->0 as int;
                        if i != f && j != f {
                            assert(old_entries[i].0@ != old_entries[j].0@);
                        } else if i == f {
                            assert(old_entries[j].0@ != old_entries[f].0@);
                        } else {
                            assert(old_entries[i].0@ != old_entries[f].0@);
                        }
                    } else {
                        assert(old_entries[i].0@ != old_entries[j].0@);
                    }
                }
            }
        }
        self.entries = entries;
        proof {
            let s = *self;
            let o = *old(self);
            assert(s.keys_distinct());
            assert forall|kk: Seq<char>| #[trigger] s@.contains_key(kk)
                == o@.insert(k, a).contains_key(kk) by {
                if s@.contains_key(kk) {
                    let c: int = choose|i: int| s.has_key_at(kk, i);
                    if kk != k {
                        assert(c < old_entries.len());
                        assert(o.has_key_at(kk, c));
                    }
                }
                if o@.contains_key(kk) {
                    let c: int = choose|i: int| o.has_key_at(kk, i);
                    if kk != k {
                        assert(s.has_key_at(kk, c));
                    }
                }
                if kk == k {
                    match found {
                        Some(f) => { assert(s.has_key_at(kk, f as int)); },
                        None => { assert(s.has_key_at(kk, old_entries.len() as int)); },
                    }
                }
            }
            assert forall|kk: Seq<char>| #[trigger] s@.contains_key(kk)
                implies s@[kk] == o@.insert(k, a)[kk] by {
                let c: int = choose|i: int| s.has_key_at(kk, i);
                s.lemma_entry(c);
                if kk != k {
                    assert(c < old_entries.len());
                    o.lemma_entry(c);
                }
            }
            assert(s@ =~= o@.insert(k, a));
        }
    }

    /// The animation under `key`, if there is one.
    pub fn get(&self, key: &str) -> (r: Option<&Animation>)
        ensures
            match r {
                Some(a) => self@.contains_key(key@) && a@ == self@[key@],
                None => !self@.contains_key(key@),
            },
    {
        proof {
            use_type_invariant(self);
        }
        match self.position(key) {
            Some(i) => {
                proof {
                    self.lemma_entry(i as int);
                }
                Some(&self.entries[i].1)
            },
            None => {
                proof {
                    if self@.contains_key(key@) {
                        let c: int = choose|i: int| self.has_key_at(key@, i);
                        assert(self.entries@[c].0@ != key@);
                    }
                }
                None
            },
        }
    }
}

/// The frame that follows frame `index` of an animation of `len` frames:
/// the next one, or past the last, the first again if the animation loops
/// and the last one if it does not.
pub open spec fn next_frame_index(index: nat, len: nat, looping: bool) -> nat {
    if index + 1 >= len {
        if looping { 0 } else { (len - 1) as nat }
    } else {
        index + 1
    }
}

/// Which animation plays and which of its frames is shown. The time spent on
/// the current frame is kept by the caller, who reports whether it has run out.
pub struct AnimationState {
    pub current_animation: String,
    pub frame_index: usize,
}

/// The playing animation and frame, as plain values.
pub struct AnimationStateView {
    pub current_animation: Seq<char>,
    pub frame_index: nat,
}

impl View for AnimationState {
    type V = AnimationStateView;

    open spec fn view(&self) -> AnimationStateView {
        AnimationStateView {
            current_animation: self.current_animation@,
            frame_index: self.frame_index as nat,
        }
    }
}

/// The frames of the playing animation, when it is in `animations` and has any.
pub open spec fn playing_frames(
    s: AnimationStateView,
    animations: Map<Seq<char>, AnimationView>,
) -> Option<Seq<FrameView>> {
    if animations.contains_key(s.current_animation)
        && animations[s.current_animation].frames.len() > 0 {
        Some(animations[s.current_animation].frames)
    } else {
        None
    }
}

/// The frame index points into the playing animation, if one plays.
pub open spec fn frame_in_range(
    s: AnimationStateView,
    animations: Map<Seq<char>, AnimationView>,
) -> bool {
    playing_frames(s, animations) matches Some(frames) ==> s.frame_index < frames.len()
}

/// The state after asking for animation `name`: unchanged when it already
/// plays, else `name` from its first frame.
pub open spec fn after_set_animation(s: AnimationStateView, name: Seq<char>) -> AnimationStateView {
    if s.current_animation == name {
        s
    } else {
        AnimationStateView { current_animation: name, frame_index: 0 }
    }
}

/// The state after one tick in which the shown frame has (`frame_elapsed`)
/// or has not run out of time: the frame advances only in the first case, and
/// nothing changes when the animation is unknown or has no frames.
pub open spec fn after_update(
    s: AnimationStateView,
    frame_elapsed: bool,
    animations: Map<Seq<char>, AnimationView>,
) -> AnimationStateView {
    match playing_frames(s, animations) {
        Some(frames) => if frame_elapsed {
            AnimationStateView {
                current_animation: s.current_animation,
                frame_index: next_frame_index(
                    s.frame_index,
                    frames.len(),
                    animations[s.current_animation].looping,
                ),
            }
        } else {
            s
        },
        None => s,
    }
}

/// The texture of the shown frame, when the animation is known and the index
/// is one of its frames.
pub open spec fn shown_texture(
    s: AnimationStateView,
    animations: Map<Seq<char>, AnimationView>,
) -> Option<Seq<char>> {
    if animations.contains_key(s.current_animation)
        && s.frame_index < animations[s.current_animation].frames.len() {
        Some(animations[s.current_animation].frames[s.frame_index as int].texture_key)
    } else {
        None
    }
}

impl AnimationState {
    /// `animation` from its first frame.
    pub fn new(animation: &str) -> (r: AnimationState)
        ensures
            r@ == (AnimationStateView { current_animation: animation@, frame_index: 0 }),
    {
        AnimationState { current_animation: animation.to_owned(), frame_index: 0 }
    }

    /// Switches to animation `name` unless it already plays. Returns whether
    /// it switched, in which case the caller restarts the frame timer.
    pub fn set_animation(&mut self, name: &str) -> (restarted: bool)
        ensures
            restarted == (old(self)@.current_animation != name@),
            final(self)@ == after_set_animation(old(self)@, name@),
    {
        if !same_text(self.current_animation.as_str(), name) {
            self.current_animation = name.to_owned();
            self.frame_index = 0;
            true
        } else {
            false
        }
    }

    /// Whether the frame index points into the playing animation (always so
    /// when the state only ever met these `animations`).
    pub fn frame_is_valid(&self, animations: &AnimationSet) -> (r: bool)
        ensures
            r == frame_in_range(self@, animations@),
    {
        match animations.get(self.current_animation.as_str()) {
            Some(anim) => anim.frames.len() == 0 || self.frame_index < anim.frames.len(),
            None => true,
        }
    }

    /// How long the shown frame stays, or `None` when the animation is not in
    /// `animations` or has no frames (then the frame timer does not run).
    pub fn frame_duration_ms(&self, animations: &AnimationSet) -> (r: Option<u32>)
        requires
            frame_in_range(self@, animations@),
        ensures
            r == (match playing_frames(self@, animations@) {
                Some(frames) => Some(frames[self.frame_index as int].duration_ms),
                None => None::<u32>,
            }),
    {
        match animations.get(self.current_animation.as_str()) {
            Some(anim) => {
                if anim.frames.len() == 0 {
                    None
                } else {
                    Some(anim.frames[self.frame_index].duration_ms)
                }
            },
            None => None,
        }
    }

    /// Advances to the next frame when the shown one has run out of time.
    pub fn update(&mut self, frame_elapsed: bool, animations: &AnimationSet)
        requires
            frame_in_range(old(self)@, animations@),
        ensures
            final(self)@ == after_update(old(self)@, frame_elapsed, animations@),
            frame_in_range(final(self)@, animations@),
    {
        let anim = match animations.get(self.current_animation.as_str()) {
            Some(a) => a,
            None => {
                return;
            },
        };
        let len: usize = anim.frames.len();
        if len == 0 || !frame_elapsed {
            return;
        }
        if self.frame_index + 1 >= len {
            if anim.looping {
                self.frame_index = 0;
            } else {
                self.frame_index = len - 1;
            }
        } else {
            self.frame_index = self.frame_index + 1;
        }
    }

    /// The texture of the shown frame, if the animation is known and the
    /// frame is one of its frames.
    pub fn current_texture_key<'a>(&self, animations: &'a AnimationSet) -> (r: Option<&'a str>)
        ensures
            match shown_texture(self@, animations@) {
                Some(key) => r matches Some(k) && k@ == key,
                None => r is None,
            },
    {
        match animations.get(self.current_animation.as_str()) {
            Some(anim) => {
                if self.frame_index < anim.frames.len() {
                    Some(anim.frames[self.frame_index].texture_key.as_str())
                } else {
                    None
                }
            },
            None => None,
        }
    }
}

/// Advancing from a frame of an animation lands on a frame of that animation.
pub proof fn lemma_next_frame_in_range(index: nat, len: nat, looping: bool)
    requires
        index < len,
    ensures
        next_frame_index(index, len, looping) < len,
{
}

/// A looping animation shows its frames in order and starts over after the
/// last one: the frame after `index` is `(index + 1) % len`.
pub proof fn lemma_looping_cycles(index: nat, len: nat)
    requires
        index < len,
    ensures
        next_frame_index(index, len, true) == (index + 1) % len,
{
    if index + 1 < len {
        vstd::arithmetic::div_mod::lemma_small_mod((index + 1) as nat, len);
        assert((index + 1) % len == index + 1);
    } else {
        vstd::arithmetic::div_mod::lemma_mod_self_0(len as int);
    }
}

/// An animation that does not loop moves forward one frame at a time and
/// then holds its last frame.
pub proof fn lemma_once_holds_last(index: nat, len: nat)
    requires
        index < len,
    ensures
        next_frame_index(index, len, false) == if index + 1 < len { index + 1 } else { index },
{
}

/// Asking again for the animation that was just asked for changes nothing.
pub proof fn lemma_set_animation_idempotent(s: AnimationStateView, name: Seq<char>)
    ensures
        after_set_animation(after_set_animation(s, name), name) == after_set_animation(s, name),
        after_set_animation(s, name).current_animation == name,
{
}

/// Switching animation, or advancing a frame, keeps the frame index within
/// the playing animation.
pub proof fn lemma_frame_stays_in_range(
    s: AnimationStateView,
    name: Seq<char>,
    frame_elapsed: bool,
    animations: Map<Seq<char>, AnimationView>,
)
    requires
        frame_in_range(s, animations),
    ensures
        frame_in_range(after_set_animation(s, name), animations),
        frame_in_range(after_update(s, frame_elapsed, animations), animations),
{
    if let Some(frames) = playing_frames(s, animations) {
        lemma_next_frame_in_range(
            s.frame_index,
            frames.len(),
            animations[s.current_animation].looping,
        );
    }
}

/// A fresh state shows the first frame of its animation.
pub proof fn lemma_new_state_in_range(name: Seq<char>, animations: Map<Seq<char>, AnimationView>)
    ensures
        frame_in_range(AnimationStateView { current_animation: name, frame_index: 0 }, animations),
{
}

/// Looking a name up after inserting under it gives what was inserted, and
/// inserting under one name leaves every other name as it was.
pub proof fn lemma_get_after_insert(
    set: Map<Seq<char>, AnimationView>,
    key: Seq<char>,
    animation: AnimationView,
    other: Seq<char>,
)
    ensures
        set.insert(key, animation).contains_key(key),
        set.insert(key, animation)[key] == animation,
        other != key ==> (set.insert(key, animation).contains_key(other) == set.contains_key(other)),
        other != key && set.contains_key(other) ==> set.insert(key, animation)[other] == set[other],
{
}

/// A tick in which the shown frame has not run out changes nothing. A tick in
/// which it has run out keeps the animation and moves the index: one frame
/// on, or past the last frame, back to the first for a looping animation and
/// onto the last for one that does not loop. Unknown or empty animations are
/// never changed.
pub proof fn lemma_update_steps_only_when_elapsed(
    s: AnimationStateView,
    animations: Map<Seq<char>, AnimationView>,
)
    ensures
        after_update(s, false, animations) == s,
        !animations.contains_key(s.current_animation) ==> after_update(s, true, animations) == s,
        animations.contains_key(s.current_animation) && animations[s.current_animation].frames.len() == 0
            ==> after_update(s, true, animations) == s,
        after_update(s, true, animations).current_animation == s.current_animation,
        ({
            let len = animations[s.current_animation].frames.len();
            let next = after_update(s, true, animations).frame_index;
            animations.contains_key(s.current_animation) && s.frame_index < len ==> {
                &&& s.frame_index + 1 < len ==> next == s.frame_index + 1
                &&& s.frame_index + 1 == len && animations[s.current_animation].looping ==> next == 0
                &&& s.frame_index + 1 == len && !animations[s.current_animation].looping ==> next == s.frame_index
            }
        }),
{
}

/// Asking for the animation that already plays changes nothing, whatever
/// frame it shows; asking for another one starts that one at its first frame.
pub proof fn lemma_set_animation_keeps_playing_one(s: AnimationStateView, name: Seq<char>)
    ensures
        after_set_animation(s, s.current_animation) == s,
        name != s.current_animation ==> after_set_animation(s, name).current_animation == name
            && after_set_animation(s, name).frame_index == 0,
{
}

} // verus!
