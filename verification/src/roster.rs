use vstd::prelude::*;

use crate::sprite::{Animation, AnimationSet, AnimationView, Frame, FrameView};
use crate::game::{reward_of, Character};
use crate::text::{numbered, numbered_between, numbered_key};

verus! {

/// A frame showing `key` for `ms` milliseconds.
pub open spec fn frame(key: Seq<char>, ms: u32) -> FrameView {
    FrameView { texture_key: key, duration_ms: ms }
}

/// A looping animation called `name`.
pub open spec fn looping(name: Seq<char>, frames: Seq<FrameView>) -> AnimationView {
    AnimationView { name, frames, looping: true }
}

/// `count` frames of `ms` milliseconds each, showing `prefix` numbered from `first` on.
pub open spec fn numbered_frames(prefix: Seq<char>, first: nat, count: nat, ms: u32) -> Seq<FrameView> {
    Seq::new(count, |i: int| frame(numbered(prefix, (first + i) as nat), ms))
}

/// `count` texture entries: key `key_prefix` numbered from `key_first` on, file
/// `path_prefix` numbered from `path_first` on and followed by `suffix`.
pub open spec fn numbered_paths(
    key_prefix: Seq<char>,
    key_first: nat,
    path_prefix: Seq<char>,
    path_first: nat,
    suffix: Seq<char>,
    count: nat,
) -> Seq<(Seq<char>, Seq<char>)> {
    Seq::new(
        count,
        |i: int|
            (
                numbered(key_prefix, (key_first + i) as nat),
                numbered(path_prefix, (path_first + i) as nat) + suffix,
            ),
    )
}

/// The texture entries held in `v`, as plain values.
pub open spec fn pairs_view(v: Seq<(String, String)>) -> Seq<(Seq<char>, Seq<char>)> {
    v.map_values(|p: (String, String)| (p.0@, p.1@))
}

/// The frames held in `v`, as plain values.
pub open spec fn frames_view(v: Seq<Frame>) -> Seq<FrameView> {
    v.map_values(|f: Frame| f@)
}

/// `count` frames of `ms` milliseconds each, showing `prefix` numbered from `first` on.
fn numbered_frame_list(prefix: &str, first: u32, count: u32, ms: u32) -> (r: Vec<Frame>)
    requires
        first + count <= u32::MAX,
    ensures
        frames_view(r@) == numbered_frames(prefix@, first as nat, count as nat, ms),
{
    let mut r: Vec<Frame> = Vec::new();
    let mut i: u32 = 0;
    while i < count
        invariant
            i <= count,
            first + count <= u32::MAX,
            frames_view(r@) == numbered_frames(prefix@, first as nat, i as nat, ms),
        decreases count - i,
    {
        let f = Frame::new(numbered_key(prefix, first + i), ms);
        let ghost fv = f@;
        let ghost before = r@;
        r.push(f);
        proof {
            let want = numbered_frames(prefix@, first as nat, (i + 1) as nat, ms);
            let had = numbered_frames(prefix@, first as nat, i as nat, ms);
            assert(frames_view(before) == had);
            assert(r@ == before.push(f));
            assert forall|j: int| 0 <= j < want.len() implies #[trigger] frames_view(r@)[j] == want[j] by {
                if j < i {
                    assert(frames_view(r@)[j] == frames_view(before)[j]);
                    assert(had[j] == want[j]);
                } else {
                    assert(frames_view(r@)[j] == fv);
                }
            }
            assert(frames_view(r@) =~= want);
        }
        i = i + 1;
    }
    r
}

/// Appends `count` numbered texture entries (see `numbered_paths`) to `paths`.
fn push_numbered_paths(
    paths: &mut Vec<(String, String)>,
    key_prefix: &str,
    key_first: u32,
    path_prefix: &str,
    path_first: u32,
    suffix: &str,
    count: u32,
)
    requires
        key_first + count <= u32::MAX,
        path_first + count <= u32::MAX,
    ensures
        pairs_view(final(paths)@) == pairs_view(old(paths)@) + numbered_paths(
            key_prefix@,
            key_first as nat,
            path_prefix@,
            path_first as nat,
            suffix@,
            count as nat,
        ),
{
    let ghost start = pairs_view(paths@);
    let mut i: u32 = 0;
    while i < count
        invariant
            i <= count,
            key_first + count <= u32::MAX,
            path_first + count <= u32::MAX,
            pairs_view(paths@) == start + numbered_paths(
                key_prefix@,
                key_first as nat,
                path_prefix@,
                path_first as nat,
                suffix@,
                i as nat,
            ),
        decreases count - i,
    {
        let key = numbered_key(key_prefix, key_first + i);
        let path = numbered_between(path_prefix, path_first + i, suffix);
        let ghost entry = (key@, path@);
        let ghost before = paths@;
        paths.push((key, path));
        proof {
            assert(pairs_view(paths@) =~= pairs_view(before).push(entry));
            let want = start + numbered_paths(
                key_prefix@,
                key_first as nat,
                path_prefix@,
                path_first as nat,
                suffix@,
                (i + 1) as nat,
            );
            assert(pairs_view(before) =~= start + numbered_paths(
                key_prefix@,
                key_first as nat,
                path_prefix@,
                path_first as nat,
                suffix@,
                i as nat,
            ));
            assert(pairs_view(paths@) =~= want);
        }
        i = i + 1;
    }
}

/// Appends one texture entry to `paths`.
fn push_path(paths: &mut Vec<(String, String)>, key: &str, path: &str)
    ensures
        pairs_view(final(paths)@) == pairs_view(old(paths)@).push((key@, path@)),
{
    let ghost before = paths@;
    paths.push((key.to_owned(), path.to_owned()));
    proof {
        assert(pairs_view(paths@) =~= pairs_view(before).push((key@, path@)));
    }
}

/// A looping animation called `name` made of `frames`.
fn looping_animation(name: &str, frames: Vec<Frame>) -> (r: Animation)
    ensures
        r@ == looping(name@, frames_view(frames@)),
{
    Animation { name: name.to_owned(), frames, looping: true }
}

/// Puts the looping animation `name` made of `frames` into `set`, under its name.
fn add_looping(set: &mut AnimationSet, name: &str, frames: Vec<Frame>)
    ensures
        final(set)@ == old(set)@.insert(name@, looping(name@, frames_view(frames@))),
{
    set.insert(name.to_owned(), looping_animation(name, frames));
}

/// Appends a frame showing `key` for `ms` milliseconds.
fn push_frame(frames: &mut Vec<Frame>, key: &str, ms: u32)
    ensures
        frames_view(final(frames)@) == frames_view(old(frames)@).push(frame(key@, ms)),
{
    let ghost before = frames@;
    frames.push(Frame::new(key.to_owned(), ms));
    proof {
        assert(frames_view(frames@) =~= frames_view(before).push(frame(key@, ms)));
    }
}

/// Appends a frame showing `prefix` numbered `n` for `ms` milliseconds.
fn push_numbered_frame(frames: &mut Vec<Frame>, prefix: &str, n: u32, ms: u32)
    ensures
        frames_view(final(frames)@) == frames_view(old(frames)@).push(frame(numbered(prefix@, n as nat), ms)),
{
    let ghost before = frames@;
    frames.push(Frame::new(numbered_key(prefix, n), ms));
    proof {
        assert(frames_view(frames@) =~= frames_view(before).push(frame(numbered(prefix@, n as nat), ms)));
    }
}

// ---------------------------------------------------------------- Homer

/// Homer's idle loop: standing, a blink, standing longer, a blink.
pub open spec fn homer_idle_frames() -> Seq<FrameView> {
    seq![
        frame("homer_idle_1"@, 2000),
        frame("homer_idle_blink_1"@, 100),
        frame("homer_idle_blink_2"@, 100),
        frame("homer_idle_1"@, 3000),
        frame("homer_idle_blink_1"@, 100),
        frame("homer_idle_blink_2"@, 100),
    ]
}

/// Homer's animations by name: `idle`, `walk_front`, `walk_back` and one per
/// chore (`clean`, `play`, `drink`); all of them loop.
pub open spec fn homer_animation_table() -> Map<Seq<char>, AnimationView> {
    Map::<Seq<char>, AnimationView>::empty()
        .insert("idle"@, looping("idle"@, homer_idle_frames()))
        .insert("walk_front"@, looping("walk_front"@, numbered_frames("homer_front_walk_"@, 1, 4, 150)))
        .insert("walk_back"@, looping("walk_back"@, numbered_frames("homer_back_walk_"@, 1, 4, 150)))
        .insert("clean"@, looping("clean"@, numbered_frames("homer_clean_"@, 0, 6, 200)))
        .insert("play"@, looping("play"@, seq![
            frame(numbered("homer_play_"@, 1), 250),
            frame(numbered("homer_play_"@, 2), 250),
            frame(numbered("homer_play_"@, 3), 250),
            frame(numbered("homer_play_"@, 7), 250),
        ]))
        .insert("drink"@, looping("drink"@, numbered_frames("homer_drink_"@, 0, 6, 200)))
}

/// Homer's animation definitions.
pub fn homer_animations() -> (r: AnimationSet)
    ensures
        r@ == homer_animation_table(),
{
    let mut anims = AnimationSet::new();

    let mut idle: Vec<Frame> = Vec::new();
    push_frame(&mut idle, "homer_idle_1", 2000);
    push_frame(&mut idle, "homer_idle_blink_1", 100);
    push_frame(&mut idle, "homer_idle_blink_2", 100);
    push_frame(&mut idle, "homer_idle_1", 3000);
    push_frame(&mut idle, "homer_idle_blink_1", 100);
    push_frame(&mut idle, "homer_idle_blink_2", 100);
    proof {
        assert(frames_view(idle@) =~= homer_idle_frames());
    }
    add_looping(&mut anims, "idle", idle);

    add_looping(&mut anims, "walk_front", numbered_frame_list("homer_front_walk_", 1, 4, 150));
    add_looping(&mut anims, "walk_back", numbered_frame_list("homer_back_walk_", 1, 4, 150));
    add_looping(&mut anims, "clean", numbered_frame_list("homer_clean_", 0, 6, 200));

    let mut play: Vec<Frame> = Vec::new();
    push_numbered_frame(&mut play, "homer_play_", 1, 250);
    push_numbered_frame(&mut play, "homer_play_", 2, 250);
    push_numbered_frame(&mut play, "homer_play_", 3, 250);
    push_numbered_frame(&mut play, "homer_play_", 7, 250);
    let ghost play_frames = frames_view(play@);
    add_looping(&mut anims, "play", play);
    proof {
        assert(play_frames =~= seq![
            frame(numbered("homer_play_"@, 1), 250),
            frame(numbered("homer_play_"@, 2), 250),
            frame(numbered("homer_play_"@, 3), 250),
            frame(numbered("homer_play_"@, 7), 250),
        ]);
    }

    add_looping(&mut anims, "drink", numbered_frame_list("homer_drink_", 0, 6, 200));
    anims
}

/// A texture entry: key `key_prefix` numbered `n`, file `path_prefix`
/// numbered `n` and followed by `suffix`.
pub open spec fn numbered_path(key_prefix: Seq<char>, path_prefix: Seq<char>, suffix: Seq<char>, n: nat) -> (
    Seq<char>,
    Seq<char>,
) {
    (numbered(key_prefix, n), numbered(path_prefix, n) + suffix)
}

/// Appends one numbered texture entry (see `numbered_path`) to `paths`.
fn push_numbered_path(paths: &mut Vec<(String, String)>, key_prefix: &str, path_prefix: &str, suffix: &str, n: u32)
    ensures
        pairs_view(final(paths)@) == pairs_view(old(paths)@).push(
            numbered_path(key_prefix@, path_prefix@, suffix@, n as nat),
        ),
{
    let key = numbered_key(key_prefix, n);
    let path = numbered_between(path_prefix, n, suffix);
    let ghost entry = (key@, path@);
    let ghost before = paths@;
    paths.push((key, path));
    proof {
        assert(pairs_view(paths@) =~= pairs_view(before).push(entry));
    }
}

/// Homer's texture files, by texture key: the idle and walk images, the menu
/// background, the images of the three chores and the grass tile, in that order.
pub open spec fn homer_texture_table() -> Seq<(Seq<char>, Seq<char>)> {
    seq![
        ("homer_idle_1"@, "assets/Characters/Homer/Idle/homer_idle_image_1.png"@),
        ("homer_idle_blink_1"@, "assets/Characters/Homer/Idle/homer_idle_blink_image_1.png"@),
        ("homer_idle_blink_2"@, "assets/Characters/Homer/Idle/homer_idle_blink_image_2.png"@),
    ]
    + numbered_paths("homer_front_walk_"@, 1, "assets/Characters/Homer/Walk/homer_front_walk_image_"@, 1, ".png"@, 4)
    + numbered_paths("homer_back_walk_"@, 1, "assets/Characters/Homer/Walk/homer_back_walk_image_"@, 1, ".png"@, 4)
    + seq![("menu_bg"@, "assets/Menu/main_menu_background.webp"@)]
    + numbered_paths(
        "homer_clean_"@,
        0,
        "assets/Characters/Homer/Clean Up Springfield/homer_pick_trash_active_image_"@,
        1,
        ".png"@,
        6,
    )
    + seq![
        numbered_path("homer_play_"@, "assets/Characters/Homer/Play with his myPad/homer_play_happy_little_elves_active_image_"@, ".png"@, 1),
        numbered_path("homer_play_"@, "assets/Characters/Homer/Play with his myPad/homer_play_happy_little_elves_active_image_"@, ".png"@, 2),
        numbered_path("homer_play_"@, "assets/Characters/Homer/Play with his myPad/homer_play_happy_little_elves_active_image_"@, ".png"@, 3),
        numbered_path("homer_play_"@, "assets/Characters/Homer/Play with his myPad/homer_play_happy_little_elves_active_image_"@, ".png"@, 7),
    ]
    + numbered_paths("homer_drink_"@, 0, "assets/Characters/Homer/Drink Beer/homer_drink_beer_image_"@, 0, ".png"@, 6)
    + seq![("grass_tile"@, "assets/tiles/grass.png"@)]
}

/// Homer's texture keys and the files they load from (relative to the web root).
pub fn homer_texture_paths() -> (r: Vec<(String, String)>)
    ensures
        pairs_view(r@) == homer_texture_table(),
{
    let mut paths: Vec<(String, String)> = Vec::new();

    // Idle
    push_path(&mut paths, "homer_idle_1", "assets/Characters/Homer/Idle/homer_idle_image_1.png");
    push_path(&mut paths, "homer_idle_blink_1", "assets/Characters/Homer/Idle/homer_idle_blink_image_1.png");
    push_path(&mut paths, "homer_idle_blink_2", "assets/Characters/Homer/Idle/homer_idle_blink_image_2.png");
    let ghost idle = pairs_view(paths@);

    // Walking
    push_numbered_paths(&mut paths, "homer_front_walk_", 1, "assets/Characters/Homer/Walk/homer_front_walk_image_", 1, ".png", 4);
    push_numbered_paths(&mut paths, "homer_back_walk_", 1, "assets/Characters/Homer/Walk/homer_back_walk_image_", 1, ".png", 4);

    // Menu
    push_path(&mut paths, "menu_bg", "assets/Menu/main_menu_background.webp");

    // Chores
    push_numbered_paths(
        &mut paths,
        "homer_clean_",
        0,
        "assets/Characters/Homer/Clean Up Springfield/homer_pick_trash_active_image_",
        1,
        ".png",
        6,
    );
    let ghost before_play = pairs_view(paths@);
    push_numbered_path(&mut paths, "homer_play_", "assets/Characters/Homer/Play with his myPad/homer_play_happy_little_elves_active_image_", ".png", 1);
    push_numbered_path(&mut paths, "homer_play_", "assets/Characters/Homer/Play with his myPad/homer_play_happy_little_elves_active_image_", ".png", 2);
    push_numbered_path(&mut paths, "homer_play_", "assets/Characters/Homer/Play with his myPad/homer_play_happy_little_elves_active_image_", ".png", 3);
    push_numbered_path(&mut paths, "homer_play_", "assets/Characters/Homer/Play with his myPad/homer_play_happy_little_elves_active_image_", ".png", 7);
    let ghost after_play = pairs_view(paths@);
    push_numbered_paths(&mut paths, "homer_drink_", 0, "assets/Characters/Homer/Drink Beer/homer_drink_beer_image_", 0, ".png", 6);

    // Tiles
    push_path(&mut paths, "grass_tile", "assets/tiles/grass.png");

    proof {
        let pp = "assets/Characters/Homer/Play with his myPad/homer_play_happy_little_elves_active_image_"@;
        assert(idle =~= seq![
            ("homer_idle_1"@, "assets/Characters/Homer/Idle/homer_idle_image_1.png"@),
            ("homer_idle_blink_1"@, "assets/Characters/Homer/Idle/homer_idle_blink_image_1.png"@),
            ("homer_idle_blink_2"@, "assets/Characters/Homer/Idle/homer_idle_blink_image_2.png"@),
        ]);
        assert(after_play =~= before_play + seq![
            numbered_path("homer_play_"@, pp, ".png"@, 1),
            numbered_path("homer_play_"@, pp, ".png"@, 2),
            numbered_path("homer_play_"@, pp, ".png"@, 3),
            numbered_path("homer_play_"@, pp, ".png"@, 7),
        ]);
        assert(pairs_view(paths@) =~= homer_texture_table());
    }
    paths
}

// ---------------------------------------------------------------- Bart

/// Bart's idle loop: standing, a blink, standing longer, a blink.
pub open spec fn bart_idle_frames() -> Seq<FrameView> {
    seq![
        frame("bart_idle_1"@, 2000),
        frame("bart_idle_blink_1"@, 100),
        frame("bart_idle_blink_2"@, 100),
        frame("bart_idle_1"@, 3000),
        frame("bart_idle_blink_1"@, 100),
        frame("bart_idle_blink_2"@, 100),
    ]
}

/// Bart's animations by name: `idle`, `walk_front`, `walk_back` and one per
/// chore (`skateboard`, `slingshot`, `play_simulator`); all of them loop.
pub open spec fn bart_animation_table() -> Map<Seq<char>, AnimationView> {
    Map::<Seq<char>, AnimationView>::empty()
        .insert("idle"@, looping("idle"@, bart_idle_frames()))
        .insert("walk_front"@, looping("walk_front"@, numbered_frames("bart_front_walk_"@, 1, 4, 150)))
        .insert("walk_back"@, looping("walk_back"@, numbered_frames("bart_back_walk_"@, 1, 4, 150)))
        .insert("skateboard"@, looping("skateboard"@, numbered_frames("bart_skateboard_"@, 1, 6, 120)))
        .insert("slingshot"@, looping("slingshot"@, numbered_frames("bart_slingshot_"@, 1, 15, 100)))
        .insert(
            "play_simulator"@,
            looping("play_simulator"@, numbered_frames("bart_play_simulator_"@, 1, 18, 120)),
        )
}

/// Bart's animation definitions.
pub fn bart_animations() -> (r: AnimationSet)
    ensures
        r@ == bart_animation_table(),
{
    let mut anims = AnimationSet::new();

    let mut idle: Vec<Frame> = Vec::new();
    push_frame(&mut idle, "bart_idle_1", 2000);
    push_frame(&mut idle, "bart_idle_blink_1", 100);
    push_frame(&mut idle, "bart_idle_blink_2", 100);
    push_frame(&mut idle, "bart_idle_1", 3000);
    push_frame(&mut idle, "bart_idle_blink_1", 100);
    push_frame(&mut idle, "bart_idle_blink_2", 100);
    proof {
        assert(frames_view(idle@) =~= bart_idle_frames());
    }
    add_looping(&mut anims, "idle", idle);

    add_looping(&mut anims, "walk_front", numbered_frame_list("bart_front_walk_", 1, 4, 150));
    add_looping(&mut anims, "walk_back", numbered_frame_list("bart_back_walk_", 1, 4, 150));
    add_looping(&mut anims, "skateboard", numbered_frame_list("bart_skateboard_", 1, 6, 120));
    add_looping(&mut anims, "slingshot", numbered_frame_list("bart_slingshot_", 1, 15, 100));
    add_looping(&mut anims, "play_simulator", numbered_frame_list("bart_play_simulator_", 1, 18, 120));
    anims
}

/// Bart's texture files, by texture key: the idle and walk images, then the
/// images of his three chores, in that order.
pub open spec fn bart_texture_table() -> Seq<(Seq<char>, Seq<char>)> {
    seq![
        ("bart_idle_1"@, "assets/Characters/Bart/Idle/bart_idle_image_1.png"@),
        ("bart_idle_blink_1"@, "assets/Characters/Bart/Idle/bart_idle_blink_image_1.png"@),
        ("bart_idle_blink_2"@, "assets/Characters/Bart/Idle/bart_idle_blink_image_2.png"@),
    ]
    + numbered_paths("bart_front_walk_"@, 1, "assets/Characters/Bart/Walk/bart_front_walk_image_"@, 1, ".png"@, 4)
    + numbered_paths("bart_back_walk_"@, 1, "assets/Characters/Bart/Walk/bart_back_walk_image_"@, 1, ".png"@, 4)
    + numbered_paths(
        "bart_skateboard_"@,
        1,
        "assets/Characters/Bart/Skateboard/bart_skateboarding_front_image_"@,
        1,
        ".png"@,
        6,
    )
    + numbered_paths(
        "bart_slingshot_"@,
        1,
        "assets/Characters/Bart/Slingshot/bart_walk_slingshot_shoot_slingshot_image_"@,
        1,
        ".png"@,
        15,
    )
    + numbered_paths(
        "bart_play_simulator_"@,
        1,
        "assets/Characters/Bart/Play Yard Work Simulator/bart_do_virtual_job_active_2_image_"@,
        1,
        ".png"@,
        18,
    )
}

/// Bart's texture keys and the files they load from (relative to the web root).
pub fn bart_texture_paths() -> (r: Vec<(String, String)>)
    ensures
        pairs_view(r@) == bart_texture_table(),
{
    let mut paths: Vec<(String, String)> = Vec::new();

    // Idle
    push_path(&mut paths, "bart_idle_1", "assets/Characters/Bart/Idle/bart_idle_image_1.png");
    push_path(&mut paths, "bart_idle_blink_1", "assets/Characters/Bart/Idle/bart_idle_blink_image_1.png");
    push_path(&mut paths, "bart_idle_blink_2", "assets/Characters/Bart/Idle/bart_idle_blink_image_2.png");
    let ghost idle = pairs_view(paths@);

    // Walking
    push_numbered_paths(&mut paths, "bart_front_walk_", 1, "assets/Characters/Bart/Walk/bart_front_walk_image_", 1, ".png", 4);
    push_numbered_paths(&mut paths, "bart_back_walk_", 1, "assets/Characters/Bart/Walk/bart_back_walk_image_", 1, ".png", 4);

    // Chores
    push_numbered_paths(
        &mut paths,
        "bart_skateboard_",
        1,
        "assets/Characters/Bart/Skateboard/bart_skateboarding_front_image_",
        1,
        ".png",
        6,
    );
    push_numbered_paths(
        &mut paths,
        "bart_slingshot_",
        1,
        "assets/Characters/Bart/Slingshot/bart_walk_slingshot_shoot_slingshot_image_",
        1,
        ".png",
        15,
    );
    push_numbered_paths(
        &mut paths,
        "bart_play_simulator_",
        1,
        "assets/Characters/Bart/Play Yard Work Simulator/bart_do_virtual_job_active_2_image_",
        1,
        ".png",
        18,
    );

    proof {
        assert(idle =~= seq![
            ("bart_idle_1"@, "assets/Characters/Bart/Idle/bart_idle_image_1.png"@),
            ("bart_idle_blink_1"@, "assets/Characters/Bart/Idle/bart_idle_blink_image_1.png"@),
            ("bart_idle_blink_2"@, "assets/Characters/Bart/Idle/bart_idle_blink_image_2.png"@),
        ]);
        assert(pairs_view(paths@) =~= bart_texture_table());
    }
    paths
}

// ---------------------------------------------------------------- Laws

/// Whether `table` has an entry for texture `key`.
pub open spec fn has_texture(table: Seq<(Seq<char>, Seq<char>)>, key: Seq<char>) -> bool {
    exists|j: int| 0 <= j < table.len() && #[trigger] table[j].0 == key
}

/// Every texture that one of `animations` shows has an entry in `table`.
pub open spec fn textures_cover(
    animations: Map<Seq<char>, AnimationView>,
    table: Seq<(Seq<char>, Seq<char>)>,
) -> bool {
    forall|name: Seq<char>, i: int|
        #![trigger animations[name].frames[i]]
        animations.contains_key(name) && 0 <= i < animations[name].frames.len()
            ==> has_texture(table, animations[name].frames[i].texture_key)
}

/// Every animation is stored under its own name, has frames, and each frame
/// stays on screen for some time.
pub open spec fn animations_well_formed(animations: Map<Seq<char>, AnimationView>) -> bool {
    forall|name: Seq<char>|
        #[trigger] animations.contains_key(name) ==> {
            &&& animations[name].name == name
            &&& animations[name].frames.len() > 0
            &&& forall|i: int|
                0 <= i < animations[name].frames.len() ==> #[trigger] animations[name].frames[i].duration_ms > 0
        }
}

/// The animations that a character needs whatever it does: standing and walking.
pub open spec fn has_basic_animations(animations: Map<Seq<char>, AnimationView>) -> bool {
    &&& animations.contains_key("idle"@)
    &&& animations.contains_key("walk_front"@)
    &&& animations.contains_key("walk_back"@)
}

/// The names of Homer's animations differ from one another.
proof fn lemma_homer_names_distinct()
    ensures
        distinct(seq!["idle"@, "walk_front"@, "walk_back"@, "clean"@, "play"@, "drink"@]),
{
    reveal_strlit("idle");
    reveal_strlit("walk_front");
    reveal_strlit("walk_back");
    reveal_strlit("clean");
    reveal_strlit("play");
    reveal_strlit("drink");
    assert("idle"@.len() == 4 && "walk_front"@.len() == 10 && "walk_back"@.len() == 9);
    assert("clean"@.len() == 5 && "play"@.len() == 4 && "drink"@.len() == 5);
    assert("idle"@[0] != "play"@[0]);
    assert("clean"@[0] != "drink"@[0]);
}

/// The names of Bart's animations differ from one another.
proof fn lemma_bart_names_distinct()
    ensures
        distinct(seq!["idle"@, "walk_front"@, "walk_back"@, "skateboard"@, "slingshot"@, "play_simulator"@]),
{
    reveal_strlit("idle");
    reveal_strlit("walk_front");
    reveal_strlit("walk_back");
    reveal_strlit("skateboard");
    reveal_strlit("slingshot");
    reveal_strlit("play_simulator");
    assert("idle"@.len() == 4 && "walk_front"@.len() == 10 && "walk_back"@.len() == 9);
    assert("skateboard"@.len() == 10 && "slingshot"@.len() == 9 && "play_simulator"@.len() == 14);
    assert("walk_front"@[0] != "skateboard"@[0]);
    assert("walk_back"@[0] != "slingshot"@[0]);
}

/// No two items of `s` are equal.
pub open spec fn distinct(s: Seq<Seq<char>>) -> bool {
    forall|i: int, j: int| 0 <= i < s.len() && 0 <= j < s.len() && i != j ==> #[trigger] s[i] != #[trigger] s[j]
}

/// Every texture that Homer's animations show is in Homer's texture list.
pub proof fn lemma_homer_textures_cover_animations()
    ensures
        textures_cover(homer_animation_table(), homer_texture_table()),
{
    lemma_homer_names_distinct();
    let m = homer_animation_table();
    let t = homer_texture_table();
    assert(t.len() == 29);
    assert forall|name: Seq<char>, i: int|
        m.contains_key(name) && 0 <= i < m[name].frames.len()
        implies has_texture(t, #[trigger] m[name].frames[i].texture_key) by {
        let key = m[name].frames[i].texture_key;
        if name == "idle"@ {
            assert(m[name].frames == homer_idle_frames());
            if i == 0 || i == 3 {
                assert(t[0].0 == key);
            } else if i == 1 || i == 4 {
                assert(t[1].0 == key);
            } else {
                assert(t[2].0 == key);
            }
        } else if name == "walk_front"@ {
            assert(t[3 + i].0 == key);
        } else if name == "walk_back"@ {
            assert(t[7 + i].0 == key);
        } else if name == "clean"@ {
            assert(t[12 + i].0 == key);
        } else if name == "play"@ {
            assert(t[18 + i].0 == key);
        } else {
            assert(name == "drink"@);
            assert(t[22 + i].0 == key);
        }
    }
}

/// Every texture that Bart's animations show is in Bart's texture list.
pub proof fn lemma_bart_textures_cover_animations()
    ensures
        textures_cover(bart_animation_table(), bart_texture_table()),
{
    lemma_bart_names_distinct();
    let names = seq!["idle"@, "walk_front"@, "walk_back"@, "skateboard"@, "slingshot"@, "play_simulator"@];
    assert(names[0] != names[1] && names[0] != names[2] && names[0] != names[3] && names[0] != names[4] && names[0] != names[5]);
    assert(names[1] != names[2] && names[1] != names[3] && names[1] != names[4] && names[1] != names[5]);
    assert(names[2] != names[3] && names[2] != names[4] && names[2] != names[5]);
    assert(names[3] != names[4] && names[3] != names[5] && names[4] != names[5]);
    let m = bart_animation_table();
    let t = bart_texture_table();
    assert(t.len() == 50);
    assert forall|name: Seq<char>, i: int|
        m.contains_key(name) && 0 <= i < m[name].frames.len()
        implies has_texture(t, #[trigger] m[name].frames[i].texture_key) by {
        let key = m[name].frames[i].texture_key;
        if name == "idle"@ {
            assert(m[name].frames == bart_idle_frames());
            if i == 0 || i == 3 {
                assert(t[0].0 == key);
            } else if i == 1 || i == 4 {
                assert(t[1].0 == key);
            } else {
                assert(t[2].0 == key);
            }
        } else if name == "walk_front"@ {
            assert(t[3 + i].0 == key);
        } else if name == "walk_back"@ {
            assert(t[7 + i].0 == key);
        } else if name == "skateboard"@ {
            assert(t[11 + i].0 == key);
        } else if name == "slingshot"@ {
            assert(t[17 + i].0 == key);
        } else {
            assert(name == "play_simulator"@);
            assert(t[32 + i].0 == key);
        }
    }
}

/// Each of Homer's animations is stored under its own name, has frames, and
/// every frame lasts; standing and walking are among them.
pub proof fn lemma_homer_animations_well_formed()
    ensures
        animations_well_formed(homer_animation_table()),
        has_basic_animations(homer_animation_table()),
{
    lemma_homer_names_distinct();
    let names = seq!["idle"@, "walk_front"@, "walk_back"@, "clean"@, "play"@, "drink"@];
    assert(names[0] != names[1] && names[0] != names[2] && names[0] != names[3] && names[0] != names[4] && names[0] != names[5]);
    assert(names[1] != names[2] && names[1] != names[3] && names[1] != names[4] && names[1] != names[5]);
    assert(names[2] != names[3] && names[2] != names[4] && names[2] != names[5]);
    assert(names[3] != names[4] && names[3] != names[5] && names[4] != names[5]);
    let m = homer_animation_table();
    assert forall|name: Seq<char>| #[trigger] m.contains_key(name) implies {
        &&& m[name].name == name
        &&& m[name].frames.len() > 0
        &&& forall|i: int| 0 <= i < m[name].frames.len() ==> #[trigger] m[name].frames[i].duration_ms > 0
    } by {
        if name == "idle"@ {
            assert(m[name].frames == homer_idle_frames());
        }
    }
}

/// Each of Bart's animations is stored under its own name, has frames, and
/// every frame lasts; standing and walking are among them.
pub proof fn lemma_bart_animations_well_formed()
    ensures
        animations_well_formed(bart_animation_table()),
        has_basic_animations(bart_animation_table()),
{
    lemma_bart_names_distinct();
    let names = seq!["idle"@, "walk_front"@, "walk_back"@, "skateboard"@, "slingshot"@, "play_simulator"@];
    assert(names[0] != names[1] && names[0] != names[2] && names[0] != names[3] && names[0] != names[4] && names[0] != names[5]);
    assert(names[1] != names[2] && names[1] != names[3] && names[1] != names[4] && names[1] != names[5]);
    assert(names[2] != names[3] && names[2] != names[4] && names[2] != names[5]);
    assert(names[3] != names[4] && names[3] != names[5] && names[4] != names[5]);
    let m = bart_animation_table();
    assert forall|name: Seq<char>| #[trigger] m.contains_key(name) implies {
        &&& m[name].name == name
        &&& m[name].frames.len() > 0
        &&& forall|i: int| 0 <= i < m[name].frames.len() ==> #[trigger] m[name].frames[i].duration_ms > 0
    } by {
        if name == "idle"@ {
            assert(m[name].frames == bart_idle_frames());
        }
    }
}

/// Every chore that earns a character cash has an animation of that name,
/// so a character at work is always drawn.
pub proof fn lemma_paid_chores_are_animated(job: Seq<char>)
    ensures
        reward_of(Character::Homer, job) > 0 ==> homer_animation_table().contains_key(job),
        reward_of(Character::Bart, job) > 0 ==> bart_animation_table().contains_key(job),
{
}

/// No texture key occurs twice in `table`.
pub open spec fn keys_unique(table: Seq<(Seq<char>, Seq<char>)>) -> bool {
    forall|i: int, j: int|
        0 <= i < table.len() && 0 <= j < table.len() && i != j ==> #[trigger] table[i].0 != #[trigger] table[j].0
}

/// The seventh character of the key at position `i` of Homer's texture list.
spec fn homer_key_mark(i: int) -> char {
    if i < 3 {
        'i'
    } else if i < 7 {
        'f'
    } else if i < 11 {
        'b'
    } else if i == 11 {
        'g'
    } else if i < 18 {
        'c'
    } else if i < 22 {
        'p'
    } else if i < 28 {
        'd'
    } else {
        't'
    }
}

/// The prefix of the numbered key at position `i` of Homer's texture list.
spec fn homer_key_prefix(i: int) -> Seq<char> {
    if i < 7 {
        "homer_front_walk_"@
    } else if i < 11 {
        "homer_back_walk_"@
    } else if i < 18 {
        "homer_clean_"@
    } else if i < 22 {
        "homer_play_"@
    } else {
        "homer_drink_"@
    }
}

/// The number of the numbered key at position `i` of Homer's texture list.
spec fn homer_key_number(i: int) -> nat {
    if i < 7 {
        (i - 2) as nat
    } else if i < 11 {
        (i - 6) as nat
    } else if i < 18 {
        (i - 12) as nat
    } else if i < 22 {
        if i == 21 { 7 } else { (i - 17) as nat }
    } else {
        (i - 22) as nat
    }
}

/// Where each key of Homer's texture list comes from, and its seventh character.
proof fn lemma_homer_key_shapes()
    ensures
        homer_texture_table().len() == 29,
        forall|i: int| 0 <= i < 29 ==> {
            &&& #[trigger] homer_texture_table()[i].0.len() > 6
            &&& homer_texture_table()[i].0[6] == homer_key_mark(i)
            &&& (3 <= i < 28 && i != 11) ==> homer_texture_table()[i].0 == numbered(homer_key_prefix(i), homer_key_number(i))
        },
{
    reveal_strlit("homer_idle_1");
    reveal_strlit("homer_idle_blink_1");
    reveal_strlit("homer_idle_blink_2");
    reveal_strlit("homer_front_walk_");
    reveal_strlit("homer_back_walk_");
    reveal_strlit("menu_bg");
    reveal_strlit("homer_clean_");
    reveal_strlit("homer_play_");
    reveal_strlit("homer_drink_");
    reveal_strlit("grass_tile");
    let t = homer_texture_table();
    assert forall|i: int| 0 <= i < 29 implies {
        &&& #[trigger] t[i].0.len() > 6
        &&& t[i].0[6] == homer_key_mark(i)
        &&& (3 <= i < 28 && i != 11) ==> t[i].0 == numbered(homer_key_prefix(i), homer_key_number(i))
    } by {
        if 3 <= i < 28 && i != 11 {
            let key = numbered(homer_key_prefix(i), homer_key_number(i));
            if i < 7 {
                assert(t[i].0 == key);
            } else if i < 11 {
                assert(t[i].0 == key);
            } else if i < 18 {
                assert(t[i].0 == key);
            } else if i < 22 {
                assert(t[i].0 == key);
            } else {
                assert(t[i].0 == key);
            }
            assert(key[6] == homer_key_prefix(i)[6]);
        }
    }
}

/// No texture key occurs twice in Homer's texture list.
pub proof fn lemma_homer_texture_keys_unique()
    ensures
        keys_unique(homer_texture_table()),
{
    lemma_homer_key_shapes();
    reveal_strlit("homer_idle_1");
    reveal_strlit("homer_idle_blink_1");
    reveal_strlit("homer_idle_blink_2");
    let t = homer_texture_table();
    assert forall|i: int, j: int| 0 <= i < t.len() && 0 <= j < t.len() && i != j
        implies #[trigger] t[i].0 != #[trigger] t[j].0 by {
        assert(t[i].0.len() > 6 && t[j].0.len() > 6);
        if homer_key_mark(i) != homer_key_mark(j) {
            assert(t[i].0[6] != t[j].0[6]);
        } else if i < 3 {
            assert(t[0].0.len() == 12 && t[1].0.len() == 18 && t[2].0.len() == 18);
            assert(t[1].0[17] != t[2].0[17]);
        } else if i != 11 && i != 28 {
            if t[i].0 == t[j].0 {
                assert(homer_key_prefix(i) == homer_key_prefix(j));
                crate::text::lemma_numbered_injective(homer_key_prefix(i), homer_key_number(i), homer_key_number(j));
            }
        }
    }
}

/// The sixth and seventh characters of the key at position `i` of Bart's texture list.
spec fn bart_key_mark(i: int) -> (char, char) {
    if i < 3 {
        ('i', 'd')
    } else if i < 7 {
        ('f', 'r')
    } else if i < 11 {
        ('b', 'a')
    } else if i < 17 {
        ('s', 'k')
    } else if i < 32 {
        ('s', 'l')
    } else {
        ('p', 'l')
    }
}

/// The prefix of the numbered key at position `i` of Bart's texture list.
spec fn bart_key_prefix(i: int) -> Seq<char> {
    if i < 7 {
        "bart_front_walk_"@
    } else if i < 11 {
        "bart_back_walk_"@
    } else if i < 17 {
        "bart_skateboard_"@
    } else if i < 32 {
        "bart_slingshot_"@
    } else {
        "bart_play_simulator_"@
    }
}

/// The number of the numbered key at position `i` of Bart's texture list.
spec fn bart_key_number(i: int) -> nat {
    if i < 7 {
        (i - 2) as nat
    } else if i < 11 {
        (i - 6) as nat
    } else if i < 17 {
        (i - 10) as nat
    } else if i < 32 {
        (i - 16) as nat
    } else {
        (i - 31) as nat
    }
}

/// Where each key of Bart's texture list comes from, and its sixth and seventh characters.
proof fn lemma_bart_key_shapes()
    ensures
        bart_texture_table().len() == 50,
        forall|i: int| 0 <= i < 50 ==> {
            &&& #[trigger] bart_texture_table()[i].0.len() > 6
            &&& (bart_texture_table()[i].0[5], bart_texture_table()[i].0[6]) == bart_key_mark(i)
            &&& 3 <= i ==> bart_texture_table()[i].0 == numbered(bart_key_prefix(i), bart_key_number(i))
        },
{
    reveal_strlit("bart_idle_1");
    reveal_strlit("bart_idle_blink_1");
    reveal_strlit("bart_idle_blink_2");
    reveal_strlit("bart_front_walk_");
    reveal_strlit("bart_back_walk_");
    reveal_strlit("bart_skateboard_");
    reveal_strlit("bart_slingshot_");
    reveal_strlit("bart_play_simulator_");
    let t = bart_texture_table();
    assert forall|i: int| 0 <= i < 50 implies {
        &&& #[trigger] t[i].0.len() > 6
        &&& (t[i].0[5], t[i].0[6]) == bart_key_mark(i)
        &&& 3 <= i ==> t[i].0 == numbered(bart_key_prefix(i), bart_key_number(i))
    } by {
        if 3 <= i {
            let key = numbered(bart_key_prefix(i), bart_key_number(i));
            if i < 7 {
                assert(t[i].0 == key);
            } else if i < 11 {
                assert(t[i].0 == key);
            } else if i < 17 {
                assert(t[i].0 == key);
            } else if i < 32 {
                assert(t[i].0 == key);
            } else {
                assert(t[i].0 == key);
            }
            assert(key[5] == bart_key_prefix(i)[5]);
            assert(key[6] == bart_key_prefix(i)[6]);
        }
    }
}

/// No texture key occurs twice in Bart's texture list.
pub proof fn lemma_bart_texture_keys_unique()
    ensures
        keys_unique(bart_texture_table()),
{
    lemma_bart_key_shapes();
    reveal_strlit("bart_idle_1");
    reveal_strlit("bart_idle_blink_1");
    reveal_strlit("bart_idle_blink_2");
    let t = bart_texture_table();
    assert forall|i: int, j: int| 0 <= i < t.len() && 0 <= j < t.len() && i != j
        implies #[trigger] t[i].0 != #[trigger] t[j].0 by {
        assert(t[i].0.len() > 6 && t[j].0.len() > 6);
        if bart_key_mark(i) != bart_key_mark(j) {
            assert(t[i].0[5] != t[j].0[5] || t[i].0[6] != t[j].0[6]);
        } else if i < 3 {
            assert(t[0].0.len() == 11 && t[1].0.len() == 17 && t[2].0.len() == 17);
            assert(t[1].0[16] != t[2].0[16]);
        } else {
            if t[i].0 == t[j].0 {
                assert(bart_key_prefix(i) == bart_key_prefix(j));
                crate::text::lemma_numbered_injective(bart_key_prefix(i), bart_key_number(i), bart_key_number(j));
            }
        }
    }
}

/// Every animation of either character loops: standing, walking and every
/// chore play over and over until the character does something else.
pub proof fn lemma_all_animations_loop()
    ensures
        forall|name: Seq<char>| #[trigger] homer_animation_table().contains_key(name)
            ==> homer_animation_table()[name].looping,
        forall|name: Seq<char>| #[trigger] bart_animation_table().contains_key(name)
            ==> bart_animation_table()[name].looping,
{
    lemma_homer_names_distinct();
    lemma_bart_names_distinct();
    let hn = seq!["idle"@, "walk_front"@, "walk_back"@, "clean"@, "play"@, "drink"@];
    assert(hn[0] != hn[1] && hn[0] != hn[2] && hn[0] != hn[3] && hn[0] != hn[4] && hn[0] != hn[5]);
    assert(hn[1] != hn[2] && hn[1] != hn[3] && hn[1] != hn[4] && hn[1] != hn[5]);
    assert(hn[2] != hn[3] && hn[2] != hn[4] && hn[2] != hn[5]);
    assert(hn[3] != hn[4] && hn[3] != hn[5] && hn[4] != hn[5]);
    let bn = seq!["idle"@, "walk_front"@, "walk_back"@, "skateboard"@, "slingshot"@, "play_simulator"@];
    assert(bn[0] != bn[1] && bn[0] != bn[2] && bn[0] != bn[3] && bn[0] != bn[4] && bn[0] != bn[5]);
    assert(bn[1] != bn[2] && bn[1] != bn[3] && bn[1] != bn[4] && bn[1] != bn[5]);
    assert(bn[2] != bn[3] && bn[2] != bn[4] && bn[2] != bn[5]);
    assert(bn[3] != bn[4] && bn[3] != bn[5] && bn[4] != bn[5]);
}

/// The path listed for texture `key` in `table` is `path`, wherever `key` occurs.
pub open spec fn lists(table: Seq<(Seq<char>, Seq<char>)>, key: Seq<char>, path: Seq<char>) -> bool {
    forall|j: int| 0 <= j < table.len() && #[trigger] table[j].0 == key ==> table[j].1 == path
}

/// The image folder and name of the numbered file at position `i` of Homer's texture list.
spec fn homer_path_prefix(i: int) -> Seq<char> {
    if i < 7 {
        "assets/Characters/Homer/Walk/homer_front_walk_image_"@
    } else if i < 11 {
        "assets/Characters/Homer/Walk/homer_back_walk_image_"@
    } else if i < 18 {
        "assets/Characters/Homer/Clean Up Springfield/homer_pick_trash_active_image_"@
    } else if i < 22 {
        "assets/Characters/Homer/Play with his myPad/homer_play_happy_little_elves_active_image_"@
    } else {
        "assets/Characters/Homer/Drink Beer/homer_drink_beer_image_"@
    }
}

/// The number of the numbered file at position `i` of Homer's texture list.
spec fn homer_path_number(i: int) -> nat {
    if 12 <= i < 18 { homer_key_number(i) + 1 } else { homer_key_number(i) }
}

/// Each numbered entry of Homer's texture list, key and file.
proof fn lemma_homer_entry_shapes()
    ensures
        forall|i: int| 3 <= i < 28 && i != 11 ==> #[trigger] homer_texture_table()[i] == (
            numbered(homer_key_prefix(i), homer_key_number(i)),
            numbered(homer_path_prefix(i), homer_path_number(i)) + ".png"@,
        ),
{
    let t = homer_texture_table();
    assert forall|i: int| 3 <= i < 28 && i != 11 implies #[trigger] t[i] == (
        numbered(homer_key_prefix(i), homer_key_number(i)),
        numbered(homer_path_prefix(i), homer_path_number(i)) + ".png"@,
    ) by {
        let e = (
            numbered(homer_key_prefix(i), homer_key_number(i)),
            numbered(homer_path_prefix(i), homer_path_number(i)) + ".png"@,
        );
        if i < 7 {
            assert(t[i] == e);
        } else if i < 11 {
            assert(t[i] == e);
        } else if i < 18 {
            assert(t[i] == e);
        } else if i < 22 {
            assert(t[i] == e);
        } else {
            assert(t[i] == e);
        }
    }
}

/// Each of Homer's texture keys is paired with its own image file: the
/// standing, blinking, menu and grass keys with their files, and a numbered
/// key with the file of the same pose and the same number (the cleaning
/// images are counted from one, their keys from zero).
pub proof fn lemma_homer_texture_files()
    ensures
        lists(homer_texture_table(), "homer_idle_1"@, "assets/Characters/Homer/Idle/homer_idle_image_1.png"@),
        lists(homer_texture_table(), "homer_idle_blink_1"@, "assets/Characters/Homer/Idle/homer_idle_blink_image_1.png"@),
        lists(homer_texture_table(), "homer_idle_blink_2"@, "assets/Characters/Homer/Idle/homer_idle_blink_image_2.png"@),
        lists(homer_texture_table(), "menu_bg"@, "assets/Menu/main_menu_background.webp"@),
        lists(homer_texture_table(), "grass_tile"@, "assets/tiles/grass.png"@),
        forall|n: nat| #[trigger] lists(homer_texture_table(), numbered("homer_front_walk_"@, n),
            numbered("assets/Characters/Homer/Walk/homer_front_walk_image_"@, n) + ".png"@),
        forall|n: nat| #[trigger] lists(homer_texture_table(), numbered("homer_back_walk_"@, n),
            numbered("assets/Characters/Homer/Walk/homer_back_walk_image_"@, n) + ".png"@),
        forall|n: nat| #[trigger] lists(homer_texture_table(), numbered("homer_clean_"@, n),
            numbered("assets/Characters/Homer/Clean Up Springfield/homer_pick_trash_active_image_"@, n + 1) + ".png"@),
        forall|n: nat| #[trigger] lists(homer_texture_table(), numbered("homer_play_"@, n),
            numbered("assets/Characters/Homer/Play with his myPad/homer_play_happy_little_elves_active_image_"@, n) + ".png"@),
        forall|n: nat| #[trigger] lists(homer_texture_table(), numbered("homer_drink_"@, n),
            numbered("assets/Characters/Homer/Drink Beer/homer_drink_beer_image_"@, n) + ".png"@),
{
    lemma_homer_key_shapes();
    lemma_homer_entry_shapes();
    lemma_homer_texture_keys_unique();
    reveal_strlit("homer_front_walk_");
    reveal_strlit("homer_back_walk_");
    reveal_strlit("homer_clean_");
    reveal_strlit("homer_play_");
    reveal_strlit("homer_drink_");
    let t = homer_texture_table();
    assert(t[0].0 == "homer_idle_1"@ && t[1].0 == "homer_idle_blink_1"@ && t[2].0 == "homer_idle_blink_2"@);
    assert(t[11].0 == "menu_bg"@ && t[28].0 == "grass_tile"@);
    assert forall|n: nat, kp: Seq<char>, j: int|
        #![trigger t[j], numbered(kp, n)]
        0 <= j < t.len() && t[j].0 == numbered(kp, n) && (
            kp == "homer_front_walk_"@ || kp == "homer_back_walk_"@ || kp == "homer_clean_"@
            || kp == "homer_play_"@ || kp == "homer_drink_"@)
        implies 3 <= j < 28 && j != 11 && homer_key_prefix(j) == kp && homer_key_number(j) == n by {
        assert(t[j].0.len() > 6);
        assert(numbered(kp, n)[6] == kp[6]);
        assert(homer_key_mark(j) == kp[6]);
        crate::text::lemma_numbered_injective(kp, homer_key_number(j), n);
    }
    assert forall|n: nat| #[trigger] lists(t, numbered("homer_clean_"@, n),
        numbered("assets/Characters/Homer/Clean Up Springfield/homer_pick_trash_active_image_"@, n + 1) + ".png"@) by {
        assert forall|j: int| 0 <= j < t.len() && #[trigger] t[j].0 == numbered("homer_clean_"@, n)
            implies t[j].1 == numbered("assets/Characters/Homer/Clean Up Springfield/homer_pick_trash_active_image_"@, n + 1) + ".png"@ by {
            assert(homer_key_prefix(j) == "homer_clean_"@);
            assert(t[j].0.len() > 6);
            assert(numbered("homer_clean_"@, n)[6] == 'c');
            assert(homer_key_mark(j) == 'c');
            assert(12 <= j < 18);
            assert(homer_path_number(j) == n + 1);
        }
    }
    assert forall|n: nat| #[trigger] lists(t, numbered("homer_drink_"@, n),
        numbered("assets/Characters/Homer/Drink Beer/homer_drink_beer_image_"@, n) + ".png"@) by {
        assert forall|j: int| 0 <= j < t.len() && #[trigger] t[j].0 == numbered("homer_drink_"@, n)
            implies t[j].1 == numbered("assets/Characters/Homer/Drink Beer/homer_drink_beer_image_"@, n) + ".png"@ by {
            assert(homer_key_prefix(j) == "homer_drink_"@);
            assert(t[j].0.len() > 6);
            assert(numbered("homer_drink_"@, n)[6] == 'd');
            assert(homer_key_mark(j) == 'd');
            assert(22 <= j < 28);
        }
    }
}

/// The image folder and name of the numbered file at position `i` of Bart's texture list.
spec fn bart_path_prefix(i: int) -> Seq<char> {
    if i < 7 {
        "assets/Characters/Bart/Walk/bart_front_walk_image_"@
    } else if i < 11 {
        "assets/Characters/Bart/Walk/bart_back_walk_image_"@
    } else if i < 17 {
        "assets/Characters/Bart/Skateboard/bart_skateboarding_front_image_"@
    } else if i < 32 {
        "assets/Characters/Bart/Slingshot/bart_walk_slingshot_shoot_slingshot_image_"@
    } else {
        "assets/Characters/Bart/Play Yard Work Simulator/bart_do_virtual_job_active_2_image_"@
    }
}

/// Each numbered entry of Bart's texture list, key and file.
proof fn lemma_bart_entry_shapes()
    ensures
        forall|i: int| 3 <= i < 50 ==> #[trigger] bart_texture_table()[i] == (
            numbered(bart_key_prefix(i), bart_key_number(i)),
            numbered(bart_path_prefix(i), bart_key_number(i)) + ".png"@,
        ),
{
    let t = bart_texture_table();
    assert forall|i: int| 3 <= i < 50 implies #[trigger] t[i] == (
        numbered(bart_key_prefix(i), bart_key_number(i)),
        numbered(bart_path_prefix(i), bart_key_number(i)) + ".png"@,
    ) by {
        let e = (
            numbered(bart_key_prefix(i), bart_key_number(i)),
            numbered(bart_path_prefix(i), bart_key_number(i)) + ".png"@,
        );
        if i < 7 {
            assert(t[i] == e);
        } else if i < 11 {
            assert(t[i] == e);
        } else if i < 17 {
            assert(t[i] == e);
        } else if i < 32 {
            assert(t[i] == e);
        } else {
            assert(t[i] == e);
        }
    }
}

/// Each of Bart's texture keys is paired with its own image file: the
/// standing and blinking keys with their files, and a numbered key with the
/// file of the same pose and the same number.
pub proof fn lemma_bart_texture_files()
    ensures
        lists(bart_texture_table(), "bart_idle_1"@, "assets/Characters/Bart/Idle/bart_idle_image_1.png"@),
        lists(bart_texture_table(), "bart_idle_blink_1"@, "assets/Characters/Bart/Idle/bart_idle_blink_image_1.png"@),
        lists(bart_texture_table(), "bart_idle_blink_2"@, "assets/Characters/Bart/Idle/bart_idle_blink_image_2.png"@),
        forall|n: nat| #[trigger] lists(bart_texture_table(), numbered("bart_front_walk_"@, n),
            numbered("assets/Characters/Bart/Walk/bart_front_walk_image_"@, n) + ".png"@),
        forall|n: nat| #[trigger] lists(bart_texture_table(), numbered("bart_back_walk_"@, n),
            numbered("assets/Characters/Bart/Walk/bart_back_walk_image_"@, n) + ".png"@),
        forall|n: nat| #[trigger] lists(bart_texture_table(), numbered("bart_skateboard_"@, n),
            numbered("assets/Characters/Bart/Skateboard/bart_skateboarding_front_image_"@, n) + ".png"@),
        forall|n: nat| #[trigger] lists(bart_texture_table(), numbered("bart_slingshot_"@, n),
            numbered("assets/Characters/Bart/Slingshot/bart_walk_slingshot_shoot_slingshot_image_"@, n) + ".png"@),
        forall|n: nat| #[trigger] lists(bart_texture_table(), numbered("bart_play_simulator_"@, n),
            numbered("assets/Characters/Bart/Play Yard Work Simulator/bart_do_virtual_job_active_2_image_"@, n) + ".png"@),
{
    lemma_bart_key_shapes();
    lemma_bart_entry_shapes();
    lemma_bart_texture_keys_unique();
    reveal_strlit("bart_front_walk_");
    reveal_strlit("bart_back_walk_");
    reveal_strlit("bart_skateboard_");
    reveal_strlit("bart_slingshot_");
    reveal_strlit("bart_play_simulator_");
    let t = bart_texture_table();
    assert(t[0].0 == "bart_idle_1"@ && t[1].0 == "bart_idle_blink_1"@ && t[2].0 == "bart_idle_blink_2"@);
    assert forall|n: nat| #[trigger] lists(t, numbered("bart_front_walk_"@, n), numbered("assets/Characters/Bart/Walk/bart_front_walk_image_"@, n) + ".png"@) by {
        assert forall|j: int| 0 <= j < t.len() && #[trigger] t[j].0 == numbered("bart_front_walk_"@, n)
            implies t[j].1 == numbered("assets/Characters/Bart/Walk/bart_front_walk_image_"@, n) + ".png"@ by {
            assert(t[j].0.len() > 6);
            assert(numbered("bart_front_walk_"@, n)[5] == 'f' && numbered("bart_front_walk_"@, n)[6] == 'r');
            assert(bart_key_mark(j) == ('f', 'r'));
            assert(3 <= j < 7);
            crate::text::lemma_numbered_injective("bart_front_walk_"@, bart_key_number(j), n);
        }
    }
    assert forall|n: nat| #[trigger] lists(t, numbered("bart_back_walk_"@, n), numbered("assets/Characters/Bart/Walk/bart_back_walk_image_"@, n) + ".png"@) by {
        assert forall|j: int| 0 <= j < t.len() && #[trigger] t[j].0 == numbered("bart_back_walk_"@, n)
            implies t[j].1 == numbered("assets/Characters/Bart/Walk/bart_back_walk_image_"@, n) + ".png"@ by {
            assert(t[j].0.len() > 6);
            assert(numbered("bart_back_walk_"@, n)[5] == 'b' && numbered("bart_back_walk_"@, n)[6] == 'a');
            assert(bart_key_mark(j) == ('b', 'a'));
            assert(7 <= j < 11);
            crate::text::lemma_numbered_injective("bart_back_walk_"@, bart_key_number(j), n);
        }
    }
    assert forall|n: nat| #[trigger] lists(t, numbered("bart_skateboard_"@, n), numbered("assets/Characters/Bart/Skateboard/bart_skateboarding_front_image_"@, n) + ".png"@) by {
        assert forall|j: int| 0 <= j < t.len() && #[trigger] t[j].0 == numbered("bart_skateboard_"@, n)
            implies t[j].1 == numbered("assets/Characters/Bart/Skateboard/bart_skateboarding_front_image_"@, n) + ".png"@ by {
            assert(t[j].0.len() > 6);
            assert(numbered("bart_skateboard_"@, n)[5] == 's' && numbered("bart_skateboard_"@, n)[6] == 'k');
            assert(bart_key_mark(j) == ('s', 'k'));
            assert(11 <= j < 17);
            crate::text::lemma_numbered_injective("bart_skateboard_"@, bart_key_number(j), n);
        }
    }
    assert forall|n: nat| #[trigger] lists(t, numbered("bart_slingshot_"@, n), numbered("assets/Characters/Bart/Slingshot/bart_walk_slingshot_shoot_slingshot_image_"@, n) + ".png"@) by {
        assert forall|j: int| 0 <= j < t.len() && #[trigger] t[j].0 == numbered("bart_slingshot_"@, n)
            implies t[j].1 == numbered("assets/Characters/Bart/Slingshot/bart_walk_slingshot_shoot_slingshot_image_"@, n) + ".png"@ by {
            assert(t[j].0.len() > 6);
            assert(numbered("bart_slingshot_"@, n)[5] == 's' && numbered("bart_slingshot_"@, n)[6] == 'l');
            assert(bart_key_mark(j) == ('s', 'l'));
            assert(17 <= j < 32);
            crate::text::lemma_numbered_injective("bart_slingshot_"@, bart_key_number(j), n);
        }
    }
    assert forall|n: nat| #[trigger] lists(t, numbered("bart_play_simulator_"@, n), numbered("assets/Characters/Bart/Play Yard Work Simulator/bart_do_virtual_job_active_2_image_"@, n) + ".png"@) by {
        assert forall|j: int| 0 <= j < t.len() && #[trigger] t[j].0 == numbered("bart_play_simulator_"@, n)
            implies t[j].1 == numbered("assets/Characters/Bart/Play Yard Work Simulator/bart_do_virtual_job_active_2_image_"@, n) + ".png"@ by {
            assert(t[j].0.len() > 6);
            assert(numbered("bart_play_simulator_"@, n)[5] == 'p' && numbered("bart_play_simulator_"@, n)[6] == 'l');
            assert(bart_key_mark(j) == ('p', 'l'));
            assert(32 <= j < 50);
            crate::text::lemma_numbered_injective("bart_play_simulator_"@, bart_key_number(j), n);
        }
    }
}

} // verus!
