use springfield::sprite::{Animation, AnimationSet, AnimationState, Frame};
use springfield::text::{numbered_key, same_text};

fn frames(keys: &[(&str, u32)]) -> Vec<Frame> {
    keys.iter().map(|(k, ms)| Frame::new(k.to_string(), *ms)).collect()
}

fn sample_set() -> AnimationSet {
    let mut set = AnimationSet::new();
    set.insert(
        "spin".to_string(),
        Animation { name: "spin".to_string(), frames: frames(&[("a", 10), ("b", 20), ("c", 30)]), looping: true },
    );
    set.insert(
        "wave".to_string(),
        Animation { name: "wave".to_string(), frames: frames(&[("x", 5), ("y", 5)]), looping: false },
    );
    set.insert("empty".to_string(), Animation { name: "empty".to_string(), frames: Vec::new(), looping: true });
    set
}

#[test]
fn numbered_key_writes_decimal() {
    assert_eq!(numbered_key("homer_front_walk_", 1), "homer_front_walk_1");
    assert_eq!(numbered_key("x_", 0), "x_0");
    assert_eq!(numbered_key("x_", 15), "x_15");
    assert_eq!(numbered_key("", 4294967295), "4294967295");
    assert_eq!(numbered_key("n", 100), "n100");
}

#[test]
fn same_text_compares_characters() {
    assert!(same_text("idle", "idle"));
    assert!(!same_text("idle", "idles"));
    assert!(!same_text("idle", "idLe"));
    assert!(same_text("", ""));
    assert!(same_text("héllo", "héllo"));
}

#[test]
fn set_get_after_insert() {
    let set = sample_set();
    let spin = set.get("spin").unwrap();
    assert_eq!(spin.name, "spin");
    assert_eq!(spin.frames.len(), 3);
    assert_eq!(spin.frames[1].texture_key, "b");
    assert_eq!(spin.frames[2].duration_ms, 30);
    assert!(set.get("missing").is_none());
}

#[test]
fn set_insert_replaces() {
    let mut set = sample_set();
    set.insert(
        "spin".to_string(),
        Animation { name: "other".to_string(), frames: frames(&[("z", 1)]), looping: false },
    );
    let spin = set.get("spin").unwrap();
    assert_eq!(spin.name, "other");
    assert_eq!(spin.frames.len(), 1);
    assert!(!spin.looping);
    assert_eq!(set.get("wave").unwrap().frames.len(), 2);
}

#[test]
fn state_starts_at_first_frame() {
    let set = sample_set();
    let st = AnimationState::new("spin");
    assert_eq!(st.current_animation, "spin");
    assert_eq!(st.frame_index, 0);
    assert_eq!(st.current_texture_key(&set), Some("a"));
    assert_eq!(st.frame_duration_ms(&set), Some(10));
    assert!(st.frame_is_valid(&set));
}

#[test]
fn set_animation_restarts_only_on_change() {
    let set = sample_set();
    let mut st = AnimationState::new("spin");
    st.update(true, &set);
    assert_eq!(st.frame_index, 1);
    assert!(!st.set_animation("spin"));
    assert_eq!(st.frame_index, 1);
    assert!(st.set_animation("wave"));
    assert_eq!(st.current_animation, "wave");
    assert_eq!(st.frame_index, 0);
    assert!(!st.set_animation("wave"));
}

#[test]
fn looping_animation_wraps() {
    let set = sample_set();
    let mut st = AnimationState::new("spin");
    let mut seen = Vec::new();
    for _ in 0..7 {
        seen.push(st.current_texture_key(&set).unwrap().to_string());
        st.update(true, &set);
    }
    assert_eq!(seen, vec!["a", "b", "c", "a", "b", "c", "a"]);
}

#[test]
fn frame_holds_until_elapsed() {
    let set = sample_set();
    let mut st = AnimationState::new("spin");
    st.update(false, &set);
    st.update(false, &set);
    assert_eq!(st.frame_index, 0);
    st.update(true, &set);
    assert_eq!(st.frame_index, 1);
}

#[test]
fn one_shot_animation_holds_last_frame() {
    let set = sample_set();
    let mut st = AnimationState::new("wave");
    st.update(true, &set);
    assert_eq!(st.frame_index, 1);
    st.update(true, &set);
    st.update(true, &set);
    assert_eq!(st.frame_index, 1);
    assert_eq!(st.current_texture_key(&set), Some("y"));
}

#[test]
fn unknown_or_empty_animation_is_left_alone() {
    let set = sample_set();
    let mut st = AnimationState::new("nothing");
    assert_eq!(st.frame_duration_ms(&set), None);
    st.update(true, &set);
    assert_eq!(st.frame_index, 0);
    assert_eq!(st.current_texture_key(&set), None);

    let mut st = AnimationState::new("empty");
    assert_eq!(st.frame_duration_ms(&set), None);
    st.update(true, &set);
    assert_eq!(st.frame_index, 0);
    assert_eq!(st.current_texture_key(&set), None);
}

#[test]
fn out_of_range_index_is_reported() {
    let set = sample_set();
    let st = AnimationState { current_animation: "wave".to_string(), frame_index: 2 };
    assert!(!st.frame_is_valid(&set));
    assert_eq!(st.current_texture_key(&set), None);
    let st = AnimationState { current_animation: "nothing".to_string(), frame_index: 9 };
    assert!(st.frame_is_valid(&set));
}
