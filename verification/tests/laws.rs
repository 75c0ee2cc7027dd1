use springfield::game::{job_reward, Character, Chores, GameState, JobTick};
use springfield::roster::{bart_animations, bart_texture_paths, homer_animations, homer_texture_paths};
use springfield::sprite::{Animation, AnimationSet, AnimationState, Frame};

#[test]
fn texture_keys_are_unique() {
    for paths in [homer_texture_paths(), bart_texture_paths()] {
        for i in 0..paths.len() {
            for j in 0..paths.len() {
                if i != j {
                    assert_ne!(paths[i].0, paths[j].0);
                }
            }
        }
    }
}

#[test]
fn paid_chores_have_animations() {
    let h = homer_animations();
    for job in ["clean", "play", "drink"] {
        assert!(job_reward(Character::Homer, job) > 0);
        assert!(h.get(job).is_some());
    }
    let b = bart_animations();
    for job in ["skateboard", "slingshot", "play_simulator"] {
        assert!(job_reward(Character::Bart, job) > 0);
        assert!(b.get(job).is_some());
    }
}

#[test]
fn animations_stored_under_own_name() {
    let h = homer_animations();
    for name in ["idle", "walk_front", "walk_back", "clean", "play", "drink"] {
        let a = h.get(name).unwrap();
        assert_eq!(a.name, name);
        assert!(!a.frames.is_empty());
        assert!(a.looping);
    }
    let b = bart_animations();
    for name in ["idle", "walk_front", "walk_back", "skateboard", "slingshot", "play_simulator"] {
        assert_eq!(b.get(name).unwrap().name, name);
    }
}

#[test]
fn looping_walk_cycles_through_all_frames() {
    let h = homer_animations();
    let mut st = AnimationState::new("walk_front");
    let mut shown = Vec::new();
    for _ in 0..9 {
        shown.push(st.current_texture_key(&h).unwrap().to_string());
        st.update(true, &h);
        assert!(st.frame_is_valid(&h));
    }
    assert_eq!(
        shown,
        vec![
            "homer_front_walk_1", "homer_front_walk_2", "homer_front_walk_3", "homer_front_walk_4",
            "homer_front_walk_1", "homer_front_walk_2", "homer_front_walk_3", "homer_front_walk_4",
            "homer_front_walk_1",
        ]
    );
}

#[test]
fn switching_animation_keeps_index_valid() {
    let mut set = AnimationSet::new();
    set.insert(
        "long".to_string(),
        Animation {
            name: "long".to_string(),
            frames: (0..5).map(|i| Frame::new(format!("l{i}"), 10)).collect(),
            looping: true,
        },
    );
    set.insert(
        "short".to_string(),
        Animation { name: "short".to_string(), frames: vec![Frame::new("s".to_string(), 10)], looping: false },
    );
    let mut st = AnimationState::new("long");
    for _ in 0..4 {
        st.update(true, &set);
    }
    assert_eq!(st.frame_index, 4);
    assert!(st.set_animation("short"));
    assert!(st.frame_is_valid(&set));
    assert_eq!(st.current_texture_key(&set), Some("s"));
}

#[test]
fn cash_never_drops_and_play_never_ends() {
    let mut c = Chores::new();
    c.handle_click();
    let mut last = c.cash();
    for (who, job) in [(Character::Homer, "clean"), (Character::Bart, "nap"), (Character::Bart, "play_simulator")] {
        c.assign_job(who, job);
        assert_eq!(c.state(), GameState::Playing);
        let _ = c.tick_job(who, false);
        assert_eq!(c.cash(), last);
        if let JobTick::Completed { cash, .. } = c.tick_job(who, true) {
            assert_eq!(cash, last + job_reward(who, job));
        } else {
            panic!("expected completion");
        }
        assert!(c.cash() >= last);
        last = c.cash();
        c.handle_click();
        assert_eq!(c.state(), GameState::Playing);
    }
    assert_eq!(c.cash(), 230);
}
