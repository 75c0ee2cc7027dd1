use springfield::game::{job_reward, walk_animation, Character, Chores, GameState, JobTick};

#[test]
fn new_game_is_on_menu() {
    let c = Chores::new();
    assert_eq!(c.state(), GameState::Menu);
    assert_eq!(c.cash(), 0);
    assert!(c.current_job(Character::Homer).is_none());
    assert!(!c.is_selectable(Character::Homer));
    assert!(!c.is_selectable(Character::Bart));
}

#[test]
fn click_starts_play_and_play_stays() {
    let mut c = Chores::new();
    c.handle_click();
    assert_eq!(c.state(), GameState::Playing);
    c.handle_click();
    assert_eq!(c.state(), GameState::Playing);
    assert_eq!(GameState::Menu.after_click(), GameState::Playing);
    assert_eq!(GameState::Playing.after_click(), GameState::Playing);
    assert!(c.is_selectable(Character::Homer));
}

#[test]
fn rewards_per_chore() {
    assert_eq!(job_reward(Character::Homer, "clean"), 50);
    assert_eq!(job_reward(Character::Homer, "play"), 100);
    assert_eq!(job_reward(Character::Homer, "drink"), 150);
    assert_eq!(job_reward(Character::Homer, "skateboard"), 0);
    assert_eq!(job_reward(Character::Bart, "skateboard"), 60);
    assert_eq!(job_reward(Character::Bart, "slingshot"), 120);
    assert_eq!(job_reward(Character::Bart, "play_simulator"), 180);
    assert_eq!(job_reward(Character::Bart, "clean"), 0);
    assert_eq!(job_reward(Character::Bart, ""), 0);
}

#[test]
fn chore_lifecycle_pays_once() {
    let mut c = Chores::new();
    c.handle_click();
    c.assign_job(Character::Homer, "drink");
    assert!(!c.is_selectable(Character::Homer));
    assert!(c.is_selectable(Character::Bart));
    assert_eq!(c.current_job(Character::Homer), Some("drink"));
    match c.tick_job(Character::Homer, false) {
        JobTick::Working(j) => assert_eq!(j, "drink"),
        _ => panic!("expected work"),
    }
    assert_eq!(c.cash(), 0);
    match c.tick_job(Character::Homer, true) {
        JobTick::Completed { job, cash } => {
            assert_eq!(job, "drink");
            assert_eq!(cash, 150);
        }
        _ => panic!("expected completion"),
    }
    assert_eq!(c.cash(), 150);
    assert!(c.is_selectable(Character::Homer));
    assert!(matches!(c.tick_job(Character::Homer, true), JobTick::Free));
    assert_eq!(c.cash(), 150);
}

#[test]
fn characters_work_independently() {
    let mut c = Chores::new();
    c.handle_click();
    c.assign_job(Character::Homer, "clean");
    c.assign_job(Character::Bart, "slingshot");
    match c.tick_job(Character::Bart, true) {
        JobTick::Completed { cash, .. } => assert_eq!(cash, 120),
        _ => panic!("expected completion"),
    }
    assert_eq!(c.current_job(Character::Homer), Some("clean"));
    match c.tick_job(Character::Homer, true) {
        JobTick::Completed { cash, .. } => assert_eq!(cash, 170),
        _ => panic!("expected completion"),
    }
}

#[test]
fn unknown_chore_pays_nothing() {
    let mut c = Chores::new();
    c.assign_job(Character::Bart, "nap");
    assert!(!c.is_selectable(Character::Bart));
    match c.tick_job(Character::Bart, true) {
        JobTick::Completed { job, cash } => {
            assert_eq!(job, "nap");
            assert_eq!(cash, 0);
        }
        _ => panic!("expected completion"),
    }
}

#[test]
fn reassigning_replaces_chore() {
    let mut c = Chores::new();
    c.assign_job(Character::Homer, "clean");
    c.assign_job(Character::Homer, "play");
    assert_eq!(c.current_job(Character::Homer), Some("play"));
}

#[test]
fn walk_direction() {
    assert_eq!(walk_animation(true, true), "walk_front");
    assert_eq!(walk_animation(true, false), "walk_back");
    assert_eq!(walk_animation(false, true), "walk_front");
    assert_eq!(walk_animation(false, false), "walk_front");
}
