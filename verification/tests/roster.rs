use springfield::assets::AssetRegistry;
use springfield::manifest::{bart_texture_manifest, homer_texture_manifest, texture_manifest};
use springfield::roster::{bart_animations, bart_texture_paths, homer_animations, homer_texture_paths};
use springfield::sprite::AnimationSet;

fn keys(anims: &AnimationSet, name: &str) -> Vec<String> {
    anims.get(name).unwrap().frames.iter().map(|f| f.texture_key.clone()).collect()
}

fn durations(anims: &AnimationSet, name: &str) -> Vec<u32> {
    anims.get(name).unwrap().frames.iter().map(|f| f.duration_ms).collect()
}

#[test]
fn homer_idle_blinks() {
    let a = homer_animations();
    assert_eq!(
        keys(&a, "idle"),
        vec!["homer_idle_1", "homer_idle_blink_1", "homer_idle_blink_2", "homer_idle_1", "homer_idle_blink_1", "homer_idle_blink_2"]
    );
    assert_eq!(durations(&a, "idle"), vec![2000, 100, 100, 3000, 100, 100]);
    assert!(a.get("idle").unwrap().looping);
    assert_eq!(a.get("idle").unwrap().name, "idle");
}

#[test]
fn homer_walks_and_chores() {
    let a = homer_animations();
    assert_eq!(keys(&a, "walk_front"), vec!["homer_front_walk_1", "homer_front_walk_2", "homer_front_walk_3", "homer_front_walk_4"]);
    assert_eq!(durations(&a, "walk_back"), vec![150; 4]);
    assert_eq!(keys(&a, "walk_back")[3], "homer_back_walk_4");
    assert_eq!(keys(&a, "clean"), vec!["homer_clean_0", "homer_clean_1", "homer_clean_2", "homer_clean_3", "homer_clean_4", "homer_clean_5"]);
    assert_eq!(durations(&a, "clean"), vec![200; 6]);
    assert_eq!(keys(&a, "play"), vec!["homer_play_1", "homer_play_2", "homer_play_3", "homer_play_7"]);
    assert_eq!(durations(&a, "play"), vec![250; 4]);
    assert_eq!(keys(&a, "drink")[5], "homer_drink_5");
    assert!(a.get("skateboard").is_none());
}

#[test]
fn bart_animations_match_definitions() {
    let a = bart_animations();
    assert_eq!(keys(&a, "idle")[0], "bart_idle_1");
    assert_eq!(durations(&a, "idle"), vec![2000, 100, 100, 3000, 100, 100]);
    assert_eq!(durations(&a, "skateboard"), vec![120; 6]);
    assert_eq!(keys(&a, "skateboard")[5], "bart_skateboard_6");
    assert_eq!(durations(&a, "slingshot"), vec![100; 15]);
    assert_eq!(keys(&a, "slingshot")[14], "bart_slingshot_15");
    assert_eq!(durations(&a, "play_simulator"), vec![120; 18]);
    assert_eq!(keys(&a, "play_simulator")[17], "bart_play_simulator_18");
    assert!(a.get("clean").is_none());
}

#[test]
fn homer_paths_in_order() {
    let p = homer_texture_paths();
    assert_eq!(p.len(), 29);
    assert_eq!(p[0], ("homer_idle_1".to_string(), "assets/Characters/Homer/Idle/homer_idle_image_1.png".to_string()));
    assert_eq!(p[3], ("homer_front_walk_1".to_string(), "assets/Characters/Homer/Walk/homer_front_walk_image_1.png".to_string()));
    assert_eq!(p[10], ("homer_back_walk_4".to_string(), "assets/Characters/Homer/Walk/homer_back_walk_image_4.png".to_string()));
    assert_eq!(p[11], ("menu_bg".to_string(), "assets/Menu/main_menu_background.webp".to_string()));
    assert_eq!(
        p[12],
        ("homer_clean_0".to_string(), "assets/Characters/Homer/Clean Up Springfield/homer_pick_trash_active_image_1.png".to_string())
    );
    assert_eq!(
        p[21],
        ("homer_play_7".to_string(), "assets/Characters/Homer/Play with his myPad/homer_play_happy_little_elves_active_image_7.png".to_string())
    );
    assert_eq!(p[22], ("homer_drink_0".to_string(), "assets/Characters/Homer/Drink Beer/homer_drink_beer_image_0.png".to_string()));
    assert_eq!(p[28], ("grass_tile".to_string(), "assets/tiles/grass.png".to_string()));
}

#[test]
fn bart_paths_in_order() {
    let p = bart_texture_paths();
    assert_eq!(p.len(), 50);
    assert_eq!(p[2], ("bart_idle_blink_2".to_string(), "assets/Characters/Bart/Idle/bart_idle_blink_image_2.png".to_string()));
    assert_eq!(p[11], ("bart_skateboard_1".to_string(), "assets/Characters/Bart/Skateboard/bart_skateboarding_front_image_1.png".to_string()));
    assert_eq!(
        p[31],
        ("bart_slingshot_15".to_string(), "assets/Characters/Bart/Slingshot/bart_walk_slingshot_shoot_slingshot_image_15.png".to_string())
    );
    assert_eq!(
        p[49],
        (
            "bart_play_simulator_18".to_string(),
            "assets/Characters/Bart/Play Yard Work Simulator/bart_do_virtual_job_active_2_image_18.png".to_string()
        )
    );
}

fn covered(anims: &AnimationSet, names: &[&str], paths: &[(String, String)]) {
    for name in names {
        for f in &anims.get(name).unwrap().frames {
            assert!(paths.iter().any(|(k, _)| *k == f.texture_key), "{} has no path", f.texture_key);
            assert!(f.duration_ms > 0);
        }
    }
}

#[test]
fn every_animated_texture_has_a_path() {
    covered(&homer_animations(), &["idle", "walk_front", "walk_back", "clean", "play", "drink"], &homer_texture_paths());
    covered(
        &bart_animations(),
        &["idle", "walk_front", "walk_back", "skateboard", "slingshot", "play_simulator"],
        &bart_texture_paths(),
    );
}

#[test]
fn manifest_of_small_list() {
    let paths = vec![("a".to_string(), "x/a.png".to_string()), ("b".to_string(), "y.png".to_string())];
    assert_eq!(texture_manifest(&paths), r#"[{"key":"a","path":"x/a.png"},{"key":"b","path":"y.png"}]"#);
    assert_eq!(texture_manifest(&vec![("k".to_string(), "p".to_string())]), r#"[{"key":"k","path":"p"}]"#);
    assert_eq!(texture_manifest(&Vec::new()), "[]");
}

#[test]
fn character_manifests() {
    let h = homer_texture_manifest();
    assert!(h.starts_with(r#"[{"key":"homer_idle_1","path":"assets/Characters/Homer/Idle/homer_idle_image_1.png"},"#));
    assert!(h.ends_with(r#"{"key":"grass_tile","path":"assets/tiles/grass.png"}]"#));
    assert_eq!(h.matches(r#"{"key":"#).count(), 29);
    let b = bart_texture_manifest();
    assert!(b.starts_with(r#"[{"key":"bart_idle_1","#));
    assert_eq!(b.matches(r#"{"key":"#).count(), 50);
}

#[test]
fn asset_registry_builds() {
    let _a = AssetRegistry::new();
    let _b = AssetRegistry::default();
}
