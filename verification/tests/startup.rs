use sprite_bootstrap::scene::{Entity, Scene};
use sprite_bootstrap::startup::{asset_path, setup, App};

#[test]
fn fresh_app_has_empty_scene() {
    let app = App::new();
    assert!(!app.is_populated());
    assert_eq!(app.scene().len(), 0);
    assert_eq!(app.scene().count_cameras(), 0);
    assert_eq!(app.scene().count_sprites(), 0);
}

#[test]
fn startup_spawns_exactly_one_camera_and_one_sprite() {
    let mut app = App::new();
    app.run_startup();
    assert!(app.is_populated());
    assert_eq!(app.scene().count_cameras(), 1);
    assert_eq!(app.scene().count_sprites(), 1);
}

#[test]
fn startup_spawns_no_other_entity() {
    let mut app = App::new();
    app.run_startup();
    let entities = app.scene().entities();
    assert_eq!(entities.len(), 2);
    assert!(matches!(entities[0], Entity::Camera));
    assert!(matches!(entities[1], Entity::Sprite { .. }));
}

#[test]
fn sprite_references_the_fixed_asset_path() {
    let mut app = App::new();
    app.run_startup();
    match &app.scene().entities()[1] {
        Entity::Sprite { asset_path: p } => {
            assert_eq!(p, "ducky.png");
            assert_eq!(p, asset_path());
        }
        Entity::Camera => panic!("expected the sprite in second position"),
    }
}

#[test]
fn asset_path_is_the_same_across_runs() {
    let mut first = App::new();
    first.run_startup();
    let mut second = App::new();
    second.run_startup();
    assert_eq!(first.scene().entities(), second.scene().entities());
}

#[test]
fn startup_runs_exactly_once() {
    let mut app = App::new();
    app.run_startup();
    app.run_startup();
    assert!(app.is_populated());
    assert_eq!(app.scene().len(), 2);
    assert_eq!(app.scene().count_cameras(), 1);
    assert_eq!(app.scene().count_sprites(), 1);
}

#[test]
fn setup_appends_to_an_existing_scene() {
    let mut scene = Scene::new();
    scene.spawn(Entity::Camera);
    setup(&mut scene);
    assert_eq!(scene.len(), 3);
    assert_eq!(scene.count_cameras(), 2);
    assert_eq!(scene.count_sprites(), 1);
}

#[test]
fn spawn_records_entities_in_order() {
    let mut scene = Scene::new();
    scene.spawn(Entity::Sprite {
        asset_path: String::from("other.png"),
    });
    scene.spawn(Entity::Camera);
    let entities = scene.entities();
    assert_eq!(entities.len(), 2);
    assert!(matches!(entities[0], Entity::Sprite { .. }));
    assert!(matches!(entities[1], Entity::Camera));
}
