use mower::asset_path::AssetPathError;
use mower::scene::{scene_plan, Camera, Entity, Ground, Light, Model, Point, Tenths};

const HELMET: &str = "models/FlightHelmet/FlightHelmet.gltf#Scene0";

fn point(x: i32, y: i32, z: i32) -> Point {
    Point { x: Tenths(x), y: Tenths(y), z: Tenths(z) }
}

fn decimal(t: Tenths) -> f32 {
    t.0 as f32 / 10.0
}

fn expected_camera() -> Camera {
    Camera {
        position: point(0, 10, 15),
        focus: point(0, 2, 0),
        diffuse_map: "environment_maps/pisa_diffuse_rgb9e5_zstd.ktx2".to_string(),
        specular_map: "environment_maps/pisa_specular_rgb9e5_zstd.ktx2".to_string(),
        intensity: Tenths(2500),
    }
}

#[test]
fn helmet_scene_has_four_entities() {
    let plan = scene_plan(HELMET).unwrap();
    assert_eq!(plan.len(), 4);
}

#[test]
fn ground_comes_first() {
    let plan = scene_plan(HELMET).unwrap();
    assert_eq!(
        plan[0],
        Entity::Ground(Ground {
            width: Tenths(50),
            depth: Tenths(50),
            red: Tenths(3),
            green: Tenths(5),
            blue: Tenths(3),
        })
    );
}

#[test]
fn light_comes_second() {
    let plan = scene_plan(HELMET).unwrap();
    assert_eq!(plan[1], Entity::Light(Light { position: point(20, 40, 20), shadows: true }));
}

#[test]
fn model_comes_third() {
    let plan = scene_plan(HELMET).unwrap();
    assert_eq!(
        plan[2],
        Entity::Model(Model { scene: "models/FlightHelmet/FlightHelmet.gltf#Scene0".to_string() })
    );
}

#[test]
fn camera_comes_last() {
    let plan = scene_plan(HELMET).unwrap();
    assert_eq!(plan[3], Entity::Camera(expected_camera()));
}

#[test]
fn scene_asks_for_three_assets() {
    let plan = scene_plan(HELMET).unwrap();
    let mut assets: Vec<String> = Vec::new();
    for entity in plan {
        match entity {
            Entity::Model(model) => assets.push(model.scene),
            Entity::Camera(camera) => {
                assets.push(camera.diffuse_map);
                assets.push(camera.specular_map);
            }
            Entity::Ground(_) | Entity::Light(_) => {}
        }
    }
    assert_eq!(
        assets,
        vec![
            "models/FlightHelmet/FlightHelmet.gltf#Scene0".to_string(),
            "environment_maps/pisa_diffuse_rgb9e5_zstd.ktx2".to_string(),
            "environment_maps/pisa_specular_rgb9e5_zstd.ktx2".to_string(),
        ]
    );
}

#[test]
fn only_the_model_follows_the_scene_path() {
    let helmet = scene_plan(HELMET).unwrap();
    let other = scene_plan("models/fox.glb#Scene03").unwrap();
    assert_eq!(other.len(), 4);
    assert_eq!(other[0], helmet[0]);
    assert_eq!(other[1], helmet[1]);
    assert_eq!(other[2], Entity::Model(Model { scene: "models/fox.glb#Scene3".to_string() }));
    assert_eq!(other[3], helmet[3]);
}

#[test]
fn bare_file_shows_scene_zero() {
    let plan = scene_plan("a.gltf").unwrap();
    assert_eq!(plan[2], Entity::Model(Model { scene: "a.gltf#Scene0".to_string() }));
}

#[test]
fn no_plan_for_a_path_that_the_engine_turns_down() {
    assert_eq!(scene_plan("://a.gltf"), Err(AssetPathError::MissingSource));
    assert_eq!(scene_plan("a.gltf##Scene1"), Err(AssetPathError::MissingLabel));
    assert_eq!(scene_plan("a#b://c.gltf"), Err(AssetPathError::InvalidSourceSyntax));
    assert_eq!(scene_plan("s://a.gltf#b://c"), Err(AssetPathError::InvalidLabelSyntax));
}

#[test]
fn tenths_stand_for_the_decimal_numbers() {
    assert_eq!(decimal(Tenths(50)), 5.0);
    assert_eq!(decimal(Tenths(3)), 0.3);
    assert_eq!(decimal(Tenths(5)), 0.5);
    assert_eq!(decimal(Tenths(20)), 2.0);
    assert_eq!(decimal(Tenths(40)), 4.0);
    assert_eq!(decimal(Tenths(0)), 0.0);
    assert_eq!(decimal(Tenths(10)), 1.0);
    assert_eq!(decimal(Tenths(15)), 1.5);
    assert_eq!(decimal(Tenths(2)), 0.2);
    assert_eq!(decimal(Tenths(2500)), 250.0);
}
