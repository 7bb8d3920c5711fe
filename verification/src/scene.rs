use crate::asset_path::{
    asset_stem, plain_labelled_asset, scene_asset_path, scene_asset_text, AssetPathError,
};
use crate::scene_path::{scene_label_text, scene_split};
use vstd::prelude::*;
use vstd::string::StringExecFns;

verus! {

/// A quantity counted in tenths: `Tenths(15)` stands for 1.5.
#[derive(Clone, Copy, Debug, PartialEq, Eq, Structural)]
pub struct Tenths(pub i32);

/// A place in the world, in tenths of a world unit along each axis.
#[derive(Clone, Copy, Debug, PartialEq, Eq, Structural)]
pub struct Point {
    pub x: Tenths,
    pub y: Tenths,
    pub z: Tenths,
}

/// The ground: a flat rectangle that lies around the origin, in one colour.
/// The colour is given in tenths of the full strength of red, green and
/// blue.
#[derive(Clone, Copy, Debug, PartialEq, Eq, Structural)]
pub struct Ground {
    pub width: Tenths,
    pub depth: Tenths,
    pub red: Tenths,
    pub green: Tenths,
    pub blue: Tenths,
}

/// A light that shines in one direction from where it stands.
#[derive(Clone, Copy, Debug, PartialEq, Eq, Structural)]
pub struct Light {
    pub position: Point,
    pub shadows: bool,
}

/// The model on show: the asset path of one scene of a glTF file.
#[derive(Debug, PartialEq, Eq)]
pub struct Model {
    pub scene: String,
}

/// The camera, which orbits its focus and carries the environment map: the
/// asset paths of the map's two textures and its strength.
#[derive(Debug, PartialEq, Eq)]
pub struct Camera {
    pub position: Point,
    pub focus: Point,
    pub diffuse_map: String,
    pub specular_map: String,
    pub intensity: Tenths,
}

/// One entity of the scene.
#[derive(Debug, PartialEq, Eq)]
pub enum Entity {
    Ground(Ground),
    Light(Light),
    Model(Model),
    Camera(Camera),
}

/// The viewer's ground: five units wide and deep, in a muted green.
pub open spec fn viewer_ground() -> Ground {
    Ground {
        width: Tenths(50),
        depth: Tenths(50),
        red: Tenths(3),
        green: Tenths(5),
        blue: Tenths(3),
    }
}

/// The viewer's light: it stands at (2, 4, 2) and casts shadows.
pub open spec fn viewer_light() -> Light {
    Light { position: Point { x: Tenths(20), y: Tenths(40), z: Tenths(20) }, shadows: true }
}

/// Where the viewer's camera stands: at (0, 1, 1.5).
pub open spec fn viewer_camera_position() -> Point {
    Point { x: Tenths(0), y: Tenths(10), z: Tenths(15) }
}

/// The point that the viewer's camera orbits: (0, 0.2, 0).
pub open spec fn viewer_camera_focus() -> Point {
    Point { x: Tenths(0), y: Tenths(2), z: Tenths(0) }
}

/// The asset path of the environment map's diffuse texture.
pub open spec fn diffuse_map_text() -> Seq<char> {
    "environment_maps/pisa_diffuse_rgb9e5_zstd.ktx2"@
}

/// The asset path of the environment map's specular texture.
pub open spec fn specular_map_text() -> Seq<char> {
    "environment_maps/pisa_specular_rgb9e5_zstd.ktx2"@
}

/// Whether `camera` is the viewer's camera: it stands at (0, 1, 1.5), orbits
/// (0, 0.2, 0) and carries the environment map at a strength of 250.
pub open spec fn is_viewer_camera(camera: Camera) -> bool {
    &&& camera.position == viewer_camera_position()
    &&& camera.focus == viewer_camera_focus()
    &&& camera.diffuse_map@ == diffuse_map_text()
    &&& camera.specular_map@ == specular_map_text()
    &&& camera.intensity == Tenths(2500)
}

/// Whether `plan` is the viewer's scene around the model at the asset path
/// `model`: the ground, the light, the model and the camera, in this order
/// and nothing else.
pub open spec fn is_viewer_scene(plan: Seq<Entity>, model: Seq<char>) -> bool {
    &&& plan.len() == 4
    &&& plan[0] == Entity::Ground(viewer_ground())
    &&& plan[1] == Entity::Light(viewer_light())
    &&& plan[2] matches Entity::Model(shown) && shown.scene@ == model
    &&& plan[3] matches Entity::Camera(camera) && is_viewer_camera(camera)
}

/// How many assets the engine is asked to load for `plan`: one for each
/// model, two for each camera.
pub open spec fn load_count(plan: Seq<Entity>) -> nat
    decreases plan.len(),
{
    if plan.len() == 0 {
        0
    } else {
        load_count(plan.drop_last()) + match plan.last() {
            Entity::Model(_) => 1nat,
            Entity::Camera(_) => 2nat,
            _ => 0nat,
        }
    }
}

/// The viewer's scene asks for three assets: the model and the two textures
/// of the environment map.
pub proof fn lemma_viewer_scene_loads(plan: Seq<Entity>, model: Seq<char>)
    requires
        is_viewer_scene(plan, model),
    ensures
        load_count(plan) == 3,
{
    let three = plan.drop_last();
    let two = three.drop_last();
    let one = two.drop_last();
    assert(three.last() == plan[2]);
    assert(two.last() == plan[1]);
    assert(one.last() == plan[0]);
    assert(load_count(one.drop_last()) == 0);
    assert(load_count(one) == 0);
    assert(load_count(two) == 0);
    assert(load_count(three) == 1);
}

/// Plans the scene that shows the model named by `scene_path`: the entities
/// to spawn, in order.
///
/// The plan is the viewer's scene around the asset path that
/// `scene_asset_path` spells for `scene_path`; where the engine turns the
/// path down there is no plan, and the engine's reason comes back. The
/// model's asset path is what stands in the path of `scene_path` before its
/// last `#` (the whole path where it holds none), then `#` and the scene's
/// label. A path that holds no `#` before its scene suffix and does not
/// begin with `://` always gets its plan.
pub fn scene_plan(scene_path: &str) -> (r: Result<Vec<Entity>, AssetPathError>)
    ensures
        match scene_asset_text(scene_path@) {
            Ok(model) => r matches Ok(plan) && is_viewer_scene(plan@, model),
            Err(reason) => r matches Err(given) && given == reason,
        },
        scene_asset_text(scene_path@) matches Ok(model) ==> model == asset_stem(
            scene_split(scene_path@).0,
        ) + seq!['#'] + scene_label_text(scene_split(scene_path@).1),
        !scene_split(scene_path@).0.contains('#') ==> scene_asset_text(scene_path@)
            == plain_labelled_asset(
            scene_split(scene_path@).0,
            scene_label_text(scene_split(scene_path@).1),
        ),
{
    let scene = match scene_asset_path(scene_path) {
        Ok(scene) => scene,
        Err(reason) => {
            return Err(reason);
        },
    };
    let ground = Ground {
        width: Tenths(50),
        depth: Tenths(50),
        red: Tenths(3),
        green: Tenths(5),
        blue: Tenths(3),
    };
    let light = Light {
        position: Point { x: Tenths(20), y: Tenths(40), z: Tenths(20) },
        shadows: true,
    };
    let camera = Camera {
        position: Point { x: Tenths(0), y: Tenths(10), z: Tenths(15) },
        focus: Point { x: Tenths(0), y: Tenths(2), z: Tenths(0) },
        diffuse_map: String::from_str("environment_maps/pisa_diffuse_rgb9e5_zstd.ktx2"),
        specular_map: String::from_str("environment_maps/pisa_specular_rgb9e5_zstd.ktx2"),
        intensity: Tenths(2500),
    };
    let mut plan: Vec<Entity> = Vec::new();
    plan.push(Entity::Ground(ground));
    plan.push(Entity::Light(light));
    plan.push(Entity::Model(Model { scene }));
    plan.push(Entity::Camera(camera));
    Ok(plan)
}

} // verus!
