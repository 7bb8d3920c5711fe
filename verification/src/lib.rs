//! Scene paths of a glTF viewer: a path to an asset, with or without the
//! number of one of its scenes behind it, and the asset path under which the
//! engine loads that scene; the plan of the viewer's scene, and the sweep of
//! its light.

pub mod asset_path;
pub mod decimal;
pub mod light;
pub mod scene;
pub mod scene_path;
