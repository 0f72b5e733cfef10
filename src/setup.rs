use vstd::prelude::*;

use crate::asset::{holds_char, labeled_path, scene_asset_path, scene_label};

verus! {

/// One entity that the viewer spawns at startup, in the order of the plan.
///
/// Poses, projections and speeds are floats of the engine's math library and
/// are filled in by the program that runs the plan.
#[derive(Debug, PartialEq, Eq)]
pub enum Spawn {
    /// The perspective camera that looks at the model.
    Camera,
    /// The directional light; `shadows` says whether it casts shadows.
    DirectionalLight { shadows: bool },
    /// The root that turns about the vertical axis and carries the model.
    RotatingRoot,
    /// The glTF scene at the asset path `path`, spawned as a child of the
    /// entity at position `parent` of the plan.
    Scene { path: String, parent: usize },
}

/// Whether each scene of the plan hangs from a rotating root spawned before it.
pub open spec fn parents_precede(v: Seq<Spawn>) -> bool {
    forall|i: int|
        #![trigger v[i]]
        0 <= i < v.len() ==> match v[i] {
            Spawn::Scene { parent, .. } => parent < i && v[parent as int] is RotatingRoot,
            _ => true,
        }
}

/// Whether `v` is the viewer's startup: a camera, a light that casts shadows,
/// a rotating root, and the scene at `path` as the root's child.
pub open spec fn is_viewer_plan(v: Seq<Spawn>, path: Seq<char>) -> bool {
    &&& v.len() == 4
    &&& v[0] is Camera
    &&& v[1] == (Spawn::DirectionalLight { shadows: true })
    &&& v[2] is RotatingRoot
    &&& v[3] matches Spawn::Scene { path: p, parent } && p@ == path && parent == 2
}

/// The entities to spawn at startup to view the scene at position `scene` of
/// the glTF file at `file`.
///
/// Gives `None` where the file path holds a `#`, as `scene_asset_path` does.
pub fn setup_plan(file: &str, scene: u64) -> (r: Option<Vec<Spawn>>)
    ensures
        holds_char(file@, '#') <==> r is None,
        r matches Some(v) ==> is_viewer_plan(v@, labeled_path(file@, scene_label(scene as nat))),
        r matches Some(v) ==> parents_precede(v@),
{
    match scene_asset_path(file, scene) {
        None => None,
        Some(path) => {
            let mut v: Vec<Spawn> = Vec::new();
            v.push(Spawn::Camera);
            v.push(Spawn::DirectionalLight { shadows: true });
            v.push(Spawn::RotatingRoot);
            v.push(Spawn::Scene { path, parent: 2 });
            Some(v)
        },
    }
}

} // verus!
