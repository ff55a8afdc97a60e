use vstd::prelude::*;

use crate::animation::Entry;
use crate::config::Configuration;
use crate::model_pos::ModelPosition;
use crate::space::{Point, UNIT};

verus! {

/// Most scene objects a scene holds.
pub const MAX_MODELS: usize = 9;

/// Gap between neighbouring scene objects along X, in nanounits.
pub const MODEL_SPACING: i64 = 2_000_000_000;

/// Why a scene could not be laid out.
#[derive(Clone, Copy, Debug, PartialEq, Eq, Structural)]
pub enum SceneError {
    /// The number of objects asked for is zero or above the maximum.
    ModelCount,
}

impl SceneError {
    /// The text that describes this error.
    pub fn message(&self) -> (r: String)
        ensures
            *self == SceneError::ModelCount ==> r@ == "Number of models should be bigger than 0 and lower than 10"@,
    {
        match self {
            SceneError::ModelCount => "Number of models should be bigger than 0 and lower than 10".to_string(),
        }
    }
}

/// Whether a scene can hold `n_models` objects: at least one and at most
/// `MAX_MODELS`.
pub fn check_model_count(n_models: usize) -> (r: Result<(), SceneError>)
    ensures
        r is Ok <==> (0 < n_models <= MAX_MODELS),
        r is Err ==> r->Err_0 == SceneError::ModelCount,
{
    if n_models == 0 || n_models > MAX_MODELS {
        Err(SceneError::ModelCount)
    } else {
        Ok(())
    }
}

/// Whether `m` is a fresh object at `position` driven by a configuration
/// with the settings of `template`.
pub open spec fn fresh_at(m: ModelPosition, template: Configuration, position: Point) -> bool {
    &&& m.wf()
    &&& m.translation == position
    &&& m.scale == UNIT
    &&& m.config.base_speed == template.base_speed
    &&& m.config.rotation_speed == template.rotation_speed
    &&& m.config.circle_speed == template.circle_speed
    &&& m.config.scale_speed == template.scale_speed
    &&& m.config.command_list@ == template.command_list@
    &&& m.curve.should_reset
    &&& !m.animation.is_running
    &&& !m.script_key_held
}

/// The place of the `i`th object of a scene.
pub open spec fn slot(i: int) -> Point {
    Point { x: (i * MODEL_SPACING) as i64, y: 0, z: 0 }
}

/// A configuration with the settings of `c`.
pub fn copy_config(c: &Configuration) -> (r: Configuration)
    ensures
        r.base_speed == c.base_speed,
        r.rotation_speed == c.rotation_speed,
        r.circle_speed == c.circle_speed,
        r.scale_speed == c.scale_speed,
        r.command_list@ == c.command_list@,
{
    let mut list: Vec<Entry> = Vec::new();
    let mut i: usize = 0;
    while i < c.command_list.len()
        invariant
            i <= c.command_list@.len(),
            list@ == c.command_list@.take(i as int),
        decreases c.command_list.len() - i,
    {
        list.push(c.command_list[i]);
        i = i + 1;
        proof {
            assert(list@ =~= c.command_list@.take(i as int));
        }
    }
    proof {
        assert(c.command_list@.take(c.command_list@.len() as int) =~= c.command_list@);
    }
    Configuration {
        base_speed: c.base_speed,
        rotation_speed: c.rotation_speed,
        circle_speed: c.circle_speed,
        scale_speed: c.scale_speed,
        command_list: list,
    }
}

/// Lays out `n_models` objects driven by `config` in a row along X, two
/// units apart from the origin on, with the first one selected. Fails
/// unless there is at least one and at most `MAX_MODELS`.
pub fn spawn_models(config: &Configuration, n_models: usize) -> (r: Result<Vec<ModelPosition>, SceneError>)
    ensures
        r is Err <==> (n_models == 0 || n_models > MAX_MODELS),
        r is Err ==> r->Err_0 == SceneError::ModelCount,
        r is Ok ==> {
            let ms = r->Ok_0@;
            &&& ms.len() == n_models
            &&& forall|i: int| 0 <= i < ms.len() ==> fresh_at(#[trigger] ms[i], *config, slot(i))
            &&& forall|i: int| 0 <= i < ms.len() ==> (#[trigger] ms[i].is_selected <==> i == 0)
        },
{
    if let Err(e) = check_model_count(n_models) {
        return Err(e);
    }
    let mut ms: Vec<ModelPosition> = Vec::new();
    let mut i: usize = 0;
    while i < n_models
        invariant
            i <= n_models <= MAX_MODELS,
            ms@.len() == i,
            forall|j: int| 0 <= j < i ==> fresh_at(#[trigger] ms@[j], *config, slot(j)),
            forall|j: int| 0 <= j < i ==> (#[trigger] ms@[j].is_selected <==> j == 0),
        decreases n_models - i,
    {
        let mut m = ModelPosition::with_config(copy_config(config));
        m.translation = Point { x: i as i64 * MODEL_SPACING, y: 0, z: 0 };
        m.is_selected = i == 0;
        ms.push(m);
        i = i + 1;
    }
    Ok(ms)
}

/// Selects the object at `index` and deselects every other one; an index
/// past the end deselects them all.
pub fn select_model(models: &mut Vec<ModelPosition>, index: usize)
    ensures
        final(models)@.len() == old(models)@.len(),
        forall|j: int| 0 <= j < final(models)@.len() ==> (#[trigger] final(models)@[j].is_selected <==> j == index),
        forall|j: int| 0 <= j < final(models)@.len() ==> (#[trigger] final(models)@[j]).keeps_pose(old(models)@[j]),
{
    let mut j: usize = 0;
    while j < models.len()
        invariant
            j <= models@.len(),
            models@.len() == old(models)@.len(),
            forall|k: int| 0 <= k < j ==> (#[trigger] models@[k].is_selected <==> k == index),
            forall|k: int| j <= k < models@.len() ==> #[trigger] models@[k] == old(models)@[k],
            forall|k: int| 0 <= k < models@.len() ==> (#[trigger] models@[k]).keeps_pose(old(models)@[k]),
        decreases models.len() - j,
    {
        models[j].is_selected = j == index;
        j = j + 1;
    }
}

} // verus!
