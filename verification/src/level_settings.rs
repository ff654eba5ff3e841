//! Per-level settings, re-derived from the active level's typed metadata
//! fields on the tick the active-level selection changes.
//!
//! Resolution is edge-triggered and replaces the settings resource wholesale;
//! on any failure — the selected level does not exist, the field is absent,
//! or it has the wrong type — the prior settings stay in place, so consumers
//! never observe a transient default.

use vstd::prelude::*;

use crate::fields::{find_field, spec_field_index, FieldInstance, FieldValue};
use crate::level::LevelSelection;
use crate::world::{spec_level_index_by_iid, LevelProject, LevelRecord};

verus! {

/// Whether the camera follows the player on the active level.
#[derive(Clone, Copy, PartialEq, Eq, Structural, Debug)]
pub struct CameraFollow(pub bool);

impl Default for CameraFollow {
    fn default() -> (c: CameraFollow)
        ensures
            c.0 == false,
    {
        CameraFollow(false)
    }
}

/// The settings of the active level. Always replaced as a whole, never
/// field by field.
#[derive(Clone, Copy, PartialEq, Eq, Structural, Debug)]
pub struct LevelSettings {
    pub camera_follow: CameraFollow,
}

impl Default for LevelSettings {
    fn default() -> (s: LevelSettings)
        ensures
            s.camera_follow.0 == false,
    {
        LevelSettings { camera_follow: CameraFollow(false) }
    }
}

/// What reading the camera-follow flag from a level's fields yields: the
/// first field named `"CameraFollow"` must exist and hold a boolean.
pub open spec fn spec_camera_follow_from(fields: Seq<FieldInstance>) -> Option<CameraFollow> {
    let idx = spec_field_index(fields, "CameraFollow"@, 0);
    if idx == fields.len() {
        None
    } else {
        match fields[idx].value {
            FieldValue::Bool(b) => Some(CameraFollow(b)),
            _ => None,
        }
    }
}

impl CameraFollow {
    /// Reads the flag out of one field value; any non-boolean value is the
    /// wrong type.
    pub fn from_field_value(val: &FieldValue) -> (r: Option<CameraFollow>)
        ensures
            r == (match val {
                FieldValue::Bool(b) => Some(CameraFollow(*b)),
                _ => None::<CameraFollow>,
            }),
    {
        match val {
            FieldValue::Bool(b) => Some(CameraFollow(*b)),
            _ => None,
        }
    }

    /// Looks the `"CameraFollow"` field up and reads the flag from it.
    pub fn from_field_instances(fields: &Vec<FieldInstance>) -> (r: Option<CameraFollow>)
        ensures
            r == spec_camera_follow_from(fields@),
    {
        match find_field(fields, "CameraFollow") {
            Some(f) => CameraFollow::from_field_value(&f.value),
            None => None,
        }
    }
}

/// What resolving a level's settings from its fields yields.
pub open spec fn spec_level_settings_from(fields: Seq<FieldInstance>) -> Option<LevelSettings> {
    match spec_camera_follow_from(fields) {
        Some(c) => Some(LevelSettings { camera_follow: c }),
        None => None,
    }
}

impl LevelSettings {
    /// Resolves the whole settings value from a level's fields; nothing when
    /// any field is missing or of the wrong type.
    pub fn from_field_instances(fields: &Vec<FieldInstance>) -> (r: Option<LevelSettings>)
        ensures
            r == spec_level_settings_from(fields@),
    {
        match CameraFollow::from_field_instances(fields) {
            Some(c) => Some(LevelSettings { camera_follow: c }),
            None => None,
        }
    }
}

/// The index of the level a selection picks, or the number of levels when
/// the selection picks none.
pub open spec fn spec_selected_level_index(levels: Seq<LevelRecord>, selection: LevelSelection)
    -> int {
    match selection {
        LevelSelection::Indices { level } => if level < levels.len() {
            level as int
        } else {
            levels.len() as int
        },
        LevelSelection::Iid(s) => spec_level_index_by_iid(levels, s@, 0),
    }
}

/// The settings resolver, run once per tick.
///
/// It does nothing until the tick on which the active-level selection is
/// observed changed; then it looks the newly active level up and replaces
/// the settings wholesale with that level's. When the level cannot be found
/// or its fields do not resolve, the prior settings remain in place and the
/// host logs a warning.
pub fn update_level_settings(
    settings: &mut LevelSettings,
    selection: &LevelSelection,
    selection_changed: bool,
    project: &LevelProject,
)
    ensures
        !selection_changed ==> *final(settings) == *old(settings),
        selection_changed ==> ({
            let idx = spec_selected_level_index(project.levels@, *selection);
            if idx < project.levels@.len() {
                match spec_level_settings_from(project.levels@[idx].field_instances@) {
                    Some(s) => *final(settings) == s,
                    None => *final(settings) == *old(settings),
                }
            } else {
                *final(settings) == *old(settings)
            }
        }),
{
    if !selection_changed {
        return ;
    }

    let level = match selection {
        LevelSelection::Indices { level } => project.get_raw_level_at_indices(*level),
        LevelSelection::Iid(iid) => project.get_raw_level_by_iid(iid.as_str()),
    };

    let level = match level {
        Some(l) => l,
        None => {
            return ;
        },
    };

    match LevelSettings::from_field_instances(&level.field_instances) {
        Some(new_settings) => {
            *settings = new_settings;
        },
        None => {},
    }
}

} // verus!
