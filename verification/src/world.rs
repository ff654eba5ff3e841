//! The loaded world: the project's level records, the spawn point of the
//! active level, and the respawn plumbing that moves the player there.
//!
//! A level stores its spawn point as a text field `"Spawnpoint"` holding
//! `"x;y"`; reading it can fail in the ways `SPError` lists, and a failure
//! only ever degrades — the previous spawn point stays in place.

use vstd::prelude::*;

use crate::fields::{find_field, spec_field_index, FieldInstance, FieldValue};
use crate::player::SpawnPlayerEvent;
use crate::util::{parse_i32, spec_parse_i32, str_eq, GridCoords};

verus! {

use vstd::string::StrSliceExecFns;

/// The grid cell the player respawns at.
#[derive(Clone, Copy, PartialEq, Eq, Structural, Debug)]
pub struct SpawnPoint(pub GridCoords);

/// Why a level's spawn point could not be read.
#[derive(Clone, Copy, PartialEq, Eq, Structural, Debug)]
pub enum SPError {
    /// The field exists but does not hold a well-formed `"x;y"` value.
    InvalidFormat,
    /// The field exists but holds no value at all.
    EmptyInner,
    /// No field named `"Spawnpoint"` exists on the level.
    FieldNotFound,
    /// The value has no separator, so a coordinate is missing.
    NotEnoughFields,
}

/// The index of the first `';'` at or after `from`, or the length when
/// there is none.
pub open spec fn spec_semi_index(s: Seq<char>, from: int) -> int
    decreases s.len() - from,
{
    if 0 <= from < s.len() {
        if s[from] == ';' {
            from
        } else {
            spec_semi_index(s, from + 1)
        }
    } else {
        s.len() as int
    }
}

proof fn lemma_semi_index(s: Seq<char>, from: int, i: int)
    requires
        0 <= from <= i <= s.len(),
        forall|j: int| from <= j < i ==> s[j] != ';',
        i < s.len() ==> s[i] == ';',
    ensures
        i < s.len() ==> spec_semi_index(s, from) == i,
        i == s.len() ==> spec_semi_index(s, from) == s.len(),
    decreases i - from,
{
    if from < i {
        lemma_semi_index(s, from + 1, i);
    }
}

/// Finds the first `';'` at or after `from`, returning the string's length
/// when there is none.
fn find_semi(s: &str, from: usize) -> (idx: usize)
    requires
        from <= s@.len(),
    ensures
        idx == spec_semi_index(s@, from as int),
        from <= idx <= s@.len(),
        idx < s@.len() ==> s@[idx as int] == ';',
{
    let len = s.unicode_len();
    let mut i = from;
    while i < len
        invariant
            from <= i <= len,
            len == s@.len(),
            forall|j: int| from <= j < i ==> s@[j] != ';',
        decreases len - i,
    {
        if s.get_char(i) == ';' {
            proof {
                lemma_semi_index(s@, from as int, i as int);
            }
            return i;
        }
        i = i + 1;
    }
    proof {
        lemma_semi_index(s@, from as int, len as int);
    }
    len
}

/// A spawn-point read result with the coordinates wrapped as a `SpawnPoint`.
pub open spec fn spec_wrap_spawn(r: Result<GridCoords, SPError>) -> Result<SpawnPoint, SPError> {
    match r {
        Ok(g) => Ok(SpawnPoint(g)),
        Err(e) => Err(e),
    }
}

/// What reading a spawn point out of `"x;y"` text yields. The text before
/// the first `';'` and the text between the first and second `';'` (or the
/// end) must each parse as a signed 32-bit integer; text after a second
/// `';'` is ignored. Without any `';'` a coordinate is missing; a part that
/// does not parse makes the value malformed.
pub open spec fn spec_spawn_point(s: Seq<char>) -> Result<GridCoords, SPError> {
    let i1 = spec_semi_index(s, 0);
    if i1 == s.len() {
        Err(SPError::NotEnoughFields)
    } else {
        let i2 = spec_semi_index(s, i1 + 1);
        match (spec_parse_i32(s.subrange(0, i1)), spec_parse_i32(s.subrange(i1 + 1, i2))) {
            (Some(x), Some(y)) => Ok(GridCoords { x, y }),
            _ => Err(SPError::InvalidFormat),
        }
    }
}

impl SpawnPoint {
    /// Reads a spawn point from `"x;y"` text.
    pub fn try_from(value: &str) -> (r: Result<SpawnPoint, SPError>)
        ensures
            r == spec_wrap_spawn(spec_spawn_point(value@)),
    {
        let len = value.unicode_len();
        let i1 = find_semi(value, 0);
        if i1 == len {
            return Err(SPError::NotEnoughFields);
        }
        let i2 = find_semi(value, i1 + 1);
        let xs = value.substring_char(0, i1);
        let ys = value.substring_char(i1 + 1, i2);
        let x = match parse_i32(xs) {
            Some(v) => v,
            None => {
                return Err(SPError::InvalidFormat);
            },
        };
        let y = match parse_i32(ys) {
            Some(v) => v,
            None => {
                return Err(SPError::InvalidFormat);
            },
        };
        Ok(SpawnPoint(GridCoords::new(x, y)))
    }
}

/// What reading a level's spawn point from its fields yields: the
/// `"Spawnpoint"` field must exist, hold text, hold some text at all, and
/// that text must read as `"x;y"`.
pub open spec fn spec_spawnpoint_from_fields(fields: Seq<FieldInstance>) -> Result<
    GridCoords,
    SPError,
> {
    let idx = spec_field_index(fields, "Spawnpoint"@, 0);
    if idx == fields.len() {
        Err(SPError::FieldNotFound)
    } else {
        match fields[idx].value {
            FieldValue::Str(Some(v)) => spec_spawn_point(v@),
            FieldValue::Str(None) => Err(SPError::EmptyInner),
            _ => Err(SPError::InvalidFormat),
        }
    }
}

/// Reads the spawn point out of a level's typed fields.
pub fn spawnpoint_from_fields(fields: &Vec<FieldInstance>) -> (r: Result<SpawnPoint, SPError>)
    ensures
        r == spec_wrap_spawn(spec_spawnpoint_from_fields(fields@)),
{
    let field = match find_field(fields, "Spawnpoint") {
        Some(f) => f,
        None => {
            return Err(SPError::FieldNotFound);
        },
    };
    match &field.value {
        FieldValue::Str(Some(v)) => SpawnPoint::try_from(v.as_str()),
        FieldValue::Str(None) => Err(SPError::EmptyInner),
        _ => Err(SPError::InvalidFormat),
    }
}

/// One level of the loaded project: its stable identifier and its typed
/// metadata fields.
#[derive(Clone, PartialEq, Eq, Debug)]
pub struct LevelRecord {
    pub iid: String,
    pub field_instances: Vec<FieldInstance>,
}

/// The index of the first level at or after `from` whose identifier reads
/// `iid`, or the number of levels when there is none.
pub open spec fn spec_level_index_by_iid(levels: Seq<LevelRecord>, iid: Seq<char>, from: int) -> int
    decreases levels.len() - from,
{
    if 0 <= from < levels.len() {
        if levels[from].iid@ == iid {
            from
        } else {
            spec_level_index_by_iid(levels, iid, from + 1)
        }
    } else {
        levels.len() as int
    }
}

proof fn lemma_level_index_by_iid(levels: Seq<LevelRecord>, iid: Seq<char>, from: int, i: int)
    requires
        0 <= from <= i <= levels.len(),
        forall|j: int| from <= j < i ==> levels[j].iid@ != iid,
        i < levels.len() ==> levels[i].iid@ == iid,
    ensures
        i < levels.len() ==> spec_level_index_by_iid(levels, iid, from) == i,
        i == levels.len() ==> spec_level_index_by_iid(levels, iid, from) == levels.len(),
    decreases i - from,
{
    if from < i {
        lemma_level_index_by_iid(levels, iid, from + 1, i);
    }
}

/// The loaded level project: the project's levels in file order.
#[derive(Clone, PartialEq, Eq, Debug)]
pub struct LevelProject {
    pub levels: Vec<LevelRecord>,
}

impl LevelProject {
    /// The first level carrying the stable identifier, if any.
    pub fn get_raw_level_by_iid<'a>(&'a self, iid: &str) -> (level: Option<&'a LevelRecord>)
        ensures
            ({
                let idx = spec_level_index_by_iid(self.levels@, iid@, 0);
                match level {
                    Some(l) => idx < self.levels@.len() && *l == self.levels@[idx],
                    None => idx == self.levels@.len(),
                }
            }),
    {
        let mut i: usize = 0;
        while i < self.levels.len()
            invariant
                0 <= i <= self.levels@.len(),
                forall|j: int| 0 <= j < i ==> self.levels@[j].iid@ != iid@,
            decreases self.levels@.len() - i,
        {
            if str_eq(self.levels[i].iid.as_str(), iid) {
                proof {
                    lemma_level_index_by_iid(self.levels@, iid@, 0, i as int);
                }
                return Some(&self.levels[i]);
            }
            i = i + 1;
        }
        proof {
            lemma_level_index_by_iid(self.levels@, iid@, 0, self.levels@.len() as int);
        }
        None
    }

    /// The level at a list position, if the position exists.
    pub fn get_raw_level_at_indices<'a>(&'a self, index: usize) -> (level: Option<&'a LevelRecord>)
        ensures
            index < self.levels@.len() ==> (level matches Some(l) && *l == self.levels@[index as int]),
            index >= self.levels@.len() ==> level is None,
    {
        if index < self.levels.len() {
            Some(&self.levels[index])
        } else {
            None
        }
    }
}

/// Re-reads the spawn point of the level `level_iid` from the project, for
/// a respawn. Nothing when no level carries that identifier — the caller
/// keeps the spawn point it has — and otherwise whatever reading the
/// level's fields yields.
pub fn get_level_spawnpoint(project: &LevelProject, level_iid: &str) -> (r: Option<
    Result<SpawnPoint, SPError>,
>)
    ensures
        ({
            let idx = spec_level_index_by_iid(project.levels@, level_iid@, 0);
            match r {
                Some(res) => idx < project.levels@.len() && res == spec_wrap_spawn(
                    spec_spawnpoint_from_fields(project.levels@[idx].field_instances@),
                ),
                None => idx == project.levels@.len(),
            }
        }),
{
    let level = match project.get_raw_level_by_iid(level_iid) {
        Some(l) => l,
        None => {
            return None;
        },
    };
    Some(spawnpoint_from_fields(&level.field_instances))
}

/// The respawn consumer: when at least one spawn request is queued this
/// tick, the player is moved onto the current spawn point; with no request
/// the player stays where it is.
pub fn transport_player_to_spawnpoint(
    spawn_events: &Vec<SpawnPlayerEvent>,
    player_grid: &mut GridCoords,
    spawnpoint: &SpawnPoint,
)
    ensures
        spawn_events@.len() > 0 ==> *final(player_grid) == spawnpoint.0,
        spawn_events@.len() == 0 ==> *final(player_grid) == *old(player_grid),
{
    if spawn_events.len() > 0 {
        *player_grid = spawnpoint.0;
    }
}

} // verus!
