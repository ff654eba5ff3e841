//! Level selection and level transitions.
//!
//! Reaching the goal cell of the active level raises a `ChangeLevel` event,
//! exactly once per arrival; a separate consumer applies the queued changes
//! to the active-level selection and orders a camera snap for each change so
//! the camera never interpolates across a level seam.

use vstd::prelude::*;

use crate::movement::SyncCameraWithPlayer;
use crate::util::GridCoords;

verus! {

/// The active level: selected either by position in the project's level
/// list, or by its stable textual identifier.
#[derive(Clone, PartialEq, Eq, Debug)]
pub enum LevelSelection {
    Indices { level: usize },
    Iid(String),
}

impl LevelSelection {
    /// Selects the level at a list position.
    pub fn index(level: usize) -> (s: LevelSelection)
        ensures
            s == (LevelSelection::Indices { level }),
    {
        LevelSelection::Indices { level }
    }
}

/// A request to change the active level: either to an explicit selection,
/// or to the next level in index order.
#[derive(Clone, PartialEq, Eq, Debug)]
pub enum ChangeLevel {
    Level(LevelSelection),
    Next,
}

impl ChangeLevel {
    pub fn level(level: LevelSelection) -> (c: ChangeLevel)
        ensures
            c == ChangeLevel::Level(level),
    {
        ChangeLevel::Level(level)
    }
}

impl Default for ChangeLevel {
    fn default() -> (c: ChangeLevel)
        ensures
            c is Next,
    {
        ChangeLevel::Next
    }
}

/// Marker for the static trigger-zone entity whose grid cell advances the
/// level.
#[derive(Clone, Copy, PartialEq, Eq, Structural, Debug, Default)]
pub struct LevelGoal;

/// The player's grid position adjusted down by one cell: the player's
/// collider origin sits one grid unit above its logical cell, so goal
/// comparisons use the cell under it.
pub open spec fn spec_adjusted_player_cell(player: GridCoords) -> GridCoords {
    GridCoords { x: player.x, y: (player.y - 1) as i32 }
}

/// Whether the adjusted player cell sits exactly on the goal cell. The
/// comparison is integer equality, never a float distance.
pub open spec fn spec_on_goal(player: GridCoords, goal: GridCoords) -> bool {
    spec_adjusted_player_cell(player) == goal
}

/// The transition detector's memory: whether the player already stood on
/// the goal cell on the previous tick. An explicit latch keeps the trigger
/// edge-triggered instead of leaning on resource change detection.
#[derive(Clone, Copy, PartialEq, Eq, Structural, Debug, Default)]
pub struct TransitionState {
    pub on_goal: bool,
}

/// The transition detector, run once per tick.
///
/// A `ChangeLevel::Next` request fires exactly on the tick the player's
/// adjusted cell arrives on the goal cell — standing still on the goal does
/// not fire again, and leaving and returning fires anew.
pub fn transition_level(
    player: &GridCoords,
    level_goal: &GridCoords,
    state: &mut TransitionState,
) -> (change: Option<ChangeLevel>)
    requires
        player.y > i32::MIN,
    ensures
        final(state).on_goal == spec_on_goal(*player, *level_goal),
        change is Some <==> (spec_on_goal(*player, *level_goal) && !old(state).on_goal),
        change matches Some(c) ==> c is Next,
{
    let adjusted = GridCoords { x: player.x, y: player.y - 1 };
    let on_goal = adjusted.x == level_goal.x && adjusted.y == level_goal.y;
    let arrived = on_goal && !state.on_goal;
    state.on_goal = on_goal;
    if arrived {
        Some(ChangeLevel::Next)
    } else {
        None
    }
}

/// What one change request does to a selection: `Next` advances an indexed
/// selection by one, an explicit request replaces the selection. A request
/// is refused — and processing stops for the tick — when the selection is
/// not in indexed form or the index cannot advance further.
pub open spec fn spec_apply_change(sel: LevelSelection, ev: ChangeLevel) -> Option<LevelSelection> {
    match sel {
        LevelSelection::Indices { level } => match ev {
            ChangeLevel::Next => if level < usize::MAX {
                Some(LevelSelection::Indices { level: (level + 1) as usize })
            } else {
                None
            },
            ChangeLevel::Level(inner) => Some(inner),
        },
        LevelSelection::Iid(_) => None,
    }
}

/// Applying a queue of change requests in order: the selection after the
/// run, and how many requests were applied before the run ended. Processing
/// stops at the first refused request.
pub open spec fn spec_run_changes(sel: LevelSelection, events: Seq<ChangeLevel>) -> (
    LevelSelection,
    int,
)
    decreases events.len(),
{
    if events.len() == 0 {
        (sel, 0)
    } else {
        match spec_apply_change(sel, events[0]) {
            None => (sel, 0),
            Some(next) => {
                let rest = spec_run_changes(next, events.skip(1));
                (rest.0, rest.1 + 1)
            },
        }
    }
}

/// The change-level consumer, run once per tick.
///
/// Applies the tick's queued change requests to the active-level selection
/// in order — so when several are queued at once the last applied one wins —
/// and orders one camera snap per applied change. A refused request stops
/// the run for this tick, leaving the selection as the requests before it
/// left it; the host logs a warning for it.
pub fn change_level(selection: &mut LevelSelection, events: Vec<ChangeLevel>) -> (synced: Vec<
    SyncCameraWithPlayer,
>)
    ensures
        *final(selection) == spec_run_changes(*old(selection), events@).0,
        synced@.len() == spec_run_changes(*old(selection), events@).1,
{
    let ghost orig = *selection;
    let ghost all = events@;
    let mut queue = events;
    let mut synced: Vec<SyncCameraWithPlayer> = Vec::new();
    let mut stopped = false;
    while !stopped && queue.len() > 0
        invariant
            !stopped ==> {
                &&& spec_run_changes(orig, all).0 == spec_run_changes(*selection, queue@).0
                &&& spec_run_changes(orig, all).1 == synced@.len() + spec_run_changes(
                    *selection,
                    queue@,
                ).1
            },
            stopped ==> {
                &&& spec_run_changes(orig, all).0 == *selection
                &&& spec_run_changes(orig, all).1 == synced@.len()
            },
            synced@.len() + queue@.len() <= all.len(),
        decreases queue@.len() + (if stopped {
            0int
        } else {
            1int
        }),
    {
        let ghost rem0 = queue@;
        let ev = queue.remove(0);
        proof {
            assert(rem0.remove(0) =~= rem0.skip(1));
        }
        let applied: Option<LevelSelection> = match &*selection {
            LevelSelection::Indices { level } => match ev {
                ChangeLevel::Next => {
                    if *level < usize::MAX {
                        Some(LevelSelection::Indices { level: *level + 1 })
                    } else {
                        None
                    }
                },
                ChangeLevel::Level(inner) => Some(inner),
            },
            LevelSelection::Iid(_) => None,
        };
        match applied {
            Some(next) => {
                *selection = next;
                synced.push(SyncCameraWithPlayer);
            },
            None => {
                stopped = true;
            },
        }
    }
    synced
}

/// Marker for a solid grass terrain tile.
#[derive(Clone, Copy, PartialEq, Eq, Structural, Debug, Default)]
pub struct GrassTerrain;

} // verus!
