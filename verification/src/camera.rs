//! Camera placement relative to the player: continuous following, gated by
//! the active level's settings, and the hard snap ordered when play crosses
//! a level seam.

use vstd::prelude::*;

use crate::level_settings::LevelSettings;
use crate::movement::SyncCameraWithPlayer;

verus! {

/// A continuous world position, in thousandths of a unit per axis.
#[derive(Clone, Copy, PartialEq, Eq, Structural, Debug)]
pub struct Translation {
    pub x_milli: i64,
    pub y_milli: i64,
}

/// The per-tick camera follow: when the active level asks the camera to
/// follow, the camera is placed onto the player; when the level asks it to
/// stay put, it stays exactly where it is.
pub fn camera_follow_player(
    level_settings: &LevelSettings,
    camera: &mut Translation,
    player: &Translation,
)
    ensures
        level_settings.camera_follow.0 ==> *final(camera) == *player,
        !level_settings.camera_follow.0 ==> *final(camera) == *old(camera),
{
    if !level_settings.camera_follow.0 {
        return ;
    }
    camera.x_milli = player.x_milli;
    camera.y_milli = player.y_milli;
}

/// The seam snap: when at least one sync order is queued this tick, the
/// camera is placed onto the player at once — a snap, never a smooth
/// interpolation across the seam. Without an order the camera is left
/// alone.
pub fn sync_camera_with_player(
    events: &Vec<SyncCameraWithPlayer>,
    camera: &mut Translation,
    player: &Translation,
)
    ensures
        events@.len() > 0 ==> *final(camera) == *player,
        events@.len() == 0 ==> *final(camera) == *old(camera),
{
    if events.len() > 0 {
        camera.x_milli = player.x_milli;
        camera.y_milli = player.y_milli;
    }
}

} // verus!
