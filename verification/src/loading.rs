//! The per-tick loading steps: resolving the monitor geometry, recording
//! the texture size, polling overall readiness, and placing the body once
//! everything is ready.

use vstd::prelude::*;
use crate::components::{Position, Velocity, PushDelay, Distance};
use crate::fixed::{spec_clamp, spec_round_px, round_to_px};
use crate::resources::{DisplayProperties, TextureMetadata, spec_sat_add};
use crate::states::{
    LoadingState, GenericLoadingState, DisplayLoadingMarker, TextureLoadingMarker,
    ApplicationLoadingMarker,
};
use crate::vec2::{PixelPoint, PixelExtent, Vec2Fx};
use crate::{FX_ONE, WINDOW_SIZE_FX};

verus! {

/// The geometry of the monitor a window currently occupies, as the window
/// host reports it.
#[derive(Clone, Copy, Debug, PartialEq, Eq, Structural)]
pub struct MonitorInfo {
    /// The monitor's position on the desktop.
    pub position: PixelPoint,
    /// The monitor's resolution in pixels.
    pub resolution: PixelExtent,
}

/// Stores the monitor geometry and finishes the display concern the first
/// tick the window host can report it; while the host reports nothing, no
/// state changes and the query is retried next tick.
pub fn update_display_loading(
    display_properties: &mut DisplayProperties,
    display_state: &mut LoadingState<DisplayLoadingMarker>,
    current_monitor: Option<MonitorInfo>,
)
    ensures
        match current_monitor {
            Some(monitor) => {
                &&& final(display_properties).position == monitor.position
                &&& final(display_properties).resolution == monitor.resolution
                &&& final(display_state).state() == GenericLoadingState::Finished
            },
            None => {
                &&& *final(display_properties) == *old(display_properties)
                &&& final(display_state).state() == old(display_state).state()
            },
        },
{
    if let Some(monitor) = current_monitor {
        display_properties.position = monitor.position;
        display_properties.resolution = monitor.resolution;
        *display_state = LoadingState::finished();
    }
}

/// Records the image's pixel size and finishes the texture concern once
/// the asset reports loaded; until then nothing changes and the check is
/// retried next tick. The caller hands over the size exactly when the
/// asset is loaded.
pub fn update_texture_loading(
    texture_metadata: &mut TextureMetadata,
    texture_state: &mut LoadingState<TextureLoadingMarker>,
    loaded_size: Option<PixelExtent>,
)
    ensures
        match loaded_size {
            Some(size) => {
                &&& final(texture_metadata).size == size
                &&& final(texture_state).state() == GenericLoadingState::Finished
            },
            None => {
                &&& *final(texture_metadata) == *old(texture_metadata)
                &&& final(texture_state).state() == old(texture_state).state()
            },
        },
{
    if let Some(size) = loaded_size {
        texture_metadata.size = size;
        *texture_state = LoadingState::finished();
    }
}

/// Flips overall readiness to `Finished` exactly on the first tick both
/// sub-concerns have finished; readiness never reverts.
pub fn update_application_loading(
    display_state: &LoadingState<DisplayLoadingMarker>,
    texture_state: &LoadingState<TextureLoadingMarker>,
    application_state: &mut LoadingState<ApplicationLoadingMarker>,
)
    ensures
        (final(application_state).state() == GenericLoadingState::Finished) == (
            old(application_state).state() == GenericLoadingState::Finished
            || (display_state.state() == GenericLoadingState::Finished
                && texture_state.state() == GenericLoadingState::Finished)),
{
    if display_state.is_finished() && texture_state.is_finished() {
        *application_state = LoadingState::finished();
    }
}

/// Everything the render layer needs to reveal the body: its initial
/// state and the whole-pixel window placement derived from it.
#[derive(Clone, Copy, Debug, PartialEq, Eq, Structural)]
pub struct SpawnState {
    /// The body's initial position.
    pub position: Position,
    /// The body's initial velocity: at rest.
    pub velocity: Velocity,
    /// The initial push cooldown: none.
    pub push_delay: PushDelay,
    /// The initial slide distance: none.
    pub distance: Distance,
    /// The window placement for the initial position.
    pub window_position: PixelPoint,
}

/// The initial position of the body on one axis: the display's center
/// minus half the window side, in fixed-point.
pub open spec fn spec_spawn_coord(origin: int, resolution: int) -> int {
    spec_sat_add(origin, resolution / 2) * (FX_ONE as int) - WINDOW_SIZE_FX as int / 2
}

/// Computes the body's initial state once all prerequisite loading has
/// finished: at rest at the display's center, offset by half the window
/// side so the window itself is centered.
pub fn on_application_load_finished(display_properties: &DisplayProperties) -> (r: SpawnState)
    ensures
        r.position.0.x as int == spec_spawn_coord(
            display_properties.position.x as int,
            display_properties.resolution.x as int,
        ),
        r.position.0.y as int == spec_spawn_coord(
            display_properties.position.y as int,
            display_properties.resolution.y as int,
        ),
        r.position.wf(),
        r.velocity.0 == (Vec2Fx { x: 0i64, y: 0i64 }),
        r.push_delay.0 == 0,
        r.distance.0 == 0,
        r.window_position.x as int == spec_clamp(
            spec_round_px(r.position.0.x as int), i32::MIN as int, i32::MAX as int),
        r.window_position.y as int == spec_clamp(
            spec_round_px(r.position.0.y as int), i32::MIN as int, i32::MAX as int),
{
    let center: PixelPoint = display_properties.center_position();
    let px: i64 = center.x as i64 * FX_ONE - 32000;
    let py: i64 = center.y as i64 * FX_ONE - 32000;
    let window_position = PixelPoint { x: round_to_px(px), y: round_to_px(py) };
    SpawnState {
        position: Position(Vec2Fx { x: px, y: py }),
        velocity: Velocity(Vec2Fx { x: 0, y: 0 }),
        push_delay: PushDelay(0),
        distance: Distance(0),
        window_position,
    }
}

} // verus!
