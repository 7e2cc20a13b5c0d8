//! Checks of the loading-state machine, the display and texture
//! metadata, and the fixed-point primitives on concrete values.

use cube_baby::components::{Distance, Position, PushDelay, Velocity, apply_impulse};
use cube_baby::fixed::{clamp_i64, fx_mul, isqrt, round_to_px};
use cube_baby::loading::{
    MonitorInfo, update_application_loading, update_display_loading, update_texture_loading,
};
use cube_baby::resources::{DisplayProperties, TextureMetadata};
use cube_baby::states::{
    ApplicationLoadingMarker, DisplayLoadingMarker, GenericLoadingState, LoadingState,
    LoadingTracker, TextureLoadingMarker,
};
use cube_baby::vec2::{PixelExtent, PixelPoint, Vec2Fx};

#[test]
fn generic_loading_state_predicates() {
    assert!(GenericLoadingState::Loading.is_loading());
    assert!(!GenericLoadingState::Loading.is_finished());
    assert!(GenericLoadingState::Finished.is_finished());
    assert!(!GenericLoadingState::Finished.is_loading());
    assert!(GenericLoadingState::default().is_loading());
}

#[test]
fn typed_loading_state_predicates() {
    let loading: LoadingState<TextureLoadingMarker> = LoadingState::loading();
    assert!(loading.is_loading());
    assert!(!loading.is_finished());
    let finished: LoadingState<TextureLoadingMarker> = LoadingState::finished();
    assert!(finished.is_finished());
    assert!(!finished.is_loading());
    let default_state: LoadingState<ApplicationLoadingMarker> = Default::default();
    assert!(default_state.is_loading());
}

#[test]
fn tracker_finishes_only_when_both_concerns_finish() {
    let mut tracker = LoadingTracker::new();
    tracker.poll();
    assert!(tracker.application.is_loading());
    tracker.mark_display_finished();
    tracker.poll();
    assert!(tracker.application.is_loading());
    tracker.mark_texture_finished();
    tracker.poll();
    assert!(tracker.application.is_finished());
    // Readiness never reverts.
    tracker.poll();
    assert!(tracker.application.is_finished());
}

#[test]
fn display_loading_stores_geometry_on_success() {
    let mut properties = DisplayProperties {
        position: PixelPoint { x: 0, y: 0 },
        resolution: PixelExtent { x: 0, y: 0 },
    };
    let mut state: LoadingState<DisplayLoadingMarker> = LoadingState::loading();
    update_display_loading(&mut properties, &mut state, None);
    assert!(state.is_loading());
    assert_eq!(properties.resolution, PixelExtent { x: 0, y: 0 });
    let monitor = MonitorInfo {
        position: PixelPoint { x: -1920, y: 0 },
        resolution: PixelExtent { x: 1920, y: 1080 },
    };
    update_display_loading(&mut properties, &mut state, Some(monitor));
    assert!(state.is_finished());
    assert_eq!(properties.position, PixelPoint { x: -1920, y: 0 });
    assert_eq!(properties.resolution, PixelExtent { x: 1920, y: 1080 });
}

#[test]
fn texture_loading_records_size_on_completion() {
    let mut metadata = TextureMetadata { size: PixelExtent { x: 0, y: 0 } };
    let mut state: LoadingState<TextureLoadingMarker> = LoadingState::loading();
    update_texture_loading(&mut metadata, &mut state, None);
    assert!(state.is_loading());
    update_texture_loading(&mut metadata, &mut state, Some(PixelExtent { x: 256, y: 32 }));
    assert!(state.is_finished());
    assert_eq!(metadata.size, PixelExtent { x: 256, y: 32 });
}

#[test]
fn application_loading_gates_on_both_states() {
    let loading_d: LoadingState<DisplayLoadingMarker> = LoadingState::loading();
    let finished_d: LoadingState<DisplayLoadingMarker> = LoadingState::finished();
    let loading_t: LoadingState<TextureLoadingMarker> = LoadingState::loading();
    let finished_t: LoadingState<TextureLoadingMarker> = LoadingState::finished();

    let mut app: LoadingState<ApplicationLoadingMarker> = LoadingState::loading();
    update_application_loading(&finished_d, &loading_t, &mut app);
    assert!(app.is_loading());
    update_application_loading(&loading_d, &finished_t, &mut app);
    assert!(app.is_loading());
    update_application_loading(&finished_d, &finished_t, &mut app);
    assert!(app.is_finished());
}

#[test]
fn texture_metadata_frame_size_and_scale() {
    let metadata = TextureMetadata { size: PixelExtent { x: 256, y: 32 } };
    assert_eq!(metadata.frame_size(), PixelExtent { x: 32, y: 32 });
    // 64-pixel window over a 32-pixel frame: scale factor 2.0 per axis.
    assert_eq!(metadata.sprite_scale(), Vec2Fx { x: 2000, y: 2000 });

    let tall = TextureMetadata { size: PixelExtent { x: 512, y: 128 } };
    assert_eq!(tall.frame_size(), PixelExtent { x: 64, y: 128 });
    assert_eq!(tall.sprite_scale(), Vec2Fx { x: 1000, y: 500 });
}

#[test]
fn display_bounds_and_containment() {
    let display = DisplayProperties {
        position: PixelPoint { x: -1920, y: 0 },
        resolution: PixelExtent { x: 1920, y: 1080 },
    };
    assert_eq!(display.minimum_position(), PixelPoint { x: -1920, y: 0 });
    assert_eq!(display.maximum_position(), PixelPoint { x: 0, y: 1080 });
    assert_eq!(display.center_position(), PixelPoint { x: -960, y: 540 });
    assert!(display.contains(PixelPoint { x: -960, y: 540 }));
    // Containment is strict on every edge.
    assert!(!display.contains(PixelPoint { x: -1920, y: 540 }));
    assert!(!display.contains(PixelPoint { x: 0, y: 540 }));
    assert!(!display.contains(PixelPoint { x: -960, y: 0 }));
    assert!(!display.contains(PixelPoint { x: -960, y: 1080 }));
}

#[test]
fn display_maximum_saturates() {
    let display = DisplayProperties {
        position: PixelPoint { x: 2147483000, y: 0 },
        resolution: PixelExtent { x: 4000000, y: 10 },
    };
    assert_eq!(display.maximum_position(), PixelPoint { x: i32::MAX, y: 10 });
}

#[test]
fn fixed_point_product_truncates_toward_zero() {
    assert_eq!(fx_mul(1500, 333), 499);
    assert_eq!(fx_mul(-1500, 333), -499);
    assert_eq!(fx_mul(1500, -333), -499);
    assert_eq!(fx_mul(-1500, -333), 499);
    assert_eq!(fx_mul(500000, 1000), 500000);
    assert_eq!(fx_mul(123, 0), 0);
}

#[test]
fn integer_square_root_is_exact() {
    assert_eq!(isqrt(0), 0);
    assert_eq!(isqrt(1), 1);
    assert_eq!(isqrt(24), 4);
    assert_eq!(isqrt(25), 5);
    assert_eq!(isqrt(26), 5);
    assert_eq!(isqrt(1_000_000_000_000), 1_000_000);
    assert_eq!(isqrt(u64::MAX), 4294967295);
}

#[test]
fn rounding_to_pixels_is_half_away_from_zero() {
    assert_eq!(round_to_px(0), 0);
    assert_eq!(round_to_px(499), 0);
    assert_eq!(round_to_px(500), 1);
    assert_eq!(round_to_px(1499), 1);
    assert_eq!(round_to_px(1500), 2);
    assert_eq!(round_to_px(-499), 0);
    assert_eq!(round_to_px(-500), -1);
    assert_eq!(round_to_px(-1500), -2);
}

#[test]
fn clamping_is_exact() {
    assert_eq!(clamp_i64(5, 0, 10), 5);
    assert_eq!(clamp_i64(-5, 0, 10), 0);
    assert_eq!(clamp_i64(15, 0, 10), 10);
}

#[test]
fn impulses_saturate_velocity() {
    let mut velocity = Velocity::new(999_999_999, 0);
    apply_impulse(&mut velocity, Vec2Fx { x: 2_000_000, y: -3_000 });
    assert_eq!(velocity.0, Vec2Fx { x: 1_000_000_000, y: -3_000 });
    let mut velocity = Velocity::new(-999_999_999, 0);
    apply_impulse(&mut velocity, Vec2Fx { x: -2_000_000, y: 0 });
    assert_eq!(velocity.0, Vec2Fx { x: -1_000_000_000, y: 0 });
}

#[test]
fn component_constructors() {
    assert_eq!(Position::new(3, 4).0, Vec2Fx { x: 3, y: 4 });
    assert_eq!(Velocity::new(-3, 4).0, Vec2Fx { x: -3, y: 4 });
    assert_eq!(PushDelay::zero().0, 0);
    assert_eq!(Distance::zero().0, 0);
    let v = Vec2Fx { x: 3000, y: 4000 };
    assert_eq!(v.magnitude(), 5000);
    assert_eq!((Vec2Fx { x: 1, y: 1 }).magnitude(), 1);
}
