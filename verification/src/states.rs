//! The loading-state machine: a two-valued status per tracked concern
//! (monitor geometry, texture asset, overall readiness), plus a tracker
//! that holds all three and keeps the readiness invariant.

use vstd::prelude::*;
use core::marker::PhantomData;

verus! {

/// A trait marker for types intended to be used for loading states.
pub trait LoadingTypeMarker {}

/// The type marker used for the texture loading state.
#[derive(Clone, Copy, Debug)]
pub struct TextureLoadingMarker;

impl LoadingTypeMarker for TextureLoadingMarker {}

/// The type marker used for the display loading state.
#[derive(Clone, Copy, Debug)]
pub struct DisplayLoadingMarker;

impl LoadingTypeMarker for DisplayLoadingMarker {}

/// The type marker used for the application loading state.
#[derive(Clone, Copy, Debug)]
pub struct ApplicationLoadingMarker;

impl LoadingTypeMarker for ApplicationLoadingMarker {}

/// A generic loading state.
#[derive(Clone, Copy, Debug, Hash, PartialEq, Eq, Structural)]
pub enum GenericLoadingState {
    /// Currently loading.
    Loading,
    /// Finished loading.
    Finished,
}

impl GenericLoadingState {
    /// Returns `true` if the generic loading state is `Loading`.
    pub fn is_loading(&self) -> (r: bool)
        ensures
            r == (*self == GenericLoadingState::Loading),
    {
        matches!(self, GenericLoadingState::Loading)
    }

    /// Returns `true` if the generic loading state is `Finished`.
    pub fn is_finished(&self) -> (r: bool)
        ensures
            r == (*self == GenericLoadingState::Finished),
    {
        matches!(self, GenericLoadingState::Finished)
    }
}

impl Default for GenericLoadingState {
    /// A concern starts out loading.
    fn default() -> (r: Self)
        ensures
            r == GenericLoadingState::Loading,
    {
        GenericLoadingState::Loading
    }
}

/// A typed loading state: the status of one tracked concern, labelled at
/// the type level so the concerns cannot be mixed up.
pub struct LoadingState<T: LoadingTypeMarker> {
    /// The inner loading state.
    inner: GenericLoadingState,
    /// The associated type marker.
    marker: PhantomData<T>,
}

impl<T: LoadingTypeMarker> LoadingState<T> {
    /// The tracked status.
    pub closed spec fn state(self) -> GenericLoadingState {
        self.inner
    }

    /// Creates a new loading state that is set to `Loading`.
    pub fn loading() -> (r: Self)
        ensures
            r.state() == GenericLoadingState::Loading,
    {
        Self::new(GenericLoadingState::Loading)
    }

    /// Creates a new loading state that is set to `Finished`.
    pub fn finished() -> (r: Self)
        ensures
            r.state() == GenericLoadingState::Finished,
    {
        Self::new(GenericLoadingState::Finished)
    }

    /// Creates a new loading state.
    fn new(inner: GenericLoadingState) -> (r: Self)
        ensures
            r.state() == inner,
    {
        LoadingState { inner, marker: PhantomData }
    }

    /// Returns `true` if the typed loading state is `Loading`.
    pub fn is_loading(&self) -> (r: bool)
        ensures
            r == (self.state() == GenericLoadingState::Loading),
    {
        self.inner.is_loading()
    }

    /// Returns `true` if the typed loading state is `Finished`.
    pub fn is_finished(&self) -> (r: bool)
        ensures
            r == (self.state() == GenericLoadingState::Finished),
    {
        self.inner.is_finished()
    }
}

impl<T: LoadingTypeMarker> Default for LoadingState<T> {
    /// A concern starts out loading.
    fn default() -> (r: Self)
        ensures
            r.state() == GenericLoadingState::Loading,
    {
        Self::loading()
    }
}

/// The three readiness concerns of the application, tracked together.
pub struct LoadingTracker {
    /// Whether the monitor geometry has been resolved.
    pub display: LoadingState<DisplayLoadingMarker>,
    /// Whether the sprite texture has finished loading.
    pub texture: LoadingState<TextureLoadingMarker>,
    /// Whether the application as a whole is ready.
    pub application: LoadingState<ApplicationLoadingMarker>,
}

impl LoadingTracker {
    /// Overall readiness may only be `Finished` once both the monitor
    /// geometry and the texture have finished loading.
    pub open spec fn wf(self) -> bool {
        self.application.state() == GenericLoadingState::Finished
            ==> self.display.state() == GenericLoadingState::Finished
                && self.texture.state() == GenericLoadingState::Finished
    }

    /// All three concerns start out loading.
    pub fn new() -> (r: Self)
        ensures
            r.display.state() == GenericLoadingState::Loading,
            r.texture.state() == GenericLoadingState::Loading,
            r.application.state() == GenericLoadingState::Loading,
            r.wf(),
    {
        LoadingTracker {
            display: LoadingState::loading(),
            texture: LoadingState::loading(),
            application: LoadingState::loading(),
        }
    }

    /// Marks the monitor geometry as resolved. The transition is
    /// monotone: no concern ever reverts to `Loading`.
    pub fn mark_display_finished(&mut self)
        requires
            old(self).wf(),
        ensures
            final(self).display.state() == GenericLoadingState::Finished,
            final(self).texture.state() == old(self).texture.state(),
            final(self).application.state() == old(self).application.state(),
            final(self).wf(),
    {
        self.display = LoadingState::finished();
    }

    /// Marks the texture asset as loaded. The transition is monotone: no
    /// concern ever reverts to `Loading`.
    pub fn mark_texture_finished(&mut self)
        requires
            old(self).wf(),
        ensures
            final(self).texture.state() == GenericLoadingState::Finished,
            final(self).display.state() == old(self).display.state(),
            final(self).application.state() == old(self).application.state(),
            final(self).wf(),
    {
        self.texture = LoadingState::finished();
    }

    /// Polls the two sub-concerns and flips overall readiness to
    /// `Finished` exactly when both have finished; otherwise nothing
    /// changes. The transition is monotone.
    pub fn poll(&mut self)
        requires
            old(self).wf(),
        ensures
            final(self).display.state() == old(self).display.state(),
            final(self).texture.state() == old(self).texture.state(),
            (final(self).application.state() == GenericLoadingState::Finished) == (
                old(self).application.state() == GenericLoadingState::Finished
                || (old(self).display.state() == GenericLoadingState::Finished
                    && old(self).texture.state() == GenericLoadingState::Finished)),
            final(self).wf(),
    {
        crate::loading::update_application_loading(&self.display, &self.texture, &mut self.application);
    }
}

} // verus!
