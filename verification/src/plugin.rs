//! The synchronization protocol that keeps the native tray widget in step
//! with the declared [`TrayIcon`](crate::resource::TrayIcon) state.
//!
//! The protocol itself performs no platform call. Each cycle it compares the
//! declared state with the snapshot taken at the last cycle and says which of
//! three things the platform layer must do: build the native widget (first
//! cycle the state exists), re-apply icon, tooltip and menu to the existing
//! widget (the state changed), or nothing (the state is unchanged). Creation
//! always happens before the first update, and any number of field changes
//! between two cycles coalesce into a single update.

use vstd::prelude::*;
use crate::resource::{TrayIcon, TrayModel};

pub mod menu_event;

verus! {

/// The plugin allows you manipulation of the system tray.
///
/// A marker for the host's plugin registry; the host wires
/// [`SyncState::observe`] into the cycle that runs after its own state
/// updates, and the event drain of [`menu_event`] into every cycle.
#[derive(Debug, Default)]
pub struct TrayIconPlugin;

/// What one synchronization cycle must do to the native widget.
#[derive(Debug, PartialEq, Eq, Structural)]
pub enum SyncAction {
    /// Build the native widget from the declared icon, tooltip and menu.
    Create,
    /// Re-apply icon, tooltip and menu to the existing widget, once.
    Update,
    /// Touch nothing: the declared state is unchanged.
    Keep,
}

/// The protocol's memory between cycles: the declared state as it was when
/// the native widget was last brought in step, or nothing before the first
/// cycle.
#[derive(Debug)]
pub struct SyncState {
    last: Option<TrayIcon>,
}

impl View for SyncState {
    type V = Option<TrayModel>;

    closed spec fn view(&self) -> Option<TrayModel> {
        match self.last {
            Some(ref t) => Some(t@),
            None => None,
        }
    }
}

impl SyncState {
    /// Before the first cycle: no state has been observed, no widget exists.
    pub fn new() -> (s: Self)
        ensures
            s@ is None,
    {
        SyncState { last: None }
    }

    /// One synchronization cycle. The first observed state asks for creation;
    /// a state different from the last synchronized one asks for exactly one
    /// update, however many fields changed; an unchanged state asks for
    /// nothing. Afterwards the observed state is the synchronized one.
    pub fn observe(&mut self, current: &TrayIcon) -> (a: SyncAction)
        ensures
            final(self)@ == Some(current@),
            a is Create <==> old(self)@ is None,
            a is Update <==> (old(self)@ matches Some(p) && p != current@),
            a is Keep <==> (old(self)@ matches Some(p) && p == current@),
    {
        match &self.last {
            Option::None => {
                self.last = Some(current.clone());
                SyncAction::Create
            },
            Option::Some(prev) => {
                if *prev == *current {
                    SyncAction::Keep
                } else {
                    self.last = Some(current.clone());
                    SyncAction::Update
                }
            },
        }
    }
}

} // verus!
