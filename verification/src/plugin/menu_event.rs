//! Convert drained native click notifications to application events.
//!
//! The platform fills a thread-safe queue with one notification per click.
//! Each poll cycle the platform layer drains that queue to empty, without
//! blocking, and hands the drained ids to [`menu_events_from_clicks`], which
//! turns them into application events in arrival order.

use vstd::prelude::*;
use crate::resource::menu_item::MenuId;

verus! {

/// The event fired when a menu is clicked.
#[derive(Debug)]
pub struct MenuEvent {
    /// The id of the clicked menu.
    pub id: MenuId,
}

impl Clone for MenuEvent {
    /// A copy carrying the same id.
    fn clone(&self) -> (r: Self)
        ensures
            r.id == self.id,
    {
        MenuEvent { id: self.id.clone() }
    }
}

impl PartialEq for MenuEvent {
    /// Two events are equal when they carry the same id.
    fn eq(&self, other: &Self) -> bool {
        self.id.0 == other.id.0
    }
}

impl vstd::std_specs::cmp::PartialEqSpecImpl for MenuEvent {
    open spec fn obeys_eq_spec() -> bool {
        true
    }

    open spec fn eq_spec(&self, other: &Self) -> bool {
        self.id@ == other.id@
    }
}

/// One application event for each click notification drained in this cycle,
/// in arrival order: no click is dropped, none is duplicated, none is
/// reordered.
pub fn menu_events_from_clicks(ids: Vec<MenuId>) -> (evs: Vec<MenuEvent>)
    ensures
        evs@.len() == ids@.len(),
        forall|j: int| 0 <= j < ids@.len() ==> #[trigger] evs@[j].id == ids@[j],
{
    let mut evs: Vec<MenuEvent> = Vec::new();
    let mut rest = ids;
    let ghost all = rest@;
    while rest.len() > 0
        invariant
            evs@.len() + rest@.len() == all.len(),
            forall|j: int| 0 <= j < evs@.len() ==> #[trigger] evs@[j].id == all[j],
            forall|j: int| 0 <= j < rest@.len() ==> #[trigger] rest@[j] == all[j + evs@.len()],
        decreases rest@.len(),
    {
        let id = rest.remove(0);
        evs.push(MenuEvent { id });
    }
    evs
}

} // verus!
