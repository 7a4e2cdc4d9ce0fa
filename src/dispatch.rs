use vstd::prelude::*;

use crate::error::Error;
use crate::notification::{views, without_id, Action, Notification, NotificationList, NotificationStore};

verus! {

/// What the dispatcher does after an event.
#[derive(Debug, PartialEq, Eq)]
pub enum Step {
    /// Keep running and wait for the next event.
    Continue,
    /// Stop, reporting the cause at the process boundary.
    Stop(Error),
}

/// The records after an event: a shown notification is appended, a closed id
/// or every record is removed; the other events leave them as they are.
pub open spec fn after_action(s: Seq<Notification>, a: Action) -> Seq<Notification> {
    match a {
        Action::Show(n) => s.push(n),
        Action::Close(Some(id)) => without_id(s, id),
        Action::CloseAll => Seq::empty(),
        _ => s,
    }
}

/// The step after an event: stop on a shutdown, with its cause; else continue.
pub open spec fn step_after(a: Action) -> Step {
    match a {
        Action::Shutdown(e) => Step::Stop(e),
        _ => Step::Continue,
    }
}

/// The records after applying the events in order to an empty list.
pub open spec fn replay(events: Seq<Action>) -> Seq<Notification>
    decreases events.len(),
{
    if events.len() == 0 {
        Seq::empty()
    } else {
        after_action(replay(events.drop_last()), events.last())
    }
}

/// Whatever sequence of adds, deletes and clears came before, the count of
/// the records equals the number of records in a snapshot of them.
pub proof fn law_count_matches_items(events: Seq<Action>, snapshot: Seq<Notification>)
    requires
        views(snapshot) == views(replay(events)),
    ensures
        replay(events).len() == snapshot.len(),
{
    assert(views(snapshot).len() == snapshot.len());
    assert(views(replay(events)).len() == replay(events).len());
}

impl NotificationList {
    /// Applies one event to the notifications.
    pub fn apply(&mut self, action: Action) -> (r: Step)
        ensures
            final(self)@ == after_action(old(self)@, action),
            r == step_after(action),
    {
        match action {
            Action::Show(notification) => {
                self.add(notification);
                Step::Continue
            },
            Action::ShowLast => Step::Continue,
            Action::Close(id) => {
                match id {
                    Some(id) => self.delete(id),
                    None => {},
                }
                Step::Continue
            },
            Action::CloseAll => {
                self.delete_all();
                Step::Continue
            },
            Action::Shutdown(reason) => Step::Stop(reason),
        }
    }
}

impl NotificationStore {
    /// Applies one event to the store under its write lock, as
    /// `NotificationList::apply` does, and says whether to go on.
    pub fn dispatch(&self, action: Action) -> (r: Step)
        ensures
            r == step_after(action),
    {
        let (mut list, handle) = self.ds_write();
        let r = list.apply(action);
        handle.release_write(list);
        r
    }
}

} // verus!
