use std::collections::HashMap;
use std::sync::Arc;
use vstd::prelude::*;
use vstd::rwlock::{ReadHandle, RwLock, RwLockPredicate, WriteHandle};

use crate::error::Error;

verus! {

/// Name of the template for rendering the notification message.
pub const NOTIFICATION_MESSAGE_TEMPLATE: &'static str = "notification_message_template";

/// Urgency level of a notification.
#[derive(Clone, Copy, Debug, PartialEq, Eq, Structural)]
pub enum Urgency {
    /// Urgency - low
    Low,
    /// Urgency - normal
    Normal,
    /// Urgency - high
    Critical,
}

impl Urgency {
    /// The urgency that a numeric level stands for; unknown levels read as normal.
    pub open spec fn from_level(value: u64) -> Urgency {
        if value == 0 {
            Urgency::Low
        } else if value == 1 {
            Urgency::Normal
        } else if value == 2 {
            Urgency::Critical
        } else {
            Urgency::Normal
        }
    }

    /// The lower-case name of the urgency.
    pub open spec fn label(self) -> Seq<char> {
        match self {
            Urgency::Low => seq!['l', 'o', 'w'],
            Urgency::Normal => seq!['n', 'o', 'r', 'm', 'a', 'l'],
            Urgency::Critical => seq!['c', 'r', 'i', 't', 'i', 'c', 'a', 'l'],
        }
    }

    /// Returns the lower-case name of the urgency (`low`, `normal`, `critical`).
    pub fn to_string(&self) -> (r: String)
        ensures
            r@ == self.label(),
    {
        match self {
            Urgency::Low => {
                proof {
                    reveal_strlit("low");
                }
                String::from_str("low")
            },
            Urgency::Normal => {
                proof {
                    reveal_strlit("normal");
                }
                String::from_str("normal")
            },
            Urgency::Critical => {
                proof {
                    reveal_strlit("critical");
                }
                String::from_str("critical")
            },
        }
    }
}

impl Default for Urgency {
    fn default() -> (r: Self)
        ensures
            r == Urgency::Normal,
    {
        Urgency::Normal
    }
}

impl From<u64> for Urgency {
    fn from(value: u64) -> (r: Self) {
        match value {
            0 => Urgency::Low,
            1 => Urgency::Normal,
            2 => Urgency::Critical,
            _ => Urgency::Normal,
        }
    }
}

impl vstd::std_specs::convert::FromSpecImpl<u64> for Urgency {
    open spec fn obeys_from_spec() -> bool {
        true
    }

    open spec fn from_spec(value: u64) -> Self {
        Urgency::from_level(value)
    }
}

/// A notification as received from the upstream source.
#[derive(Debug)]
pub struct Notification {
    /// notification id
    pub id: u32,
    /// summary
    pub summary: String,
    /// body
    pub body: String,
    /// name of app that generated the notification
    pub application: String,
    /// icon name from app that generated the notification
    pub icon: String,
    /// urgency of notification
    pub urgency: Urgency,
    /// possible actions against notification
    pub actions: Vec<String>,
    /// other notification metadata
    pub hints: HashMap<String, String>,
    /// time that notification was received by daemon
    pub timestamp: u64,
}

impl Default for Notification {
    fn default() -> (r: Self)
        ensures
            r.id == 0 && r.timestamp == 0 && r.urgency == Urgency::Normal,
            r.summary@.len() == 0 && r.body@.len() == 0,
            r.application@.len() == 0 && r.icon@.len() == 0,
            r.actions@.len() == 0 && r.hints@ == Map::<String, String>::empty(),
    {
        Notification {
            id: 0,
            summary: String::new(),
            body: String::new(),
            application: String::new(),
            icon: String::new(),
            urgency: Urgency::Normal,
            actions: Vec::new(),
            hints: HashMap::new(),
            timestamp: 0,
        }
    }
}

/// What a notification holds, with its texts as character sequences.
pub struct NotificationView {
    pub id: u32,
    pub summary: Seq<char>,
    pub body: Seq<char>,
    pub application: Seq<char>,
    pub icon: Seq<char>,
    pub urgency: Urgency,
    pub actions: Seq<String>,
    pub hints: Map<String, String>,
    pub timestamp: u64,
}

impl View for Notification {
    type V = NotificationView;

    open spec fn view(&self) -> NotificationView {
        NotificationView {
            id: self.id,
            summary: self.summary@,
            body: self.body@,
            application: self.application@,
            icon: self.icon@,
            urgency: self.urgency,
            actions: self.actions@,
            hints: self.hints@,
            timestamp: self.timestamp,
        }
    }
}

impl Clone for Notification {
    fn clone(&self) -> (r: Self)
        ensures
            r@ == self@,
    {
        let actions = self.actions.clone();
        proof {
            assert(actions@ =~= self.actions@);
        }
        Notification {
            id: self.id,
            summary: self.summary.clone(),
            body: self.body.clone(),
            application: self.application.clone(),
            icon: self.icon.clone(),
            urgency: self.urgency,
            actions,
            hints: self.hints.clone(),
            timestamp: self.timestamp,
        }
    }
}

/// The views of a sequence of notifications, in order.
pub open spec fn views(s: Seq<Notification>) -> Seq<NotificationView> {
    s.map_values(|n: Notification| n@)
}

/// Whether a record carries an id other than the given one.
pub open spec fn other_id(id: u32) -> spec_fn(Notification) -> bool {
    |n: Notification| n.id != id
}

/// The records that remain after removing every record with the given id.
pub open spec fn without_id(s: Seq<Notification>, id: u32) -> Seq<Notification> {
    s.filter(other_id(id))
}

/// Whether a record belongs to an application other than the given one.
pub open spec fn other_app(app: Seq<char>) -> spec_fn(Notification) -> bool {
    |n: Notification| n.application@ != app
}

/// The records that remain after removing every record of the given application.
pub open spec fn without_app(s: Seq<Notification>, app: Seq<char>) -> Seq<Notification> {
    s.filter(other_app(app))
}

/// Index of the first record with the given id, or the length when there is none.
pub open spec fn first_index(s: Seq<Notification>, id: u32) -> int
    decreases s.len(),
{
    if s.len() == 0 {
        0
    } else if s[0].id == id {
        0
    } else {
        1 + first_index(s.drop_first(), id)
    }
}

/// Whether some record carries the given id.
pub open spec fn has_id(s: Seq<Notification>, id: u32) -> bool {
    exists|i: int| 0 <= i < s.len() && s[i].id == id
}

/// The records after the first one with the given id (if any) takes the given urgency.
pub open spec fn with_urgency(s: Seq<Notification>, id: u32, u: Urgency) -> Seq<Notification> {
    let i = first_index(s, id);
    if i < s.len() {
        s.update(i, Notification { urgency: u, ..s[i] })
    } else {
        s
    }
}

/// The first record with the given id sits at index `i`.
pub proof fn lemma_first_index(s: Seq<Notification>, id: u32, i: int)
    requires
        0 <= i <= s.len(),
        forall|j: int| 0 <= j < i ==> s[j].id != id,
        i == s.len() || s[i].id == id,
    ensures
        first_index(s, id) == i,
    decreases i,
{
    if i > 0 {
        assert(s[0].id != id);
        let t = s.drop_first();
        assert forall|j: int| 0 <= j < i - 1 implies t[j].id != id by {
            assert(t[j] == s[j + 1]);
        }
        lemma_first_index(t, id, i - 1);
    }
}

/// The first index is in range exactly when some record carries the id.
pub proof fn lemma_first_index_bounds(s: Seq<Notification>, id: u32)
    ensures
        0 <= first_index(s, id) <= s.len(),
        first_index(s, id) < s.len() <==> has_id(s, id),
        first_index(s, id) < s.len() ==> s[first_index(s, id)].id == id,
        forall|j: int| 0 <= j < first_index(s, id) ==> s[j].id != id,
    decreases s.len(),
{
    if s.len() > 0 && s[0].id != id {
        let t = s.drop_first();
        lemma_first_index_bounds(t, id);
        assert forall|j: int| 0 <= j < first_index(s, id) implies s[j].id != id by {
            if j > 0 {
                assert(s[j] == t[j - 1]);
            }
        }
        if has_id(s, id) {
            let k = choose|k: int| 0 <= k < s.len() && s[k].id == id;
            assert(t[k - 1].id == id);
        }
        if has_id(t, id) {
            let k = choose|k: int| 0 <= k < t.len() && t[k].id == id;
            assert(s[k + 1].id == id);
        }
    }
}

/// Which records a removal picks: those with an id, or those of an application.
enum Selector {
    Id(u32),
    App(String),
}

impl Selector {
    /// The records that a removal keeps.
    spec fn keeps(&self) -> spec_fn(Notification) -> bool {
        match self {
            Selector::Id(id) => other_id(*id),
            Selector::App(app) => other_app(app@),
        }
    }

    /// Whether the record is picked for removal.
    fn picks(&self, n: &Notification) -> (r: bool)
        ensures
            r == !(self.keeps())(*n),
    {
        match self {
            Selector::Id(id) => n.id == *id,
            Selector::App(app) => n.application.eq(app),
        }
    }
}

/// The notifications held at one instant, in the order they arrived.
pub struct NotificationList {
    records: Vec<Notification>,
}

impl View for NotificationList {
    type V = Seq<Notification>;

    closed spec fn view(&self) -> Seq<Notification> {
        self.records@
    }
}

impl NotificationList {
    /// An empty list.
    pub fn new() -> (r: Self)
        ensures
            r@ == Seq::<Notification>::empty(),
    {
        NotificationList { records: Vec::new() }
    }

    /// Number of notifications.
    pub fn count(&self) -> (r: usize)
        ensures
            r == self@.len(),
    {
        self.records.len()
    }

    /// Appends a notification at the end.
    pub fn add(&mut self, notification: Notification)
        ensures
            final(self)@ == old(self)@.push(notification),
    {
        self.records.push(notification);
    }

    /// A copy of every notification, in order.
    pub fn items(&self) -> (r: Vec<Notification>)
        ensures
            views(r@) == views(self@),
    {
        let mut out: Vec<Notification> = Vec::new();
        let mut i: usize = 0;
        while i < self.records.len()
            invariant
                i <= self.records@.len(),
                out@.len() == i,
                forall|j: int| 0 <= j < i ==> out@[j]@ == self.records@[j]@,
            decreases self.records@.len() - i,
        {
            out.push(self.records[i].clone());
            i += 1;
        }
        assert(views(out@) =~= views(self.records@));
        out
    }

    /// The notification at index `i`.
    pub fn get(&self, i: usize) -> (r: &Notification)
        requires
            i < self@.len(),
        ensures
            *r == self@[i as int],
    {
        &self.records[i]
    }

    /// Index of the first notification with the given id, or the length when there is none.
    pub fn position(&self, id: u32) -> (r: usize)
        ensures
            r == first_index(self@, id),
    {
        let mut i: usize = 0;
        while i < self.records.len()
            invariant
                i <= self.records@.len(),
                forall|j: int| 0 <= j < i ==> self.records@[j].id != id,
            decreases self.records@.len() - i,
        {
            if self.records[i].id == id {
                proof {
                    lemma_first_index(self.records@, id, i as int);
                }
                return i;
            }
            i += 1;
        }
        proof {
            lemma_first_index(self.records@, id, i as int);
        }
        i
    }

    /// Removes every notification that the selector picks, keeping the order of the others.
    fn remove_selected(&mut self, selector: &Selector)
        ensures
            final(self)@ == old(self)@.filter(selector.keeps()),
    {
        let ghost start = self.records@;
        let ghost mut k: int = 0;
        let mut i: usize = 0;
        while i < self.records.len()
            invariant
                0 <= i <= self.records@.len(),
                0 <= k <= start.len(),
                self.records@.subrange(0, i as int) == start.subrange(0, k).filter(selector.keeps()),
                self.records@.subrange(i as int, self.records@.len() as int) == start.subrange(
                    k,
                    start.len() as int,
                ),
            decreases self.records@.len() - i,
        {
            let ghost before = self.records@;
            proof {
                reveal(Seq::filter);
            }
            assert(k < start.len()) by {
                assert(before.subrange(i as int, before.len() as int).len() == start.subrange(
                    k,
                    start.len() as int,
                ).len());
            }
            assert(start.subrange(0, k + 1).drop_last() =~= start.subrange(0, k));
            assert(before[i as int] == start[k]) by {
                assert(before.subrange(i as int, before.len() as int)[0] == before[i as int]);
                assert(start.subrange(k, start.len() as int)[0] == start[k]);
            }
            if selector.picks(&self.records[i]) {
                self.records.remove(i);
                assert(self.records@.subrange(0, i as int) =~= before.subrange(0, i as int));
                assert(start.subrange(0, k + 1).filter(selector.keeps()) == start.subrange(0, k).filter(selector.keeps()));
                assert(self.records@.subrange(i as int, self.records@.len() as int)
                    =~= start.subrange(k + 1, start.len() as int)) by {
                    assert(before.subrange(i as int, before.len() as int).drop_first()
                        =~= start.subrange(k + 1, start.len() as int));
                }
            } else {
                assert(start.subrange(0, k + 1).filter(selector.keeps()) == start.subrange(0, k).filter(selector.keeps()).push(start[k]));
                assert(self.records@.subrange(0, i + 1) =~= before.subrange(0, i as int).push(
                    before[i as int],
                ));
                assert(self.records@.subrange(i + 1, self.records@.len() as int)
                    =~= start.subrange(k + 1, start.len() as int)) by {
                    assert(before.subrange(i as int, before.len() as int).drop_first()
                        =~= start.subrange(k + 1, start.len() as int));
                }
                i += 1;
            }
            proof {
                k = k + 1;
            }
        }
        assert(start.subrange(0, k) =~= start);
        assert(self.records@.subrange(0, i as int) =~= self.records@);
    }

    /// Removes every notification with the given id.
    pub fn delete(&mut self, id: u32)
        ensures
            final(self)@ == without_id(old(self)@, id),
    {
        self.remove_selected(&Selector::Id(id));
    }

    /// Removes every notification.
    pub fn delete_all(&mut self)
        ensures
            final(self)@ == Seq::<Notification>::empty(),
    {
        self.records.clear();
    }

    /// Removes every notification whose application is the given name.
    pub fn delete_from_app(&mut self, app_name: &str)
        ensures
            final(self)@ == without_app(old(self)@, app_name@),
    {
        self.remove_selected(&Selector::App(String::from_str(app_name)));
    }

    /// Gives the first notification with the given id the given urgency.
    pub fn set_urgency(&mut self, id: u32, target_urgency: Urgency)
        ensures
            final(self)@ == with_urgency(old(self)@, id, target_urgency),
    {
        let i = self.position(id);
        proof {
            lemma_first_index_bounds(self.records@, id);
        }
        if i < self.records.len() {
            let ghost before = self.records@;
            let mut n = self.records.remove(i);
            n.urgency = target_urgency;
            self.records.insert(i, n);
            assert(self.records@ =~= before.update(
                i as int,
                Notification { urgency: target_urgency, ..before[i as int] },
            ));
        }
    }
}

/// Removing an id that no record carries leaves the records as they are,
/// so the count does not change.
pub proof fn law_delete_absent_id(s: Seq<Notification>, id: u32)
    requires
        !has_id(s, id),
    ensures
        without_id(s, id) == s,
        without_id(s, id).len() == s.len(),
    decreases s.len(),
{
    reveal(Seq::filter);
    if s.len() > 0 {
        let t = s.drop_last();
        assert(!has_id(t, id)) by {
            if has_id(t, id) {
                let k = choose|k: int| 0 <= k < t.len() && t[k].id == id;
                assert(s[k].id == id);
            }
        }
        law_delete_absent_id(t, id);
        assert(s.last().id != id);
        assert(t.push(s.last()) =~= s);
    }
}

/// Every record of the filtered sequence comes from the unfiltered one.
proof fn lemma_filter_from<A>(s: Seq<A>, p: spec_fn(A) -> bool, x: A)
    requires
        s.filter(p).contains(x),
    ensures
        s.contains(x),
    decreases s.len(),
{
    reveal(Seq::filter);
    if s.len() > 0 {
        let t = s.drop_last();
        if t.filter(p).contains(x) {
            lemma_filter_from(t, p, x);
            let k = choose|k: int| 0 <= k < t.len() && t[k] == x;
            assert(s[k] == x);
        } else {
            assert(x == s.last());
            assert(s[s.len() - 1] == x);
        }
    }
}

/// Removing the records of an application removes all of them and only
/// them: no remaining record belongs to it, every record of another
/// application remains as it was, and nothing new appears.
pub proof fn law_delete_from_app(s: Seq<Notification>, app: Seq<char>)
    ensures
        forall|i: int|
            0 <= i < without_app(s, app).len() ==> (#[trigger] without_app(s, app)[i]).application@
                != app,
        forall|i: int|
            0 <= i < s.len() && (#[trigger] s[i]).application@ != app ==> without_app(
                s,
                app,
            ).contains(s[i]),
        forall|n: Notification| #[trigger] without_app(s, app).contains(n) ==> s.contains(n),
{
    let p = other_app(app);
    s.filter_lemma(p);
    assert forall|n: Notification| #[trigger] without_app(s, app).contains(n) implies s.contains(
        n,
    ) by {
        lemma_filter_from(s, p, n);
    }
}

/// Setting the urgency of an id changes nothing but the urgency field of the
/// first record with that id, which takes the new urgency.
pub proof fn law_set_urgency_only_urgency(s: Seq<Notification>, id: u32, u: Urgency)
    ensures
        with_urgency(s, id, u).len() == s.len(),
        forall|i: int|
            0 <= i < s.len() ==> #[trigger] with_urgency(s, id, u)[i] == (Notification {
                urgency: with_urgency(s, id, u)[i].urgency,
                ..s[i]
            }),
        forall|i: int|
            0 <= i < s.len() && i != first_index(s, id) ==> #[trigger] with_urgency(s, id, u)[i]
                == s[i],
        has_id(s, id) ==> with_urgency(s, id, u)[first_index(s, id)].urgency == u,
{
    lemma_first_index_bounds(s, id);
}

/// Events handed to the dispatcher.
#[derive(Debug)]
pub enum Action {
    /// Show a notification event from dbus
    Show(Notification),
    /// Show the last notification from dbus
    ShowLast,
    /// Close a notification event from dbus
    Close(Option<u32>),
    /// Close all the notifications event from dbus
    CloseAll,
    /// A fatal problem occurred, exit
    Shutdown(Error),
}

/// Lock invariant of the store: every list of notifications may be held.
pub struct AnyRecords;

impl RwLockPredicate<NotificationList> for AnyRecords {
    open spec fn inv(self, v: NotificationList) -> bool {
        true
    }
}

/// Notification database, shared between threads.
///
/// Each handle refers to one list behind a reader/writer lock; clones share it.
/// Every operation holds the lock for its whole pass over the list, so each
/// one applies the `NotificationList` operation of the same name atomically.
/// What the list holds between two calls depends on the other threads, so
/// the exact effect of each operation is stated on `NotificationList`.
pub struct NotificationStore {
    inner: Arc<RwLock<NotificationList, AnyRecords>>,
}

impl Clone for NotificationStore {
    /// Another handle to the same store: both see and change the same records.
    fn clone(&self) -> (r: Self)
        ensures
            r == *self,
    {
        NotificationStore { inner: Arc::clone(&self.inner) }
    }
}

impl NotificationStore {
    /// Initializes the notification db, empty.
    pub fn init() -> Self {
        NotificationStore { inner: Arc::new(RwLock::new(NotificationList::new(), Ghost(AnyRecords))) }
    }

    /// Returns the number of notifications.
    pub fn count(&self) -> usize {
        let handle = self.ds_read();
        let n = handle.borrow().count();
        handle.release_read();
        n
    }

    /// Adds a new notification at the end.
    pub fn add(&self, notification: Notification) {
        let (mut list, handle) = self.ds_write();
        list.add(notification);
        handle.release_write(list);
    }

    /// Returns a copy of all active notifications at time of call.
    pub fn items(&self) -> Vec<Notification> {
        let handle = self.ds_read();
        let r = handle.borrow().items();
        handle.release_read();
        r
    }

    /// Removes the notifications with the given id.
    pub fn delete(&self, id: u32) {
        let (mut list, handle) = self.ds_write();
        list.delete(id);
        handle.release_write(list);
    }

    /// Removes all the notifications.
    pub fn delete_all(&self) {
        let (mut list, handle) = self.ds_write();
        list.delete_all();
        handle.release_write(list);
    }

    /// Removes the notifications of the given application.
    pub fn delete_from_app(&self, app_name: String) {
        let (mut list, handle) = self.ds_write();
        list.delete_from_app(app_name.as_str());
        handle.release_write(list);
    }

    /// Sets the urgency of the notification with the given id.
    pub fn set_urgency(&self, id: u32, target_urgency: Urgency) {
        let (mut list, handle) = self.ds_write();
        list.set_urgency(id, target_urgency);
        handle.release_write(list);
    }

    fn ds_read(&self) -> ReadHandle<'_, NotificationList, AnyRecords> {
        self.inner.acquire_read()
    }

    pub(crate) fn ds_write(&self) -> (NotificationList, WriteHandle<'_, NotificationList, AnyRecords>) {
        self.inner.acquire_write()
    }
}

} // verus!
