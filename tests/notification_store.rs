use armesto::notification::{Notification, NotificationList, NotificationStore, Urgency};
use std::collections::HashMap;

fn add_single_item() -> (NotificationStore, Notification) {
    let unit = NotificationStore::init();

    let test_notification: Notification = Notification {
        id: 1,
        summary: "test-summary".to_string(),
        body: "test-body".to_string(),
        application: "test-app".to_string(),
        icon: "test-icon".to_string(),
        urgency: Urgency::Critical,
        actions: vec!["test-action-1".to_string()],
        hints: HashMap::from([(
            "test-hint-key-1".to_string(),
            "test-hint-value-1".to_string(),
        )]),
        timestamp: 1234,
    };

    let test_notification_copy: Notification = Notification {
        summary: test_notification.summary.clone(),
        body: test_notification.body.clone(),
        application: test_notification.application.clone(),
        icon: test_notification.icon.clone(),
        actions: test_notification.actions.clone(),
        hints: test_notification.hints.clone(),
        ..test_notification
    };

    unit.add(test_notification);

    (unit, test_notification_copy)
}

fn record(id: u32, app: &str, urgency: Urgency) -> Notification {
    Notification {
        id,
        summary: format!("summary-{id}"),
        body: format!("body-{id}"),
        application: app.to_string(),
        icon: "icon".to_string(),
        urgency,
        actions: vec!["default".to_string()],
        hints: HashMap::from([("k".to_string(), "v".to_string())]),
        timestamp: 100 + id as u64,
    }
}

#[test]
fn notification_store_init() {
    let unit = NotificationStore::init();

    assert_eq!(
        unit.count(),
        0,
        "initialized store contains no notifications"
    );
}

#[test]
fn notification_store_add() {
    let (unit, added_item) = add_single_item();

    assert_eq!(
        unit.count(),
        1,
        "adding one notification has expected count"
    );

    let binding = unit.items();
    let retrieved_item = binding
        .iter()
        .next()
        .expect("Can get added notification from store");

    assert_eq!(added_item.id, retrieved_item.id);
}

#[test]
fn notification_store_delete_one() {
    let (unit, _) = add_single_item();

    unit.delete(0); // invalid id
    assert_eq!(
        unit.count(),
        1,
        "no change after attempt to delete invalid id"
    );

    unit.delete(1);
    assert_eq!(unit.count(), 0, "count down by own after deleting valid id");
}

#[test]
fn notification_store_delete_by_app() {
    let (unit, _) = add_single_item();

    unit.delete_from_app("invalid_app_name".to_string()); // invalid app name
    assert_eq!(
        unit.count(),
        1,
        "no change after attempt to delete invalid id"
    );

    unit.delete_from_app("test-app".to_string());
    assert_eq!(unit.count(), 0, "count down by own after deleting valid id");
}

#[test]
fn notification_store_delete_all() {
    let (unit, _) = add_single_item();

    unit.delete_all();
    assert_eq!(unit.count(), 0, "count down by own after deleting valid id");
}

#[test]
fn notification_store_change_urgency() {
    let (unit, _) = add_single_item();

    unit.set_urgency(1, Urgency::Low);

    let notifications = unit.items();
    let n = notifications.iter().next().expect("Has added element");

    assert_eq!(n.id, 1);
    assert_eq!(n.urgency, Urgency::Low);
}

#[test]
fn scenario_add_then_delete_absent_and_present() {
    let store = NotificationStore::init();
    store.add(record(1, "test-app", Urgency::Critical));
    assert_eq!(store.count(), 1);
    store.delete(0);
    assert_eq!(store.count(), 1);
    store.delete(1);
    assert_eq!(store.count(), 0);
}

#[test]
fn scenario_delete_from_app_keeps_other_apps() {
    let store = NotificationStore::init();
    store.add(record(1, "foo", Urgency::Low));
    store.add(record(2, "bar", Urgency::Normal));
    store.add(record(3, "foo", Urgency::Critical));
    store.delete_from_app("foo".to_string());
    assert_eq!(store.count(), 1);
    let items = store.items();
    assert_eq!(items.len(), 1);
    assert_eq!(items[0].id, 2);
    assert_eq!(items[0].application, "bar");
    assert_eq!(items[0].summary, "summary-2");
}

#[test]
fn count_matches_items_after_mixed_operations() {
    let store = NotificationStore::init();
    for id in 0..6u32 {
        store.add(record(id, if id % 2 == 0 { "even" } else { "odd" }, Urgency::Normal));
        assert_eq!(store.count(), store.items().len());
    }
    store.delete(3);
    assert_eq!(store.count(), store.items().len());
    assert_eq!(store.count(), 5);
    store.delete(3);
    assert_eq!(store.count(), 5);
    store.delete_all();
    assert_eq!(store.count(), store.items().len());
    assert_eq!(store.count(), 0);
}

#[test]
fn items_keep_insertion_order_and_fields() {
    let store = NotificationStore::init();
    store.add(record(7, "a", Urgency::Low));
    store.add(record(3, "b", Urgency::Critical));
    let items = store.items();
    assert_eq!(items.len(), 2);
    assert_eq!(items[0].id, 7);
    assert_eq!(items[1].id, 3);
    assert_eq!(items[1].body, "body-3");
    assert_eq!(items[1].actions, vec!["default".to_string()]);
    assert_eq!(items[1].hints.get("k").map(|v| v.as_str()), Some("v"));
    assert_eq!(items[1].timestamp, 103);
    assert_eq!(items[1].urgency, Urgency::Critical);
}

#[test]
fn set_urgency_changes_only_urgency() {
    let store = NotificationStore::init();
    store.add(record(1, "a", Urgency::Critical));
    store.add(record(2, "b", Urgency::Critical));
    store.set_urgency(2, Urgency::Low);
    let items = store.items();
    assert_eq!(items[0].urgency, Urgency::Critical);
    let n = &items[1];
    assert_eq!(n.urgency, Urgency::Low);
    assert_eq!(n.id, 2);
    assert_eq!(n.summary, "summary-2");
    assert_eq!(n.body, "body-2");
    assert_eq!(n.application, "b");
    assert_eq!(n.icon, "icon");
    assert_eq!(n.actions, vec!["default".to_string()]);
    assert_eq!(n.hints.len(), 1);
    assert_eq!(n.timestamp, 102);
}

#[test]
fn set_urgency_of_absent_id_changes_nothing() {
    let store = NotificationStore::init();
    store.add(record(1, "a", Urgency::Critical));
    store.set_urgency(9, Urgency::Low);
    assert_eq!(store.items()[0].urgency, Urgency::Critical);
}

#[test]
fn set_urgency_changes_first_of_equal_ids() {
    let mut list = NotificationList::new();
    list.add(record(4, "a", Urgency::Critical));
    list.add(record(4, "b", Urgency::Critical));
    list.set_urgency(4, Urgency::Low);
    let items = list.items();
    assert_eq!(items[0].urgency, Urgency::Low);
    assert_eq!(items[1].urgency, Urgency::Critical);
}

#[test]
fn delete_removes_every_record_with_the_id() {
    let mut list = NotificationList::new();
    list.add(record(4, "a", Urgency::Low));
    list.add(record(5, "b", Urgency::Low));
    list.add(record(4, "c", Urgency::Low));
    list.delete(4);
    assert_eq!(list.count(), 1);
    assert_eq!(list.items()[0].id, 5);
    assert_eq!(list.position(5), 0);
    assert_eq!(list.position(4), 1);
}

#[test]
fn clones_of_a_store_share_the_records() {
    let store = NotificationStore::init();
    let other = store.clone();
    other.add(record(1, "a", Urgency::Low));
    assert_eq!(store.count(), 1);
    store.delete_all();
    assert_eq!(other.count(), 0);
}

#[test]
fn urgency_levels_names_and_default() {
    assert_eq!(Urgency::from(0u64), Urgency::Low);
    assert_eq!(Urgency::from(1u64), Urgency::Normal);
    assert_eq!(Urgency::from(2u64), Urgency::Critical);
    assert_eq!(Urgency::from(77u64), Urgency::Normal);
    assert_eq!(Urgency::default(), Urgency::Normal);
    assert_eq!(Urgency::Low.to_string(), "low");
    assert_eq!(Urgency::Normal.to_string(), "normal");
    assert_eq!(Urgency::Critical.to_string(), "critical");
}

#[test]
fn default_notification_is_empty_and_normal() {
    let n = Notification::default();
    assert_eq!(n.id, 0);
    assert_eq!(n.urgency, Urgency::Normal);
    assert!(n.summary.is_empty() && n.application.is_empty() && n.actions.is_empty());
    assert!(n.hints.is_empty());
    assert_eq!(n.timestamp, 0);
}
