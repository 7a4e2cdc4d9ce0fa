use armesto::config::{Color, Config, Geometry, GlobalConfig, UrgencyConfig, DEFAULT_CONFIG};
use armesto::notification::NOTIFICATION_MESSAGE_TEMPLATE;
use armesto::dispatch::Step;
use armesto::error::Error;
use armesto::notification::{Action, Notification, NotificationStore, Urgency};
use std::collections::HashMap;

fn record(id: u32) -> Notification {
    Notification {
        id,
        summary: String::new(),
        body: String::new(),
        application: "app".to_string(),
        icon: String::new(),
        urgency: Urgency::Normal,
        actions: Vec::new(),
        hints: HashMap::new(),
        timestamp: 0,
    }
}

#[test]
fn dispatch_applies_events_in_order() {
    let store = NotificationStore::init();
    assert_eq!(store.dispatch(Action::Show(record(1))), Step::Continue);
    assert_eq!(store.dispatch(Action::Show(record(2))), Step::Continue);
    assert_eq!(store.count(), 2);
    assert_eq!(store.dispatch(Action::ShowLast), Step::Continue);
    assert_eq!(store.dispatch(Action::Close(None)), Step::Continue);
    assert_eq!(store.count(), 2);
    assert_eq!(store.dispatch(Action::Close(Some(1))), Step::Continue);
    assert_eq!(store.count(), 1);
    assert_eq!(store.items()[0].id, 2);
    assert_eq!(store.dispatch(Action::CloseAll), Step::Continue);
    assert_eq!(store.count(), 0);
}

#[test]
fn dispatch_stops_on_shutdown_with_its_cause() {
    let store = NotificationStore::init();
    store.add(record(1));
    let step = store.dispatch(Action::Shutdown(Error::Upstream("bus gone".to_string())));
    assert_eq!(step, Step::Stop(Error::Upstream("bus gone".to_string())));
    assert_eq!(store.count(), 1);
}

#[test]
fn geometry_parses() {
    assert_eq!(
        Geometry::parse("300x60+10+20").unwrap(),
        Geometry { width: 300, height: 60, x: 10, y: 20 }
    );
    assert_eq!(
        Geometry::parse("+1x+2++3++4").unwrap(),
        Geometry { width: 1, height: 2, x: 3, y: 4 }
    );
    let g: Geometry = "4294967295x0+0+0".parse().unwrap();
    assert_eq!(g.width, u32::MAX);
}

#[test]
fn geometry_rejects_malformed_text() {
    for bad in [
        "", "300x60+10", "300x60+10+20+", "300X60+10+20", "300x60-10+20", "x60+10+20",
        "4294967296x1+1+1", "00000000001x1+1+1", " 300x60+10+20",
    ] {
        match Geometry::parse(bad) {
            Err(Error::Geometry(text)) => assert_eq!(text, bad),
            other => panic!("{bad:?} gave {other:?}"),
        }
    }
    assert_eq!(Geometry::parse("0000000001x1+1+1").unwrap().width, 1);
}

#[test]
fn colors_parse_from_hex() {
    assert_eq!(Color::from_hex_str("#1e90ff").unwrap(), Color { red: 0x1e, green: 0x90, blue: 0xff });
    assert_eq!(Color::from_hex_str("fff").unwrap(), Color { red: 255, green: 255, blue: 255 });
    assert_eq!(Color::from_hex_str("#A0b").unwrap(), Color { red: 0xaa, green: 0x00, blue: 0xbb });
    for bad in ["", "#12", "#1234", "#1234567", "#12345g", "#123456#"] {
        match Color::from_hex_str(bad) {
            Err(Error::Color(text)) => assert_eq!(text, bad),
            other => panic!("{bad:?} gave {other:?}"),
        }
    }
}

#[test]
fn urgency_config_is_chosen_by_urgency() {
    let c = |t: u32| UrgencyConfig {
        background: Color { red: 0, green: 0, blue: 0 },
        foreground: Color { red: 255, green: 255, blue: 255 },
        timeout: t,
    };
    let config = Config {
        global: GlobalConfig {
            geometry: Geometry { width: 1, height: 2, x: 3, y: 4 },
            font: "mono".to_string(),
        },
        urgency_low: c(1),
        urgency_normal: c(2),
        urgency_critical: c(3),
    };
    assert_eq!(config.get_urgency_config(&Urgency::Low).timeout, 1);
    assert_eq!(config.get_urgency_config(&Urgency::Normal).timeout, 2);
    assert_eq!(config.get_urgency_config(&Urgency::Critical).timeout, 3);
}

#[test]
fn geometry_from_str_rejects_malformed_text() {
    for bad in ["300x200", "axb+1+2", ""] {
        match bad.parse::<Geometry>() {
            Err(Error::Geometry(text)) => assert_eq!(text, bad),
            other => panic!("{bad:?} gave {other:?}"),
        }
    }
    assert_eq!(
        "12x34+56+78".parse::<Geometry>().unwrap(),
        Geometry { width: 12, height: 34, x: 56, y: 78 }
    );
}

#[test]
fn named_constants() {
    assert_eq!(DEFAULT_CONFIG, "armesto.toml");
    assert_eq!(NOTIFICATION_MESSAGE_TEMPLATE, "notification_message_template");
}
