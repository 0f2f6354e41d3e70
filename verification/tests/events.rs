use rrte_engine::runtime::{EventListener, Events, KeyModifiers, SystemEvent};
use std::cell::RefCell;
use std::rc::Rc;

struct Recorder {
    name: &'static str,
    consumes: bool,
    log: Rc<RefCell<Vec<String>>>,
}

impl EventListener for Recorder {
    fn handle_event(&mut self, event: &SystemEvent) -> bool {
        let what = match event {
            SystemEvent::WindowResized { width, height } => format!("resize {}x{}", width, height),
            SystemEvent::Custom { name, .. } => format!("custom {}", name),
            _ => "other".to_string(),
        };
        self.log.borrow_mut().push(format!("{}: {}", self.name, what));
        self.consumes
    }
}

fn custom(name: &str) -> SystemEvent {
    SystemEvent::custom(name.to_string(), String::new())
}

#[test]
fn events_wait_in_order_until_polled() {
    let log = Rc::new(RefCell::new(Vec::new()));
    let mut events: Events<Recorder> = Events::new();
    assert!(!events.has_pending_events());
    events.add_listener(Recorder { name: "a", consumes: false, log: log.clone() });
    events.push_event(custom("one"));
    events.push_event(SystemEvent::window_resize(3, 4));
    assert!(events.has_pending_events());
    assert_eq!(events.pending_event_count(), 2);
    assert!(log.borrow().is_empty());
    events.poll();
    assert_eq!(*log.borrow(), vec!["a: custom one", "a: resize 3x4"]);
    assert_eq!(events.pending_event_count(), 0);
    events.poll();
    assert_eq!(log.borrow().len(), 2);
}

#[test]
fn a_listener_that_uses_an_event_up_ends_its_way() {
    let log = Rc::new(RefCell::new(Vec::new()));
    let mut events: Events<Recorder> = Events::new();
    events.add_listener(Recorder { name: "first", consumes: false, log: log.clone() });
    events.add_listener(Recorder { name: "second", consumes: true, log: log.clone() });
    events.add_listener(Recorder { name: "third", consumes: false, log: log.clone() });
    events.push_event(custom("e"));
    events.poll();
    assert_eq!(*log.borrow(), vec!["first: custom e", "second: custom e"]);
    events.clear_listeners();
    events.push_event(custom("f"));
    events.poll();
    assert_eq!(log.borrow().len(), 2);
}

#[test]
fn a_full_queue_lets_go_of_its_oldest_event() {
    let log = Rc::new(RefCell::new(Vec::new()));
    let mut events: Events<Recorder> = Events::new();
    events.add_listener(Recorder { name: "a", consumes: false, log: log.clone() });
    events.set_max_events(2);
    events.push_event(custom("1"));
    events.push_event(custom("2"));
    events.push_event(custom("3"));
    assert_eq!(events.pending_event_count(), 2);
    events.poll();
    assert_eq!(*log.borrow(), vec!["a: custom 2", "a: custom 3"]);
}

#[test]
fn a_smaller_limit_trims_the_queue_to_its_newest_events() {
    let log = Rc::new(RefCell::new(Vec::new()));
    let mut events: Events<Recorder> = Events::new();
    events.add_listener(Recorder { name: "a", consumes: false, log: log.clone() });
    for k in 0..5 {
        events.push_event(SystemEvent::window_resize(k, k));
    }
    events.set_max_events(10);
    assert_eq!(events.pending_event_count(), 5);
    events.set_max_events(2);
    assert_eq!(events.pending_event_count(), 2);
    events.poll();
    assert_eq!(*log.borrow(), vec!["a: resize 3x3", "a: resize 4x4"]);
    events.push_event(custom("x"));
    events.set_max_events(0);
    assert_eq!(events.pending_event_count(), 0);
    events.push_event(custom("y"));
    assert_eq!(events.pending_event_count(), 1);
}

#[test]
fn the_queue_holds_a_thousand_events_as_it_comes() {
    let mut events: Events<Recorder> = Events::new();
    for k in 0..1005u32 {
        events.push_event(SystemEvent::window_resize(k, 0));
    }
    assert_eq!(events.pending_event_count(), 1000);
    events.clear_events();
    assert!(!events.has_pending_events());
}

#[test]
fn events_are_made_as_named() {
    let m = KeyModifiers { shift: true, ctrl: false, alt: false, logo: true };
    match SystemEvent::key_press("k".to_string(), m) {
        SystemEvent::KeyPressed { key, modifiers } => {
            assert_eq!(key, "k");
            assert_eq!(modifiers, m);
        }
        _ => panic!("not a key press"),
    }
    assert!(matches!(
        SystemEvent::key_release("k".to_string(), m),
        SystemEvent::KeyReleased { .. }
    ));
    assert!(matches!(
        SystemEvent::window_resize(1, 2),
        SystemEvent::WindowResized { width: 1, height: 2 }
    ));
    assert_eq!(KeyModifiers::default(), KeyModifiers { shift: false, ctrl: false, alt: false, logo: false });
}
