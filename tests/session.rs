use std::cell::RefCell;

use urgent_wire::{
    Behavior, Event, Frame, Packet, ProtocolApi, ProtocolError, Role, Session, SessionState, StrategyHandler,
    Urgency,
};

/// Records every call it receives; handles `Yellow` apart only when asked to.
struct Recorder {
    distinct: bool,
    calls: RefCell<Vec<(&'static str, Vec<u8>)>>,
}

impl Recorder {
    fn new(distinct: bool) -> Self {
        Recorder { distinct, calls: RefCell::new(Vec::new()) }
    }
}

impl StrategyHandler for Recorder {
    fn on_urgent_red(&self, packet: &Packet) {
        self.calls.borrow_mut().push(("red", packet.payload.clone()));
    }

    fn on_normal(&self, packet: &Packet) {
        self.calls.borrow_mut().push(("normal", packet.payload.clone()));
    }

    fn on_urgent_yellow(&self, packet: &Packet) {
        if self.distinct {
            self.calls.borrow_mut().push(("yellow", packet.payload.clone()));
        } else {
            self.on_normal(packet);
        }
    }

    fn distinct_elevated(&self) -> bool {
        self.distinct
    }

    fn has_elevated_behavior(&self) -> bool {
        self.distinct_elevated()
    }
}

/// Implements only what every handler must.
struct Plain {
    calls: RefCell<Vec<(&'static str, Vec<u8>)>>,
}

impl StrategyHandler for Plain {
    fn on_urgent_red(&self, packet: &Packet) {
        self.calls.borrow_mut().push(("red", packet.payload.clone()));
    }

    fn on_normal(&self, packet: &Packet) {
        self.calls.borrow_mut().push(("normal", packet.payload.clone()));
    }

    fn distinct_elevated(&self) -> bool {
        false
    }

    fn has_elevated_behavior(&self) -> bool {
        self.distinct_elevated()
    }
}

#[test]
fn dispatch_routes_by_urgency() {
    let api = ProtocolApi::new();
    let h = Recorder::new(true);
    assert_eq!(api.dispatch(&Packet::red("r"), &h), Behavior::Critical);
    assert_eq!(api.dispatch(&Packet::yellow("y"), &h), Behavior::Elevated);
    assert_eq!(api.dispatch(&Packet::green("g"), &h), Behavior::Normal);
    let calls = h.calls.borrow();
    assert_eq!(calls[0], ("red", b"r".to_vec()));
    assert_eq!(calls[1], ("yellow", b"y".to_vec()));
    assert_eq!(calls[2], ("normal", b"g".to_vec()));
}

#[test]
fn elevated_without_override_is_handled_as_normal() {
    let api = ProtocolApi::new();
    let a = Plain { calls: RefCell::new(Vec::new()) };
    let b = Plain { calls: RefCell::new(Vec::new()) };
    let ra = api.dispatch(&api.make_packet("same", Urgency::Yellow), &a);
    let rb = api.dispatch(&api.make_packet("same", Urgency::Green), &b);
    assert_eq!(ra, rb);
    assert_eq!(ra, Behavior::Normal);
    assert_eq!(*a.calls.borrow(), *b.calls.borrow());
    let c = Plain { calls: RefCell::new(Vec::new()) };
    c.on_urgent_yellow(&Packet::yellow("d"));
    assert_eq!(*c.calls.borrow(), vec![("normal", b"d".to_vec())]);
}

#[test]
fn server_echoes_text_and_binary() {
    let api = ProtocolApi::new();
    let h = Recorder::new(false);
    let mut s = Session::new(Role::Server);
    let o = s.receive(&api, Event::Received(Frame::Text("hello".to_string())), &h);
    assert_eq!(o.handled, Some(Behavior::Normal));
    assert_eq!(o.dispatched, Some(Packet::green("hello")));
    assert_eq!(o.reply, Some(Frame::Text("hello".to_string())));
    assert_eq!(o.dropped, None);
    let bytes = Packet::red("TORPEDO LOCKED ON TARGET").to_bytes();
    let o = s.receive(&api, Event::Received(Frame::Binary(bytes.clone())), &h);
    assert_eq!(o.handled, Some(Behavior::Critical));
    assert_eq!(o.dispatched, Some(Packet::red("TORPEDO LOCKED ON TARGET")));
    assert_eq!(o.reply, Some(Frame::Binary(bytes)));
    assert!(s.is_open());
    assert_eq!(h.calls.borrow()[1], ("red", b"TORPEDO LOCKED ON TARGET".to_vec()));
}

#[test]
fn client_does_not_echo() {
    let api = ProtocolApi::new();
    let h = Recorder::new(false);
    let mut s = Session::new(Role::Client);
    let o = s.receive(&api, Event::Received(Frame::Text("hi".to_string())), &h);
    assert_eq!(o.handled, Some(Behavior::Normal));
    assert_eq!(o.dispatched, Some(Packet::green("hi")));
    assert_eq!(o.reply, None);
    let o = s.receive(&api, Event::Received(Frame::Binary(Packet::yellow("y").to_bytes())), &h);
    assert_eq!(o.handled, Some(Behavior::Normal));
    assert_eq!(o.dispatched, Some(Packet::yellow("y")));
    assert_eq!(o.reply, None);
    assert_eq!(s.role(), Role::Client);
}

#[test]
fn malformed_binary_is_dropped_and_session_stays_open() {
    let api = ProtocolApi::new();
    let h = Recorder::new(false);
    let mut s = Session::new(Role::Server);
    let o = s.receive(&api, Event::Received(Frame::Binary(vec![1, 2, 3])), &h);
    assert_eq!(o.handled, None);
    assert_eq!(o.dispatched, None);
    assert_eq!(o.reply, None);
    assert_eq!(o.dropped, Some(ProtocolError::InsufficientData { expected: 6, actual: 3 }));
    assert_eq!(s.state(), SessionState::Open);
    assert!(h.calls.borrow().is_empty());
}

#[test]
fn ping_gets_pong_and_pong_is_ignored() {
    let api = ProtocolApi::new();
    let h = Recorder::new(false);
    let mut s = Session::new(Role::Client);
    let o = s.receive(&api, Event::Received(Frame::Ping(vec![7, 8])), &h);
    assert_eq!(o.reply, Some(Frame::Pong(vec![7, 8])));
    assert_eq!(o.handled, None);
    let o = s.receive(&api, Event::Received(Frame::Pong(vec![1])), &h);
    assert_eq!(o.reply, None);
    let o = s.receive(&api, Event::Received(Frame::Other), &h);
    assert_eq!(o.reply, None);
    assert!(s.is_open());
}

#[test]
fn close_and_failure_end_the_session() {
    let api = ProtocolApi::new();
    let h = Recorder::new(false);
    let mut s = Session::new(Role::Server);
    s.receive(&api, Event::Received(Frame::Close), &h);
    assert_eq!(s.state(), SessionState::Closing);
    let o = s.receive(&api, Event::Received(Frame::Text("late".to_string())), &h);
    assert_eq!(o.reply, None);
    assert_eq!(o.handled, None);
    s.finish();
    assert_eq!(s.state(), SessionState::Closed);
    let mut t = Session::new(Role::Client);
    t.receive(&api, Event::Failed, &h);
    assert_eq!(t.state(), SessionState::Closing);
    assert!(h.calls.borrow().is_empty());
}

#[test]
fn elevated_binary_reaches_distinct_behaviour() {
    let api = ProtocolApi::new();
    let h = Recorder::new(true);
    let mut s = Session::new(Role::Server);
    let o = s.receive(&api, Event::Received(Frame::Binary(Packet::yellow("slow").to_bytes())), &h);
    assert_eq!(o.handled, Some(Behavior::Elevated));
    assert_eq!(h.calls.borrow()[0], ("yellow", b"slow".to_vec()));
}
