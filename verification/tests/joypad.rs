use std::cell::RefCell;
use std::rc::Rc;
use wolfwig::peripherals::interrupt::Interrupt;
use wolfwig::peripherals::joypad::events::{EventHandler, State};
use wolfwig::peripherals::joypad::fake_events::FakeEvents;
use wolfwig::peripherals::joypad::{Joypad, UPDATE_INTERVAL};
use wolfwig::peripherals::ppu::fake_display::FakeDisplay;
use wolfwig::peripherals::Peripherals;

struct Keys {
    state: Rc<RefCell<State>>,
    polls: Rc<RefCell<usize>>,
}

impl EventHandler for Keys {
    fn get_state(&mut self) -> State {
        *self.polls.borrow_mut() += 1;
        *self.state.borrow()
    }

    fn clear_keydown(&mut self) {
        self.state.borrow_mut().keydown = false;
    }
}

fn pressed(change: impl Fn(&mut State)) -> State {
    let mut state = State::new();
    change(&mut state);
    state
}

#[test]
fn no_key_is_pressed_at_first() {
    let joypad = Joypad::new();
    assert!(joypad.select_button());
    assert!(joypad.select_direction());
    assert_eq!(joypad.state(), 0x0F);
    assert_eq!(joypad.read(), 0xFF);
    assert!(!joypad.shutdown());
    let mut events = FakeEvents::new();
    assert_eq!(events.get_state(), State::new());
    events.clear_keydown();
}

#[test]
fn keys_show_on_their_selected_line_only() {
    let mut irq = Interrupt::new();
    let mut joypad = Joypad::new();
    joypad.update(pressed(|s| { s.a = true; s.up = true; }), &mut irq);
    // Neither line is selected.
    assert_eq!(joypad.read(), 0xFF);
    // The buttons: A is bit 0.
    joypad.write(0x10);
    assert_eq!(joypad.read(), 0xDE);
    // The directions: up is bit 2.
    joypad.write(0x20);
    assert_eq!(joypad.read(), 0xEB);
    // Both.
    joypad.write(0x00);
    assert_eq!(joypad.read(), 0xCA);
    assert!(!irq.joypad_trigger());
}

#[test]
fn every_key_has_its_bit() {
    let mut irq = Interrupt::new();
    let cases: [(fn(&mut State), u8, u8); 8] = [
        (|s| s.right = true, 0x20, 0x0E),
        (|s| s.left = true, 0x20, 0x0D),
        (|s| s.up = true, 0x20, 0x0B),
        (|s| s.down = true, 0x20, 0x07),
        (|s| s.a = true, 0x10, 0x0E),
        (|s| s.b = true, 0x10, 0x0D),
        (|s| s.select = true, 0x10, 0x0B),
        (|s| s.start = true, 0x10, 0x07),
    ];
    for (press, select, low) in cases {
        let mut joypad = Joypad::new();
        joypad.write(select);
        joypad.update(pressed(press), &mut irq);
        assert_eq!(joypad.read(), 0xC0 | select | low);
        assert_eq!(joypad.state(), 0xF0 | low);
    }
}

#[test]
fn a_key_that_went_down_raises_the_interrupt() {
    let mut irq = Interrupt::new();
    let mut joypad = Joypad::new();
    joypad.update(pressed(|s| s.start = true), &mut irq);
    assert!(!irq.joypad_trigger());
    joypad.update(pressed(|s| { s.start = true; s.keydown = true; }), &mut irq);
    assert!(irq.joypad_trigger());
    assert!(!joypad.keys.keydown);
}

#[test]
fn a_request_to_leave_is_remembered() {
    let mut irq = Interrupt::new();
    let mut joypad = Joypad::new();
    joypad.update(pressed(|s| s.shutdown = true), &mut irq);
    assert!(joypad.shutdown());
    joypad.update(State::new(), &mut irq);
    assert!(joypad.shutdown());
}

#[test]
fn the_event_source_is_asked_every_hundredth_cycle() {
    let state = Rc::new(RefCell::new(pressed(|s| { s.b = true; s.keydown = true; })));
    let polls = Rc::new(RefCell::new(0));
    let mut events: Box<dyn EventHandler> = Box::new(Keys { state: state.clone(), polls: polls.clone() });
    let mut irq = Interrupt::new();
    let mut joypad = Joypad::new();
    joypad.write(0x10);
    for _ in 0..(UPDATE_INTERVAL - 1) {
        joypad.step(&mut irq, &mut events);
    }
    assert_eq!(*polls.borrow(), 0);
    assert_eq!(joypad.read(), 0xDF);
    joypad.step(&mut irq, &mut events);
    assert_eq!(*polls.borrow(), 1);
    assert_eq!(joypad.read(), 0xDD);
    assert!(irq.joypad_trigger());
    assert!(!state.borrow().keydown);
    irq.set_joypad_trigger(0);
    state.borrow_mut().b = false;
    for _ in 0..UPDATE_INTERVAL {
        joypad.step(&mut irq, &mut events);
    }
    assert_eq!(*polls.borrow(), 2);
    assert_eq!(joypad.read(), 0xDF);
    assert!(!irq.joypad_trigger());
}

#[test]
fn the_bus_shows_the_joypad() {
    let state = Rc::new(RefCell::new(pressed(|s| { s.down = true; s.keydown = true; })));
    let polls = Rc::new(RefCell::new(0));
    let mut mem = Peripherals::new(
        vec![0; 0x100],
        vec![0; 0x1000],
        Box::new(FakeDisplay::new()),
        Box::new(Keys { state: state.clone(), polls }),
    );
    mem.write(0xFFFF, 0x10);
    mem.write(0xFF00, 0x20);
    assert_eq!(mem.read(0xFF00), 0xEF);
    for _ in 0..100 {
        mem.step();
    }
    assert_eq!(mem.read(0xFF00), 0xE7);
    assert_eq!(mem.get_interrupt(), None);
    mem.step();
    assert_eq!(mem.get_interrupt(), Some(0x60));
    mem.write(0xFF00, 0x10);
    assert_eq!(mem.read(0xFF00), 0xDF);
    state.borrow_mut().shutdown = true;
    assert!(!mem.shutdown());
    for _ in 0..99 {
        mem.step();
    }
    assert!(mem.shutdown());
}
