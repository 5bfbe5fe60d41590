use wolfwig::debug::{parse_int32, parse_number, to_int32, Report};
use wolfwig::peripherals::joypad::fake_events::FakeEvents;
use wolfwig::peripherals::ppu::fake_display::FakeDisplay;
use wolfwig::Wolfwig;

fn debugger(program: &[u8]) -> wolfwig::debug::Debug {
    let mut bootrom = vec![0u8; 0x100];
    bootrom[..program.len()].copy_from_slice(program);
    wolfwig::debug::Debug::new(
        Wolfwig::from_roms(
            bootrom,
            vec![0; 0x1000],
            Box::new(FakeDisplay::new()),
            Box::new(FakeEvents::new()),
        )
        .unwrap(),
    )
}

fn quiet(pc: u16) -> Report {
    Report { pc, trace: false, show: false, prompt: false }
}

#[test]
fn numbers_are_decimal_or_hexadecimal() {
    assert_eq!(to_int32("0"), Some(0));
    assert_eq!(to_int32("42"), Some(42));
    assert_eq!(to_int32("+42"), Some(42));
    assert_eq!(to_int32("007"), Some(7));
    assert_eq!(to_int32("4294967295"), Some(u32::MAX));
    assert_eq!(to_int32("0x0"), Some(0));
    assert_eq!(to_int32("0x1f"), Some(0x1F));
    assert_eq!(to_int32("0xC000"), Some(0xC000));
    assert_eq!(to_int32("0xFFFFFFFF"), Some(u32::MAX));
    assert_eq!(to_int32("0x+1F"), Some(0x1F));
}

#[test]
fn what_is_no_number_is_refused() {
    for text in [
        "", "+", "-1", "4294967296", "99999999999999999999", "12a", "1 2", " 1", "0x", "0x+",
        "0xG", "0x100000000", "x10", "0X10", "1f", "é", "0xé", "z",
    ] {
        assert_eq!(to_int32(text), None, "{:?}", text);
    }
}

#[test]
fn numbers_are_read_from_bytes() {
    assert_eq!(parse_number(b"255", 10), Some(255));
    assert_eq!(parse_number(b"ff", 16), Some(255));
    assert_eq!(parse_number(b"FF", 16), Some(255));
    assert_eq!(parse_number(b"ff", 10), None);
    assert_eq!(parse_number(b"0x10", 16), None);
    assert_eq!(parse_int32(b"0x10"), Some(16));
    assert_eq!(parse_int32(b"10"), Some(10));
    assert_eq!(parse_int32(&[0xFF, 0x31]), None);
}

#[test]
fn a_new_debugger_asks_as_soon_as_the_program_moves() {
    // LD A,1; LD B,2; STOP
    let mut debug = debugger(&[0x3E, 0x01, 0x06, 0x02, 0x10]);
    assert_eq!(debug.step(), (quiet(0), false));
    assert_eq!(debug.step(), (quiet(0), false));
    assert_eq!(
        debug.step(),
        (Report { pc: 2, trace: false, show: true, prompt: true }, false)
    );
    assert_eq!(debug.cycle, 3);
    assert_eq!(debug.pc, 2);
    assert_eq!(debug.last_pc, 2);
    assert_eq!(debug.step(), (quiet(2), false));
}

#[test]
fn instructions_can_be_stepped_over() {
    let mut debug = debugger(&[0x00, 0x00, 0x00, 0x00, 0x00, 0x10]);
    debug.next(Some(2));
    debug.next(None);
    assert_eq!(debug.steps, 2);
    let show = |pc| Report { pc, trace: false, show: true, prompt: false };
    assert_eq!(debug.step().0, quiet(0));
    assert_eq!(debug.step().0, show(1));
    assert_eq!(debug.step().0, show(2));
    assert_eq!(debug.step().0, Report { pc: 3, trace: false, show: true, prompt: true });
}

#[test]
fn a_run_stops_at_a_breakpoint() {
    let mut debug = debugger(&[0x00, 0x00, 0x00, 0x00, 0x00, 0x10]);
    debug.add_breakpoint(3);
    debug.add_breakpoint(3);
    debug.add_breakpoint(9);
    assert_eq!(debug.breakpoints, vec![3, 9]);
    assert!(debug.has_breakpoint(3));
    assert!(!debug.has_breakpoint(4));
    debug.run(None);
    assert_eq!(debug.run, 1);
    assert_eq!(debug.step().0, quiet(0));
    assert_eq!(debug.step().0, quiet(1));
    assert_eq!(debug.step().0, quiet(2));
    assert_eq!(debug.step().0, Report { pc: 3, trace: false, show: true, prompt: true });
    assert_eq!(debug.run, 0);
}

#[test]
fn a_verbose_run_lists_its_instructions() {
    let mut debug = debugger(&[0x00, 0x00, 0x00, 0x00, 0x00, 0x10]);
    debug.add_breakpoint(2);
    debug.add_breakpoint(3);
    debug.toggle_verbose();
    debug.run(Some(2));
    assert_eq!(debug.step().0, quiet(0));
    assert_eq!(debug.step().0, Report { pc: 1, trace: true, show: false, prompt: false });
    assert_eq!(debug.step().0, quiet(2));
    assert_eq!(debug.run, 1);
    assert_eq!(debug.step().0, Report { pc: 3, trace: false, show: true, prompt: true });
    debug.toggle_verbose();
    assert!(!debug.verbose);
}

#[test]
fn breakpoints_can_be_deleted() {
    let mut debug = debugger(&[0x00]);
    for pc in [5, 1, 5, 3, 1] {
        debug.add_breakpoint(pc);
    }
    assert_eq!(debug.breakpoints, vec![5, 1, 3]);
    debug.delete_breakpoint(1);
    assert_eq!(debug.breakpoints, vec![5, 3]);
    debug.delete_breakpoint(7);
    assert_eq!(debug.breakpoints, vec![5, 3]);
    debug.delete_breakpoint(5);
    debug.delete_breakpoint(3);
    assert!(debug.breakpoints.is_empty());
}

#[test]
fn the_debugger_can_wait_for_a_frame() {
    let mut debug = debugger(&[0x00]);
    debug.wolfwig.peripherals.ppu.frame = 7;
    debug.next_frame();
    assert_eq!(debug.frame, 8);
    assert!(debug.wait_for_frame);
    // While the frame is to come, the program is shown without a prompt.
    assert_eq!(debug.observe(1, 7), Report { pc: 1, trace: false, show: true, prompt: false });
    assert!(debug.wait_for_frame);
    assert_eq!(debug.observe(1, 8), quiet(1));
    assert_eq!(debug.observe(2, 8), Report { pc: 2, trace: false, show: true, prompt: false });
    assert!(!debug.wait_for_frame);
    assert_eq!(debug.observe(3, 8), Report { pc: 3, trace: false, show: true, prompt: true });
    debug.wolfwig.peripherals.ppu.frame = u32::MAX;
    debug.next_frame();
    assert_eq!(debug.frame, 0);
}
