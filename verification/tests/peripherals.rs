use std::sync::mpsc;
use wolfwig::peripherals::interrupt::{Interrupt, LCD_STAT_PC, TIMER_PC, VBLANK_PC};
use wolfwig::peripherals::mem::model::Memory;
use wolfwig::peripherals::serial::{Serial, CONTROL, DATA, START};
use wolfwig::peripherals::timer::Timer;
use wolfwig::peripherals::Peripherals;

#[test]
fn model_read_after_write_ram() {
    let mut mem = Memory::new();
    mem.write(0xC042, 41);
    assert_eq!(mem.read(0xC042), 41);
}

#[test]
fn model_read_after_write_shadow_ram() {
    let mut mem = Memory::new();
    mem.write(0xE042, 17);
    assert_eq!(mem.read(0xC042), 17);
}

#[test]
fn model_interrupt_enable() {
    let mut mem = Peripherals::new_fake();
    // Enable the timer and the LCD status lines.
    mem.write(0xFFFF, 0b0_0110);
    // Raise the vertical blank, the timer and the LCD status lines.
    mem.write(0xFF0F, 0b0_0111);
    assert_eq!(mem.get_interrupt().unwrap(), LCD_STAT_PC);

    mem.write(0xFFFF, 0b0_0111);
    assert_eq!(mem.get_interrupt().unwrap(), VBLANK_PC);

    mem.write(0xFF0F, 0b0_0101);
    assert_eq!(mem.get_interrupt().unwrap(), VBLANK_PC);

    mem.write(0xFF0F, 0b0_0100);
    assert_eq!(mem.get_interrupt().unwrap(), TIMER_PC);

    mem.write(0xFF0F, 0b0_0000);
    assert!(mem.get_interrupt().is_none());
}

#[test]
fn interrupt_interrupt_enable() {
    let mut interrupt = Interrupt::new();

    interrupt.set_timer_enable(1);
    interrupt.set_lcd_stat_enable(1);
    interrupt.set_vblank_trigger(1);
    interrupt.set_timer_trigger(1);
    interrupt.set_lcd_stat_trigger(1);
    assert_eq!(interrupt.get_interrupt_pc().unwrap(), LCD_STAT_PC);

    interrupt.set_vblank_enable(1);
    assert_eq!(interrupt.get_interrupt_pc().unwrap(), VBLANK_PC);

    interrupt.set_lcd_stat_trigger(0);
    assert_eq!(interrupt.get_interrupt_pc().unwrap(), VBLANK_PC);

    interrupt.set_vblank_trigger(0);
    assert_eq!(interrupt.get_interrupt_pc().unwrap(), TIMER_PC);

    interrupt.set_timer_trigger(0);
    assert!(interrupt.get_interrupt_pc().is_none());
}

#[test]
fn serial_basic_serial_write() {
    let (tx, rx) = mpsc::channel();
    let mut serial = Serial::new(Some(tx));

    serial.set_data(0x51);
    serial.set_start(true);

    serial.step();

    assert_eq!(serial.data(), 0);
    assert_eq!(serial.start(), false);
    assert_eq!(rx.recv().unwrap(), 0x51);
}

#[test]
fn mod_basic_serial_write() {
    let (tx, rx) = mpsc::channel();
    let mut serial = Serial::new(Some(tx));

    serial.write(DATA, 0x51);
    serial.write(CONTROL, START);

    serial.step();

    assert_eq!(serial.read(DATA), 0);
    assert_eq!(serial.read(CONTROL), 0);
    assert_eq!(rx.recv().unwrap(), 0x51);
}

#[test]
fn check_update_time_clock_00() {
    // After the divider has been cleared, the slowest clock moves the counter on
    // every 256 steps: once in 511 steps.
    let mut timer = Timer::new();
    let mut irq = Interrupt::new();

    timer.set_divider();
    timer.set_modulo(0);
    timer.set_input_clock(0);
    timer.set_start(1);

    for _ in 0..511 {
        timer.step(&mut irq);
    }

    assert_eq!(timer.counter(), 1);
}
