use wolfwig::peripherals::interrupt::Interrupt;
use wolfwig::peripherals::timer::{Timer, DIV, TAC, TIMA, TMA};

fn running(clock: u8) -> Timer {
    let mut timer = Timer::new();
    timer.set_divider();
    timer.set_input_clock(clock);
    timer.set_start(1);
    timer
}

fn increments(timer: &mut Timer, steps: usize) -> Vec<usize> {
    let mut irq = Interrupt::new();
    let mut at = vec![];
    for step in 1..=steps {
        let before = timer.counter();
        timer.step(&mut irq);
        if timer.counter() != before {
            at.push(step);
        }
    }
    at
}

#[test]
fn slowest_clock_counts_every_256_cycles() {
    let mut timer = running(0);
    assert_eq!(increments(&mut timer, 800), vec![256, 512, 768]);
    assert_eq!(timer.counter(), 3);
}

#[test]
fn each_clock_has_its_period() {
    assert_eq!(increments(&mut running(1), 20), vec![4, 8, 12, 16, 20]);
    assert_eq!(increments(&mut running(2), 50), vec![16, 32, 48]);
    assert_eq!(increments(&mut running(3), 200), vec![64, 128, 192]);
}

#[test]
fn a_stopped_timer_does_not_count() {
    let mut timer = Timer::new();
    timer.set_input_clock(1);
    assert_eq!(increments(&mut timer, 100), Vec::<usize>::new());
    assert_eq!(timer.counter(), 0);
    assert_eq!(timer.divider(), 1);
}

#[test]
fn the_divider_shows_its_high_byte() {
    let mut timer = Timer::new();
    let mut irq = Interrupt::new();
    for _ in 0..63 {
        timer.step(&mut irq);
    }
    assert_eq!(timer.divider(), 0);
    timer.step(&mut irq);
    assert_eq!(timer.divider(), 1);
    for _ in 0..(64 * 255) {
        timer.step(&mut irq);
    }
    assert_eq!(timer.divider(), 0);
}

#[test]
fn overflow_reloads_one_cycle_later_and_raises_the_interrupt() {
    let mut timer = running(1);
    let mut irq = Interrupt::new();
    timer.set_counter(0xFF);
    timer.set_modulo(0xAB);
    for _ in 0..3 {
        timer.step(&mut irq);
    }
    assert_eq!(timer.counter(), 0xFF);
    timer.step(&mut irq);
    assert_eq!(timer.counter(), 0x00);
    assert!(!irq.timer_trigger());
    timer.step(&mut irq);
    assert_eq!(timer.counter(), 0xAB);
    assert!(irq.timer_trigger());
    irq.set_timer_trigger(0);
    timer.step(&mut irq);
    assert_eq!(timer.counter(), 0xAB);
    assert!(!irq.timer_trigger());
}

#[test]
fn registers_by_address() {
    let mut timer = Timer::new();
    timer.write(TIMA, 0x12);
    timer.write(TMA, 0x34);
    timer.write(TAC, 0x07);
    assert_eq!(timer.read(TIMA), 0x12);
    assert_eq!(timer.read(TMA), 0x34);
    assert_eq!(timer.read(TAC), 0xFF);
    assert_eq!(timer.start(), 1);
    assert_eq!(timer.input_clock(), 3);
    timer.write(TAC, 0x02);
    assert_eq!(timer.read(TAC), 0xFA);
    assert_eq!(timer.start(), 0);
    assert_eq!(timer.modulo(), 0x34);
    let mut irq = Interrupt::new();
    for _ in 0..100 {
        timer.step(&mut irq);
    }
    assert_eq!(timer.read(DIV), 1);
    timer.write(DIV, 0xFF);
    assert_eq!(timer.read(DIV), 0);
    assert_eq!(timer.divider, 0);
}

#[test]
fn the_counter_moves_on_the_falling_edge() {
    // On the fastest clock the selected bit weighs 8: it rises with the second
    // cycle and falls with the fourth.
    let mut timer = running(1);
    let mut irq = Interrupt::new();
    timer.step(&mut irq);
    timer.step(&mut irq);
    assert!(timer.increment_bit_set());
    assert_eq!(timer.counter(), 0);
    timer.step(&mut irq);
    assert!(timer.increment_bit_set());
    assert_eq!(timer.counter(), 0);
    timer.step(&mut irq);
    assert!(!timer.increment_bit_set());
    assert_eq!(timer.counter(), 1);
}

#[test]
fn clearing_the_divider_while_the_bit_is_set_counts_as_a_fall() {
    let mut timer = running(0);
    let mut irq = Interrupt::new();
    for _ in 0..200 {
        timer.step(&mut irq);
    }
    assert!(timer.increment_bit_set());
    timer.set_divider();
    timer.step(&mut irq);
    assert_eq!(timer.counter(), 1);
}
