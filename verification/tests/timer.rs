use gameboy::timer::Timer;

#[test]
fn test_divider() {
    let mut t: Timer = Default::default();
    t.write_div(0x42);
    assert_eq!(t.div, 0); // writing any value to div sets it to 0

    t.write_tima(0);
    t.write_tma(0x42);
    t.write_tac(0b001); // timer disabled

    assert_eq!(t.enabled, false);
    assert_eq!(t.step, 16);

    for _ in 0..10 {
        t.cycle(16);
    }
    assert_eq!(t.div, 0);
    assert_eq!(t.tima, 0);

    for _ in 0..10 {
        t.cycle(16);
    }

    assert_eq!(t.div, 1);
    assert_eq!(t.tima, 0);
}

#[test]
fn test_timer() {
    let mut t: Timer = Default::default();
    t.write_div(0x42);
    assert_eq!(t.div, 0); // writing any value to div sets it to 0

    t.write_tima(0);
    t.write_tma(0x42);
    t.write_tac(0b101); // timer enabled at max frequency

    assert_eq!(t.enabled, true);
    assert_eq!(t.step, 16);

    for _ in 0..10 {
        t.cycle(16);
    }
    assert_eq!(t.div, 0);
    assert_eq!(t.tima, 10);

    for _ in 0..246 {
        t.cycle(16);
    }
    // check tima is set to tma when it overflows
    assert_eq!(t.tima, 0x42);
    assert_eq!(t.div, 16);
}

#[test]
fn timer_overflow_reloads_and_raises_the_line() {
    let mut t: Timer = Default::default();
    t.write_tac(0b101);
    t.write_tma(0x42);
    for call in 1..=256 {
        t.cycle(16);
        if call < 255 {
            assert_eq!(t.read_tima(), call as u8);
            assert_eq!(t.interrupt(), 0);
        }
        if call == 255 {
            assert_eq!(t.read_tima(), 0xFF);
            assert_eq!(t.interrupt(), 0);
        }
    }
    assert_eq!(t.read_tima(), 0x42);
    assert_eq!(t.interrupt(), 0x04);
}

#[test]
fn timer_counts_only_while_enabled() {
    let mut t: Timer = Default::default();
    t.write_tac(0b001);
    for n in [1u32, 16, 160, 4096, 1_000_000] {
        t.cycle(n);
        assert_eq!(t.read_tima(), 0);
        assert_eq!(t.interrupt(), 0);
    }
}

#[test]
fn timer_counts_whole_steps() {
    let mut t: Timer = Default::default();
    t.write_tac(0b101);
    t.cycle(16 * 37);
    assert_eq!(t.read_tima(), 37);
    t.cycle(15);
    assert_eq!(t.read_tima(), 37);
    t.cycle(1);
    assert_eq!(t.read_tima(), 38);
    t.cycle(16 * 200 + 5);
    assert_eq!(t.read_tima(), 238);
    assert_eq!(t.internal_count, 5);
    assert_eq!(t.interrupt(), 0);
}

#[test]
fn timer_steps_follow_tac() {
    for (tac, step) in [(0b100u8, 1024u32), (0b101, 16), (0b110, 64), (0b111, 256)] {
        let mut t: Timer = Default::default();
        t.write_tac(tac);
        assert_eq!(t.step, step);
        t.cycle(step - 1);
        assert_eq!(t.read_tima(), 0);
        t.cycle(1);
        assert_eq!(t.read_tima(), 1);
        t.cycle(step * 3);
        assert_eq!(t.read_tima(), 4);
    }
}

#[test]
fn tac_reads_back_with_its_upper_bits_set() {
    let mut t: Timer = Default::default();
    assert_eq!(t.read_tac(), 0xFB);
    for v in 0..=255u8 {
        t.write_tac(v);
        assert_eq!(t.read_tac(), v | 0xF8);
    }
}

#[test]
fn timer_starts_as_documented() {
    let t: Timer = Default::default();
    assert_eq!(t.read_div(), 0x18);
    assert_eq!(t.read_tima(), 0);
    assert_eq!(t.read_tma(), 0);
    assert_eq!(t.step, 256);
    assert!(!t.enabled);
    assert_eq!(t.interrupt(), 0);
}

#[test]
fn div_counts_every_256_ticks_and_wraps() {
    let mut t: Timer = Default::default();
    t.cycle(255);
    assert_eq!(t.read_div(), 0x18);
    t.cycle(1);
    assert_eq!(t.read_div(), 0x19);
    t.cycle(256 * 0xE7);
    assert_eq!(t.read_div(), 0x00);
    t.cycle(256 * 256 + 100);
    assert_eq!(t.read_div(), 0x00);
    assert_eq!(t.internal_div, 100);
}

#[test]
fn write_div_clears_the_gathered_ticks() {
    let mut t: Timer = Default::default();
    t.cycle(200);
    t.write_div(0xFF);
    assert_eq!(t.read_div(), 0);
    t.cycle(100);
    assert_eq!(t.read_div(), 0);
    t.cycle(156);
    assert_eq!(t.read_div(), 1);
}

#[test]
fn timer_line_stays_until_taken() {
    let mut t: Timer = Default::default();
    t.write_tac(0b101);
    t.write_tima(0xFF);
    t.cycle(16);
    assert_eq!(t.interrupt(), 0x04);
    t.cycle(16);
    assert_eq!(t.interrupt(), 0x04);
    t.ack();
    assert_eq!(t.interrupt(), 0);
    assert_eq!(t.read_tima(), 1);
}

#[test]
fn timer_reloads_more_than_once_in_one_call() {
    let mut t: Timer = Default::default();
    t.write_tac(0b101);
    t.write_tma(0xFE);
    t.write_tima(0xFE);
    // 0xFE -> 0xFF -> reload 0xFE -> 0xFF -> reload 0xFE
    t.cycle(16 * 4);
    assert_eq!(t.read_tima(), 0xFE);
    assert_eq!(t.interrupt(), 0x04);
}
