use dspkit::{DelayLine, PCM, U24};

fn s(v: u32) -> U24 {
    U24::new(v)
}

#[test]
fn new_starts_at_slot_zero() {
    let line = DelayLine::new([s(7), s(8)], 1);
    assert_eq!(line.peek(), s(7));
    assert_eq!(line.position(), 0);
    assert_eq!(line.length(), 1);
    assert_eq!(line.capacity(), 2);
}

#[test]
fn write_then_advance_wraps_on_length_one() {
    let mut line = DelayLine::new([s(1), s(2)], 1);
    line.write(s(5));
    line.advance();
    assert_eq!(line.peek(), s(5));
    assert_eq!(line.position(), 0);
}

#[test]
fn const_default_is_silent_at_full_capacity() {
    let mut line: DelayLine<U24, 16> = DelayLine::const_default();
    assert_eq!(line.length(), 16);
    for _ in 0..16 {
        assert_eq!(line.next_sample(), U24::pcm_equilibrium());
    }
    let other: DelayLine<U24, 16> = DelayLine::default();
    assert_eq!(other.length(), 16);
    assert_eq!(other.peek(), U24::pcm_equilibrium());
}

#[test]
fn reset_silences_and_rewinds() {
    let mut line = DelayLine::new([s(3); 8], 8);
    line.advance();
    line.advance();
    line.reset();
    assert_eq!(line.position(), 0);
    assert_eq!(line.length(), 8);
    for _ in 0..8 {
        assert_eq!(line.peek(), U24::pcm_equilibrium());
        line.advance();
    }
}

#[test]
fn zero_clears_only_up_to_active_length() {
    let mut line = DelayLine::new([s(9); 6], 4);
    line.zero(1, 100);
    let mut seen = Vec::new();
    line.set_length(6);
    for _ in 0..6 {
        seen.push(line.peek().inner());
        line.advance();
    }
    assert_eq!(seen, vec![9, 0, 0, 0, 9, 9]);
}

#[test]
fn zero_with_empty_range_changes_nothing() {
    let mut line = DelayLine::new([s(9); 4], 4);
    line.zero(3, 1);
    for _ in 0..4 {
        assert_eq!(line.peek(), s(9));
        line.advance();
    }
}

#[test]
fn write_and_advance_delays_by_active_length() {
    let mut line: DelayLine<U24, 32> = DelayLine::const_default();
    line.set_length(5);
    let mut out = Vec::new();
    for t in 0..12u32 {
        out.push(line.peek().inner());
        line.write_and_advance(s(t + 1));
    }
    assert_eq!(out, vec![0, 0, 0, 0, 0, 1, 2, 3, 4, 5, 6, 7]);
}

#[test]
fn impulse_repeats_every_active_length() {
    let k = 4;
    let mut line: DelayLine<U24, 16> = DelayLine::const_default();
    line.set_length(k);
    line.write(s(1));
    for t in 1..40usize {
        let v = line.next_sample();
        if t % k == 0 {
            assert_eq!(v, s(1), "t = {t}");
        } else {
            assert_eq!(v, U24::pcm_equilibrium(), "t = {t}");
        }
    }
}

#[test]
fn set_length_clamps_to_capacity() {
    let mut line: DelayLine<U24, 8> = DelayLine::const_default();
    line.set_length(1000);
    assert_eq!(line.length(), 8);
    assert_eq!(line.capacity(), 8);
}

#[test]
fn set_length_rewinds_cursor_outside_new_length() {
    let mut line: DelayLine<U24, 8> = DelayLine::const_default();
    for _ in 0..5 {
        line.advance();
    }
    assert_eq!(line.position(), 5);
    line.set_length(3);
    assert_eq!(line.position(), 0);
    line.advance();
    line.advance();
    line.set_length(6);
    assert_eq!(line.position(), 2);
    line.set_length(2);
    assert_eq!(line.position(), 0);
}

#[test]
fn set_length_keeps_contents() {
    let mut line = DelayLine::new([s(1), s(2), s(3), s(4)], 4);
    line.set_length(1);
    line.set_length(4);
    let mut seen = Vec::new();
    for _ in 0..4 {
        seen.push(line.peek().inner());
        line.advance();
    }
    assert_eq!(seen, vec![1, 2, 3, 4]);
}

#[test]
fn zero_length_line_stays_at_slot_zero() {
    let mut line = DelayLine::new([s(1), s(2)], 2);
    line.set_length(0);
    line.write_and_advance(s(6));
    assert_eq!(line.position(), 0);
    assert_eq!(line.peek(), s(6));
}

#[test]
fn fed_impulse_comes_out_once_after_active_length() {
    let k = 3;
    let mut line: DelayLine<U24, 8> = DelayLine::const_default();
    line.set_length(k);
    for t in 0..20usize {
        let out = line.peek();
        if t == k {
            assert_eq!(out, s(1), "t = {t}");
        } else {
            assert_eq!(out, U24::pcm_equilibrium(), "t = {t}");
        }
        let input = if t == 0 { s(1) } else { U24::pcm_equilibrium() };
        line.write_and_advance(input);
    }
}
