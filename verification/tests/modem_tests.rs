//! DQPSK mapper and modulator timing tests.

use l1::modem::{ns_to_symbols, symbols_to_ns, HYPERFRAME_NS, SYMBOLS_PER_HYPERFRAME,
    MODEM_SAMPLE_NS};
use l1::{DqpskMapper, Modulator, TxBurst};

/// Constellation point for a phase in multiples of pi/4.
fn constellation(phase: u8) -> (f32, f32) {
    let a = std::f32::consts::PI / 4.0 * phase as f32;
    (a.cos(), a.sin())
}

#[test]
fn test_dqpsk_sequence() {
    // Starting from phase 0, the dibits (F,F),(T,F),(T,T),(F,T) pass
    // through phases 1, 0, 5, 0: the net advance (1-1-3+3) mod 8 is 0.
    let mut mapper = DqpskMapper::new();
    let dibits = [(false, false), (true, false), (true, true), (false, true)];
    let expected_phases = [1u8, 0, 5, 0];
    for (i, &(b0, b1)) in dibits.iter().enumerate() {
        let phase = mapper.symbol(b0, b1);
        assert_eq!(phase, expected_phases[i]);
        let (re, im) = constellation(phase);
        let (ere, eim) = constellation(expected_phases[i]);
        assert!((re - ere).abs() < 1e-6);
        assert!((im - eim).abs() < 1e-6);
    }
    assert_eq!(mapper.phase, 0);
}

#[test]
fn test_dqpsk_reset() {
    let mut mapper = DqpskMapper::new();
    mapper.symbol(false, true);
    assert_eq!(mapper.phase, 3);
    mapper.reset_phase();
    assert_eq!(mapper.phase, 0);
}

#[test]
fn test_hyperframe_wrap() {
    assert!(ns_to_symbols(HYPERFRAME_NS - 1) < SYMBOLS_PER_HYPERFRAME);
    assert!(ns_to_symbols(HYPERFRAME_NS) >= SYMBOLS_PER_HYPERFRAME);
    assert_eq!(ns_to_symbols(HYPERFRAME_NS - 1), SYMBOLS_PER_HYPERFRAME - 1);
    assert_eq!(ns_to_symbols(HYPERFRAME_NS), SYMBOLS_PER_HYPERFRAME);
}

#[test]
fn test_symbol_time_conversions() {
    assert_eq!(ns_to_symbols(0), 0);
    assert_eq!(ns_to_symbols(MODEM_SAMPLE_NS), 0);
    assert_eq!(ns_to_symbols(4 * MODEM_SAMPLE_NS), 1);
    assert_eq!(symbols_to_ns(1), 55555);
    assert_eq!(symbols_to_ns(9), 500000);
    assert_eq!(symbols_to_ns(-9), -500000);
}

#[test]
fn test_modulator_empty_burst_is_silent() {
    // With anchor 0 and no burst supplied by the upper layer, every
    // modem sample is silence.
    let mut m = Modulator::new();
    for k in 0..2000i64 {
        let t = k * MODEM_SAMPLE_NS;
        let supply = match m.needs_burst(t) {
            Some(_) => Some(TxBurst::Empty),
            None => None,
        };
        let out = m.sample(t, supply);
        assert!(out.is_none());
    }
}

#[test]
fn test_modulator_dl_burst_times_symbols() {
    // With an all-zero down-link burst, the modulator emits one
    // unit-magnitude constellation point per symbol period and nothing
    // between the boundaries.  Each all-zero dibit advances the phase
    // by one.
    let mut m = Modulator::new();
    let mut prev_hsym: i64 = 255;
    let mut expected_phase: u8 = 0;
    let mut symbols: usize = 0;
    for k in 0..2000i64 {
        let t = k * MODEM_SAMPLE_NS;
        let hsym = (t.rem_euclid(HYPERFRAME_NS)) * 9 / 500000;
        let supply = match m.needs_burst(t) {
            Some((slot, slot_time)) => {
                // A new slot begins exactly when the symbol index
                // crosses a multiple of 255, and its start time is the
                // time of its first symbol.
                assert_eq!(i64::from(slot.to_int()), hsym / 255);
                assert_eq!(slot_time, (hsym / 255) * 255 * 500000 / 9);
                Some(TxBurst::Dl([0u8; 510]))
            },
            None => None,
        };
        let out = m.sample(t, supply);
        if hsym != prev_hsym {
            expected_phase = (expected_phase + 1) % 8;
            let phase = out.expect("a new symbol must be emitted");
            assert_eq!(phase, expected_phase);
            let (re, im) = constellation(phase);
            let norm = (re * re + im * im).sqrt();
            assert!((norm - 1.0).abs() < 1e-6);
            symbols += 1;
        } else {
            assert!(out.is_none());
        }
        prev_hsym = hsym;
    }
    // 2000 samples at 4 samples per symbol cross about 500 boundaries.
    assert!(symbols >= 499);
}
