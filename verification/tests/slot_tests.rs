//! Slot number round trips and arithmetic.

use l1::{L1RxCommands, L1TxCommands, SlotNumber};

#[test]
fn test_slot_round_trip_literals() {
    assert_eq!(SlotNumber::new(1, 1, 1).to_int(), 0);
    assert_eq!(SlotNumber::new(4, 18, 60).to_int(), 4319);
    let s = SlotNumber::from_int(-1);
    assert_eq!(s, SlotNumber { timeslot: 4, frame: 18, multiframe: 60 });
}

#[test]
fn test_timing_command_records() {
    // The per-carrier command records carry a slot and its timestamp.
    let rx = L1RxCommands { timing_time: 0, timing_slot: SlotNumber::new(1, 1, 1), set_timing: false };
    let tx = L1TxCommands { timing_time: 55555, timing_slot: SlotNumber::new(2, 1, 1), set_timing: true };
    assert!(!rx.set_timing);
    assert!(tx.set_timing);
    assert_eq!(tx.timing_slot.to_int(), 1);
}

#[test]
fn test_slot_from_int_to_int() {
    for i in [-4320, -4319, -73, -1, 0, 1, 4, 71, 72, 255, 4319, 4320, 8639, 100000, -100000] {
        let s = SlotNumber::from_int(i);
        assert!(1 <= s.timeslot && s.timeslot <= 4);
        assert!(1 <= s.frame && s.frame <= 18);
        assert!(1 <= s.multiframe && s.multiframe <= 60);
        assert_eq!(s.to_int(), i.rem_euclid(4320));
    }
}

#[test]
fn test_slot_to_int_from_int() {
    for ts in 1..=4u8 {
        for fr in 1..=18u8 {
            for mf in 1..=60u8 {
                let s = SlotNumber::new(ts, fr, mf);
                assert_eq!(SlotNumber::from_int(s.to_int()), s);
            }
        }
    }
}

#[test]
fn test_slot_plus_minus() {
    let deltas = [0, 1, -1, 4, 72, 4319, 4320, 10001, -10001, i32::MAX, i32::MIN];
    for ts in 1..=4u8 {
        for &d in deltas.iter() {
            let s = SlotNumber::new(ts, 9, 30);
            assert_eq!(s.plus(d).minus(d), s);
        }
    }
    // A step forward advances the timeslot first.
    let s = SlotNumber::new(1, 1, 1);
    assert_eq!(s.plus(1), SlotNumber::new(2, 1, 1));
    assert_eq!(s.plus(4), SlotNumber::new(1, 2, 1));
    assert_eq!(s.plus(72), SlotNumber::new(1, 1, 2));
    assert_eq!(s.minus(1), SlotNumber::new(4, 18, 60));
}
