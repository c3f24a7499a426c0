use nuid::base62::MAX_SEQ;
use nuid::state::{MAX_INC, MIN_INC, PRE_LEN};
use nuid::{Draws, NUID, TOTAL_LEN};

const SAMPLES: [u8; 12] = *b"HIJKLMNOPQRS";
const OTHER_SAMPLES: [u8; 12] = *b"0123456789AB";

fn digit_value(c: u8) -> u64 {
    match c {
        b'0'..=b'9' => (c - b'0') as u64,
        b'A'..=b'Z' => (c - b'A') as u64 + 10,
        b'a'..=b'z' => (c - b'a') as u64 + 36,
        _ => panic!("not a symbol of the alphabet: {}", c),
    }
}

fn trailing_value(id: &str) -> u64 {
    let mut value: u64 = 0;
    for c in id.as_bytes()[PRE_LEN..].iter() {
        value = value * 62 + digit_value(*c);
    }
    value
}

fn seeded(sequence: u64, increment: u64) -> (NUID, Draws) {
    let draws = Draws { samples: SAMPLES, sequence, increment };
    assert!(draws.is_usable());
    (NUID::from_samples(&SAMPLES), draws)
}

#[test]
fn total_len_is_twenty_two() {
    assert_eq!(TOTAL_LEN, 22usize);
    assert_eq!(PRE_LEN, 12usize);
    assert_eq!(MIN_INC, 33u64);
    assert_eq!(MAX_INC, 333u64);
}

#[test]
fn seeded_generator_counts_from_five_by_two() {
    let (mut generator, draws) = seeded(5, 2);
    assert_eq!(generator.next_with(&draws), "ABCDEFGHIJKL0000000005");
    let first = generator.next_with(&draws);
    let second = generator.next_with(&draws);
    let third = generator.next_with(&draws);
    assert_eq!(trailing_value(&first), 7u64);
    assert_eq!(trailing_value(&second), 9u64);
    assert_eq!(trailing_value(&third), 11u64);
    assert_eq!(first, "ABCDEFGHIJKL0000000007");
    assert_eq!(second, "ABCDEFGHIJKL0000000009");
    assert_eq!(third, "ABCDEFGHIJKL000000000B");
}

#[test]
fn first_identifier_comes_from_the_draws() {
    let mut generator = NUID::from_samples(&OTHER_SAMPLES);
    let draws = Draws { samples: SAMPLES, sequence: 62, increment: 33 };
    // The prefix given at creation is never spelled: the first step refreshes.
    assert_eq!(generator.next_with(&draws), "ABCDEFGHIJKL0000000010");
}

#[test]
fn prefix_takes_each_sample_modulo_sixty_two() {
    // 0 and 62 and 124 pick '0'; 61 and 123 pick 'z'; 255 = 4 * 62 + 7 picks '7'.
    let samples: [u8; 12] = [0, 62, 124, 61, 123, 255, 10, 72, 36, 98, 9, 35];
    let draws = Draws { samples, sequence: 0, increment: 33 };
    let mut generator = NUID::from_samples(&samples);
    assert_eq!(generator.next_with(&draws), "000zz7AAaa9Z0000000000");
}

#[test]
fn identifiers_have_fixed_width() {
    let (mut generator, draws) = seeded(MAX_SEQ - 1_000, 332);
    let mut calls: u32 = 0;
    while calls < 50 {
        assert_eq!(generator.next_with(&draws).len(), TOTAL_LEN);
        calls += 1;
    }
    let mut own = NUID::new();
    calls = 0;
    while calls < 1_000 {
        assert_eq!(own.next().len(), 22usize);
        calls += 1;
    }
}

#[test]
fn identifiers_stay_in_the_alphabet() {
    let mut own = NUID::new();
    let mut calls: u32 = 0;
    while calls < 1_000 {
        let id = own.next();
        assert!(id.bytes().all(|b| b.is_ascii_alphanumeric()), "{}", id);
        calls += 1;
    }
    let samples: [u8; 12] = [255, 254, 200, 128, 127, 1, 0, 63, 64, 191, 33, 47];
    let draws = Draws { samples, sequence: MAX_SEQ - 1, increment: 1 };
    let mut generator = NUID::from_samples(&samples);
    calls = 0;
    while calls < 10 {
        let id = generator.next_with(&draws);
        assert!(id.bytes().all(|b| b.is_ascii_alphanumeric()), "{}", id);
        calls += 1;
    }
}

#[test]
fn prefix_is_stable_within_an_epoch() {
    let (mut generator, draws) = seeded(5, 2);
    let changed = Draws { samples: OTHER_SAMPLES, sequence: 1_000_000, increment: 100 };
    let first = generator.next_with(&draws);
    let mut calls: u32 = 0;
    while calls < 500 {
        // Within the epoch the draws are not looked at.
        let id = generator.next_with(&changed);
        assert_eq!(&id[..12], &first[..12]);
        calls += 1;
    }
}

#[test]
fn suffix_grows_by_the_increment_within_an_epoch() {
    let (mut generator, draws) = seeded(1_000, 332);
    let mut last = trailing_value(&generator.next_with(&draws));
    assert_eq!(last, 1_000u64);
    let mut calls: u32 = 0;
    while calls < 500 {
        let now = trailing_value(&generator.next_with(&draws));
        assert_eq!(now, last + 332);
        last = now;
        calls += 1;
    }
    assert_eq!(last, 1_000u64 + 500 * 332);
}

#[test]
fn own_sources_keep_one_increment_per_epoch() {
    let mut generator = NUID::new();
    let first = generator.next();
    let second = generator.next();
    let increment = trailing_value(&second) - trailing_value(&first);
    assert!(MIN_INC <= increment && increment < MAX_INC, "{}", increment);
    let mut last = trailing_value(&second);
    let mut calls: u32 = 0;
    while calls < 200 {
        let id = generator.next();
        assert_eq!(&id[..12], &first[..12]);
        let now = trailing_value(&id);
        assert_eq!(now, last + increment);
        last = now;
        calls += 1;
    }
}

#[test]
fn exhausted_sequence_refreshes_from_the_draws() {
    let (mut generator, draws) = seeded(MAX_SEQ - 3, 2);
    assert_eq!(generator.next_with(&draws), "ABCDEFGHIJKLzzzzzzzzzx");
    assert_eq!(generator.next_with(&draws), "ABCDEFGHIJKLzzzzzzzzzz");
    let fresh = Draws { samples: OTHER_SAMPLES, sequence: 40, increment: 33 };
    // MAX_SEQ - 1 + 2 leaves the sequence space.
    assert_eq!(generator.next_with(&fresh), "mnopqrstuv34000000000e");
    assert_eq!(generator.next_with(&draws), "mnopqrstuv34000000001B");
}

#[test]
fn landing_on_the_limit_refreshes() {
    let (mut generator, draws) = seeded(MAX_SEQ - 2, 2);
    assert_eq!(generator.next_with(&draws), "ABCDEFGHIJKLzzzzzzzzzy");
    let fresh = Draws { samples: OTHER_SAMPLES, sequence: 0, increment: 40 };
    assert_eq!(generator.next_with(&fresh), "mnopqrstuv340000000000");
    assert_eq!(generator.next_with(&draws), "mnopqrstuv34000000000e");
}

#[test]
fn last_step_below_the_limit_does_not_refresh() {
    let (mut generator, draws) = seeded(MAX_SEQ - 3, 2);
    let fresh = Draws { samples: OTHER_SAMPLES, sequence: 0, increment: 40 };
    assert_eq!(generator.next_with(&draws), "ABCDEFGHIJKLzzzzzzzzzx");
    assert_eq!(generator.next_with(&fresh), "ABCDEFGHIJKLzzzzzzzzzz");
}

#[test]
fn refresh_by_own_sources_changes_the_prefix() {
    // Two independent prefixes of twelve characters coincide once in about
    // 10^20 draws; three tries leave nothing to chance in practice.
    let mut changed = false;
    let mut tries: u32 = 0;
    while tries < 3 && !changed {
        let (mut generator, draws) = seeded(MAX_SEQ - 1, 332);
        let before = generator.next_with(&draws);
        assert_eq!(before, "ABCDEFGHIJKLzzzzzzzzzz");
        let after = generator.next();
        assert_eq!(after.len(), TOTAL_LEN);
        changed = after[..12] != before[..12];
        tries += 1;
    }
    assert!(changed);
}

#[test]
fn consecutive_identifiers_differ() {
    let mut own = NUID::new();
    let mut last = own.next();
    let mut calls: u32 = 0;
    while calls < 1_000 {
        let id = own.next();
        assert_ne!(id, last);
        last = id;
        calls += 1;
    }
    let (mut generator, draws) = seeded(MAX_SEQ - 10, 1);
    let fresh = Draws { samples: OTHER_SAMPLES, sequence: MAX_SEQ - 10, increment: 1 };
    let mut last = generator.next_with(&draws);
    calls = 0;
    while calls < 30 {
        let id = generator.next_with(&fresh);
        assert_ne!(id, last);
        last = id;
        calls += 1;
    }
}

#[test]
fn equal_draws_at_a_refresh_repeat_the_identifier() {
    let (mut generator, draws) = seeded(MAX_SEQ - 1, 1);
    let first = generator.next_with(&draws);
    let second = generator.next_with(&draws);
    assert_eq!(first, second);
}

#[test]
fn draws_are_usable_within_their_bounds() {
    let usable = Draws { samples: SAMPLES, sequence: MAX_SEQ - 1, increment: MAX_INC - 1 };
    assert!(usable.is_usable());
    assert!(Draws { samples: SAMPLES, sequence: 0, increment: 1 }.is_usable());
    assert!(!Draws { samples: SAMPLES, sequence: MAX_SEQ, increment: 33 }.is_usable());
    assert!(!Draws { samples: SAMPLES, sequence: 0, increment: 0 }.is_usable());
    assert!(!Draws { samples: SAMPLES, sequence: 0, increment: MAX_INC }.is_usable());
    assert!(!Draws { samples: SAMPLES, sequence: u64::MAX, increment: u64::MAX }.is_usable());
}
