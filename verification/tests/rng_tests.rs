use mineshaft::rng::{ConstSource, LcgSource, RollSource};

#[test]
fn const_source_repeats_its_value() {
    let mut source = ConstSource::new(83, 4);
    for _ in 0..4 {
        assert_eq!(source.next_roll(), 83);
    }
    assert_eq!(source.remaining, 0);
}

#[test]
fn lcg_source_is_deterministic_per_seed() {
    let mut first = LcgSource::new(42, 64);
    let mut second = LcgSource::new(42, 64);
    let rolls_a: Vec<u8> = (0..64).map(|_| first.next_roll()).collect();
    let rolls_b: Vec<u8> = (0..64).map(|_| second.next_roll()).collect();
    assert_eq!(rolls_a, rolls_b);
}

#[test]
fn lcg_rolls_stay_below_one_hundred() {
    let mut source = LcgSource::new(123456789, 256);
    for _ in 0..256 {
        assert!(source.next_roll() <= 99);
    }
}

#[test]
fn different_seeds_give_different_streams() {
    let mut first = LcgSource::new(1, 32);
    let mut second = LcgSource::new(2, 32);
    let rolls_a: Vec<u8> = (0..32).map(|_| first.next_roll()).collect();
    let rolls_b: Vec<u8> = (0..32).map(|_| second.next_roll()).collect();
    assert_ne!(rolls_a, rolls_b);
}
