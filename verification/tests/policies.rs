//! The four selection policies on concrete blocks.

use dct_filter::coef::Coef;
use dct_filter::policy::{select, task1, task2, task3, task4, Policy};
use dct_filter::FilterError;

fn coef(neg: bool, mag: u64) -> Coef {
    Coef { neg, mag }
}

fn key_of(v: f64) -> u64 {
    v.abs().to_bits()
}

fn to_coef(x: f64) -> Coef {
    let bits = x.to_bits();
    Coef {
        neg: bits >> 63 == 1,
        mag: bits & 0x7FFF_FFFF_FFFF_FFFF,
    }
}

fn zero() -> Coef {
    coef(false, 0)
}

/// A block of 64 pairwise distinct magnitudes 1.0, 2.0, ... with
/// alternating signs.
fn distinct_block() -> Vec<Coef> {
    (0..64)
        .map(|i| {
            let v = (i + 1) as f64;
            to_coef(if i % 2 == 0 { v } else { -v })
        })
        .collect()
}

#[test]
fn zonal_zeroes_the_lower_right_triangle() {
    let block = distinct_block();
    let out = task1(&block);
    assert_eq!(out.len(), 64);
    for i in 0..64 {
        let (x, y) = (i % 8, i / 8);
        if x + y >= 8 {
            assert_eq!(out[i], zero());
        } else {
            assert_eq!(out[i], block[i]);
        }
    }
}

#[test]
fn zonal_twice_is_zonal_once() {
    let block = distinct_block();
    let once = task1(&block);
    let twice = task1(&once);
    assert_eq!(once, twice);
}

#[test]
fn threshold_keeps_signs_verbatim() {
    let block = distinct_block();
    let out = task2(&block, key_of(10.0));
    // 9.0 and below go; 10.0 and above stay with their sign
    for i in 0..64 {
        if (i + 1) < 10 {
            assert_eq!(out[i], zero());
        } else {
            assert_eq!(out[i], block[i]);
            assert_eq!(out[i].neg, i % 2 == 1);
        }
    }
}

#[test]
fn threshold_is_strict() {
    // a coefficient exactly at the threshold is kept
    let block: Vec<Coef> = (0..64).map(|_| to_coef(10.0)).collect();
    let out = task2(&block, key_of(10.0));
    assert!(out.iter().all(|&c| c == to_coef(10.0)));
    let out = task2(&block, key_of(10.5));
    assert!(out.iter().all(|&c| c == zero()));
}

#[test]
fn threshold_zero_keeps_everything() {
    let block = distinct_block();
    let out = task2(&block, key_of(0.0));
    assert_eq!(out, block);
}

#[test]
fn raising_the_threshold_never_zeroes_less() {
    let block = distinct_block();
    let mut last_count = 0;
    for t in 0..=255u8 {
        let out = task2(&block, key_of(t as f64));
        let count = out.iter().filter(|&&c| c == zero()).count();
        assert!(count >= last_count);
        last_count = count;
    }
}

#[test]
fn global_fraction_zeroes_exactly_the_bound_on_distinct_magnitudes() {
    let block = distinct_block();
    for percent in [0u8, 10, 50, 99] {
        let out = task3(&block, percent);
        let bound = 64 * percent as usize / 100;
        let count = out.iter().filter(|&&c| c == zero()).count();
        assert_eq!(count, bound + 1);
        // and it removes the smallest magnitudes: values 1.0 ..= bound+1
        for i in 0..64 {
            if i + 1 <= bound + 1 {
                assert_eq!(out[i], zero());
            } else {
                assert_eq!(out[i], block[i]);
            }
        }
    }
}

#[test]
fn global_fraction_removes_cutoff_duplicates_together() {
    // four entries share the cutoff magnitude 2.0
    let mut block = distinct_block();
    block[10] = to_coef(2.0);
    block[20] = to_coef(-2.0);
    block[30] = to_coef(2.0);
    // percent 3: bound = 1, nominally two entries, but every 2.0 goes
    let out = task3(&block, 3);
    let count = out.iter().filter(|&&c| c == zero()).count();
    assert_eq!(count, 5);
    assert_eq!(out[0], zero()); // 1.0
    assert_eq!(out[1], zero()); // -2.0
    assert_eq!(out[10], zero());
    assert_eq!(out[20], zero());
    assert_eq!(out[30], zero());
}

#[test]
fn global_fraction_full_percentage_zeroes_everything() {
    let block = distinct_block();
    let out = task3(&block, 100);
    assert!(out.iter().all(|&c| c == zero()));
}

#[test]
fn zigzag_tail_cuts_the_high_frequencies() {
    // distinct positive magnitudes: value at in-block position p is p + 1
    let block: Vec<Coef> = (0..64).map(|p| to_coef((p + 1) as f64)).collect();
    // percent 0: bound = 0, the tail is the single entry at zigzag end,
    // in-block position 63, value 64.0
    let out = task4(&block, 0);
    let count = out.iter().filter(|&&c| c == zero()).count();
    assert_eq!(count, 1);
    assert_eq!(out[63], zero());
    for p in 0..63 {
        assert_eq!(out[p], block[p]);
    }
}

#[test]
fn zigzag_tail_compares_against_signed_entries() {
    // the tail entry at in-block position 63 is negative: a negative value
    // is no magnitude, so nothing matches it and nothing is zeroed
    let mut block: Vec<Coef> = (0..64).map(|p| to_coef((p + 1) as f64)).collect();
    block[63] = to_coef(-64.0);
    let out = task4(&block, 0);
    assert_eq!(out, block);
}

#[test]
fn zigzag_tail_zeroes_every_match_of_a_tail_magnitude() {
    // the tail magnitude 64.0 also occurs elsewhere in the block
    let mut block: Vec<Coef> = (0..64).map(|p| to_coef((p + 1) as f64)).collect();
    block[5] = to_coef(64.0);
    block[7] = to_coef(-64.0);
    let out = task4(&block, 0);
    let count = out.iter().filter(|&&c| c == zero()).count();
    // both 64.0 magnitudes go, wherever they sit
    assert_eq!(count, 3);
    assert_eq!(out[5], zero());
    assert_eq!(out[7], zero());
    assert_eq!(out[63], zero());
}

#[test]
fn zigzag_tail_full_percentage_scans_the_whole_block() {
    // with the full percentage the tail is the whole reversed scan: every
    // positive coefficient matches its own entry and is zeroed
    let block: Vec<Coef> = (0..64).map(|p| to_coef((p + 1) as f64)).collect();
    let out = task4(&block, 100);
    assert!(out.iter().all(|&c| c == zero()));
    // a negative coefficient survives unless its magnitude also occurs as
    // some positive entry
    let block: Vec<Coef> = (0..64).map(|p| to_coef(-((p + 1) as f64))).collect();
    let out = task4(&block, 100);
    assert_eq!(out, block);
}

#[test]
fn select_dispatches_to_each_policy() {
    let block = distinct_block();
    assert_eq!(select(&Policy::Zonal, &block), task1(&block));
    assert_eq!(
        select(&Policy::Threshold { key: key_of(9.0) }, &block),
        task2(&block, key_of(9.0))
    );
    assert_eq!(
        select(&Policy::GlobalFraction { percent: 25 }, &block),
        task3(&block, 25)
    );
    assert_eq!(
        select(&Policy::ZigzagFraction { percent: 25 }, &block),
        task4(&block, 25)
    );
}

#[test]
fn out_of_domain_percentages_are_rejected() {
    assert_eq!(
        Policy::GlobalFraction { percent: 101 }.validate(),
        Err(FilterError::InvalidParameter)
    );
    assert_eq!(
        Policy::ZigzagFraction { percent: 101 }.validate(),
        Err(FilterError::InvalidParameter)
    );
    assert_eq!(Policy::GlobalFraction { percent: 100 }.validate(), Ok(()));
    assert_eq!(Policy::ZigzagFraction { percent: 0 }.validate(), Ok(()));
    assert_eq!(Policy::Zonal.validate(), Ok(()));
    assert_eq!(Policy::Threshold { key: u64::MAX }.validate(), Ok(()));
}
