//! The full pipeline with the real cosine transform: round trip, the
//! lossless degenerate case, and the end-to-end checkerboard scenario.

use dct_filter::buffer::SampleBuffer;
use dct_filter::coef::Coef;
use dct_filter::distortion::{distortion, Distortion};
use dct_filter::policy::{select, Policy};
use fft2d::slice::dcst::{dct_2d, idct_2d};

fn to_coef(x: f64) -> Coef {
    let bits = x.to_bits();
    Coef {
        neg: bits >> 63 == 1,
        mag: bits & 0x7FFF_FFFF_FFFF_FFFF,
    }
}

fn from_coef(c: Coef) -> f64 {
    f64::from_bits(c.mag | ((c.neg as u64) << 63))
}

/// The no-op policy: no magnitude is strictly below zero.
fn keep_all() -> Policy {
    Policy::Threshold { key: 0 }
}

/// One block through the pipeline's real-valued stages: forward transform,
/// scale up, selection, scale down, inverse transform.
fn filter_block(samples: &[u8], policy: &Policy) -> Vec<f64> {
    let mut real: Vec<f64> = samples.iter().map(|&s| s as f64 / 255.0).collect();
    dct_2d(8, 8, &mut real);
    let coefs: Vec<Coef> = real.iter().map(|&x| to_coef(x * 64.0)).collect();
    let kept = select(policy, &coefs);
    let mut real: Vec<f64> = kept.iter().map(|&c| from_coef(c) / 4.0).collect();
    idct_2d(8, 8, &mut real);
    real
}

/// The whole image through the pipeline, and its distortion report.
fn run_pipeline(buf: &SampleBuffer, policy: &Policy) -> (SampleBuffer, Distortion) {
    let (w, h) = (buf.width(), buf.height());
    let mut out = SampleBuffer::new(w, h).unwrap();
    for br in 0..h / 8 {
        for bc in 0..w / 8 {
            let block = buf.get_block(br, bc);
            let real = filter_block(&block, policy);
            let bytes: Vec<u8> = real.iter().map(|&x| x as u8).collect();
            out.set_block(br, bc, &bytes);
        }
    }
    let d = distortion(buf, &out);
    (out, d)
}

#[test]
fn the_transform_round_trip_reproduces_the_block() {
    // an arbitrary block of 8-bit samples
    let samples: Vec<u8> = (0..64).map(|p| (p * 37 % 256) as u8).collect();
    let real = filter_block(&samples, &keep_all());
    // forward, scale by 64, scale by 1/4, inverse is the identity times
    // 256 on the 1/255-normalized samples
    for p in 0..64 {
        let expected = samples[p] as f64 / 255.0 * 256.0;
        assert!(
            (real[p] - expected).abs() < 1e-6,
            "position {}: {} vs {}",
            p,
            real[p],
            expected
        );
    }
}

#[test]
fn a_flat_block_is_reproduced_exactly_and_reports_no_distortion() {
    // a constant 8 x 8 image, the zero-fraction policy: the DC term alone
    // carries the block and survives, so the round trip is lossless
    let buf = SampleBuffer::from_samples(8, 8, vec![100u8; 64]).unwrap();
    let (out, d) = run_pipeline(&buf, &Policy::GlobalFraction { percent: 0 });
    assert_eq!(out.samples(), buf.samples());
    assert_eq!(d, Distortion::NoDistortion);
    // the zonal policy also keeps the DC term of a flat block
    let (out, d) = run_pipeline(&buf, &Policy::Zonal);
    assert_eq!(out.samples(), buf.samples());
    assert_eq!(d, Distortion::NoDistortion);
}

/// PSNR from a distortion report, on a buffer of `pixels` pixels.
fn psnr(d: &Distortion, pixels: usize) -> Option<f64> {
    match d {
        Distortion::NoDistortion => None,
        Distortion::Lossy { sse } => {
            let mse = *sse as f64 / pixels as f64;
            Some(10.0 * (255.0 * 255.0 / mse).log10())
        }
    }
}

#[test]
fn the_checkerboard_keeps_its_quadrant_means_under_the_zonal_policy() {
    // 16 x 16, four 8 x 8 quadrants alternating 0 and 255
    let mut samples = vec![0u8; 256];
    for y in 0..16 {
        for x in 0..16 {
            if (x / 8 + y / 8) % 2 == 1 {
                samples[y * 16 + x] = 255;
            }
        }
    }
    let buf = SampleBuffer::from_samples(16, 16, samples).unwrap();

    let (out, zonal_d) = run_pipeline(&buf, &Policy::Zonal);
    // each flat quadrant is DC-dominated: the reconstruction stays at the
    // quadrant's mean
    for br in 0..2 {
        for bc in 0..2 {
            let mean = if (br + bc) % 2 == 1 { 255i32 } else { 0i32 };
            for &s in out.get_block(br, bc).iter() {
                assert!((s as i32 - mean).abs() <= 2, "{} vs {}", s, mean);
            }
        }
    }

    // a flat quadrant is carried by its DC term alone, which the zonal cut
    // keeps: on this board the policy loses nothing at all, and the report
    // is the degenerate lossless outcome, never an infinite PSNR
    assert_eq!(out.samples(), buf.samples());
    assert_eq!(zonal_d, Distortion::NoDistortion);
    let (keep_out, keep_d) = run_pipeline(&buf, &keep_all());
    assert_eq!(keep_out.samples(), buf.samples());
    assert_eq!(keep_d, Distortion::NoDistortion);
}

#[test]
fn the_zonal_cut_is_strictly_worse_where_blocks_hold_high_frequencies() {
    // a pixel-level checkerboard: every block is pure high frequency
    let mut samples = vec![0u8; 256];
    for y in 0..16 {
        for x in 0..16 {
            if (x + y) % 2 == 1 {
                samples[y * 16 + x] = 255;
            }
        }
    }
    let buf = SampleBuffer::from_samples(16, 16, samples).unwrap();

    let (_, zonal_d) = run_pipeline(&buf, &Policy::Zonal);
    let zonal_psnr = psnr(&zonal_d, 256).expect("the zonal cut distorts this board");
    assert!(zonal_psnr > 0.0);
    assert!(zonal_psnr.is_finite());

    // keeping every coefficient reproduces the board: strictly better
    // than any finite PSNR
    let (_, keep_d) = run_pipeline(&buf, &keep_all());
    match psnr(&keep_d, 256) {
        None => (),
        Some(keep_psnr) => assert!(zonal_psnr < keep_psnr),
    }
}
