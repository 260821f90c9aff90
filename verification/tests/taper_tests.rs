use taper::FadeType;
use taper::TaperSpec;
use taper::TaperStep;
use taper::WindowType;
use taper::effective_taper_size;
use taper::is_taper_length_zero;
use taper::linear_curve_numerators;
use taper::linear_weight_num;
use taper::taper_plan;

fn step(sample_index: usize, curve_position: usize) -> TaperStep {
    TaperStep {
        sample_index,
        curve_position,
    }
}

/// Applies a plan to a buffer with the exact linear weights `num / ref_len`.
fn apply_linear_plan(buffer: &mut [f64], plan: &[TaperStep], eff: usize) {
    let nums = linear_curve_numerators(eff);
    let ref_len = 2 * eff - 1;
    for s in plan {
        buffer[s.sample_index] *= nums[s.curve_position] as f64 / ref_len as f64;
    }
}

#[test]
fn zero_length_taper_is_noop() {
    let spec = TaperSpec {
        taper_type: WindowType::Hann,
        taper_length: 0,
    };
    assert!(taper_plan(8, &spec, FadeType::FadeIn).is_empty());
    assert!(taper_plan(8, &spec, FadeType::FadeOut).is_empty());
    assert!(taper_plan(8, &spec, FadeType::Both).is_empty());
    let mut buffer = vec![0.25, -1.5, 3.0];
    let before = buffer.clone();
    let plan = taper_plan(
        buffer.len(),
        &TaperSpec {
            taper_type: WindowType::Linear,
            taper_length: 0,
        },
        FadeType::Both,
    );
    apply_linear_plan(&mut buffer, &plan, 1);
    assert_eq!(buffer, before);
}

#[test]
fn empty_and_tiny_buffers_yield_empty_plans() {
    let spec = TaperSpec {
        taper_type: WindowType::Blackman,
        taper_length: 5,
    };
    assert!(taper_plan(0, &spec, FadeType::Both).is_empty());
    assert!(taper_plan(1, &spec, FadeType::Both).is_empty());
}

#[test]
fn clamping_matches_half_buffer_request() {
    let long = TaperSpec {
        taper_type: WindowType::Cosine,
        taper_length: 100,
    };
    let half = TaperSpec {
        taper_type: WindowType::Cosine,
        taper_length: 4,
    };
    assert_eq!(
        taper_plan(8, &long, FadeType::Both),
        taper_plan(8, &half, FadeType::Both)
    );
    assert_eq!(
        taper_plan(8, &long, FadeType::FadeOut),
        taper_plan(8, &half, FadeType::FadeOut)
    );
}

#[test]
fn oversized_request_touches_only_clamped_prefix() {
    let spec = TaperSpec {
        taper_type: WindowType::Linear,
        taper_length: 10,
    };
    let plan = taper_plan(4, &spec, FadeType::FadeIn);
    assert_eq!(plan, vec![step(0, 0), step(1, 1)]);
}

#[test]
fn fade_out_reads_second_half_of_curve() {
    let spec = TaperSpec {
        taper_type: WindowType::Hann,
        taper_length: 2,
    };
    let plan = taper_plan(8, &spec, FadeType::FadeOut);
    assert_eq!(plan, vec![step(6, 2), step(7, 3)]);
}

#[test]
fn both_fades_leave_the_interior_untouched() {
    let spec = TaperSpec {
        taper_type: WindowType::Linear,
        taper_length: 2,
    };
    let plan = taper_plan(8, &spec, FadeType::Both);
    assert_eq!(plan, vec![step(0, 0), step(1, 1), step(6, 2), step(7, 3)]);
    let mut buffer = vec![1.0; 8];
    apply_linear_plan(&mut buffer, &plan, 2);
    let w = 2.0 / 3.0;
    assert_eq!(buffer, vec![0.0, w, 1.0, 1.0, 1.0, 1.0, w, 0.0]);
}

#[test]
fn linear_curve_is_mirror_symmetric() {
    for eff in 1..=5usize {
        let nums = linear_curve_numerators(eff);
        assert_eq!(nums.len(), 2 * eff);
        for i in 0..eff {
            assert_eq!(nums[eff + i], nums[eff - 1 - i]);
        }
    }
}

#[test]
fn linear_fade_in_weights_are_non_decreasing() {
    for eff in 2..=6usize {
        let nums = linear_curve_numerators(eff);
        let ref_len = (2 * eff - 1) as f64;
        for i in 0..eff - 1 {
            assert!(nums[i] <= nums[i + 1]);
            assert!(nums[i] as f64 / ref_len <= nums[i + 1] as f64 / ref_len);
        }
    }
}

#[test]
fn linear_weights_lie_between_zero_and_one() {
    for eff in 1..=6usize {
        let ref_len = 2 * eff - 1;
        let nums = linear_curve_numerators(eff);
        for (p, num) in nums.iter().enumerate() {
            assert_eq!(*num, linear_weight_num(p, ref_len));
            assert!(*num <= ref_len);
            let w = *num as f64 / ref_len as f64;
            assert!((0.0..=1.0).contains(&w));
        }
    }
}

#[test]
fn linear_curve_exact_values() {
    // eff = 3: ref_len = 5, numerators 2*p rising then 2*5 - 2*p falling.
    assert_eq!(linear_curve_numerators(3), vec![0, 2, 4, 4, 2, 0]);
    // eff = 2: ref_len = 3.
    assert_eq!(linear_curve_numerators(2), vec![0, 2, 2, 0]);
}

#[test]
fn effective_size_clamps_to_half_buffer() {
    assert_eq!(effective_taper_size(10, 4), 2);
    assert_eq!(effective_taper_size(2, 8), 2);
    assert_eq!(effective_taper_size(0, 8), 0);
    assert_eq!(effective_taper_size(5, 9), 4);
    assert_eq!(effective_taper_size(3, 0), 0);
    assert_eq!(effective_taper_size(usize::MAX, usize::MAX), usize::MAX / 2);
}

#[test]
fn zero_length_spec_is_recognized() {
    let zero = TaperSpec {
        taper_type: WindowType::Linear,
        taper_length: 0,
    };
    let nonzero = TaperSpec {
        taper_type: WindowType::Linear,
        taper_length: 7,
    };
    assert!(is_taper_length_zero(&zero));
    assert!(!is_taper_length_zero(&nonzero));
}
