use pngtuber::detector::{is_speaking, on_block, FULL_SCALE, THRESHOLD_DEN, THRESHOLD_NUM};
use pngtuber::flag::SpeakingFlag;

// The fixed-point sample that stands for a level on the scale -1.0 ..= 1.0.
fn sample(level: f32) -> i32 {
    (level * 2_147_483_648.0) as i32
}

fn steady(level: f32, len: usize) -> Vec<i32> {
    vec![sample(level); len]
}

#[test]
fn threshold_is_a_tenth_of_full_scale() {
    assert_eq!(FULL_SCALE, 2_147_483_648);
    assert_eq!(THRESHOLD_NUM, 1);
    assert_eq!(THRESHOLD_DEN, 10);
}

#[test]
fn levels_convert_to_fixed_point() {
    assert_eq!(sample(0.05), 107_374_184);
    assert_eq!(sample(0.2), 429_496_736);
    assert_eq!(sample(0.0), 0);
    assert_eq!(sample(-1.0), i32::MIN);
    assert_eq!(sample(1.0), i32::MAX);
}

#[test]
fn quiet_block_of_480_samples_is_not_speaking() {
    let block: Vec<i32> = steady(0.05, 480);
    assert_eq!(block.len(), 480);
    assert!(!is_speaking(&block));
}

#[test]
fn loud_block_of_480_samples_is_speaking() {
    let block: Vec<i32> = steady(0.2, 480);
    assert_eq!(block.len(), 480);
    assert!(is_speaking(&block));
}

#[test]
fn rms_at_the_threshold_is_not_speaking() {
    // A tenth of full scale is 214_748_364.8: this is the last magnitude
    // that is not above it.
    assert!(!is_speaking(&[214_748_364]));
    assert!(!is_speaking(&vec![214_748_364i32; 480]));
    assert!(!is_speaking(&vec![-214_748_364i32; 33]));
}

#[test]
fn rms_just_above_the_threshold_is_speaking() {
    assert!(is_speaking(&[214_748_365]));
    assert!(is_speaking(&vec![214_748_365i32; 480]));
    assert!(is_speaking(&vec![-214_748_365i32; 33]));
}

#[test]
fn classification_ignores_block_length() {
    let lengths: [usize; 6] = [1, 2, 7, 480, 1024, 48000];
    for len in lengths {
        assert!(!is_speaking(&steady(0.05, len)));
        assert!(!is_speaking(&steady(0.0999, len)));
        assert!(is_speaking(&steady(0.1001, len)));
        assert!(is_speaking(&steady(0.2, len)));
    }
}

#[test]
fn empty_block_is_not_speaking() {
    let block: Vec<i32> = Vec::new();
    assert!(!is_speaking(&block));
}

#[test]
fn silence_is_not_speaking() {
    assert!(!is_speaking(&vec![0i32; 480]));
}

#[test]
fn sign_of_samples_does_not_matter() {
    let loud: i32 = sample(0.2);
    let quiet: i32 = sample(0.05);
    assert!(is_speaking(&[loud, -loud, loud, -loud]));
    assert!(!is_speaking(&[quiet, -quiet, quiet, -quiet]));
}

#[test]
fn full_scale_blocks_do_not_overflow() {
    assert!(is_speaking(&vec![i32::MIN; 48000]));
    assert!(is_speaking(&vec![i32::MAX; 48000]));
    assert!(is_speaking(&[i32::MIN]));
}

#[test]
fn one_loud_sample_among_silence_is_weighed_by_the_mean() {
    // 100 * 429_496_730^2 is above 4 * 2^62, 100 * 429_496_729^2 is not.
    assert!(is_speaking(&[0, 0, 0, 429_496_730]));
    assert!(!is_speaking(&[0, 0, 0, 429_496_729]));
    // The same loud sample in a longer block is diluted.
    assert!(!is_speaking(&[0, 0, 0, 0, 429_496_730]));
}

#[test]
fn blocks_with_equal_mean_square_are_classified_alike() {
    // Mean square 303_700_050^2 / 2 on all sides, just above the threshold.
    let a: [i32; 2] = [303_700_050, 0];
    let b: [i32; 4] = [303_700_050, 0, -303_700_050, 0];
    let c: [i32; 6] = [0, 303_700_050, 0, 0, 303_700_050, 303_700_050];
    assert!(is_speaking(&a));
    assert!(is_speaking(&b));
    assert!(is_speaking(&c));
    // Mean square 303_700_049^2 / 2 on all sides, just below it.
    let d: [i32; 2] = [0, 303_700_049];
    let e: [i32; 4] = [303_700_049, 0, 0, -303_700_049];
    let f: [i32; 6] = [303_700_049, 0, 303_700_049, 0, 303_700_049, 0];
    assert!(!is_speaking(&d));
    assert!(!is_speaking(&e));
    assert!(!is_speaking(&f));
}

#[test]
fn classification_has_no_memory() {
    let loud: Vec<i32> = steady(0.2, 480);
    let quiet: Vec<i32> = steady(0.05, 480);
    assert!(is_speaking(&loud));
    assert!(!is_speaking(&quiet));
    assert!(is_speaking(&loud));
    assert!(!is_speaking(&quiet));
}

#[test]
fn on_block_publishes_every_classification() {
    let flag = SpeakingFlag::new();
    let reader = flag.handle();
    assert!(on_block(&flag, &steady(0.2, 480)));
    assert!(reader.observe());
    assert!(on_block(&flag, &steady(0.2, 480)));
    assert!(reader.observe());
    assert!(!on_block(&flag, &steady(0.05, 480)));
    assert!(!reader.observe());
}
