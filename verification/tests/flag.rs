use pngtuber::flag::SpeakingFlag;

#[test]
fn fresh_flag_reads_false() {
    let flag = SpeakingFlag::new();
    assert!(!flag.observe());
}

#[test]
fn last_write_wins() {
    let flag = SpeakingFlag::new();
    flag.publish(true);
    flag.publish(false);
    flag.publish(true);
    assert!(flag.observe());
    flag.publish(false);
    assert!(!flag.observe());
}

#[test]
fn handles_share_one_flag() {
    let writer = SpeakingFlag::new();
    let reader = writer.handle();
    writer.publish(true);
    assert!(reader.observe());
    reader.publish(false);
    assert!(!writer.observe());
}

#[test]
fn separate_flags_are_independent() {
    let a = SpeakingFlag::new();
    let b = SpeakingFlag::new();
    a.publish(true);
    assert!(a.observe());
    assert!(!b.observe());
}

#[test]
fn reading_does_not_consume_the_value() {
    let flag = SpeakingFlag::new();
    flag.publish(true);
    assert!(flag.observe());
    assert!(flag.observe());
}
