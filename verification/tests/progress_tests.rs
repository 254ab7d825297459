use telefetch::progress::{render_progress, ProgressReporter};

const MIB: u64 = 1024 * 1024;

#[test]
fn render_half_done() {
    let text = render_progress("file.bin", 5 * MIB, 10 * MIB, 25);
    assert_eq!(
        text,
        "Downloading file.bin\n5.0 MB of 10.0 MB done.\n\n[\u{1F7E9}\u{1F7E9}\u{1F7E9}\u{1F7E9}\u{1F7E9}\u{2B1C}\u{2B1C}\u{2B1C}\u{2B1C}\u{2B1C}] 50.00%\nSpeed 2.5 MB/s"
    );
}

#[test]
fn render_empty_total() {
    let text = render_progress("x", 0, 0, 0);
    assert_eq!(
        text,
        "Downloading x\n0.0 MB of 0.0 MB done.\n\n[\u{2B1C}\u{2B1C}\u{2B1C}\u{2B1C}\u{2B1C}\u{2B1C}\u{2B1C}\u{2B1C}\u{2B1C}\u{2B1C}] 0.00%\nSpeed 0.0 MB/s"
    );
}

#[test]
fn render_complete_fills_the_bar() {
    let text = render_progress("x", 10 * MIB, 10 * MIB, 0);
    assert_eq!(
        text,
        "Downloading x\n10.0 MB of 10.0 MB done.\n\n[\u{1F7E9}\u{1F7E9}\u{1F7E9}\u{1F7E9}\u{1F7E9}\u{1F7E9}\u{1F7E9}\u{1F7E9}\u{1F7E9}\u{1F7E9}] 100.00%\nSpeed 0.0 MB/s"
    );
}

#[test]
fn reporter_waits_for_the_interval() {
    let mut rep = ProgressReporter::new(5, 1000);
    assert_eq!(rep.step(1002, MIB, 10 * MIB, "f"), None);
    assert_eq!(rep.step(1004, 2 * MIB, 10 * MIB, "f"), None);
    assert!(rep.step(1005, 2 * MIB, 10 * MIB, "f").is_some());
}

#[test]
fn reporter_never_repeats_identical_text() {
    let mut rep = ProgressReporter::new(5, 1000);
    let first = rep.step(1005, 5 * MIB, 10 * MIB, "f");
    assert!(first.is_some());
    // no progress since: the next text differs only in its speed (now 0.0)
    let second = rep.step(1010, 5 * MIB, 10 * MIB, "f");
    assert!(second.is_some());
    assert_ne!(first, second);
    // still no progress: same text as the last delivered one, so nothing goes out
    assert_eq!(rep.step(1015, 5 * MIB, 10 * MIB, "f"), None);
    assert_eq!(rep.step(1020, 5 * MIB, 10 * MIB, "f"), None);
}

#[test]
fn reporter_speed_is_delta_based_not_cumulative() {
    let mut rep = ProgressReporter::new(5, 1000);
    let first = rep.step(1005, 2 * MIB, 100 * MIB, "f").expect("first report");
    // 2 MiB over 5 s = 0.4 MB/s
    assert_eq!(first, render_progress("f", 2 * MIB, 100 * MIB, 4));
    let second = rep.step(1010, 8 * MIB, 100 * MIB, "f").expect("second report");
    // 6 MiB over the last 5 s = 1.2 MB/s; a cumulative average would say 0.8
    assert_eq!(second, render_progress("f", 8 * MIB, 100 * MIB, 12));
}
