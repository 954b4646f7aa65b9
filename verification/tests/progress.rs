use bili_cli::progress::{progress_template, Progress, PROGRESS_CHARS};

#[test]
fn bar_starts_partway_for_a_resumed_transfer() {
    let progress = Progress::start(5000, 1000);
    assert_eq!(progress, Progress { total: 5000, position: 1000, finished: false });
}

#[test]
fn position_never_moves_back() {
    let mut progress = Progress::start(5000, 1000);
    progress.observe(2500);
    assert_eq!(progress.position, 2500);
    progress.observe(2000);
    assert_eq!(progress.position, 2500);
    progress.observe(2500);
    assert_eq!(progress.position, 2500);
    progress.observe(9000);
    assert_eq!(progress.position, 9000);
    assert_eq!(progress.total, 5000);
}

#[test]
fn advancing_stops_at_the_largest_count() {
    let mut progress = Progress::start(10, 4);
    progress.advance(3);
    assert_eq!(progress.position, 7);
    progress.advance(u64::MAX);
    assert_eq!(progress.position, u64::MAX);
    progress.advance(1);
    assert_eq!(progress.position, u64::MAX);
}

#[test]
fn finishing_keeps_the_counters() {
    let mut progress = Progress::start(10, 4);
    progress.finish();
    assert_eq!(progress, Progress { total: 10, position: 4, finished: true });
}

#[test]
fn template_holds_the_title() {
    assert_eq!(
        progress_template("下载音频"),
        "{spinner:.green}  下载音频 [{wide_bar:.cyan/blue}] {bytes}/{total_bytes}"
    );
    assert_eq!(PROGRESS_CHARS, "#>-");
}
