use lk::init::lk_init_level;
use lk::log::{level_filter, LevelFilter, LK_LOGLEVEL_RUST};
use lk::{lk_stderr, lk_stdin, lk_stdout, must_link, STDIO_STREAMS};

#[test]
fn level_moves_later() {
    assert_eq!(lk_init_level(0x90000).add(1), lk_init_level(0x90001));
    assert_eq!(lk_init_level(0).add(0), lk_init_level(0));
    assert_eq!(lk_init_level(u32::MAX - 5).add(5), lk_init_level(u32::MAX));
}

#[test]
fn level_moves_earlier() {
    assert_eq!(lk_init_level(0x90000).sub(1), lk_init_level(0x8ffff));
    assert_eq!(lk_init_level(7).sub(7), lk_init_level(0));
    assert_eq!(lk_init_level(u32::MAX).sub(0), lk_init_level(u32::MAX));
}

#[test]
fn level_moved_there_and_back() {
    let level = lk_init_level(0x40000);
    assert_eq!(level.add(17).sub(17), level);
    assert_eq!(level.sub(17).add(17), level);
}

#[test]
fn standard_streams_have_their_usual_places() {
    assert_eq!(lk_stdin(), 0);
    assert_eq!(lk_stdout(), 1);
    assert_eq!(lk_stderr(), 2);
    assert_eq!(STDIO_STREAMS, 3);
}

#[test]
fn link_anchors_do_nothing() {
    must_link();
    lk::pl011::init();
}

#[test]
fn log_level_maps_to_filter() {
    assert_eq!(level_filter(0), LevelFilter::Off);
    assert_eq!(level_filter(1), LevelFilter::Error);
    assert_eq!(level_filter(2), LevelFilter::Warn);
    assert_eq!(level_filter(3), LevelFilter::Info);
    assert_eq!(level_filter(4), LevelFilter::Debug);
    assert_eq!(level_filter(5), LevelFilter::Trace);
    assert_eq!(level_filter(6), LevelFilter::Trace);
    assert_eq!(level_filter(usize::MAX), LevelFilter::Trace);
    assert_eq!(level_filter(LK_LOGLEVEL_RUST), LevelFilter::Debug);
}
