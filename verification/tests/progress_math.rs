use path_tracer::constants::{IMAGE_WIDTH, MAX_DEPTH, SAMPLES_PER_PIXEL, THREADS_NUM};
use path_tracer::progress::{eta_seconds, percent_done};

#[test]
fn percent_done_exact_values() {
    assert_eq!(percent_done(0, 100), 0);
    assert_eq!(percent_done(50, 200), 25);
    assert_eq!(percent_done(100, 100), 100);
    assert_eq!(percent_done(999, 1000), 99);
    assert_eq!(percent_done(1, 3), 33);
}

#[test]
fn percent_done_at_reference_resolution() {
    // 1200 x 675 pixels, half of them rendered.
    let total = 1200u64 * 675;
    assert_eq!(percent_done(total / 2, total), 50);
}

#[test]
fn eta_seconds_exact_values() {
    // 1 of 3 pixels took 1000 ms: 2000 ms remain, so 2 s.
    assert_eq!(eta_seconds(1000, 1, 3), 2);
    // 100 of 400 pixels in a minute: three more minutes.
    assert_eq!(eta_seconds(60_000, 100, 400), 180);
    // Finished render: nothing left.
    assert_eq!(eta_seconds(123_456, 500, 500), 0);
    // Rounds down.
    assert_eq!(eta_seconds(999, 1, 2), 0);
}

#[test]
fn eta_seconds_saturates() {
    assert_eq!(eta_seconds(u64::MAX, 1, u64::MAX), u64::MAX);
}

#[test]
fn reference_render_configuration() {
    assert_eq!(IMAGE_WIDTH, 1200);
    assert_eq!(SAMPLES_PER_PIXEL, 500);
    assert_eq!(MAX_DEPTH, 50);
    assert_eq!(THREADS_NUM, 7);
}
