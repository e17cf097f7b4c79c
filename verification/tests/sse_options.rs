use std::time::Duration;
use opencode_rs::sse::SseOptions;

#[test]
fn test_sse_options_defaults() {
    let opts = SseOptions::default();
    assert_eq!(opts.capacity, 256);
    assert_eq!(opts.initial_interval, Duration::from_millis(250));
    assert_eq!(opts.max_interval, Duration::from_secs(30));
}
