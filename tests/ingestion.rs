use m3u8_dl::downloader::{Action, DownloadConfig, StopReason, TsDownloader};
use m3u8_dl::output::StartStamp;
use m3u8_dl::playlist::{MediaPlaylist, MediaSegment};
use url::Url;

fn config(max_failures: u32) -> DownloadConfig {
    DownloadConfig {
        media_url: Url::parse("http://example.com/live/index.m3u8").unwrap(),
        output_dir: "rec".to_string(),
        file_extension: "ts".to_string(),
        segment_secs: 10,
        poll_interval: 2,
        max_failures,
        timeout_ms: 15000,
        retries: 2,
        retry_delay_ms: 500,
        on_segment: None,
        verbose: false,
        progress: false,
    }
}

fn stamp() -> StartStamp {
    StartStamp { year: 2024, month: 1, day: 2, hour: 3, minute: 4 }
}

fn playlist(uris: &[&str], end_list: bool) -> MediaPlaylist {
    MediaPlaylist {
        segments: uris
            .iter()
            .map(|u| MediaSegment { uri: u.to_string(), has_map: false })
            .collect(),
        end_list,
    }
}

fn fetched_uri(a: &Action) -> Option<(String, String)> {
    match a {
        Action::FetchSegment { uri, url } => Some((uri.clone(), url.as_str().to_string())),
        _ => None,
    }
}

#[test]
fn each_unique_uri_is_fetched_once_in_first_seen_order() {
    let mut d = TsDownloader::new(config(2), stamp(), 0, 0);
    assert!(matches!(d.resume(false), Action::FetchPlaylist));
    let mut action = d.playlist_received(Some(playlist(&["a.ts", "b.ts", "a.ts", "c.ts", "b.ts"], false)), false);
    let mut fetched = Vec::new();
    while let Some((uri, url)) = fetched_uri(&action) {
        fetched.push(uri);
        assert!(url.starts_with("http://example.com/live/"));
        action = d.segment_fetched(Some(&[0u8; 4]), 0, false).1;
    }
    assert_eq!(fetched, vec!["a.ts", "b.ts", "c.ts"]);
    assert!(matches!(action, Action::Sleep { secs: 2 }));
    // the next poll repeats old segments: only the new one is fetched
    assert!(matches!(d.resume(false), Action::FetchPlaylist));
    let action = d.playlist_received(Some(playlist(&["b.ts", "c.ts", "d.ts"], false)), false);
    assert_eq!(fetched_uri(&action).unwrap().0, "d.ts");
    assert_eq!(
        fetched_uri(&action).unwrap().1,
        "http://example.com/live/d.ts"
    );
    let action = d.segment_fetched(None, 0, false).1;
    assert!(matches!(action, Action::Sleep { .. }));
    // a failed segment is not retried later in the run
    d.resume(false);
    let action = d.playlist_received(Some(playlist(&["d.ts"], false)), false);
    assert!(matches!(action, Action::Sleep { .. }));
}

#[test]
fn total_bytes_is_sum_of_payloads_across_rotations() {
    let mut d = TsDownloader::new(config(0), stamp(), 0, 0);
    d.resume(false);
    let mut action = d.playlist_received(Some(playlist(&["1.ts", "2.ts", "3.ts", "4.ts"], true)), false);
    let sizes = [100usize, 250, 0, 4096];
    let mut rotated = Vec::new();
    let mut i = 0;
    while fetched_uri(&action).is_some() {
        let data = vec![7u8; sizes[i]];
        let (done, next) = d.segment_fetched(Some(&data), (i as u64) * 6000, false);
        if let Some(p) = done {
            rotated.push(p);
        }
        action = next;
        i += 1;
    }
    assert_eq!(i, 4);
    assert_eq!(d.total_bytes(), 100 + 250 + 4096);
    // windows of ten seconds, checked at 0, 6, 12 and 18 seconds
    assert_eq!(rotated, vec!["rec/2024_01_02-03_04_0.ts".to_string()]);
    match action {
        Action::Finish { path, reason } => {
            assert_eq!(reason, StopReason::EndOfStream);
            assert_eq!(path, "rec/2024_01_02-03_04_1.ts");
        }
        _ => panic!("an ended playlist finishes the run"),
    }
    assert!(d.finished());
    assert!(matches!(d.resume(false), Action::Done));
}

#[test]
fn shutdown_mid_run_finalizes_without_losing_bytes() {
    let mut d = TsDownloader::new(config(2), stamp(), 3, 0);
    d.resume(false);
    let action = d.playlist_received(Some(playlist(&["x.ts", "y.ts", "z.ts"], false)), false);
    assert!(fetched_uri(&action).is_some());
    let (_, action) = d.segment_fetched(Some(&[1u8; 1000]), 10, true);
    match action {
        Action::Finish { path, reason } => {
            assert_eq!(reason, StopReason::Shutdown);
            assert_eq!(path, "rec/2024_01_02-03_04_3.ts");
        }
        _ => panic!("shutdown finishes the run"),
    }
    assert_eq!(d.total_bytes(), 1000);
    // the run is over: finalize happened once
    assert!(matches!(d.resume(true), Action::Done));
    assert!(matches!(d.playlist_received(None, false), Action::Done));
    assert!(matches!(d.segment_fetched(None, 20, false).1, Action::Done));
}

#[test]
fn shutdown_at_top_of_cycle() {
    let mut d = TsDownloader::new(config(2), stamp(), 0, 0);
    match d.resume(true) {
        Action::Finish { reason, .. } => assert_eq!(reason, StopReason::Shutdown),
        _ => panic!("shutdown finishes the run"),
    }
    assert_eq!(d.total_bytes(), 0);
}

#[test]
fn failure_budget_stops_the_run() {
    let mut d = TsDownloader::new(config(2), stamp(), 0, 0);
    d.resume(false);
    assert!(matches!(d.playlist_received(None, false), Action::Sleep { secs: 2 }));
    d.resume(false);
    match d.playlist_received(None, false) {
        Action::Finish { reason, .. } => assert_eq!(reason, StopReason::TooManyFailures),
        _ => panic!("two failures in a row exhaust the budget"),
    }
}

#[test]
fn success_resets_the_failure_count() {
    let mut d = TsDownloader::new(config(2), stamp(), 0, 0);
    d.resume(false);
    assert!(matches!(d.playlist_received(None, false), Action::Sleep { .. }));
    d.resume(false);
    assert!(matches!(d.playlist_received(Some(playlist(&[], false)), false), Action::Sleep { .. }));
    d.resume(false);
    assert!(matches!(d.playlist_received(None, false), Action::Sleep { .. }));
}

#[test]
fn unbounded_failures_never_stop() {
    let mut d = TsDownloader::new(config(0), stamp(), 0, 0);
    for _ in 0..50 {
        d.resume(false);
        assert!(matches!(d.playlist_received(None, false), Action::Sleep { .. }));
    }
}

#[test]
fn retry_policy_comes_from_config() {
    let d = TsDownloader::new(config(2), stamp(), 0, 0);
    let p = d.retry_policy();
    assert_eq!(p.total_timeout_ms, 15000);
    assert_eq!(p.max_retries, 2);
    assert_eq!(p.retry_delay_ms, 500);
}

#[test]
fn failed_segment_is_dropped_and_the_walk_goes_on() {
    let mut d = TsDownloader::new(config(2), stamp(), 0, 0);
    d.resume(false);
    let action = d.playlist_received(Some(playlist(&["a.ts", "b.ts", "c.ts"], false)), false);
    assert_eq!(fetched_uri(&action).unwrap().0, "a.ts");
    let action = d.segment_fetched(Some(&[0u8; 10]), 0, false).1;
    assert_eq!(fetched_uri(&action).unwrap().0, "b.ts");
    let action = d.segment_fetched(None, 0, false).1;
    assert_eq!(fetched_uri(&action).unwrap().0, "c.ts");
    let action = d.segment_fetched(Some(&[0u8; 5]), 0, false).1;
    assert!(matches!(action, Action::Sleep { secs: 2 }));
    assert_eq!(d.total_bytes(), 15);
}

#[test]
fn ended_playlist_with_nothing_new_finishes() {
    let mut d = TsDownloader::new(config(2), stamp(), 0, 0);
    d.resume(false);
    let action = d.playlist_received(Some(playlist(&["a.ts"], false)), false);
    assert!(fetched_uri(&action).is_some());
    assert!(matches!(d.segment_fetched(Some(&[1u8; 3]), 0, false).1, Action::Sleep { .. }));
    d.resume(false);
    match d.playlist_received(Some(playlist(&["a.ts"], true)), false) {
        Action::Finish { path, reason } => {
            assert_eq!(reason, StopReason::EndOfStream);
            assert_eq!(path, "rec/2024_01_02-03_04_0.ts");
        }
        _ => panic!("an ended playlist finishes the run"),
    }
    assert_eq!(d.total_bytes(), 3);
}

#[test]
fn unresolvable_segment_uri_stops_the_run() {
    let mut d = TsDownloader::new(config(2), stamp(), 0, 0);
    d.resume(false);
    match d.playlist_received(Some(playlist(&["http://[bad"], false)), false) {
        Action::Finish { reason, .. } => assert_eq!(reason, StopReason::BadSegmentUrl),
        _ => panic!("a URI that does not resolve stops the run"),
    }
}
