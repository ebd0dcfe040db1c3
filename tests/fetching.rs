use std::io::Write;

use m3u8_dl::fetch::{
    attempt_timeout, check_response, decode_body, final_error, is_gzip_encoding,
    is_success_status, mentions_gzip_folded, retry_wait, FetchError, RetryPolicy,
};

fn policy(total: u64, retries: u32, delay: u64) -> RetryPolicy {
    RetryPolicy { total_timeout_ms: total, max_retries: retries, retry_delay_ms: delay }
}

fn gzip(data: &[u8]) -> Vec<u8> {
    let mut enc = flate2::write::GzEncoder::new(Vec::new(), flate2::Compression::default());
    enc.write_all(data).unwrap();
    enc.finish().unwrap()
}

#[test]
fn attempts_get_the_remaining_budget() {
    let p = policy(15000, 2, 500);
    assert_eq!(attempt_timeout(&p, 0, 0), Some(15000));
    assert_eq!(attempt_timeout(&p, 1, 4000), Some(11000));
    assert_eq!(attempt_timeout(&p, 2, 14999), Some(1));
    assert_eq!(attempt_timeout(&p, 3, 0), None);
    assert_eq!(attempt_timeout(&p, 1, 15000), None);
}

#[test]
fn waits_are_capped_by_the_budget() {
    let p = policy(15000, 2, 500);
    assert_eq!(retry_wait(&p, 0, 1000), 500);
    assert_eq!(retry_wait(&p, 1, 14800), 200);
    assert_eq!(retry_wait(&p, 2, 1000), 0);
    assert_eq!(retry_wait(&p, 0, 15000), 0);
}

#[test]
fn failing_fetch_stays_within_budget_whatever_the_retries() {
    // every attempt would hang for a minute: the first one uses the whole budget
    for retries in [0u32, 1, 5, 1000] {
        let p = policy(2000, retries, 300);
        let mut elapsed: u64 = 0;
        let mut attempt: u32 = 0;
        while let Some(t) = attempt_timeout(&p, attempt, elapsed) {
            elapsed += t.min(60000);
            elapsed += retry_wait(&p, attempt, elapsed);
            attempt += 1;
        }
        assert!(elapsed <= 2000);
    }
    // quick failures: retries stop at the budget too
    let p = policy(2000, 1000, 300);
    let mut elapsed: u64 = 0;
    let mut attempt: u32 = 0;
    while let Some(t) = attempt_timeout(&p, attempt, elapsed) {
        elapsed += t.min(10);
        elapsed += retry_wait(&p, attempt, elapsed);
        attempt += 1;
    }
    assert_eq!(elapsed, 2000);
    assert!(attempt < 1000);
}

#[test]
fn final_error_is_last_or_budget() {
    let p = policy(3000, 1, 0);
    assert!(matches!(
        final_error(None, &p),
        FetchError::BudgetExhausted { total_timeout_ms: 3000 }
    ));
    assert!(matches!(final_error(Some(FetchError::TimedOut), &p), FetchError::TimedOut));
}

#[test]
fn success_statuses() {
    assert!(is_success_status(200));
    assert!(is_success_status(299));
    assert!(!is_success_status(199));
    assert!(!is_success_status(300));
    assert!(!is_success_status(404));
}

#[test]
fn gzip_encoding_in_any_case() {
    assert!(is_gzip_encoding("gzip"));
    assert!(is_gzip_encoding("GZIP"));
    assert!(is_gzip_encoding("x-GZip, br"));
    assert!(!is_gzip_encoding("identity"));
    assert!(!is_gzip_encoding(""));
    assert!(mentions_gzip_folded("deflate, gzip"));
    assert!(!mentions_gzip_folded("GZIP"));
}

#[test]
fn bodies_are_decompressed_when_announced() {
    let plain = b"#EXTM3U\n#EXT-X-ENDLIST\n".to_vec();
    let packed = gzip(&plain);
    assert_eq!(decode_body(packed.clone(), true).unwrap(), plain);
    assert_eq!(decode_body(packed.clone(), false).unwrap(), packed);
    assert!(matches!(decode_body(vec![1, 2, 3], true), Err(FetchError::Decode)));
}

#[test]
fn responses_are_checked() {
    let plain = b"segment".to_vec();
    match check_response("http://h/x.ts", 404, None, plain.clone()) {
        Err(FetchError::Status { code, url }) => {
            assert_eq!(code, 404);
            assert_eq!(url, "http://h/x.ts");
        }
        _ => panic!("a 404 must fail"),
    }
    assert_eq!(check_response("u", 200, None, plain.clone()).unwrap(), plain);
    assert_eq!(check_response("u", 206, Some("Gzip"), gzip(&plain)).unwrap(), plain);
    assert_eq!(check_response("u", 200, Some("identity"), plain.clone()).unwrap(), plain);
    assert!(matches!(check_response("u", 200, Some("gzip"), plain), Err(FetchError::Decode)));
}
