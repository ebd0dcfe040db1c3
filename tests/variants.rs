use m3u8_dl::fps::parse_fps_from_string;
use m3u8_dl::playlist::{
    best_variant_index, extract_frame_rate, is_fmp4_playlist, select_best_variant,
    MasterPlaylist, MediaPlaylist, MediaSegment, Resolution, VariantStream,
};
use url::Url;

fn variant(uri: &str, res: Option<(u64, u64)>, fps_milli: Option<u64>, name: Option<&str>) -> VariantStream {
    VariantStream {
        uri: uri.to_string(),
        resolution: res.map(|(width, height)| Resolution { width, height }),
        frame_rate_milli: fps_milli,
        other_attributes: name
            .map(|n| vec![("NAME".to_string(), n.to_string())])
            .unwrap_or_default(),
    }
}

#[test]
fn best_variant_prefers_area_then_frame_rate() {
    let master = MasterPlaylist {
        variants: vec![
            variant("low.m3u8", Some((640, 360)), Some(30000), None),
            variant("hd30.m3u8", Some((1920, 1080)), Some(30000), None),
            variant("hd60.m3u8", Some((1920, 1080)), Some(60000), None),
        ],
    };
    assert_eq!(best_variant_index(&master.variants), Some(2));
    let base = Url::parse("http://example.com/live/master.m3u8").unwrap();
    let url = select_best_variant(&master, &base).unwrap();
    assert_eq!(url.as_str(), "http://example.com/live/hd60.m3u8");
}

#[test]
fn best_variant_order_does_not_matter() {
    let variants = vec![
        variant("hd60.m3u8", Some((1920, 1080)), Some(60000), None),
        variant("low.m3u8", Some((640, 360)), Some(30000), None),
        variant("hd30.m3u8", Some((1920, 1080)), Some(30000), None),
    ];
    assert_eq!(best_variant_index(&variants), Some(0));
}

#[test]
fn best_variant_takes_last_of_equals() {
    let variants = vec![
        variant("a.m3u8", Some((1280, 720)), None, None),
        variant("b.m3u8", Some((1280, 720)), None, None),
        variant("c.m3u8", None, Some(60000), None),
    ];
    assert_eq!(best_variant_index(&variants), Some(1));
}

#[test]
fn no_variant_no_url() {
    let master = MasterPlaylist { variants: Vec::new() };
    assert_eq!(best_variant_index(&master.variants), None);
    let base = Url::parse("http://example.com/master.m3u8").unwrap();
    assert!(select_best_variant(&master, &base).is_none());
}

#[test]
fn frame_rate_from_name_attribute() {
    let v = variant("x", Some((1920, 1080)), None, Some("FPS:59.94"));
    assert_eq!(extract_frame_rate(&v), 59940);
    let v = variant("x", None, Some(0), Some("1080p FPS:25 main"));
    assert_eq!(extract_frame_rate(&v), 25000);
    let v = variant("x", None, Some(24000), Some("FPS:60"));
    assert_eq!(extract_frame_rate(&v), 24000);
    let v = variant("x", None, None, Some("no rate"));
    assert_eq!(extract_frame_rate(&v), 0);
    let v = variant("x", None, None, None);
    assert_eq!(extract_frame_rate(&v), 0);
}

#[test]
fn frame_rate_decides_between_equal_areas() {
    let variants = vec![
        variant("b", Some((1920, 1080)), None, Some("FPS:60.0")),
        variant("a", Some((1920, 1080)), None, Some("FPS:30.0")),
    ];
    assert_eq!(best_variant_index(&variants), Some(0));
}

#[test]
fn fps_text_forms() {
    assert_eq!(parse_fps_from_string("FPS:30.0"), Some(30000));
    assert_eq!(parse_fps_from_string("FPS:29.97"), Some(29970));
    assert_eq!(parse_fps_from_string("FPS:.5"), Some(500));
    assert_eq!(parse_fps_from_string("FPS:60."), Some(60000));
    assert_eq!(parse_fps_from_string("FPS:23.9761"), Some(23976));
    assert_eq!(parse_fps_from_string("720p FPS:29.97 (main)"), Some(29970));
    assert_eq!(parse_fps_from_string("FPS:30 main"), Some(30000));
    assert_eq!(parse_fps_from_string("FPS:30.0.1"), None);
    assert_eq!(parse_fps_from_string("FPS:abc"), None);
    assert_eq!(parse_fps_from_string("fps:30"), None);
    assert_eq!(parse_fps_from_string(""), None);
    assert_eq!(parse_fps_from_string("FPS:99999999999999999999"), Some(u64::MAX));
}

fn media(maps: &[bool]) -> MediaPlaylist {
    MediaPlaylist {
        segments: maps
            .iter()
            .enumerate()
            .map(|(i, m)| MediaSegment { uri: format!("s{i}.ts"), has_map: *m })
            .collect(),
        end_list: false,
    }
}

#[test]
fn fragmented_when_segments_declare_a_map() {
    assert!(is_fmp4_playlist(&media(&[true, true, true])));
    assert!(!is_fmp4_playlist(&media(&[false, false, false])));
    assert!(is_fmp4_playlist(&media(&[false, true])));
    assert!(!is_fmp4_playlist(&media(&[])));
}
