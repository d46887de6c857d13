use serde_json::Value;
use virtual_camera::source::{
    configured_video_url, find_predefined, get_config_value, read_video_source, resolve_source,
    resolve_video_url, SourceError, VideoSource,
};

const BASE: &str =
    "https://make87-files.nyc3.digitaloceanspaces.com/example-apps/virtual-camera/";

fn json(text: &str) -> Value {
    serde_json::from_str(text).unwrap()
}

fn source(kind: Option<&str>, selection: Option<&str>, url: Option<&str>) -> VideoSource {
    VideoSource {
        kind: kind.map(str::to_string),
        selection: selection.map(str::to_string),
        url: url.map(str::to_string),
    }
}

#[test]
fn every_predefined_video_has_its_url() {
    let expected = [
        ("city_walk_4k", "city_walk.mp4"),
        ("city_walk_1080", "city_walk_1080.mp4"),
        ("highway_traffic_4k", "highway_traffic.mp4"),
        ("highway_traffic_1080", "highway_traffic_1080.mp4"),
        ("drone_flight_4k", "drone_flight.mp4"),
        ("drone_flight_1080", "drone_flight_1080.mp4"),
        ("city_walk", "city_walk.mp4"),
        ("highway_traffic", "highway_traffic.mp4"),
        ("drone_flight", "drone_flight.mp4"),
    ];
    for (name, file) in expected {
        assert_eq!(find_predefined(name), Some(format!("{BASE}{file}").as_str()));
        let found = resolve_source(&source(Some("predefined"), Some(name), None));
        assert_eq!(found, Ok(format!("{BASE}{file}")));
    }
}

#[test]
fn unknown_predefined_videos_are_refused() {
    for name in ["", "city", "City_walk", "city_walk_4K", "city_walk_720"] {
        assert_eq!(find_predefined(name), None);
        assert_eq!(
            resolve_source(&source(Some("predefined"), Some(name), Some("http://a/b.mp4"))),
            Err(SourceError::UnknownSelection(name.to_string()))
        );
    }
}

#[test]
fn custom_url_is_taken_as_it_stands() {
    let url = "https://example.com/your-video.mp4?x=\u{e9}";
    assert_eq!(
        resolve_source(&source(Some("custom_url"), Some("city_walk"), Some(url))),
        Ok(url.to_string())
    );
}

#[test]
fn predefined_ignores_a_url() {
    let with = resolve_source(&source(Some("predefined"), Some("city_walk"), Some("x")));
    let without = resolve_source(&source(Some("predefined"), Some("city_walk"), None));
    assert_eq!(with, without);
}

#[test]
fn each_missing_piece_has_its_error() {
    assert_eq!(resolve_source(&source(None, Some("a"), Some("b"))), Err(SourceError::MissingType));
    assert_eq!(
        resolve_source(&source(Some("predefined"), None, Some("b"))),
        Err(SourceError::MissingSelection)
    );
    assert_eq!(
        resolve_source(&source(Some("custom_url"), Some("a"), None)),
        Err(SourceError::MissingUrl)
    );
    assert_eq!(
        resolve_source(&source(Some("Predefined"), None, None)),
        Err(SourceError::UnknownType("Predefined".to_string()))
    );
}

#[test]
fn json_descriptions_resolve() {
    let found = resolve_video_url(&json(r#"{"type": "predefined", "selection": "city_walk_1080"}"#));
    assert_eq!(found, Ok(format!("{BASE}city_walk_1080.mp4")));
    let found = resolve_video_url(&json(r#"{"type": "custom_url", "url": "http://h/v.mov"}"#));
    assert_eq!(found, Ok("http://h/v.mov".to_string()));
    for text in ["null", "7", "\"predefined\"", "[1]", "{}", r#"{"type": 7}"#, r#"{"type": null}"#] {
        assert_eq!(resolve_video_url(&json(text)), Err(SourceError::MissingType));
    }
    assert_eq!(
        resolve_video_url(&json(r#"{"type": "predefined", "selection": ["city_walk"]}"#)),
        Err(SourceError::MissingSelection)
    );
    assert_eq!(
        resolve_video_url(&json(r#"{"type": "custom_url", "url": 1}"#)),
        Err(SourceError::MissingUrl)
    );
    assert_eq!(
        resolve_video_url(&json(r#"{"type": "rtsp"}"#)),
        Err(SourceError::UnknownType("rtsp".to_string()))
    );
}

#[test]
fn only_string_members_are_read() {
    let read = read_video_source(&json(r#"{"type": "a", "selection": 1, "url": "c", "more": 2}"#));
    assert_eq!(read, source(Some("a"), None, Some("c")));
}

#[test]
fn configuration_members_are_found_by_name() {
    let config = json(r#"{"a": 1, "video_source": {"type": "custom_url", "url": "u"}}"#);
    assert_eq!(get_config_value(&config, "a"), Some(&json("1")));
    assert_eq!(get_config_value(&config, "b"), None);
    assert_eq!(get_config_value(&json("[1, 2]"), "0"), None);
    assert_eq!(configured_video_url(&config), Ok("u".to_string()));
    assert_eq!(configured_video_url(&json(r#"{"a": 1}"#)), Err(SourceError::MissingSource));
    assert_eq!(configured_video_url(&json("null")), Err(SourceError::MissingSource));
}

#[test]
fn errors_say_what_is_wrong() {
    assert_eq!(SourceError::MissingSource.message(), "Missing 'video_source' configuration");
    assert_eq!(SourceError::MissingType.message(), "Missing or invalid video source type");
    assert_eq!(SourceError::MissingSelection.message(), "Missing selection for predefined video");
    assert_eq!(
        SourceError::UnknownSelection("x".to_string()).message(),
        "Unknown predefined video selection: x"
    );
    assert_eq!(SourceError::MissingUrl.message(), "Missing URL for custom video source");
    assert_eq!(
        SourceError::UnknownType("y".to_string()).message(),
        "Unknown video source type: y"
    );
}
