use virtual_camera::cache::{
    cache_file_path, cache_path, get_url_hash, short_hash, FetchEvent, FetchStep, RemoteSize,
};
use virtual_camera::extension::url_extension;
use virtual_camera::source::find_predefined;
use virtual_camera::text::{chars_of, same_text, to_hex};

#[test]
fn hash_is_the_front_of_the_digest() {
    assert_eq!(get_url_hash(""), "e3b0c44298fc1c14");
    assert_eq!(get_url_hash("abc"), "ba7816bf8f01cfea");
    assert_ne!(get_url_hash("https://a/b.mp4"), get_url_hash("https://a/c.mp4"));
}

#[test]
fn short_hash_reads_eight_bytes() {
    let digest = [0x00, 0x01, 0x0f, 0x10, 0xab, 0xcd, 0xef, 0xff, 0x77, 0x88];
    assert_eq!(short_hash(&digest), "00010f10abcdefff");
    assert_eq!(short_hash(&digest[..8]), "00010f10abcdefff");
}

#[test]
fn hexadecimal_text_has_two_digits_for_each_byte() {
    assert_eq!(to_hex(&[]), "");
    assert_eq!(to_hex(&[0, 9, 10, 15, 16, 255]), "00090a0f10ff");
}

#[test]
fn text_is_compared_by_its_characters() {
    assert!(same_text("", ""));
    assert!(same_text("a\u{e9}", "a\u{e9}"));
    assert!(!same_text("a", "b"));
    assert!(!same_text("a", "ab"));
    assert_eq!(chars_of("a\u{e9}/"), vec!['a', '\u{e9}', '/']);
}

#[test]
fn path_lies_in_the_cache_directory() {
    assert_eq!(cache_file_path("abc"), "cache/ba7816bf8f01cfea.mp4");
    assert_eq!(cache_path("0123", "https://h/v.mov"), "cache/0123.mov");
    for url in ["https://h/../../v.mp4", "a/b/.", "x.m/p4", "x./../y.a/b"] {
        assert_eq!(cache_file_path(url).matches('/').count(), 1);
    }
}

#[test]
fn extension_is_that_of_the_file_name() {
    assert_eq!(url_extension("https://example.com/your-video.mp4"), "mp4");
    assert_eq!(url_extension("https://example.com/clip.webm?token=1"), "webm?token=1");
    assert_eq!(url_extension("https://example.com/clip"), "mp4");
    assert_eq!(url_extension("https://example.com"), "com");
    assert_eq!(url_extension("https://example.com/a.b/.hidden"), "mp4");
    assert_eq!(url_extension("https://example.com/clip."), "");
    assert_eq!(url_extension("https://example.com/clip.\u{e9}/"), "\u{e9}");
    assert_eq!(url_extension(""), "mp4");
}

#[test]
fn extension_agrees_with_the_standard_library() {
    let pieces = ["", ".", "..", "/", "a", "b.c", ".d", "...", "e."];
    let mut paths: Vec<String> = vec![String::new()];
    for _ in 0..4 {
        let mut longer = Vec::new();
        for path in &paths {
            for piece in pieces {
                longer.push(format!("{path}{piece}"));
            }
        }
        paths = longer;
    }
    for path in paths {
        let expected = std::path::Path::new(&path)
            .extension()
            .and_then(|e| e.to_str())
            .unwrap_or("mp4")
            .to_string();
        assert_eq!(url_extension(&path), expected, "{path:?}");
    }
}

#[test]
fn predefined_videos_are_cached_as_mp4() {
    for name in ["city_walk", "highway_traffic_1080", "drone_flight_4k"] {
        let url = find_predefined(name).unwrap();
        assert_eq!(cache_file_path(url), format!("cache/{}.mp4", get_url_hash(url)));
    }
}

#[test]
fn hash_tells_digests_apart_by_eight_bytes() {
    let mut a = [7u8; 32];
    let b = a;
    a[8] = 8;
    assert_eq!(short_hash(&a), short_hash(&b));
    a[7] = 8;
    assert_ne!(short_hash(&a), short_hash(&b));
}

/// The steps of a fetch, each answered in turn.
fn fetch(answers: &[FetchEvent]) -> FetchStep {
    let mut step = FetchStep::CreateDir;
    for &answer in answers {
        assert!(step.admits(answer));
        step = step.next(answer);
    }
    step
}

const CACHED: [FetchEvent; 3] = [
    FetchEvent::DirCreated(true),
    FetchEvent::Existence(true),
    FetchEvent::LocalSize(Some(100)),
];

fn fetch_cached(more: &[FetchEvent]) -> FetchStep {
    let mut answers = CACHED.to_vec();
    answers.extend_from_slice(more);
    fetch(&answers)
}

#[test]
fn missing_file_is_downloaded() {
    let front = [FetchEvent::DirCreated(true), FetchEvent::Existence(false)];
    assert_eq!(fetch(&front), FetchStep::Download);
    assert_eq!(FetchStep::Download.next(FetchEvent::DownloadEnded(true)), FetchStep::Downloaded);
    assert_eq!(FetchStep::Download.next(FetchEvent::DownloadEnded(false)), FetchStep::Failed);
}

#[test]
fn file_of_the_same_size_is_used() {
    assert_eq!(fetch_cached(&[]), FetchStep::QueryRemoteSize { local_size: 100 });
    let same = FetchEvent::RemoteAnswer(RemoteSize::Known(100));
    assert_eq!(fetch_cached(&[same]), FetchStep::UseCached);
}

#[test]
fn file_is_used_where_the_size_cannot_be_learnt() {
    for answer in [RemoteSize::Unknown, RemoteSize::Failed] {
        assert_eq!(fetch_cached(&[FetchEvent::RemoteAnswer(answer)]), FetchStep::UseCached);
    }
}

#[test]
fn file_of_another_size_is_replaced() {
    let other = FetchEvent::RemoteAnswer(RemoteSize::Known(101));
    assert_eq!(fetch_cached(&[other]), FetchStep::Remove);
    assert_eq!(fetch_cached(&[other, FetchEvent::Removed(true)]), FetchStep::Download);
    assert_eq!(fetch_cached(&[other, FetchEvent::Removed(false)]), FetchStep::Failed);
}

#[test]
fn disk_errors_end_the_fetch() {
    assert_eq!(fetch(&[FetchEvent::DirCreated(false)]), FetchStep::Failed);
    assert_eq!(fetch(&[CACHED[0], CACHED[1], FetchEvent::LocalSize(None)]), FetchStep::Failed);
}

#[test]
fn steps_admit_their_own_answers_only() {
    assert!(!FetchStep::CreateDir.admits(FetchEvent::Existence(true)));
    assert!(!FetchStep::UseCached.admits(FetchEvent::DownloadEnded(true)));
    assert!(!FetchStep::Failed.admits(FetchEvent::DirCreated(true)));
}
