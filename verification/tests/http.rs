use virtual_camera::http::{download_refusal, is_success, parse_number, refusal, remote_file_size};

#[test]
fn success_is_the_two_hundreds() {
    assert!(is_success(200));
    assert!(is_success(204));
    assert!(is_success(299));
    assert!(!is_success(199));
    assert!(!is_success(300));
    assert!(!is_success(404));
}

#[test]
fn success_agrees_with_the_client_library() {
    for code in 100..=999u16 {
        let expected = reqwest::StatusCode::from_u16(code).unwrap().is_success();
        assert_eq!(is_success(code), expected);
    }
}

#[test]
fn numbers_are_read_as_the_standard_library_reads_them() {
    for text in [
        "0", "7", "42", "+42", "007", "18446744073709551615", "18446744073709551616",
        "99999999999999999999", "00000000000000000000018446744073709551615", "", "+", "++1", "-1",
        "-0", " 1", "1 ", "1_000", "0x10", "1.0", "1+", "\u{661}",
    ] {
        assert_eq!(parse_number(text.as_bytes()), text.parse::<u64>().ok(), "{text:?}");
    }
    assert_eq!(parse_number(b"123\xff"), None);
    assert_eq!(parse_number(b"1024"), Some(1024));
}

#[test]
fn size_needs_success_and_a_number() {
    let length: &[u8] = b"1024";
    assert_eq!(remote_file_size(200, Some(length)), Some(1024));
    assert_eq!(remote_file_size(206, Some(length)), Some(1024));
    assert_eq!(remote_file_size(404, Some(length)), None);
    assert_eq!(remote_file_size(200, None), None);
    assert_eq!(remote_file_size(200, Some(b"many")), None);
}

#[test]
fn refused_downloads_name_the_status() {
    assert_eq!(download_refusal(200), None);
    assert_eq!(
        download_refusal(404),
        Some("Failed to download file: HTTP 404 Not Found".to_string())
    );
    assert_eq!(
        download_refusal(799),
        Some("Failed to download file: HTTP 799 <unknown status code>".to_string())
    );
    assert_eq!(refusal(true, "x"), None);
    assert_eq!(refusal(false, "x"), Some("Failed to download file: HTTP x".to_string()));
}

#[test]
fn every_status_begins_with_its_number() {
    for code in (100..200u16).chain(300..=999) {
        let message = download_refusal(code).unwrap();
        assert!(message.starts_with(&format!("Failed to download file: HTTP {code} ")));
        assert!(message.len() > "Failed to download file: HTTP 000 ".len());
    }
}
