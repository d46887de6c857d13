use make87::encodings::{Encoder, ProtobufEncoder};
use make87_messages::make87_messages::image::uncompressed::image_raw_any::Image;
use make87_messages::make87_messages::image::uncompressed::ImageRawAny;
use virtual_camera::frame::{extract_yuv420, planes_hold_frame, Plane};
use virtual_camera::message::{frame_message, FrameMessage};

fn plane(data: &[u8], stride: usize) -> Plane<'_> {
    Plane { data, stride }
}

#[test]
fn rows_are_copied_without_padding() {
    let y = [1, 2, 3, 4, 99, 99, 5, 6, 7, 8, 99, 99];
    let u = [21, 22, 99];
    let v = [31, 32, 99, 99];
    let out = extract_yuv420(4, 2, &plane(&y, 6), &plane(&u, 3), &plane(&v, 4));
    assert_eq!(out, vec![1, 2, 3, 4, 5, 6, 7, 8, 21, 22, 31, 32]);
}

#[test]
fn odd_sizes_are_rounded_down_for_chroma() {
    let y = [1, 2, 3, 4, 5, 6, 7, 8, 9];
    let out = extract_yuv420(3, 3, &plane(&y, 3), &plane(&[21, 22], 1), &plane(&[31, 32], 1));
    assert_eq!(out, vec![1, 2, 3, 4, 5, 6, 7, 8, 9, 21, 31]);
    assert!(2 * out.len() <= 3 * 3 * 3);
}

#[test]
fn frames_without_pixels_are_empty() {
    let none = plane(&[], 0);
    assert_eq!(extract_yuv420(0, 0, &none, &none, &none), Vec::<u8>::new());
    assert_eq!(extract_yuv420(0, 5, &none, &none, &none), Vec::<u8>::new());
}

#[test]
fn even_frames_take_half_of_rgb() {
    let y = vec![7; 64 * 48];
    let c = vec![8; 32 * 24];
    let out = extract_yuv420(64, 48, &plane(&y, 64), &plane(&c, 32), &plane(&c, 32));
    assert_eq!(2 * out.len(), 3 * 64 * 48);
}

#[test]
fn last_row_may_end_without_padding() {
    let y = [1, 2, 99, 3, 4];
    assert!(planes_hold_frame(2, 2, &plane(&y, 3), &plane(&[5], 9), &plane(&[6], 9)));
    assert_eq!(
        extract_yuv420(2, 2, &plane(&y, 3), &plane(&[5], 9), &plane(&[6], 9)),
        vec![1, 2, 3, 4, 5, 6]
    );
    assert!(!planes_hold_frame(2, 2, &plane(&y[..4], 3), &plane(&[5], 9), &plane(&[6], 9)));
    assert!(!planes_hold_frame(2, 2, &plane(&y, 3), &plane(&[], 9), &plane(&[6], 9)));
    assert!(!planes_hold_frame(2, 2, &plane(&y, 3), &plane(&[5], 9), &plane(&[], 9)));
    assert!(!planes_hold_frame(2, 2, &plane(&y, usize::MAX), &plane(&[5], 9), &plane(&[6], 9)));
}

fn sample() -> FrameMessage {
    let y = [1, 2, 9, 3, 4, 9];
    frame_message(
        "/virtual_camera_0123abcd",
        1_700_000_000,
        123_456_789,
        2,
        2,
        &plane(&y, 3),
        &plane(&[5], 1),
        &plane(&[6], 1),
    )
}

#[test]
fn message_has_the_fields_of_the_frame() {
    assert_eq!(
        sample(),
        FrameMessage {
            seconds: 1_700_000_000,
            nanos: 123_456_789,
            reference_id: 0,
            entity_path: "/virtual_camera_0123abcd".to_string(),
            width: 2,
            height: 2,
            data: vec![1, 2, 3, 4, 5, 6],
        }
    );
}

#[test]
fn encoded_message_decodes_to_the_frame() {
    let frame = sample();
    assert!(frame.fits());
    let bytes = frame.encode().unwrap();
    let decoded = ProtobufEncoder::<ImageRawAny>::new().decode(&bytes).unwrap();
    let header = decoded.header.unwrap();
    let time = header.timestamp.unwrap();
    assert_eq!((time.seconds, time.nanos), (1_700_000_000, 123_456_789));
    assert_eq!(header.reference_id, 0);
    assert_eq!(header.entity_path, "/virtual_camera_0123abcd");
    match decoded.image {
        Some(Image::Yuv420(image)) => {
            assert_eq!(image.header, Some(header));
            assert_eq!((image.width, image.height), (2, 2));
            assert_eq!(image.data, vec![1, 2, 3, 4, 5, 6]);
        }
        _ => panic!("another kind of image"),
    }
}

#[test]
fn encoded_bytes_are_those_of_the_format() {
    let frame = FrameMessage {
        seconds: 1,
        nanos: 2,
        reference_id: 0,
        entity_path: "p".to_string(),
        width: 3,
        height: 4,
        data: vec![9],
    };
    let header = [0x0a, 9, 0x0a, 4, 8, 1, 16, 2, 0x1a, 1, b'p'];
    let mut expected = header.to_vec();
    expected.extend_from_slice(&[0x22, 18]);
    expected.extend_from_slice(&header);
    expected.extend_from_slice(&[16, 3, 24, 4, 0x22, 1, 9]);
    assert_eq!(frame.encode(), Ok(expected));
}

#[test]
fn overhead_is_bounded() {
    let frame = FrameMessage {
        seconds: -1,
        nanos: -1,
        reference_id: u64::MAX,
        entity_path: "p".repeat(300),
        width: u32::MAX,
        height: u32::MAX,
        data: vec![1; 100_000],
    };
    let bytes = frame.encode().unwrap();
    assert!(bytes.len() > 100_000 + 600);
    assert!(bytes.len() <= 100_000 + 600 + 148);
}
