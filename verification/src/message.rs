//! The message in which a frame is published.

use vstd::prelude::*;
use vstd::utf8::*;

use make87::encodings::{Encoder, ProtobufEncoder};
use make87_messages::google::protobuf::Timestamp;
use make87_messages::make87_messages::image::uncompressed::image_raw_any::Image;
use make87_messages::make87_messages::image::uncompressed::{ImageRawAny, ImageYuv420};

use crate::frame::{extract_yuv420, yuv420_covered, yuv420_pixels, yuv420_size, Plane};

verus! {

/// The reference identifier that every frame carries.
pub const REFERENCE_ID: u64 = 0;

/// Bytes that the encoding of a frame adds at most to its pixels and to the two
/// copies of its entity path: tags, lengths and numbers.
pub const ENCODING_OVERHEAD: usize = 148;

/// A published frame: a planar 4:2:0 image with the header that it carries
/// both for itself and for the message as a whole.
#[derive(Debug, PartialEq, Eq)]
pub struct FrameMessage {
    /// When the frame was made: seconds since the epoch.
    pub seconds: i64,
    /// When the frame was made: nanoseconds of the second.
    pub nanos: i32,
    pub reference_id: u64,
    pub entity_path: String,
    pub width: u32,
    pub height: u32,
    /// The pixels of the three planes, one plane after the other.
    pub data: Vec<u8>,
}

/// The protocol buffer encoding of an `ImageRawAny` message that holds an
/// `ImageYuv420` of this size with these pixels, both under the same header.
pub uninterp spec fn encoded_image(
    seconds: i64,
    nanos: i32,
    reference_id: u64,
    entity_path: Seq<char>,
    width: u32,
    height: u32,
    data: Seq<u8>,
) -> Seq<u8>;

/// Calls `make87::encodings::ProtobufEncoder::encode` on the message of
/// `make87_messages` that has the fields of `frame`.
///
/// Claimed: it returns bytes that are a function of those fields, at least as
/// many as the pixels and at most `ENCODING_OVERHEAD` more than the pixels and
/// two copies of the path. It fails only where the bytes do not fit in a vector,
/// and panics there too, so such frames are left out.
#[verifier::external_body]
fn encode_image(frame: &FrameMessage) -> (r: Result<Vec<u8>, String>)
    requires
        frame.encodable(),
    ensures
        r is Ok,
        r->Ok_0@ == encoded_image(
            frame.seconds,
            frame.nanos,
            frame.reference_id,
            frame.entity_path@,
            frame.width,
            frame.height,
            frame.data@,
        ),
        frame.data@.len() <= r->Ok_0@.len() <= frame.size_bound(),
{
    let timestamp = Some(Timestamp { seconds: frame.seconds, nanos: frame.nanos });
    let entity_path = frame.entity_path.clone();
    let header = Some(make87_messages::make87_messages::core::Header { timestamp, reference_id: frame.reference_id, entity_path });
    let image = Image::Yuv420(ImageYuv420 {
        header: header.clone(),
        width: frame.width,
        height: frame.height,
        data: frame.data.clone(),
    });
    let message = ImageRawAny { header, image: Some(image) };
    ProtobufEncoder::<ImageRawAny>::new().encode(&message).map_err(|e| e.0)
}

impl FrameMessage {
    /// What the frame is encoded to.
    pub open spec fn encoded(self) -> Seq<u8> {
        encoded_image(
            self.seconds,
            self.nanos,
            self.reference_id,
            self.entity_path@,
            self.width,
            self.height,
            self.data@,
        )
    }

    /// The bytes that the encoded frame takes at most.
    pub open spec fn size_bound(self) -> int {
        self.data@.len() + 2 * encode_utf8(self.entity_path@).len() + ENCODING_OVERHEAD
    }

    /// Whether the encoded frame is small enough for a vector of bytes.
    pub open spec fn encodable(self) -> bool {
        self.size_bound() <= isize::MAX
    }

    /// Whether the encoded frame is small enough for a vector of bytes.
    pub fn fits(&self) -> (r: bool)
        ensures
            r == self.encodable(),
    {
        let path: &[u8] = self.entity_path.as_str().as_bytes();
        let path_len: u128 = path.len() as u128;
        let data_len: u128 = self.data.len() as u128;
        data_len + 2 * path_len + ENCODING_OVERHEAD as u128 <= isize::MAX as u128
    }

    /// Encodes the frame for publishing.
    pub fn encode(&self) -> (r: Result<Vec<u8>, String>)
        requires
            self.encodable(),
        ensures
            r is Ok,
            r->Ok_0@ == self.encoded(),
            r->Ok_0@ == encoded_image(
                self.seconds,
                self.nanos,
                self.reference_id,
                self.entity_path@,
                self.width,
                self.height,
                self.data@,
            ),
            self.data@.len() <= r->Ok_0@.len() <= self.size_bound(),
    {
        encode_image(self)
    }
}

/// Makes the message of a frame out of its planes.
pub fn frame_message(
    entity_path: &str,
    seconds: i64,
    nanos: i32,
    width: u32,
    height: u32,
    y: &Plane,
    u: &Plane,
    v: &Plane,
) -> (r: FrameMessage)
    requires
        yuv420_covered(width as int, height as int, *y, *u, *v),
    ensures
        r.seconds == seconds,
        r.nanos == nanos,
        r.reference_id == REFERENCE_ID,
        r.reference_id == 0,
        r.entity_path@ == entity_path@,
        r.width == width,
        r.height == height,
        r.data@ == yuv420_pixels(width as int, height as int, *y, *u, *v),
        r.data@.len() == yuv420_size(width as int, height as int),
{
    FrameMessage {
        seconds,
        nanos,
        reference_id: REFERENCE_ID,
        entity_path: entity_path.to_string(),
        width,
        height,
        data: extract_yuv420(width, height, y, u, v),
    }
}

/// A frame is encoded with its own time, reference, path, width, height and
/// pixels, each in its own place.
pub proof fn law_frame_is_encoded_as_it_is(
    frame: FrameMessage,
    seconds: i64,
    nanos: i32,
    reference_id: u64,
    entity_path: Seq<char>,
    width: u32,
    height: u32,
    data: Seq<u8>,
)
    requires
        frame.seconds == seconds,
        frame.nanos == nanos,
        frame.reference_id == reference_id,
        frame.entity_path@ == entity_path,
        frame.width == width,
        frame.height == height,
        frame.data@ == data,
    ensures
        frame.encoded() == encoded_image(
            seconds,
            nanos,
            reference_id,
            entity_path,
            width,
            height,
            data,
        ),
{
}

/// A frame can be encoded exactly if its pixels, twice the bytes of its path and
/// the overhead together are no more than a vector can hold.
pub proof fn law_encodable_frames(frame: FrameMessage)
    ensures
        frame.encodable() <==> frame.data@.len() + 2 * encode_utf8(frame.entity_path@).len() + 148
            <= isize::MAX,
        frame.size_bound() == frame.data@.len() + 2 * encode_utf8(frame.entity_path@).len() + 148,
{
}

} // verus!
