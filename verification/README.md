# virtual_camera

A camera that plays a video file forever and publishes its frames as raw planar
4:2:0 images. The logic is a library verified with Verus; the program around it
reads and writes files, speaks HTTP, decodes video with FFmpeg and publishes over
Zenoh.

## The library (`src/`)

| Module      | What it holds |
|-------------|---------------|
| `source`    | Which video the configuration asks for: a predefined one or a URL of one's own. |
| `extension` | The file name extension of a URL. |
| `cache`     | The path of a cached video, and when the video is fetched anew. |
| `http`      | What the answers of a video server mean. |
| `entity`    | The entity path of one running camera. |
| `frame`     | The pixels of a frame without the padding of its rows. |
| `message`   | The message in which a frame is published. |
| `playback`  | Endless playback as a state machine of commands and events. |
| `timeline`  | What holds of every run of a playback, seamless looping above all. |
| `text`      | Comparing and searching text, hexadecimal. |

Functions named `law_...` state what holds of the library as a whole.

### What is taken on trust

- `sha2::Sha256`: the digest of a URL is a function of its bytes, thirty-two bytes
  long.
- `serde_json::Value::get` and `as_str`: members by name, and text.
- `uuid::Uuid::new_v4`: the text of a random UUID.
- `reqwest::StatusCode`: the text of a status code.
- `make87::encodings::ProtobufEncoder::encode`: the bytes of a message.

## The program (`app/`)

`app/main.rs` carries out the commands of the playback, `app/decode.rs` wraps
FFmpeg, `app/fetch.rs` has the video on disk. Presentation times in seconds are
floating-point numbers and are computed there.

## Configuration

```yaml
video_source:
  type: predefined
  selection: city_walk  # or highway_traffic, drone_flight
```

A suffix `_4k` or `_1080` chooses the resolution; without one the video comes in
full resolution.

```yaml
video_source:
  type: custom_url
  url: "https://example.com/your-video.mp4"
```
