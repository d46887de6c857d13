//! Which video the configuration asks for.

use vstd::prelude::*;

use crate::text::same_text;

use serde_json::Value;

verus! {

/// The key under which the configuration describes the video.
pub const VIDEO_SOURCE_KEY: &'static str = "video_source";

/// A JSON value of `serde_json`.
#[verifier::external_type_specification]
#[verifier::external_body]
pub struct ExValue(serde_json::Value);

/// The members of a JSON value, by their names: none where it is no object.
pub uninterp spec fn members(value: serde_json::Value) -> Map<Seq<char>, serde_json::Value>;

/// The text of a JSON value: none where it is no string.
pub uninterp spec fn text_of(value: serde_json::Value) -> Option<Seq<char>>;

/// Calls `serde_json::Value::get` with a string index.
///
/// Claimed: it returns the member of that name where the value is an object
/// that has one, and nothing otherwise.
#[verifier::external_body]
fn member<'a>(value: &'a Value, name: &str) -> (r: Option<&'a Value>)
    ensures
        match r {
            Some(found) => members(*value).contains_key(name@) && *found == members(*value)[name@],
            None => !members(*value).contains_key(name@),
        },
{
    value.get(name)
}

/// Calls `serde_json::Value::as_str`.
///
/// Claimed: it returns the text where the value is a string, and nothing
/// otherwise.
#[verifier::external_body]
fn text<'a>(value: &'a Value) -> (r: Option<&'a str>)
    ensures
        match r {
            Some(found) => text_of(*value) == Some(found@),
            None => text_of(*value) is None,
        },
{
    value.as_str()
}

/// The text of the member of the given name, where that member is a string.
pub open spec fn member_text(value: Value, name: Seq<char>) -> Option<Seq<char>> {
    if members(value).contains_key(name) {
        text_of(members(value)[name])
    } else {
        None
    }
}

/// The text of an optional string.
pub open spec fn opt_text(text: Option<String>) -> Option<Seq<char>> {
    match text {
        Some(t) => Some(t@),
        None => None,
    }
}

/// What the configuration says of the video: the members that are strings.
#[derive(Debug, PartialEq, Eq)]
pub struct VideoSource {
    /// The kind of source.
    pub kind: Option<String>,
    /// The name of a predefined video.
    pub selection: Option<String>,
    /// The URL of a video of one's own.
    pub url: Option<String>,
}

/// Why no video can be determined.
#[derive(Debug, PartialEq, Eq)]
pub enum SourceError {
    /// The configuration has no video source.
    MissingSource,
    /// The kind of source is missing or no string.
    MissingType,
    /// A predefined video is asked for without its name.
    MissingSelection,
    /// There is no predefined video of this name.
    UnknownSelection(String),
    /// A video of one's own is asked for without its URL.
    MissingUrl,
    /// There is no such kind of source.
    UnknownType(String),
}

/// An error over text.
pub enum SourceFault {
    MissingSource,
    MissingType,
    MissingSelection,
    UnknownSelection(Seq<char>),
    MissingUrl,
    UnknownType(Seq<char>),
}

impl View for SourceError {
    type V = SourceFault;

    open spec fn view(&self) -> SourceFault {
        match *self {
            SourceError::MissingSource => SourceFault::MissingSource,
            SourceError::MissingType => SourceFault::MissingType,
            SourceError::MissingSelection => SourceFault::MissingSelection,
            SourceError::UnknownSelection(name) => SourceFault::UnknownSelection(name@),
            SourceError::MissingUrl => SourceFault::MissingUrl,
            SourceError::UnknownType(kind) => SourceFault::UnknownType(kind@),
        }
    }
}

/// The outcome of a resolution over text.
pub open spec fn outcome(result: Result<String, SourceError>) -> Result<Seq<char>, SourceFault> {
    match result {
        Ok(url) => Ok(url@),
        Err(error) => Err(error@),
    }
}

/// The URL of a predefined video. A name without a resolution stands for the
/// video in full resolution.
pub open spec fn predefined_url(name: Seq<char>) -> Option<Seq<char>> {
    if name == "city_walk"@ || name == "city_walk_4k"@ {
        Some(CITY_WALK_4K@)
    } else if name == "city_walk_1080"@ {
        Some(CITY_WALK_1080@)
    } else if name == "highway_traffic"@ || name == "highway_traffic_4k"@ {
        Some(HIGHWAY_TRAFFIC_4K@)
    } else if name == "highway_traffic_1080"@ {
        Some(HIGHWAY_TRAFFIC_1080@)
    } else if name == "drone_flight"@ || name == "drone_flight_4k"@ {
        Some(DRONE_FLIGHT_4K@)
    } else if name == "drone_flight_1080"@ {
        Some(DRONE_FLIGHT_1080@)
    } else {
        None
    }
}

pub const CITY_WALK_4K: &'static str = "https://make87-files.nyc3.digitaloceanspaces.com/example-apps/virtual-camera/city_walk.mp4";

pub const CITY_WALK_1080: &'static str = "https://make87-files.nyc3.digitaloceanspaces.com/example-apps/virtual-camera/city_walk_1080.mp4";

pub const HIGHWAY_TRAFFIC_4K: &'static str = "https://make87-files.nyc3.digitaloceanspaces.com/example-apps/virtual-camera/highway_traffic.mp4";

pub const HIGHWAY_TRAFFIC_1080: &'static str = "https://make87-files.nyc3.digitaloceanspaces.com/example-apps/virtual-camera/highway_traffic_1080.mp4";

pub const DRONE_FLIGHT_4K: &'static str = "https://make87-files.nyc3.digitaloceanspaces.com/example-apps/virtual-camera/drone_flight.mp4";

pub const DRONE_FLIGHT_1080: &'static str = "https://make87-files.nyc3.digitaloceanspaces.com/example-apps/virtual-camera/drone_flight_1080.mp4";

/// What a description of a video resolves to.
pub open spec fn resolved(
    kind: Option<Seq<char>>,
    selection: Option<Seq<char>>,
    url: Option<Seq<char>>,
) -> Result<Seq<char>, SourceFault> {
    match kind {
        None => Err(SourceFault::MissingType),
        Some(k) => if k == "predefined"@ {
            match selection {
                None => Err(SourceFault::MissingSelection),
                Some(name) => match predefined_url(name) {
                    Some(found) => Ok(found),
                    None => Err(SourceFault::UnknownSelection(name)),
                },
            }
        } else if k == "custom_url"@ {
            match url {
                None => Err(SourceFault::MissingUrl),
                Some(found) => Ok(found),
            }
        } else {
            Err(SourceFault::UnknownType(k))
        },
    }
}

/// What a JSON description of a video resolves to.
pub open spec fn resolved_value(value: Value) -> Result<Seq<char>, SourceFault> {
    resolved(
        member_text(value, "type"@),
        member_text(value, "selection"@),
        member_text(value, "url"@),
    )
}

/// The text of the member of the given name, where that member is a string.
fn string_member(value: &Value, name: &str) -> (r: Option<String>)
    ensures
        opt_text(r) == member_text(*value, name@),
{
    match member(value, name) {
        Some(found) => match text(found) {
            Some(t) => Some(t.to_string()),
            None => None,
        },
        None => None,
    }
}

/// Reads the description of a video.
pub fn read_video_source(value: &Value) -> (r: VideoSource)
    ensures
        opt_text(r.kind) == member_text(*value, "type"@),
        opt_text(r.selection) == member_text(*value, "selection"@),
        opt_text(r.url) == member_text(*value, "url"@),
{
    VideoSource {
        kind: string_member(value, "type"),
        selection: string_member(value, "selection"),
        url: string_member(value, "url"),
    }
}

/// The URL of the predefined video of the given name.
pub fn find_predefined(name: &str) -> (r: Option<&'static str>)
    ensures
        match r {
            Some(url) => predefined_url(name@) == Some(url@),
            None => predefined_url(name@) is None,
        },
{
    if same_text(name, "city_walk") || same_text(name, "city_walk_4k") {
        Some(CITY_WALK_4K)
    } else if same_text(name, "city_walk_1080") {
        Some(CITY_WALK_1080)
    } else if same_text(name, "highway_traffic") || same_text(name, "highway_traffic_4k") {
        Some(HIGHWAY_TRAFFIC_4K)
    } else if same_text(name, "highway_traffic_1080") {
        Some(HIGHWAY_TRAFFIC_1080)
    } else if same_text(name, "drone_flight") || same_text(name, "drone_flight_4k") {
        Some(DRONE_FLIGHT_4K)
    } else if same_text(name, "drone_flight_1080") {
        Some(DRONE_FLIGHT_1080)
    } else {
        None
    }
}

/// The URL of the video that a description asks for.
pub fn resolve_source(source: &VideoSource) -> (r: Result<String, SourceError>)
    ensures
        outcome(r) == resolved(
            opt_text(source.kind),
            opt_text(source.selection),
            opt_text(source.url),
        ),
{
    let kind: &String = match &source.kind {
        Some(kind) => kind,
        None => {
            return Err(SourceError::MissingType);
        },
    };
    if same_text(kind.as_str(), "predefined") {
        match &source.selection {
            Some(name) => match find_predefined(name.as_str()) {
                Some(url) => Ok(url.to_string()),
                None => Err(SourceError::UnknownSelection(name.clone())),
            },
            None => Err(SourceError::MissingSelection),
        }
    } else if same_text(kind.as_str(), "custom_url") {
        match &source.url {
            Some(url) => Ok(url.clone()),
            None => Err(SourceError::MissingUrl),
        }
    } else {
        Err(SourceError::UnknownType(kind.clone()))
    }
}

/// The URL of the video that a JSON description asks for.
pub fn resolve_video_url(video_source: &Value) -> (r: Result<String, SourceError>)
    ensures
        outcome(r) == resolved_value(*video_source),
{
    let source = read_video_source(video_source);
    resolve_source(&source)
}

/// The member of the configuration that has the given key.
pub fn get_config_value<'a>(config: &'a Value, key: &str) -> (r: Option<&'a Value>)
    ensures
        match r {
            Some(found) => members(*config).contains_key(key@) && *found == members(*config)[key@],
            None => !members(*config).contains_key(key@),
        },
{
    member(config, key)
}

/// The URL of the video that the configuration asks for.
pub fn configured_video_url(config: &Value) -> (r: Result<String, SourceError>)
    ensures
        outcome(r) == if members(*config).contains_key(VIDEO_SOURCE_KEY@) {
            resolved_value(members(*config)[VIDEO_SOURCE_KEY@])
        } else {
            Err(SourceFault::MissingSource)
        },
        members(*config).contains_key("video_source"@) ==> outcome(r) == resolved_value(
            members(*config)["video_source"@],
        ),
        !members(*config).contains_key("video_source"@) ==> outcome(r) == Err::<
            Seq<char>,
            SourceFault,
        >(SourceFault::MissingSource),
{
    match get_config_value(config, VIDEO_SOURCE_KEY) {
        Some(video_source) => resolve_video_url(video_source),
        None => Err(SourceError::MissingSource),
    }
}

/// What a reader is told of an error.
pub open spec fn message_of(error: SourceFault) -> Seq<char> {
    match error {
        SourceFault::MissingSource => "Missing 'video_source' configuration"@,
        SourceFault::MissingType => "Missing or invalid video source type"@,
        SourceFault::MissingSelection => "Missing selection for predefined video"@,
        SourceFault::UnknownSelection(name) => "Unknown predefined video selection: "@ + name,
        SourceFault::MissingUrl => "Missing URL for custom video source"@,
        SourceFault::UnknownType(kind) => "Unknown video source type: "@ + kind,
    }
}

impl SourceError {
    /// What a reader is told of the error.
    pub fn message(&self) -> (r: String)
        ensures
            r@ == message_of(self@),
    {
        match self {
            SourceError::MissingSource => "Missing 'video_source' configuration".to_string(),
            SourceError::MissingType => "Missing or invalid video source type".to_string(),
            SourceError::MissingSelection => "Missing selection for predefined video".to_string(),
            SourceError::UnknownSelection(name) => {
                let mut text = "Unknown predefined video selection: ".to_string();
                text.append(name.as_str());
                text
            },
            SourceError::MissingUrl => "Missing URL for custom video source".to_string(),
            SourceError::UnknownType(kind) => {
                let mut text = "Unknown video source type: ".to_string();
                text.append(kind.as_str());
                text
            },
        }
    }
}

/// The URL of one's own video is taken as it stands, whatever else the
/// description holds.
pub proof fn law_custom_url_is_kept(selection: Option<Seq<char>>, url: Seq<char>)
    ensures
        resolved(Some("custom_url"@), selection, Some(url)) == Ok::<Seq<char>, SourceFault>(url),
{
    reveal_strlit("predefined");
    reveal_strlit("custom_url");
    assert("predefined"@[0] != "custom_url"@[0]);
}

/// A predefined video does not depend on a URL in the description.
pub proof fn law_predefined_ignores_url(
    name: Seq<char>,
    url: Option<Seq<char>>,
    other: Option<Seq<char>>,
)
    ensures
        resolved(Some("predefined"@), Some(name), url) == resolved(
            Some("predefined"@),
            Some(name),
            other,
        ),
        resolved(Some("predefined"@), Some(name), url) is Ok <==> predefined_url(name) is Some,
{
}

/// No two names of predefined videos are the same.
proof fn lemma_names_differ()
    ensures
        "city_walk_4k"@ != "city_walk_1080"@,
        "city_walk_4k"@ != "highway_traffic_4k"@,
        "city_walk_4k"@ != "highway_traffic_1080"@,
        "city_walk_4k"@ != "drone_flight_4k"@,
        "city_walk_4k"@ != "drone_flight_1080"@,
        "city_walk_4k"@ != "city_walk"@,
        "city_walk_4k"@ != "highway_traffic"@,
        "city_walk_4k"@ != "drone_flight"@,
        "city_walk_1080"@ != "highway_traffic_4k"@,
        "city_walk_1080"@ != "highway_traffic_1080"@,
        "city_walk_1080"@ != "drone_flight_4k"@,
        "city_walk_1080"@ != "drone_flight_1080"@,
        "city_walk_1080"@ != "city_walk"@,
        "city_walk_1080"@ != "highway_traffic"@,
        "city_walk_1080"@ != "drone_flight"@,
        "highway_traffic_4k"@ != "highway_traffic_1080"@,
        "highway_traffic_4k"@ != "drone_flight_4k"@,
        "highway_traffic_4k"@ != "drone_flight_1080"@,
        "highway_traffic_4k"@ != "city_walk"@,
        "highway_traffic_4k"@ != "highway_traffic"@,
        "highway_traffic_4k"@ != "drone_flight"@,
        "highway_traffic_1080"@ != "drone_flight_4k"@,
        "highway_traffic_1080"@ != "drone_flight_1080"@,
        "highway_traffic_1080"@ != "city_walk"@,
        "highway_traffic_1080"@ != "highway_traffic"@,
        "highway_traffic_1080"@ != "drone_flight"@,
        "drone_flight_4k"@ != "drone_flight_1080"@,
        "drone_flight_4k"@ != "city_walk"@,
        "drone_flight_4k"@ != "highway_traffic"@,
        "drone_flight_4k"@ != "drone_flight"@,
        "drone_flight_1080"@ != "city_walk"@,
        "drone_flight_1080"@ != "highway_traffic"@,
        "drone_flight_1080"@ != "drone_flight"@,
        "city_walk"@ != "highway_traffic"@,
        "city_walk"@ != "drone_flight"@,
        "highway_traffic"@ != "drone_flight"@,
        "predefined"@ != "custom_url"@,
{
    reveal_strlit("city_walk_4k");
    reveal_strlit("city_walk_1080");
    reveal_strlit("highway_traffic_4k");
    reveal_strlit("highway_traffic_1080");
    reveal_strlit("drone_flight_4k");
    reveal_strlit("drone_flight_1080");
    reveal_strlit("city_walk");
    reveal_strlit("highway_traffic");
    reveal_strlit("drone_flight");
    reveal_strlit("predefined");
    reveal_strlit("custom_url");
    assert("city_walk"@[0] == 'c' && "highway_traffic"@[0] == 'h' && "drone_flight"@[0] == 'd');
    assert("city_walk_4k"@[0] == 'c' && "highway_traffic_4k"@[0] == 'h' && "drone_flight_4k"@[0]
        == 'd');
    assert("city_walk_1080"@[0] == 'c' && "highway_traffic_1080"@[0] == 'h'
        && "drone_flight_1080"@[0] == 'd');
    assert("city_walk"@.len() == 9 && "city_walk_4k"@.len() == 12 && "city_walk_1080"@.len() == 14);
    assert("highway_traffic"@.len() == 15 && "highway_traffic_4k"@.len() == 18
        && "highway_traffic_1080"@.len() == 20);
    assert("drone_flight"@.len() == 12 && "drone_flight_4k"@.len() == 15
        && "drone_flight_1080"@.len() == 17);
    assert("predefined"@[0] == 'p' && "custom_url"@[0] == 'c');
}

/// Each predefined video has its own URL, whatever URL the description holds
/// beside the name, and no other name has one.
pub proof fn law_predefined_table(name: Seq<char>, url: Option<Seq<char>>)
    ensures
        name == "city_walk_4k"@ ==> resolved(Some("predefined"@), Some(name), url) == Ok::<Seq<char>, SourceFault>(
            "https://make87-files.nyc3.digitaloceanspaces.com/example-apps/virtual-camera/city_walk.mp4"@,
        ),
        name == "city_walk_1080"@ ==> resolved(Some("predefined"@), Some(name), url) == Ok::<Seq<char>, SourceFault>(
            "https://make87-files.nyc3.digitaloceanspaces.com/example-apps/virtual-camera/city_walk_1080.mp4"@,
        ),
        name == "highway_traffic_4k"@ ==> resolved(Some("predefined"@), Some(name), url) == Ok::<Seq<char>, SourceFault>(
            "https://make87-files.nyc3.digitaloceanspaces.com/example-apps/virtual-camera/highway_traffic.mp4"@,
        ),
        name == "highway_traffic_1080"@ ==> resolved(Some("predefined"@), Some(name), url) == Ok::<Seq<char>, SourceFault>(
            "https://make87-files.nyc3.digitaloceanspaces.com/example-apps/virtual-camera/highway_traffic_1080.mp4"@,
        ),
        name == "drone_flight_4k"@ ==> resolved(Some("predefined"@), Some(name), url) == Ok::<Seq<char>, SourceFault>(
            "https://make87-files.nyc3.digitaloceanspaces.com/example-apps/virtual-camera/drone_flight.mp4"@,
        ),
        name == "drone_flight_1080"@ ==> resolved(Some("predefined"@), Some(name), url) == Ok::<Seq<char>, SourceFault>(
            "https://make87-files.nyc3.digitaloceanspaces.com/example-apps/virtual-camera/drone_flight_1080.mp4"@,
        ),
        name == "city_walk"@ ==> resolved(Some("predefined"@), Some(name), url) == Ok::<Seq<char>, SourceFault>(
            "https://make87-files.nyc3.digitaloceanspaces.com/example-apps/virtual-camera/city_walk.mp4"@,
        ),
        name == "highway_traffic"@ ==> resolved(Some("predefined"@), Some(name), url) == Ok::<Seq<char>, SourceFault>(
            "https://make87-files.nyc3.digitaloceanspaces.com/example-apps/virtual-camera/highway_traffic.mp4"@,
        ),
        name == "drone_flight"@ ==> resolved(Some("predefined"@), Some(name), url) == Ok::<Seq<char>, SourceFault>(
            "https://make87-files.nyc3.digitaloceanspaces.com/example-apps/virtual-camera/drone_flight.mp4"@,
        ),
        name != "city_walk_4k"@ && name != "city_walk_1080"@ && name != "city_walk"@
            && name != "highway_traffic_4k"@ && name != "highway_traffic_1080"@
            && name != "highway_traffic"@ && name != "drone_flight_4k"@
            && name != "drone_flight_1080"@ && name != "drone_flight"@
            ==> resolved(Some("predefined"@), Some(name), url) == Err::<Seq<char>, SourceFault>(SourceFault::UnknownSelection(name)),
{
    lemma_names_differ();
}

/// A JSON description of a predefined video resolves to the URL of the video
/// whose name its member `selection` holds, and to an error that tells that name
/// where there is no such video.
pub proof fn law_selection_decides(value: Value, name: Seq<char>)
    requires
        members(value).contains_key("type"@),
        text_of(members(value)["type"@]) == Some("predefined"@),
        members(value).contains_key("selection"@),
        text_of(members(value)["selection"@]) == Some(name),
    ensures
        name == "city_walk_4k"@ ==> resolved_value(value) == Ok::<Seq<char>, SourceFault>(
            "https://make87-files.nyc3.digitaloceanspaces.com/example-apps/virtual-camera/city_walk.mp4"@,
        ),
        name == "city_walk_1080"@ ==> resolved_value(value) == Ok::<Seq<char>, SourceFault>(
            "https://make87-files.nyc3.digitaloceanspaces.com/example-apps/virtual-camera/city_walk_1080.mp4"@,
        ),
        name == "highway_traffic_4k"@ ==> resolved_value(value) == Ok::<Seq<char>, SourceFault>(
            "https://make87-files.nyc3.digitaloceanspaces.com/example-apps/virtual-camera/highway_traffic.mp4"@,
        ),
        name == "highway_traffic_1080"@ ==> resolved_value(value) == Ok::<Seq<char>, SourceFault>(
            "https://make87-files.nyc3.digitaloceanspaces.com/example-apps/virtual-camera/highway_traffic_1080.mp4"@,
        ),
        name == "drone_flight_4k"@ ==> resolved_value(value) == Ok::<Seq<char>, SourceFault>(
            "https://make87-files.nyc3.digitaloceanspaces.com/example-apps/virtual-camera/drone_flight.mp4"@,
        ),
        name == "drone_flight_1080"@ ==> resolved_value(value) == Ok::<Seq<char>, SourceFault>(
            "https://make87-files.nyc3.digitaloceanspaces.com/example-apps/virtual-camera/drone_flight_1080.mp4"@,
        ),
        name == "city_walk"@ ==> resolved_value(value) == Ok::<Seq<char>, SourceFault>(
            "https://make87-files.nyc3.digitaloceanspaces.com/example-apps/virtual-camera/city_walk.mp4"@,
        ),
        name == "highway_traffic"@ ==> resolved_value(value) == Ok::<Seq<char>, SourceFault>(
            "https://make87-files.nyc3.digitaloceanspaces.com/example-apps/virtual-camera/highway_traffic.mp4"@,
        ),
        name == "drone_flight"@ ==> resolved_value(value) == Ok::<Seq<char>, SourceFault>(
            "https://make87-files.nyc3.digitaloceanspaces.com/example-apps/virtual-camera/drone_flight.mp4"@,
        ),
        name != "city_walk_4k"@ && name != "city_walk_1080"@ && name != "city_walk"@
            && name != "highway_traffic_4k"@ && name != "highway_traffic_1080"@
            && name != "highway_traffic"@ && name != "drone_flight_4k"@
            && name != "drone_flight_1080"@ && name != "drone_flight"@
            ==> resolved_value(value) == Err::<Seq<char>, SourceFault>(SourceFault::UnknownSelection(name)),
{
    law_predefined_table(name, member_text(value, "url"@));
}

/// A JSON description of one's own video resolves to the text of its member
/// `url`, as it stands.
pub proof fn law_url_member_is_kept(value: Value, url: Seq<char>)
    requires
        members(value).contains_key("type"@),
        text_of(members(value)["type"@]) == Some("custom_url"@),
        members(value).contains_key("url"@),
        text_of(members(value)["url"@]) == Some(url),
    ensures
        resolved_value(value) == Ok::<Seq<char>, SourceFault>(url),
{
    lemma_names_differ();
}

/// What is missing from a JSON description, or is no text, has its own error;
/// and a kind of source that does not exist is told in the error.
pub proof fn law_incomplete_descriptions(value: Value)
    ensures
        ({
            let given = |name: Seq<char>|
                members(value).contains_key(name) && text_of(members(value)[name]) is Some;
            let kind = text_of(members(value)["type"@]);
            let fault = |f: SourceFault|
                resolved_value(value) == Err::<Seq<char>, SourceFault>(f);
            &&& !given("type"@) <==> fault(SourceFault::MissingType)
            &&& given("type"@) && kind == Some("predefined"@) && !given("selection"@) <==> fault(
                SourceFault::MissingSelection,
            )
            &&& given("type"@) && kind == Some("custom_url"@) && !given("url"@) <==> fault(
                SourceFault::MissingUrl,
            )
            &&& given("type"@) && kind != Some("predefined"@) && kind != Some("custom_url"@)
                ==> fault(SourceFault::UnknownType(kind->0))
            &&& !fault(SourceFault::MissingSource)
        }),
{
    lemma_names_differ();
}

/// Errors and results keep their text when they are seen as text.
pub proof fn law_outcomes_keep_their_text(text: String)
    ensures
        outcome(Ok(text)) == Ok::<Seq<char>, SourceFault>(text@),
        SourceError::UnknownSelection(text)@ == SourceFault::UnknownSelection(text@),
        SourceError::UnknownType(text)@ == SourceFault::UnknownType(text@),
        outcome(Err(SourceError::UnknownSelection(text))) == Err::<Seq<char>, SourceFault>(
            SourceFault::UnknownSelection(text@),
        ),
        outcome(Err(SourceError::UnknownType(text))) == Err::<Seq<char>, SourceFault>(
            SourceFault::UnknownType(text@),
        ),
        opt_text(Some(text)) == Some(text@),
        opt_text(None) is None,
{
}

/// A message about a name ends in that name, whole.
pub proof fn law_messages_tell_the_name(name: Seq<char>)
    ensures
        message_of(SourceFault::UnknownSelection(name)).skip(36) == name,
        message_of(SourceFault::UnknownSelection(name)).take(36)
            == "Unknown predefined video selection: "@,
        message_of(SourceFault::UnknownType(name)).skip(27) == name,
        message_of(SourceFault::UnknownType(name)).take(27) == "Unknown video source type: "@,
{
    reveal_strlit("Unknown predefined video selection: ");
    reveal_strlit("Unknown video source type: ");
    assert(message_of(SourceFault::UnknownSelection(name)).skip(36) =~= name);
    assert(message_of(SourceFault::UnknownSelection(name)).take(36)
        =~= "Unknown predefined video selection: "@);
    assert(message_of(SourceFault::UnknownType(name)).skip(27) =~= name);
    assert(message_of(SourceFault::UnknownType(name)).take(27) =~= "Unknown video source type: "@);
}

} // verus!
