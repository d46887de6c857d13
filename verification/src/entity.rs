//! The entity path under which one running camera publishes its frames.

use vstd::prelude::*;

use crate::text::is_lower_hex;

verus! {

/// What every entity path begins with.
pub const ENTITY_PREFIX: &'static str = "/virtual_camera_";

/// Characters of the random identifier that go into an entity path.
pub const ENTITY_ID_LENGTH: usize = 8;

/// Whether `text` is a random (version 4) UUID as it is written: lower-case
/// hexadecimal digits in groups of eight, four, four, four and twelve with
/// hyphens between them, the third group beginning with the version and the
/// fourth with the variant.
pub open spec fn is_random_uuid(text: Seq<char>) -> bool {
    &&& text.len() == 36
    &&& forall|i: int|
        0 <= i < 36 ==> if i == 8 || i == 13 || i == 18 || i == 23 {
            #[trigger] text[i] == '-'
        } else {
            is_lower_hex(text[i])
        }
    &&& text[14] == '4'
    &&& text[19] == '8' || text[19] == '9' || text[19] == 'a' || text[19] == 'b'
}

/// The entity path for an identifier.
pub open spec fn entity_path_of(id: Seq<char>) -> Seq<char> {
    ENTITY_PREFIX@ + id.take(ENTITY_ID_LENGTH as int)
}

/// Calls `uuid::Uuid::new_v4` and writes the result with its `Display`.
///
/// Claimed: whatever bits were drawn, the text is that of a random UUID.
/// Nothing is claimed of which one it is. The call panics where the operating
/// system has no randomness to give, which nothing here can rule out.
#[verifier::external_body]
fn random_uuid() -> (r: String)
    ensures
        is_random_uuid(r@),
{
    uuid::Uuid::new_v4().to_string()
}

/// The entity path for an identifier: the prefix and the identifier's first
/// eight characters.
pub fn entity_path(id: &str) -> (r: String)
    requires
        id.is_ascii(),
        id@.len() >= ENTITY_ID_LENGTH,
    ensures
        r@ == entity_path_of(id@),
{
    let mut path = ENTITY_PREFIX.to_string();
    path.append(id.substring_ascii(0, ENTITY_ID_LENGTH));
    assert(id@.subrange(0, ENTITY_ID_LENGTH as int) =~= id@.take(ENTITY_ID_LENGTH as int));
    path
}

/// Draws the entity path of a new camera.
pub fn new_entity_path() -> (r: String)
    ensures
        exists|id: Seq<char>| is_random_uuid(id) && r@ == #[trigger] entity_path_of(id),
{
    let id = random_uuid();
    proof {
        assert forall|i: int| 0 <= i < id@.len() implies id@[i] as nat <= 127 by {
            assert(id@[i] == '-' || is_lower_hex(id@[i]));
        }
        assert(id.is_ascii());
    }
    entity_path(id.as_str())
}

/// An entity path is the prefix and eight lower-case hexadecimal digits,
/// whichever identifier was drawn.
pub proof fn law_entity_path_shape(id: Seq<char>)
    requires
        is_random_uuid(id),
    ensures
        entity_path_of(id).len() == ENTITY_PREFIX@.len() + ENTITY_ID_LENGTH,
        entity_path_of(id).take(ENTITY_PREFIX@.len() as int) == ENTITY_PREFIX@,
        forall|i: int|
            ENTITY_PREFIX@.len() <= i < entity_path_of(id).len() ==> is_lower_hex(
                #[trigger] entity_path_of(id)[i],
            ),
{
    let n = ENTITY_PREFIX@.len() as int;
    assert(entity_path_of(id).take(n) =~= ENTITY_PREFIX@);
    assert forall|i: int| n <= i < entity_path_of(id).len() implies is_lower_hex(
        #[trigger] entity_path_of(id)[i],
    ) by {
        assert(entity_path_of(id)[i] == id[i - n]);
    }
}

/// Cameras whose identifiers differ in their first eight characters publish
/// under different paths.
pub proof fn law_entity_paths_differ(a: Seq<char>, b: Seq<char>)
    requires
        is_random_uuid(a),
        is_random_uuid(b),
        a.take(ENTITY_ID_LENGTH as int) != b.take(ENTITY_ID_LENGTH as int),
    ensures
        entity_path_of(a) != entity_path_of(b),
{
    let n = ENTITY_PREFIX@.len() as int;
    let k = ENTITY_ID_LENGTH as int;
    if entity_path_of(a) == entity_path_of(b) {
        assert(a.take(k) =~= entity_path_of(a).subrange(n, n + k));
        assert(b.take(k) =~= entity_path_of(b).subrange(n, n + k));
    }
}

/// An entity path is the text `/virtual_camera_` and the first eight characters
/// of the identifier, in their order.
pub proof fn law_entity_path_parts(id: Seq<char>)
    requires
        id.len() >= 8,
    ensures
        entity_path_of(id).len() == 24,
        entity_path_of(id).take(16) == "/virtual_camera_"@,
        entity_path_of(id).skip(16) == id.take(8),
{
    reveal_strlit("/virtual_camera_");
    assert(entity_path_of(id).take(16) =~= "/virtual_camera_"@);
    assert(entity_path_of(id).skip(16) =~= id.take(8));
}

} // verus!
