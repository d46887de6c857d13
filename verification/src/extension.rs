//! The file name extension of a slash-separated path, URLs among them.

use vstd::prelude::*;

use crate::text::{chars_of, last_position, lemma_last_position, lemma_last_position_unique};

verus! {

/// The extension of a file whose path has none.
pub const DEFAULT_EXTENSION: &'static str = "mp4";

/// The file name of a path: its last segment between slashes, where empty
/// segments and segments that are a single dot do not count. A path whose last
/// segment is two dots has no file name, and neither has one without segments.
pub open spec fn file_name(path: Seq<char>) -> Option<Seq<char>>
    decreases path.len(),
{
    let slash = last_position(path, '/');
    let segment = path.skip(slash + 1);
    if segment.len() == 0 || segment == seq!['.'] {
        if 0 <= slash < path.len() {
            file_name(path.take(slash))
        } else {
            None
        }
    } else if segment == seq!['.', '.'] {
        None
    } else {
        Some(segment)
    }
}

/// What follows the last dot of a file name. A dot at the very front does not
/// count.
pub open spec fn name_extension(name: Seq<char>) -> Option<Seq<char>> {
    let dot = last_position(name, '.');
    if dot > 0 {
        Some(name.skip(dot + 1))
    } else {
        None
    }
}

/// The extension of a path, `mp4` where it has none.
pub open spec fn extension_of(path: Seq<char>) -> Seq<char> {
    match file_name(path) {
        Some(name) => match name_extension(name) {
            Some(extension) => extension,
            None => DEFAULT_EXTENSION@,
        },
        None => DEFAULT_EXTENSION@,
    }
}

/// The last position of `c` among the first `end` characters, and one more;
/// zero where there is none.
fn after_last(chars: &Vec<char>, end: usize, c: char) -> (r: usize)
    requires
        end <= chars@.len(),
    ensures
        r == last_position(chars@.take(end as int), c) + 1,
        r <= end,
{
    let ghost front = chars@.take(end as int);
    let mut i: usize = end;
    while i > 0 && chars[i - 1] != c
        invariant
            i <= end <= chars@.len(),
            front == chars@.take(end as int),
            forall|k: int| i <= k < end ==> front[k] != c,
        decreases i,
    {
        i -= 1;
    }
    proof {
        lemma_last_position_unique(front, c, i - 1);
    }
    i
}

/// The bounds of the file name in a path.
fn file_name_bounds(chars: &Vec<char>) -> (r: Option<(usize, usize)>)
    ensures
        match r {
            Some((from, to)) => {
                &&& from < to <= chars@.len()
                &&& file_name(chars@) == Some(chars@.subrange(from as int, to as int))
            },
            None => file_name(chars@) is None,
        },
{
    let mut end: usize = chars.len();
    assert(chars@.take(end as int) =~= chars@);
    loop
        invariant
            end <= chars@.len(),
            file_name(chars@) == file_name(chars@.take(end as int)),
        decreases end,
    {
        let start: usize = after_last(chars, end, '/');
        let ghost path = chars@.take(end as int);
        let ghost segment = path.skip(start as int);
        proof {
            lemma_last_position(path, '/');
            assert(segment =~= chars@.subrange(start as int, end as int));
            assert(segment == seq!['.'] <==> segment.len() == 1 && segment[0] == '.') by {
                if segment.len() == 1 && segment[0] == '.' {
                    assert(segment =~= seq!['.']);
                }
            }
            assert(segment == seq!['.', '.'] <==> segment.len() == 2 && segment[0] == '.'
                && segment[1] == '.') by {
                if segment.len() == 2 && segment[0] == '.' && segment[1] == '.' {
                    assert(segment =~= seq!['.', '.']);
                }
            }
            if start > 0 {
                assert(path.take(start - 1) =~= chars@.take(start - 1));
            }
        }
        let skipped: bool = end - start == 0 || (end - start == 1 && chars[start] == '.');
        if !skipped {
            if end - start == 2 && chars[start] == '.' && chars[start + 1] == '.' {
                return None;
            }
            return Some((start, end));
        }
        if start == 0 {
            return None;
        }
        end = start - 1;
    }
}

/// The extension of the file that a URL names, `mp4` where it has none.
pub fn url_extension(url: &str) -> (r: String)
    ensures
        r@ == extension_of(url@),
{
    let chars = chars_of(url);
    match file_name_bounds(&chars) {
        Some((from, to)) => {
            let ghost name = chars@.subrange(from as int, to as int);
            let dot: usize = last_dot(&chars, from, to);
            if dot > from {
                proof {
                    assert(name.skip(dot - from + 1) =~= url@.subrange(dot + 1, to as int));
                }
                return url.substring_char(dot + 1, to).to_string();
            }
            DEFAULT_EXTENSION.to_string()
        },
        None => DEFAULT_EXTENSION.to_string(),
    }
}

/// The position of the last dot between two bounds, or the lower bound where
/// there is none.
fn last_dot(chars: &Vec<char>, from: usize, to: usize) -> (r: usize)
    requires
        from < to <= chars@.len(),
    ensures
        from <= r < to,
        ({
            let dot = last_position(chars@.subrange(from as int, to as int), '.');
            r - from == if dot > 0 {
                dot
            } else {
                0
            }
        }),
{
    let ghost name = chars@.subrange(from as int, to as int);
    let mut i: usize = to - 1;
    while i > from && chars[i] != '.'
        invariant
            from <= i < to <= chars@.len(),
            name == chars@.subrange(from as int, to as int),
            forall|k: int| i - from < k < name.len() ==> name[k] != '.',
        decreases i,
    {
        i -= 1;
    }
    proof {
        if name[i - from] == '.' {
            lemma_last_position_unique(name, '.', i - from);
        } else {
            lemma_last_position_unique(name, '.', -1);
        }
    }
    i
}

/// A file name holds no slash and is neither empty nor one or two dots.
pub proof fn law_file_name_is_one_segment(path: Seq<char>)
    ensures
        file_name(path) matches Some(name) ==> {
            &&& name.len() > 0
            &&& name != seq!['.']
            &&& name != seq!['.', '.']
            &&& !name.contains('/')
        },
    decreases path.len(),
{
    lemma_last_position(path, '/');
    let slash = last_position(path, '/');
    let segment = path.skip(slash + 1);
    if segment.len() == 0 || segment == seq!['.'] {
        if 0 <= slash {
            law_file_name_is_one_segment(path.take(slash));
        }
    }
}

/// An extension holds neither a slash nor a dot.
pub proof fn law_extension_is_plain(path: Seq<char>)
    ensures
        !extension_of(path).contains('/'),
        !extension_of(path).contains('.'),
{
    reveal_strlit("mp4");
    law_file_name_is_one_segment(path);
    if let Some(name) = file_name(path) {
        lemma_last_position(name, '.');
        let dot = last_position(name, '.');
        if dot > 0 {
            let extension = name.skip(dot + 1);
            assert forall|i: int| 0 <= i < extension.len() implies extension[i] != '/'
                && extension[i] != '.' by {
                assert(extension[i] == name[dot + 1 + i]);
                assert(name.contains(name[dot + 1 + i]));
            }
        }
    }
}

/// A path that ends in a slash, some characters, a dot and an extension has
/// that extension.
pub proof fn law_extension_read_back(dir: Seq<char>, stem: Seq<char>, extension: Seq<char>)
    requires
        stem.len() > 0,
        !stem.contains('/'),
        !extension.contains('/'),
        !extension.contains('.'),
        stem + seq!['.'] + extension != seq!['.', '.'],
    ensures
        extension_of(dir + seq!['/'] + stem + seq!['.'] + extension) == extension,
{
    let name = stem + seq!['.'] + extension;
    let path = dir + seq!['/'] + stem + seq!['.'] + extension;
    assert forall|k: int| dir.len() < k < path.len() implies path[k] != '/' by {
        let j = k - dir.len() - 1;
        assert(path[k] == name[j]);
        if j < stem.len() {
            assert(stem.contains(stem[j]));
        } else if j > stem.len() {
            assert(extension.contains(extension[j - stem.len() - 1]));
        }
    }
    lemma_last_position_unique(path, '/', dir.len() as int);
    assert(path.skip(dir.len() as int + 1) =~= name);
    assert(name.len() >= 2);
    assert forall|k: int| stem.len() < k < name.len() implies name[k] != '.' by {
        assert(extension.contains(extension[k - stem.len() - 1]));
    }
    lemma_last_position_unique(name, '.', stem.len() as int);
    assert(name.skip(stem.len() as int + 1) =~= extension);
}

/// A path without slashes that is some characters, a dot and an extension has
/// that extension.
pub proof fn law_bare_extension_read_back(stem: Seq<char>, extension: Seq<char>)
    requires
        stem.len() > 0,
        !stem.contains('/'),
        !extension.contains('/'),
        !extension.contains('.'),
        stem + seq!['.'] + extension != seq!['.', '.'],
    ensures
        extension_of(stem + seq!['.'] + extension) == extension,
{
    let name = stem + seq!['.'] + extension;
    assert forall|k: int| -1 < k < name.len() implies name[k] != '/' by {
        if k < stem.len() {
            assert(stem.contains(stem[k]));
        } else if k > stem.len() {
            assert(extension.contains(extension[k - stem.len() - 1]));
        }
    }
    lemma_last_position_unique(name, '/', -1);
    assert(name.skip(0) =~= name);
    assert forall|k: int| stem.len() < k < name.len() implies name[k] != '.' by {
        assert(extension.contains(extension[k - stem.len() - 1]));
    }
    lemma_last_position_unique(name, '.', stem.len() as int);
    assert(name.skip(stem.len() as int + 1) =~= extension);
}

/// A path whose last segment has no dot, or none but at its front, has the
/// extension `mp4`; and so has one without slashes that is such a segment.
pub proof fn law_default_extension(dir: Seq<char>, name: Seq<char>)
    requires
        !name.contains('/'),
        name.len() > 0,
        forall|i: int| 0 < i < name.len() ==> name[i] != '.',
    ensures
        name != seq!['.'] ==> extension_of(dir + seq!['/'] + name) == "mp4"@,
        extension_of(name) == "mp4"@,
{
    let path = dir + seq!['/'] + name;
    assert forall|k: int| dir.len() < k < path.len() implies path[k] != '/' by {
        assert(name.contains(name[k - dir.len() - 1]));
    }
    lemma_last_position_unique(path, '/', dir.len() as int);
    assert(path.skip(dir.len() as int + 1) =~= name);
    assert forall|k: int| -1 < k < name.len() implies name[k] != '/' by {
        assert(name.contains(name[k]));
    }
    lemma_last_position_unique(name, '/', -1);
    assert(name.skip(0) =~= name);
    lemma_last_position(name, '.');
}

/// Slashes at the end of a path, and single dots after them, do not count.
pub proof fn law_trailing_slash_does_not_count(path: Seq<char>)
    ensures
        extension_of(path + seq!['/']) == extension_of(path),
        extension_of(path + seq!['/', '.']) == extension_of(path),
{
    let n = path.len() as int;
    let slash = path + seq!['/'];
    lemma_last_position_unique(slash, '/', n);
    assert(slash.skip(n + 1) =~= Seq::<char>::empty());
    assert(slash.take(n) =~= path);
    let dot = path + seq!['/', '.'];
    lemma_last_position_unique(dot, '/', n);
    assert(dot.skip(n + 1) =~= seq!['.']);
    assert(dot.take(n) =~= path);
}

/// A path that is empty or ends in two dots has the extension `mp4`.
pub proof fn law_no_file_name(dir: Seq<char>)
    ensures
        extension_of(Seq::empty()) == "mp4"@,
        extension_of(seq!['.', '.']) == "mp4"@,
        extension_of(dir + seq!['/', '.', '.']) == "mp4"@,
{
    let none = Seq::<char>::empty();
    lemma_last_position_unique(none, '/', -1);
    assert(none.skip(0) =~= none);
    let dots = seq!['.', '.'];
    lemma_last_position_unique(dots, '/', -1);
    assert(dots.skip(0) =~= dots);
    let n = dir.len() as int;
    let path = dir + seq!['/', '.', '.'];
    lemma_last_position_unique(path, '/', n);
    assert(path.skip(n + 1) =~= dots);
}

} // verus!
