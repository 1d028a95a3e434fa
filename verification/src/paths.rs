//! Paths as text: components are separated by `/`.
//!
//! Only what the upscaler decides from a path is here: the name a file goes
//! by, the suffix of that name, whether the suffix marks a JPEG, and where an
//! output lands.

use vstd::prelude::*;
use vstd::string::*;

verus! {

/// The name of the directory, directly below the scan root, that receives the outputs.
pub open spec fn output_directory_name() -> Seq<char> {
    seq!['4', 'x']
}

/// `path` without what does not count at its end: separators, and components
/// that are a single dot.
pub open spec fn trimmed(path: Seq<char>) -> Seq<char>
    decreases path.len(),
{
    if path.len() == 0 {
        path
    } else if path.last() == '/' {
        trimmed(path.drop_last())
    } else if path.last() == '.' && (path.len() == 1 || path[path.len() - 2] == '/') {
        trimmed(path.drop_last())
    } else {
        path
    }
}

/// The index at which the last component of `path` begins: just behind its
/// last separator, or 0 where it has none.
pub open spec fn last_component_start(path: Seq<char>) -> int
    decreases path.len(),
{
    if path.len() == 0 || path.last() == '/' {
        path.len() as int
    } else {
        last_component_start(path.drop_last())
    }
}

/// The final component of `path`, by which the file is known. A path that ends
/// in `..`, or that names nothing but the root or the current directory, has none.
pub open spec fn final_component(path: Seq<char>) -> Option<Seq<char>> {
    let stem = trimmed(path);
    let name = stem.skip(last_component_start(stem));
    if name.len() == 0 || name == seq!['.', '.'] {
        None
    } else {
        Some(name)
    }
}

/// The index of the last dot in `name`, or -1 where it has none.
pub open spec fn last_dot(name: Seq<char>) -> int
    decreases name.len(),
{
    if name.len() == 0 {
        -1
    } else if name.last() == '.' {
        name.len() - 1
    } else {
        last_dot(name.drop_last())
    }
}

/// What follows the last dot of a file name. A name without a dot has no
/// suffix, and neither has one whose only dot comes first.
pub open spec fn suffix_of(name: Seq<char>) -> Option<Seq<char>> {
    let dot = last_dot(name);
    if dot <= 0 {
        None
    } else {
        Some(name.skip(dot + 1))
    }
}

/// `c` with an ASCII capital turned into its small letter.
pub open spec fn ascii_lowered(c: char) -> char {
    if 'A' <= c && c <= 'Z' {
        ((c as u8) + 32) as char
    } else {
        c
    }
}

/// Whether a suffix is `jpg` or `jpeg`, in any mix of ASCII case.
pub open spec fn is_jpeg_suffix(suffix: Seq<char>) -> bool {
    let lowered = suffix.map_values(|c: char| ascii_lowered(c));
    lowered == seq!['j', 'p', 'g'] || lowered == seq!['j', 'p', 'e', 'g']
}

/// Whether the file that `path` names counts as a JPEG by its suffix.
pub open spec fn is_jpeg_path(path: Seq<char>) -> bool {
    match final_component(path) {
        Some(name) => match suffix_of(name) {
            Some(suffix) => is_jpeg_suffix(suffix),
            None => false,
        },
        None => false,
    }
}

/// `name` placed inside `directory`. A name that starts at the root stands alone.
pub open spec fn joined(directory: Seq<char>, name: Seq<char>) -> Seq<char> {
    if name.len() > 0 && name[0] == '/' {
        name
    } else if directory.len() == 0 || directory.last() == '/' {
        directory + name
    } else {
        directory + seq!['/'] + name
    }
}

/// A name that can stand as one component: not empty, free of separators, and
/// neither `.` nor `..`.
pub open spec fn is_plain_name(name: Seq<char>) -> bool {
    &&& name.len() > 0
    &&& forall|i: int| 0 <= i < name.len() ==> name[i] != '/'
    &&& name != seq!['.']
    &&& name != seq!['.', '.']
}

/// A stretch free of separators that begins at the start of the path, or just
/// behind a separator, is where the last component begins.
pub proof fn lemma_last_component_start(path: Seq<char>, start: int)
    requires
        0 <= start <= path.len(),
        start == 0 || path[start - 1] == '/',
        forall|i: int| start <= i < path.len() ==> path[i] != '/',
    ensures
        last_component_start(path) == start,
    decreases path.len(),
{
    if start < path.len() {
        lemma_last_component_start(path.drop_last(), start);
    }
}

/// The last dot is a dot, and none comes behind it.
pub proof fn lemma_last_dot(name: Seq<char>, dot: int)
    requires
        -1 <= dot < name.len(),
        dot >= 0 ==> name[dot] == '.',
        forall|i: int| dot < i < name.len() ==> name[i] != '.',
    ensures
        last_dot(name) == dot,
    decreases name.len(),
{
    if dot + 1 < name.len() {
        lemma_last_dot(name.drop_last(), dot);
    }
}

/// The final component of a path is a plain name.
pub proof fn lemma_final_component_is_plain(path: Seq<char>)
    ensures
        final_component(path) matches Some(name) ==> is_plain_name(name),
{
    let stem = trimmed(path);
    lemma_trimmed_end(path);
    lemma_component_is_unbroken(stem);
    let name = stem.skip(last_component_start(stem));
    if name.len() > 0 && name != seq!['.', '.'] {
        if name =~= seq!['.'] {
            assert(stem.last() == name[0]);
        }
    }
}

/// What trimming leaves is empty, or ends in a character that belongs to a name.
pub proof fn lemma_trimmed_end(path: Seq<char>)
    ensures
        trimmed(path).len() <= path.len(),
        trimmed(path) == path.take(trimmed(path).len() as int),
        trimmed(path).len() > 0 ==> {
            let stem = trimmed(path);
            &&& stem.last() != '/'
            &&& !(stem.last() == '.' && (stem.len() == 1 || stem[stem.len() - 2] == '/'))
        },
    decreases path.len(),
{
    if path.len() == 0 {
    } else if path.last() == '/' || (path.last() == '.' && (path.len() == 1 || path[path.len()
        - 2] == '/')) {
        lemma_trimmed_end(path.drop_last());
        let kept = trimmed(path.drop_last()).len() as int;
        assert(path.drop_last().take(kept) =~= path.take(kept));
    } else {
        assert(path.take(path.len() as int) =~= path);
    }
}

/// From where the last component begins there is no separator, and one stands
/// just before it unless it begins the path.
pub proof fn lemma_component_is_unbroken(path: Seq<char>)
    ensures
        0 <= last_component_start(path) <= path.len(),
        last_component_start(path) == 0 || path[last_component_start(path) - 1] == '/',
        forall|i: int| last_component_start(path) <= i < path.len() ==> path[i] != '/',
    decreases path.len(),
{
    if path.len() == 0 || path.last() == '/' {
    } else {
        let rest = path.drop_last();
        lemma_component_is_unbroken(rest);
        assert forall|i: int| last_component_start(path) <= i < path.len() implies path[i]
            != '/' by {
            if i < rest.len() {
                assert(rest[i] == path[i]);
            }
        }
    }
}

/// An output keeps its name: the final component of a plain name placed in a
/// directory is that name.
pub proof fn lemma_joined_keeps_name(directory: Seq<char>, name: Seq<char>)
    requires
        is_plain_name(name),
    ensures
        final_component(joined(directory, name)) == Some(name),
{
    let path = joined(directory, name);
    let start = path.len() - name.len();
    assert(path.skip(start) =~= name);
    assert(path.last() == name.last());
    if name.last() == '.' {
        if name.len() == 1 {
            assert(name =~= seq!['.']);
        } else {
            assert(path[path.len() - 2] == name[name.len() - 2]);
        }
    }
    assert(trimmed(path) == path);
    assert forall|i: int| start <= i < path.len() implies path[i] != '/' by {
        assert(path[i] == name[i - start]);
    }
    lemma_last_component_start(path, start);
}

/// An output is named like its source: placing a path's final component in
/// any directory gives a path with that same final component.
pub proof fn lemma_output_is_named_like_source(directory: Seq<char>, source: Seq<char>)
    requires
        final_component(source) is Some,
    ensures
        final_component(joined(directory, final_component(source)->0)) == final_component(source),
{
    lemma_final_component_is_plain(source);
    lemma_joined_keeps_name(directory, final_component(source)->0);
}

/// The final component of `path`, or `None` where it has none.
pub fn file_name(path: &str) -> (name: Option<String>)
    ensures
        name is Some <==> final_component(path@) is Some,
        name matches Some(text) ==> final_component(path@) == Some(text@),
{
    let length = path.unicode_len();
    let mut end = length;
    let mut settled = false;
    assert(path@.take(end as int) =~= path@);
    while end > 0 && !settled
        invariant
            end <= length == path@.len(),
            trimmed(path@) == trimmed(path@.take(end as int)),
            settled ==> trimmed(path@.take(end as int)) == path@.take(end as int),
        decreases end + (if settled { 0int } else { 1int }),
    {
        let ghost head = path@.take(end as int);
        assert(head.drop_last() =~= path@.take(end - 1));
        let last = path.get_char(end - 1);
        if last == '/' {
            end = end - 1;
        } else if last == '.' {
            if end == 1 {
                end = end - 1;
            } else if path.get_char(end - 2) == '/' {
                end = end - 1;
            } else {
                settled = true;
            }
        } else {
            settled = true;
        }
    }
    let ghost stem = path@.take(end as int);
    assert(trimmed(path@) == stem);
    let mut start = end;
    while start > 0 && path.get_char(start - 1) != '/'
        invariant
            start <= end <= length == path@.len(),
            forall|i: int| start <= i < end ==> path@[i] != '/',
        decreases start,
    {
        start = start - 1;
    }
    proof {
        lemma_last_component_start(stem, start as int);
        assert(stem.skip(start as int) =~= path@.subrange(start as int, end as int));
    }
    if start == end {
        return None;
    }
    if end - start == 2 && path.get_char(start) == '.' && path.get_char(start + 1) == '.' {
        assert(path@.subrange(start as int, end as int) =~= seq!['.', '.']);
        return None;
    }
    let name = path.substring_char(start, end);
    proof {
        if name@ == seq!['.', '.'] {
            assert(name@[0] == '.' && name@[1] == '.');
        }
    }
    Some(String::from_str(name))
}

/// What follows the last dot of `name`, or `None` where `name` has no suffix.
pub fn suffix(name: &str) -> (found: Option<String>)
    ensures
        found is Some <==> suffix_of(name@) is Some,
        found matches Some(text) ==> suffix_of(name@) == Some(text@),
{
    let length = name.unicode_len();
    let mut dot = length;
    while dot > 0 && name.get_char(dot - 1) != '.'
        invariant
            dot <= length == name@.len(),
            forall|i: int| dot <= i < length ==> name@[i] != '.',
        decreases dot,
    {
        dot = dot - 1;
    }
    proof {
        lemma_last_dot(name@, dot as int - 1);
    }
    if dot <= 1 {
        return None;
    }
    let tail = name.substring_char(dot, length);
    assert(tail@ =~= name@.skip(dot as int));
    Some(String::from_str(tail))
}

/// Whether `c` is `lower` or its ASCII capital.
fn is_letter(c: char, lower: char, upper: char) -> (same: bool)
    requires
        'a' <= lower <= 'z',
        upper as int + 32 == lower as int,
    ensures
        same == (ascii_lowered(c) == lower),
{
    c == lower || c == upper
}

/// Whether `text` is `jpg` or `jpeg`, in any mix of ASCII case.
pub fn names_jpeg(text: &str) -> (jpeg: bool)
    ensures
        jpeg == is_jpeg_suffix(text@),
{
    let length = text.unicode_len();
    let ghost lowered = text@.map_values(|c: char| ascii_lowered(c));
    if length == 3 {
        let jpeg = is_letter(text.get_char(0), 'j', 'J') && is_letter(text.get_char(1), 'p', 'P')
            && is_letter(text.get_char(2), 'g', 'G');
        proof {
            if jpeg {
                assert(lowered =~= seq!['j', 'p', 'g']);
            } else if lowered == seq!['j', 'p', 'g'] {
                assert(lowered[0] == 'j' && lowered[1] == 'p' && lowered[2] == 'g');
            }
            assert(seq!['j', 'p', 'e', 'g'].len() == 4);
        }
        jpeg
    } else if length == 4 {
        let jpeg = is_letter(text.get_char(0), 'j', 'J') && is_letter(text.get_char(1), 'p', 'P')
            && is_letter(text.get_char(2), 'e', 'E') && is_letter(text.get_char(3), 'g', 'G');
        proof {
            if jpeg {
                assert(lowered =~= seq!['j', 'p', 'e', 'g']);
            } else if lowered == seq!['j', 'p', 'e', 'g'] {
                assert(lowered[0] == 'j' && lowered[1] == 'p' && lowered[2] == 'e' && lowered[3]
                    == 'g');
            }
            assert(seq!['j', 'p', 'g'].len() == 3);
        }
        jpeg
    } else {
        proof {
            assert(seq!['j', 'p', 'g'].len() == 3);
            assert(seq!['j', 'p', 'e', 'g'].len() == 4);
        }
        false
    }
}

/// Whether a directory scan takes the file at `path` for a JPEG: its name has
/// the suffix `jpg` or `jpeg`, in any mix of ASCII case.
pub fn has_jpeg_suffix(path: &str) -> (jpeg: bool)
    ensures
        jpeg == is_jpeg_path(path@),
{
    match file_name(path) {
        Some(name) => match suffix(name.as_str()) {
            Some(text) => names_jpeg(text.as_str()),
            None => false,
        },
        None => false,
    }
}

/// `name` placed inside `directory`.
pub fn join(directory: &str, name: &str) -> (path: String)
    ensures
        path@ == joined(directory@, name@),
{
    let name_length = name.unicode_len();
    if name_length > 0 && name.get_char(0) == '/' {
        return String::from_str(name);
    }
    let length = directory.unicode_len();
    let mut path = String::from_str(directory);
    if length > 0 && directory.get_char(length - 1) != '/' {
        proof {
            reveal_strlit("/");
        }
        path.append("/");
        assert(path@ =~= directory@ + seq!['/']);
    }
    path.append(name);
    path
}

/// The name of the directory, directly below the scan root, that receives the outputs.
pub fn directory_name() -> (name: &'static str)
    ensures
        name@ == output_directory_name(),
{
    proof {
        reveal_strlit("4x");
    }
    assert("4x"@ =~= output_directory_name());
    "4x"
}

/// The directory that receives the outputs of a scan of `root`.
pub fn output_directory(root: &str) -> (directory: String)
    ensures
        directory@ == joined(root@, output_directory_name()),
{
    join(root, directory_name())
}

} // verus!
