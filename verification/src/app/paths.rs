//! Logical paths: joining, parents, leaf names and renaming.
use vstd::prelude::*;

use crate::text;
use crate::text::{any_control, chars_of, concat2, contains_char, owned, rfind_char, slice_chars, string_from_chars, trimmed_end_len};

verus! {

broadcast use vstd::string::group_string_axioms;

/// `directory/name`, with no doubled separator.
pub open spec fn spec_join_logical_path(directory: Seq<char>, name: Seq<char>) -> Seq<char> {
    if directory == "/"@ {
        "/"@ + name
    } else {
        text::trim_end_char(directory, '/') + "/"@ + name
    }
}

pub fn join_logical_path(directory: &str, name: &str) -> (r: String)
    ensures
        r@ == spec_join_logical_path(directory@, name@),
{
    proof {
        reveal_strlit("/");
    }
    let d = chars_of(directory);
    if d.len() == 1 && d[0] == '/' {
        assert(directory@ =~= "/"@);
        return concat2("/", name);
    }
    assert(directory@ != "/"@);
    let n = trimmed_end_len(&d, '/');
    let mut r = string_from_chars(&slice_chars(&d, 0, n));
    r.append("/");
    r.append(name);
    r
}

/// The parent of a remote path, with `/` for top-level entries; nothing for `/` itself.
pub open spec fn spec_remote_parent(path: Seq<char>) -> Option<Seq<char>> {
    let trimmed = text::trim_end_char(path, '/');
    if trimmed.len() == 0 {
        None
    } else {
        match text::last_index_of(trimmed, '/') {
            None => None,
            Some(i) => Some(
                if i == 0 {
                    "/"@
                } else {
                    trimmed.take(i)
                },
            ),
        }
    }
}

pub fn remote_parent(path: &str) -> (r: Option<String>)
    ensures
        text::opt_view(r) == spec_remote_parent(path@),
{
    proof {
        reveal_strlit("/");
    }
    let v = chars_of(path);
    let n = trimmed_end_len(&v, '/');
    let trimmed = slice_chars(&v, 0, n);
    if n == 0 {
        return None;
    }
    match rfind_char(&trimmed, '/') {
        None => None,
        Some(i) => {
            if i == 0 {
                Some(owned("/"))
            } else {
                let parent = slice_chars(&trimmed, 0, i);
                assert(parent@ =~= trimmed@.take(i as int));
                Some(string_from_chars(&parent))
            }
        },
    }
}

/// The non-empty text after the last `/` of `path`.
pub open spec fn spec_destination_file_name(path: Seq<char>) -> Option<Seq<char>> {
    match text::last_index_of(path, '/') {
        Some(i) => if i + 1 < path.len() {
            Some(path.skip(i + 1))
        } else {
            None
        },
        None => None,
    }
}

pub fn destination_file_name(path: &str) -> (r: Option<String>)
    ensures
        text::opt_view(r) == spec_destination_file_name(path@),
{
    let v = chars_of(path);
    match rfind_char(&v, '/') {
        Some(i) => {
            if i + 1 < v.len() {
                let name = slice_chars(&v, i + 1, v.len());
                assert(name@ =~= v@.skip(i + 1));
                Some(string_from_chars(&name))
            } else {
                None
            }
        },
        None => None,
    }
}

/// Replaces the last component of `path` with `file_name`, or says why it cannot.
pub open spec fn spec_renamed_destination(path: Seq<char>, file_name: Seq<char>) -> Result<
    Seq<char>,
    Seq<char>,
> {
    if file_name.len() == 0 {
        Err("Filename cannot be empty."@)
    } else if file_name == "."@ || file_name == ".."@ {
        Err("Filename cannot be . or .."@)
    } else if text::has_char(file_name, '/') || text::has_char(file_name, '\\') {
        Err("Filename cannot contain a path separator."@)
    } else if text::has_control(file_name) {
        Err("Filename cannot contain control characters."@)
    } else {
        match text::last_index_of(path, '/') {
            None => Err("Destination has no parent path."@),
            Some(i) => Ok(path.take(i) + "/"@ + file_name),
        }
    }
}

pub fn renamed_destination(path: &str, file_name: &str) -> (r: Result<String, &'static str>)
    ensures
        match r {
            Ok(p) => spec_renamed_destination(path@, file_name@) == Ok::<Seq<char>, Seq<char>>(p@),
            Err(m) => spec_renamed_destination(path@, file_name@) == Err::<Seq<char>, Seq<char>>(m@),
        },
{
    proof {
        reveal_strlit(".");
        reveal_strlit("..");
    }
    let name = chars_of(file_name);
    if name.len() == 0 {
        return Err("Filename cannot be empty.");
    }
    let is_dot = name.len() == 1 && name[0] == '.';
    let is_dot_dot = name.len() == 2 && name[0] == '.' && name[1] == '.';
    proof {
        if name@ == "."@ {
            assert(is_dot);
        }
        if name@ == ".."@ {
            assert(is_dot_dot);
        }
        if is_dot {
            assert(name@ =~= "."@);
        }
        if is_dot_dot {
            assert(name@ =~= ".."@);
        }
    }
    if is_dot || is_dot_dot {
        return Err("Filename cannot be . or ..");
    }
    if contains_char(&name, '/') || contains_char(&name, '\\') {
        return Err("Filename cannot contain a path separator.");
    }
    if any_control(&name) {
        return Err("Filename cannot contain control characters.");
    }
    let v = chars_of(path);
    match rfind_char(&v, '/') {
        None => Err("Destination has no parent path."),
        Some(i) => {
            let mut r = string_from_chars(&slice_chars(&v, 0, i));
            r.append("/");
            r.append(file_name);
            assert(v@.subrange(0, i as int) =~= v@.take(i as int));
            Ok(r)
        },
    }
}

} // verus!
