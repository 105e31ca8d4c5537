//! Paths inside a data directory.
//!
//! A path is text whose segments are separated by `/`. This module joins
//! paths, finds the last segment of one, and names the files that a data
//! directory holds.

use vstd::prelude::*;
use vstd::string::StrSliceExecFns;
use vstd::string::StringExecFns;

verus! {

/// The directory under the home directory that holds the node's data by default.
pub const DEFAULT_DATA_DIR: &'static str = ".lighthouse";

/// The file of a data directory that holds the client document.
pub const CLIENT_CONFIG_FILENAME: &'static str = "beacon-node.toml";

/// The file of a data directory that holds the protocol document.
pub const ETH2_CONFIG_FILENAME: &'static str = "eth2-spec.toml";

/// The character that separates the segments of a path.
pub const SEPARATOR: char = '/';

/// The path of `name` under `base`. A `name` that starts at the root stands
/// for itself; otherwise it follows `base`, with one separator between the
/// two unless `base` is empty or already ends in one.
pub open spec fn join_spec(base: Seq<char>, name: Seq<char>) -> Seq<char> {
    if name.len() > 0 && name[0] == SEPARATOR {
        name
    } else if base.len() == 0 || base.last() == SEPARATOR {
        base + name
    } else {
        base + seq![SEPARATOR] + name
    }
}

/// Where the last segment of `path` begins: just behind its last separator,
/// or at 0 where it holds none.
pub open spec fn last_segment_start(path: Seq<char>) -> int
    decreases path.len(),
{
    if path.len() == 0 || path.last() == SEPARATOR {
        path.len() as int
    } else {
        last_segment_start(path.drop_last())
    }
}

/// The last segment of `path`: what follows its last separator.
pub open spec fn last_segment(path: Seq<char>) -> Seq<char> {
    path.subrange(last_segment_start(path), path.len() as int)
}

/// Whether `segment` stands for no step at all: it is empty, as behind a
/// separator that ends the path or follows another, or it is `.`.
pub open spec fn is_idle(segment: Seq<char>) -> bool {
    segment.len() == 0 || segment == seq!['.']
}

/// Where the name of `path` ends: at the end of its last segment that
/// stands for a step; at 0 where no segment does. Separators and `.` behind
/// the name do not count.
pub open spec fn name_end(path: Seq<char>) -> int
    decreases path.len(),
{
    if is_idle(last_segment(path)) {
        if 0 < last_segment_start(path) <= path.len() {
            name_end(path.subrange(0, last_segment_start(path) - 1))
        } else {
            0
        }
    } else {
        path.len() as int
    }
}

/// The name of the file or directory that `path` ends in, where it ends in
/// one: its last segment that is neither empty nor `.`, unless that is `..`
/// or there is none. So `a/b`, `a/b/` and `a/b/.` all end in `b`, and `/`,
/// `.` and `a/..` end in no name.
pub open spec fn file_name_spec(path: Seq<char>) -> Option<Seq<char>> {
    let segment = last_segment(path.subrange(0, name_end(path)));
    if segment.len() == 0 || segment == seq!['.', '.'] {
        None
    } else {
        Some(segment)
    }
}

/// The path `path` with `suffix` put behind its name, so that the result
/// is a sibling of `path` and not a child: what follows the name, separators
/// and `.`, is left out. Where `path` ends in no name the suffix follows the
/// whole of it.
pub open spec fn with_name_suffix(path: Seq<char>, suffix: Seq<char>) -> Seq<char> {
    if file_name_spec(path) is Some {
        path.subrange(0, name_end(path)) + suffix
    } else {
        path + suffix
    }
}

/// Joins `name` to `base`.
pub fn join(base: &str, name: &str) -> (path: String)
    ensures
        path@ == join_spec(base@, name@),
{
    let name_len: usize = name.unicode_len();
    if name_len > 0 && name.get_char(0) == SEPARATOR {
        return String::from_str(name);
    }
    let base_len: usize = base.unicode_len();
    let mut path = String::from_str(base);
    if base_len > 0 && base.get_char(base_len - 1) != SEPARATOR {
        path.append("/");
        proof {
            reveal_strlit("/");
            assert("/"@ =~= seq![SEPARATOR]);
        }
    }
    path.append(name);
    path
}

/// The path of the client document in the data directory `data_dir`.
pub fn client_config_path(data_dir: &str) -> (path: String)
    ensures
        path@ == join_spec(data_dir@, CLIENT_CONFIG_FILENAME@),
{
    join(data_dir, CLIENT_CONFIG_FILENAME)
}

/// The path of the protocol document in the data directory `data_dir`.
pub fn eth2_config_path(data_dir: &str) -> (path: String)
    ensures
        path@ == join_spec(data_dir@, ETH2_CONFIG_FILENAME@),
{
    join(data_dir, ETH2_CONFIG_FILENAME)
}

/// The bounds of a path's prefix up to `end` are those of its name.
proof fn lemma_name_end_of_prefix(path: Seq<char>, end: int, start: int)
    requires
        0 <= start <= end <= path.len(),
        start > 0 ==> path[start - 1] == SEPARATOR,
        forall|i: int| start <= i < end ==> path[i] != SEPARATOR,
    ensures
        last_segment_start(path.subrange(0, end)) == start,
        last_segment(path.subrange(0, end)) == path.subrange(start, end),
        is_idle(path.subrange(start, end)) && start > 0 ==> name_end(path.subrange(0, end))
            == name_end(path.subrange(0, start - 1)),
        is_idle(path.subrange(start, end)) && start == 0 ==> name_end(path.subrange(0, end))
            == 0,
        !is_idle(path.subrange(start, end)) ==> name_end(path.subrange(0, end)) == end,
{
    let prefix = path.subrange(0, end);
    lemma_segment_start_unique(prefix, start);
    assert(prefix.subrange(start, end) =~= path.subrange(start, end));
    if start > 0 {
        assert(prefix.subrange(0, start - 1) =~= path.subrange(0, start - 1));
    }
}

/// Where the name of `path` begins and ends, counted in characters, or
/// `None` where `path` ends in no name.
pub fn name_bounds(path: &str) -> (bounds: Option<(usize, usize)>)
    ensures
        match bounds {
            Some((start, end)) => {
                &&& start <= end <= path@.len()
                &&& end == name_end(path@)
                &&& file_name_spec(path@) == Some(path@.subrange(start as int, end as int))
            },
            None => file_name_spec(path@) is None,
        },
{
    let len: usize = path.unicode_len();
    let mut end: usize = len;
    assert(path@.subrange(0, len as int) =~= path@);
    loop
        invariant
            end <= len,
            len == path@.len(),
            name_end(path@) == name_end(path@.subrange(0, end as int)),
        decreases end,
    {
        let mut start: usize = end;
        while start > 0 && path.get_char(start - 1) != SEPARATOR
            invariant
                start <= end <= len,
                len == path@.len(),
                forall|i: int| start <= i < end ==> path@[i] != SEPARATOR,
            decreases start,
        {
            start = start - 1;
        }
        proof {
            lemma_name_end_of_prefix(path@, end as int, start as int);
        }
        let ghost segment = path@.subrange(start as int, end as int);
        let size: usize = end - start;
        let idle = size == 0 || (size == 1 && path.get_char(start) == '.');
        proof {
            if size == 1 {
                assert(segment[0] == path@[start as int]);
                if path@[start as int] == '.' {
                    assert(segment =~= seq!['.']);
                } else {
                    assert(seq!['.'][0] == '.');
                }
            } else if size > 1 {
                assert(seq!['.'].len() == 1);
            }
            assert(idle == is_idle(segment));
        }
        if !idle {
            let parent = size == 2 && path.get_char(start) == '.' && path.get_char(start + 1)
                == '.';
            proof {
                assert(path@.subrange(0, name_end(path@)) =~= path@.subrange(0, end as int));
                if size == 2 {
                    assert(segment[0] == path@[start as int]);
                    assert(segment[1] == path@[start + 1]);
                    if parent {
                        assert(segment =~= seq!['.', '.']);
                    } else {
                        assert(seq!['.', '.'][0] == '.');
                        assert(seq!['.', '.'][1] == '.');
                    }
                } else {
                    assert(seq!['.', '.'].len() == 2);
                }
            }
            if parent {
                return None;
            }
            return Some((start, end));
        }
        if start == 0 {
            proof {
                assert(path@.subrange(0, 0) =~= Seq::<char>::empty());
            }
            return None;
        }
        end = start - 1;
    }
}

/// The name that `path` ends in, or `None` where it ends in no name.
pub fn file_name(path: &str) -> (name: Option<String>)
    ensures
        match file_name_spec(path@) {
            Some(segment) => name is Some && name->0@ == segment,
            None => name is None,
        },
{
    match name_bounds(path) {
        Some((start, end)) => Some(String::from_str(path.substring_char(start, end))),
        None => None,
    }
}

/// Puts `suffix` behind the name that `path` ends in.
pub fn add_name_suffix(path: &str, suffix: &str) -> (renamed: String)
    ensures
        renamed@ == with_name_suffix(path@, suffix@),
{
    let mut renamed = match name_bounds(path) {
        Some((_, end)) => String::from_str(path.substring_char(0, end)),
        None => String::from_str(path),
    };
    renamed.append(suffix);
    renamed
}

/// A position right behind a separator (or at the front) with no separator
/// after it is where the last segment starts.
proof fn lemma_segment_start_unique(path: Seq<char>, start: int)
    requires
        0 <= start <= path.len(),
        start > 0 ==> path[start - 1] == SEPARATOR,
        forall|i: int| start <= i < path.len() ==> path[i] != SEPARATOR,
    ensures
        last_segment_start(path) == start,
    decreases path.len(),
{
    if path.len() == 0 || path.last() == SEPARATOR {
        if start < path.len() {
            assert(path[path.len() - 1] != SEPARATOR);
        }
    } else {
        assert(start < path.len()) by {
            if start == path.len() {
                assert(path[start - 1] == SEPARATOR);
            }
        }
        lemma_segment_start_unique(path.drop_last(), start);
    }
}

} // verus!
