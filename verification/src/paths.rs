//! Path-string handling: file names, extensions, display truncation and
//! platform detection. Paths are treated as plain character strings; both
//! `/` and `\` are accepted as separators so that paths from either
//! operating-system convention are understood.

use vstd::prelude::*;
use vstd::string::StrSliceExecFns;
use vstd::string::StringExecFns;
use crate::text;

verus! {

/// A path-separator character.
pub open spec fn is_sep(c: char) -> bool {
    c == '/' || c == '\\'
}

/// The file name of a path: its longest separator-free suffix.
pub open spec fn file_name_seq(p: Seq<char>) -> Seq<char>
    decreases p.len(),
{
    if p.len() == 0 {
        Seq::empty()
    } else if is_sep(p.last()) {
        Seq::empty()
    } else {
        file_name_seq(p.drop_last()).push(p.last())
    }
}

proof fn lemma_file_name_skip(p: Seq<char>, cut: int)
    requires
        0 <= cut <= p.len(),
        forall|j: int| cut <= j < p.len() ==> !is_sep(#[trigger] p[j]),
        cut == 0 || is_sep(p[cut - 1]),
    ensures
        file_name_seq(p) == p.skip(cut),
    decreases p.len(),
{
    if p.len() == 0 {
        assert(file_name_seq(p) =~= p.skip(cut));
    } else if cut == p.len() {
        assert(is_sep(p.last()));
        assert(file_name_seq(p) =~= p.skip(cut));
    } else {
        assert(!is_sep(p.last()));
        lemma_file_name_skip(p.drop_last(), cut);
        assert(file_name_seq(p) =~= p.skip(cut));
    }
}

/// The index where the file name of `p` starts: just after the last
/// separator, or zero when there is none.
fn file_name_start(p: &str) -> (r: usize)
    ensures
        r <= p@.len(),
        forall|j: int| r <= j < p@.len() ==> !is_sep(#[trigger] p@[j]),
        r == 0 || is_sep(p@[r - 1]),
{
    let len = p.unicode_len();
    let mut i: usize = len;
    while i > 0
        invariant
            i <= len,
            len == p@.len(),
            forall|j: int| i <= j < p@.len() ==> !is_sep(#[trigger] p@[j]),
        decreases i,
    {
        let c = p.get_char(i - 1);
        if c == '/' || c == '\\' {
            return i;
        }
        i -= 1;
    }
    0
}

/// The file name of a path, or `None` when the path ends in a separator
/// (or is empty), so that there is no file-name component.
pub fn file_name_of(p: &str) -> (r: Option<String>)
    ensures
        file_name_seq(p@).len() == 0 ==> r is None,
        file_name_seq(p@).len() > 0 ==> (r matches Some(name) && name@ == file_name_seq(p@)),
{
    let len = p.unicode_len();
    let start = file_name_start(p);
    proof {
        lemma_file_name_skip(p@, start as int);
    }
    if start == len {
        None
    } else {
        let name = p.substring_char(start, len);
        assert(name@ =~= p@.skip(start as int));
        Some(name.to_owned())
    }
}

/// The extension of a file name: the part after its last dot. A dot in the
/// leading position does not count (a name like `.bar` is extensionless),
/// and the special name `..` has no extension.
pub open spec fn extension_seq(name: Seq<char>) -> Option<Seq<char>> {
    if name =~= seq!['.', '.'] {
        None::<Seq<char>>
    } else {
        ext_scan(name)
    }
}

/// The suffix after the last dot of `name`, where a dot at index zero does
/// not begin an extension.
pub open spec fn ext_scan(name: Seq<char>) -> Option<Seq<char>>
    decreases name.len(),
{
    if name.len() <= 1 {
        None::<Seq<char>>
    } else if name.last() == '.' {
        Some(Seq::empty())
    } else {
        match ext_scan(name.drop_last()) {
            Some(e) => Some(e.push(name.last())),
            None => None::<Seq<char>>,
        }
    }
}

proof fn lemma_ext_scan_skip(name: Seq<char>, dot: int)
    requires
        1 <= dot < name.len(),
        name[dot] == '.',
        forall|j: int| dot < j < name.len() ==> #[trigger] name[j] != '.',
    ensures
        ext_scan(name) == Some(name.skip(dot + 1)),
    decreases name.len(),
{
    if dot == name.len() - 1 {
        assert(name.last() == '.');
        assert(ext_scan(name) =~= Some(name.skip(dot + 1)));
    } else {
        assert(name.last() != '.');
        lemma_ext_scan_skip(name.drop_last(), dot);
        assert(name.skip(dot + 1) =~= name.drop_last().skip(dot + 1).push(name.last()));
    }
}

proof fn lemma_ext_scan_none(name: Seq<char>)
    requires
        forall|j: int| 1 <= j < name.len() ==> #[trigger] name[j] != '.',
    ensures
        ext_scan(name) is None,
    decreases name.len(),
{
    if name.len() > 1 {
        lemma_ext_scan_none(name.drop_last());
    }
}

/// The extension of the file name of `p`, if any.
pub fn extension_of(p: &str) -> (r: Option<String>)
    ensures
        match extension_seq(file_name_seq(p@)) {
            Some(e) => r matches Some(s) && s@ == e,
            None => r is None,
        },
{
    let name = match file_name_of(p) {
        Some(n) => n,
        None => {
            proof {
                assert(file_name_seq(p@).len() == 0);
                lemma_ext_scan_none(file_name_seq(p@));
            }
            return None;
        },
    };
    let name_str = name.as_str();
    let len = name_str.unicode_len();
    if len == 2 && name_str.get_char(0) == '.' && name_str.get_char(1) == '.' {
        assert(name@ =~= seq!['.', '.']);
        return None;
    }
    assert(!(name@ =~= seq!['.', '.']));
    let mut i: usize = len;
    while i > 1
        invariant
            i <= len,
            len == name@.len(),
            name_str@ == name@,
            name@ == file_name_seq(p@),
            !(name@ =~= seq!['.', '.']),
            forall|j: int| i <= j < name@.len() ==> #[trigger] name@[j] != '.',
        decreases i,
    {
        if name_str.get_char(i - 1) == '.' {
            proof {
                lemma_ext_scan_skip(name@, i - 1);
            }
            let e = name_str.substring_char(i, len);
            assert(e@ =~= name@.skip(i as int));
            return Some(e.to_owned());
        }
        i -= 1;
    }
    proof {
        lemma_ext_scan_none(name@);
    }
    None
}

/// Whether the path names a replay file: its extension equals the replay
/// extension, compared ASCII-case-insensitively.
pub open spec fn spec_is_replay_path(p: Seq<char>) -> bool {
    match extension_seq(file_name_seq(p)) {
        Some(e) => text::lower_seq(e) == "replay"@,
        None => false,
    }
}

/// Extension check of the validation policy.
pub fn is_replay_path(p: &str) -> (r: bool)
    ensures
        r == spec_is_replay_path(p@),
{
    match extension_of(p) {
        Some(e) => {
            let eq = text::eq_ignore_ascii_case(e.as_str(), "replay");
            proof {
                reveal_strlit("replay");
                assert(text::lower_seq("replay"@) =~= "replay"@);
            }
            eq
        },
        None => false,
    }
}

/// Display truncation: a path longer than `max_len` characters is shortened
/// to an ellipsis followed by its last characters, `max_len` in all. The
/// limit must leave room for the ellipsis.
pub fn truncate_path(path: &str, max_len: usize) -> (r: String)
    requires
        max_len >= 3,
    ensures
        path@.len() <= max_len ==> r@ == path@,
        path@.len() > max_len ==> r@ == "..."@ + path@.skip(path@.len() - (max_len - 3)),
{
    let len = path.unicode_len();
    if len <= max_len {
        path.to_owned()
    } else {
        let keep: usize = max_len - 3;
        let tail = path.substring_char(len - keep, len);
        assert(tail@ =~= path@.skip(path@.len() - keep));
        let mut out = String::from_str("...");
        out.append(tail);
        out
    }
}

/// The platform a replay-folder path suggests: the Epic Games folder name
/// takes precedence over the Steam one.
pub open spec fn spec_platform_of(p: Seq<char>) -> Seq<char> {
    if text::has_substring(p, "DemosEpic"@) {
        "epic"@
    } else if text::has_substring(p, "Demos"@) {
        "steam"@
    } else {
        "unknown"@
    }
}

/// Platform deduced from a replay-folder path.
pub fn detect_platform(path: &str) -> (r: String)
    ensures
        r@ == spec_platform_of(path@),
{
    if text::contains_str(path, "DemosEpic") {
        String::from_str("epic")
    } else if text::contains_str(path, "Demos") {
        String::from_str("steam")
    } else {
        String::from_str("unknown")
    }
}

} // verus!
