//! Classification of a dropped path into a coarse file-type category,
//! decided by the extension of its file name.
//!
//! The file name is handed in as a slice of characters; whoever receives
//! the drop event is expected to have already asked the filesystem whether
//! the path is a regular file.

use vstd::prelude::*;

verus! {

/// The coarse category a dropped path is sorted into.
#[derive(Debug, Clone, Copy, PartialEq, Eq, Structural)]
pub enum FileTypeSuggestion {
    Directory,
    Executable,
    Text,
    Readable,
    Unknown,
}

impl Default for FileTypeSuggestion {
    fn default() -> (r: Self)
        ensures
            r == FileTypeSuggestion::Unknown,
    {
        FileTypeSuggestion::Unknown
    }
}

/// Position `i` splits `name` into a stem and an extension: it carries the
/// last dot of the name, and that dot does not open the name (a name such
/// as `.bashrc` is all stem).
pub open spec fn splits_extension_at(name: Seq<char>, i: int) -> bool {
    &&& 0 < i < name.len()
    &&& name[i] == '.'
    &&& forall|j: int| i < j < name.len() ==> name[j] != '.'
}

/// The extension of a file name: whatever follows the last dot, provided
/// that dot is neither absent nor the leading character. `foo.` has the
/// empty extension; `foo` and `.bashrc` have none.
pub open spec fn extension_of(name: Seq<char>) -> Option<Seq<char>> {
    if exists|i: int| splits_extension_at(name, i) {
        let i = choose|i: int| splits_extension_at(name, i);
        Some(name.subrange(i + 1, name.len() as int))
    } else {
        None
    }
}

/// Extensions treated as runnable programs or scripts.
pub open spec fn is_executable_ext(e: Seq<char>) -> bool {
    ||| e == seq!['e', 'x', 'e']
    ||| e == seq!['b', 'a', 't']
    ||| e == seq!['c', 'm', 'd']
    ||| e == seq!['c', 'o', 'm']
    ||| e == seq!['s', 'h']
    ||| e == seq!['p', 's', '1']
    ||| e == seq!['v', 'b', 's']
    ||| e == seq!['w', 's', 'f']
    ||| e == seq!['j', 's']
    ||| e == seq!['j', 's', 'e']
    ||| e == seq!['v', 'b', 'e']
    ||| e == seq!['w', 's', 'h']
    ||| e == seq!['h', 't', 'a']
    ||| e == seq!['c', 'p', 'l']
    ||| e == seq!['s', 'c', 'r']
    ||| e == seq!['p', 'i', 'f']
    ||| e == seq!['l', 'n', 'k']
}

/// Extensions treated as plain text.
pub open spec fn is_text_ext(e: Seq<char>) -> bool {
    e == seq!['t', 'x', 't']
}

/// Extensions treated as human-readable configuration. The first entry
/// keeps its leading dot; since an extension never contains a dot, that
/// entry matches no name, and `md` files fall to `Unknown`.
pub open spec fn is_readable_ext(e: Seq<char>) -> bool {
    ||| e == seq!['.', 'm', 'd']
    ||| e == seq!['j', 's', 'o', 'n']
    ||| e == seq!['t', 'o', 'm', 'l']
    ||| e == seq!['y', 'a', 'm', 'l']
    ||| e == seq!['j', 's', 'o', 'n', '5']
    ||| e == seq!['j', 's', 'o', 'n', 'c']
    ||| e == seq!['y', 'm', 'l']
    ||| e == seq!['y', 'a', 'm', 'l', 'c']
    ||| e == seq!['y', 'm', 'l', 'c']
}

/// The category an extension maps to: a static lookup table.
pub open spec fn category_of(e: Seq<char>) -> FileTypeSuggestion {
    if is_executable_ext(e) {
        FileTypeSuggestion::Executable
    } else if is_text_ext(e) {
        FileTypeSuggestion::Text
    } else if is_readable_ext(e) {
        FileTypeSuggestion::Readable
    } else {
        FileTypeSuggestion::Unknown
    }
}

/// What `suggestion` returns: anything that is not a regular file counts
/// as a directory; a regular file is sorted by its extension, and a file
/// without one is `Unknown`.
pub open spec fn suggestion_of(is_file: bool, name: Seq<char>) -> FileTypeSuggestion {
    if !is_file {
        FileTypeSuggestion::Directory
    } else {
        match extension_of(name) {
            Some(e) => category_of(e),
            None => FileTypeSuggestion::Unknown,
        }
    }
}

/// Two positions that both split off the extension are the same position.
proof fn lemma_extension_split_unique(name: Seq<char>, i: int, j: int)
    requires
        splits_extension_at(name, i),
        splits_extension_at(name, j),
    ensures
        i == j,
{
    if i < j {
        assert(name[j] != '.');
    }
    if j < i {
        assert(name[i] != '.');
    }
}

/// Compares two character slices element by element.
fn chars_eq(a: &[char], b: &[char]) -> (r: bool)
    ensures
        r == (a@ == b@),
{
    if a.len() != b.len() {
        return false;
    }
    let n: usize = a.len();
    let mut i: usize = 0;
    while i < n
        invariant
            n == a@.len(),
            n == b@.len(),
            i <= n,
            forall|j: int| 0 <= j < i ==> a@[j] == b@[j],
        decreases n - i,
    {
        if a[i] != b[i] {
            return false;
        }
        i = i + 1;
    }
    proof {
        assert(a@ =~= b@);
    }
    true
}

/// Splits the extension off a file name, as `extension_of` describes it.
pub fn extension(name: &[char]) -> (r: Option<Vec<char>>)
    ensures
        match r {
            Some(e) => extension_of(name@) == Some(e@),
            None => extension_of(name@) is None,
        },
{
    let n: usize = name.len();
    let mut i: usize = n;
    while i > 1
        invariant
            i <= n,
            n == name@.len(),
            forall|j: int| i <= j < n ==> name@[j] != '.',
        decreases i,
    {
        i = i - 1;
        if name[i] == '.' {
            proof {
                assert(splits_extension_at(name@, i as int));
                let c = choose|k: int| splits_extension_at(name@, k);
                lemma_extension_split_unique(name@, c, i as int);
            }
            let mut e: Vec<char> = Vec::new();
            let mut k: usize = i + 1;
            while k < n
                invariant
                    i + 1 <= k <= n,
                    n == name@.len(),
                    e@ == name@.subrange(i + 1, k as int),
                decreases n - k,
            {
                e.push(name[k]);
                k = k + 1;
                proof {
                    assert(e@ =~= name@.subrange(i + 1, k as int));
                }
            }
            return Some(e);
        }
    }
    proof {
        assert forall|k: int| !splits_extension_at(name@, k) by {
            if 0 < k < name@.len() {
                assert(name@[k] != '.');
            }
        }
    }
    None
}

/// Looks an extension up in the category table.
pub fn ext_category(e: &[char]) -> (r: FileTypeSuggestion)
    ensures
        r == category_of(e@),
{
    if chars_eq(e, &['e', 'x', 'e']) || chars_eq(e, &['b', 'a', 't']) || chars_eq(
        e,
        &['c', 'm', 'd'],
    ) || chars_eq(e, &['c', 'o', 'm']) || chars_eq(e, &['s', 'h']) || chars_eq(e, &['p', 's', '1'])
        || chars_eq(e, &['v', 'b', 's']) || chars_eq(e, &['w', 's', 'f']) || chars_eq(e, &['j', 's'])
        || chars_eq(e, &['j', 's', 'e']) || chars_eq(e, &['v', 'b', 'e']) || chars_eq(
        e,
        &['w', 's', 'h'],
    ) || chars_eq(e, &['h', 't', 'a']) || chars_eq(e, &['c', 'p', 'l']) || chars_eq(
        e,
        &['s', 'c', 'r'],
    ) || chars_eq(e, &['p', 'i', 'f']) || chars_eq(e, &['l', 'n', 'k']) {
        FileTypeSuggestion::Executable
    } else if chars_eq(e, &['t', 'x', 't']) {
        FileTypeSuggestion::Text
    } else if chars_eq(e, &['.', 'm', 'd']) || chars_eq(e, &['j', 's', 'o', 'n']) || chars_eq(
        e,
        &['t', 'o', 'm', 'l'],
    ) || chars_eq(e, &['y', 'a', 'm', 'l']) || chars_eq(e, &['j', 's', 'o', 'n', '5']) || chars_eq(
        e,
        &['j', 's', 'o', 'n', 'c'],
    ) || chars_eq(e, &['y', 'm', 'l']) || chars_eq(e, &['y', 'a', 'm', 'l', 'c']) || chars_eq(
        e,
        &['y', 'm', 'l', 'c'],
    ) {
        FileTypeSuggestion::Readable
    } else {
        FileTypeSuggestion::Unknown
    }
}

/// Sorts a dropped path into its category: directories (and anything else
/// that is not a regular file) first, then the extension table.
pub fn suggestion(is_file: bool, name: &[char]) -> (r: FileTypeSuggestion)
    ensures
        r == suggestion_of(is_file, name@),
{
    if !is_file {
        return FileTypeSuggestion::Directory;
    }
    match extension(name) {
        Some(e) => ext_category(e.as_slice()),
        None => FileTypeSuggestion::Unknown,
    }
}

} // verus!
