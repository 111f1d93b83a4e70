//! Which stored paths are safe to write below the working directory.  An
//! archive entry must not name an absolute location, a drive, or anything
//! above the directory it is extracted into.

use vstd::prelude::*;

verus! {

/// Whether a character separates path components.
pub open spec fn is_sep(c: char) -> bool {
    c == '/' || c == '\\'
}

/// Whether a ".." path component starts at position `i` of the text.
pub open spec fn parent_component_at(s: Seq<char>, i: int) -> bool {
    &&& 0 <= i
    &&& i + 2 <= s.len()
    &&& s[i] == '.'
    &&& s[i + 1] == '.'
    &&& (i == 0 || is_sep(s[i - 1]))
    &&& (i + 2 == s.len() || is_sep(s[i + 2]))
}

/// Whether a stored path may be written below the working directory: it is
/// not empty, does not start with a separator (no absolute path), holds no
/// colon (no drive name), and holds no ".." component.
pub open spec fn path_chars_safe(s: Seq<char>) -> bool {
    &&& s.len() > 0
    &&& !is_sep(s[0])
    &&& (forall|i: int| 0 <= i < s.len() ==> #[trigger] s[i] != ':')
    &&& (forall|i: int| !#[trigger] parent_component_at(s, i))
}

fn sep_char(c: char) -> (r: bool)
    ensures
        r == is_sep(c),
{
    c == '/' || c == '\\'
}

/// Decides whether a stored path is safe to write below the working
/// directory.
pub fn path_is_safe(p: &str) -> (r: bool)
    ensures
        r == path_chars_safe(p@),
{
    let n = p.unicode_len();
    if n == 0 {
        return false;
    }
    let c0 = p.get_char(0);
    if sep_char(c0) {
        return false;
    }
    let mut i: usize = 0;
    while i < n
        invariant
            i <= n,
            n == p@.len(),
            n > 0,
            !is_sep(p@[0]),
            forall|j: int| 0 <= j < i ==> #[trigger] p@[j] != ':',
            forall|j: int| j < i ==> !#[trigger] parent_component_at(p@, j),
        decreases n - i,
    {
        let c = p.get_char(i);
        if c == ':' {
            return false;
        }
        if n - i >= 2 && c == '.' && p.get_char(i + 1) == '.' {
            let before_ok: bool = if i == 0 {
                true
            } else {
                sep_char(p.get_char(i - 1))
            };
            let after_ok: bool = if n - i == 2 {
                true
            } else {
                sep_char(p.get_char(i + 2))
            };
            if before_ok && after_ok {
                proof {
                    assert(parent_component_at(p@, i as int));
                }
                return false;
            }
        }
        i = i + 1;
    }
    proof {
        assert forall|j: int| !#[trigger] parent_component_at(p@, j) by {
            if 0 <= j && j + 2 <= p@.len() {
                assert(j < i);
            }
        }
    }
    true
}

} // verus!
