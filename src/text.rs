//! Small string helpers shared by the other modules.

use vstd::prelude::*;
use vstd::string::StrSliceExecFns;

verus! {

/// Whether two strings hold the same characters.
pub fn same_text(a: &str, b: &str) -> (r: bool)
    ensures
        r == (a@ == b@),
{
    let n = a.unicode_len();
    let m = b.unicode_len();
    if n != m {
        return false;
    }
    let mut i: usize = 0;
    while i < n
        invariant
            n == a@.len(),
            m == b@.len(),
            n == m,
            i <= n,
            forall|j: int| 0 <= j < i ==> a@[j] == b@[j],
        decreases n - i,
    {
        if a.get_char(i) != b.get_char(i) {
            return false;
        }
        i += 1;
    }
    assert(a@ =~= b@);
    true
}

/// The position of the first `{` in `s`, if there is one.
pub open spec fn first_brace(s: Seq<char>) -> Option<int> {
    if exists|i: int| 0 <= i < s.len() && s[i] == '{' {
        Some(choose|i: int| 0 <= i < s.len() && s[i] == '{' && forall|j: int| 0 <= j < i ==> s[j] != '{')
    } else {
        None
    }
}

/// What follows a log line's free-form prefix: the text from the first `{`
/// to the end of the line.
pub open spec fn payload_of(s: Seq<char>) -> Option<Seq<char>> {
    match first_brace(s) {
        Some(i) => Some(s.subrange(i, s.len() as int)),
        None => None,
    }
}

/// The structured part of a log line: everything from its first `{` on, or
/// `None` for a line without one.
pub fn json_payload(line: &str) -> (r: Option<String>)
    ensures
        match r {
            Some(p) => payload_of(line@) == Some(p@),
            None => payload_of(line@) is None,
        },
{
    let n = line.unicode_len();
    let mut i: usize = 0;
    while i < n
        invariant
            n == line@.len(),
            i <= n,
            forall|j: int| 0 <= j < i ==> line@[j] != '{',
        decreases n - i,
    {
        if line.get_char(i) == '{' {
            proof {
                let k = choose|k: int|
                    0 <= k < line@.len() && line@[k] == '{' && forall|j: int|
                        0 <= j < k ==> line@[j] != '{';
                assert(0 <= k < line@.len() && line@[k] == '{');
                if k < i {
                } else if k > i {
                    assert(line@[i as int] == '{');
                }
                assert(k == i);
            }
            let rest = line.substring_char(i, n);
            return Some(rest.to_string());
        }
        i += 1;
    }
    None
}

} // verus!
