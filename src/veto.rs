//! Refusing directories that lie on a denied filesystem type.
use vstd::prelude::*;

verus! {

/// What `str::trim` leaves of a string: it depends on the characters alone.
pub uninterp spec fn trimmed(s: Seq<char>) -> Seq<char>;

/// Relies on `str::trim`: the string without leading and trailing whitespace.
#[verifier::external_body]
fn trim_whitespace(s: &str) -> (r: &str)
    ensures
        r@ == trimmed(s@),
{
    s.trim()
}

/// Whether `name` is one of the denied type names.
pub open spec fn listed(name: Seq<char>, denied: Seq<String>) -> bool {
    exists|i: int| 0 <= i < denied.len() && #[trigger] denied[i]@ == name
}

/// Whether an already trimmed filesystem type name is on the denied list.
pub fn is_denied_type(fs_type: &str, denied: &Vec<String>) -> (r: bool)
    ensures
        r == listed(fs_type@, denied@),
{
    let name = fs_type.to_owned();
    let mut i: usize = 0;
    while i < denied.len()
        invariant
            0 <= i <= denied@.len(),
            name@ == fs_type@,
            forall|j: int| 0 <= j < i ==> #[trigger] denied@[j]@ != fs_type@,
        decreases denied@.len() - i,
    {
        if denied[i] == name {
            return true;
        }
        i = i + 1;
    }
    false
}

/// Whether the filesystem type reported for a directory, once trimmed of
/// whitespace, is on the denied list.
pub fn fs_type_denied(fs_type: &str, denied: &Vec<String>) -> (r: bool)
    ensures
        r == listed(trimmed(fs_type@), denied@),
{
    is_denied_type(trim_whitespace(fs_type), denied)
}

} // verus!
