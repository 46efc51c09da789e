//! The textual form of a vector.
//!
//! How one component is written is the business of whoever decodes it; this
//! module lays the three written components out on a line.

use vstd::prelude::*;
use vstd::string::StringExecFns;

verus! {

/// What separates one written component from the next.
pub const SEPARATOR: char = ' ';

/// The written components in the order x, y, z, a separator between
/// neighbours, nothing before the first and nothing after the last.
pub open spec fn joined(x: Seq<char>, y: Seq<char>, z: Seq<char>) -> Seq<char> {
    x + seq![SEPARATOR] + y + seq![SEPARATOR] + z
}

/// Writes a vector from its three written components.
pub fn join_components(x: &str, y: &str, z: &str) -> (line: String)
    ensures
        line@ == joined(x@, y@, z@),
{
    proof {
        reveal_strlit(" ");
    }
    let mut line = String::new();
    line.append(x);
    line.append(" ");
    line.append(y);
    line.append(" ");
    line.append(z);
    assert(" "@ =~= seq![SEPARATOR]);
    assert(line@ =~= joined(x@, y@, z@));
    line
}

} // verus!
