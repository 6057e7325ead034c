use vstd::prelude::*;
use crate::consts::MAX_NAME_WIDTH_LENGTH;

verus! {

/// A file name as a listing shows it: a name longer than the column loses
/// its last five characters to an ellipsis.
pub open spec fn shown_name(name: Seq<char>) -> Seq<char> {
    if name.len() > MAX_NAME_WIDTH_LENGTH {
        name.subrange(0, name.len() - 5) + "..."@
    } else {
        name
    }
}

pub fn display_name(name: &str) -> (r: String)
    ensures
        r@ == shown_name(name@),
{
    let n = name.unicode_len();
    if n > MAX_NAME_WIDTH_LENGTH {
        let mut s = name.substring_char(0, n - 5).to_owned();
        s.append("...");
        s
    } else {
        name.to_owned()
    }
}

/// How a listing names a file's visibility.
pub fn visibility_label(is_public: bool) -> (r: &'static str)
    ensures
        r@ == if is_public { "Public"@ } else { "Private"@ },
{
    if is_public {
        "Public"
    } else {
        "Private"
    }
}

} // verus!
