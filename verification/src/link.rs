//! The canonical download URL derived from a module identifier and filename.

use vstd::prelude::*;

use crate::text::dec_str;
use crate::text::push_dec;

verus! {

/// The documented download URL template: the fixed endpoint, the decimal
/// module identifier, and the filename after a `#` delimiter.
pub open spec fn download_link_of(id: u32, filename: Seq<char>) -> Seq<char> {
    "https://api.modarchive.org/downloads.php?moduleid="@ + dec_str(id as nat) + "#"@ + filename
}

/// Builds the download URL for the given identifier and filename,
/// reproducing [`download_link_of`] exactly.
pub fn build_download_link(id: u32, filename: &str) -> (r: String)
    ensures
        r@ == download_link_of(id, filename@),
{
    let mut out = String::from_str("https://api.modarchive.org/downloads.php?moduleid=");
    push_dec(&mut out, id);
    out.append("#");
    out.append(filename);
    out
}

} // verus!
