//! Facts about text: whether a message mentions a phrase, and the link
//! that both diagnostics give.
use vstd::prelude::*;

verus! {

/// `text` holds `part` as a contiguous run of characters.
pub open spec fn mentions(text: Seq<char>, part: Seq<char>) -> bool {
    exists|i: int|
        0 <= i && i + part.len() <= text.len() && #[trigger] text.subrange(i, i + part.len())
            == part
}

/// The readme that the diagnostics point to for details.
pub open spec fn readme_link() -> Seq<char> {
    "https://github.com/ragnargrootkoerkamp/ensure_simd"@
}

} // verus!
