//! How a result row is shown.

use vstd::prelude::*;

verus! {

/// Descriptions longer than this many bytes are shortened.
pub const DESCRIPTION_BYTES: usize = 40;

/// A shortened description keeps this many characters.
pub const DESCRIPTION_CHARS: usize = 45;

/// The first `n` characters of `s`, or all of them where it is shorter.
pub open spec fn prefix_chars(s: Seq<char>, n: nat) -> Seq<char> {
    if s.len() <= n {
        s
    } else {
        s.take(n as int)
    }
}

/// The description as a row shows it: one longer than forty bytes keeps
/// its first forty-five characters followed by an ellipsis of three dots;
/// a shorter one is shown as it is.
pub open spec fn short_description_spec(d: &str) -> Seq<char> {
    if d.len() > DESCRIPTION_BYTES {
        prefix_chars(d@, DESCRIPTION_CHARS as nat) + "..."@
    } else {
        d@
    }
}

/// The description as a row shows it.
pub fn short_description(d: &str) -> (r: String)
    ensures
        r@ == short_description_spec(d),
{
    if d.len() <= DESCRIPTION_BYTES {
        return d.to_owned();
    }
    let len = d.unicode_len();
    let keep = if len < DESCRIPTION_CHARS { len } else { DESCRIPTION_CHARS };
    let mut r = d.substring_char(0, keep).to_owned();
    r.append("...");
    proof {
        reveal_strlit("...");
        assert(d@.subrange(0, keep as int) =~= prefix_chars(d@, DESCRIPTION_CHARS as nat));
    }
    r
}

} // verus!
