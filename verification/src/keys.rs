//! Decoding of object keys from the transport encoding.
//!
//! Notification records carry object keys URL-space-encoded: a literal space
//! appears as `+`. Decoding undoes exactly that substitution and nothing
//! else; percent escapes are deliberately left as they stand.

use vstd::prelude::*;
use vstd::string::StrSliceExecFns;

verus! {

/// The decoded form of a key: every `+` replaced by a space, every other
/// character kept.
pub open spec fn decoded_key(s: Seq<char>) -> Seq<char> {
    s.map(|_i: int, c: char| if c == '+' { ' ' } else { c })
}

/// Relies on `String::push`: appends the given character at the end of the
/// string.
pub assume_specification[ String::push ](s: &mut String, ch: char)
    ensures
        final(s)@ == old(s)@.push(ch),
;

/// Replace every `+` in the key by a space; no other escaping is undone.
pub fn decode_key(s: &str) -> (r: String)
    ensures
        r@ == decoded_key(s@),
{
    let n: usize = s.unicode_len();
    let mut out = String::new();
    let mut i: usize = 0;
    while i < n
        invariant
            n == s@.len(),
            i <= n,
            out@ =~= decoded_key(s@).take(i as int),
        decreases n - i,
    {
        let c = s.get_char(i);
        if c == '+' {
            out.push(' ');
        } else {
            out.push(c);
        }
        proof {
            assert(out@ =~= decoded_key(s@).take(i as int + 1));
        }
        i = i + 1;
    }
    proof {
        assert(decoded_key(s@).take(n as int) =~= decoded_key(s@));
    }
    out
}

/// Decoding is idempotent: a key already decoded once is left unchanged by
/// a second decode, and a key that holds no `+` at all is not changed by
/// the first.
pub proof fn lemma_decode_idempotent(s: Seq<char>)
    ensures
        decoded_key(decoded_key(s)) == decoded_key(s),
        (forall|i: int| 0 <= i < s.len() ==> s[i] != '+') ==> decoded_key(s) == s,
{
    assert(decoded_key(decoded_key(s)) =~= decoded_key(s));
    if forall|i: int| 0 <= i < s.len() ==> s[i] != '+' {
        assert forall|i: int| 0 <= i < s.len() implies decoded_key(s)[i] == s[i] by {
            assert(s[i] != '+');
        }
        assert(decoded_key(s) =~= s);
    }
}

} // verus!
