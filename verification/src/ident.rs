//! Callback identifier generation.
//!
//! Every caller-side bridge instance owns a process-unique identifier
//! under which its response handler is registered and which the host
//! runtime echoes back with replies.  Identifiers are drawn at random and
//! then normalized so that they can be embedded verbatim both in a JSON
//! envelope and in a host-side function name: hyphens become underscores,
//! everything else is a lowercase hexadecimal digit.

use vstd::prelude::*;
use vstd::string::StrSliceExecFns;
use vstd::string::StringExecFns;

verus! {

/// A lowercase hexadecimal digit.
pub open spec fn is_lower_hex(c: char) -> bool {
    ('0' <= c && c <= '9') || ('a' <= c && c <= 'f')
}

/// The positions at which the canonical 36-character identifier form
/// carries a separator.
pub open spec fn is_separator_pos(i: int) -> bool {
    i == 8 || i == 13 || i == 18 || i == 23
}

/// The shape of every generated callback identifier: 36 characters,
/// underscores at the separator positions, lowercase hex digits
/// everywhere else.  Such a text is safe inside a JSON string and inside
/// a host-side identifier alike.
pub open spec fn id_shape(s: Seq<char>) -> bool {
    &&& s.len() == 36
    &&& forall|i: int| 0 <= i < 36 && is_separator_pos(i) ==> #[trigger] s[i] == '_'
    &&& forall|i: int| 0 <= i < 36 && !is_separator_pos(i) ==> is_lower_hex(#[trigger] s[i])
}

/// Relies on uuid::Uuid::new_v4 and its display form: whatever random
/// value is drawn, the hyphenated text is 36 characters with hyphens at
/// the separator positions and lowercase hex digits everywhere else.
/// Nothing links two calls: each draw is independent.
#[verifier::external_body]
fn fresh_uuid_hyphenated() -> (r: String)
    ensures
        r@.len() == 36,
        forall|i: int| 0 <= i < 36 && is_separator_pos(i) ==> #[trigger] r@[i] == '-',
        forall|i: int| 0 <= i < 36 && !is_separator_pos(i) ==> is_lower_hex(#[trigger] r@[i]),
{
    uuid::Uuid::new_v4().to_string()
}

/// The text with every hyphen replaced by an underscore and nothing else
/// changed.
pub open spec fn underscored(s: Seq<char>) -> Seq<char> {
    s.map(
        |i: int, c: char|
            if c == '-' {
                '_'
            } else {
                c
            },
    )
}

/// Replaces every hyphen with an underscore, leaving all other characters
/// and their order untouched.
pub fn sanitize_callback_id(s: &str) -> (r: String)
    ensures
        r@ == underscored(s@),
{
    let n = s.unicode_len();
    let mut r = String::new();
    let mut i: usize = 0;
    while i < n
        invariant
            n == s@.len(),
            i <= n,
            r@ == underscored(s@).subrange(0, i as int),
        decreases n - i,
    {
        let ghost r0 = r@;
        let c = s.get_char(i);
        if c == '-' {
            r.append("_");
            proof {
                reveal_strlit("_");
                assert("_"@.len() == 1 && "_"@[0] == '_');
                assert(r@ == r0 + "_"@);
            }
        } else {
            let piece = s.substring_char(i, i + 1);
            r.append(piece);
            proof {
                assert(piece@.len() == 1 && piece@[0] == s@[i as int]);
                assert(r@ == r0 + piece@);
            }
        }
        proof {
            assert(underscored(s@).len() == s@.len());
            assert(underscored(s@)[i as int] == (if s@[i as int] == '-' {
                '_'
            } else {
                s@[i as int]
            }));
            assert(r@ =~= underscored(s@).subrange(0, i + 1));
        }
        i = i + 1;
    }
    proof {
        assert(underscored(s@).subrange(0, s@.len() as int) =~= underscored(s@));
    }
    r
}

/// Draws a fresh callback identifier: random, 36 characters, in the
/// canonical underscore-separated lowercase-hex shape.
pub fn fresh_callback_id() -> (r: String)
    ensures
        id_shape(r@),
{
    let u = fresh_uuid_hyphenated();
    let r = sanitize_callback_id(u.as_str());
    proof {
        assert forall|i: int| 0 <= i < 36 && !is_separator_pos(i) implies is_lower_hex(
            #[trigger] r@[i],
        ) by {
            assert(is_lower_hex(u@[i]));
            assert(u@[i] != '-');
        }
    }
    r
}

} // verus!
