//! Small helpers for the Python emitters.

use vstd::prelude::*;

verus! {

/// Every quote character escaped with a backslash.
pub open spec fn spec_escape_string(s: Seq<char>) -> Seq<char>
    decreases s.len(),
{
    if s.len() == 0 {
        Seq::empty()
    } else if s.last() == '"' || s.last() == '\'' {
        spec_escape_string(s.drop_last()) + seq!['\\', s.last()]
    } else {
        spec_escape_string(s.drop_last()) + seq![s.last()]
    }
}

/// Escapes the quote characters that would end a Python string early.
pub fn escape_string(string: &str) -> (r: String)
    ensures
        r@ == spec_escape_string(string@),
{
    let len = string.unicode_len();
    let mut out = String::new();
    let mut i: usize = 0;
    while i < len
        invariant
            len == string@.len(),
            i <= len,
            out@ == spec_escape_string(string@.take(i as int)),
        decreases len - i,
    {
        let c = string.get_char(i);
        proof {
            assert(string@.take(i + 1).drop_last() =~= string@.take(i as int));
            assert(string@.take(i + 1).last() == c);
        }
        if c == '"' || c == '\'' {
            out.append("\\");
            proof {
                reveal_strlit("\\");
            }
            let piece = string.substring_char(i, i + 1);
            out.append(piece);
            proof {
                assert(piece@ =~= seq![c]);
                assert(out@ =~= spec_escape_string(string@.take(i + 1)));
            }
        } else {
            let piece = string.substring_char(i, i + 1);
            out.append(piece);
            proof {
                assert(piece@ =~= seq![c]);
                assert(out@ =~= spec_escape_string(string@.take(i + 1)));
            }
        }
        i = i + 1;
    }
    proof {
        assert(string@.take(len as int) =~= string@);
    }
    out
}

} // verus!
