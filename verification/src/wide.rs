//! Marshalling of the fixed target name into the text representation the
//! platform credential API expects: UTF-16 code units followed by a single
//! terminating null unit.

use vstd::prelude::*;
use vstd::utf8::char_is_scalar;

verus! {

/// The UTF-16 encoding of one character: a single code unit for a character
/// in the basic multilingual plane, a surrogate pair otherwise.
pub open spec fn utf16_encode_char(c: char) -> Seq<u16> {
    let v = c as u32;
    if v < 0x10000 {
        seq![v as u16]
    } else {
        seq![
            (0xD800 + (v - 0x10000) / 0x400) as u16,
            (0xDC00 + (v - 0x10000) % 0x400) as u16,
        ]
    }
}

/// The UTF-16 encoding of a character sequence.
pub open spec fn utf16_encode(s: Seq<char>) -> Seq<u16>
    decreases s.len(),
{
    if s.len() == 0 {
        Seq::<u16>::empty()
    } else {
        utf16_encode_char(s[0]) + utf16_encode(s.drop_first())
    }
}

/// Appending one character extends the encoding by that character's units.
pub proof fn lemma_utf16_encode_push(s: Seq<char>, c: char)
    ensures
        utf16_encode(s.push(c)) == utf16_encode(s) + utf16_encode_char(c),
    decreases s.len(),
{
    if s.len() == 0 {
        assert(s.push(c).drop_first() =~= Seq::<char>::empty());
        assert(s.push(c)[0] == c);
        assert(utf16_encode(s.push(c)) =~= utf16_encode_char(c) + utf16_encode(
            Seq::<char>::empty(),
        ));
        assert(utf16_encode_char(c) + Seq::<u16>::empty() =~= utf16_encode_char(c));
        assert(utf16_encode(s) + utf16_encode_char(c) =~= utf16_encode_char(c));
    } else {
        lemma_utf16_encode_push(s.drop_first(), c);
        assert(s.push(c).drop_first() =~= s.drop_first().push(c));
        assert(utf16_encode_char(s[0]) + (utf16_encode(s.drop_first()) + utf16_encode_char(c)) =~= (
        utf16_encode_char(s[0]) + utf16_encode(s.drop_first())) + utf16_encode_char(c));
    }
}

/// Encodes a string as the null-terminated wide-character unit sequence the
/// platform credential API takes as a target name.
pub fn string_to_pwstr(s: &str) -> (r: Vec<u16>)
    ensures
        r@ == utf16_encode(s@).push(0u16),
{
    let n: usize = s.unicode_len();
    let mut r: Vec<u16> = Vec::new();
    let mut i: usize = 0;
    while i < n
        invariant
            i <= n,
            n == s@.len(),
            r@ == utf16_encode(s@.take(i as int)),
        decreases n - i,
    {
        let c: char = s.get_char(i);
        proof {
            char_is_scalar(c);
            assert(s@.take(i as int + 1) =~= s@.take(i as int).push(c));
            lemma_utf16_encode_push(s@.take(i as int), c);
        }
        let v: u32 = c as u32;
        if v < 0x10000 {
            r.push(v as u16);
            proof {
                assert(r@ =~= utf16_encode(s@.take(i as int + 1)));
            }
        } else {
            let off: u32 = v - 0x10000;
            assert(off / 0x400 <= 0x3FF) by (nonlinear_arith)
                requires
                    off <= 0xFFFFF,
            ;
            let hi: u32 = 0xD800 + off / 0x400;
            let lo: u32 = 0xDC00 + off % 0x400;
            r.push(hi as u16);
            r.push(lo as u16);
            proof {
                assert(r@ =~= utf16_encode(s@.take(i as int + 1)));
            }
        }
        i = i + 1;
    }
    proof {
        assert(s@.take(n as int) =~= s@);
    }
    r.push(0u16);
    r
}

/// The fixed name under which the application's one credential is kept in
/// the platform vault.
pub fn credential_target() -> (s: &'static str)
    ensures
        s@ == "LunchToGo_API_Key"@,
{
    "LunchToGo_API_Key"
}

} // verus!
