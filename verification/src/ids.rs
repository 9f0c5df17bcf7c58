//! Record identifiers (UUIDs, held as their 128-bit value) and their text forms.

use vstd::prelude::*;

verus! {

/// The lowercase hexadecimal character of a digit below 16.
pub open spec fn hex_digit(d: nat) -> char {
    if d < 10 {
        (48 + d) as char
    } else {
        (87 + d) as char
    }
}

/// The last `width` hexadecimal digits of `n`, most significant first, zero-padded.
pub open spec fn hex_fixed(n: nat, width: nat) -> Seq<char>
    decreases width,
{
    if width == 0 {
        Seq::empty()
    } else {
        hex_fixed(n / 16, (width - 1) as nat).push(hex_digit(n % 16))
    }
}

/// Whether `c` is a lowercase hexadecimal digit.
pub open spec fn is_lower_hex(c: char) -> bool {
    ('0' <= c && c <= '9') || ('a' <= c && c <= 'f')
}

/// Each of the `width` digits of `n` in hexadecimal is a lowercase hexadecimal digit.
pub proof fn lemma_hex_fixed_shape(n: nat, width: nat)
    ensures
        hex_fixed(n, width).len() == width,
        forall|i: int| 0 <= i < width ==> is_lower_hex(#[trigger] hex_fixed(n, width)[i]),
    decreases width,
{
    if width > 0 {
        lemma_hex_fixed_shape(n / 16, (width - 1) as nat);
        let d = n % 16;
        assert(is_lower_hex(hex_digit(d)));
    }
}

/// The hyphenated lowercase text of the UUID whose big-endian value is `id`, in groups of
/// 8, 4, 4, 4 and 12 hexadecimal digits.
pub open spec fn uuid_hyphenated(id: u128) -> Seq<char> {
    let h = hex_fixed(id as nat, 32);
    h.subrange(0, 8) + seq!['-'] + h.subrange(8, 12) + seq!['-'] + h.subrange(12, 16) + seq![
        '-',
    ] + h.subrange(16, 20) + seq!['-'] + h.subrange(20, 32)
}

/// What uuid's `Uuid::parse_str` gives for `text`: the value of the UUID it reads, if it
/// reads one.
pub uninterp spec fn uuid_parse(text: Seq<char>) -> Option<u128>;

/// Calls uuid's `Uuid::from_u128(id).to_string()`. Claimed: the hyphenated lowercase text
/// of `id`, read big-endian, as uuid documents it.
#[verifier::external_body]
pub(crate) fn uuid_to_text(id: u128) -> (r: String)
    ensures
        r@ == uuid_hyphenated(id),
{
    uuid::Uuid::from_u128(id).to_string()
}

/// Calls uuid's `Uuid::parse_str(text)`. Claimed: the result is a function of `text`
/// alone, and the hyphenated text of a UUID reads back as that UUID.
#[verifier::external_body]
pub(crate) fn parse_uuid_text(text: &str) -> (r: Option<u128>)
    ensures
        r == uuid_parse(text@),
        forall|id: u128| text@ == uuid_hyphenated(id) ==> r == Some(id),
{
    match uuid::Uuid::parse_str(text) {
        Ok(id) => Some(id.as_u128()),
        Err(_) => None,
    }
}

/// The characters of `s` before its first `sep`, all of `s` when it holds none (what
/// `s.split(sep).next()` yields).
pub open spec fn first_segment(s: Seq<char>, sep: char) -> Seq<char>
    decreases s.len(),
{
    if s.len() == 0 || s[0] == sep {
        Seq::empty()
    } else {
        seq![s[0]] + first_segment(s.drop_first(), sep)
    }
}

/// The characters of `s` before its first `sep`.
pub fn first_segment_of(s: &str, sep: char) -> (r: String)
    ensures
        r@ == first_segment(s@, sep),
{
    let v = crate::text::chars_of(s);
    let mut i: usize = 0;
    assert(v@.skip(0) =~= v@);
    assert(v@.take(0) + first_segment(v@, sep) =~= first_segment(v@, sep));
    while i < v.len() && v[i] != sep
        invariant
            i <= v.len(),
            v@ == s@,
            first_segment(s@, sep) == v@.take(i as int) + first_segment(v@.skip(i as int), sep),
        decreases v.len() - i,
    {
        assert(v@.skip(i as int).drop_first() =~= v@.skip(i + 1));
        assert(v@.take(i + 1) =~= v@.take(i as int) + seq![v@[i as int]]);
        i = i + 1;
    }
    let mut out: Vec<char> = Vec::new();
    let mut j: usize = 0;
    while j < i
        invariant
            j <= i <= v.len(),
            out@ == v@.take(j as int),
        decreases i - j,
    {
        out.push(v[j]);
        j = j + 1;
        assert(out@ =~= v@.take(j as int));
    }
    assert(first_segment(v@.skip(i as int), sep) =~= Seq::<char>::empty());
    assert(out@ + Seq::<char>::empty() =~= out@);
    crate::text::string_of(&out)
}

} // verus!
