use vstd::prelude::*;

verus! {

/// ASCII letters and digits: the characters the badge-label encoder keeps
/// as they are. Everything else is replaced by a percent escape.
pub open spec fn is_unreserved(c: char) -> bool {
    (48 <= c as u32 && c as u32 <= 57)  // '0' ..= '9'
    || (65 <= c as u32 && c as u32 <= 90)  // 'A' ..= 'Z'
    || (97 <= c as u32 && c as u32 <= 122)  // 'a' ..= 'z'
}

/// The uppercase hexadecimal digit for a value below sixteen.
pub open spec fn hex_upper(n: int) -> char {
    if n == 0 {
        '0'
    } else if n == 1 {
        '1'
    } else if n == 2 {
        '2'
    } else if n == 3 {
        '3'
    } else if n == 4 {
        '4'
    } else if n == 5 {
        '5'
    } else if n == 6 {
        '6'
    } else if n == 7 {
        '7'
    } else if n == 8 {
        '8'
    } else if n == 9 {
        '9'
    } else if n == 10 {
        'A'
    } else if n == 11 {
        'B'
    } else if n == 12 {
        'C'
    } else if n == 13 {
        'D'
    } else if n == 14 {
        'E'
    } else if n == 15 {
        'F'
    } else {
        '0'
    }
}

/// Percent encoding of one ASCII character: kept when unreserved, otherwise
/// a '%' followed by the two uppercase hex digits of its code.
pub open spec fn pct_char(c: char) -> Seq<char> {
    if is_unreserved(c) {
        seq![c]
    } else {
        seq!['%', hex_upper(c as u32 as int / 16), hex_upper(c as u32 as int % 16)]
    }
}

/// Percent encoding of an ASCII text, character by character. For ASCII
/// input this pins the encoder's output exactly; non-ASCII input is
/// covered only by the opaque `percent_encoded`.
pub open spec fn pct_seq(s: Seq<char>) -> Seq<char>
    decreases s.len(),
{
    if s.len() == 0 {
        Seq::empty()
    } else {
        pct_char(s[0]) + pct_seq(s.drop_first())
    }
}

/// A character that may appear in an encoded label: an unreserved
/// character or the escape lead '%'.
pub open spec fn url_code_point(c: char) -> bool {
    is_unreserved(c) || c == '%'
}

/// Every character of the text is fit for an encoded URL label.
pub open spec fn url_code_points(s: Seq<char>) -> bool {
    forall|i: int| 0 <= i < s.len() ==> url_code_point(#[trigger] s[i])
}

/// An uppercase hexadecimal digit.
pub open spec fn is_hex_upper_char(c: char) -> bool {
    (48 <= c as u32 && c as u32 <= 57)  // '0' ..= '9'
    || (65 <= c as u32 && c as u32 <= 70)  // 'A' ..= 'F'
}

/// Every '%' in the text opens a complete escape: two uppercase
/// hexadecimal digits follow it within bounds.
pub open spec fn escapes_complete(s: Seq<char>) -> bool {
    forall|i: int|
        0 <= i < s.len() && (#[trigger] s[i]) == '%' ==> i + 3 <= s.len() && is_hex_upper_char(
            s[i + 1],
        ) && is_hex_upper_char(s[i + 2])
}

/// An encoded label in good shape: only unreserved characters and '%',
/// and every '%' opens a complete two-digit escape.
pub open spec fn well_formed_encoding(s: Seq<char>) -> bool {
    url_code_points(s) && escapes_complete(s)
}

/// The percent encoding of an arbitrary text, as the encoder computes it
/// from the text's UTF-8 bytes. Left opaque: for non-ASCII input the exact
/// byte expansion is not restated here, only named.
pub uninterp spec fn percent_encoded(s: Seq<char>) -> Seq<char>;

/// Relies on percent_encoding::utf8_percent_encode with NON_ALPHANUMERIC:
/// every byte of the input's UTF-8 form that is not an ASCII letter or
/// digit (non-ASCII bytes included) becomes '%' plus two uppercase hex
/// digits, and ASCII letters and digits are kept unchanged; for ASCII
/// input the bytes are exactly the characters. A literal '%' is itself
/// non-alphanumeric and therefore always escaped, so every '%' of the
/// result opens a complete escape.
#[verifier::external_body]
pub(crate) fn percent_encode(s: &str) -> (r: String)
    ensures
        r@ == percent_encoded(s@),
        vstd::string::is_ascii(s) ==> r@ == pct_seq(s@),
        well_formed_encoding(r@),
{
    percent_encoding::utf8_percent_encode(s, percent_encoding::NON_ALPHANUMERIC).to_string()
}

} // verus!
