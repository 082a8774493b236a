//! Text as it is typed and as it travels: white space and UTF-8.

use vstd::prelude::*;
use vstd::utf8::*;

verus! {

/// Whether `c` has the Unicode property `White_Space`.
pub open spec fn is_white_space(c: char) -> bool {
    let code = c as u32;
    ||| 0x9 <= code <= 0xd
    ||| code == 0x20
    ||| code == 0x85
    ||| code == 0xa0
    ||| code == 0x1680
    ||| 0x2000 <= code <= 0x200a
    ||| code == 0x2028
    ||| code == 0x2029
    ||| code == 0x202f
    ||| code == 0x205f
    ||| code == 0x3000
}

/// `s` without the white space at its start and at its end.
pub open spec fn trimmed(s: Seq<char>) -> Seq<char>
    decreases s.len(),
{
    if s.len() == 0 {
        s
    } else if is_white_space(s.first()) {
        trimmed(s.drop_first())
    } else if is_white_space(s.last()) {
        trimmed(s.drop_last())
    } else {
        s
    }
}

/// Calls `str::trim`. Trusted: it removes exactly the leading and the trailing
/// characters that have the Unicode property `White_Space`.
#[verifier::external_body]
pub(crate) fn trim(s: &str) -> (r: &str)
    ensures
        r@ == trimmed(s@),
{
    s.trim()
}

/// A trimmed text starts and ends with something visible, and trimming it again
/// changes nothing.
pub proof fn law_trimmed_has_no_white_space_at_its_ends(s: Seq<char>)
    ensures
        trimmed(s).len() > 0 ==> !is_white_space(trimmed(s).first()) && !is_white_space(
            trimmed(s).last(),
        ),
        trimmed(trimmed(s)) == trimmed(s),
    decreases s.len(),
{
    if s.len() > 0 {
        if is_white_space(s.first()) {
            law_trimmed_has_no_white_space_at_its_ends(s.drop_first());
        } else if is_white_space(s.last()) {
            law_trimmed_has_no_white_space_at_its_ends(s.drop_last());
        }
    }
}

/// Among the characters of ASCII, white space is the blank, the tabulators and
/// the ends of lines and pages.
pub proof fn law_blanks_are_white_space(c: char)
    requires
        c as u32 <= 0x7f,
    ensures
        is_white_space(c) <==> c == ' ' || c == '\t' || c == '\n' || c == '\x0b' || c == '\x0c' || c
            == '\r',
{
}

/// Whether every character of `s` is white space.
pub open spec fn is_blank(s: Seq<char>) -> bool {
    forall|i: int| 0 <= i < s.len() ==> is_white_space(#[trigger] s[i])
}

/// Only white space is trimmed: the text is what trimming leaves of it, with
/// nothing but white space before it and after it.
pub proof fn law_only_white_space_is_trimmed(s: Seq<char>) -> (around: (Seq<char>, Seq<char>))
    ensures
        s == around.0 + trimmed(s) + around.1,
        is_blank(around.0),
        is_blank(around.1),
    decreases s.len(),
{
    if s.len() == 0 {
        assert(s =~= s + s + s);
        (s, s)
    } else if is_white_space(s.first()) {
        let (left, right) = law_only_white_space_is_trimmed(s.drop_first());
        let wider = seq![s.first()] + left;
        assert(s =~= seq![s.first()] + s.drop_first());
        assert(wider + trimmed(s) + right =~= seq![s.first()] + (left + trimmed(s) + right));
        assert(is_blank(wider)) by {
            assert forall|i: int| 0 <= i < wider.len() implies is_white_space(
                #[trigger] wider[i],
            ) by {
                assert(i > 0 ==> wider[i] == left[i - 1]);
            }
        }
        (wider, right)
    } else if is_white_space(s.last()) {
        let (left, right) = law_only_white_space_is_trimmed(s.drop_last());
        let wider = right.push(s.last());
        assert(s =~= s.drop_last().push(s.last()));
        assert(left + trimmed(s) + wider =~= (left + trimmed(s) + right).push(s.last()));
        assert(is_blank(wider)) by {
            assert forall|i: int| 0 <= i < wider.len() implies is_white_space(
                #[trigger] wider[i],
            ) by {
                assert(i < right.len() ==> wider[i] == right[i]);
            }
        }
        (left, wider)
    } else {
        let nothing = Seq::<char>::empty();
        assert(s =~= nothing + s + nothing);
        (nothing, nothing)
    }
}

/// White space around a text does not matter: a text that neither starts nor ends
/// with white space is what trimming leaves of it, whatever white space is put
/// before and after it.
pub proof fn law_padding_is_trimmed(left: Seq<char>, text: Seq<char>, right: Seq<char>)
    requires
        is_blank(left),
        is_blank(right),
        text.len() > 0 ==> !is_white_space(text.first()) && !is_white_space(text.last()),
    ensures
        trimmed(left + text + right) == text,
    decreases left.len() + right.len(),
{
    let s = left + text + right;
    if left.len() > 0 {
        assert(s.first() == left[0]);
        assert(s.drop_first() =~= left.drop_first() + text + right);
        assert forall|i: int| 0 <= i < left.drop_first().len() implies is_white_space(
            #[trigger] left.drop_first()[i],
        ) by {
            assert(left.drop_first()[i] == left[i + 1]);
        }
        law_padding_is_trimmed(left.drop_first(), text, right);
    } else if right.len() > 0 {
        if text.len() == 0 {
            assert(s.first() == right[0]);
            assert(s.drop_first() =~= left + text + right.drop_first());
            assert forall|i: int| 0 <= i < right.drop_first().len() implies is_white_space(
                #[trigger] right.drop_first()[i],
            ) by {
                assert(right.drop_first()[i] == right[i + 1]);
            }
            law_padding_is_trimmed(left, text, right.drop_first());
        } else {
            assert(s.first() == text.first());
            assert(s.last() == right[right.len() - 1]);
            assert(s.drop_last() =~= left + text + right.drop_last());
            assert forall|i: int| 0 <= i < right.drop_last().len() implies is_white_space(
                #[trigger] right.drop_last()[i],
            ) by {
                assert(right.drop_last()[i] == right[i]);
            }
            law_padding_is_trimmed(left, text, right.drop_last());
        }
    } else {
        assert(s =~= text);
    }
}

/// What `String::from_utf8_lossy` makes of bytes that are not valid UTF-8: the
/// text with each invalid sequence replaced.
pub uninterp spec fn lossy_replacement(bytes: Seq<u8>) -> Seq<char>;

/// The text that `bytes` stand for, with each invalid sequence replaced.
pub open spec fn lossy_text(bytes: Seq<u8>) -> Seq<char> {
    if valid_utf8(bytes) {
        decode_utf8(bytes)
    } else {
        lossy_replacement(bytes)
    }
}

/// Calls `String::from_utf8_lossy`. Trusted: valid UTF-8 is decoded as it is;
/// other bytes give a text that depends on them alone and that holds the
/// replacement character U+FFFD. Where the replacement characters stand in it
/// is not stated.
#[verifier::external_body]
pub(crate) fn from_utf8_lossy(bytes: &[u8]) -> (text: String)
    ensures
        valid_utf8(bytes@) ==> text@ == decode_utf8(bytes@),
        !valid_utf8(bytes@) ==> text@ == lossy_replacement(bytes@),
        !valid_utf8(bytes@) ==> text@.contains('\u{fffd}'),
{
    String::from_utf8_lossy(bytes).into_owned()
}

/// Valid UTF-8 is read as the text whose encoding it is; other bytes are read as
/// the text that replaces their invalid sequences.
pub proof fn law_valid_bytes_are_decoded(bytes: Seq<u8>)
    ensures
        valid_utf8(bytes) ==> encode_utf8(lossy_text(bytes)) == bytes,
        !valid_utf8(bytes) ==> lossy_text(bytes) == lossy_replacement(bytes),
{
    if valid_utf8(bytes) {
        decode_utf8_encode_utf8(bytes);
    }
}

/// Text that is encoded and then decoded comes back unchanged.
pub proof fn law_encoded_text_is_read_back(text: Seq<char>)
    ensures
        lossy_text(encode_utf8(text)) == text,
        encode_utf8(text).len() == 0 <==> text.len() == 0,
{
    encode_utf8_valid_utf8(text);
    encode_utf8_decode_utf8(text);
    if text.len() > 0 {
        encode_utf8_first_scalar(text);
    }
}

} // verus!
