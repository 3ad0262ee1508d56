//! Fixed-width text fields: zero padding on the way in, lossy decoding and
//! trimming on the way out.

use vstd::prelude::*;
use vstd::string::StrSliceExecFns;
use vstd::utf8::{
    decode_utf8, encode_scalar, encode_utf8, encode_utf8_decode_utf8, encode_utf8_valid_utf8,
    is_ascii_chars, is_ascii_chars_encode_utf8, valid_utf8,
};

verus! {

/// `bytes` followed by as many zero bytes as it takes to reach `width`.
/// A sequence that is already `width` long or longer is left as it is.
pub open spec fn zero_padded(bytes: Seq<u8>, width: nat) -> Seq<u8> {
    if bytes.len() >= width {
        bytes
    } else {
        bytes + Seq::new((width - bytes.len()) as nat, |i: int| 0u8)
    }
}

/// The characters of `chars` up to and including the last one that is not
/// the NUL character.
pub open spec fn trim_nuls(chars: Seq<char>) -> Seq<char>
    decreases chars.len(),
{
    if chars.len() > 0 && chars.last() == '\0' {
        trim_nuls(chars.drop_last())
    } else {
        chars
    }
}

/// The text that lossy UTF-8 decoding makes of `bytes`: valid sequences
/// decoded, every invalid one replaced by U+FFFD.
pub uninterp spec fn utf8_lossy(bytes: Seq<u8>) -> Seq<char>;

/// Copies `bytes` into an array of `N` bytes and fills the rest with zeros.
pub fn zero_pad<const N: usize>(bytes: &[u8]) -> (padded: [u8; N])
    requires
        bytes@.len() <= N,
    ensures
        padded@ == zero_padded(bytes@, N as nat),
{
    let mut padded = [0u8; N];
    let mut i: usize = 0;
    while i < bytes.len()
        invariant
            i <= bytes@.len() <= N,
            forall|j: int| 0 <= j < i ==> padded[j] == bytes[j],
            forall|j: int| i <= j < N ==> padded[j] == 0,
        decreases bytes@.len() - i,
    {
        padded[i] = bytes[i];
        i += 1;
    }
    assert(padded@ =~= zero_padded(bytes@, N as nat));
    padded
}

/// `String::from_utf8_lossy`, with the result taken as an owned string.
/// The result is named `utf8_lossy` of the input. Of valid UTF-8 it is the
/// text that the bytes encode, as the standard library documents; of other
/// input nothing more is claimed.
#[verifier::external_body]
pub(crate) fn decode_lossy(bytes: &[u8]) -> (text: String)
    ensures
        text@ == utf8_lossy(bytes@),
        valid_utf8(bytes@) ==> text@ == decode_utf8(bytes@),
{
    String::from_utf8_lossy(bytes).into_owned()
}

/// Drops the NUL characters that end `text`.
pub fn trim_trailing_nuls(text: &str) -> (trimmed: String)
    ensures
        trimmed@ == trim_nuls(text@),
{
    let mut end: usize = text.unicode_len();
    assert(text@.subrange(0, end as int) =~= text@);
    while end > 0 && text.get_char(end - 1) == '\0'
        invariant
            end <= text@.len(),
            trim_nuls(text@) == trim_nuls(text@.subrange(0, end as int)),
        decreases end,
    {
        proof {
            let kept = text@.subrange(0, end as int);
            assert(kept.last() == text@[end - 1]);
            assert(kept.drop_last() =~= text@.subrange(0, end - 1));
        }
        end -= 1;
    }
    proof {
        let kept = text@.subrange(0, end as int);
        if end > 0 {
            assert(kept.last() == text@[end - 1]);
        }
        assert(trim_nuls(kept) == kept);
    }
    text.substring_char(0, end).to_owned()
}

/// `count` NUL characters.
pub open spec fn nuls(count: nat) -> Seq<char> {
    Seq::new(count, |i: int| '\0')
}

/// The encoding of two texts in a row is the encoding of the first followed
/// by the encoding of the second.
proof fn lemma_encode_concat(first: Seq<char>, second: Seq<char>)
    ensures
        encode_utf8(first + second) == encode_utf8(first) + encode_utf8(second),
    decreases first.len(),
{
    if first.len() == 0 {
        assert(first + second =~= second);
        assert(encode_utf8(first) + encode_utf8(second) =~= encode_utf8(second));
    } else {
        assert((first + second).drop_first() =~= first.drop_first() + second);
        lemma_encode_concat(first.drop_first(), second);
        assert(encode_utf8(first + second) =~= encode_scalar(first[0] as u32) + (encode_utf8(
            first.drop_first(),
        ) + encode_utf8(second)));
        assert(encode_utf8(first + second) =~= encode_utf8(first) + encode_utf8(second));
    }
}

/// NUL characters added at the end are trimmed away again.
proof fn lemma_trim_appended_nuls(chars: Seq<char>, count: nat)
    ensures
        trim_nuls(chars + nuls(count)) == trim_nuls(chars),
    decreases count,
{
    if count == 0 {
        assert(chars + nuls(0) =~= chars);
    } else {
        let longer = chars + nuls(count);
        assert(longer.last() == '\0');
        assert(longer.drop_last() =~= chars + nuls((count - 1) as nat));
        lemma_trim_appended_nuls(chars, (count - 1) as nat);
    }
}

/// A text that was encoded and padded with zero bytes reads back as itself:
/// the padded bytes are valid UTF-8, and what they decode to, trimmed of the
/// NUL characters at its end, is the text trimmed likewise.
pub proof fn lemma_padded_text_reads_back(chars: Seq<char>, width: nat)
    requires
        encode_utf8(chars).len() <= width,
    ensures
        valid_utf8(zero_padded(encode_utf8(chars), width)),
        trim_nuls(decode_utf8(zero_padded(encode_utf8(chars), width))) == trim_nuls(chars),
{
    let encoded = encode_utf8(chars);
    let count = (width - encoded.len()) as nat;
    let padding = nuls(count);
    assert(is_ascii_chars(padding));
    is_ascii_chars_encode_utf8(padding);
    assert(encode_utf8(padding) =~= Seq::new(count, |i: int| 0u8)) by {
        assert forall|i: int| 0 <= i < count implies encode_utf8(padding)[i] == 0u8 by {
            assert(padding[i] == '\0');
            assert(padding[i] as u8 == encode_utf8(padding)[i]);
        }
    }
    lemma_encode_concat(chars, padding);
    assert(zero_padded(encoded, width) =~= encode_utf8(chars + padding));
    encode_utf8_valid_utf8(chars + padding);
    encode_utf8_decode_utf8(chars + padding);
    lemma_trim_appended_nuls(chars, count);
}

} // verus!
