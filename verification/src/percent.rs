//! Percent-encoding of URL paths, part by part, and lossy decoding.

use crate::url_path::{is_slash, join_with_slash, lemma_split_nonempty, split_at};
use percent_encoding::{percent_decode_str, utf8_percent_encode, CONTROLS};
use vstd::prelude::*;
use vstd::utf8::encode_utf8;

verus! {

/// True of the bytes that are written as an escape: the control bytes below
/// the space, the delete byte, and every byte outside ASCII.
pub open spec fn must_escape(byte: u8) -> bool {
    byte < 0x20 || byte >= 0x7f
}

/// The upper-case hexadecimal digit for `n`, which is below 16.
pub open spec fn hex_digit(n: u8) -> char {
    if n < 10 {
        ('0' as u8 + n) as char
    } else {
        ('A' as u8 + (n - 10)) as char
    }
}

/// What stands for `byte` in the encoded text.
pub open spec fn encoded_byte(byte: u8) -> Seq<char> {
    if must_escape(byte) {
        seq!['%', hex_digit(byte / 16), hex_digit(byte % 16)]
    } else {
        seq![byte as char]
    }
}

/// The percent-encoding of `bytes`, byte by byte.
pub open spec fn percent_encoded(bytes: Seq<u8>) -> Seq<char>
    decreases bytes.len(),
{
    if bytes.len() == 0 {
        Seq::<char>::empty()
    } else {
        percent_encoded(bytes.drop_last()) + encoded_byte(bytes.last())
    }
}

/// The percent-encoding of the UTF-8 form of `part`.
pub open spec fn encoded_part(part: Seq<char>) -> Seq<char> {
    percent_encoded(encode_utf8(part))
}

/// The encoded form of `path`: it is cut at every `/`, each part is
/// encoded, and the parts are joined with `/` again.
pub open spec fn encoded_path(path: Seq<char>) -> Seq<char> {
    join_with_slash(split_at(path, |c: char| is_slash(c)).map_values(|p: Seq<char>| encoded_part(p)))
}

/// What percent-decoding `path` and reading the bytes as UTF-8 gives, with
/// the replacement character for what is not UTF-8.
pub uninterp spec fn lossy_percent_decoded(path: Seq<char>) -> Seq<char>;

/// `utf8_percent_encode` of percent_encoding with its set `CONTROLS`, written
/// out as a string: every byte of the UTF-8 form of `part` that is a control
/// byte, the delete byte or outside ASCII becomes `%` and two upper-case
/// hexadecimal digits, and every other byte stays as it is.
#[verifier::external_body]
fn encode_part(part: &str) -> (out: String)
    ensures
        out@ == encoded_part(part@),
{
    utf8_percent_encode(part, CONTROLS).to_string()
}

/// `percent_decode_str` of percent_encoding followed by its
/// `decode_utf8_lossy`, as an owned string. The result depends on the text
/// alone.
#[verifier::external_body]
fn decode_lossy(path: &str) -> (out: String)
    ensures
        out@ == lossy_percent_decoded(path@),
{
    percent_decode_str(path).decode_utf8_lossy().to_string()
}

/// Percent-encodes each part of `path` and keeps the `/` between them.
pub fn encode_url_path(path: &str) -> (out: String)
    ensures
        out@ == encoded_path(path@),
{
    let ghost sep = |c: char| is_slash(c);
    let ghost enc = |p: Seq<char>| encoded_part(p);
    let mut out = String::new();
    let mut any = false;
    let mut part = String::new();
    proof {
        assert(split_at(path@.take(0), sep).drop_last().map_values(enc) =~= Seq::<
            Seq<char>,
        >::empty());
    }
    for c in it: path.chars()
        invariant
            it.seq() == path@,
            sep == (|c: char| is_slash(c)),
            enc == (|p: Seq<char>| encoded_part(p)),
            part@ == split_at(path@.take(it.index()), sep).last(),
            any == (split_at(path@.take(it.index()), sep).len() > 1),
            out@ == join_with_slash(
                split_at(path@.take(it.index()), sep).drop_last().map_values(enc),
            ),
    {
        let ghost seen = path@.take(it.index());
        let ghost next = path@.take(it.index() + 1);
        proof {
            assert(next.drop_last() =~= seen);
            assert(next.last() == c);
            lemma_split_nonempty(seen, sep);
        }
        if c == '/' {
            let encoded = encode_part(part.as_str());
            if any {
                out.push('/');
            }
            out.append(encoded.as_str());
            any = true;
            part = String::new();
            proof {
                let done = split_at(seen, sep).drop_last().map_values(enc);
                let now = split_at(next, sep).drop_last().map_values(enc);
                assert(split_at(next, sep).drop_last() =~= split_at(seen, sep));
                assert(now =~= done.push(encoded@));
                assert(now.drop_last() =~= done);
            }
        } else {
            proof {
                assert(split_at(next, sep).drop_last() =~= split_at(seen, sep).drop_last());
            }
            part.push(c);
        }
    }
    let encoded = encode_part(part.as_str());
    if any {
        out.push('/');
    }
    out.append(encoded.as_str());
    proof {
        let parts = split_at(path@, sep);
        assert(path@.take(path@.len() as int) =~= path@);
        lemma_split_nonempty(path@, sep);
        let done = parts.drop_last().map_values(enc);
        let all = parts.map_values(enc);
        assert(all =~= done.push(encoded@));
        assert(all.drop_last() =~= done);
    }
    out
}

/// Percent-decodes `path` and reads the bytes as UTF-8; what is not UTF-8
/// becomes the replacement character, so the call cannot fail.
pub fn decode_url_path_safely(path: &str) -> (out: String)
    ensures
        out@ == lossy_percent_decoded(path@),
{
    decode_lossy(path)
}

} // verus!
