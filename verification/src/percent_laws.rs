//! What holds of every encoded path.

use crate::percent::{encoded_byte, encoded_part, encoded_path, percent_encoded};
use crate::url_path::{is_slash, join_with_slash, lemma_split_nonempty, split_at};
use vstd::prelude::*;
use vstd::utf8::{encode_scalar, encode_utf8};

verus! {

/// The encoding of two byte sequences written one after the other is the
/// two encodings written one after the other.
pub proof fn percent_encoded_concat(front: Seq<u8>, back: Seq<u8>)
    ensures
        percent_encoded(front + back) == percent_encoded(front) + percent_encoded(back),
    decreases back.len(),
{
    if back.len() == 0 {
        assert(front + back =~= front);
        assert(percent_encoded(front) + percent_encoded(back) =~= percent_encoded(front));
    } else {
        percent_encoded_concat(front, back.drop_last());
        assert((front + back).drop_last() =~= front + back.drop_last());
        assert((front + back).last() == back.last());
        assert(percent_encoded(front + back) =~= percent_encoded(front) + percent_encoded(back));
    }
}

/// The UTF-8 form of two texts written one after the other is the two
/// UTF-8 forms written one after the other.
pub proof fn utf8_concat(front: Seq<char>, back: Seq<char>)
    ensures
        encode_utf8(front + back) == encode_utf8(front) + encode_utf8(back),
    decreases front.len(),
{
    if front.len() == 0 {
        assert(front + back =~= back);
        assert(encode_utf8(front) + encode_utf8(back) =~= encode_utf8(back));
    } else {
        utf8_concat(front.drop_first(), back);
        assert((front + back).drop_first() =~= front.drop_first() + back);
        assert((front + back)[0] == front[0]);
        assert(encode_utf8(front + back) =~= encode_utf8(front) + encode_utf8(back));
    }
}

/// Parts written one after the other encode to their encodings written one
/// after the other.
pub proof fn encoded_part_concat(front: Seq<char>, back: Seq<char>)
    ensures
        encoded_part(front + back) == encoded_part(front) + encoded_part(back),
{
    utf8_concat(front, back);
    percent_encoded_concat(encode_utf8(front), encode_utf8(back));
}

/// A `/` is encoded as itself.
pub proof fn slash_is_not_escaped()
    ensures
        encoded_part(seq!['/']) == seq!['/'],
{
    let slash = seq!['/'];
    let code: u32 = '/' as u32;
    assert(code == 0x2f);
    assert((0x2fu32 & 0x7f) as u8 == 0x2fu8) by (bit_vector);
    assert(encode_scalar(code) =~= seq![0x2fu8]);
    assert(encode_utf8(slash.drop_first()) =~= Seq::<u8>::empty());
    assert(encode_utf8(slash) =~= seq![0x2fu8]);
    let bytes = seq![0x2fu8];
    assert(percent_encoded(bytes.drop_last()) =~= Seq::<char>::empty());
    assert(encoded_byte(0x2fu8) =~= seq!['/']);
    assert(percent_encoded(bytes) =~= seq!['/']);
}

/// The pieces of a split, joined with the one separator `/`, are the text
/// that was split.
pub proof fn join_undoes_split(s: Seq<char>)
    ensures
        join_with_slash(split_at(s, |c: char| is_slash(c))) == s,
    decreases s.len(),
{
    let sep = |c: char| is_slash(c);
    lemma_split_nonempty(s, sep);
    if s.len() == 0 {
        assert(split_at(s, sep)[0] =~= s);
    } else {
        let before = split_at(s.drop_last(), sep);
        join_undoes_split(s.drop_last());
        lemma_split_nonempty(s.drop_last(), sep);
        assert(s.drop_last().push(s.last()) =~= s);
        if sep(s.last()) {
            let now = before.push(Seq::<char>::empty());
            assert(now.drop_last() =~= before);
            assert(join_with_slash(now) =~= s);
        } else {
            let now = before.drop_last().push(before.last().push(s.last()));
            if before.len() == 1 {
                assert(now[0] =~= before[0].push(s.last()));
            } else {
                assert(now.drop_last() =~= before.drop_last());
                assert(join_with_slash(now) =~= join_with_slash(before).push(s.last()));
            }
        }
    }
}

/// Encoding the parts and joining them gives the encoding of the joined
/// parts.
pub proof fn encoding_passes_through_join(parts: Seq<Seq<char>>)
    ensures
        join_with_slash(parts.map_values(|p: Seq<char>| encoded_part(p))) == encoded_part(
            join_with_slash(parts),
        ),
    decreases parts.len(),
{
    let enc = |p: Seq<char>| encoded_part(p);
    let encoded = parts.map_values(enc);
    if parts.len() == 0 {
        assert(encode_utf8(Seq::<char>::empty()) =~= Seq::<u8>::empty());
    } else if parts.len() == 1 {
    } else {
        let earlier = parts.drop_last();
        encoding_passes_through_join(earlier);
        assert(encoded.drop_last() =~= earlier.map_values(enc));
        let head = join_with_slash(earlier);
        assert(head.push('/') =~= head + seq!['/']);
        encoded_part_concat(head, seq!['/']);
        slash_is_not_escaped();
        encoded_part_concat(head + seq!['/'], parts.last());
        assert(encoded_part(head).push('/') =~= encoded_part(head) + seq!['/']);
    }
}

/// Cutting a path at `/` before encoding changes nothing: the encoded path
/// is the encoding of the whole text, and every `/` of the path is in it.
pub proof fn encoding_keeps_the_slashes(path: Seq<char>)
    ensures
        encoded_path(path) == encoded_part(path),
{
    let sep = |c: char| is_slash(c);
    encoding_passes_through_join(split_at(path, sep));
    join_undoes_split(path);
}

/// A part appended to a path is encoded on its own: the encoded path grows
/// by the encoded part.
pub proof fn encoded_path_grows_by_parts(path: Seq<char>, part: Seq<char>)
    ensures
        encoded_path(path + part) == encoded_path(path) + encoded_part(part),
{
    encoding_keeps_the_slashes(path + part);
    encoding_keeps_the_slashes(path);
    encoded_part_concat(path, part);
}

} // verus!
