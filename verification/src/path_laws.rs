//! What holds of every normalised path.

use crate::url_path::{
    dot, dot_dot, is_separator, join_with_slash, keep_part, kept_parts, lemma_split_nonempty,
    normalized_path, split_at,
};
use vstd::prelude::*;

verus! {

/// True when no character of `part` is accepted by `sep`.
pub open spec fn free_of(part: Seq<char>, sep: spec_fn(char) -> bool) -> bool {
    forall|i: int| 0 <= i < part.len() ==> !sep(#[trigger] part[i])
}

/// True of a part that names something: it is not empty, neither `.` nor
/// `..`, and holds neither `/` nor `\`.
pub open spec fn is_name(part: Seq<char>) -> bool {
    &&& part.len() > 0
    &&& part != dot()
    &&& part != dot_dot()
    &&& free_of(part, |c: char| is_separator(c))
}

/// True when every part is a name.
pub open spec fn all_names(parts: Seq<Seq<char>>) -> bool {
    forall|i: int| 0 <= i < parts.len() ==> is_name(#[trigger] parts[i])
}

/// No piece of a split holds a separator.
pub proof fn split_pieces_hold_no_separator(s: Seq<char>, sep: spec_fn(char) -> bool)
    ensures
        forall|i: int| 0 <= i < split_at(s, sep).len() ==> free_of(#[trigger] split_at(s, sep)[i], sep),
    decreases s.len(),
{
    if s.len() > 0 {
        split_pieces_hold_no_separator(s.drop_last(), sep);
        lemma_split_nonempty(s.drop_last(), sep);
    }
}

/// A split has one piece more than the text has separators.
pub proof fn split_counts_separators(s: Seq<char>, sep: spec_fn(char) -> bool)
    ensures
        split_at(s, sep).len() == s.filter(sep).len() + 1,
    decreases s.len(),
{
    if s.len() > 0 {
        split_counts_separators(s.drop_last(), sep);
        lemma_split_nonempty(s.drop_last(), sep);
        assert(s.drop_last().push(s.last()) =~= s);
        s.drop_last().lemma_filter_push(s.last(), sep);
    } else {
        assert(s.filter(sep) =~= Seq::<char>::empty()) by {
            s.lemma_filter_len(sep);
        }
    }
}

/// Text without separators, appended to `s`, lengthens the last piece of
/// the split of `s` and changes nothing else.
pub proof fn split_of_appended_part(s: Seq<char>, part: Seq<char>, sep: spec_fn(char) -> bool)
    requires
        free_of(part, sep),
    ensures
        split_at(s + part, sep) == split_at(s, sep).drop_last().push(
            split_at(s, sep).last() + part,
        ),
    decreases part.len(),
{
    lemma_split_nonempty(s, sep);
    let parts = split_at(s, sep);
    if part.len() == 0 {
        assert(s + part =~= s);
        assert(parts.last() + part =~= parts.last());
        assert(parts.drop_last().push(parts.last()) =~= parts);
    } else {
        let shorter = part.drop_last();
        assert forall|i: int| 0 <= i < shorter.len() implies !sep(#[trigger] shorter[i]) by {
            assert(shorter[i] == part[i]);
        }
        split_of_appended_part(s, shorter, sep);
        assert((s + part).drop_last() =~= s + shorter);
        assert((s + part).last() == part.last());
        assert(!sep(part[part.len() - 1]));
        let before = split_at(s + shorter, sep);
        assert(before.drop_last() =~= parts.drop_last());
        assert(before.last().push(part.last()) =~= parts.last() + part);
    }
}

/// Every part that normalising keeps is a name, whatever the path was.
pub proof fn kept_parts_are_names(parts: Seq<Seq<char>>)
    requires
        forall|i: int| 0 <= i < parts.len() ==> free_of(#[trigger] parts[i], |c: char| is_separator(c)),
    ensures
        all_names(kept_parts(parts)),
    decreases parts.len(),
{
    if parts.len() > 0 {
        let earlier = parts.drop_last();
        assert forall|i: int| 0 <= i < earlier.len() implies free_of(
            #[trigger] earlier[i],
            |c: char| is_separator(c),
        ) by {
            assert(earlier[i] == parts[i]);
        }
        kept_parts_are_names(earlier);
        let kept = kept_parts(earlier);
        let after = keep_part(kept, parts.last());
        assert(free_of(parts[parts.len() - 1], |c: char| is_separator(c)));
        assert forall|i: int| 0 <= i < after.len() implies is_name(#[trigger] after[i]) by {
            if i < kept.len() {
                assert(after[i] == kept[i]);
            }
        }
    }
}

/// Names are all kept, in their order.
pub proof fn names_are_all_kept(parts: Seq<Seq<char>>)
    requires
        all_names(parts),
    ensures
        kept_parts(parts) == parts,
    decreases parts.len(),
{
    if parts.len() > 0 {
        let earlier = parts.drop_last();
        assert forall|i: int| 0 <= i < earlier.len() implies is_name(#[trigger] earlier[i]) by {
            assert(earlier[i] == parts[i]);
        }
        names_are_all_kept(earlier);
        assert(is_name(parts[parts.len() - 1]));
        assert(earlier.push(parts.last()) =~= parts);
    } else {
        assert(kept_parts(parts) =~= parts);
    }
}

/// Names joined with `/` and split again are the same names.
pub proof fn split_undoes_join(parts: Seq<Seq<char>>)
    requires
        all_names(parts),
        parts.len() > 0,
    ensures
        split_at(join_with_slash(parts), |c: char| is_separator(c)) == parts,
    decreases parts.len(),
{
    let sep = |c: char| is_separator(c);
    let last = parts.last();
    assert(is_name(parts[parts.len() - 1]));
    if parts.len() == 1 {
        let nothing = Seq::<char>::empty();
        split_of_appended_part(nothing, last, sep);
        assert(nothing + last =~= last);
        assert(split_at(nothing, sep).drop_last().push(split_at(nothing, sep).last() + last)
            =~= parts);
    } else {
        let earlier = parts.drop_last();
        assert forall|i: int| 0 <= i < earlier.len() implies is_name(#[trigger] earlier[i]) by {
            assert(earlier[i] == parts[i]);
        }
        split_undoes_join(earlier);
        let head = join_with_slash(earlier).push('/');
        assert(head.drop_last() =~= join_with_slash(earlier));
        assert(sep(head.last()));
        assert(split_at(head, sep) == earlier.push(Seq::<char>::empty()));
        split_of_appended_part(head, last, sep);
        assert(Seq::<char>::empty() + last =~= last);
        assert(earlier.push(Seq::<char>::empty()).drop_last().push(last) =~= parts);
    }
}

/// The normal form is made of names joined with `/`: no part of it is
/// empty, `.` or `..`, and it holds no `\`.
pub proof fn normal_form_is_made_of_names(path: Seq<char>)
    ensures
        ({
            let parts = kept_parts(split_at(path, |c: char| is_separator(c)));
            &&& all_names(parts)
            &&& normalized_path(path) == join_with_slash(parts)
            &&& parts.len() > 0 ==> split_at(normalized_path(path), |c: char| is_separator(c))
                == parts
            &&& parts.len() == 0 ==> normalized_path(path).len() == 0
        }),
{
    let sep = |c: char| is_separator(c);
    split_pieces_hold_no_separator(path, sep);
    kept_parts_are_names(split_at(path, sep));
    let parts = kept_parts(split_at(path, sep));
    if parts.len() > 0 {
        split_undoes_join(parts);
    }
}

/// Normalising a normal form changes nothing.
pub proof fn normalizing_twice_changes_nothing(path: Seq<char>)
    ensures
        normalized_path(normalized_path(path)) == normalized_path(path),
{
    let sep = |c: char| is_separator(c);
    normal_form_is_made_of_names(path);
    let parts = kept_parts(split_at(path, sep));
    if parts.len() > 0 {
        names_are_all_kept(parts);
    } else {
        let nothing = Seq::<char>::empty();
        assert(normalized_path(path) =~= nothing);
        let pieces = split_at(nothing, sep);
        assert(pieces =~= seq![nothing]);
        assert(pieces.drop_last() =~= Seq::<Seq<char>>::empty());
        assert(kept_parts(pieces.drop_last()) =~= Seq::<Seq<char>>::empty());
        assert(kept_parts(pieces) =~= Seq::<Seq<char>>::empty());
    }
}

} // verus!
