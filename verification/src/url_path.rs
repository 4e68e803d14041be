//! Normalising URL paths: the mathematical model and the function that
//! computes it.
//!
//! A path is cut into parts at every `/` and `\`. Empty parts and `.` are
//! dropped, `..` removes the part kept last, and what is left is joined with
//! `/`. The result never names anything above the root it is resolved under.

use vstd::prelude::*;

verus! {

/// `String::push` of std: the character is appended at the end and nothing
/// else changes.
pub assume_specification[ String::push ](s: &mut String, ch: char)
    ensures
        final(s)@ == old(s)@.push(ch),
;

/// True of the two characters that separate the parts of a path.
pub open spec fn is_separator(c: char) -> bool {
    c == '/' || c == '\\'
}

/// True of `/` alone.
pub open spec fn is_slash(c: char) -> bool {
    c == '/'
}

/// The pieces of `s` between the characters that `sep` accepts. A sequence
/// with `n` such characters has `n + 1` pieces, some of them possibly empty.
pub open spec fn split_at(s: Seq<char>, sep: spec_fn(char) -> bool) -> Seq<Seq<char>>
    decreases s.len(),
{
    if s.len() == 0 {
        seq![Seq::<char>::empty()]
    } else {
        let before = split_at(s.drop_last(), sep);
        if sep(s.last()) {
            before.push(Seq::<char>::empty())
        } else {
            before.drop_last().push(before.last().push(s.last()))
        }
    }
}

/// The part `.`, which stands for the directory itself.
pub open spec fn dot() -> Seq<char> {
    seq!['.']
}

/// The part `..`, which stands for the parent directory.
pub open spec fn dot_dot() -> Seq<char> {
    seq!['.', '.']
}

/// The parts kept so far after `part` has been read.
pub open spec fn keep_part(kept: Seq<Seq<char>>, part: Seq<char>) -> Seq<Seq<char>> {
    if part.len() == 0 || part == dot() {
        kept
    } else if part == dot_dot() {
        if kept.len() > 0 {
            kept.drop_last()
        } else {
            kept
        }
    } else {
        kept.push(part)
    }
}

/// The parts that are kept when `parts` are read from left to right.
pub open spec fn kept_parts(parts: Seq<Seq<char>>) -> Seq<Seq<char>>
    decreases parts.len(),
{
    if parts.len() == 0 {
        Seq::<Seq<char>>::empty()
    } else {
        keep_part(kept_parts(parts.drop_last()), parts.last())
    }
}

/// `parts` written one after the other with `/` between neighbours.
pub open spec fn join_with_slash(parts: Seq<Seq<char>>) -> Seq<char>
    decreases parts.len(),
{
    if parts.len() == 0 {
        Seq::<char>::empty()
    } else if parts.len() == 1 {
        parts[0]
    } else {
        join_with_slash(parts.drop_last()).push('/') + parts.last()
    }
}

/// The normal form of `path`.
pub open spec fn normalized_path(path: Seq<char>) -> Seq<char> {
    join_with_slash(kept_parts(split_at(path, |c: char| is_separator(c))))
}

/// What a part is, as far as normalising cares.
#[derive(Clone, Copy, PartialEq, Eq, Structural, Debug)]
pub enum PartKind {
    /// No character.
    Empty,
    /// Exactly `.`.
    Dot,
    /// Exactly `..`.
    DotDot,
    /// Anything else.
    Name,
}

/// The kind of `part`.
pub open spec fn kind_of(part: Seq<char>) -> PartKind {
    if part.len() == 0 {
        PartKind::Empty
    } else if part == dot() {
        PartKind::Dot
    } else if part == dot_dot() {
        PartKind::DotDot
    } else {
        PartKind::Name
    }
}

impl PartKind {
    /// The kind of a part of kind `self` with `c` appended.
    pub open spec fn spec_followed_by(self, c: char) -> PartKind {
        if c == '.' && self == PartKind::Empty {
            PartKind::Dot
        } else if c == '.' && self == PartKind::Dot {
            PartKind::DotDot
        } else {
            PartKind::Name
        }
    }

    /// The kind of a part of kind `self` with `c` appended.
    pub fn followed_by(self, c: char) -> (next: PartKind)
        ensures
            next == self.spec_followed_by(c),
    {
        if c == '.' {
            match self {
                PartKind::Empty => PartKind::Dot,
                PartKind::Dot => PartKind::DotDot,
                _ => PartKind::Name,
            }
        } else {
            PartKind::Name
        }
    }
}

/// Appending a character to a part changes its kind as `spec_followed_by` says.
pub proof fn lemma_kind_of_push(part: Seq<char>, c: char)
    ensures
        kind_of(part.push(c)) == kind_of(part).spec_followed_by(c),
{
    let longer = part.push(c);
    if part.len() == 0 {
        if c == '.' {
            assert(longer =~= dot());
        } else {
            assert(longer[0] != dot()[0]);
        }
    } else if part == dot() {
        if c == '.' {
            assert(longer =~= dot_dot());
        } else {
            assert(longer[1] != dot_dot()[1]);
        }
    } else if part == dot_dot() {
    } else {
        if longer == dot() {
            assert(part.len() == 0);
        }
        if longer == dot_dot() {
            assert(part =~= seq![longer[0]]);
            assert(part =~= dot());
        }
    }
}

/// Reads one finished part: the executable form of [`keep_part`].
pub fn push_part(kept: &mut Vec<String>, part: String, kind: PartKind)
    requires
        kind == kind_of(part@),
    ensures
        final(kept).deep_view() == keep_part(old(kept).deep_view(), part@),
{
    match kind {
        PartKind::Empty | PartKind::Dot => {},
        PartKind::DotDot => {
            let _ = kept.pop();
            proof {
                if old(kept)@.len() > 0 {
                    assert(kept.deep_view() =~= old(kept).deep_view().drop_last());
                }
            }
        },
        PartKind::Name => {
            kept.push(part);
            proof {
                assert(kept.deep_view() =~= old(kept).deep_view().push(part@));
            }
        },
    }
    proof {
        assert(kept.deep_view() =~= keep_part(old(kept).deep_view(), part@));
    }
}

/// Writes `parts` one after the other with `/` between neighbours.
pub fn join_parts(parts: &Vec<String>) -> (out: String)
    ensures
        out@ == join_with_slash(parts.deep_view()),
{
    let mut out = String::new();
    let mut i: usize = 0;
    while i < parts.len()
        invariant
            i <= parts.len(),
            out@ == join_with_slash(parts.deep_view().take(i as int)),
        decreases parts.len() - i,
    {
        let ghost before = parts.deep_view().take(i as int);
        let ghost after = parts.deep_view().take(i + 1);
        proof {
            assert(after.drop_last() =~= before);
            assert(after.last() == parts[i as int]@);
        }
        if i > 0 {
            out.push('/');
        }
        out.append(parts[i].as_str());
        proof {
            if i == 0 {
                assert(out@ =~= after[0]);
            }
        }
        i += 1;
    }
    proof {
        assert(parts.deep_view().take(parts.len() as int) =~= parts.deep_view());
    }
    out
}

/// Normalises `path`: parts are cut at `/` and `\`, empty parts and `.` are
/// dropped, `..` removes the part kept last (and does nothing when none is
/// kept), and the kept parts are joined with `/`.
pub fn format_url_path_safely(path: &str) -> (out: String)
    ensures
        out@ == normalized_path(path@),
{
    let ghost sep = |c: char| is_separator(c);
    let mut used_parts: Vec<String> = Vec::new();
    let mut part = String::new();
    let mut kind = PartKind::Empty;
    proof {
        assert(used_parts.deep_view() =~= kept_parts(split_at(path@.take(0), sep).drop_last()));
    }
    for c in it: path.chars()
        invariant
            it.seq() == path@,
            sep == (|c: char| is_separator(c)),
            part@ == split_at(path@.take(it.index()), sep).last(),
            kind == kind_of(part@),
            used_parts.deep_view() == kept_parts(split_at(path@.take(it.index()), sep).drop_last()),
    {
        let ghost seen = path@.take(it.index());
        let ghost next = path@.take(it.index() + 1);
        proof {
            assert(next.drop_last() =~= seen);
            assert(next.last() == c);
            lemma_split_nonempty(seen, sep);
        }
        if c == '/' || c == '\\' {
            push_part(&mut used_parts, part, kind);
            part = String::new();
            kind = PartKind::Empty;
            proof {
                assert(split_at(next, sep).drop_last() =~= split_at(seen, sep));
                assert(split_at(seen, sep).drop_last().push(split_at(seen, sep).last())
                    =~= split_at(seen, sep));
            }
        } else {
            proof {
                lemma_kind_of_push(part@, c);
                assert(split_at(next, sep).drop_last() =~= split_at(seen, sep).drop_last());
            }
            part.push(c);
            kind = kind.followed_by(c);
        }
    }
    let ghost parts = split_at(path@, sep);
    proof {
        assert(path@.take(path@.len() as int) =~= path@);
        lemma_split_nonempty(path@, sep);
        assert(parts.drop_last().push(parts.last()) =~= parts);
    }
    push_part(&mut used_parts, part, kind);
    join_parts(&used_parts)
}

/// A split always has at least one piece.
pub proof fn lemma_split_nonempty(s: Seq<char>, sep: spec_fn(char) -> bool)
    ensures
        split_at(s, sep).len() >= 1,
    decreases s.len(),
{
    if s.len() > 0 {
        lemma_split_nonempty(s.drop_last(), sep);
    }
}

} // verus!
