//! The source text of a file, and positions in it.

use crate::arena::{alloc_in, lemma_slice_of, slice_of};
use bumpalo::Bump;
use vstd::prelude::*;
use vstd::slice::slice_subrange;

verus! {

broadcast use lemma_slice_of;

/// What the path of a file is relative to.
#[derive(Copy, Clone, PartialEq, Eq, Structural, Debug)]
pub enum Prefix {
    Root,
    Hhi,
    Dummy,
    Tmp,
}

#[derive(Copy, Clone, Debug)]
pub struct RelativePath<'a> {
    pub prefix: Prefix,
    pub path: &'a [u8],
}

/// A place in a file: its line, counted from one, the offset at which that
/// line begins, and its own offset.
#[derive(Copy, Clone, PartialEq, Eq, Structural, Debug)]
pub struct FilePos {
    pub line: usize,
    pub bol: usize,
    pub offset: usize,
}

/// A stretch of a file, or no position at all.
#[derive(Copy, Clone, Debug)]
pub enum Pos<'a> {
    NoPos,
    At(&'a RelativePath<'a>, FilePos, FilePos),
}

impl<'a> Pos<'a> {
    pub fn none() -> (r: &'a Pos<'a>)
        ensures
            *r == Pos::<'a>::NoPos,
    {
        &Pos::NoPos
    }

    pub fn is_none(&self) -> (r: bool)
        ensures
            r == (self is NoPos),
    {
        match self {
            Pos::NoPos => true,
            Pos::At(_, _, _) => false,
        }
    }

    pub open spec fn start(self) -> usize {
        match self {
            Pos::NoPos => 0,
            Pos::At(_, start, _) => start.offset,
        }
    }

    pub open spec fn end(self) -> usize {
        match self {
            Pos::NoPos => 0,
            Pos::At(_, _, end) => end.offset,
        }
    }

    /// The number of bytes between the two ends, modulo the word size.
    pub open spec fn extent(self) -> usize {
        if self.start() <= self.end() {
            (self.end() - self.start()) as usize
        } else {
            (usize::MAX - (self.start() - self.end()) + 1) as usize
        }
    }

    pub fn start_cnum(&self) -> (r: usize)
        ensures
            r == self.start(),
    {
        match self {
            Pos::NoPos => 0,
            Pos::At(_, start, _) => start.offset,
        }
    }

    pub fn end_cnum(&self) -> (r: usize)
        ensures
            r == self.end(),
    {
        match self {
            Pos::NoPos => 0,
            Pos::At(_, _, end) => end.offset,
        }
    }

    pub fn width(&self) -> (r: usize)
        ensures
            r == self.extent(),
    {
        self.end_cnum().wrapping_sub(self.start_cnum())
    }

    pub fn from_lnum_bol_cnum(
        arena: &'a Bump,
        file: &'a RelativePath<'a>,
        start: FilePos,
        end: FilePos,
    ) -> (r: &'a Pos<'a>)
        ensures
            *r == Pos::At(file, start, end),
    {
        alloc_in(arena, Pos::At(file, start, end))
    }

    /// The smallest stretch that covers both positions, in the file of the
    /// first. Where one of them is no position, it is the other.
    pub open spec fn merged(self, other: Pos<'a>) -> Pos<'a> {
        match (self, other) {
            (Pos::NoPos, _) => other,
            (_, Pos::NoPos) => self,
            (Pos::At(file, start1, end1), Pos::At(_, start2, end2)) => Pos::At(
                file,
                if start1.offset < start2.offset {
                    start1
                } else {
                    start2
                },
                if end1.offset < end2.offset {
                    end2
                } else {
                    end1
                },
            ),
        }
    }

    pub fn merge_without_checking_filename(
        arena: &'a Bump,
        pos1: &'a Pos<'a>,
        pos2: &'a Pos<'a>,
    ) -> (r: &'a Pos<'a>)
        ensures
            *r == pos1.merged(*pos2),
    {
        match (*pos1, *pos2) {
            (Pos::NoPos, _) => pos2,
            (_, Pos::NoPos) => pos1,
            (Pos::At(file, start1, end1), Pos::At(_, start2, end2)) => {
                let start = if start1.offset < start2.offset {
                    start1
                } else {
                    start2
                };
                let end = if end1.offset < end2.offset {
                    end2
                } else {
                    end1
                };
                Pos::from_lnum_bol_cnum(arena, file, start, end)
            },
        }
    }
}

/// Merging covers both positions and nothing beyond them.
pub proof fn law_merged_covers<'a>(p: Pos<'a>, q: Pos<'a>)
    requires
        p is At,
        q is At,
    ensures
        p.merged(q) is At,
        p.merged(q).start() <= p.start(),
        p.merged(q).start() <= q.start(),
        p.merged(q).end() >= p.end(),
        p.merged(q).end() >= q.end(),
        p.merged(q).start() == p.start() || p.merged(q).start() == q.start(),
        p.merged(q).end() == p.end() || p.merged(q).end() == q.end(),
{
}

/// No position is neutral for merging, on either side.
pub proof fn law_no_position_is_neutral<'a>(p: Pos<'a>)
    ensures
        p.merged(Pos::NoPos) == p,
        Pos::<'a>::NoPos.merged(p) == p,
{
}

/// It does not matter in which order several positions are merged.
pub proof fn law_merged_is_associative<'a>(p: Pos<'a>, q: Pos<'a>, r: Pos<'a>)
    ensures
        p.merged(q).merged(r) == p.merged(q.merged(r)),
{
}

#[derive(Copy, Clone, Debug)]
pub struct SourceText<'text> {
    pub file_path: RelativePath<'text>,
    pub text: &'text [u8],
}

/// The part of a text from `start` on with at most `length` bytes; less where
/// the text ends before.
pub open spec fn part(text: Seq<u8>, start: int, length: int) -> Seq<u8> {
    if start >= text.len() {
        Seq::<u8>::empty()
    } else if length <= text.len() - start {
        text.subrange(start, start + length)
    } else {
        text.subrange(start, text.len() as int)
    }
}

impl<'text> SourceText<'text> {
    pub fn sub(&self, start: usize, length: usize) -> (r: &'text [u8])
        ensures
            r@ == part(self.text@, start as int, length as int),
            r == slice_of(part(self.text@, start as int, length as int)),
    {
        let len = self.text.len();
        if start >= len {
            let none: &'text [u8] = &[];
            assert(none@ =~= Seq::<u8>::empty());
            none
        } else if length <= len - start {
            slice_subrange(self.text, start, start + length)
        } else {
            slice_subrange(self.text, start, len)
        }
    }
}

/// A source text together with the offsets at which its lines begin.
#[derive(Copy, Clone, Debug)]
pub struct IndexedSourceText<'text> {
    pub source_text: SourceText<'text>,
    pub line_starts: &'text [usize],
}

/// The line that an offset is in, counted from zero: the last one that does
/// not begin behind it.
pub open spec fn line_at(line_starts: Seq<usize>, offset: usize) -> int
    decreases line_starts.len(),
{
    if line_starts.len() <= 1 || line_starts.last() <= offset {
        line_starts.len() - 1
    } else {
        line_at(line_starts.drop_last(), offset)
    }
}

proof fn lemma_line_at(line_starts: Seq<usize>, offset: usize, n: int)
    requires
        0 <= n < line_starts.len(),
        line_starts[n] <= offset,
        forall|j: int| n < j < line_starts.len() ==> line_starts[j] > offset,
    ensures
        line_at(line_starts, offset) == n,
    decreases line_starts.len(),
{
    if n < line_starts.len() - 1 {
        assert(line_starts.last() > offset);
        lemma_line_at(line_starts.drop_last(), offset, n);
    }
}

impl<'text> IndexedSourceText<'text> {
    /// The first line begins at the start of the text, and every other one
    /// behind the one before it.
    pub open spec fn wf(&self) -> bool {
        let starts = self.line_starts@;
        &&& starts.len() > 0
        &&& starts[0] == 0
        &&& forall|i: int, j: int| 0 <= i < j < starts.len() ==> starts[i] < starts[j]
    }

    pub open spec fn file_pos(&self, offset: usize) -> FilePos {
        let line = line_at(self.line_starts@, offset);
        FilePos { line: (line + 1) as usize, bol: self.line_starts@[line], offset }
    }

    /// The line, the beginning of the line and the offset of a place.
    pub fn offset_to_file_pos_triple(&self, offset: usize) -> (r: FilePos)
        requires
            self.wf(),
        ensures
            r == self.file_pos(offset),
            r.offset == offset,
            r.bol <= offset,
            1 <= r.line <= self.line_starts@.len(),
            r.bol == self.line_starts@[r.line - 1],
            r.line < self.line_starts@.len() ==> self.line_starts@[r.line as int] > offset,
    {
        let starts = self.line_starts;
        let mut lo: usize = 0;
        let mut hi: usize = starts.len();
        while hi - lo > 1
            invariant
                self.wf(),
                starts == self.line_starts,
                lo < hi <= starts@.len(),
                starts@[lo as int] <= offset,
                hi < starts@.len() ==> starts@[hi as int] > offset,
            decreases hi - lo,
        {
            let mid = lo + (hi - lo) / 2;
            if starts[mid] <= offset {
                lo = mid;
            } else {
                hi = mid;
            }
        }
        proof {
            assert forall|j: int| lo < j < starts@.len() implies starts@[j] > offset by {
                if j > hi {
                    assert(starts@[hi as int] < starts@[j]);
                }
            }
            lemma_line_at(starts@, offset, lo as int);
        }
        FilePos { line: lo + 1, bol: starts[lo], offset }
    }
}

/// A merged position is in the file of the first, and begins and ends where one
/// of the two does, lines and all.
pub proof fn law_merged_ends<'a>(p: Pos<'a>, q: Pos<'a>)
    requires
        p is At,
        q is At,
    ensures
        p.merged(q) matches Pos::At(file, start, end) && {
            &&& file == p->At_0
            &&& start == p->At_1 || start == q->At_1
            &&& end == p->At_2 || end == q->At_2
            &&& start.offset <= p->At_1.offset && start.offset <= q->At_1.offset
            &&& end.offset >= p->At_2.offset && end.offset >= q->At_2.offset
        },
{
}

/// A part of a text holds the bytes from its start on, as many as are asked for
/// or as there are.
pub proof fn law_parts_of_a_text(text: Seq<u8>, start: int, length: int)
    requires
        0 <= start,
        0 <= length,
    ensures
        start + length <= text.len() ==> part(text, start, length).len() == length,
        start <= text.len() < start + length ==> part(text, start, length).len() == text.len()
            - start,
        start > text.len() ==> part(text, start, length).len() == 0,
        forall|i: int|
            0 <= i < part(text, start, length).len() ==> #[trigger] part(text, start, length)[i]
                == text[start + i],
{
}

/// A place is in the last line that does not begin behind it. Lines are counted
/// from one.
pub proof fn law_lines<'text>(source: IndexedSourceText<'text>, offset: usize)
    requires
        source.wf(),
        source.line_starts@.len() < usize::MAX,
    ensures
        ({
            let place = source.file_pos(offset);
            let starts = source.line_starts@;
            &&& place.offset == offset
            &&& 1 <= place.line <= starts.len()
            &&& place.bol == starts[place.line - 1]
            &&& place.bol <= offset
            &&& forall|i: int| place.line <= i < starts.len() ==> #[trigger] starts[i] > offset
        }),
{
    lemma_last_line(source.line_starts@, offset);
}

proof fn lemma_last_line(starts: Seq<usize>, offset: usize)
    requires
        starts.len() > 0,
        starts[0] == 0,
        forall|i: int, j: int| 0 <= i < j < starts.len() ==> starts[i] < starts[j],
    ensures
        0 <= line_at(starts, offset) < starts.len(),
        starts[line_at(starts, offset)] <= offset,
        forall|i: int|
            line_at(starts, offset) < i < starts.len() ==> #[trigger] starts[i] > offset,
    decreases starts.len(),
{
    if !(starts.len() <= 1 || starts.last() <= offset) {
        lemma_last_line(starts.drop_last(), offset);
        let line = line_at(starts, offset);
        assert(starts.drop_last()[line] == starts[line]);
        assert forall|i: int| line < i < starts.len() implies #[trigger] starts[i] > offset by {
            if i < starts.len() - 1 {
                assert(starts.drop_last()[i] == starts[i]);
            }
        }
    }
}

/// Where a position begins and ends, and how far it reaches.
pub proof fn law_extent<'a>(file: &'a RelativePath<'a>, start: FilePos, end: FilePos)
    requires
        start.offset <= end.offset,
    ensures
        Pos::At(file, start, end).start() == start.offset,
        Pos::At(file, start, end).end() == end.offset,
        Pos::At(file, start, end).extent() == end.offset - start.offset,
        Pos::<'a>::NoPos.extent() == 0,
{
}

} // verus!
