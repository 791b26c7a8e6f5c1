//! Properties that hold of every input, proved from the spec functions
//! that the executable functions are verified against.
use vstd::prelude::*;
use crate::emitter::{
    NumberingMode, is_numbered, lemma_numbered_count_push, numbered_count, render_source,
};
use crate::format::numbered_line;
use crate::run::{SourceInput, open_failure, run_err, run_out, source_err, source_out};

verus! {

/// Lines of `lines` that hold at least one character.
pub open spec fn non_blank_count(lines: Seq<Seq<char>>) -> nat {
    lines.filter(|l: Seq<char>| l.len() > 0).len()
}

proof fn lemma_all_lines_count(lines: Seq<Seq<char>>)
    ensures
        numbered_count(NumberingMode::AllLines, lines) == lines.len(),
    decreases lines.len(),
{
    if lines.len() > 0 {
        lemma_all_lines_count(lines.drop_last());
        lemma_numbered_count_push(NumberingMode::AllLines, lines.drop_last(), lines.last());
        assert(lines.drop_last().push(lines.last()) =~= lines);
    }
}

proof fn lemma_non_blank_count(lines: Seq<Seq<char>>)
    ensures
        numbered_count(NumberingMode::NonBlankLines, lines) == non_blank_count(lines),
{
    let p1 = |l: Seq<char>| is_numbered(NumberingMode::NonBlankLines, l);
    let p2 = |l: Seq<char>| l.len() > 0;
    assert(p1 =~= p2);
}

/// Numbering every line: there are as many output lines as input lines,
/// and line `i` carries number `i + 1` followed by its text.
pub proof fn lemma_all_lines_numbered(lines: Seq<Seq<char>>)
    ensures
        render_source(NumberingMode::AllLines, lines).len() == lines.len(),
        forall|i: int|
            0 <= i < lines.len() ==> #[trigger] render_source(NumberingMode::AllLines, lines)[i]
                == numbered_line((i + 1) as nat, lines[i]),
{
    assert forall|i: int| 0 <= i < lines.len() implies #[trigger] render_source(
        NumberingMode::AllLines,
        lines,
    )[i] == numbered_line((i + 1) as nat, lines[i]) by {
        lemma_all_lines_count(lines.take(i));
    }
}

/// Numbering non-blank lines of an all-blank source copies it unchanged.
pub proof fn lemma_blank_source_unnumbered(lines: Seq<Seq<char>>)
    requires
        forall|i: int| 0 <= i < lines.len() ==> (#[trigger] lines[i]).len() == 0,
    ensures
        render_source(NumberingMode::NonBlankLines, lines) == lines,
{
    assert(render_source(NumberingMode::NonBlankLines, lines) =~= lines);
}

/// Numbering non-blank lines: a blank line is copied unchanged, and a
/// non-blank line carries the count of non-blank lines up to and
/// including it, whatever blank lines stand between them.
pub proof fn lemma_non_blank_numbering(lines: Seq<Seq<char>>, i: int)
    requires
        0 <= i < lines.len(),
    ensures
        render_source(NumberingMode::NonBlankLines, lines).len() == lines.len(),
        lines[i].len() == 0 ==> render_source(NumberingMode::NonBlankLines, lines)[i] == lines[i],
        lines[i].len() > 0 ==> render_source(NumberingMode::NonBlankLines, lines)[i]
            == numbered_line(non_blank_count(lines.take(i + 1)), lines[i]),
{
    lemma_non_blank_count(lines.take(i));
    lemma_non_blank_count(lines.take(i + 1));
    lemma_numbered_count_push(NumberingMode::NonBlankLines, lines.take(i), lines[i]);
    assert(lines.take(i).push(lines[i]) =~= lines.take(i + 1));
}

/// Without numbering, a source is reproduced line for line.
pub proof fn lemma_plain_copies(lines: Seq<Seq<char>>)
    ensures
        render_source(NumberingMode::Plain, lines) == lines,
{
    assert(render_source(NumberingMode::Plain, lines) =~= lines);
}

/// Sources are processed independently: what a run over `a` then `b`
/// writes is what a run over `a` writes followed by what a run over `b`
/// alone writes, so no count carries from one source to the next.
pub proof fn lemma_sources_independent(mode: NumberingMode, a: Seq<SourceInput>, b: Seq<SourceInput>)
    ensures
        run_out(mode, a + b) == run_out(mode, a) + run_out(mode, b),
        run_err(a + b) == run_err(a) + run_err(b),
    decreases b.len(),
{
    if b.len() == 0 {
        assert(a + b =~= a);
        assert(run_out(mode, a) + run_out(mode, b) =~= run_out(mode, a));
        assert(run_err(a) + run_err(b) =~= run_err(a));
    } else {
        lemma_sources_independent(mode, a, b.drop_last());
        assert((a + b).drop_last() =~= a + b.drop_last());
        assert((a + b).last() == b.last());
        assert(run_out(mode, a + b) =~= run_out(mode, a) + run_out(mode, b));
        assert(run_err(a + b) =~= run_err(a) + run_err(b));
    }
}

/// A run over one source writes what that source contributes.
pub proof fn lemma_single_source(mode: NumberingMode, s: SourceInput)
    ensures
        run_out(mode, seq![s]) == source_out(mode, s),
        run_err(seq![s]) == source_err(s),
{
    let none = Seq::<SourceInput>::empty();
    assert(seq![s].drop_last() =~= none);
    assert(run_out(mode, none) == Seq::<Seq<char>>::empty());
    assert(run_err(none) == Seq::<Seq<char>>::empty());
    assert(run_out(mode, seq![s]) =~= source_out(mode, s));
    assert(run_err(seq![s]) =~= source_err(s));
}

/// A source that could not be opened adds exactly its diagnostic, and the
/// sources around it are written as if it were not there.
pub proof fn lemma_failed_source_skipped(
    mode: NumberingMode,
    a: Seq<SourceInput>,
    s: SourceInput,
    b: Seq<SourceInput>,
)
    requires
        s.opened is Err,
    ensures
        run_out(mode, a + seq![s] + b) == run_out(mode, a + b),
        run_err(a + seq![s] + b) == run_err(a) + seq![open_failure(s.name@, s.opened->Err_0@)]
            + run_err(b),
{
    lemma_sources_independent(mode, a + seq![s], b);
    lemma_sources_independent(mode, a, seq![s]);
    lemma_sources_independent(mode, a, b);
    lemma_single_source(mode, s);
    assert(run_out(mode, a) + Seq::<Seq<char>>::empty() =~= run_out(mode, a));
}

} // verus!
