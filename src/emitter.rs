//! The per-line numbering decision and the counter that a source carries.
use vstd::prelude::*;
use crate::format::{format_numbered, numbered_line};

verus! {

/// Which lines of a source receive a sequence number.
#[derive(Clone, Copy, Debug, PartialEq, Eq, Structural)]
pub enum NumberingMode {
    /// Lines are copied unchanged.
    Plain,
    /// Every line is numbered.
    AllLines,
    /// Only lines with at least one character are numbered.
    NonBlankLines,
}

/// Whether `line` gets a number under `mode`. Emptiness is literal:
/// a line of spaces is not blank.
pub open spec fn is_numbered(mode: NumberingMode, line: Seq<char>) -> bool {
    match mode {
        NumberingMode::Plain => false,
        NumberingMode::AllLines => true,
        NumberingMode::NonBlankLines => line.len() > 0,
    }
}

/// How many of `lines` are numbered under `mode`.
pub open spec fn numbered_count(mode: NumberingMode, lines: Seq<Seq<char>>) -> nat {
    lines.filter(|l: Seq<char>| is_numbered(mode, l)).len()
}

/// The output for `line` when `count` lines of its source were numbered before it.
pub open spec fn render_line(mode: NumberingMode, count: nat, line: Seq<char>) -> Seq<char> {
    if is_numbered(mode, line) {
        numbered_line(count + 1, line)
    } else {
        line
    }
}

/// The output lines for one source, with a counter that starts at zero.
pub open spec fn render_source(mode: NumberingMode, lines: Seq<Seq<char>>) -> Seq<Seq<char>> {
    Seq::new(
        lines.len(),
        |i: int| render_line(mode, numbered_count(mode, lines.take(i)), lines[i]),
    )
}

/// The character sequences that a vector of strings holds.
pub open spec fn texts(v: Seq<String>) -> Seq<Seq<char>> {
    v.map_values(|s: String| s@)
}

/// Counting one more line adds one exactly when that line is numbered.
pub proof fn lemma_numbered_count_push(mode: NumberingMode, lines: Seq<Seq<char>>, line: Seq<char>)
    ensures
        numbered_count(mode, lines.push(line)) == numbered_count(mode, lines) + if is_numbered(
            mode,
            line,
        ) {
            1nat
        } else {
            0nat
        },
        numbered_count(mode, lines) <= lines.len(),
{
    broadcast use Seq::lemma_filter_len_push, Seq::lemma_filter_len;

}

/// Formats the lines of the source being read, one at a time, keeping the
/// count of lines numbered so far in that source.
pub struct LineEmitter {
    mode: NumberingMode,
    count: usize,
}

impl LineEmitter {
    /// The numbering mode in force.
    pub closed spec fn mode_spec(&self) -> NumberingMode {
        self.mode
    }

    /// Lines numbered so far in the current source.
    pub closed spec fn count_spec(&self) -> nat {
        self.count as nat
    }

    /// An emitter for `mode`, before any line.
    pub fn new(mode: NumberingMode) -> (r: LineEmitter)
        ensures
            r.mode_spec() == mode,
            r.count_spec() == 0,
    {
        LineEmitter { mode, count: 0 }
    }

    pub fn mode(&self) -> (r: NumberingMode)
        ensures
            r == self.mode_spec(),
    {
        self.mode
    }

    pub fn count(&self) -> (r: usize)
        ensures
            r as nat == self.count_spec(),
    {
        self.count
    }

    /// Begins a new source: its numbering starts again from one.
    pub fn start_source(&mut self)
        ensures
            final(self).mode_spec() == old(self).mode_spec(),
            final(self).count_spec() == 0,
    {
        self.count = 0;
    }

    /// The output line for `line`, the next line of the current source.
    pub fn emit(&mut self, line: &str) -> (r: String)
        requires
            old(self).count_spec() < usize::MAX,
        ensures
            r@ == render_line(old(self).mode_spec(), old(self).count_spec(), line@),
            final(self).mode_spec() == old(self).mode_spec(),
            final(self).count_spec() == old(self).count_spec() + if is_numbered(
                old(self).mode_spec(),
                line@,
            ) {
                1nat
            } else {
                0nat
            },
    {
        let numbered = match self.mode {
            NumberingMode::Plain => false,
            NumberingMode::AllLines => true,
            NumberingMode::NonBlankLines => !line.is_empty(),
        };
        if numbered {
            let r = format_numbered(self.count + 1, line);
            self.count = self.count + 1;
            r
        } else {
            line.to_owned()
        }
    }
}

/// The output lines for one source whose lines are `lines`.
pub fn render_lines(mode: NumberingMode, lines: &Vec<String>) -> (r: Vec<String>)
    ensures
        texts(r@) == render_source(mode, texts(lines@)),
{
    let ghost src = texts(lines@);
    let mut emitter = LineEmitter::new(mode);
    let mut out: Vec<String> = Vec::new();
    let mut i: usize = 0;
    proof {
        assert(src.take(0) =~= Seq::<Seq<char>>::empty());
        lemma_numbered_count_push(mode, Seq::<Seq<char>>::empty(), Seq::<char>::empty());
        assert(Seq::<Seq<char>>::empty().filter(|l: Seq<char>| is_numbered(mode, l)).len() == 0);
    }
    while i < lines.len()
        invariant
            src == texts(lines@),
            i <= lines.len(),
            emitter.mode_spec() == mode,
            emitter.count_spec() == numbered_count(mode, src.take(i as int)),
            out@.len() == i,
            forall|j: int|
                0 <= j < i ==> (#[trigger] texts(out@)[j]) == render_source(mode, src)[j],
        decreases lines.len() - i,
    {
        proof {
            lemma_numbered_count_push(mode, src.take(i as int), src[i as int]);
        }
        let line = emitter.emit(lines[i].as_str());
        proof {
            assert(src.take(i as int + 1) =~= src.take(i as int).push(src[i as int]));
        }
        let ghost prev = out@;
        let ghost text = line@;
        assert(text == render_source(mode, src)[i as int]);
        out.push(line);
        proof {
            assert forall|j: int| 0 <= j <= i implies (#[trigger] texts(out@)[j]) == render_source(
                mode,
                src,
            )[j] by {
                if j < i {
                    assert(out@[j] == prev[j]);
                    assert(texts(prev)[j] == render_source(mode, src)[j]);
                } else {
                    assert(out@[j]@ == text);
                }
            }
        }
        i = i + 1;
    }
    proof {
        assert(texts(out@) =~= render_source(mode, src));
    }
    out
}

} // verus!
