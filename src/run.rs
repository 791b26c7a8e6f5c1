//! The run configuration and the policy for walking its sources in order:
//! a source that cannot be opened yields one diagnostic and is skipped,
//! and each opened source is numbered on its own.
use vstd::prelude::*;
use vstd::string::*;
use crate::emitter::{NumberingMode, render_lines, render_source, texts};

verus! {

/// The numbering mode that the two flags select; numbering every line
/// takes precedence when both are set.
pub open spec fn mode_of(number_lines: bool, number_nonblank_lines: bool) -> NumberingMode {
    if number_lines {
        NumberingMode::AllLines
    } else if number_nonblank_lines {
        NumberingMode::NonBlankLines
    } else {
        NumberingMode::Plain
    }
}

/// What one run is asked to do: the sources in order, each a path or `-`
/// for standard input, and which lines to number.
#[derive(Debug)]
pub struct Config {
    files: Vec<String>,
    number_lines: bool,
    number_nonblank_lines: bool,
}

impl Config {
    pub closed spec fn files_spec(&self) -> Seq<String> {
        self.files@
    }

    pub closed spec fn mode_spec(&self) -> NumberingMode {
        mode_of(self.number_lines, self.number_nonblank_lines)
    }

    pub fn new(files: Vec<String>, number_lines: bool, number_nonblank_lines: bool) -> (r: Config)
        ensures
            r.files_spec() == files@,
            r.mode_spec() == mode_of(number_lines, number_nonblank_lines),
    {
        Config { files, number_lines, number_nonblank_lines }
    }

    /// The sources, in the order in which they are processed.
    pub fn files(&self) -> (r: &Vec<String>)
        ensures
            r@ == self.files_spec(),
    {
        &self.files
    }

    pub fn mode(&self) -> (r: NumberingMode)
        ensures
            r == self.mode_spec(),
    {
        if self.number_lines {
            NumberingMode::AllLines
        } else if self.number_nonblank_lines {
            NumberingMode::NonBlankLines
        } else {
            NumberingMode::Plain
        }
    }
}

/// The identifier that stands for standard input.
pub open spec fn stdin_sentinel() -> Seq<char> {
    seq!['-']
}

/// Whether `source` names standard input rather than a file path.
pub fn is_stdin(source: &str) -> (r: bool)
    ensures
        r == (source@ == stdin_sentinel()),
{
    if source.unicode_len() != 1 {
        false
    } else {
        let c = source.get_char(0);
        proof {
            if c == '-' {
                assert(source@ =~= stdin_sentinel());
            }
        }
        c == '-'
    }
}

/// The diagnostic for a source that could not be opened.
pub open spec fn open_failure(source: Seq<char>, error: Seq<char>) -> Seq<char> {
    "Failed to open "@ + source + ": "@ + error
}

/// Builds the diagnostic for `source`, whose opening failed with `error`.
pub fn open_failure_message(source: &str, error: &str) -> (r: String)
    ensures
        r@ == open_failure(source@, error@),
{
    let mut r = String::from_str("Failed to open ");
    r.append(source);
    r.append(": ");
    r.append(error);
    r
}

/// One source as the run met it: its identifier, and either its lines or
/// the text of the error that kept it from being opened.
pub struct SourceInput {
    pub name: String,
    pub opened: Result<Vec<String>, String>,
}

/// The two streams that a run writes: output lines and diagnostics.
pub struct RunOutput {
    pub out: Vec<String>,
    pub err: Vec<String>,
}

/// Output lines that one source contributes.
pub open spec fn source_out(mode: NumberingMode, s: SourceInput) -> Seq<Seq<char>> {
    match s.opened {
        Ok(lines) => render_source(mode, texts(lines@)),
        Err(_) => Seq::empty(),
    }
}

/// Diagnostics that one source contributes.
pub open spec fn source_err(s: SourceInput) -> Seq<Seq<char>> {
    match s.opened {
        Ok(_) => Seq::empty(),
        Err(e) => seq![open_failure(s.name@, e@)],
    }
}

/// Output lines of a run over `srcs`, in order.
pub open spec fn run_out(mode: NumberingMode, srcs: Seq<SourceInput>) -> Seq<Seq<char>>
    decreases srcs.len(),
{
    if srcs.len() == 0 {
        Seq::empty()
    } else {
        run_out(mode, srcs.drop_last()) + source_out(mode, srcs.last())
    }
}

/// Diagnostics of a run over `srcs`, in order.
pub open spec fn run_err(srcs: Seq<SourceInput>) -> Seq<Seq<char>>
    decreases srcs.len(),
{
    if srcs.len() == 0 {
        Seq::empty()
    } else {
        run_err(srcs.drop_last()) + source_err(srcs.last())
    }
}

/// Processes every source in order. One that could not be opened adds its
/// diagnostic and nothing else; the run always goes on to the next source.
pub fn render_run(mode: NumberingMode, sources: &Vec<SourceInput>) -> (r: RunOutput)
    ensures
        texts(r.out@) == run_out(mode, sources@),
        texts(r.err@) == run_err(sources@),
{
    let mut out: Vec<String> = Vec::new();
    let mut err: Vec<String> = Vec::new();
    let mut i: usize = 0;
    while i < sources.len()
        invariant
            i <= sources.len(),
            texts(out@) == run_out(mode, sources@.take(i as int)),
            texts(err@) == run_err(sources@.take(i as int)),
        decreases sources.len() - i,
    {
        let src = &sources[i];
        let ghost prev_out = out@;
        let ghost prev_err = err@;
        match &src.opened {
            Ok(lines) => {
                let mut rendered = render_lines(mode, lines);
                out.append(&mut rendered);
                proof {
                    assert(texts(out@) =~= texts(prev_out) + source_out(mode, *src));
                }
            },
            Err(e) => {
                let msg = open_failure_message(src.name.as_str(), e.as_str());
                err.push(msg);
                proof {
                    assert(texts(err@) =~= texts(prev_err) + source_err(*src));
                }
            },
        }
        proof {
            assert(sources@.take(i as int + 1).drop_last() =~= sources@.take(i as int));
        }
        i = i + 1;
        proof {
            assert(texts(out@) =~= run_out(mode, sources@.take(i as int)));
            assert(texts(err@) =~= run_err(sources@.take(i as int)));
        }
    }
    proof {
        assert(sources@.take(i as int) =~= sources@);
    }
    RunOutput { out, err }
}

} // verus!
