//! `cat`: copying lines, optionally numbered, file after file.
use vstd::prelude::*;
use crate::numfmt::{number_field, number_field_of};
use crate::config::Config;
use crate::text::views;

verus! {

/// A line is blank when nothing is left of it once its terminator is gone.
pub open spec fn is_blank(line: Seq<char>) -> bool {
    line.len() == 0
}

/// `line` behind the number `n`, a tab between them, and a newline after.
pub open spec fn numbered_line(n: nat, line: Seq<char>) -> Seq<char> {
    number_field_of(n) + seq!['\t'] + line + seq!['\n']
}

/// `line` as it was read, followed by a newline.
pub open spec fn plain_line(line: Seq<char>) -> Seq<char> {
    line + seq!['\n']
}

/// What is written for `line`, the line at 0-based position `index` of its
/// file, after `count` non-blank lines of that file.
pub open spec fn line_output(
    number_lines: bool,
    number_nonblank: bool,
    index: nat,
    count: nat,
    line: Seq<char>,
) -> Seq<char> {
    if number_lines {
        numbered_line(index + 1, line)
    } else if number_nonblank && !is_blank(line) {
        numbered_line(count + 1, line)
    } else {
        plain_line(line)
    }
}

/// How many of `lines` are not blank.
pub open spec fn nonblank_count(lines: Seq<Seq<char>>) -> nat
    decreases lines.len(),
{
    if lines.len() == 0 {
        0
    } else {
        nonblank_count(lines.drop_last()) + if is_blank(lines.last()) {
            0nat
        } else {
            1nat
        }
    }
}

/// What is written for a whole file whose lines are `lines`.
pub open spec fn file_output(number_lines: bool, number_nonblank: bool, lines: Seq<Seq<char>>) -> Seq<
    char,
>
    decreases lines.len(),
{
    if lines.len() == 0 {
        Seq::empty()
    } else {
        let init = lines.drop_last();
        file_output(number_lines, number_nonblank, init) + line_output(
            number_lines,
            number_nonblank,
            init.len(),
            nonblank_count(init),
            lines.last(),
        )
    }
}

/// Numbers the lines of one file as they are read, one at a time.
pub struct LineNumbering {
    number_lines: bool,
    number_nonblank: bool,
    lines_seen: usize,
    nonblank_seen: usize,
}

impl LineNumbering {
    /// Whether every line gets a number.
    pub closed spec fn spec_number_lines(&self) -> bool {
        self.number_lines
    }

    /// Whether non-blank lines get a number.
    pub closed spec fn spec_number_nonblank(&self) -> bool {
        self.number_nonblank
    }

    /// How many lines of the file have been handled.
    pub closed spec fn spec_lines_seen(&self) -> nat {
        self.lines_seen as nat
    }

    /// How many non-blank lines of the file have been handled.
    pub closed spec fn spec_nonblank_seen(&self) -> nat {
        self.nonblank_seen as nat
    }

    /// No more non-blank lines were counted than lines.
    pub closed spec fn wf(&self) -> bool {
        self.nonblank_seen <= self.lines_seen
    }

    /// Numbering for the start of a new file: nothing counted yet.
    pub fn new(number_lines: bool, number_nonblank: bool) -> (r: LineNumbering)
        ensures
            r.wf(),
            r.spec_number_lines() == number_lines,
            r.spec_number_nonblank() == number_nonblank,
            r.spec_lines_seen() == 0,
            r.spec_nonblank_seen() == 0,
    {
        LineNumbering { number_lines, number_nonblank, lines_seen: 0, nonblank_seen: 0 }
    }

    /// How many lines of the file have been handled.
    pub fn lines_seen(&self) -> (r: usize)
        ensures
            r as nat == self.spec_lines_seen(),
    {
        self.lines_seen
    }

    /// The text written for the next line of the file.
    pub fn next_line(&mut self, line: &str) -> (r: String)
        requires
            old(self).wf(),
            old(self).spec_lines_seen() < usize::MAX,
        ensures
            final(self).wf(),
            r@ == line_output(
                old(self).spec_number_lines(),
                old(self).spec_number_nonblank(),
                old(self).spec_lines_seen(),
                old(self).spec_nonblank_seen(),
                line@,
            ),
            final(self).spec_number_lines() == old(self).spec_number_lines(),
            final(self).spec_number_nonblank() == old(self).spec_number_nonblank(),
            final(self).spec_lines_seen() == old(self).spec_lines_seen() + 1,
            final(self).spec_nonblank_seen() == old(self).spec_nonblank_seen() + if is_blank(
                line@,
            ) {
                0nat
            } else {
                1nat
            },
    {
        proof {
            reveal_strlit("\t");
            reveal_strlit("\n");
            assert("\t"@ =~= seq!['\t']);
            assert("\n"@ =~= seq!['\n']);
        }
        let blank = line.is_empty();
        let numbered = if self.number_lines {
            Some(self.lines_seen + 1)
        } else if self.number_nonblank && !blank {
            Some(self.nonblank_seen + 1)
        } else {
            None
        };
        let mut r = match numbered {
            Some(n) => {
                let mut s = number_field(n);
                s.append("\t");
                s
            },
            None => String::new(),
        };
        r.append(line);
        r.append("\n");
        self.lines_seen = self.lines_seen + 1;
        if !blank {
            self.nonblank_seen = self.nonblank_seen + 1;
        }
        r
    }
}

/// What is written for a whole file whose lines are `lines`, numbered as
/// `config` asks.
pub fn cat_file(config: &Config, lines: &Vec<String>) -> (r: String)
    ensures
        r@ == file_output(
            config.spec_number_lines(),
            config.spec_number_nonblank_lines(),
            views(lines@),
        ),
{
    let ghost nl = config.spec_number_lines();
    let ghost nb = config.spec_number_nonblank_lines();
    let mut numbering = LineNumbering::new(config.number_lines(), config.number_nonblank_lines());
    let mut r = String::new();
    let mut i: usize = 0;
    while i < lines.len()
        invariant
            i <= lines@.len(),
            numbering.wf(),
            numbering.spec_number_lines() == nl,
            numbering.spec_number_nonblank() == nb,
            numbering.spec_lines_seen() == i,
            numbering.spec_nonblank_seen() == nonblank_count(views(lines@.take(i as int))),
            r@ == file_output(nl, nb, views(lines@.take(i as int))),
        decreases lines@.len() - i,
    {
        let ghost before = views(lines@.take(i as int));
        let out = numbering.next_line(lines[i].as_str());
        r.append(out.as_str());
        i = i + 1;
        proof {
            let now = views(lines@.take(i as int));
            assert(now.drop_last() =~= before);
            assert(now.last() == lines@[i - 1]@);
        }
    }
    assert(lines@.take(i as int) =~= lines@);
    r
}

/// One entry of the list of files: the lines that were read from it, or
/// the reason it could not be opened.
pub enum Source {
    Lines(Vec<String>),
    Unopened { name: String, reason: String },
}

/// What a run writes to each of the two output streams.
pub struct RunOutput {
    pub stdout: String,
    pub stderr: String,
}

/// The report for a file that could not be opened, without a newline.
pub open spec fn failure_message(name: Seq<char>, reason: Seq<char>) -> Seq<char> {
    "Failed to open "@ + name + ": "@ + reason
}

/// What one entry adds to standard output.
pub open spec fn source_stdout(number_lines: bool, number_nonblank: bool, s: Source) -> Seq<char> {
    match s {
        Source::Lines(v) => file_output(number_lines, number_nonblank, views(v@)),
        Source::Unopened { .. } => Seq::empty(),
    }
}

/// What one entry adds to the error stream.
pub open spec fn source_stderr(s: Source) -> Seq<char> {
    match s {
        Source::Lines(_) => Seq::empty(),
        Source::Unopened { name, reason } => failure_message(name@, reason@) + seq!['\n'],
    }
}

/// Standard output of a run over `sources`, in order.
pub open spec fn run_stdout(number_lines: bool, number_nonblank: bool, sources: Seq<Source>) -> Seq<
    char,
>
    decreases sources.len(),
{
    if sources.len() == 0 {
        Seq::empty()
    } else {
        run_stdout(number_lines, number_nonblank, sources.drop_last()) + source_stdout(
            number_lines,
            number_nonblank,
            sources.last(),
        )
    }
}

/// Error stream of a run over `sources`, in order.
pub open spec fn run_stderr(sources: Seq<Source>) -> Seq<char>
    decreases sources.len(),
{
    if sources.len() == 0 {
        Seq::empty()
    } else {
        run_stderr(sources.drop_last()) + source_stderr(sources.last())
    }
}

/// The report for `name`, which could not be opened for `reason`.
pub fn open_failure_message(name: &str, reason: &str) -> (r: String)
    ensures
        r@ == failure_message(name@, reason@),
{
    let mut r = String::from_str("Failed to open ");
    r.append(name);
    r.append(": ");
    r.append(reason);
    r
}

/// Both output streams of a run over `sources`: the lines of every file
/// that was read, numbered as `config` asks and with the count of
/// non-blank lines starting afresh in each file, and one report for each
/// file that could not be opened.
pub fn cat_sources(config: &Config, sources: &Vec<Source>) -> (r: RunOutput)
    ensures
        r.stdout@ == run_stdout(
            config.spec_number_lines(),
            config.spec_number_nonblank_lines(),
            sources@,
        ),
        r.stderr@ == run_stderr(sources@),
{
    proof {
        reveal_strlit("\n");
        assert("\n"@ =~= seq!['\n']);
    }
    let ghost nl = config.spec_number_lines();
    let ghost nb = config.spec_number_nonblank_lines();
    let mut stdout = String::new();
    let mut stderr = String::new();
    let mut i: usize = 0;
    while i < sources.len()
        invariant
            i <= sources@.len(),
            nl == config.spec_number_lines(),
            nb == config.spec_number_nonblank_lines(),
            "\n"@ == seq!['\n'],
            stdout@ == run_stdout(nl, nb, sources@.take(i as int)),
            stderr@ == run_stderr(sources@.take(i as int)),
        decreases sources@.len() - i,
    {
        match &sources[i] {
            Source::Lines(lines) => {
                let out = cat_file(config, lines);
                stdout.append(out.as_str());
            },
            Source::Unopened { name, reason } => {
                let msg = open_failure_message(name.as_str(), reason.as_str());
                stderr.append(msg.as_str());
                stderr.append("\n");
            },
        }
        i = i + 1;
        assert(sources@.take(i as int).drop_last() =~= sources@.take(i as int - 1));
    }
    assert(sources@.take(i as int) =~= sources@);
    RunOutput { stdout, stderr }
}

} // verus!
