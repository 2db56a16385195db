//! Settings of one `cat` run, validated when they are built.
use vstd::prelude::*;
use crate::text::views;

verus! {

/// The file name that stands for standard input.
pub open spec fn stdin_name() -> Seq<char> {
    seq!['-']
}

/// Why a set of `cat` settings was refused.
#[derive(Debug, Clone, Copy, PartialEq, Eq, Structural)]
pub enum ConfigError {
    /// Numbering of all lines and of non-blank lines were both asked for.
    ConflictingNumbering,
}

/// The files to copy, in order, and how to number their lines.
#[derive(Debug)]
pub struct Config {
    files: Vec<String>,
    number_lines: bool,
    number_nonblank_lines: bool,
}

impl Config {
    /// The names of the files to copy.
    pub closed spec fn spec_files(&self) -> Seq<Seq<char>> {
        views(self.files@)
    }

    /// Whether every line gets a number.
    pub closed spec fn spec_number_lines(&self) -> bool {
        self.number_lines
    }

    /// Whether non-blank lines get a number.
    pub closed spec fn spec_number_nonblank_lines(&self) -> bool {
        self.number_nonblank_lines
    }

    /// At least one file is named, and at most one numbering mode is on.
    pub open spec fn wf(&self) -> bool {
        &&& self.spec_files().len() > 0
        &&& !(self.spec_number_lines() && self.spec_number_nonblank_lines())
    }

    /// Settings for copying `files`; no files at all means standard input.
    /// Asking for both numbering modes is refused.
    pub fn new(files: Vec<String>, number_lines: bool, number_nonblank_lines: bool) -> (r: Result<
        Config,
        ConfigError,
    >)
        ensures
            r is Err <==> number_lines && number_nonblank_lines,
            r is Err ==> r->Err_0 == ConfigError::ConflictingNumbering,
            r matches Ok(c) ==> {
                &&& c.wf()
                &&& c.spec_number_lines() == number_lines
                &&& c.spec_number_nonblank_lines() == number_nonblank_lines
                &&& c.spec_files() == if files@.len() == 0 {
                    seq![stdin_name()]
                } else {
                    views(files@)
                }
            },
    {
        if number_lines && number_nonblank_lines {
            return Err(ConfigError::ConflictingNumbering);
        }
        let files = if files.len() == 0 {
            proof {
                reveal_strlit("-");
                assert("-"@ =~= stdin_name());
            }
            let v = vec![String::from_str("-")];
            assert(views(v@) =~= seq![stdin_name()]);
            v
        } else {
            files
        };
        Ok(Config { files, number_lines, number_nonblank_lines })
    }

    /// The names of the files to copy, in order.
    pub fn files(&self) -> (r: &Vec<String>)
        ensures
            views(r@) == self.spec_files(),
    {
        &self.files
    }

    /// Whether every line gets a number.
    pub fn number_lines(&self) -> (r: bool)
        ensures
            r == self.spec_number_lines(),
    {
        self.number_lines
    }

    /// Whether non-blank lines get a number.
    pub fn number_nonblank_lines(&self) -> (r: bool)
        ensures
            r == self.spec_number_nonblank_lines(),
    {
        self.number_nonblank_lines
    }
}

/// Whether `name` stands for standard input rather than a file.
pub fn is_stdin(name: &str) -> (r: bool)
    ensures
        r == (name@ == stdin_name()),
{
    if name.unicode_len() == 1 {
        let c = name.get_char(0);
        assert(c == '-' ==> name@ =~= stdin_name());
        c == '-'
    } else {
        false
    }
}

} // verus!
