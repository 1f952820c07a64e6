use vstd::prelude::*;
use crate::error::CliError;
use crate::paths::{join_path, path_join};

verus! {

/// The top-level commands.
#[derive(Debug, Clone, Copy, PartialEq, Eq)]
pub enum Commands {
    Init,
    New,
    Build,
    Run,
    Help,
}

/// Options that may follow the command.
#[derive(Debug, Clone, Copy, PartialEq, Eq)]
pub enum Flags {
    /// Initialise a git repository in the new project.
    Git,
}

/// A command line, read.
#[derive(Debug, Clone, PartialEq, Eq)]
pub struct Args {
    pub command: Commands,
    /// The project directory.
    pub path: String,
    pub flags: Vec<Flags>,
}

/// What a command asks the program to do.
#[derive(Debug, Clone, PartialEq, Eq)]
pub enum Action {
    Init { path: String, git: bool },
    New { path: String, git: bool },
    Build { path: String },
    Run { path: String },
    Help,
}

/// The characters of Unicode's White_Space property.
pub open spec fn is_white_space(c: char) -> bool {
    ('\u{9}' <= c && c <= '\u{d}') || c == ' ' || c == '\u{85}' || c == '\u{a0}' || c
        == '\u{1680}' || ('\u{2000}' <= c && c <= '\u{200a}') || c == '\u{2028}' || c
        == '\u{2029}' || c == '\u{202f}' || c == '\u{205f}' || c == '\u{3000}'
}

/// `s` without its leading white space.
pub open spec fn trim_start_of(s: Seq<char>) -> Seq<char>
    decreases s.len(),
{
    if s.len() > 0 && is_white_space(s[0]) {
        trim_start_of(s.drop_first())
    } else {
        s
    }
}

/// `s` without its trailing white space.
pub open spec fn trim_end_of(s: Seq<char>) -> Seq<char>
    decreases s.len(),
{
    if s.len() > 0 && is_white_space(s.last()) {
        trim_end_of(s.drop_last())
    } else {
        s
    }
}

/// A command line argument with surrounding white space removed.
pub open spec fn trim_of(s: Seq<char>) -> Seq<char> {
    trim_end_of(trim_start_of(s))
}

/// Relies on `str::trim`: removes leading and trailing characters of
/// Unicode's White_Space property.
#[verifier::external_body]
fn trim_text(s: &str) -> (r: String)
    ensures
        r@ == trim_of(s@),
{
    s.trim().to_string()
}

pub open spec fn command_word(w: Seq<char>) -> Option<Commands> {
    if w == "init"@ {
        Some(Commands::Init)
    } else if w == "new"@ {
        Some(Commands::New)
    } else if w == "build"@ {
        Some(Commands::Build)
    } else if w == "run"@ {
        Some(Commands::Run)
    } else if w == "help"@ {
        Some(Commands::Help)
    } else {
        None
    }
}

pub open spec fn is_git_word(w: Seq<char>) -> bool {
    w == "--git"@ || w == "-g"@
}

/// How many of the words ask for a git repository.
pub open spec fn git_count(ws: Seq<Seq<char>>) -> nat
    decreases ws.len(),
{
    if ws.len() == 0 {
        0
    } else {
        git_count(ws.drop_last()) + if is_git_word(ws.last()) {
            1nat
        } else {
            0nat
        }
    }
}

/// `s` without its leading `/` characters.
pub open spec fn strip_slashes(s: Seq<char>) -> Seq<char>
    decreases s.len(),
{
    if s.len() > 0 && s[0] == '/' {
        strip_slashes(s.drop_first())
    } else {
        s
    }
}

/// The reading of a command line whose trimmed words are `words` and whose
/// words as given are `raw`, run from directory `cwd`.
pub open spec fn parsed(
    words: Seq<Seq<char>>,
    raw: Seq<Seq<char>>,
    cwd: Seq<char>,
    r: Result<Args, CliError>,
) -> bool {
    if words.len() == 0 {
        r is Ok && r->Ok_0.command == Commands::Help && r->Ok_0.path@ == cwd
            && r->Ok_0.flags@.len() == 0
    } else {
        match command_word(words[0]) {
            None => r == Err::<Args, CliError>(CliError::InvalidCommand),
            Some(Commands::New) => if words.len() < 2 {
                r matches Err(CliError::MissingArgument(m)) && m@ == "name after command new."@
            } else {
                r is Ok && r->Ok_0.command == Commands::New && r->Ok_0.path@ == path_join(
                    cwd,
                    strip_slashes(raw[1]),
                ) && r->Ok_0.flags@.len() == git_count(words.subrange(2, words.len() as int))
            },
            Some(c) => r is Ok && r->Ok_0.command == c && r->Ok_0.path@ == cwd
                && r->Ok_0.flags@.len() == git_count(words.subrange(1, words.len() as int)),
        }
    }
}

fn command_of(w: &String) -> (r: Option<Commands>)
    ensures
        r == command_word(w@),
{
    if *w == String::from_str("init") {
        Some(Commands::Init)
    } else if *w == String::from_str("new") {
        Some(Commands::New)
    } else if *w == String::from_str("build") {
        Some(Commands::Build)
    } else if *w == String::from_str("run") {
        Some(Commands::Run)
    } else if *w == String::from_str("help") {
        Some(Commands::Help)
    } else {
        None
    }
}

/// The `Git` flags asked for by `words[start..]`.
fn git_flags(words: &Vec<String>, start: usize) -> (r: Vec<Flags>)
    requires
        start <= words@.len(),
    ensures
        r@.len() == git_count(words@.map_values(|s: String| s@).subrange(
            start as int,
            words@.len() as int,
        )),
{
    let ghost ws = words@.map_values(|s: String| s@);
    let mut r: Vec<Flags> = Vec::new();
    let mut j: usize = start;
    while j < words.len()
        invariant
            start <= j <= words@.len(),
            ws == words@.map_values(|s: String| s@),
            r@.len() == git_count(ws.subrange(start as int, j as int)),
        decreases words.len() - j,
    {
        proof {
            let next = ws.subrange(start as int, j + 1);
            assert(next.drop_last() =~= ws.subrange(start as int, j as int));
            assert(next.last() == words@[j as int]@);
        }
        if words[j] == String::from_str("--git") || words[j] == String::from_str("-g") {
            r.push(Flags::Git);
        }
        j = j + 1;
    }
    r
}

/// Removes the leading `/` characters of `s`.
fn strip_leading_slashes(s: &str) -> (r: String)
    ensures
        r@ == strip_slashes(s@),
{
    let n = s.unicode_len();
    let mut k: usize = 0;
    assert(s@.subrange(0, n as int) =~= s@);
    while k < n && s.get_char(k) == '/'
        invariant
            k <= n,
            n == s@.len(),
            strip_slashes(s@) == strip_slashes(s@.subrange(k as int, n as int)),
        decreases n - k,
    {
        proof {
            let t = s@.subrange(k as int, n as int);
            assert(t.drop_first() =~= s@.subrange(k + 1, n as int));
        }
        k = k + 1;
    }
    String::from_str(s.substring_char(k, n))
}

impl Args {
    /// Reads a command line from its trimmed words `words` and the same words
    /// as given, `raw`.
    pub fn from_words(words: &Vec<String>, raw: &Vec<String>, cwd: &str) -> (r: Result<
        Args,
        CliError,
    >)
        requires
            words@.len() == raw@.len(),
        ensures
            parsed(words@.map_values(|s: String| s@), raw@.map_values(|s: String| s@), cwd@, r),
    {
        if words.len() == 0 {
            return Ok(Args { command: Commands::Help, path: String::from_str(cwd), flags: Vec::new() });
        }
        let command = match command_of(&words[0]) {
            Some(c) => c,
            None => return Err(CliError::InvalidCommand),
        };
        match command {
            Commands::New => {
                if words.len() < 2 {
                    return Err(CliError::MissingArgument(String::from_str("name after command new.")));
                }
                let name = strip_leading_slashes(raw[1].as_str());
                let path = join_path(cwd, name.as_str());
                Ok(Args { command, path, flags: git_flags(words, 2) })
            },
            _ => Ok(Args { command, path: String::from_str(cwd), flags: git_flags(words, 1) }),
        }
    }

    /// Reads a command line: the arguments after the program's name, and the
    /// directory the program runs in.
    pub fn get(args: &Vec<String>, cwd: &str) -> (r: Result<Args, CliError>)
        ensures
            parsed(
                args@.map_values(|s: String| trim_of(s@)),
                args@.map_values(|s: String| s@),
                cwd@,
                r,
            ),
    {
        let mut words: Vec<String> = Vec::new();
        let mut i: usize = 0;
        while i < args.len()
            invariant
                i <= args@.len(),
                words@.len() == i,
                forall|k: int| 0 <= k < i ==> #[trigger] words@[k]@ == trim_of(args@[k]@),
            decreases args.len() - i,
        {
            words.push(trim_text(args[i].as_str()));
            i = i + 1;
        }
        assert(words@.map_values(|s: String| s@) =~= args@.map_values(|s: String| trim_of(s@)));
        Args::from_words(&words, args, cwd)
    }

    /// Decides what the command line asks for.
    pub fn exec(&self) -> (r: Action)
        ensures
            r == match self.command {
                Commands::Init => Action::Init { path: self.path, git: self.flags@.len() > 0 },
                Commands::New => Action::New { path: self.path, git: self.flags@.len() > 0 },
                Commands::Build => Action::Build { path: self.path },
                Commands::Run => Action::Run { path: self.path },
                Commands::Help => Action::Help,
            },
    {
        let git = self.flags.len() > 0;
        match self.command {
            Commands::Init => Action::Init { path: self.path.clone(), git },
            Commands::New => Action::New { path: self.path.clone(), git },
            Commands::Build => Action::Build { path: self.path.clone() },
            Commands::Run => Action::Run { path: self.path.clone() },
            Commands::Help => Action::Help,
        }
    }
}

} // verus!
