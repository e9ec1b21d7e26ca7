//! The command line of the manifesto-summary program: the manifesto's path
//! and the path of a file holding the API key.
use vstd::prelude::*;
use vstd::string::*;

verus! {

/// What the program runs on.
pub struct Args {
    pub file_path: String,
    pub openai_key: String,
}

/// The two paths named on the command line.
pub struct ArgPaths {
    pub file_path: String,
    pub key_path: String,
}

/// A command line that names too few paths.
#[derive(PartialEq, Eq, Structural, Debug, Clone, Copy)]
pub enum ArgsError {
    /// Nothing follows the program's name.
    MissingFilePath,
    /// Only the manifesto's path follows the program's name.
    MissingKeyPath,
}

impl ArgsError {
    /// The text that reports the error.
    pub fn message(&self) -> (r: &'static str)
        ensures
            *self == ArgsError::MissingFilePath ==> r@ == "Didn't get a file_path"@,
            *self == ArgsError::MissingKeyPath ==> r@ == "Didn't get a file path for the OpenAI key"@,
    {
        match self {
            ArgsError::MissingFilePath => "Didn't get a file_path",
            ArgsError::MissingKeyPath => "Didn't get a file path for the OpenAI key",
        }
    }
}

/// Reads the two paths that follow the program's name in `args`; anything
/// after them is ignored.
pub fn parse_arg_paths(args: &Vec<String>) -> (r: Result<ArgPaths, ArgsError>)
    ensures
        args@.len() < 2 <==> r == Err::<ArgPaths, ArgsError>(ArgsError::MissingFilePath),
        args@.len() == 2 <==> r == Err::<ArgPaths, ArgsError>(ArgsError::MissingKeyPath),
        r matches Ok(p) ==> p.file_path@ == args@[1]@ && p.key_path@ == args@[2]@,
{
    if args.len() < 2 {
        return Err(ArgsError::MissingFilePath);
    }
    if args.len() < 3 {
        return Err(ArgsError::MissingKeyPath);
    }
    Ok(ArgPaths { file_path: args[1].clone(), key_path: args[2].clone() })
}

/// `s` without its last character when that is a line feed.
pub open spec fn without_trailing_newline(s: Seq<char>) -> Seq<char> {
    if s.len() > 0 && s.last() == '\n' {
        s.drop_last()
    } else {
        s
    }
}

/// Removes one trailing line feed from `s`, if there is one.
pub fn strip_trailing_newline(s: &str) -> (r: String)
    ensures
        r@ == without_trailing_newline(s@),
{
    let n = s.unicode_len();
    if n > 0 && s.get_char(n - 1) == '\n' {
        s.substring_char(0, n - 1).to_owned()
    } else {
        s.to_owned()
    }
}

impl Args {
    /// The arguments for the manifesto at `file_path`, with the API key read
    /// from a key file whose text is `key_file_contents`; one trailing line
    /// feed of that text is not part of the key.
    pub fn from_key_file(file_path: String, key_file_contents: &str) -> (r: Args)
        ensures
            r.file_path@ == file_path@,
            r.openai_key@ == without_trailing_newline(key_file_contents@),
    {
        Args { file_path, openai_key: strip_trailing_newline(key_file_contents) }
    }
}

} // verus!
