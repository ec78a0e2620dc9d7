use vstd::prelude::*;

verus! {

#[verifier::external_type_specification]
#[verifier::external_body]
pub struct ExParseError(shell_words::ParseError);

#[verifier::external_type_specification]
#[verifier::external_body]
pub struct ExIoError(std::io::Error);

/// What `shell_words::split` makes of a command line: its words, or none where
/// a quote is left open. It depends on the text alone.
pub uninterp spec fn split_words(line: Seq<char>) -> Option<Seq<Seq<char>>>;

/// What `str::replace` makes of `s`: every occurrence of `from`, left to right,
/// replaced by `to`. It depends on the three texts alone.
pub uninterp spec fn replaced(s: Seq<char>, from: Seq<char>, to: Seq<char>) -> Seq<char>;

/// Relies on `shell_words::split`: the words of a command line as a POSIX shell
/// reads them, or a parse error for an unterminated quote or escape.
#[verifier::external_body]
fn split_command_line(line: &str) -> (r: Result<Vec<String>, shell_words::ParseError>)
    ensures
        r is Ok <==> split_words(line@) is Some,
        r matches Ok(words) ==> split_words(line@) == Some(words@.map_values(|w: String| w@)),
{
    shell_words::split(line)
}

/// Relies on `str::replace`: a new string with every occurrence of `from`
/// replaced by `to`.
#[verifier::external_body]
fn replace_all(s: &str, from: &str, to: &str) -> (r: String)
    ensures
        r@ == replaced(s@, from@, to@),
{
    s.replace(from, to)
}

/// Why a command could not be run.
#[derive(Debug)]
pub enum CommandExecutionError {
    /// Starting the program failed.
    Io(std::io::Error),
    /// The command line has an unterminated quote or escape.
    Parse(shell_words::ParseError),
    /// The command line holds no word, so there is no program to run.
    InvalidArgs,
}

/// Why an action could not be run.
#[derive(Debug)]
pub enum RunActionError {
    CommandExecutionError(CommandExecutionError),
}

/// The placeholder that a command writes for the path of the image on screen.
pub const PLACEHOLDER: &'static str = "%1";

/// A path in double quotes.
pub open spec fn quoted(path: Seq<char>) -> Seq<char> {
    "\""@ + path + "\""@
}

/// The command line after the placeholder is replaced by the quoted image path.
pub open spec fn command_text(command: Seq<char>, image_path: Seq<char>) -> Seq<char> {
    replaced(command, PLACEHOLDER@, quoted(image_path))
}

/// The words of a split command line, if it split and has a first word.
pub open spec fn runnable_words(split: Option<Seq<Seq<char>>>) -> bool {
    split matches Some(words) && words.len() > 0
}

/// Turns the outcome of splitting a command line into what to run: a parse error
/// stays one, a line without words has no program, and any other line runs its
/// first word with the rest as arguments.
pub fn program_and_args(split: Result<Vec<String>, shell_words::ParseError>) -> (r: Result<
    Vec<String>,
    CommandExecutionError,
>)
    ensures
        split is Err <==> r matches Err(CommandExecutionError::Parse(_)),
        (split matches Ok(words) && words@.len() == 0) <==> r matches Err(
            CommandExecutionError::InvalidArgs,
        ),
        (split matches Ok(words) && words@.len() > 0) <==> r is Ok,
        r matches Ok(v) ==> split matches Ok(words) && v@ == words@,
        !(r matches Err(CommandExecutionError::Io(_))),
{
    match split {
        Err(e) => Err(CommandExecutionError::Parse(e)),
        Ok(words) => {
            if words.len() == 0 {
                Err(CommandExecutionError::InvalidArgs)
            } else {
                Ok(words)
            }
        },
    }
}

/// A command that an action runs, and the error its last test run gave.
#[derive(Debug)]
pub struct ShellCommand(pub String, pub Option<CommandExecutionError>);

impl ShellCommand {
    /// The command's words, first the program, for the image at `image_path`:
    /// the placeholder is replaced by the quoted path and the line is split as a
    /// shell would.
    pub fn command_line(&self, image_path: &str) -> (r: Result<Vec<String>, CommandExecutionError>)
        ensures
            r is Ok <==> runnable_words(split_words(command_text(self.0@, image_path@))),
            r matches Ok(v) ==> split_words(command_text(self.0@, image_path@)) == Some(
                v@.map_values(|w: String| w@),
            ),
            r matches Err(CommandExecutionError::Parse(_)) <==> split_words(
                command_text(self.0@, image_path@),
            ) is None,
            r matches Err(CommandExecutionError::InvalidArgs) <==> split_words(
                command_text(self.0@, image_path@),
            ) == Some(Seq::<Seq<char>>::empty()),
            !(r matches Err(CommandExecutionError::Io(_))),
    {
        let mut path = String::from_str("\"");
        path.append(image_path);
        path.append("\"");
        let line = replace_all(self.0.as_str(), PLACEHOLDER, path.as_str());
        let split = split_command_line(line.as_str());
        proof {
            if let Ok(words) = &split {
                if words@.len() == 0 {
                    assert(words@.map_values(|w: String| w@) =~= Seq::<Seq<char>>::empty());
                }
            }
            if let Some(ws) = split_words(line@) {
                if ws.len() == 0 {
                    assert(split matches Ok(words) && words@.map_values(|w: String| w@).len() == 0);
                }
            }
        }
        program_and_args(split)
    }
}

impl Clone for ShellCommand {
    /// The same command, without the cached error of its last run.
    fn clone(&self) -> (r: ShellCommand)
        ensures
            r.0@ == self.0@,
            r.1 is None,
    {
        ShellCommand(self.0.clone(), clone_none(&self.1))
    }
}

/// A clone that keeps nothing: what is cached beside a value (such as the last
/// error of a command) is not carried into its copies.
pub fn clone_none<T>(_value: &Option<T>) -> (r: Option<T>)
    ensures
        r is None,
{
    None
}

/// What a key can be bound to.
#[derive(Debug)]
pub enum Action {
    /// The key does nothing.
    Nothing,
    Command(ShellCommand),
}

impl Action {
    /// The words to run for this action on the image at `image_path`: none for
    /// `Nothing`, else the command's words, first the program.
    pub fn command_line(&self, image_path: &str) -> (r: Result<Option<Vec<String>>, RunActionError>)
        ensures
            self is Nothing ==> r matches Ok(None),
            self matches Action::Command(c) ==> (r is Ok <==> runnable_words(
                split_words(command_text(c.0@, image_path@)),
            )),
            self matches Action::Command(c) ==> (r matches Ok(Some(v)) ==> split_words(
                command_text(c.0@, image_path@),
            ) == Some(v@.map_values(|w: String| w@))),
            self matches Action::Command(_) ==> !(r matches Ok(None)),
    {
        match self {
            Action::Nothing => Ok(None),
            Action::Command(command) => match command.command_line(image_path) {
                Ok(words) => Ok(Some(words)),
                Err(e) => Err(RunActionError::CommandExecutionError(e)),
            },
        }
    }

    /// The name shown for the kind of action.
    pub fn name(&self) -> (r: &'static str)
        ensures
            self is Nothing ==> r@ == "None"@,
            self is Command ==> r@ == "Command"@,
    {
        match self {
            Action::Nothing => "None",
            Action::Command(_) => "Command",
        }
    }
}

} // verus!
