//! What the program needs before it does any work: one argument and a
//! credential.

use vstd::prelude::*;

use crate::text::texts;

verus! {

/// The environment variable that holds the key for the completion service.
pub const CREDENTIAL_VARIABLE: &'static str = "GEMINI_API_KEY";

/// The status with which the process ends after a fatal error.
pub const EXIT_FAILURE: u8 = 1;

/// The program was not called with exactly one argument. The error has no
/// message of its own: the usage line is all that is said.
#[derive(Debug, Clone, Copy, PartialEq, Eq, Structural)]
pub struct MisuseError;

/// Why the program cannot start.
#[derive(Debug, Clone, Copy, PartialEq, Eq, Structural)]
pub enum StartupError {
    /// The argument count is wrong.
    Misuse(MisuseError),
    /// The credential is not set.
    MissingCredential,
}

/// What a run works with: the directory to walk and the key for the
/// completion service.
#[derive(Debug)]
pub struct Launch {
    pub root: String,
    pub api_key: String,
}

/// The mathematical model of a [`Launch`].
pub struct LaunchView {
    pub root: Seq<char>,
    pub api_key: Seq<char>,
}

impl View for Launch {
    type V = LaunchView;

    open spec fn view(&self) -> LaunchView {
        LaunchView { root: self.root@, api_key: self.api_key@ }
    }
}

/// The credential as a sequence of characters, if there is one.
pub open spec fn credential_view(credential: Option<String>) -> Option<Seq<char>> {
    match credential {
        Some(key) => Some(key@),
        None => None,
    }
}

/// The outcome of the startup checks. `args` is the whole argument vector,
/// the program's own name first; `credential` is the value of the
/// credential variable, if it is set. The argument count is checked first.
pub open spec fn startup_outcome(args: Seq<Seq<char>>, credential: Option<Seq<char>>) -> Result<
    LaunchView,
    StartupError,
> {
    if args.len() != 2 {
        Err(StartupError::Misuse(MisuseError))
    } else {
        match credential {
            None => Err(StartupError::MissingCredential),
            Some(api_key) => Ok(LaunchView { root: args[1], api_key }),
        }
    }
}

/// The usage line for a program called `program`.
pub open spec fn usage_text(program: Seq<char>) -> Seq<char> {
    "Usage: "@ + program + " dir_name"@
}

/// The line that reports a startup error.
pub open spec fn diagnostic_text(error: StartupError, program: Seq<char>) -> Seq<char> {
    match error {
        StartupError::Misuse(_) => usage_text(program),
        StartupError::MissingCredential => "Missing Gemini API key in env!"@,
    }
}

impl MisuseError {
    /// The message of the error, which is empty.
    pub fn message(&self) -> (text: String)
        ensures
            text@ == Seq::<char>::empty(),
    {
        String::new()
    }
}

impl StartupError {
    /// The line to print on standard error for this error, in a program
    /// called `program`.
    pub fn diagnostic(&self, program: &str) -> (line: String)
        ensures
            line@ == diagnostic_text(*self, program@),
    {
        match self {
            StartupError::Misuse(_) => {
                let mut line = String::from_str("Usage: ");
                line.append(program);
                line.append(" dir_name");
                line
            },
            StartupError::MissingCredential => String::from_str("Missing Gemini API key in env!"),
        }
    }

    /// The status with which the process ends after this error: the same
    /// for every error.
    pub fn exit_status(&self) -> (status: u8)
        ensures
            status == EXIT_FAILURE,
    {
        EXIT_FAILURE
    }
}

/// Checks the argument vector and the credential. A run starts only with
/// exactly one argument after the program's name and with a credential; the
/// argument count is checked first.
pub fn startup(args: &Vec<String>, credential: Option<String>) -> (outcome: Result<
    Launch,
    StartupError,
>)
    ensures
        match outcome {
            Ok(launch) => startup_outcome(texts(args@), credential_view(credential))
                == Ok::<LaunchView, StartupError>(launch@),
            Err(error) => startup_outcome(texts(args@), credential_view(credential))
                == Err::<LaunchView, StartupError>(error),
        },
{
    if args.len() != 2 {
        return Err(StartupError::Misuse(MisuseError));
    }
    match credential {
        None => Err(StartupError::MissingCredential),
        Some(api_key) => Ok(Launch { root: args[1].clone(), api_key }),
    }
}

/// With any argument count but one argument after the program's name,
/// startup fails with the usage error, whatever the credential, and the
/// status with which the process then ends is not zero. No [`Launch`], and so no key for a
/// request, comes of it.
pub proof fn law_wrong_argument_count_fails(args: Seq<Seq<char>>, credential: Option<Seq<char>>)
    requires
        args.len() != 2,
    ensures
        startup_outcome(args, credential) == Err::<LaunchView, StartupError>(
            StartupError::Misuse(MisuseError),
        ),
        EXIT_FAILURE != 0,
{
}

/// Without a credential startup fails, with whatever arguments, and the
/// status with which the process then ends is not zero; with the right
/// argument count the error is the missing credential. No [`Launch`], and so no key for a request,
/// comes of it.
pub proof fn law_missing_credential_fails(args: Seq<Seq<char>>)
    ensures
        startup_outcome(args, None) is Err,
        EXIT_FAILURE != 0,
        args.len() == 2 ==> startup_outcome(args, None) == Err::<LaunchView, StartupError>(
            StartupError::MissingCredential,
        ),
{
}

} // verus!
