//! The commands of the Ion CLI: what each one is called and declares about itself, and the
//! decisions taken on the command line before a command runs.
use vstd::prelude::*;

pub mod beta;
pub mod catalog;
pub mod io;


verus! {

/// Behaviors common to all Ion CLI commands, including both namespaces (groups of commands) and
/// the commands themselves.
pub trait IonCliCommand {
    /// Indicates whether this command is stable (as opposed to unstable or experimental).
    /// Namespaces should almost always be stable.
    fn is_stable(&self) -> (r: bool)
        default_ensures
            r == false,
    {
        false
    }

    /// Whether the output is meant for people rather than for programs.
    fn is_porcelain(&self) -> (r: bool)
        default_ensures
            r == true,
    {
        true
    }

    /// The name of this command, used for dispatch and in help messages.
    fn name(&self) -> &'static str;

    /// A brief message describing this command's functionality.
    fn about(&self) -> &'static str;

    /// A long message describing this command's functionality.
    fn long_about(&self) -> (r: Option<&'static str>)
        default_ensures
            r is None,
    {
        None
    }
}

/// The help texts of a command: its brief and long description and the notes shown before and
/// after its help.
#[derive(Debug, PartialEq)]
pub struct CommandHelp {
    pub about: String,
    pub long_about: Option<String>,
    pub before_help: Option<String>,
    pub after_help: Option<String>,
}

pub open spec fn unstable_about(about: Seq<char>) -> Seq<char> {
    "(UNSTABLE) "@ + about
}

pub open spec fn unstable_warning() -> Seq<char> {
    "WARNING: This command is unstable and requires explicit opt-in using '--unstable' or '-X'."@
}

pub open spec fn porcelain_note() -> Seq<char> {
    "NOTE: The output of this command is not intended to be machine-readable."@
}

/// The help texts of a command with the description `about` and `long_about`: an unstable
/// command's description is marked `(UNSTABLE)` and its help is preceded by a warning; the help
/// of a command whose output is not machine-readable is followed by a note.
pub fn command_help(about: &str, long_about: Option<&str>, is_stable: bool, is_porcelain: bool) -> (r:
    CommandHelp)
    ensures
        r.about@ == (if is_stable {
            about@
        } else {
            unstable_about(about@)
        }),
        match long_about {
            Some(l) => r.long_about matches Some(t) && t@ == l@,
            None => r.long_about is None,
        },
        match r.before_help {
            Some(t) => !is_stable && t@ == unstable_warning(),
            None => is_stable,
        },
        match r.after_help {
            Some(t) => is_porcelain && t@ == porcelain_note(),
            None => !is_porcelain,
        },
{
    let about_text = if is_stable {
        String::from_str(about)
    } else {
        let mut t = String::from_str("(UNSTABLE) ");
        t.append(about);
        t
    };
    let long = match long_about {
        Some(l) => Some(String::from_str(l)),
        None => None,
    };
    let before = if is_stable {
        None
    } else {
        Some(
            String::from_str(
                "WARNING: This command is unstable and requires explicit opt-in using '--unstable' or '-X'.",
            ),
        )
    };
    let after = if is_porcelain {
        Some(String::from_str("NOTE: The output of this command is not intended to be machine-readable."))
    } else {
        None
    };
    CommandHelp { about: about_text, long_about: long, before_help: before, after_help: after }
}

/// What running a subcommand of a namespace does about the `--unstable` opt-in flag.
#[derive(Debug, PartialEq, Eq, Clone, Copy, Structural)]
pub enum UnstableOptIn {
    /// The subcommand is stable, and the flag was given anyway: warn and run it.
    Unnecessary,
    /// The subcommand is unstable, and the flag was not given: report it and exit.
    Missing,
    /// Run the subcommand.
    Accepted,
}

/// What the namespace does, given the stability of the chosen subcommand and whether the
/// `--unstable` flag was given.
pub fn check_unstable_opt_in(subcommand_is_stable: bool, unstable_flag: bool) -> (r: UnstableOptIn)
    ensures
        r == (if subcommand_is_stable && unstable_flag {
            UnstableOptIn::Unnecessary
        } else if !subcommand_is_stable && !unstable_flag {
            UnstableOptIn::Missing
        } else {
            UnstableOptIn::Accepted
        }),
{
    match (subcommand_is_stable, unstable_flag) {
        (true, true) => UnstableOptIn::Unnecessary,
        (false, false) => UnstableOptIn::Missing,
        _ => UnstableOptIn::Accepted,
    }
}

/// Whether any of the subcommands, given by their stability, is unstable; a namespace then
/// shows the `--unstable` flag.
pub fn has_unstable_subcommand(stable: &Vec<bool>) -> (r: bool)
    ensures
        r == exists|i: int| 0 <= i < stable@.len() && !stable@[i],
{
    let mut i: usize = 0;
    while i < stable.len()
        invariant
            i <= stable@.len(),
            forall|j: int| 0 <= j < i ==> stable@[j],
        decreases stable@.len() - i,
    {
        if !stable[i] {
            return true;
        }
        i = i + 1;
    }
    false
}

} // verus!
