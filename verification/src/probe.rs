//! The questions that locating asks of its surroundings, and their answers.
//!
//! The locator never touches the file system or runs a program itself. It
//! hands its driver one `Query` at a time and continues on the `Answer`.

use vstd::prelude::*;

verus! {

/// One question to the surroundings.
#[derive(Clone, Debug, PartialEq, Eq)]
pub enum Query {
    /// The install prefix that the system's package-config registry
    /// records for the library.
    RegistryPrefix,
    /// The install location that the alternate package manager reports for
    /// the library.
    PackageLocation,
    /// Does this path exist?
    Exists(String),
    /// Is this path a directory?
    IsDirectory(String),
    /// The paths of the entries of this directory.
    Entries(String),
    /// The paths that match this pattern.
    Matches(String),
    /// Copy the file `from` to `to`.
    Copy { from: String, to: String },
}

/// What a `Query` stands for in contracts.
pub enum Question {
    RegistryPrefix,
    PackageLocation,
    Exists(Seq<char>),
    IsDirectory(Seq<char>),
    Entries(Seq<char>),
    Matches(Seq<char>),
    Copy { from: Seq<char>, to: Seq<char> },
}

impl View for Query {
    type V = Question;

    open spec fn view(&self) -> Question {
        match self {
            Query::RegistryPrefix => Question::RegistryPrefix,
            Query::PackageLocation => Question::PackageLocation,
            Query::Exists(p) => Question::Exists(p@),
            Query::IsDirectory(p) => Question::IsDirectory(p@),
            Query::Entries(p) => Question::Entries(p@),
            Query::Matches(p) => Question::Matches(p@),
            Query::Copy { from, to } => Question::Copy { from: from@, to: to@ },
        }
    }
}

/// The answer to a `Query`.
#[derive(Clone, Debug, PartialEq, Eq)]
pub enum Answer {
    /// Yes or no.
    Flag(bool),
    /// A list of paths, in the order in which they were found.
    Paths(Vec<String>),
    /// A program ran: whether it reported success, and what it wrote to its
    /// standard output.
    Output { succeeded: bool, stdout: Vec<u8> },
    /// The copy was made.
    Copied,
    /// The query could not be carried out; the system's message.
    Failed(String),
}

/// What an `Answer` stands for in contracts.
pub enum Reply {
    Flag(bool),
    Paths(Seq<Seq<char>>),
    Output { succeeded: bool, stdout: Seq<u8> },
    Copied,
    Failed(Seq<char>),
}

impl View for Answer {
    type V = Reply;

    open spec fn view(&self) -> Reply {
        match self {
            Answer::Flag(b) => Reply::Flag(*b),
            Answer::Paths(paths) => Reply::Paths(paths.deep_view()),
            Answer::Output { succeeded, stdout } => Reply::Output {
                succeeded: *succeeded,
                stdout: stdout@,
            },
            Answer::Copied => Reply::Copied,
            Answer::Failed(message) => Reply::Failed(message@),
        }
    }
}

/// A state of the surroundings: the reply that each question gets in it.
pub struct Environment {
    pub replies: spec_fn(Question) -> Reply,
}

impl Environment {
    /// The reply to `question` in this environment.
    pub open spec fn reply(self, question: Question) -> Reply {
        (self.replies)(question)
    }

    /// The environment answers `question` with yes.
    pub open spec fn affirms(self, question: Question) -> bool {
        self.reply(question) == Reply::Flag(true)
    }
}

impl Answer {
    /// Whether this answer is a yes. Every other answer counts as no.
    pub fn is_yes(&self) -> (r: bool)
        ensures
            r == (self@ == Reply::Flag(true)),
    {
        match self {
            Answer::Flag(b) => *b,
            _ => false,
        }
    }
}

} // verus!
