//! Errors of the rendering pipeline, each tagged with the stage it comes from.
use vstd::prelude::*;
use vstd::string::*;
use crate::text::texts;

verus! {

/// Why the privilege gate turned a request down.
#[derive(Debug, Clone, Copy, PartialEq, Eq, Structural)]
pub enum Denial {
    /// The full-screen backend was asked for without experimental privilege.
    FullScreenBackend,
    /// Value overrides were given without experimental privilege.
    ValueOverrides,
    /// Shell commands need a confirmation that the headless backend cannot ask for.
    HeadlessConfirmation,
}

/// What was wrong with a command-line argument.
#[derive(Debug, Clone, Copy, PartialEq, Eq, Structural)]
pub enum ArgumentFault {
    UnknownFormat,
    UnknownShell,
    UnknownBackend,
    MalformedOverride,
}

/// The stage of the pipeline that produced an error.
#[derive(Debug, Clone, Copy, PartialEq, Eq, Structural)]
pub enum Stage {
    Arguments,
    PrivilegeGate,
    Selection,
    Resolution,
}

/// Why a call ended without its result.
#[derive(Debug, Clone, PartialEq, Eq)]
pub enum Error {
    Argument(ArgumentFault),
    UnknownCommand,
    PrivilegeDenied(Denial),
    NoTemplateSelected,
    ConfigurationEmpty,
    MissingRequiredVariables(Vec<String>),
    RenderCancelled,
}

/// The mathematical value of an [`Error`].
pub ghost enum ErrorModel {
    Argument(ArgumentFault),
    UnknownCommand,
    PrivilegeDenied(Denial),
    NoTemplateSelected,
    ConfigurationEmpty,
    MissingRequiredVariables(Seq<Seq<char>>),
    RenderCancelled,
}

impl View for Error {
    type V = ErrorModel;

    open spec fn view(&self) -> ErrorModel {
        match self {
            Error::Argument(f) => ErrorModel::Argument(*f),
            Error::UnknownCommand => ErrorModel::UnknownCommand,
            Error::PrivilegeDenied(d) => ErrorModel::PrivilegeDenied(*d),
            Error::NoTemplateSelected => ErrorModel::NoTemplateSelected,
            Error::ConfigurationEmpty => ErrorModel::ConfigurationEmpty,
            Error::MissingRequiredVariables(names) => ErrorModel::MissingRequiredVariables(
                texts(names@),
            ),
            Error::RenderCancelled => ErrorModel::RenderCancelled,
        }
    }
}

impl ErrorModel {
    /// The stage that an error belongs to.
    pub open spec fn stage(self) -> Stage {
        match self {
            ErrorModel::Argument(_) => Stage::Arguments,
            ErrorModel::UnknownCommand => Stage::Arguments,
            ErrorModel::PrivilegeDenied(_) => Stage::PrivilegeGate,
            ErrorModel::NoTemplateSelected => Stage::Selection,
            ErrorModel::ConfigurationEmpty => Stage::Selection,
            ErrorModel::MissingRequiredVariables(_) => Stage::Resolution,
            ErrorModel::RenderCancelled => Stage::Resolution,
        }
    }
}

/// The names with `, ` between them.
pub open spec fn joined(names: Seq<Seq<char>>) -> Seq<char>
    decreases names.len(),
{
    if names.len() == 0 {
        Seq::empty()
    } else if names.len() == 1 {
        names[0]
    } else {
        joined(names.drop_last()) + ", "@ + names.last()
    }
}

impl Denial {
    /// The reason in words.
    pub open spec fn reason(self) -> Seq<char> {
        match self {
            Denial::FullScreenBackend => "can not use backend+ui without experimental features being activated"@,
            Denial::ValueOverrides => "value overrides is an experimental feature and needs the respective flag to be active"@,
            Denial::HeadlessConfirmation => "the headless backend can not ask whether a shell command may run"@,
        }
    }
}

impl ArgumentFault {
    /// The fault in words.
    pub open spec fn reason(self) -> Seq<char> {
        match self {
            ArgumentFault::UnknownFormat => "unknown format"@,
            ArgumentFault::UnknownShell => "unknown shell"@,
            ArgumentFault::UnknownBackend => "no backend specified"@,
            ArgumentFault::MalformedOverride => "a value override has the form key=value"@,
        }
    }
}

impl ErrorModel {
    /// The error in words, for the user.
    pub open spec fn message(self) -> Seq<char> {
        match self {
            ErrorModel::Argument(f) => f.reason(),
            ErrorModel::UnknownCommand => "unknown command"@,
            ErrorModel::PrivilegeDenied(d) => d.reason(),
            ErrorModel::NoTemplateSelected => "no template selected"@,
            ErrorModel::ConfigurationEmpty => "the configuration holds no template"@,
            ErrorModel::MissingRequiredVariables(names) => "missing required variables: "@
                + joined(names),
            ErrorModel::RenderCancelled => "cancelled"@,
        }
    }
}

/// Joins names with `, ` between them.
pub fn join_names(names: &Vec<String>) -> (r: String)
    ensures
        r@ == joined(texts(names@)),
{
    let ghost all = texts(names@);
    let mut out: String = String::new();
    let mut i: usize = 0;
    assert(all.take(0) =~= Seq::empty());
    while i < names.len()
        invariant
            i <= names.len(),
            all == texts(names@),
            out@ == joined(all.take(i as int)),
        decreases names.len() - i,
    {
        let ghost before = out@;
        assert(all.take(i + 1).drop_last() =~= all.take(i as int));
        assert(all.take(i + 1).last() == names@[i as int]@);
        if i > 0 {
            out.append(", ");
        }
        out.append(names[i].as_str());
        proof {
            if i == 0 {
                assert(out@ =~= names@[0]@);
                assert(all.take(1)[0] == names@[0]@);
            }
        }
        i = i + 1;
    }
    assert(all.take(i as int) =~= all);
    out
}

impl Error {
    /// The error in words, for the user.
    pub fn message(&self) -> (r: String)
        ensures
            r@ == self@.message(),
    {
        match self {
            Error::Argument(ArgumentFault::UnknownFormat) => "unknown format".to_owned(),
            Error::Argument(ArgumentFault::UnknownShell) => "unknown shell".to_owned(),
            Error::Argument(ArgumentFault::UnknownBackend) => "no backend specified".to_owned(),
            Error::Argument(ArgumentFault::MalformedOverride) => "a value override has the form key=value".to_owned(),
            Error::UnknownCommand => "unknown command".to_owned(),
            Error::PrivilegeDenied(Denial::FullScreenBackend) => "can not use backend+ui without experimental features being activated".to_owned(),
            Error::PrivilegeDenied(Denial::ValueOverrides) => "value overrides is an experimental feature and needs the respective flag to be active".to_owned(),
            Error::PrivilegeDenied(Denial::HeadlessConfirmation) => "the headless backend can not ask whether a shell command may run".to_owned(),
            Error::NoTemplateSelected => "no template selected".to_owned(),
            Error::ConfigurationEmpty => "the configuration holds no template".to_owned(),
            Error::MissingRequiredVariables(names) => {
                let head: String = "missing required variables: ".to_owned();
                let tail: String = join_names(names);
                head.concat(tail.as_str())
            },
            Error::RenderCancelled => "cancelled".to_owned(),
        }
    }

    /// The stage of the pipeline that failed.
    pub fn stage(&self) -> (r: Stage)
        ensures
            r == self@.stage(),
    {
        match self {
            Error::Argument(_) => Stage::Arguments,
            Error::UnknownCommand => Stage::Arguments,
            Error::PrivilegeDenied(_) => Stage::PrivilegeGate,
            Error::NoTemplateSelected => Stage::Selection,
            Error::ConfigurationEmpty => Stage::Selection,
            Error::MissingRequiredVariables(_) => Stage::Resolution,
            Error::RenderCancelled => Stage::Resolution,
        }
    }

    /// Whether the user ended the render; callers need not report that as a fault.
    pub fn is_cancellation(&self) -> (r: bool)
        ensures
            r == (self@ == ErrorModel::RenderCancelled),
    {
        match self {
            Error::RenderCancelled => true,
            _ => false,
        }
    }
}

} // verus!
