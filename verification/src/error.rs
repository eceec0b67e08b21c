//! The ways in which an operation of the engine can fail.

use vstd::prelude::*;
use vstd::string::*;

verus! {

/// The kind of a failure.
#[derive(Clone, Copy, Debug, PartialEq, Eq, Structural)]
pub enum ErrorKind {
    /// The host could not be reached, did not say how long the content is,
    /// or the transfer broke off.
    Network,
    /// A path is missing, or it could not be created, moved or removed.
    Filesystem,
    /// An archive is corrupt or of a kind that cannot be unpacked.
    Extract,
    /// What was downloaded does not have the digest that was asked for.
    Integrity,
    /// The settings file holds nothing that can be read.
    CorruptSettings,
    /// A mod or a profile was named that the settings do not hold.
    NotFound,
}

/// A failure: its kind, the mod or profile that the operation was about, and
/// the path or address at which it failed. Either text may be empty.
#[derive(Debug, PartialEq)]
pub struct EngineError {
    pub kind: ErrorKind,
    pub name: String,
    pub place: String,
}

/// An `EngineError` as a value of the contracts.
pub struct EngineErrorView {
    pub kind: ErrorKind,
    pub name: Seq<char>,
    pub place: Seq<char>,
}

impl View for EngineError {
    type V = EngineErrorView;

    open spec fn view(&self) -> EngineErrorView {
        EngineErrorView { kind: self.kind, name: self.name@, place: self.place@ }
    }
}

impl Clone for EngineError {
    fn clone(&self) -> (r: Self)
        ensures
            r@ == self@,
    {
        EngineError { kind: self.kind, name: self.name.clone(), place: self.place.clone() }
    }
}

/// The words that a message starts with, for each kind of failure.
pub open spec fn kind_label(kind: ErrorKind) -> Seq<char> {
    match kind {
        ErrorKind::Network => "network error"@,
        ErrorKind::Filesystem => "filesystem error"@,
        ErrorKind::Extract => "extract error"@,
        ErrorKind::Integrity => "integrity error"@,
        ErrorKind::CorruptSettings => "corrupt settings"@,
        ErrorKind::NotFound => "not found"@,
    }
}

/// The message of a failure: the words for its kind, then the name in
/// quotes, then the place in brackets.
pub open spec fn message_of(e: EngineErrorView) -> Seq<char> {
    kind_label(e.kind) + ": '"@ + e.name + "' ["@ + e.place + "]"@
}

impl EngineError {
    /// A failure of the given kind, about `name`, at `place`.
    pub fn new(kind: ErrorKind, name: &str, place: &str) -> (r: EngineError)
        ensures
            r@ == (EngineErrorView { kind, name: name@, place: place@ }),
    {
        EngineError { kind, name: name.to_owned(), place: place.to_owned() }
    }

    /// The words for the kind of this failure.
    pub fn label(&self) -> (r: &'static str)
        ensures
            r@ == kind_label(self.kind),
    {
        match self.kind {
            ErrorKind::Network => "network error",
            ErrorKind::Filesystem => "filesystem error",
            ErrorKind::Extract => "extract error",
            ErrorKind::Integrity => "integrity error",
            ErrorKind::CorruptSettings => "corrupt settings",
            ErrorKind::NotFound => "not found",
        }
    }

    /// A message for the user that names the mod or profile and the path or
    /// address at which the operation failed.
    pub fn message(&self) -> (r: String)
        ensures
            r@ == message_of(self@),
    {
        let mut m = self.label().to_owned();
        m.append(": '");
        m.append(self.name.as_str());
        m.append("' [");
        m.append(self.place.as_str());
        m.append("]");
        m
    }
}

} // verus!
