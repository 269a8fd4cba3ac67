//! Error taxonomy: failures of catalog construction and of decoding.

use vstd::prelude::*;

verus! {

/// Which of the two header integers a setup failure is about.
#[derive(Clone, Copy, PartialEq, Eq, Structural, Debug)]
pub enum HeaderField {
    NumSignals,
    NumCycles,
}

/// The mathematical model of a `SetupError`.
pub ghost enum SetupErrorModel {
    MissingToken { which: HeaderField, source: Seq<char> },
    BadToken { which: HeaderField, token: Seq<char>, source: Seq<char> },
    CountTooLarge { count: u64 },
}

/// A failure of the setup phase: the header did not yield the two counts, or
/// a count cannot be represented by the platform's collection size.
#[derive(Clone, Debug)]
pub enum SetupError {
    /// The header holds no token where `which` was expected; `source`
    /// identifies where the header came from.
    MissingToken { which: HeaderField, source: String },
    /// The token read for `which` is not a valid non-negative decimal `u64`.
    BadToken { which: HeaderField, token: String, source: String },
    /// The declared signal count does not fit the platform's count type.
    CountTooLarge { count: u64 },
}

impl View for SetupError {
    type V = SetupErrorModel;

    open spec fn view(&self) -> SetupErrorModel {
        match *self {
            SetupError::MissingToken { which, source } => SetupErrorModel::MissingToken {
                which,
                source: source@,
            },
            SetupError::BadToken { which, token, source } => SetupErrorModel::BadToken {
                which,
                token: token@,
                source: source@,
            },
            SetupError::CountTooLarge { count } => SetupErrorModel::CountTooLarge { count },
        }
    }
}

impl SetupError {
    /// The offending token, where the failure names one.
    pub fn token(&self) -> (r: Option<&String>)
        ensures
            match *self {
                SetupError::BadToken { which, token, source } => r matches Some(t) && t@
                    == token@,
                _ => r is None,
            },
    {
        match self {
            SetupError::BadToken { which: _, token, source: _ } => Some(token),
            _ => None,
        }
    }
}

/// A failure of one decode call: a requested name is absent from the catalog.
/// Its model is the unresolved name.
#[derive(Clone, Debug)]
pub enum DecodeError {
    SignalNotFound(String),
}

impl View for DecodeError {
    type V = Seq<char>;

    open spec fn view(&self) -> Seq<char> {
        match *self {
            DecodeError::SignalNotFound(n) => n@,
        }
    }
}

impl DecodeError {
    /// The name of the signal that could not be resolved.
    pub fn signal_name(&self) -> (r: &String)
        ensures
            r@ == self@,
    {
        match self {
            DecodeError::SignalNotFound(n) => n,
        }
    }
}

} // verus!
