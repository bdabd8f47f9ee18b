//! Errors of the framework as a whole.

use vstd::prelude::*;

verus! {

/// Framework-level errors. Adapters, strategies and risk checks put their own
/// errors into one of these.
#[derive(Debug)]
pub enum Error {
    /// The exchange rejected a request, or could not be reached.
    Exchange(String),
    /// A strategy failed on a market event.
    Brain(String),
    /// A risk check blocked an action.
    Risk(String),
    /// The configuration is invalid or incomplete.
    Config(String),
    /// Something could not be serialized or deserialized.
    Serde(String),
    /// A state store failed.
    Storage(String),
    /// Anything else.
    Internal(String),
}

impl Error {
    /// What the error is about.
    pub open spec fn message(self) -> Seq<char> {
        match self {
            Error::Exchange(m) => m@,
            Error::Brain(m) => m@,
            Error::Risk(m) => m@,
            Error::Config(m) => m@,
            Error::Serde(m) => m@,
            Error::Storage(m) => m@,
            Error::Internal(m) => m@,
        }
    }

    /// The words that introduce an error of this kind.
    pub open spec fn prefix(self) -> Seq<char> {
        match self {
            Error::Exchange(_) => "exchange error: "@,
            Error::Brain(_) => "brain error: "@,
            Error::Risk(_) => "risk check blocked: "@,
            Error::Config(_) => "configuration error: "@,
            Error::Serde(_) => "serde error: "@,
            Error::Storage(_) => "storage error: "@,
            Error::Internal(_) => "internal error: "@,
        }
    }

    /// An exchange error.
    pub fn exchange<S: Into<String>>(msg: S) -> (r: Self)
        ensures
            r is Exchange,
            call_ensures(<S as Into<String>>::into, (msg,), r->Exchange_0),
    {
        Error::Exchange(msg.into())
    }

    /// A strategy error.
    pub fn brain<S: Into<String>>(msg: S) -> (r: Self)
        ensures
            r is Brain,
            call_ensures(<S as Into<String>>::into, (msg,), r->Brain_0),
    {
        Error::Brain(msg.into())
    }

    /// A blocked action.
    pub fn risk<S: Into<String>>(msg: S) -> (r: Self)
        ensures
            r is Risk,
            call_ensures(<S as Into<String>>::into, (msg,), r->Risk_0),
    {
        Error::Risk(msg.into())
    }

    /// A configuration error.
    pub fn config<S: Into<String>>(msg: S) -> (r: Self)
        ensures
            r is Config,
            call_ensures(<S as Into<String>>::into, (msg,), r->Config_0),
    {
        Error::Config(msg.into())
    }

    /// An internal error.
    pub fn internal<S: Into<String>>(msg: S) -> (r: Self)
        ensures
            r is Internal,
            call_ensures(<S as Into<String>>::into, (msg,), r->Internal_0),
    {
        Error::Internal(msg.into())
    }

    /// The error as text for people to read.
    pub fn render(&self) -> (r: String)
        ensures
            r@ == self.prefix() + self.message(),
    {
        let (prefix, message) = match self {
            Error::Exchange(m) => ("exchange error: ", m),
            Error::Brain(m) => ("brain error: ", m),
            Error::Risk(m) => ("risk check blocked: ", m),
            Error::Config(m) => ("configuration error: ", m),
            Error::Serde(m) => ("serde error: ", m),
            Error::Storage(m) => ("storage error: ", m),
            Error::Internal(m) => ("internal error: ", m),
        };
        let mut text = prefix.to_string();
        text.append(message.as_str());
        text
    }
}

} // verus!
