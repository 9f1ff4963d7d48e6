//! The failures that a lookup or a coercion can end in.
use vstd::prelude::*;
use vstd::string::*;

verus! {

/// Why an accessor could not hand out what it was asked for.
#[derive(Clone, Copy, Debug, PartialEq, Eq, Structural)]
pub enum ErrorKind {
    /// No call argument of that name, or one that is null where the target cannot be.
    ArgumentNotFound,
    /// No ticker under that label.
    TickerNotFound,
    /// No pipe source of that name.
    PipeSourceNotFound,
    /// The argument is there, but neither decoding stage gave the requested type.
    TypeCoercionFailed,
}

impl ErrorKind {
    /// The number by which a host tells the kinds apart.
    pub open spec fn spec_return_code(self) -> int {
        match self {
            ErrorKind::PipeSourceNotFound => 2,
            ErrorKind::TickerNotFound => 3,
            ErrorKind::ArgumentNotFound => 4,
            ErrorKind::TypeCoercionFailed => 5,
        }
    }

    /// What stands before the name in the message of this kind.
    pub open spec fn spec_prefix(self) -> Seq<char> {
        match self {
            ErrorKind::PipeSourceNotFound => "Source "@,
            ErrorKind::TickerNotFound => "Ticker "@,
            ErrorKind::ArgumentNotFound => "Call argument "@,
            ErrorKind::TypeCoercionFailed => "Failed to parse call argument "@,
        }
    }

    /// What stands behind the name in the message of this kind.
    pub open spec fn spec_suffix(self) -> Seq<char> {
        match self {
            ErrorKind::TypeCoercionFailed => ""@,
            _ => " not found"@,
        }
    }

    /// The number by which a host tells the kinds apart.
    pub fn return_code(self) -> (code: i32)
        ensures
            code == self.spec_return_code(),
    {
        match self {
            ErrorKind::PipeSourceNotFound => 2,
            ErrorKind::TickerNotFound => 3,
            ErrorKind::ArgumentNotFound => 4,
            ErrorKind::TypeCoercionFailed => 5,
        }
    }
}

/// A failed access: its kind, and the name that was asked for.
#[derive(Debug, PartialEq, Eq)]
pub struct AccessError {
    pub kind: ErrorKind,
    pub name: String,
}

impl AccessError {
    /// The message of this error as a sequence of characters.
    pub open spec fn spec_message(&self) -> Seq<char> {
        self.kind.spec_prefix() + self.name@ + self.kind.spec_suffix()
    }

    /// The error of `kind` about `name`.
    pub fn new(kind: ErrorKind, name: &str) -> (e: AccessError)
        ensures
            e.kind == kind,
            e.name@ == name@,
    {
        AccessError { kind, name: name.to_owned() }
    }

    /// The number that a host is given for this error: that of its kind.
    pub fn return_code(&self) -> (code: i32)
        ensures
            code == self.kind.spec_return_code(),
    {
        self.kind.return_code()
    }

    /// The text a host shows for this error.
    pub fn message(&self) -> (text: String)
        ensures
            text@ == self.spec_message(),
    {
        let mut text = match self.kind {
            ErrorKind::PipeSourceNotFound => String::from_str("Source "),
            ErrorKind::TickerNotFound => String::from_str("Ticker "),
            ErrorKind::ArgumentNotFound => String::from_str("Call argument "),
            ErrorKind::TypeCoercionFailed => String::from_str("Failed to parse call argument "),
        };
        text.append(self.name.as_str());
        match self.kind {
            ErrorKind::TypeCoercionFailed => {
                proof {
                    reveal_strlit("");
                }
                assert(text@ =~= self.spec_message());
            },
            _ => {
                text.append(" not found");
            },
        }
        text
    }
}

} // verus!
