use vstd::prelude::*;

verus! {

/// Why the store could not carry out a write.
#[derive(Clone, Copy, Debug, PartialEq, Eq, Structural)]
pub enum StoreFault {
    /// Every identifier the sequence can give has been given.
    SequenceExhausted,
    /// The message could not be written to durable storage.
    WriteFailed,
}

/// Failure of a store operation.
#[derive(Clone, Copy, Debug, PartialEq, Eq, Structural)]
pub enum Error {
    /// The store itself failed; the call changed nothing.
    Db(StoreFault),
    /// Data handed to the store is not a valid log.
    InvalidData,
}

/// What a store operation returns.
pub type Result<T, E = Error> = std::result::Result<T, E>;

impl StoreFault {
    /// The text shown for this fault.
    pub open spec fn spec_text(self) -> Seq<char> {
        match self {
            StoreFault::SequenceExhausted => "message sequence exhausted"@,
            StoreFault::WriteFailed => "message could not be written"@,
        }
    }

    /// The text shown for this fault.
    pub fn message(&self) -> (text: String)
        ensures
            text@ == self.spec_text(),
    {
        match self {
            StoreFault::SequenceExhausted => String::from_str("message sequence exhausted"),
            StoreFault::WriteFailed => String::from_str("message could not be written"),
        }
    }
}

impl Error {
    /// The text shown for this error: that of the fault for `Db`, and
    /// `invalid data` for `InvalidData`.
    pub open spec fn spec_text(self) -> Seq<char> {
        match self {
            Error::Db(fault) => fault.spec_text(),
            Error::InvalidData => "invalid data"@,
        }
    }

    /// The text shown for this error.
    pub fn message(&self) -> (text: String)
        ensures
            text@ == self.spec_text(),
    {
        match self {
            Error::Db(fault) => fault.message(),
            Error::InvalidData => String::from_str("invalid data"),
        }
    }
}

} // verus!
