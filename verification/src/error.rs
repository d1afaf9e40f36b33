//! The failures of a magic number check, and the text that reports them.

use vstd::prelude::*;

use crate::render::render_bytes;
use crate::render::rendered;
use crate::stream::StreamError;

verus! {

/// The description that every mismatch goes by.
pub open spec fn mismatch_description() -> Seq<char> {
    "A Magic Number check Failed"@
}

/// What a mismatch is made of: the bytes that were expected and the bytes
/// that were read in their place.
pub struct Mismatch {
    pub expected: Seq<u8>,
    pub read: Seq<u8>,
}

impl Mismatch {
    /// A mismatch pairs two sequences of one length that are not equal.
    pub open spec fn well_formed(self) -> bool {
        &&& self.expected.len() == self.read.len()
        &&& self.expected != self.read
    }

    /// The diagnostic for the mismatch. Each sequence is rendered on its own,
    /// as text or as a hexadecimal listing, whatever the other one is.
    pub open spec fn message(self) -> Seq<char> {
        "Incorrect Magic Number: Expected '"@ + rendered(self.expected) + "', Read '"@ + rendered(
            self.read,
        ) + "'"@
    }
}

/// The detail of a failed comparison: the expected magic number and the bytes
/// that the stream held instead. A value exists only for sequences of equal
/// length that differ, and nothing changes it once it is made.
#[derive(Debug)]
pub struct WrongMagicNumber {
    expected: Vec<u8>,
    read: Vec<u8>,
}

impl View for WrongMagicNumber {
    type V = Mismatch;

    closed spec fn view(&self) -> Mismatch {
        Mismatch { expected: self.expected@, read: self.read@ }
    }
}

impl WrongMagicNumber {
    #[verifier::type_invariant]
    spec fn is_mismatch(&self) -> bool {
        self@.well_formed()
    }

    /// Pairs the expected bytes with the bytes read. Both are moved into the
    /// value as they are.
    pub(crate) fn new(expected: Vec<u8>, read: Vec<u8>) -> (detail: WrongMagicNumber)
        requires
            expected@.len() == read@.len(),
            expected@ != read@,
        ensures
            detail@ == (Mismatch { expected: expected@, read: read@ }),
    {
        WrongMagicNumber { expected, read }
    }

    /// The magic number that was expected. It has the length of what was
    /// read, and differs from it.
    pub fn expected(&self) -> (bytes: &[u8])
        ensures
            bytes@ == self@.expected,
            self@.well_formed(),
    {
        proof {
            use_type_invariant(self);
        }
        self.expected.as_slice()
    }

    /// The bytes that were read from the stream. They are as many as were
    /// expected, and differ from them.
    pub fn read(&self) -> (bytes: &[u8])
        ensures
            bytes@ == self@.read,
            self@.well_formed(),
    {
        proof {
            use_type_invariant(self);
        }
        self.read.as_slice()
    }

    /// A short description of this kind of failure.
    pub fn description(&self) -> (text: &'static str)
        ensures
            text@ == mismatch_description(),
    {
        "A Magic Number check Failed"
    }

    /// The diagnostic for this mismatch: both sequences, each as text where
    /// it is valid UTF-8 and as a hexadecimal listing where it is not.
    pub fn message(&self) -> (text: String)
        ensures
            text@ == self@.message(),
    {
        let mut text: String = String::from_str("Incorrect Magic Number: Expected '");
        let expected: String = render_bytes(self.expected.as_slice());
        text.append(expected.as_str());
        text.append("', Read '");
        let read: String = render_bytes(self.read.as_slice());
        text.append(read.as_str());
        text.append("'");
        text
    }
}

/// Why a magic number check failed.
#[derive(Debug)]
pub enum MagicNumberCheckError {
    /// The stream could not deliver as many bytes as the magic number has.
    IoError(StreamError),
    /// The bytes were read, and they are not the magic number.
    MagicNumber(WrongMagicNumber),
}

/// What a failed check is made of: the stream's own failure, or the two
/// sequences of a mismatch.
pub enum CheckFailure {
    Io(StreamError),
    Mismatch(Mismatch),
}

impl CheckFailure {
    /// The short description of the failure: that of the failure inside.
    pub open spec fn description(self) -> Seq<char> {
        match self {
            CheckFailure::Io(error) => error.text(),
            CheckFailure::Mismatch(_) => mismatch_description(),
        }
    }

    /// The message of the failure: an I/O failure reports itself in the
    /// stream's own words, a mismatch with its diagnostic.
    pub open spec fn message(self) -> Seq<char> {
        match self {
            CheckFailure::Io(error) => error.text(),
            CheckFailure::Mismatch(mismatch) => mismatch.message(),
        }
    }
}

impl View for MagicNumberCheckError {
    type V = CheckFailure;

    open spec fn view(&self) -> CheckFailure {
        match self {
            MagicNumberCheckError::IoError(error) => CheckFailure::Io(*error),
            MagicNumberCheckError::MagicNumber(detail) => CheckFailure::Mismatch(detail@),
        }
    }
}

impl MagicNumberCheckError {
    /// A short description of the failure.
    pub fn description(&self) -> (text: &str)
        ensures
            text@ == self@.description(),
    {
        match self {
            MagicNumberCheckError::IoError(error) => error.description(),
            MagicNumberCheckError::MagicNumber(detail) => detail.description(),
        }
    }

    /// The message that reports the failure.
    pub fn message(&self) -> (text: String)
        ensures
            text@ == self@.message(),
    {
        match self {
            MagicNumberCheckError::IoError(error) => error.message(),
            MagicNumberCheckError::MagicNumber(detail) => detail.message(),
        }
    }
}

impl From<StreamError> for MagicNumberCheckError {
    fn from(error: StreamError) -> (failure: MagicNumberCheckError) {
        MagicNumberCheckError::IoError(error)
    }
}

impl vstd::std_specs::convert::FromSpecImpl<StreamError> for MagicNumberCheckError {
    open spec fn obeys_from_spec() -> bool {
        true
    }

    open spec fn from_spec(error: StreamError) -> MagicNumberCheckError {
        MagicNumberCheckError::IoError(error)
    }
}

impl From<WrongMagicNumber> for MagicNumberCheckError {
    fn from(detail: WrongMagicNumber) -> (failure: MagicNumberCheckError) {
        MagicNumberCheckError::MagicNumber(detail)
    }
}

impl vstd::std_specs::convert::FromSpecImpl<WrongMagicNumber> for MagicNumberCheckError {
    open spec fn obeys_from_spec() -> bool {
        true
    }

    open spec fn from_spec(detail: WrongMagicNumber) -> MagicNumberCheckError {
        MagicNumberCheckError::MagicNumber(detail)
    }
}

} // verus!
