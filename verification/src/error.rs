use vstd::prelude::*;

verus! {

/// The ways a demo decode can fail.
///
/// Every failure of the decoder is one of these kinds; none of the
/// library's own functions panics on malformed input.
#[derive(Clone, Copy, Debug, PartialEq, Eq, Structural)]
pub enum DemoError {
    /// The buffer ended in the middle of a primitive read.
    UnexpectedEnd,
    /// A variable-length integer would not fit in a 32-bit result.
    VarintOverflow,
    /// The stream signature is missing, or the top-level shape is not a demo.
    InvalidFormat,
    /// A length-delimited frame declared a length past the end of the buffer.
    Corrupted,
    /// An event record carried data that the validation rules reject.
    InvalidEvent,
    /// The stream names a version this decoder does not read.
    UnsupportedVersion,
    /// The named demo file does not exist.
    FileNotFound,
    /// A zero-length buffer was supplied.
    EmptyInput,
}

impl DemoError {
    /// The label that `describe` returns for each error kind.
    pub open spec fn spec_describe(&self) -> Seq<char> {
        match self {
            DemoError::UnexpectedEnd => "unexpected end of data"@,
            DemoError::VarintOverflow => "varint too large"@,
            DemoError::InvalidFormat => "invalid demo format"@,
            DemoError::Corrupted => "corrupted demo data"@,
            DemoError::InvalidEvent => "invalid event data"@,
            DemoError::UnsupportedVersion => "unsupported demo version"@,
            DemoError::FileNotFound => "demo file not found"@,
            DemoError::EmptyInput => "demo data is empty"@,
        }
    }

    /// A short human-readable label for the error kind.
    pub fn describe(&self) -> (r: String)
        ensures
            r@ == self.spec_describe(),
    {
        match self {
            DemoError::UnexpectedEnd => "unexpected end of data".to_owned(),
            DemoError::VarintOverflow => "varint too large".to_owned(),
            DemoError::InvalidFormat => "invalid demo format".to_owned(),
            DemoError::Corrupted => "corrupted demo data".to_owned(),
            DemoError::InvalidEvent => "invalid event data".to_owned(),
            DemoError::UnsupportedVersion => "unsupported demo version".to_owned(),
            DemoError::FileNotFound => "demo file not found".to_owned(),
            DemoError::EmptyInput => "demo data is empty".to_owned(),
        }
    }
}

} // verus!
