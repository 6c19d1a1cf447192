//! The encoder capability: rendering a log record to bytes.

use vstd::prelude::*;
use vstd::string::StrSliceExecFns;
use vstd::string::StringExecFns;
use vstd::utf8::encode_utf8;

use crate::record::level_chars;
use crate::record::LogRecord;

verus! {

/// A failure to render a record.
#[derive(Debug)]
pub struct EncodeError {
    pub message: String,
}

impl EncodeError {
    /// A description of the failure.
    pub fn description(&self) -> (r: &String)
        ensures
            r == &self.message,
    {
        &self.message
    }
}

/// The capability to render a log record into a byte buffer.
///
/// `spec_can_encode` says on which records rendering succeeds, and
/// `spec_rendered` what bytes a successful rendering produces; `encode` is
/// held to both.
pub trait Encode: Sized {
    spec fn spec_can_encode(&self, record: LogRecord) -> bool;

    spec fn spec_rendered(&self, record: LogRecord) -> Seq<u8>;

    fn encode(&self, record: &LogRecord) -> (r: Result<Vec<u8>, EncodeError>)
        ensures
            r is Ok <==> self.spec_can_encode(*record),
            r is Ok ==> r->Ok_0@ == self.spec_rendered(*record),
    ;
}

/// The text the pattern encoder produces: the level name, a space, the
/// message, and a terminating newline.
pub open spec fn pattern_chars(record: LogRecord) -> Seq<char> {
    level_chars(record.level) + " "@ + record.message@ + "\n"@
}

/// The default encoder: renders a record as `LEVEL message` followed by a
/// newline, in UTF-8.
#[derive(Clone, Copy, PartialEq, Eq, Structural, Debug)]
pub struct PatternEncoder {}

impl PatternEncoder {
    /// Builds the default pattern encoder.
    pub fn new() -> (r: PatternEncoder)
        ensures
            r == (PatternEncoder {}),
    {
        PatternEncoder {}
    }
}

impl Default for PatternEncoder {
    fn default() -> (r: Self)
        ensures
            r == (PatternEncoder {}),
    {
        PatternEncoder {}
    }
}

impl Encode for PatternEncoder {
    /// The pattern encoder renders every record.
    open spec fn spec_can_encode(&self, record: LogRecord) -> bool {
        true
    }

    open spec fn spec_rendered(&self, record: LogRecord) -> Seq<u8> {
        encode_utf8(pattern_chars(record))
    }

    fn encode(&self, record: &LogRecord) -> (r: Result<Vec<u8>, EncodeError>)
        ensures
            r is Ok <==> self.spec_can_encode(*record),
            r is Ok ==> r->Ok_0@ == self.spec_rendered(*record),
    {
        let mut text = String::new();
        text.append(record.level.as_str());
        text.append(" ");
        text.append(record.message.as_str());
        text.append("\n");
        proof {
            assert(text@ =~= pattern_chars(*record));
        }
        Ok(text.as_str().as_bytes_vec())
    }
}

} // verus!
