//! Error taxonomy of the result-resolution language and the deterministic
//! classifier that decides which failures may become consensus-visible.

use vstd::prelude::*;

verus! {

/// Errors raised while retrieving or resolving a data request's value.
///
/// A closed, exhaustively matched sum type. Fields named `message` or
/// `description` carry free-form diagnostic text; every other field is a
/// fully typed payload. Values that the resolution language leaves opaque
/// to this core (encoded call arguments, array snapshots) are carried as
/// their serialized bytes, passed through unchanged.
#[derive(Debug, PartialEq)]
pub enum RadError {
    /// An unknown error. Something went really bad!
    Unknown,
    /// Failed to decode a type from other
    Decode { from: String, to: String },
    /// Failed to encode a type into other
    Encode { from: String, to: String },
    /// Failed to calculate the hash of a value or structure
    Hash,
    /// Failed to parse an object from a JSON buffer
    JsonParse { description: String },
    /// The given index is not present in an array
    ArrayIndexNotFound { index: i32 },
    /// The given key is not present in a map
    MapKeyNotFound { key: String },
    /// The given subscript of an array filter did not return a boolean
    ArrayFilterWrongSubscript { value: String },
    /// Failed to parse a value from a buffer
    BufferIsNotValue { description: String },
    /// No operator found in compound call
    NoOperatorInCompoundCall,
    /// The given operator code is not a valid integer
    NotIntegerOperator,
    /// The given operator code is not a valid natural number
    NotNaturalOperator { code: i128 },
    /// The parsed value was expected to be a script but is not even an array
    ScriptNotArray { input_type: String },
    /// The given operator code is unknown
    UnknownOperator { code: i128 },
    /// The given hash function is not implemented
    UnsupportedHashFunction { function: String },
    /// The given operator is not implemented for the input type
    UnsupportedOperator { input_type: String, operator: String, args: Option<Vec<u8>> },
    /// The given reducer is not implemented for the type of the input array
    UnsupportedReducer { inner_type: String, reducer: String },
    /// The given filter is not implemented for the type of the input array
    UnsupportedFilter { inner_type: String, filter: String },
    /// The sort operator is not implemented for non-string arrays
    UnsupportedSortOp { inner_type: String },
    /// The operator is not implemented for non-homogeneous arrays
    UnsupportedOpNonHomogeneous { operator: String },
    /// There was a tie after applying the mode reducer
    ModeTie { values: Vec<u8> },
    /// Tried to apply the mode reducer on an empty array
    ModeEmpty,
    /// The given arguments are not valid for the given operator
    WrongArguments { input_type: String, operator: String, args: Vec<u8> },
    /// The HTTP response was an error code
    HttpStatus { status_code: u16 },
    /// Failed to execute an HTTP request
    HttpOther { message: String },
    /// Failed to convert string to float
    ParseFloat { message: String },
    /// Failed to convert string to int
    ParseInt { message: String },
    /// Failed to convert string to bool
    ParseBool { message: String },
    /// Overflow error
    Overflow,
    /// Mismatching types
    MismatchingTypes { method: String, expected: String, found: String },
    /// Arrays to be reduced have different sizes
    DifferentSizeArrays { method: String, first: usize, second: usize },
    /// Subscripts should be an array
    BadSubscriptFormat { value: Vec<u8> },
    /// Error while executing a subscript
    Subscript { input_type: String, operator: String, inner: Box<RadError> },
}

/// The consensus-eligible error kinds: those with an explicit classification
/// rule and a fully typed, bounded, deterministic payload.
#[derive(Clone, Copy, PartialEq, Eq, Structural, Debug)]
pub enum ConsensusErrorKind {
    /// An HTTP response with an error status code.
    HttpError,
}

/// Outcome of the error classifier.
///
/// A consensus-visible error carries a small deterministic payload built
/// solely from typed fields of the original error; a diagnostic error wraps
/// the original value for logging only and must never be forwarded into any
/// consensus-relevant channel.
#[derive(Debug, PartialEq)]
pub enum ClassifiedError {
    /// Eligible for consensus-relevant output.
    ConsensusVisible { kind: ConsensusErrorKind, payload: Vec<u8>, original: RadError },
    /// Diagnostic only; the default for every kind without an explicit rule.
    Diagnostic { original: RadError },
}

/// Whether the classifier has an explicit consensus rule for this error.
pub open spec fn consensus_eligible(error: RadError) -> bool {
    error is HttpStatus
}

/// The single fixed-width payload byte of a consensus-eligible error: the
/// HTTP status code truncated to its low byte.
pub open spec fn consensus_payload_byte(error: RadError) -> u8
    recommends
        consensus_eligible(error),
{
    (error->status_code % 256) as u8
}

/// What `classify` returns for a given error.
pub open spec fn is_classification_of(c: ClassifiedError, error: RadError) -> bool {
    if consensus_eligible(error) {
        &&& c matches ClassifiedError::ConsensusVisible { kind, payload, original }
        &&& kind == ConsensusErrorKind::HttpError
        &&& payload@ == seq![consensus_payload_byte(error)]
        &&& original == error
    } else {
        c matches ClassifiedError::Diagnostic { original } && original == error
    }
}

impl RadError {
    /// Classify one raw error: an error kind with an explicit rule and a
    /// fully typed payload becomes consensus-visible, everything else is
    /// wrapped as a diagnostic. Total and side-effect free; the payload is
    /// built from typed fields alone, never from free-form message text.
    pub fn classify(self) -> (c: ClassifiedError)
        ensures
            is_classification_of(c, self),
    {
        match self {
            RadError::HttpStatus { status_code } => {
                let byte: u8 = (status_code % 256) as u8;
                let mut payload: Vec<u8> = Vec::new();
                payload.push(byte);
                proof {
                    assert(payload@ == seq![byte]);
                }
                ClassifiedError::ConsensusVisible {
                    kind: ConsensusErrorKind::HttpError,
                    payload,
                    original: RadError::HttpStatus { status_code },
                }
            },
            other => ClassifiedError::Diagnostic { original: other },
        }
    }

    /// Intercept the error side of a resolution result, routing it through
    /// the classifier; a success passes through unchanged.
    pub fn intercept<RT>(input: Result<RT, RadError>) -> (r: Result<RT, ClassifiedError>)
        ensures
            input matches Ok(v) ==> r matches Ok(w) && w == v,
            input matches Err(e) ==> r matches Err(c) && is_classification_of(c, e),
    {
        match input {
            Ok(value) => Ok(value),
            Err(error) => Err(error.classify()),
        }
    }

    /// Build the error that stands for a failed HTTP exchange: a response
    /// that arrived with an error status keeps the typed code; a failure
    /// without a status keeps only its diagnostic message.
    pub fn from_http_failure(status_code: Option<u16>, message: String) -> (e: RadError)
        ensures
            status_code matches Some(code) ==> e == (RadError::HttpStatus { status_code: code }),
            status_code is None ==> (e matches RadError::HttpOther { message: m } && m@ == message@),
    {
        match status_code {
            Some(code) => RadError::HttpStatus { status_code: code },
            None => RadError::HttpOther { message },
        }
    }

    /// Build the error that stands for a failed string-to-float conversion.
    pub fn from_parse_float_failure(message: String) -> (e: RadError)
        ensures
            e matches RadError::ParseFloat { message: m } && m@ == message@,
    {
        RadError::ParseFloat { message }
    }

    /// Build the error that stands for a failed string-to-int conversion.
    pub fn from_parse_int_failure(message: String) -> (e: RadError)
        ensures
            e matches RadError::ParseInt { message: m } && m@ == message@,
    {
        RadError::ParseInt { message }
    }

    /// Build the error that stands for a failed string-to-bool conversion.
    pub fn from_parse_bool_failure(message: String) -> (e: RadError)
        ensures
            e matches RadError::ParseBool { message: m } && m@ == message@,
    {
        RadError::ParseBool { message }
    }

    /// Build the error that stands for a failed encoding of a resolved value
    /// into its binary interchange form.
    pub fn from_encode_failure() -> (e: RadError)
        ensures
            e matches RadError::Encode { from, to } && from@ == "RadonTypes"@ && to@ == "CBOR"@,
    {
        RadError::Encode { from: String::from_str("RadonTypes"), to: String::from_str("CBOR") }
    }

    /// Build the error that stands for a failed decoding of a value from its
    /// binary interchange form.
    pub fn from_decode_failure() -> (e: RadError)
        ensures
            e matches RadError::Decode { from, to } && from@ == "CBOR"@ && to@ == "RadonTypes"@,
    {
        RadError::Decode { from: String::from_str("CBOR"), to: String::from_str("RadonTypes") }
    }
}

/// Use `RadError::Unknown` as the default error.
impl Default for RadError {
    fn default() -> (e: Self)
        ensures
            e == RadError::Unknown,
    {
        RadError::Unknown
    }
}

/// Two errors of the same kind whose typed fields agree; fields that carry
/// free-form diagnostic text may differ.
pub open spec fn typed_twin(a: RadError, b: RadError) -> bool {
    match (a, b) {
        (RadError::JsonParse { .. }, RadError::JsonParse { .. }) => true,
        (RadError::BufferIsNotValue { .. }, RadError::BufferIsNotValue { .. }) => true,
        (RadError::HttpOther { .. }, RadError::HttpOther { .. }) => true,
        (RadError::ParseFloat { .. }, RadError::ParseFloat { .. }) => true,
        (RadError::ParseInt { .. }, RadError::ParseInt { .. }) => true,
        (RadError::ParseBool { .. }, RadError::ParseBool { .. }) => true,
        _ => a == b,
    }
}

/// Law: classification is deterministic and consults no free-form message
/// text. Two errors that agree on their kind and on every typed field reach
/// the same consensus decision and, when eligible, the same consensus
/// payload — whatever their diagnostic text says.
pub proof fn lemma_classification_deterministic(a: RadError, b: RadError)
    requires
        typed_twin(a, b),
    ensures
        consensus_eligible(a) == consensus_eligible(b),
        consensus_eligible(a) ==> consensus_payload_byte(a) == consensus_payload_byte(b),
{
}

} // verus!
