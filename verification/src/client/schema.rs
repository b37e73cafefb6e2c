//! Queries, mutations and their arguments; pagination; conversion errors.

pub mod block;
pub mod message;
pub mod primitives;
pub mod tx;

use vstd::prelude::*;
use vstd::std_specs::convert::{FromSpecImpl, IntoSpec};
use crate::client::schema::primitives::{ContractId, U64};
use crate::outside::{hex_error_text, io_error_text};
use crate::text::{decimal, decimal_text};

verus! {

/// Whether the node is healthy.
#[derive(Debug)]
pub struct Health {
    pub health: bool,
}

/// Opens a debugging session; the answer names it.
#[derive(Debug)]
pub struct StartSession {
    pub start_session: cynic::Id,
}

/// Names a debugging session.
pub struct IdArg {
    pub id: cynic::Id,
}

/// Closes a debugging session.
#[derive(Debug)]
pub struct EndSession {
    pub end_session: bool,
}

/// Resets a debugging session.
#[derive(Debug)]
pub struct Reset {
    pub reset: bool,
}

/// An instruction to run in a session.
pub struct ExecuteArgs {
    pub id: cynic::Id,
    pub op: String,
}

/// Runs one instruction in a session.
#[derive(Debug)]
pub struct Execute {
    pub execute: bool,
}

/// Names a register of a session.
pub struct RegisterArgs {
    pub id: cynic::Id,
    pub register: U64,
}

/// The value of a register.
#[derive(Debug)]
pub struct Register {
    pub register: U64,
}

/// Names a range of a session's memory.
pub struct MemoryArgs {
    pub id: cynic::Id,
    pub start: U64,
    pub size: U64,
}

/// The contents of a range of memory.
#[derive(Debug)]
pub struct Memory {
    pub memory: String,
}

/// A breakpoint to set in a session.
#[derive(Debug)]
pub struct SetBreakpointArgs {
    pub id: cynic::Id,
    pub bp: Breakpoint,
}

/// Sets a breakpoint.
#[derive(Debug)]
pub struct SetBreakpoint {
    pub set_breakpoint: bool,
}

/// A place in a contract's code.
#[derive(Debug)]
pub struct Breakpoint {
    pub contract: ContractId,
    pub pc: U64,
}

/// Switches single stepping in a session.
#[derive(Debug)]
pub struct SetSingleSteppingArgs {
    pub id: cynic::Id,
    pub enable: bool,
}

/// Switches single stepping.
#[derive(Debug)]
pub struct SetSingleStepping {
    pub set_single_stepping: bool,
}

/// A transaction to start in a session.
#[derive(Debug)]
pub struct StartTxArgs {
    pub id: cynic::Id,
    pub tx: String,
}

/// Starts a transaction.
#[derive(Debug)]
pub struct StartTx {
    pub start_tx: RunResult,
}

/// Names the session whose transaction goes on.
#[derive(Debug)]
pub struct ContinueTxArgs {
    pub id: cynic::Id,
}

/// Lets a transaction go on after a breakpoint.
#[derive(Debug)]
pub struct ContinueTx {
    pub continue_tx: RunResult,
}

/// What a run gave: the breakpoint it stopped at, if any, and the receipts
/// it produced, each as JSON text.
#[derive(Debug)]
pub struct RunResult {
    pub breakpoint: Option<OutputBreakpoint>,
    pub json_receipts: Vec<String>,
}

/// The place at which a run stopped.
#[derive(Debug)]
pub struct OutputBreakpoint {
    pub contract: ContractId,
    pub pc: U64,
}

/// The arguments of a paginated query.
#[derive(Debug, Default)]
pub struct ConnectionArgs {
    /// Skip until this cursor (forward pagination).
    pub after: Option<String>,
    /// Skip until this cursor (backward pagination).
    pub before: Option<String>,
    /// Take the first n items in order (forward pagination).
    pub first: Option<i32>,
    /// Take the last n items in order (backward pagination). Not together
    /// with `first`.
    pub last: Option<i32>,
}

/// Where a page stands in the whole.
#[derive(Debug)]
pub struct PageInfo {
    pub end_cursor: Option<String>,
    pub has_next_page: bool,
    pub has_previous_page: bool,
    pub start_cursor: Option<String>,
}

/// The direction of a paginated query.
#[derive(Copy, Clone, Debug, PartialEq, Eq, Structural)]
pub enum PageDirection {
    Forward,
    Backward,
}

/// A request for one page.
#[derive(Clone, Debug)]
pub struct PaginationRequest<T> {
    /// The cursor that an earlier page gave, as the place to go on from.
    pub cursor: Option<T>,
    /// The number of results to take.
    pub results: usize,
    /// The direction of the query.
    pub direction: PageDirection,
}

/// One page of results.
pub struct PaginatedResult<T, C> {
    pub cursor: Option<C>,
    pub results: Vec<T>,
    pub has_next_page: bool,
    pub has_previous_page: bool,
}

/// The number of results of a request as the query carries it: the low
/// thirty-two bits, read as a signed number.
pub open spec fn page_size(results: usize) -> i32 {
    results as i32
}

/// The query arguments that ask for a page of `results` results in
/// `direction` from `cursor`: a forward request skips to after its cursor
/// and takes the first results; a backward request skips to before its
/// cursor and takes the last.
pub open spec fn connection_args_for(
    cursor: Option<String>,
    results: usize,
    direction: PageDirection,
) -> ConnectionArgs {
    match direction {
        PageDirection::Forward => ConnectionArgs {
            after: cursor,
            before: None,
            first: Some(page_size(results)),
            last: None,
        },
        PageDirection::Backward => ConnectionArgs {
            after: None,
            before: cursor,
            first: None,
            last: Some(page_size(results)),
        },
    }
}

/// The query arguments that ask for the page a request describes.
pub open spec fn connection_args_of<T: Into<String>>(req: PaginationRequest<T>) -> ConnectionArgs {
    let cursor = match req.cursor {
        Some(c) => Some(c.into_spec()),
        None => None,
    };
    connection_args_for(cursor, req.results, req.direction)
}

/// Gives the query arguments that ask for a page of `results` results in
/// `direction` from `cursor`.
pub fn connection_args(cursor: Option<String>, results: usize, direction: PageDirection) -> (args:
    ConnectionArgs)
    ensures
        args == connection_args_for(cursor, results, direction),
{
    let size = #[verifier::truncate] (results as i32);
    match direction {
        PageDirection::Forward => ConnectionArgs {
            after: cursor,
            before: None,
            first: Some(size),
            last: None,
        },
        PageDirection::Backward => ConnectionArgs {
            after: None,
            before: cursor,
            first: None,
            last: Some(size),
        },
    }
}

impl<T: Into<String>> From<PaginationRequest<T>> for ConnectionArgs {
    /// The query arguments for the request's number of results and
    /// direction, from its cursor as the cursor's own conversion gives it
    /// as text: there is a cursor in the arguments exactly when the request
    /// has one.
    fn from(req: PaginationRequest<T>) -> (args: Self)
        ensures
            exists|cursor: Option<String>|
                cursor.is_some() == req.cursor.is_some() && args == #[trigger] connection_args_for(
                    cursor,
                    req.results,
                    req.direction,
                ),
    {
        let cursor: Option<String> = match req.cursor {
            Some(c) => Some(c.into()),
            None => None,
        };
        connection_args(cursor, req.results, req.direction)
    }
}

impl<T: Into<String>> FromSpecImpl<PaginationRequest<T>> for ConnectionArgs {
    open spec fn obeys_from_spec() -> bool {
        T::obeys_into_spec()
    }

    open spec fn from_spec(req: PaginationRequest<T>) -> Self {
        connection_args_of(req)
    }
}

/// Why a value of the query interface could not be converted.
#[derive(Debug)]
#[non_exhaustive]
pub enum ConversionError {
    /// A field that the answer must hold is missing.
    MissingField(String),
    /// A hex string lacks the `0x` prefix.
    HexStringPrefixError,
    /// A hex string that must give 32 bytes gave another number.
    HexString256LengthError(usize),
    /// The hex decoder refused the text.
    HexDecodingError(hex::FromHexError),
    /// A hex value could not be read.
    HexError(String),
    /// A number does not fit its type.
    IntegerConversion,
    /// The bytes of a transaction could not be read.
    TransactionFromBytesError(std::io::Error),
    /// The bytes of a receipt could not be read.
    ReceiptFromBytesError(std::io::Error),
    /// A byte string is not of the expected length.
    BytesLength,
    /// An enum holds a variant that is not known here.
    UnknownVariant(&'static str),
}

impl ConversionError {
    /// Whether the error carries an error of another crate, whose words the
    /// message ends with.
    pub open spec fn quotes(self) -> bool {
        self is HexDecodingError || self is TransactionFromBytesError || self
            is ReceiptFromBytesError
    }

    /// What the error says, in words, as far as the library writes it:
    /// where the error carries an error of another crate, that error's own
    /// words follow.
    pub open spec fn spec_message(self) -> Seq<char> {
        match self {
            ConversionError::MissingField(field) =>
                "Field is required from the GraphQL response "@ + field@,
            ConversionError::HexStringPrefixError => "expected 0x prefix"@,
            ConversionError::HexString256LengthError(len) => "expected 32 bytes, received "@
                + decimal(len as nat),
            ConversionError::HexDecodingError(_) => "hex parsing error "@,
            ConversionError::HexError(text) => "hex parsing error "@ + text@,
            ConversionError::IntegerConversion => "failed integer conversion"@,
            ConversionError::TransactionFromBytesError(_) =>
                "failed to deserialize transaction from bytes "@,
            ConversionError::ReceiptFromBytesError(_) =>
                "failed to deserialize receipt from bytes "@,
            ConversionError::BytesLength =>
                "failed to convert from bytes due to unexpected length"@,
            ConversionError::UnknownVariant(name) => "Unknown variant of the "@ + name@ + " enum"@,
        }
    }

    /// What the error says, in words.
    pub fn message(&self) -> (text: String)
        ensures
            !self.quotes() ==> text@ == self.spec_message(),
            self.quotes() ==> text@.len() >= self.spec_message().len() && text@.subrange(
                0,
                self.spec_message().len() as int,
            ) == self.spec_message(),
    {
        match self {
            ConversionError::MissingField(field) => {
                let mut text = String::from_str("Field is required from the GraphQL response ");
                text.append(field.as_str());
                text
            },
            ConversionError::HexStringPrefixError => String::from_str("expected 0x prefix"),
            ConversionError::HexString256LengthError(len) => {
                let mut text = String::from_str("expected 32 bytes, received ");
                let count = decimal_text(*len);
                text.append(count.as_str());
                text
            },
            ConversionError::HexDecodingError(error) => {
                let mut text = String::from_str("hex parsing error ");
                let ghost prefix = text@;
                let words = hex_error_text(error);
                text.append(words.as_str());
                assert(text@.subrange(0, prefix.len() as int) =~= prefix);
                text
            },
            ConversionError::HexError(words) => {
                let mut text = String::from_str("hex parsing error ");
                text.append(words.as_str());
                text
            },
            ConversionError::IntegerConversion => String::from_str("failed integer conversion"),
            ConversionError::TransactionFromBytesError(error) => {
                let mut text = String::from_str("failed to deserialize transaction from bytes ");
                let ghost prefix = text@;
                let words = io_error_text(error);
                text.append(words.as_str());
                assert(text@.subrange(0, prefix.len() as int) =~= prefix);
                text
            },
            ConversionError::ReceiptFromBytesError(error) => {
                let mut text = String::from_str("failed to deserialize receipt from bytes ");
                let ghost prefix = text@;
                let words = io_error_text(error);
                text.append(words.as_str());
                assert(text@.subrange(0, prefix.len() as int) =~= prefix);
                text
            },
            ConversionError::BytesLength => String::from_str(
                "failed to convert from bytes due to unexpected length",
            ),
            ConversionError::UnknownVariant(name) => {
                let mut text = String::from_str("Unknown variant of the ");
                text.append(name);
                text.append(" enum");
                text
            },
        }
    }
}

impl From<hex::FromHexError> for ConversionError {
    /// The error of the decoder, carried as it is.
    fn from(hex_error: hex::FromHexError) -> (e: Self)
        ensures
            e == ConversionError::HexDecodingError(hex_error),
    {
        ConversionError::HexDecodingError(hex_error)
    }
}

impl FromSpecImpl<hex::FromHexError> for ConversionError {
    open spec fn obeys_from_spec() -> bool {
        true
    }

    open spec fn from_spec(hex_error: hex::FromHexError) -> Self {
        ConversionError::HexDecodingError(hex_error)
    }
}

impl From<core::num::TryFromIntError> for ConversionError {
    /// A number that does not fit its type.
    fn from(e: core::num::TryFromIntError) -> (r: Self)
        ensures
            r == ConversionError::IntegerConversion,
    {
        ConversionError::IntegerConversion
    }
}

impl FromSpecImpl<core::num::TryFromIntError> for ConversionError {
    open spec fn obeys_from_spec() -> bool {
        true
    }

    open spec fn from_spec(e: core::num::TryFromIntError) -> Self {
        ConversionError::IntegerConversion
    }
}

} // verus!
