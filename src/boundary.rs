use vstd::prelude::*;
use vstd::utf8::{decode_utf8, valid_utf8};
use crate::enums::{OperationType, op_code};

verus! {

/// Room for the largest result the engine writes: an affine point over a cubic
/// extension of a field of up to 1023 bits.
pub const MAX_OUTPUT_LEN: usize = 1536;

/// Room for the engine's description of a failure.
pub const ERROR_DESCRIPTION_LEN: usize = 256;

/// Why a call into the engine did not produce a result.
#[derive(Clone, Debug)]
pub enum CallError {
    /// The engine failed and wrote no description.
    EmptyDescription,
    /// The engine's description holds a nul byte; the field is its first position.
    DescriptionHasNul(usize),
    /// The engine's description is not UTF-8 text.
    DescriptionNotUtf8,
    /// The cost of the request could not be estimated.
    GasMeteringFailed,
    /// The engine failed and said why.
    Engine(String),
}

impl CallError {
    /// A human-readable account of the failure.
    pub fn description(&self) -> (r: String)
        ensures
            r@ == match self {
                CallError::EmptyDescription => "native engine returned an empty error description"@,
                CallError::DescriptionHasNul(_) => "error description contains a nul byte"@,
                CallError::DescriptionNotUtf8 => "error description is not valid UTF-8"@,
                CallError::GasMeteringFailed => "failed to meter gas"@,
                CallError::Engine(s) => s@,
            },
    {
        match self {
            CallError::EmptyDescription => "native engine returned an empty error description".to_owned(),
            CallError::DescriptionHasNul(_) => "error description contains a nul byte".to_owned(),
            CallError::DescriptionNotUtf8 => "error description is not valid UTF-8".to_owned(),
            CallError::GasMeteringFailed => "failed to meter gas".to_owned(),
            CallError::Engine(s) => s.clone(),
        }
    }
}

/// The part of a buffer that the engine reports as written: its first `len`
/// bytes, or all of it when `len` reaches past its end.
pub open spec fn filled(buffer: Seq<u8>, len: u32) -> Seq<u8> {
    if len as int <= buffer.len() {
        buffer.subrange(0, len as int)
    } else {
        buffer
    }
}

/// `i` is the position of the first nul byte of `d`.
pub open spec fn is_first_nul(d: Seq<u8>, i: int) -> bool {
    0 <= i < d.len() && d[i] == 0 && forall|j: int| 0 <= j < i ==> d[j] != 0
}

/// `e` is the error that a failed call reports when the engine wrote `len`
/// bytes of description into `buffer`.
pub open spec fn describes(e: CallError, buffer: Seq<u8>, len: u32) -> bool {
    let d = filled(buffer, len);
    if len == 0 {
        e == CallError::EmptyDescription
    } else if exists|i: int| 0 <= i < d.len() && d[i] == 0 {
        e matches CallError::DescriptionHasNul(p) && is_first_nul(d, p as int)
    } else if !valid_utf8(d) {
        e == CallError::DescriptionNotUtf8
    } else {
        e matches CallError::Engine(s) && s@ == decode_utf8(d)
    }
}

/// Relies on String::from_utf8: it succeeds exactly on valid UTF-8, and the
/// text it returns is the bytes decoded.
#[verifier::external_body]
fn text_from_utf8(bytes: Vec<u8>) -> (r: Option<String>)
    ensures
        r is Some <==> valid_utf8(bytes@),
        r matches Some(s) ==> s@ == decode_utf8(bytes@),
{
    String::from_utf8(bytes).ok()
}

/// A zeroed buffer of `MAX_OUTPUT_LEN` bytes for the engine's result.
pub fn output_buffer() -> (r: Vec<u8>)
    ensures
        r@ == Seq::new(MAX_OUTPUT_LEN as nat, |i: int| 0u8),
{
    let r = vec![0u8; MAX_OUTPUT_LEN];
    assert(r@ =~= Seq::new(MAX_OUTPUT_LEN as nat, |i: int| 0u8));
    r
}

/// A zeroed buffer of `ERROR_DESCRIPTION_LEN` bytes for the engine's account of a failure.
pub fn description_buffer() -> (r: Vec<u8>)
    ensures
        r@ == Seq::new(ERROR_DESCRIPTION_LEN as nat, |i: int| 0u8),
{
    let r = vec![0u8; ERROR_DESCRIPTION_LEN];
    assert(r@ =~= Seq::new(ERROR_DESCRIPTION_LEN as nat, |i: int| 0u8));
    r
}

/// The operation selector as the engine's signed byte: the same bits as the code.
pub fn engine_selector(op: OperationType) -> (r: i8)
    ensures
        r as int == op_code(op) as int,
{
    op.as_u8() as i8
}

/// Keeps the part of `buffer` that the engine reports as written.
pub fn take_filled(buffer: Vec<u8>, len: u32) -> (r: Vec<u8>)
    ensures
        r@ == filled(buffer@, len),
{
    let mut buffer = buffer;
    buffer.truncate(len as usize);
    buffer
}

/// Turns the description that a failed call wrote into its error.
pub fn read_description(buffer: Vec<u8>, len: u32) -> (r: CallError)
    ensures
        describes(r, buffer@, len),
{
    if len == 0 {
        return CallError::EmptyDescription;
    }
    let d = take_filled(buffer, len);
    let mut i: usize = 0;
    while i < d.len()
        invariant
            0 <= i <= d@.len(),
            d@ == filled(buffer@, len),
            forall|j: int| 0 <= j < i ==> d@[j] != 0,
        decreases d@.len() - i,
    {
        if d[i] == 0 {
            return CallError::DescriptionHasNul(i);
        }
        i = i + 1;
    }
    match text_from_utf8(d) {
        Some(s) => CallError::Engine(s),
        None => CallError::DescriptionNotUtf8,
    }
}

/// The outcome of a call that writes a result: the written part of `output`
/// when the engine succeeded, else the error its description gives.
pub fn output_outcome(
    succeeded: bool,
    output: Vec<u8>,
    output_len: u32,
    description: Vec<u8>,
    description_len: u32,
) -> (r: Result<Vec<u8>, CallError>)
    ensures
        succeeded ==> (r matches Ok(v) && v@ == filled(output@, output_len)),
        !succeeded ==> (r matches Err(e) && describes(e, description@, description_len)),
{
    if succeeded {
        Ok(take_filled(output, output_len))
    } else {
        Err(read_description(description, description_len))
    }
}

/// The outcome of a cost estimate that reports why it failed: the cost when the
/// engine succeeded, else the error its description gives.
pub fn gas_outcome(succeeded: bool, gas: u64, description: Vec<u8>, description_len: u32) -> (r:
    Result<u64, CallError>)
    ensures
        succeeded ==> r == Ok::<u64, CallError>(gas),
        !succeeded ==> (r matches Err(e) && describes(e, description@, description_len)),
{
    if succeeded {
        Ok(gas)
    } else {
        Err(read_description(description, description_len))
    }
}

/// The outcome of a cost estimate that gives no reason on failure.
pub fn bare_gas_outcome(succeeded: bool, gas: u64) -> (r: Result<u64, CallError>)
    ensures
        succeeded ==> r == Ok::<u64, CallError>(gas),
        !succeeded ==> r == Err::<u64, CallError>(CallError::GasMeteringFailed),
{
    if succeeded {
        Ok(gas)
    } else {
        Err(CallError::GasMeteringFailed)
    }
}

} // verus!
