//! Operation selection and call-boundary handling for a generic elliptic-curve
//! engine: the closed set of operations, their stable wire codes, and the rules
//! that turn the engine's raw status, buffers and lengths into exactly one outcome.

mod enums;

pub use crate::enums::{
    OperationType, op_code, code_operation, lemma_code_round_trip, lemma_operation_round_trip,
    G1ADD_OPERATION_RAW_VALUE, G1MUL_OPERATION_RAW_VALUE, G1MULTIEXP_OPERATION_RAW_VALUE,
    G2ADD_OPERATION_RAW_VALUE, G2MUL_OPERATION_RAW_VALUE, G2MULTIEXP_OPERATION_RAW_VALUE,
    BLS12PAIR_OPERATION_RAW_VALUE, BNPAIR_OPERATION_RAW_VALUE, MNT4PAIR_OPERATION_RAW_VALUE,
    MNT6PAIR_OPERATION_RAW_VALUE,
};

mod boundary;

pub use crate::boundary::{
    CallError, MAX_OUTPUT_LEN, ERROR_DESCRIPTION_LEN, filled, is_first_nul, describes,
    output_buffer, description_buffer, engine_selector, take_filled, read_description,
    output_outcome, gas_outcome, bare_gas_outcome,
};
