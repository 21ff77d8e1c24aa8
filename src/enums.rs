use vstd::prelude::*;

verus! {

pub const G1ADD_OPERATION_RAW_VALUE: u8 = 1;
pub const G1MUL_OPERATION_RAW_VALUE: u8 = 2;
pub const G1MULTIEXP_OPERATION_RAW_VALUE: u8 = 3;

pub const G2ADD_OPERATION_RAW_VALUE: u8 = 4;
pub const G2MUL_OPERATION_RAW_VALUE: u8 = 5;
pub const G2MULTIEXP_OPERATION_RAW_VALUE: u8 = 6;

pub const BLS12PAIR_OPERATION_RAW_VALUE: u8 = 7;
pub const BNPAIR_OPERATION_RAW_VALUE: u8 = 8;
pub const MNT4PAIR_OPERATION_RAW_VALUE: u8 = 9;
pub const MNT6PAIR_OPERATION_RAW_VALUE: u8 = 10;

/// The operations the engine performs: addition, scalar multiplication and
/// multi-scalar multiplication in each of the two point groups, and one
/// pairing check per supported curve family.
#[derive(Copy, Clone, Debug, PartialEq, Eq, Structural)]
pub enum OperationType {
    G1ADD,
    G1MUL,
    G1MULTIEXP,
    G2ADD,
    G2MUL,
    G2MULTIEXP,
    BLS12PAIR,
    BNPAIR,
    MNT4PAIR,
    MNT6PAIR,
}

/// The stable one-byte code of an operation on the wire.
pub open spec fn op_code(op: OperationType) -> u8 {
    match op {
        OperationType::G1ADD => G1ADD_OPERATION_RAW_VALUE,
        OperationType::G1MUL => G1MUL_OPERATION_RAW_VALUE,
        OperationType::G1MULTIEXP => G1MULTIEXP_OPERATION_RAW_VALUE,
        OperationType::G2ADD => G2ADD_OPERATION_RAW_VALUE,
        OperationType::G2MUL => G2MUL_OPERATION_RAW_VALUE,
        OperationType::G2MULTIEXP => G2MULTIEXP_OPERATION_RAW_VALUE,
        OperationType::BLS12PAIR => BLS12PAIR_OPERATION_RAW_VALUE,
        OperationType::BNPAIR => BNPAIR_OPERATION_RAW_VALUE,
        OperationType::MNT4PAIR => MNT4PAIR_OPERATION_RAW_VALUE,
        OperationType::MNT6PAIR => MNT6PAIR_OPERATION_RAW_VALUE,
    }
}

/// The operation that a byte names, if any: the one whose code it is.
pub open spec fn code_operation(value: u8) -> Option<OperationType> {
    if exists|op: OperationType| op_code(op) == value {
        Some(choose|op: OperationType| op_code(op) == value)
    } else {
        None
    }
}

impl OperationType {
    /// Reads an operation code; `None` for a byte that names no operation.
    pub fn from_u8(value: u8) -> (r: Option<Self>)
        ensures
            r == code_operation(value),
            r is Some <==> 1 <= value <= 10,
            r matches Some(op) ==> op_code(op) == value,
    {
        let r = match value {
            G1ADD_OPERATION_RAW_VALUE => Some(OperationType::G1ADD),
            G1MUL_OPERATION_RAW_VALUE => Some(OperationType::G1MUL),
            G1MULTIEXP_OPERATION_RAW_VALUE => Some(OperationType::G1MULTIEXP),
            G2ADD_OPERATION_RAW_VALUE => Some(OperationType::G2ADD),
            G2MUL_OPERATION_RAW_VALUE => Some(OperationType::G2MUL),
            G2MULTIEXP_OPERATION_RAW_VALUE => Some(OperationType::G2MULTIEXP),
            BLS12PAIR_OPERATION_RAW_VALUE => Some(OperationType::BLS12PAIR),
            BNPAIR_OPERATION_RAW_VALUE => Some(OperationType::BNPAIR),
            MNT4PAIR_OPERATION_RAW_VALUE => Some(OperationType::MNT4PAIR),
            MNT6PAIR_OPERATION_RAW_VALUE => Some(OperationType::MNT6PAIR),
            _ => None,
        };
        proof {
            lemma_op_code_injective();
            match r {
                Some(op) => {
                    assert(op_code(op) == value);
                },
                None => {
                    assert forall|op: OperationType| op_code(op) != value by {
                        match op {
                            OperationType::G1ADD => {},
                            _ => {},
                        }
                    }
                },
            }
        }
        r
    }

    /// The operation's code on the wire.
    pub fn as_u8(&self) -> (r: u8)
        ensures
            r == op_code(*self),
            1 <= r <= 10,
    {
        match self {
            OperationType::G1ADD => G1ADD_OPERATION_RAW_VALUE,
            OperationType::G1MUL => G1MUL_OPERATION_RAW_VALUE,
            OperationType::G1MULTIEXP => G1MULTIEXP_OPERATION_RAW_VALUE,
            OperationType::G2ADD => G2ADD_OPERATION_RAW_VALUE,
            OperationType::G2MUL => G2MUL_OPERATION_RAW_VALUE,
            OperationType::G2MULTIEXP => G2MULTIEXP_OPERATION_RAW_VALUE,
            OperationType::BLS12PAIR => BLS12PAIR_OPERATION_RAW_VALUE,
            OperationType::BNPAIR => BNPAIR_OPERATION_RAW_VALUE,
            OperationType::MNT4PAIR => MNT4PAIR_OPERATION_RAW_VALUE,
            OperationType::MNT6PAIR => MNT6PAIR_OPERATION_RAW_VALUE,
        }
    }
}

/// No two operations share a code.
proof fn lemma_op_code_injective()
    ensures
        forall|a: OperationType, b: OperationType| #[trigger] op_code(a) == #[trigger] op_code(b) ==> a == b,
{
}

/// Reading the code of an operation gives that operation back.
pub proof fn lemma_operation_round_trip(op: OperationType)
    ensures
        code_operation(op_code(op)) == Some(op),
{
    lemma_op_code_injective();
}

/// A byte that names an operation is that operation's code.
pub proof fn lemma_code_round_trip(value: u8)
    requires
        code_operation(value) is Some,
    ensures
        op_code(code_operation(value)->Some_0) == value,
{
}

} // verus!
