use crate::operand::Operand;
use crate::ops::{parse_op, spec_parse_op, Op};
use vstd::prelude::*;
use vstd::string::StringExecFns;

verus! {

/// An error the dispatcher reports to the user without aborting the
/// process.
#[derive(Clone, Copy, Debug, PartialEq, Eq, Structural)]
pub enum CalcError {
    /// A divide request whose divisor compares equal to zero.
    DivisionByZero,
    /// An operation name that matches none of the recognized names.
    UnknownOperation,
}

impl CalcError {
    /// The diagnostic text reported for this error.
    pub fn message(&self) -> (r: String)
        ensures
            (match self {
                CalcError::DivisionByZero => r@ == "Division by zero"@,
                CalcError::UnknownOperation => r@
                    == "Unknown operation. Use: add, subtract, multiply, divide"@,
            }),
    {
        match self {
            CalcError::DivisionByZero => String::from_str("Division by zero"),
            CalcError::UnknownOperation => String::from_str(
                "Unknown operation. Use: add, subtract, multiply, divide",
            ),
        }
    }
}

/// The decision for a divide request: rejected exactly when the divisor
/// compares equal to zero, with no tolerance around zero.
pub open spec fn spec_check_divisor(divisor: Operand) -> Result<(), CalcError> {
    if divisor.spec_is_zero() {
        Err(CalcError::DivisionByZero)
    } else {
        Ok(())
    }
}

/// Admits a divisor for division, or rejects it when it compares equal
/// to zero.
pub fn check_divisor(divisor: &Operand) -> (r: Result<(), CalcError>)
    ensures
        r == spec_check_divisor(*divisor),
{
    if divisor.is_zero() {
        Err(CalcError::DivisionByZero)
    } else {
        Ok(())
    }
}

/// The dispatch decision: which arithmetic step a request runs, or
/// which error it reports instead. An unrecognized name is rejected;
/// a divide request is rejected when its divisor compares equal to
/// zero; every other request is dispatched to its operation. The
/// dividend plays no part in the decision.
pub open spec fn spec_dispatch(name: Seq<char>, divisor: Operand) -> Result<Op, CalcError> {
    match spec_parse_op(name) {
        Some(op) => {
            if op == Op::Divide {
                match spec_check_divisor(divisor) {
                    Ok(_) => Ok(op),
                    Err(e) => Err(e),
                }
            } else {
                Ok(op)
            }
        },
        None => Err(CalcError::UnknownOperation),
    }
}

/// Decides what a request runs: the operation its name selects, an
/// unknown-operation error for an unrecognized name, or a
/// division-by-zero error for a divide request whose divisor compares
/// equal to zero.
pub fn dispatch(name: &str, divisor: &Operand) -> (r: Result<Op, CalcError>)
    ensures
        r == spec_dispatch(name@, *divisor),
{
    match parse_op(name) {
        Some(op) => {
            if op == Op::Divide {
                match check_divisor(divisor) {
                    Ok(_) => Ok(op),
                    Err(e) => Err(e),
                }
            } else {
                Ok(op)
            }
        },
        None => Err(CalcError::UnknownOperation),
    }
}

/// Law: a recognized operation other than divide always dispatches to
/// its arithmetic step; no divisor makes it fail.
pub proof fn lemma_non_divide_always_dispatches(name: Seq<char>, divisor: Operand, op: Op)
    requires
        spec_parse_op(name) == Some::<Op>(op),
        op != Op::Divide,
    ensures
        spec_dispatch(name, divisor) == Ok::<Op, CalcError>(op),
{
}

/// Law: a divide request whose divisor does not compare equal to zero
/// dispatches to the division step.
pub proof fn lemma_divide_nonzero_dispatches(name: Seq<char>, divisor: Operand)
    requires
        spec_parse_op(name) == Some::<Op>(Op::Divide),
        !divisor.spec_is_zero(),
    ensures
        spec_dispatch(name, divisor) == Ok::<Op, CalcError>(Op::Divide),
{
}

/// Law: a divide request whose divisor compares equal to zero is
/// rejected with a division-by-zero error, never dispatched to an
/// arithmetic step. The decision reads the divisor alone, so it holds
/// for every dividend, the zero dividend included.
pub proof fn lemma_divide_by_zero_rejected(name: Seq<char>, divisor: Operand)
    requires
        spec_parse_op(name) == Some::<Op>(Op::Divide),
        divisor.spec_is_zero(),
    ensures
        spec_dispatch(name, divisor) == Err::<Op, CalcError>(CalcError::DivisionByZero),
{
}

/// Law: an unrecognized operation name is rejected with an
/// unknown-operation error, whatever the divisor.
pub proof fn lemma_unknown_operation_rejected(name: Seq<char>, divisor: Operand)
    requires
        spec_parse_op(name) == None::<Op>,
    ensures
        spec_dispatch(name, divisor) == Err::<Op, CalcError>(CalcError::UnknownOperation),
{
}

/// Law: dispatch is a pure function of its arguments; two results
/// obtained for the same name and the same divisor are equal.
pub proof fn lemma_dispatch_deterministic(
    name: Seq<char>,
    divisor: Operand,
    r1: Result<Op, CalcError>,
    r2: Result<Op, CalcError>,
)
    requires
        r1 == spec_dispatch(name, divisor),
        r2 == spec_dispatch(name, divisor),
    ensures
        r1 == r2,
{
}

} // verus!
