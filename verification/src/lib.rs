//! A minimal calculator core: operands modelled by their IEEE-754 bit
//! patterns, operation names resolved by exact string match, and the
//! dispatch decision (unknown operation, division by zero) stated and
//! proved exactly.

pub mod dispatch;
pub mod operand;
pub mod ops;

pub use dispatch::check_divisor;
pub use dispatch::dispatch;
pub use dispatch::CalcError;
pub use operand::Operand;
pub use ops::parse_op;
pub use ops::Op;
