use vstd::prelude::*;
use vstd::string::StrSliceExecFns;

verus! {

/// The four arithmetic operations the calculator performs.
#[derive(Clone, Copy, Debug, PartialEq, Eq, Structural)]
pub enum Op {
    Add,
    Subtract,
    Multiply,
    Divide,
}

/// The operation an operation name selects: an exact, case-sensitive
/// match against one of the four recognized names, in which any other
/// string selects nothing.
pub open spec fn spec_parse_op(name: Seq<char>) -> Option<Op> {
    if name == "add"@ {
        Some(Op::Add)
    } else if name == "subtract"@ {
        Some(Op::Subtract)
    } else if name == "multiply"@ {
        Some(Op::Multiply)
    } else if name == "divide"@ {
        Some(Op::Divide)
    } else {
        None
    }
}

/// Compares two strings character by character.
fn str_eq(a: &str, b: &str) -> (r: bool)
    ensures
        r == (a@ == b@),
{
    let a_len = a.unicode_len();
    let b_len = b.unicode_len();
    if a_len != b_len {
        return false;
    }
    let mut i: usize = 0;
    while i < a_len
        invariant
            a_len == a@.len(),
            a_len == b@.len(),
            i <= a_len,
            forall|j: int| 0 <= j < i ==> a@[j] == b@[j],
        decreases a_len - i,
    {
        if a.get_char(i) != b.get_char(i) {
            return false;
        }
        i = i + 1;
    }
    proof {
        assert(a@ =~= b@);
    }
    true
}

/// Resolves an operation name to the operation it selects, or to
/// nothing when the name matches none of the four recognized names.
pub fn parse_op(name: &str) -> (r: Option<Op>)
    ensures
        r == spec_parse_op(name@),
{
    if str_eq(name, "add") {
        Some(Op::Add)
    } else if str_eq(name, "subtract") {
        Some(Op::Subtract)
    } else if str_eq(name, "multiply") {
        Some(Op::Multiply)
    } else if str_eq(name, "divide") {
        Some(Op::Divide)
    } else {
        None
    }
}

} // verus!
