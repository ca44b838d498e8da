//! The integer calculator: four named operations on two 32-bit integers.
use vstd::prelude::*;
use crate::decimal::{push_signed_decimal, signed_decimal};

verus! {

/// Two's complement reduction of `x` to 32 bits: the `i32` that is congruent
/// to `x` modulo 2^32.
pub open spec fn wrap_i32(x: int) -> i32 {
    let m = x % 0x1_0000_0000;
    if m > i32::MAX {
        (m - 0x1_0000_0000) as i32
    } else {
        m as i32
    }
}

/// Division that rounds toward zero, as Rust's `/` on integers does.
pub open spec fn trunc_div(a: int, b: int) -> int {
    if a >= 0 && b > 0 {
        a / b
    } else if a < 0 && b < 0 {
        (-a) / (-b)
    } else if a < 0 {
        -((-a) / b)
    } else {
        -(a / (-b))
    }
}

/// The error text for a division by zero.
pub open spec fn divide_by_zero_text() -> Seq<char> {
    "Cannot divide by zero"@
}

/// The error text for an operation name that is not recognised.
pub open spec fn unknown_operation_text(op: Seq<char>) -> Seq<char> {
    "Unknown operation: "@ + op
}

/// What `calculate` yields for `a`, `b` and the operation named `op`: the
/// result at the native 32-bit width, or the error text.
pub open spec fn outcome(a: i32, b: i32, op: Seq<char>) -> Result<i32, Seq<char>> {
    if op == "add"@ {
        Ok(wrap_i32(a + b))
    } else if op == "subtract"@ {
        Ok(wrap_i32(a - b))
    } else if op == "multiply"@ {
        Ok(wrap_i32(a * b))
    } else if op == "divide"@ {
        if b == 0 {
            Err(divide_by_zero_text())
        } else {
            Ok(wrap_i32(trunc_div(a as int, b as int)))
        }
    } else {
        Err(unknown_operation_text(op))
    }
}

/// The description of a calculation: `Operation: <a> <op> <b>`.
pub open spec fn description_text(a: i32, op: Seq<char>, b: i32) -> Seq<char> {
    "Operation: "@ + signed_decimal(a as int) + " "@ + op + " "@ + signed_decimal(b as int)
}

/// The answer to one calculation request.
pub struct CalculationResult {
    pub result: i32,
    /// Milliseconds since the Unix epoch when the request was handled.
    pub timestamp: u128,
    pub description: String,
}

/// Computes `operation` on `a` and `b`, stamping the answer with `timestamp`.
/// Sums, differences, products and quotients wrap at 32 bits; a quotient
/// rounds toward zero.
pub fn calculate(a: i32, b: i32, operation: &String, timestamp: u128) -> (r: Result<
    CalculationResult,
    String,
>)
    ensures
        match r {
            Ok(c) => {
                &&& outcome(a, b, operation@) == Ok::<i32, Seq<char>>(c.result)
                &&& c.timestamp == timestamp
                &&& c.description@ == description_text(a, operation@, b)
            },
            Err(e) => outcome(a, b, operation@) == Err::<i32, Seq<char>>(e@),
        },
{
    let result: i32;
    if *operation == String::from_str("add") {
        result = a.wrapping_add(b);
    } else if *operation == String::from_str("subtract") {
        result = a.wrapping_sub(b);
    } else if *operation == String::from_str("multiply") {
        result = a.wrapping_mul(b);
    } else if *operation == String::from_str("divide") {
        if b == 0 {
            return Err(String::from_str("Cannot divide by zero"));
        }
        result = match a.checked_div(b) {
            Some(q) => q,
            None => i32::MIN,
        };
    } else {
        return Err(String::from_str("Unknown operation: ").concat(operation.as_str()));
    }
    let mut description = String::from_str("Operation: ");
    push_signed_decimal(&mut description, a);
    description.append(" ");
    description.append(operation.as_str());
    description.append(" ");
    push_signed_decimal(&mut description, b);
    Ok(CalculationResult { result, timestamp, description })
}

proof fn lemma_wrap_in_range(x: int)
    requires
        i32::MIN <= x <= i32::MAX,
    ensures
        wrap_i32(x) == x,
{
}

proof fn lemma_operation_names_distinct()
    ensures
        "add"@ != "subtract"@,
        "add"@ != "multiply"@,
        "add"@ != "divide"@,
        "subtract"@ != "multiply"@,
        "subtract"@ != "divide"@,
        "multiply"@ != "divide"@,
{
    reveal_strlit("add");
    reveal_strlit("subtract");
    reveal_strlit("multiply");
    reveal_strlit("divide");
    assert("add"@.len() != "subtract"@.len());
    assert("add"@.len() != "multiply"@.len());
    assert("add"@.len() != "divide"@.len());
    assert("subtract"@[0] != "multiply"@[0]);
    assert("subtract"@.len() != "divide"@.len());
    assert("multiply"@.len() != "divide"@.len());
}

/// Whether `op` names one of the four operations.
pub open spec fn is_known_operation(op: Seq<char>) -> bool {
    op == "add"@ || op == "subtract"@ || op == "multiply"@ || op == "divide"@
}

/// With a nonzero divisor every operation succeeds, and its result is the
/// exact sum, difference, product or quotient (rounded toward zero) whenever
/// that value fits in an `i32`.
pub proof fn lemma_operations_exact(a: i32, b: i32)
    requires
        b != 0,
    ensures
        outcome(a, b, "add"@) is Ok,
        outcome(a, b, "subtract"@) is Ok,
        outcome(a, b, "multiply"@) is Ok,
        outcome(a, b, "divide"@) is Ok,
        i32::MIN <= a + b <= i32::MAX ==> outcome(a, b, "add"@) == Ok::<i32, Seq<char>>(
            (a + b) as i32,
        ),
        i32::MIN <= a - b <= i32::MAX ==> outcome(a, b, "subtract"@) == Ok::<i32, Seq<char>>(
            (a - b) as i32,
        ),
        i32::MIN <= a * b <= i32::MAX ==> outcome(a, b, "multiply"@) == Ok::<i32, Seq<char>>(
            (a * b) as i32,
        ),
        i32::MIN <= trunc_div(a as int, b as int) <= i32::MAX ==> outcome(a, b, "divide"@)
            == Ok::<i32, Seq<char>>(trunc_div(a as int, b as int) as i32),
{
    lemma_operation_names_distinct();
    if i32::MIN <= a + b <= i32::MAX {
        lemma_wrap_in_range(a + b);
    }
    if i32::MIN <= a - b <= i32::MAX {
        lemma_wrap_in_range(a - b);
    }
    if i32::MIN <= a * b <= i32::MAX {
        lemma_wrap_in_range(a * b);
    }
    if i32::MIN <= trunc_div(a as int, b as int) <= i32::MAX {
        lemma_wrap_in_range(trunc_div(a as int, b as int));
    }
}

/// Dividing by zero always fails, with the division-by-zero text.
pub proof fn lemma_divide_by_zero(a: i32)
    ensures
        outcome(a, 0, "divide"@) == Err::<i32, Seq<char>>(divide_by_zero_text()),
{
    lemma_operation_names_distinct();
}

/// Any name outside the four operations fails, with the unknown-operation
/// text that quotes the name.
pub proof fn lemma_unknown_operation(a: i32, b: i32, op: Seq<char>)
    requires
        !is_known_operation(op),
    ensures
        outcome(a, b, op) == Err::<i32, Seq<char>>(unknown_operation_text(op)),
{
}

} // verus!
