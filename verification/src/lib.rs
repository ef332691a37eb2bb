//! A persisted calculator record: a greeting fixed at creation and a signed
//! 64-bit `result` updated by checked arithmetic operations.
//!
//! Every operation either overwrites `result` with the exact mathematical
//! value of its operands or reports a typed failure and leaves the record
//! untouched; nothing ever wraps, saturates or partially writes.

use vstd::prelude::*;

pub mod power;

verus! {

/// The two failure kinds an operation can report.
#[derive(Clone, Copy, Debug, PartialEq, Eq, Structural)]
pub enum ErrorCode {
    /// The mathematical result lies outside the signed 64-bit range.
    OverflowUnderflow,
    /// The divisor of a division was zero.
    DivisionByZero,
}

/// The persisted record: a greeting set once at creation and the result of
/// the last successful arithmetic operation (zero until the first one).
pub struct Calculator {
    pub greeting: String,
    pub result: i64,
}

/// The mathematical content of a [`Calculator`].
pub struct CalculatorView {
    pub greeting: Seq<char>,
    pub result: int,
}

impl View for Calculator {
    type V = CalculatorView;

    open spec fn view(&self) -> CalculatorView {
        CalculatorView { greeting: self.greeting@, result: self.result as int }
    }
}

/// Whether the mathematical value `v` is representable as a signed 64-bit
/// integer.
pub open spec fn fits_i64(v: int) -> bool {
    i64::MIN <= v <= i64::MAX
}

/// The record after a successful operation: the greeting is kept, the result
/// is overwritten with `v`.
pub open spec fn with_result(s: CalculatorView, v: int) -> CalculatorView {
    CalculatorView { greeting: s.greeting, result: v }
}

/// The state transition of a checked operation whose mathematical value is
/// `v`: on success the result is overwritten, on overflow the record is left
/// exactly as it was.
pub open spec fn checked_step(s: CalculatorView, v: int) -> CalculatorView {
    if fits_i64(v) {
        with_result(s, v)
    } else {
        s
    }
}

/// Allocates a fresh record carrying `init_message`, with a zero result.
pub fn create(init_message: String) -> (calculator: Calculator)
    ensures
        calculator@ == (CalculatorView { greeting: init_message@, result: 0 }),
{
    Calculator { greeting: init_message, result: 0 }
}

/// Checked addition: stores `num1 + num2`, or fails on overflow without
/// touching the record.
pub fn add(calculator: &mut Calculator, num1: i64, num2: i64) -> (r: Result<(), ErrorCode>)
    ensures
        final(calculator)@ == checked_step(old(calculator)@, num1 + num2),
        r == (if fits_i64(num1 + num2) {
            Ok::<(), ErrorCode>(())
        } else {
            Err::<(), ErrorCode>(ErrorCode::OverflowUnderflow)
        }),
{
    let res = num1.checked_add(num2);
    if res.is_none() {
        return Err(ErrorCode::OverflowUnderflow);
    }
    calculator.result = res.unwrap();
    Ok(())
}

/// Checked subtraction: stores `num1 - num2`, or fails on overflow without
/// touching the record.
pub fn substract(calculator: &mut Calculator, num1: i64, num2: i64) -> (r: Result<(), ErrorCode>)
    ensures
        final(calculator)@ == checked_step(old(calculator)@, num1 - num2),
        r == (if fits_i64(num1 - num2) {
            Ok::<(), ErrorCode>(())
        } else {
            Err::<(), ErrorCode>(ErrorCode::OverflowUnderflow)
        }),
{
    let res = num1.checked_sub(num2);
    if res.is_none() {
        return Err(ErrorCode::OverflowUnderflow);
    }
    calculator.result = res.unwrap();
    Ok(())
}

/// Checked multiplication: stores `num1 * num2`, or fails on overflow
/// without touching the record.
pub fn multiply(calculator: &mut Calculator, num1: i64, num2: i64) -> (r: Result<(), ErrorCode>)
    ensures
        final(calculator)@ == checked_step(old(calculator)@, num1 * num2),
        r == (if fits_i64(num1 * num2) {
            Ok::<(), ErrorCode>(())
        } else {
            Err::<(), ErrorCode>(ErrorCode::OverflowUnderflow)
        }),
{
    let res = num1.checked_mul(num2);
    if res.is_none() {
        return Err(ErrorCode::OverflowUnderflow);
    }
    calculator.result = res.unwrap();
    Ok(())
}

/// The quotient of `a` and `b`, truncated toward zero, as signed 64-bit
/// division computes it.
pub open spec fn div_trunc(a: int, b: int) -> int
    recommends
        b != 0,
{
    if a == 0 {
        0
    } else if a > 0 && b > 0 {
        a / b
    } else if a < 0 && b < 0 {
        (a * -1) / (b * -1)
    } else if a < 0 {
        ((a * -1) / b) * -1
    } else {
        (a / (b * -1)) * -1
    }
}

/// Checked truncating division. A zero divisor is its own failure kind,
/// reported before the division is attempted; the one overflow case is
/// `i64::MIN / -1`.
pub fn divide(calculator: &mut Calculator, num1: i64, num2: i64) -> (r: Result<(), ErrorCode>)
    ensures
        num2 == 0 ==> final(calculator)@ == old(calculator)@
            && r == Err::<(), ErrorCode>(ErrorCode::DivisionByZero),
        num2 != 0 ==> final(calculator)@ == checked_step(
            old(calculator)@,
            div_trunc(num1 as int, num2 as int),
        ),
        num2 != 0 ==> r == (if fits_i64(div_trunc(num1 as int, num2 as int)) {
            Ok::<(), ErrorCode>(())
        } else {
            Err::<(), ErrorCode>(ErrorCode::OverflowUnderflow)
        }),
{
    if num2 == 0 {
        return Err(ErrorCode::DivisionByZero);
    }
    let res = num1.checked_div(num2);
    if res.is_none() {
        return Err(ErrorCode::OverflowUnderflow);
    }
    calculator.result = res.unwrap();
    Ok(())
}

/// Checked exponentiation: stores `num ^ exp` over the signed 64-bit
/// domain, or fails on overflow without touching the record. An exponent of
/// zero gives one for every base, zero included; negative exponents are
/// unrepresentable at this interface rather than a runtime failure.
pub fn pow(calculator: &mut Calculator, num: i64, exp: u32) -> (r: Result<(), ErrorCode>)
    ensures
        final(calculator)@ == checked_step(
            old(calculator)@,
            vstd::arithmetic::power::pow(num as int, exp as nat),
        ),
        r == (if fits_i64(vstd::arithmetic::power::pow(num as int, exp as nat)) {
            Ok::<(), ErrorCode>(())
        } else {
            Err::<(), ErrorCode>(ErrorCode::OverflowUnderflow)
        }),
{
    let res = power::checked_pow_i64(num, exp);
    if res.is_none() {
        return Err(ErrorCode::OverflowUnderflow);
    }
    calculator.result = res.unwrap();
    Ok(())
}

/// Raising any base to the zeroth power stores one: from every prior state,
/// `pow` with a zero exponent succeeds and overwrites the result with `1`,
/// for the zero base as well.
pub proof fn lemma_pow_zero_exponent(s: CalculatorView, base: i64)
    ensures
        checked_step(s, vstd::arithmetic::power::pow(base as int, 0)) == with_result(s, 1),
        fits_i64(vstd::arithmetic::power::pow(base as int, 0)),
{
    vstd::arithmetic::power::lemma_pow0(base as int);
}

/// Repeating a step is idempotent: the value a checked operation writes is
/// computed from its operands alone, so taking the very same step again from
/// the state it produced changes nothing — whether the step succeeded (the
/// same value is written twice) or overflowed (the record is untouched
/// twice).
pub proof fn lemma_step_idempotent(s: CalculatorView, v: int)
    ensures
        checked_step(checked_step(s, v), v) == checked_step(s, v),
{
}

} // verus!
