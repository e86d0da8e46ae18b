use vstd::prelude::*;

use crate::error::{error_from_code, error_from_code_spec, Error};

verus! {

/// Outcome of a raw result pair `(code, value)` read back from registers a0/a1
/// after an ecall: a zero code means success carrying `value`; a nonzero code
/// maps to its error kind, whatever the value.
pub open spec fn sbi_result_spec(code: i64, value: u64) -> Result<u64, Error> {
    if code == 0 {
        Ok(value)
    } else {
        Err(error_from_code_spec(code))
    }
}

/// Result mapping law: a zero error code always decodes to success carrying
/// the value, and a nonzero code always to an error, regardless of the value.
pub proof fn lemma_result_mapping(code: i64, value: u64)
    ensures
        code == 0 ==> sbi_result_spec(code, value) == Ok::<u64, Error>(value),
        code != 0 ==> (sbi_result_spec(code, value) is Err),
{
}

/// Result mapping law over the raw unsigned register values: register a0 holds
/// zero exactly when the signed error code it carries is zero.
pub proof fn lemma_raw_result_mapping(a0: u64, a1: u64)
    ensures
        a0 == 0 ==> sbi_result_spec(a0 as i64, a1) == Ok::<u64, Error>(a1),
        a0 != 0 ==> (sbi_result_spec(a0 as i64, a1) is Err),
{
    assert(a0 != 0 ==> a0 as i64 != 0) by (bit_vector);
}

/// The raw two-register result pair of an ecall.
#[derive(Clone, Copy, Debug, PartialEq, Eq, Structural)]
pub struct SbiReturn {
    /// The signed error code returned in register a0.
    pub error_code: i64,
    /// The return value in register a1.
    pub return_value: u64,
}

impl SbiReturn {
    /// Decodes the raw pair into a typed outcome.
    pub fn to_result(self) -> (r: Result<u64, Error>)
        ensures
            r == sbi_result_spec(self.error_code, self.return_value),
    {
        if self.error_code == 0 {
            Ok(self.return_value)
        } else {
            Err(error_from_code(self.error_code))
        }
    }
}

/// Trait required for a type to be passed via an SBI ecall: it yields the
/// eight register values of its frame, and decodes the two-register result.
pub trait EcallMessage: Sized {
    /// The value this message places in register a7 (the extension id).
    spec fn a7_spec(&self) -> u64;

    /// The value this message places in register a6 (the function id).
    spec fn a6_spec(&self) -> u64;

    /// The value this message places in register a5.
    spec fn a5_spec(&self) -> u64;

    /// The value this message places in register a4.
    spec fn a4_spec(&self) -> u64;

    /// The value this message places in register a3.
    spec fn a3_spec(&self) -> u64;

    /// The value this message places in register a2.
    spec fn a2_spec(&self) -> u64;

    /// The value this message places in register a1.
    spec fn a1_spec(&self) -> u64;

    /// The value this message places in register a0.
    spec fn a0_spec(&self) -> u64;

    /// Returns the register value of a7.
    fn a7(&self) -> (r: u64)
        ensures
            r == self.a7_spec(),
    ;

    /// Returns the register value of a6.
    fn a6(&self) -> (r: u64)
        ensures
            r == self.a6_spec(),
    ;

    /// Returns the register value of a5.
    fn a5(&self) -> (r: u64)
        ensures
            r == self.a5_spec(),
    ;

    /// Returns the register value of a4.
    fn a4(&self) -> (r: u64)
        ensures
            r == self.a4_spec(),
    ;

    /// Returns the register value of a3.
    fn a3(&self) -> (r: u64)
        ensures
            r == self.a3_spec(),
    ;

    /// Returns the register value of a2.
    fn a2(&self) -> (r: u64)
        ensures
            r == self.a2_spec(),
    ;

    /// Returns the register value of a1.
    fn a1(&self) -> (r: u64)
        ensures
            r == self.a1_spec(),
    ;

    /// Returns the register value of a0.
    fn a0(&self) -> (r: u64)
        ensures
            r == self.a0_spec(),
    ;

    /// Returns the result returned from the ecall.  Intended for use after an
    /// SBI message has been handled by the firmware: `a0` carries the signed
    /// error code and `a1` the return value; zero always means success.
    fn result(&self, a0: u64, a1: u64) -> (r: Result<u64, Error>)
        ensures
            r == sbi_result_spec(a0 as i64, a1),
    {
        SbiReturn { error_code: #[verifier::truncate] (a0 as i64), return_value: a1 }.to_result()
    }
}

/// The 8-slot register frame that a message encodes to, slots 0 through 7.
pub open spec fn frame_of<M: EcallMessage>(m: M) -> Seq<u64> {
    seq![
        m.a0_spec(),
        m.a1_spec(),
        m.a2_spec(),
        m.a3_spec(),
        m.a4_spec(),
        m.a5_spec(),
        m.a6_spec(),
        m.a7_spec(),
    ]
}

} // verus!
