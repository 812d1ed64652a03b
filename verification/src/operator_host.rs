//! The decisions of the scripted-operator host loop. The host itself —
//! loading the script, calling into the interpreter, publishing — lives
//! outside the library; what it decides on each callback result and how an
//! output message is framed is verified here.

use vstd::prelude::*;

verus! {

/// What the host loop does after one operator callback returned.
#[derive(Clone, Copy, PartialEq, Eq, Structural, Debug)]
pub enum OperatorControl {
    /// Status zero: feed the next input.
    Continue,
    /// Status one: stop the loop and tear the operator down.
    Stop,
    /// Any other status is an error the host reports.
    Invalid,
}

/// The control decision for a callback status code.
pub open spec fn control_of_status(status: i32) -> OperatorControl {
    if status == 0 {
        OperatorControl::Continue
    } else if status == 1 {
        OperatorControl::Stop
    } else {
        OperatorControl::Invalid
    }
}

/// Decides what the host loop does next from the status code an operator
/// callback returned.
pub fn interpret_operator_status(status: i32) -> (c: OperatorControl)
    ensures
        c == control_of_status(status),
{
    if status == 0 {
        OperatorControl::Continue
    } else if status == 1 {
        OperatorControl::Stop
    } else {
        OperatorControl::Invalid
    }
}

/// An output message is the serialized metadata followed by the payload
/// bytes, in that order and nothing else.
pub fn frame_output_message(metadata: &Vec<u8>, data: &Vec<u8>) -> (r: Vec<u8>)
    ensures
        r@ == metadata@ + data@,
{
    let mut out: Vec<u8> = Vec::new();
    let n = metadata.len();
    let mut i: usize = 0;
    while i < n
        invariant
            0 <= i <= n,
            n == metadata@.len(),
            out@ == metadata@.take(i as int),
        decreases n - i,
    {
        out.push(metadata[i]);
        proof {
            assert(metadata@.take(i + 1) =~= metadata@.take(i as int).push(metadata@[i as int]));
        }
        i += 1;
    }
    proof {
        assert(metadata@.take(n as int) =~= metadata@);
    }
    let m = data.len();
    let mut j: usize = 0;
    while j < m
        invariant
            0 <= j <= m,
            m == data@.len(),
            out@ == metadata@ + data@.take(j as int),
        decreases m - j,
    {
        out.push(data[j]);
        proof {
            assert(metadata@ + data@.take(j + 1) =~= (metadata@ + data@.take(j as int)).push(
                data@[j as int],
            ));
        }
        j += 1;
    }
    proof {
        assert(metadata@ + data@.take(m as int) =~= metadata@ + data@);
    }
    out
}

} // verus!
