//! Event-triggered authorization gate.
//!
//! Watches one file for write-completion and, on each such event, runs a
//! configured shell command only if a time-based one-time passcode read from
//! the file's first line is currently valid. This library holds the verified
//! core: the TOTP window computation and membership check, the target-path
//! decomposition, and the pure decision logic of the trigger/verify/execute
//! loop. The blocking filesystem watch, the file reads and the command spawn
//! are performed by the surrounding program, which feeds their results back
//! into the decision functions here.
use vstd::prelude::*;

pub mod gate;
pub mod outcome;
pub mod target;
pub mod totp;

verus! {

/// The default shared secret used when none is configured: the ASCII bytes
/// of the word "secret".
///
/// A well-known default keeps the tool usable with no configuration, and is
/// a security hazard to be aware of: anyone who knows the tool can compute
/// valid codes for an instance left on this default. Supply a real secret.
pub fn default_secret() -> (r: Vec<u8>)
    ensures
        r@ == seq![115u8, 101u8, 99u8, 114u8, 101u8, 116u8],
{
    let mut v: Vec<u8> = Vec::new();
    v.push(115u8);
    v.push(101u8);
    v.push(99u8);
    v.push(114u8);
    v.push(101u8);
    v.push(116u8);
    proof {
        assert(v@ =~= seq![115u8, 101u8, 99u8, 114u8, 101u8, 116u8]);
    }
    v
}

} // verus!
