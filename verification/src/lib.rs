//! Encoder/decoder library for the Pelco D protocol, a byte-oriented serial
//! command protocol used to control pan-tilt-zoom cameras.
//!
//! * [`Message`] is the 7-byte, checksummed control frame, built directly,
//!   through the convenience constructors for the protocol's extended
//!   commands, or incrementally with [`MessageBuilder`].
//!
//! * [`Response`] classifies and validates the reply frames a device sends
//!   back, by their length alone.

use vstd::prelude::*;

pub mod error;
pub mod message;
pub mod response;

pub use error::Error;
pub use message::{
    AdjustmentValue, AutoCtrl, Command1, Command2, Direction, FocusSpeed, Message, MessageBuilder,
    OnOff, ShutterSpeed, ZoomSpeed,
};
pub use response::{Response, ResponseKind};

verus! {

/// Sum of all bytes of a sequence, as a mathematical integer.
pub open spec fn sum_of_bytes(s: Seq<u8>) -> int
    decreases s.len(),
{
    if s.len() == 0 {
        0
    } else {
        sum_of_bytes(s.drop_last()) + s.last()
    }
}

/// The Pelco D checksum of a byte sequence: the sum of the bytes, reduced
/// modulo 256.
pub open spec fn spec_checksum(s: Seq<u8>) -> u8 {
    (sum_of_bytes(s) % 256) as u8
}

/// Appending one byte adds it to the sum.
proof fn lemma_sum_of_bytes_push(s: Seq<u8>, b: u8)
    ensures
        sum_of_bytes(s.push(b)) == sum_of_bytes(s) + b,
{
    assert(s.push(b).drop_last() =~= s);
}

/// Checksum algorithm used by Pelco D: the low 8 bits of the sum of all the
/// input bytes.
pub fn checksum(data: &[u8]) -> (r: u8)
    ensures
        r == spec_checksum(data@),
{
    let mut acc: u8 = 0;
    let mut i: usize = 0;
    while i < data.len()
        invariant
            i <= data@.len(),
            acc == sum_of_bytes(data@.subrange(0, i as int)) % 256,
        decreases data@.len() - i,
    {
        let b = data[i];
        proof {
            let prefix = data@.subrange(0, i as int);
            assert(data@.subrange(0, i + 1) =~= prefix.push(data@[i as int]));
            lemma_sum_of_bytes_push(prefix, data@[i as int]);
            vstd::arithmetic::div_mod::lemma_add_mod_noop(sum_of_bytes(prefix), b as int, 256);
            vstd::arithmetic::div_mod::lemma_small_mod(b as nat, 256);
        }
        acc = (((acc as u16) + (b as u16)) % 256) as u8;
        i = i + 1;
    }
    proof {
        assert(data@.subrange(0, data@.len() as int) =~= data@);
    }
    acc
}

} // verus!
