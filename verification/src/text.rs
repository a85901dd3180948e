//! The fixed byte texts of the protocol, and decimal rendering.
//!
//! The protocol never has a structured error value cross the boundary:
//! failures are encoded as ordinary payload bytes.  This module pins those
//! texts down as byte sequences, together with the decimal rendering of the
//! result codes embedded in them.

use vstd::prelude::*;

verus! {

/// The decimal digits of `n`, most significant first.
pub open spec fn dec_digits(n: nat) -> Seq<u8>
    decreases n,
{
    if n < 10 {
        seq![(48 + n) as u8]
    } else {
        dec_digits(n / 10).push((48 + n % 10) as u8)
    }
}

/// The decimal rendering of `n`, with a leading minus sign when negative.
pub open spec fn dec_bytes(n: int) -> Seq<u8> {
    if n < 0 {
        seq![45u8] + dec_digits((-n) as nat)
    } else {
        dec_digits(n as nat)
    }
}

/// Appends the decimal digits of `n` to `out`.
fn push_digits(n: u32, out: &mut Vec<u8>)
    ensures
        final(out)@ == old(out)@ + dec_digits(n as nat),
    decreases n,
{
    if n < 10 {
        out.push((48 + n) as u8);
        proof {
            assert(out@ =~= old(out)@ + dec_digits(n as nat));
        }
    } else {
        push_digits(n / 10, out);
        out.push((48 + n % 10) as u8);
        proof {
            assert(out@ =~= old(out)@ + dec_digits(n as nat));
        }
    }
}

/// Appends the decimal rendering of `n` to `out`, sign included.
pub fn push_decimal(n: i32, out: &mut Vec<u8>)
    ensures
        final(out)@ == old(out)@ + dec_bytes(n as int),
{
    if n < 0 {
        out.push(45u8);
        let magnitude = (-(n as i64)) as u32;
        push_digits(magnitude, out);
        proof {
            assert(out@ =~= old(out)@ + dec_bytes(n as int));
        }
    } else {
        push_digits(n as u32, out);
    }
}

/// The diagnostic payload substituted when the registered logic yields no
/// value: the literal text `run returned no data`.
pub open spec fn no_data_text() -> Seq<u8> {
    seq![
        114u8, 117u8, 110u8, 32u8, 114u8, 101u8, 116u8, 117u8, 114u8, 110u8,
        101u8, 100u8, 32u8, 110u8, 111u8, 32u8, 100u8, 97u8, 116u8, 97u8,
    ]
}

/// Builds the `run returned no data` payload.
pub fn no_data_payload() -> (r: Vec<u8>)
    ensures
        r@ == no_data_text(),
{
    let v: Vec<u8> = vec![
        114u8, 117u8, 110u8, 32u8, 114u8, 101u8, 116u8, 117u8, 114u8, 110u8,
        101u8, 100u8, 32u8, 110u8, 111u8, 32u8, 100u8, 97u8, 116u8, 97u8,
    ];
    proof {
        assert(v@ =~= no_data_text());
    }
    v
}

/// The payload a failed fetch turns into: `request_failed:` followed by the
/// decimal rendering of the negative host result code.
pub open spec fn request_failed_text(code: int) -> Seq<u8> {
    seq![
        114u8, 101u8, 113u8, 117u8, 101u8, 115u8, 116u8, 95u8, 102u8, 97u8,
        105u8, 108u8, 101u8, 100u8, 58u8,
    ] + dec_bytes(code)
}

/// Builds the `request_failed:<code>` payload.
pub fn request_failed_payload(code: i32) -> (r: Vec<u8>)
    ensures
        r@ == request_failed_text(code as int),
{
    let mut v: Vec<u8> = vec![
        114u8, 101u8, 113u8, 117u8, 101u8, 115u8, 116u8, 95u8, 102u8, 97u8,
        105u8, 108u8, 101u8, 100u8, 58u8,
    ];
    push_decimal(code, &mut v);
    proof {
        assert(v@ =~= request_failed_text(code as int));
    }
    v
}

/// The message logged before a fetch retry: `doubling capacity, need `
/// followed by the size the host reported.
pub open spec fn doubling_text(code: int) -> Seq<u8> {
    seq![
        100u8, 111u8, 117u8, 98u8, 108u8, 105u8, 110u8, 103u8, 32u8, 99u8,
        97u8, 112u8, 97u8, 99u8, 105u8, 116u8, 121u8, 44u8, 32u8, 110u8,
        101u8, 101u8, 100u8, 32u8,
    ] + dec_bytes(code)
}

/// Builds the `doubling capacity, need <code>` message.
pub fn doubling_payload(code: i32) -> (r: Vec<u8>)
    ensures
        r@ == doubling_text(code as int),
{
    let mut v: Vec<u8> = vec![
        100u8, 111u8, 117u8, 98u8, 108u8, 105u8, 110u8, 103u8, 32u8, 99u8,
        97u8, 112u8, 97u8, 99u8, 105u8, 116u8, 121u8, 44u8, 32u8, 110u8,
        101u8, 101u8, 100u8, 32u8,
    ];
    push_decimal(code, &mut v);
    proof {
        assert(v@ =~= doubling_text(code as int));
    }
    v
}

} // verus!
