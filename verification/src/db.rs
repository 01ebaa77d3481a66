//! The face of the experimental storage backend. The backend itself is
//! out of scope and stays with the host; this module holds the one piece
//! of its logic that is pure: formatting an on-disk size for display.

use vstd::prelude::*;

verus! {

use vstd::arithmetic::div_mod::{
    lemma_div_is_ordered,
    lemma_div_is_ordered_by_denominator,
    lemma_hoist_over_denominator,
};
use vstd::string::StringExecFns;
use crate::text::{dec_digits, digit_char, digit_str, u64_to_string};

/// Handle for the storage backend; its connections live with the host.
pub struct AtlasDB;

/// `n` hundredths of a unit, written with two decimal places.
pub open spec fn two_dec_digits(h: nat) -> Seq<char> {
    dec_digits(h / 100) + seq!['.', digit_char((h / 10) % 10), digit_char(h % 10)]
}

/// `bytes`, truncated to hundredths of the unit.
pub open spec fn hundredths(bytes: nat, unit: nat) -> nat
    recommends
        unit > 0,
{
    (bytes * 100) / unit
}

pub const BYTES_PER_KB: u64 = 1024;

pub const BYTES_PER_MB: u64 = 1048576;

pub const BYTES_PER_GB: u64 = 1073741824;

/// A byte count for display: two decimal places of the largest unit
/// under a gigabyte that keeps the number small, kilobytes at the
/// smallest.
pub open spec fn format_size_model(bytes: u64) -> Seq<char> {
    if bytes < BYTES_PER_MB {
        two_dec_digits(hundredths(bytes as nat, BYTES_PER_KB as nat)) + " KB"@
    } else if bytes < BYTES_PER_GB {
        two_dec_digits(hundredths(bytes as nat, BYTES_PER_MB as nat)) + " MB"@
    } else {
        two_dec_digits(hundredths(bytes as nat, BYTES_PER_GB as nat)) + " GB"@
    }
}

impl AtlasDB {
    pub fn format_size(bytes: u64) -> (r: String)
        ensures
            r@ == format_size_model(bytes),
    {
        if bytes < BYTES_PER_MB {
            size_with_unit(bytes, BYTES_PER_KB, " KB")
        } else if bytes < BYTES_PER_GB {
            size_with_unit(bytes, BYTES_PER_MB, " MB")
        } else {
            size_with_unit(bytes, BYTES_PER_GB, " GB")
        }
    }
}

fn size_with_unit(bytes: u64, unit: u64, suffix: &str) -> (r: String)
    requires
        BYTES_PER_KB <= unit <= BYTES_PER_GB,
    ensures
        r@ == two_dec_digits(hundredths(bytes as nat, unit as nat)) + suffix@,
{
    let q = bytes / unit;
    let rem = bytes % unit;
    proof {
        lemma_div_is_ordered_by_denominator(bytes as int, BYTES_PER_KB as int, unit as int);
        lemma_div_is_ordered(bytes as int, u64::MAX as int, BYTES_PER_KB as int);
        assert(q <= u64::MAX as int / BYTES_PER_KB as int);
    }
    let h = q * 100 + (rem * 100) / unit;
    proof {
        vstd::arithmetic::div_mod::lemma_fundamental_div_mod(bytes as int, unit as int);
        lemma_hoist_over_denominator((rem * 100) as int, (q * 100) as int, unit as nat);
        assert((rem * 100) as int + (q * 100) as int * unit as int == (bytes * 100) as int)
            by (nonlinear_arith)
            requires
                bytes == unit * q + rem,
        ;
        assert(h == hundredths(bytes as nat, unit as nat));
    }
    let mut r = u64_to_string(h / 100);
    r.append(".");
    r.append(digit_str((h / 10) % 10));
    r.append(digit_str(h % 10));
    r.append(suffix);
    proof {
        reveal_strlit(".");
        assert(r@ =~= two_dec_digits(h as nat) + suffix@);
    }
    r
}

} // verus!
