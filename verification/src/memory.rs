//! Memory formatting: used and total bytes, each shown in mebibytes with
//! exactly two decimal places, as "<used> MiB / <total> MiB". The
//! two-decimal value is the count of hundredths of a mebibyte nearest to
//! the byte count, ties going to the even count.
use vstd::prelude::*;

use vstd::arithmetic::div_mod::lemma_div_is_ordered;
use vstd::arithmetic::div_mod::lemma_fundamental_div_mod;
use vstd::arithmetic::div_mod::lemma_fundamental_div_mod_converse;
use vstd::arithmetic::div_mod::lemma_mod_multiples_vanish;
use crate::text::spec_dec;
use crate::text::u64_to_string;

verus! {

/// One mebibyte, in bytes.
pub const MIB: u64 = 1048576;

/// `bytes` in hundredths of a mebibyte, rounded to the nearest whole
/// count of hundredths, ties to the even count.
pub open spec fn spec_mib_hundredths(bytes: u64) -> int {
    let q = (bytes as int * 100) / (MIB as int);
    let r = (bytes as int * 100) % (MIB as int);
    if r > MIB as int / 2 || (r == MIB as int / 2 && q % 2 == 1) {
        q + 1
    } else {
        q
    }
}

/// A fraction of hundredths (below one hundred) written as exactly two
/// digits.
pub open spec fn spec_two_digits(f: nat) -> Seq<char> {
    if f < 10 {
        seq!['0'] + spec_dec(f)
    } else {
        spec_dec(f)
    }
}

/// `bytes` as a mebibyte count with exactly two decimal places.
pub open spec fn spec_format_mib(bytes: u64) -> Seq<char> {
    let h = spec_mib_hundredths(bytes);
    spec_dec((h / 100) as nat) + "."@ + spec_two_digits((h % 100) as nat)
}

/// The memory line: used and total bytes, each as a two-decimal
/// mebibyte count.
pub open spec fn spec_format_memory(used: u64, total: u64) -> Seq<char> {
    spec_format_mib(used) + " MiB / "@ + spec_format_mib(total) + " MiB"@
}

/// Renders a byte count as a two-decimal mebibyte count.
pub fn format_mib(bytes: u64) -> (r: String)
    ensures
        r@ == spec_format_mib(bytes),
{
    let whole = bytes / MIB;
    let rem = bytes % MIB;
    proof {
        lemma_div_is_ordered(bytes as int, u64::MAX as int, MIB as int);
        assert(whole <= 17592186044415);
        assert(rem < MIB);
    }
    let rem100 = rem * 100;
    let q_low = rem100 / MIB;
    let r_low = rem100 % MIB;
    proof {
        // bytes * 100 divided by one mebibyte splits into the whole part
        // times one hundred plus the scaled remainder's own quotient.
        let b = bytes as int;
        let m = MIB as int;
        lemma_fundamental_div_mod(b, m);
        lemma_fundamental_div_mod(rem as int * 100, m);
        assert(b * 100 == m * (whole as int * 100 + q_low as int) + r_low as int)
            by (nonlinear_arith)
            requires
                b == m * (whole as int) + rem as int,
                rem as int * 100 == m * (q_low as int) + r_low as int,
        ;
        lemma_fundamental_div_mod_converse(
            b * 100,
            m,
            whole as int * 100 + q_low as int,
            r_low as int,
        );
        assert((b * 100) / m == whole as int * 100 + q_low as int);
        assert((b * 100) % m == r_low as int);
        // The whole part times one hundred is even, so the tie parity is
        // the parity of the scaled remainder's quotient.
        lemma_mod_multiples_vanish(whole as int * 50, q_low as int, 2);
        assert(2 * (whole as int * 50) + q_low as int == whole as int * 100 + q_low as int)
            by (nonlinear_arith)
        ;
        assert((whole as int * 100 + q_low as int) % 2 == q_low as int % 2);
        assert(q_low < 100);
    }
    let mut hundredths = whole * 100 + q_low;
    if r_low > MIB / 2 || (r_low == MIB / 2 && q_low % 2 == 1) {
        hundredths = hundredths + 1;
    }
    proof {
        assert(hundredths as int == spec_mib_hundredths(bytes));
    }
    let whole_part = hundredths / 100;
    let frac_part = hundredths % 100;
    let mut r = u64_to_string(whole_part);
    r.append(".");
    if frac_part < 10 {
        r.append("0");
        proof {
            reveal_strlit("0");
            assert("0"@ =~= seq!['0']);
        }
    }
    let f = u64_to_string(frac_part);
    r.append(f.as_str());
    proof {
        assert(r@ =~= spec_format_mib(bytes));
    }
    r
}

/// Renders used and total memory, in bytes, as the memory line.
pub fn format_memory(used: u64, total: u64) -> (r: String)
    ensures
        r@ == spec_format_memory(used, total),
{
    let mut r = format_mib(used);
    r.append(" MiB / ");
    let t = format_mib(total);
    r.append(t.as_str());
    r.append(" MiB");
    proof {
        assert(r@ =~= spec_format_memory(used, total));
    }
    r
}

} // verus!
