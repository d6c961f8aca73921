//! Satoshi amounts and their fixed-precision Bitcoin rendering.
//!
//! An amount is a plain count of satoshis. It renders as a decimal Bitcoin
//! value: the whole-Bitcoin part (one satoshi unit is 10^-8 Bitcoin),
//! a dot, and exactly eight fractional digits.

use vstd::prelude::*;

use crate::digits::{
    dec_digits, dec_digits_pad, lemma_dec_digits_pad_val, lemma_dec_digits_val, pow10,
    u64_to_decimal, u64_to_decimal_pad,
};

verus! {

/// Satoshis per whole Bitcoin.
pub const SATS_PER_BTC: u64 = 100_000_000;

/// The rendering of `sats` as a decimal Bitcoin amount: whole part, a dot,
/// and an eight-digit zero-padded fraction.
pub open spec fn btc_text(sats: u64) -> Seq<char> {
    dec_digits((sats as nat) / (SATS_PER_BTC as nat)) + seq!['.'] + dec_digits_pad(
        (sats as nat) % (SATS_PER_BTC as nat),
        8,
    )
}

/// A count of satoshis, displayed as a decimal Bitcoin amount.
#[derive(Clone, Copy, Debug, PartialEq, Eq, Structural)]
pub struct Bitcoin {
    pub sats: u64,
}

impl Bitcoin {
    /// Wraps a satoshi count.
    pub fn from_sats(sats: u64) -> (b: Bitcoin)
        ensures
            b.sats == sats,
    {
        Bitcoin { sats }
    }

    /// The wrapped satoshi count.
    pub fn sats(&self) -> (s: u64)
        ensures
            s == self.sats,
    {
        self.sats
    }

    /// Renders the amount as a decimal Bitcoin value with eight fractional
    /// digits.
    pub fn to_text(&self) -> (s: String)
        ensures
            s@ == btc_text(self.sats),
    {
        proof {
            reveal_strlit(".");
        }
        let whole = self.sats / SATS_PER_BTC;
        let frac = self.sats % SATS_PER_BTC;
        let mut s = u64_to_decimal(whole);
        s.append(".");
        let fs = u64_to_decimal_pad(frac, 8);
        s.append(fs.as_str());
        proof {
            assert(s@ =~= btc_text(self.sats));
        }
        s
    }
}

/// Eight digits of fraction cover every remainder of a whole Bitcoin.
proof fn lemma_pow10_8()
    ensures
        pow10(8) == SATS_PER_BTC,
{
    reveal_with_fuel(pow10, 9);
}

/// The rendering is injective: two satoshi counts with the same rendering
/// are the same count.
pub proof fn lemma_btc_text_injective(a: u64, b: u64)
    ensures
        btc_text(a) == btc_text(b) ==> a == b,
{
    if btc_text(a) == btc_text(b) {
        let e8 = SATS_PER_BTC as nat;
        let wa = (a as nat) / e8;
        let fa = (a as nat) % e8;
        let wb = (b as nat) / e8;
        let fb = (b as nat) % e8;
        lemma_pow10_8();
        lemma_dec_digits_val(wa);
        lemma_dec_digits_val(wb);
        lemma_dec_digits_pad_val(fa, 8);
        lemma_dec_digits_pad_val(fb, 8);
        let sa = btc_text(a);
        let sb = btc_text(b);
        assert(sa.len() == dec_digits(wa).len() + 9);
        assert(sb.len() == dec_digits(wb).len() + 9);
        assert(dec_digits(wa).len() == dec_digits(wb).len());
        let k = dec_digits(wa).len() as int;
        assert(dec_digits(wa) =~= dec_digits(wb)) by {
            assert(forall|i: int| 0 <= i < k ==> sa[i] == #[trigger] dec_digits(wa)[i]);
            assert(forall|i: int| 0 <= i < k ==> sb[i] == #[trigger] dec_digits(wb)[i]);
        }
        assert(dec_digits_pad(fa, 8) =~= dec_digits_pad(fb, 8)) by {
            assert(forall|i: int|
                0 <= i < 8 ==> sa[k + 1 + i] == #[trigger] dec_digits_pad(fa, 8)[i]);
            assert(forall|i: int|
                0 <= i < 8 ==> sb[k + 1 + i] == #[trigger] dec_digits_pad(fb, 8)[i]);
        }
        assert(wa == wb && fa == fb);
        assert(a as nat == wa * e8 + fa) by (nonlinear_arith)
            requires
                e8 > 0,
                wa == (a as nat) / e8,
                fa == (a as nat) % e8,
        ;
        assert(b as nat == wb * e8 + fb) by (nonlinear_arith)
            requires
                e8 > 0,
                wb == (b as nat) / e8,
                fb == (b as nat) % e8,
        ;
    }
}

} // verus!
