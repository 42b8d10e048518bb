//! Token amounts and their on-screen form.

use vstd::prelude::*;
use vstd::string::*;
use vstd::arithmetic::power2::{pow2, lemma2_to64, lemma_pow2_strictly_increases};
use crate::text::{all_digits, dec_digits, dec_value, digit_char, group3};
use crate::text::{separate_with_spaces, u64_to_decimal};

verus! {

/// One more than the largest amount that a transaction can carry.
pub open spec fn amount_limit() -> nat {
    pow2(512)
}

/// `s` holds nothing but decimal digits and stands for a number below the
/// limit. The empty run is among them; it stands for zero.
pub open spec fn is_digit_run_within_limit(s: Seq<char>) -> bool {
    all_digits(s) && dec_value(s) < amount_limit()
}

/// `s` is a decimal integer literal for an amount below the limit: at least
/// one decimal digit and nothing else. Leading zeros are accepted.
pub open spec fn is_amount_literal(s: Seq<char>) -> bool {
    s.len() >= 1 && is_digit_run_within_limit(s)
}

/// The on-screen form of `n` motes: digits grouped in threes, then the unit.
pub open spec fn amount_text(n: nat) -> Seq<char> {
    group3(dec_digits(n)) + " motes"@
}

/// The decimal digits of a number are digits.
pub proof fn lemma_dec_digits_are_digits(n: nat)
    ensures
        all_digits(dec_digits(n)),
        dec_digits(n).len() >= 1,
    decreases n,
{
    if n >= 10 {
        lemma_dec_digits_are_digits(n / 10);
    }
}

/// Reading back the decimal digits of a number gives the number.
pub proof fn lemma_dec_value_of_digits(n: nat)
    ensures
        dec_value(dec_digits(n)) == n,
    decreases n,
{
    let d = dec_digits(n);
    if n < 10 {
        assert(d.drop_last() =~= Seq::<char>::empty());
        assert(dec_value(d.drop_last()) == 0);
        assert(d.last() == digit_char(n as int));
    } else {
        lemma_dec_value_of_digits(n / 10);
        assert(d.drop_last() =~= dec_digits(n / 10));
        assert(d.last() == digit_char((n % 10) as int));
    }
}

/// Calls `casper_types::U512::from_dec_str` and renders the number with its
/// `Display` form. The call accepts exactly the runs of decimal digits whose
/// value fits in 512 bits, the empty run included, and the rendering is the
/// value in decimal without leading zeros.
#[verifier::external_body]
fn u512_canonical(s: &str) -> (r: Option<String>)
    ensures
        r.is_some() <==> is_digit_run_within_limit(s@),
        r.is_some() ==> r.unwrap()@ == dec_digits(dec_value(s@)),
{
    match casper_types::U512::from_dec_str(s) {
        Ok(v) => Some(v.to_string()),
        Err(_) => None,
    }
}

/// A non-negative token amount, held as its decimal digits.
pub struct Motes {
    digits: String,
}

impl Motes {
    /// The amount as a number.
    pub closed spec fn value(&self) -> nat {
        dec_value(self.digits@)
    }

    /// The digits are the canonical ones of an amount below the limit.
    pub closed spec fn wf(&self) -> bool {
        &&& self.digits@ == dec_digits(dec_value(self.digits@))
        &&& dec_value(self.digits@) < amount_limit()
    }

    /// Reads an amount from a decimal integer literal; `None` for anything
    /// else, the empty text included, and for a number past the limit.
    pub fn from_dec_str(s: &str) -> (r: Option<Motes>)
        ensures
            r.is_some() <==> is_amount_literal(s@),
            r.is_some() ==> r.unwrap().wf() && r.unwrap().value() == dec_value(s@),
    {
        if s.is_empty() {
            return None;
        }
        match u512_canonical(s) {
            Some(digits) => {
                proof {
                    lemma_dec_value_of_digits(dec_value(s@));
                }
                Some(Motes { digits })
            },
            None => None,
        }
    }

    pub fn from_u64(n: u64) -> (m: Motes)
        ensures
            m.wf(),
            m.value() == n,
    {
        proof {
            lemma_dec_value_of_digits(n as nat);
            lemma2_to64();
            lemma_pow2_strictly_increases(64, 512);
        }
        Motes { digits: u64_to_decimal(n) }
    }
}

/// Renders an amount as its digits in groups of three, then ` motes`.
pub fn format_amount(motes: &Motes) -> (r: String)
    requires
        motes.wf(),
    ensures
        r@ == amount_text(motes.value()),
{
    proof {
        lemma_dec_digits_are_digits(motes.value());
    }
    let grouped = separate_with_spaces(motes.digits.as_str());
    grouped.concat(" motes")
}

} // verus!
