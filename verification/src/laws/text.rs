//! Laws on written numbers.
use vstd::prelude::*;
use crate::text::{decimal, decimal_text, digit_char, digits_value, is_digit, unsigned_value};

verus! {

/// Whether a text is a number written in decimal digits: digits alone, without a
/// leading zero, that read as the number.
pub open spec fn is_numeral(text: Seq<char>, n: nat) -> bool {
    &&& text.len() > 0
    &&& forall|i: int| 0 <= i < text.len() ==> '0' <= #[trigger] text[i] <= '9'
    &&& text.len() > 1 ==> text[0] != '0'
    &&& digits_value(text) == n
}

/// Every number is written in decimal digits.
pub proof fn law_numbers_are_written_in_digits(n: nat)
    ensures
        is_numeral(decimal(n), n),
        n > 0 ==> decimal(n)[0] != '0',
    decreases n,
{
    if n < 10 {
        assert(decimal(n) == seq![digit_char(n)]);
        assert(decimal(n).drop_last() =~= Seq::empty());
        assert(decimal(n).last() == digit_char(n));
        assert(digits_value(decimal(n).drop_last()) == 0);
    } else {
        law_numbers_are_written_in_digits(n / 10);
        let shorter = decimal(n / 10);
        assert(decimal(n).drop_last() =~= shorter);
        assert(decimal(n).last() == digit_char(n % 10));
        assert(decimal(n)[0] == shorter[0]);
        assert forall|i: int| 0 <= i < decimal(n).len() implies '0' <= #[trigger] decimal(n)[i]
            <= '9' by {
            if i < shorter.len() {
                assert(decimal(n)[i] == shorter[i]);
            }
        }
        assert(digits_value(decimal(n)) == digits_value(shorter) * 10 + n % 10);
    }
}

/// A number is written so that it reads back as itself.
pub proof fn law_a_written_number_reads_back(n: u64, r: String)
    requires
        call_ensures(decimal_text, (n,), r),
    ensures
        is_numeral(r@, n as nat),
        unsigned_value(r@, u64::MAX as nat) == Some(n as nat),
{
    law_numbers_are_written_in_digits(n as nat);
    assert(r@[0] != '+');
    assert forall|i: int| 0 <= i < r@.len() implies is_digit(#[trigger] r@[i]) by {}
}

} // verus!
