//! What holds of numbers written in digits, and of the comparison of texts.

use crate::text::{ascii_lower, decimal, digit, hex, hex_digit, same_ignoring_ascii_case};
use vstd::prelude::*;

verus! {

/// The number that decimal digits stand for.
pub open spec fn number_of(digits: Seq<char>) -> int
    decreases digits.len(),
{
    if digits.len() == 0 {
        0
    } else {
        10 * number_of(digits.drop_last()) + (digits.last() as int - '0' as int)
    }
}

/// A number is written in decimal digits that read back as the number, without a zero in front.
pub proof fn a_number_is_read_back(n: nat)
    ensures
        number_of(decimal(n)) == n,
        decimal(n).len() > 0,
        decimal(n).len() > 1 ==> decimal(n)[0] != '0',
        forall|i: int| 0 <= i < decimal(n).len() ==> '0' <= #[trigger] decimal(n)[i] <= '9',
    decreases n,
{
    if n < 10 {
        assert(decimal(n) == seq![digit(n)]);
        assert(decimal(n).drop_last().len() == 0);
        assert(number_of(decimal(n).drop_last()) == 0);
        assert(decimal(n).last() == digit(n));
    } else {
        a_number_is_read_back(n / 10);
        let shorter = decimal(n / 10);
        assert(decimal(n) == shorter.push(digit(n % 10)));
        assert(decimal(n).drop_last() == shorter);
        assert(decimal(n).last() == digit(n % 10));
        assert(decimal(n)[0] == shorter[0]);
        if shorter.len() == 1 && shorter[0] == '0' {
            assert(shorter.drop_last().len() == 0);
            assert(number_of(shorter.drop_last()) == 0);
            assert(number_of(shorter) == 0);
        }
    }
}

/// The number that a lower-case hexadecimal digit stands for.
pub open spec fn number_of_hex_digit(c: char) -> int {
    if '0' <= c <= '9' {
        c as int - '0' as int
    } else {
        c as int - 'a' as int + 10
    }
}

/// Every byte is written in two lower-case hexadecimal digits that read back as the byte, the bytes
/// in their order.
pub proof fn bytes_are_read_back(data: Seq<u8>)
    ensures
        hex(data).len() == 2 * data.len(),
        forall|i: int|
            0 <= i < hex(data).len() ==> '0' <= #[trigger] hex(data)[i] <= '9' || 'a' <= hex(data)[i]
                <= 'f',
        forall|k: int|
            0 <= k < data.len() ==> #[trigger] data[k] as int == 16 * number_of_hex_digit(
                hex(data)[2 * k],
            ) + number_of_hex_digit(hex(data)[2 * k + 1]),
{
    assert forall|i: int| 0 <= i < hex(data).len() implies '0' <= #[trigger] hex(data)[i] <= '9'
        || 'a' <= hex(data)[i] <= 'f' by {
        assert(0 <= data[i / 2] / 16 < 16);
    }
    assert forall|k: int| 0 <= k < data.len() implies #[trigger] data[k] as int == 16
        * number_of_hex_digit(hex(data)[2 * k]) + number_of_hex_digit(hex(data)[2 * k + 1]) by {
        let b = data[k] as int;
        assert((2 * k) / 2 == k && (2 * k + 1) / 2 == k);
        assert(hex(data)[2 * k] == hex_digit(b / 16));
        assert(hex(data)[2 * k + 1] == hex_digit(b % 16));
        assert(0 <= b / 16 < 16 && 0 <= b % 16 < 16);
    }
}

/// The two digits of one byte, and no others, are what `push_hex` appends for it.
pub proof fn a_byte_is_read_back(byte: u8)
    ensures
        ({
            let high = hex_digit(byte as int / 16);
            let low = hex_digit(byte as int % 16);
            &&& '0' <= high <= '9' || 'a' <= high <= 'f'
            &&& '0' <= low <= '9' || 'a' <= low <= 'f'
            &&& byte as int == 16 * number_of_hex_digit(high) + number_of_hex_digit(low)
        }),
{
    assert(0 <= byte as int / 16 < 16);
}

/// Whether two characters are the same, or the same letter of `A` to `Z` in either case.
pub open spec fn same_letter(a: char, b: char) -> bool {
    ||| a == b
    ||| 'A' <= a <= 'Z' && b as int - a as int == 'a' as int - 'A' as int
    ||| 'A' <= b <= 'Z' && a as int - b as int == 'a' as int - 'A' as int
}

/// Two texts are the same but for case exactly where they have the same length and in every place
/// the same character, or the same letter of `A` to `Z` in either case.
pub proof fn only_the_case_of_letters_is_ignored(a: Seq<char>, b: Seq<char>)
    ensures
        same_ignoring_ascii_case(a, b) <==> a.len() == b.len() && forall|i: int|
            0 <= i < a.len() ==> same_letter(#[trigger] a[i], b[i]),
{
    if same_ignoring_ascii_case(a, b) {
        assert forall|i: int| 0 <= i < a.len() implies same_letter(#[trigger] a[i], b[i]) by {
            assert(ascii_lower(a[i]) == ascii_lower(b[i]));
        }
    }
    if a.len() == b.len() && forall|i: int| 0 <= i < a.len() ==> same_letter(#[trigger] a[i], b[i]) {
        assert forall|i: int| 0 <= i < a.len() implies #[trigger] ascii_lower(a[i]) == ascii_lower(
            b[i],
        ) by {
            assert(same_letter(a[i], b[i]));
        }
    }
}

} // verus!
