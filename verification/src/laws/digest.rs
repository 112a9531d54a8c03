//! What holds of the comparison of digests.

use crate::digest::{sha256, verdict};
use crate::laws::text::{only_the_case_of_letters_is_ignored, same_letter};
use crate::progress::Verification;
use crate::text::{
    ascii_lower, hex, is_white_space, same_ignoring_ascii_case, trim, trim_end_by, trim_start_by,
};
use vstd::prelude::*;

verus! {

/// Nothing is compared exactly where nothing is expected.
pub proof fn nothing_expected_is_skipped(expected: Option<Seq<char>>, sha256: Seq<char>)
    ensures
        verdict(expected, sha256) == Verification::Skipped <==> expected is None,
{
}

spec fn white() -> spec_fn(char) -> bool {
    |c: char| is_white_space(c)
}

proof fn leading_white_space_is_dropped(before: Seq<char>, s: Seq<char>)
    requires
        forall|i: int| 0 <= i < before.len() ==> is_white_space(#[trigger] before[i]),
    ensures
        trim_start_by(before + s, white()) == trim_start_by(s, white()),
    decreases before.len(),
{
    if before.len() > 0 {
        let rest = before.drop_first();
        assert forall|i: int| 0 <= i < rest.len() implies is_white_space(#[trigger] rest[i]) by {
            assert(is_white_space(before[i + 1]));
        }
        leading_white_space_is_dropped(rest, s);
        assert(is_white_space(before[0]));
        assert((before + s).first() == before[0]);
        assert((before + s).drop_first() == rest + s);
    } else {
        assert(before + s == s);
    }
}

proof fn trailing_white_space_is_dropped(s: Seq<char>, behind: Seq<char>)
    requires
        forall|i: int| 0 <= i < behind.len() ==> is_white_space(#[trigger] behind[i]),
    ensures
        trim_end_by(s + behind, white()) == trim_end_by(s, white()),
    decreases behind.len(),
{
    if behind.len() > 0 {
        let rest = behind.drop_last();
        assert forall|i: int| 0 <= i < rest.len() implies is_white_space(#[trigger] rest[i]) by {
            assert(is_white_space(behind[i]));
        }
        trailing_white_space_is_dropped(s, rest);
        assert(is_white_space(behind[behind.len() - 1]));
        assert((s + behind).drop_last() == s + rest);
    } else {
        assert(s + behind == s);
    }
}

proof fn all_white_space_is_dropped(s: Seq<char>)
    requires
        forall|i: int| 0 <= i < s.len() ==> is_white_space(#[trigger] s[i]),
    ensures
        trim_start_by(s, white()) == Seq::<char>::empty(),
{
    leading_white_space_is_dropped(s, Seq::empty());
    assert(s + Seq::<char>::empty() == s);
}

/// The leading white space is dropped before what follows the text, too.
proof fn start_is_trimmed_alone(s: Seq<char>, behind: Seq<char>)
    requires
        forall|i: int| 0 <= i < behind.len() ==> is_white_space(#[trigger] behind[i]),
    ensures
        trim_end_by(trim_start_by(s + behind, white()), white()) == trim_end_by(
            trim_start_by(s, white()),
            white(),
        ),
    decreases s.len(),
{
    if s.len() == 0 {
        assert(s + behind == behind);
        all_white_space_is_dropped(behind);
        assert(trim_start_by(s, white()) == s);
        assert(s == Seq::<char>::empty());
    } else if is_white_space(s.first()) {
        start_is_trimmed_alone(s.drop_first(), behind);
        assert((s + behind).first() == s.first());
        assert((s + behind).drop_first() == s.drop_first() + behind);
    } else {
        assert((s + behind).first() == s.first());
        assert(trim_start_by(s + behind, white()) == s + behind);
        assert(trim_start_by(s, white()) == s);
        trailing_white_space_is_dropped(s, behind);
    }
}

/// White space around an expected digest does not matter.
pub proof fn white_space_does_not_matter(
    before: Seq<char>,
    expected: Seq<char>,
    behind: Seq<char>,
    sha256: Seq<char>,
)
    requires
        forall|i: int| 0 <= i < before.len() ==> is_white_space(#[trigger] before[i]),
        forall|i: int| 0 <= i < behind.len() ==> is_white_space(#[trigger] behind[i]),
    ensures
        verdict(Some(before + expected + behind), sha256) == verdict(Some(expected), sha256),
{
    assert(before + expected + behind == before + (expected + behind));
    leading_white_space_is_dropped(before, expected + behind);
    start_is_trimmed_alone(expected, behind);
    assert(trim(before + expected + behind) == trim(expected));
}

/// Trimming drops the white space around a text and nothing else.
pub proof fn trimming_drops_the_white_space_around(
    before: Seq<char>,
    core: Seq<char>,
    behind: Seq<char>,
)
    requires
        forall|i: int| 0 <= i < before.len() ==> is_white_space(#[trigger] before[i]),
        forall|i: int| 0 <= i < behind.len() ==> is_white_space(#[trigger] behind[i]),
        core.len() > 0 ==> !is_white_space(core.first()) && !is_white_space(core.last()),
    ensures
        trim(before + core + behind) == core,
{
    assert(before + core + behind == before + (core + behind));
    leading_white_space_is_dropped(before, core + behind);
    start_is_trimmed_alone(core, behind);
}

proof fn starts_are_trimmed_alike(a: Seq<char>, b: Seq<char>)
    requires
        same_ignoring_ascii_case(a, b),
    ensures
        same_ignoring_ascii_case(trim_start_by(a, white()), trim_start_by(b, white())),
    decreases a.len(),
{
    if a.len() > 0 {
        assert(ascii_lower(a[0]) == ascii_lower(b[0]));
        if is_white_space(a.first()) {
            let x = a.drop_first();
            let y = b.drop_first();
            assert forall|i: int| 0 <= i < x.len() implies #[trigger] ascii_lower(x[i])
                == ascii_lower(y[i]) by {
                assert(ascii_lower(a[i + 1]) == ascii_lower(b[i + 1]));
            }
            starts_are_trimmed_alike(x, y);
        }
    }
}

proof fn ends_are_trimmed_alike(a: Seq<char>, b: Seq<char>)
    requires
        same_ignoring_ascii_case(a, b),
    ensures
        same_ignoring_ascii_case(trim_end_by(a, white()), trim_end_by(b, white())),
    decreases a.len(),
{
    if a.len() > 0 {
        assert(ascii_lower(a[a.len() - 1]) == ascii_lower(b[b.len() - 1]));
        if is_white_space(a.last()) {
            let x = a.drop_last();
            let y = b.drop_last();
            assert forall|i: int| 0 <= i < x.len() implies #[trigger] ascii_lower(x[i])
                == ascii_lower(y[i]) by {
                assert(ascii_lower(a[i]) == ascii_lower(b[i]));
            }
            ends_are_trimmed_alike(x, y);
        }
    }
}

/// The case of the letters of an expected digest does not matter.
pub proof fn case_does_not_matter(expected: Seq<char>, other: Seq<char>, sha256: Seq<char>)
    requires
        same_ignoring_ascii_case(expected, other),
    ensures
        verdict(Some(expected), sha256) == verdict(Some(other), sha256),
{
    starts_are_trimmed_alike(expected, other);
    ends_are_trimmed_alike(trim_start_by(expected, white()), trim_start_by(other, white()));
    let x = trim(expected);
    let y = trim(other);
    assert(same_ignoring_ascii_case(x, y));
    if same_ignoring_ascii_case(x, sha256) {
        assert forall|i: int| 0 <= i < y.len() implies #[trigger] ascii_lower(y[i]) == ascii_lower(
            sha256[i],
        ) by {
            assert(ascii_lower(x[i]) == ascii_lower(y[i]));
        }
    }
    if same_ignoring_ascii_case(y, sha256) {
        assert forall|i: int| 0 <= i < x.len() implies #[trigger] ascii_lower(x[i]) == ascii_lower(
            sha256[i],
        ) by {
            assert(ascii_lower(x[i]) == ascii_lower(y[i]));
        }
    }
}

/// There is no white space in the hexadecimal digits of a digest, and a text that holds them, in
/// letters of either case, holds those of another digest exactly where the two are the same.
proof fn a_written_digest_is_compared_digit_by_digit(
    text: Seq<char>,
    expected: Seq<u8>,
    found: Seq<u8>,
)
    requires
        same_ignoring_ascii_case(text, hex(expected)),
    ensures
        trim(hex(expected)) == hex(expected),
        same_ignoring_ascii_case(text, hex(found)) <==> expected == found,
{
    let a = hex(expected);
    let b = hex(found);
    assert forall|i: int| 0 <= i < a.len() implies !is_white_space(#[trigger] a[i]) && ascii_lower(
        a[i],
    ) == a[i] as int by {
        assert(0 <= expected[i / 2] / 16 < 16);
    }
    assert forall|i: int| 0 <= i < b.len() implies ascii_lower(#[trigger] b[i]) == b[i] as int by {
        assert(0 <= found[i / 2] / 16 < 16);
    }
    if a.len() > 0 {
        assert(!is_white_space(a[0]));
        assert(!is_white_space(a[a.len() - 1]));
    }
    assert(trim(a) == a);
    if same_ignoring_ascii_case(text, b) {
        assert forall|k: int| 0 <= k < expected.len() implies expected[k] == found[k] by {
            assert(ascii_lower(text[2 * k]) == ascii_lower(a[2 * k]));
            assert(ascii_lower(text[2 * k + 1]) == ascii_lower(a[2 * k + 1]));
            assert(ascii_lower(text[2 * k]) == ascii_lower(b[2 * k]));
            assert(ascii_lower(text[2 * k + 1]) == ascii_lower(b[2 * k + 1]));
            assert(a[2 * k] == b[2 * k]);
            assert(a[2 * k + 1] == b[2 * k + 1]);
            assert((2 * k) / 2 == k && (2 * k + 1) / 2 == k);
        }
        assert(expected == found);
    }
}

/// A digest written in hexadecimal digits is accepted exactly where it is the one that was found.
pub proof fn a_digest_matches_itself_alone(expected: Seq<u8>, found: Seq<u8>)
    ensures
        verdict(Some(hex(expected)), hex(found)) == Verification::Matched <==> expected == found,
{
    a_written_digest_is_compared_digit_by_digit(hex(expected), expected, found);
}

/// A file is accepted exactly where its SHA-256 digest is the expected one, however that is written:
/// in letters of either case, and with or without white space around it.
pub proof fn a_file_is_accepted_for_its_digest_alone(
    expected: Seq<char>,
    wanted: Seq<u8>,
    content: Seq<u8>,
)
    requires
        same_ignoring_ascii_case(trim(expected), hex(wanted)),
    ensures
        verdict(Some(expected), hex(sha256(content))) == (if wanted == sha256(content) {
            Verification::Matched
        } else {
            Verification::Mismatch
        }),
{
    a_written_digest_is_compared_digit_by_digit(trim(expected), wanted, sha256(content));
}

/// A file with a digest is accepted exactly where the expected text, without the white space around
/// it, has the same length as the digest and in every place the same character, or the same letter of
/// `A` to `Z` in either case. Where it is not accepted it is said to have another digest.
pub proof fn a_digest_is_compared_place_by_place(
    before: Seq<char>,
    core: Seq<char>,
    behind: Seq<char>,
    sha256: Seq<char>,
)
    requires
        forall|i: int| 0 <= i < before.len() ==> is_white_space(#[trigger] before[i]),
        forall|i: int| 0 <= i < behind.len() ==> is_white_space(#[trigger] behind[i]),
        core.len() > 0 ==> !is_white_space(core.first()) && !is_white_space(core.last()),
    ensures
        ({
            let same = core.len() == sha256.len() && forall|i: int|
                0 <= i < core.len() ==> same_letter(#[trigger] core[i], sha256[i]);
            &&& same ==> verdict(Some(before + core + behind), sha256) == Verification::Matched
            &&& !same ==> verdict(Some(before + core + behind), sha256) == Verification::Mismatch
        }),
{
    trimming_drops_the_white_space_around(before, core, behind);
    only_the_case_of_letters_is_ignored(core, sha256);
}

} // verus!
