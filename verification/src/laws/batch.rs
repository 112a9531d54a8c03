//! What holds of the progress of a batch.

use crate::batch::{
    all_settled, all_sized, count, mismatches, received_sum, settled_are_counted_once, shown,
    size_of, size_sum, sums_fit, BatchProgress,
};
use crate::download::DownloadState;
use crate::progress::{Progress, Verification};
use vstd::prelude::*;

verus! {

proof fn settled_sizes_have_arrived(s: Seq<Progress>)
    requires
        all_settled(s),
        all_sized(s),
    ensures
        size_sum(s) == received_sum(s),
    decreases s.len(),
{
    if s.len() > 0 {
        let shorter = s.drop_last();
        assert forall|i: int| 0 <= i < shorter.len() implies (#[trigger] shorter[i]).settled() by {
            assert(s[i].settled());
        }
        assert forall|i: int| 0 <= i < shorter.len() implies #[trigger] size_of(
            shorter[i],
        ) is Some by {
            assert(size_of(s[i]) is Some);
        }
        settled_sizes_have_arrived(shorter);
        assert(s[s.len() - 1].settled());
        assert(size_of(s[s.len() - 1]) is Some);
    }
}

/// The counts of a batch never exceed its files.
pub proof fn counts_are_within_the_files(p: BatchProgress, s: Seq<Progress>)
    requires
        p.sums_up(s),
    ensures
        p.settled_count() <= p.files,
{
    settled_are_counted_once(s);
}

/// A batch with files has a share between none and all, and one without files has no share.
pub proof fn a_share_is_at_most_one(p: BatchProgress, s: Seq<Progress>)
    requires
        p.sums_up(s),
    ensures
        p.share() is Some <==> p.files > 0,
        p.share() is Some ==> p.share()->0.denominator > 0,
        p.share() is Some ==> p.share()->0.numerator <= p.share()->0.denominator,
{
    settled_are_counted_once(s);
}

/// A batch whose downloads are all settled is shown as whole.
pub proof fn a_complete_batch_is_whole(p: BatchProgress, s: Seq<Progress>)
    requires
        p.sums_up(s),
        p.files > 0,
        p.settled_count() == p.files,
    ensures
        p.share() is Some,
        p.share()->0.numerator == p.share()->0.denominator,
{
    settled_are_counted_once(s);
    if p.bytes_total is Some {
        settled_sizes_have_arrived(s);
    }
}

/// All of the downloads satisfy a condition exactly where they are all counted, and none does
/// exactly where none is counted.
proof fn all_or_none_are_counted(s: Seq<Progress>, holds: spec_fn(Progress) -> bool)
    ensures
        count(s, holds) <= s.len(),
        count(s, holds) == s.len() <==> forall|i: int| 0 <= i < s.len() ==> holds(#[trigger] s[i]),
        count(s, holds) == 0 <==> forall|i: int| 0 <= i < s.len() ==> !holds(#[trigger] s[i]),
    decreases s.len(),
{
    if s.len() > 0 {
        let shorter = s.drop_last();
        all_or_none_are_counted(shorter, holds);
        assert forall|i: int| 0 <= i < s.len() implies #[trigger] s[i] == if i < shorter.len() {
            shorter[i]
        } else {
            s.last()
        } by {}
        assert forall|i: int| 0 <= i < shorter.len() implies #[trigger] shorter[i] == s[i] by {}
        assert(s[s.len() - 1] == s.last());
    }
}

/// The files of a batch are all done exactly where there are files and each is done and none has
/// another digest than the expected one.
pub proof fn all_done_means_downloaded_and_verified(p: BatchProgress, s: Seq<Progress>)
    requires
        p.sums_up(s),
    ensures
        p.files > 0 && p.done == p.files && p.mismatched == 0 <==> s.len() > 0 && forall|i: int|
            0 <= i < s.len() ==> (#[trigger] s[i]) is Done && s[i]->Done_0.verified
                != Verification::Mismatch,
{
    all_or_none_are_counted(s, |q: Progress| q is Done);
    all_or_none_are_counted(s, |q: Progress| mismatches(q));
    if p.done == p.files && p.mismatched == 0 {
        assert forall|i: int| 0 <= i < s.len() implies (#[trigger] s[i]) is Done
            && s[i]->Done_0.verified != Verification::Mismatch by {
            assert(!mismatches(s[i]));
        }
    }
}

/// A batch whose downloads are all done is complete, with all its bytes received.
pub proof fn a_batch_of_done_files_is_complete(p: BatchProgress, s: Seq<Progress>)
    requires
        p.sums_up(s),
        p.done == p.files,
    ensures
        p.settled_count() == p.files,
        p.bytes_total == Some(p.bytes_received),
{
    all_or_none_are_counted(s, |q: Progress| q is Done);
    settled_are_counted_once(s);
    assert forall|i: int| 0 <= i < s.len() implies #[trigger] size_of(s[i]) is Some by {
        assert(s[i] is Done);
    }
    settled_sizes_have_arrived(s);
}

/// Only what is done can have another digest than the expected one.
pub proof fn mismatches_are_done(s: Seq<Progress>)
    ensures
        count(s, |p: Progress| mismatches(p)) <= count(s, |p: Progress| p is Done),
    decreases s.len(),
{
    if s.len() > 0 {
        mismatches_are_done(s.drop_last());
    }
}

/// The bytes that a download has received, as it is shown.
pub open spec fn arrived(p: Progress) -> nat {
    match p {
        Progress::Downloading { received, .. } => received as nat,
        Progress::Paused { received, .. } => received as nat,
        Progress::Done(outcome) => outcome.bytes as nat,
        Progress::Queued => 0,
        Progress::Verifying => 0,
        Progress::Failed(_) => 0,
        Progress::Cancelled => 0,
    }
}

/// The bytes that a download will have received, as far as what is shown tells it.
pub open spec fn expected(p: Progress) -> Option<u64> {
    match p {
        Progress::Downloading { total, .. } => total,
        Progress::Paused { total, .. } => total,
        Progress::Done(outcome) => Some(outcome.bytes),
        Progress::Cancelled => Some(0),
        Progress::Queued => None,
        Progress::Verifying => None,
        Progress::Failed(_) => None,
    }
}

proof fn one_more_is_known(s: Seq<Progress>, p: Progress)
    ensures
        all_sized(s.push(p)) <==> all_sized(s) && size_of(p) is Some,
{
    let longer = s.push(p);
    if all_sized(longer) {
        assert forall|i: int| 0 <= i < s.len() implies #[trigger] size_of(s[i]) is Some by {
            assert(size_of(longer[i]) is Some);
        }
        assert(size_of(longer[s.len() as int]) is Some);
    }
    if all_sized(s) && size_of(p) is Some {
        assert forall|i: int| 0 <= i < longer.len() implies #[trigger] size_of(
            longer[i],
        ) is Some by {
            if i < s.len() {
                assert(size_of(s[i]) is Some);
            }
        }
    }
}

/// A batch without downloads has nothing to count, and its total is known.
pub proof fn an_empty_batch_counts_nothing(p: BatchProgress)
    requires
        p.sums_up(Seq::empty()),
    ensures
        p.files == 0,
        p.done == 0,
        p.mismatched == 0,
        p.failed == 0,
        p.cancelled == 0,
        p.bytes_received == 0,
        p.bytes_total == Some(0u64),
        p.speeds@.len() == 0,
{
    assert(all_sized(Seq::empty()));
}

/// How one more download changes the progress of a batch. It is one more file, and counts as done,
/// failed or cancelled where it is, and as mismatched where it is done with another digest than the
/// expected one. What it has received is added to the bytes received, whether or not its total is
/// known. The total of the batch grows by its own, and is lost where that is not known. A transfer
/// adds its speed.
pub proof fn one_more_download_is_added(
    p: BatchProgress,
    q: BatchProgress,
    s: Seq<Progress>,
    x: Progress,
)
    requires
        p.sums_up(s),
        q.sums_up(s.push(x)),
    ensures
        q.files == p.files + 1,
        q.done == p.done + if x is Done {
            1int
        } else {
            0int
        },
        q.mismatched == p.mismatched + if x is Done && x->Done_0.verified
            == Verification::Mismatch {
            1int
        } else {
            0int
        },
        q.failed == p.failed + if x is Failed {
            1int
        } else {
            0int
        },
        q.cancelled == p.cancelled + if x is Cancelled {
            1int
        } else {
            0int
        },
        q.bytes_received == p.bytes_received + arrived(x),
        x matches Progress::Downloading { received, .. } ==> q.bytes_received == p.bytes_received
            + received,
        x matches Progress::Paused { received, .. } ==> q.bytes_received == p.bytes_received
            + received,
        q.bytes_total is Some <==> p.bytes_total is Some && expected(x) is Some,
        q.bytes_total is Some ==> q.bytes_total->0 == p.bytes_total->0 + expected(x)->0,
        q.speeds@ == if x is Downloading {
            p.speeds@.push(x->speed)
        } else {
            p.speeds@
        },
{
    assert(s.push(x).drop_last() == s);
    one_more_is_known(s, x);
}

/// What a batch has received does not depend on any total: two batches whose downloads have received
/// the same have received the same.
pub proof fn totals_do_not_matter_for_what_arrived(
    p: BatchProgress,
    q: BatchProgress,
    s: Seq<Progress>,
    t: Seq<Progress>,
)
    requires
        p.sums_up(s),
        q.sums_up(t),
        s.len() == t.len(),
        forall|i: int| 0 <= i < s.len() ==> #[trigger] arrived(s[i]) == arrived(t[i]),
    ensures
        p.bytes_received == q.bytes_received,
{
    the_same_arrived(s, t);
}

proof fn the_same_arrived(s: Seq<Progress>, t: Seq<Progress>)
    requires
        s.len() == t.len(),
        forall|i: int| 0 <= i < s.len() ==> #[trigger] arrived(s[i]) == arrived(t[i]),
    ensures
        received_sum(s) == received_sum(t),
    decreases s.len(),
{
    if s.len() > 0 {
        let a = s.drop_last();
        let b = t.drop_last();
        assert forall|i: int| 0 <= i < a.len() implies #[trigger] arrived(a[i]) == arrived(b[i]) by {
            assert(arrived(s[i]) == arrived(t[i]));
        }
        the_same_arrived(a, b);
        assert(arrived(s[s.len() - 1]) == arrived(t[t.len() - 1]));
    }
}

/// One more download leaves the sums of a batch countable exactly where the bytes received still are
/// and the total still is, or is lost. A batch without downloads can always be counted.
pub proof fn one_more_download_can_be_counted(p: BatchProgress, s: Seq<Progress>, x: Progress)
    requires
        p.sums_up(s),
        sums_fit(s),
    ensures
        sums_fit(Seq::empty()),
        sums_fit(s.push(x)) <==> p.bytes_received + arrived(x) <= u64::MAX && (p.bytes_total is Some
            && expected(x) is Some ==> p.bytes_total->0 + expected(x)->0 <= u64::MAX),
{
    let none = Seq::<Progress>::empty();
    assert forall|n: int| 0 <= n <= none.len() && all_sized(#[trigger] none.take(n)) implies size_sum(
        none.take(n),
    ) <= u64::MAX by {
        assert(none.take(n).len() == 0);
    }
    let longer = s.push(x);
    assert(longer.drop_last() == s);
    one_more_is_known(s, x);
    assert(longer.take(longer.len() as int) == longer);
    assert forall|n: int| 0 <= n <= s.len() implies #[trigger] longer.take(n) == s.take(n) by {}
    assert(sums_fit(longer) ==> (all_sized(longer) ==> size_sum(longer) <= u64::MAX));
    if received_sum(longer) <= u64::MAX && (all_sized(longer) ==> size_sum(longer) <= u64::MAX) {
        assert forall|n: int| 0 <= n <= longer.len() && all_sized(
            #[trigger] longer.take(n),
        ) implies size_sum(longer.take(n)) <= u64::MAX by {
            if n <= s.len() {
                assert(longer.take(n) == s.take(n));
            }
        }
    }
}

/// A batch can be counted only where a smaller part of it can.
pub proof fn fewer_downloads_can_be_counted(s: Seq<Progress>, x: Progress)
    requires
        sums_fit(s.push(x)),
    ensures
        sums_fit(s),
{
    let longer = s.push(x);
    assert(longer.drop_last() == s);
    assert forall|n: int| 0 <= n <= s.len() && all_sized(#[trigger] s.take(n)) implies size_sum(
        s.take(n),
    ) <= u64::MAX by {
        assert(longer.take(n) == s.take(n));
    }
}

/// The share of a batch is that of its bytes where their total is known and not zero, and never more
/// than all of them; else it is that of its files that are done, failed or cancelled.
pub proof fn a_share_is_of_bytes_or_of_files(p: BatchProgress)
    requires
        p.done + p.failed + p.cancelled <= p.files,
    ensures
        p.bytes_total is Some && p.bytes_total->0 > 0 ==> {
            &&& p.share() is Some
            &&& p.share()->0.denominator == p.bytes_total->0
            &&& p.bytes_received <= p.bytes_total->0 ==> p.share()->0.numerator == p.bytes_received
            &&& p.bytes_received >= p.bytes_total->0 ==> p.share()->0.numerator
                == p.bytes_total->0
        },
        (p.bytes_total is None || p.bytes_total->0 == 0) && p.files > 0 ==> {
            &&& p.share() is Some
            &&& p.share()->0.denominator == p.files
            &&& p.share()->0.numerator == p.done + p.failed + p.cancelled
        },
        (p.bytes_total is None || p.bytes_total->0 == 0) && p.files == 0 ==> p.share() is None,
{
}

/// The settled downloads of a batch are those that are done, failed or cancelled: one more counts
/// exactly where it is one of these.
pub proof fn one_more_download_is_settled(
    p: BatchProgress,
    q: BatchProgress,
    s: Seq<Progress>,
    x: Progress,
)
    requires
        p.sums_up(s),
        q.sums_up(s.push(x)),
    ensures
        p.settled_count() == p.done + p.failed + p.cancelled,
        x is Done || x is Failed || x is Cancelled ==> q.settled_count() == p.settled_count() + 1,
        x is Queued || x is Downloading || x is Paused || x is Verifying ==> q.settled_count()
            == p.settled_count(),
        x.settled() <==> x is Done || x is Failed || x is Cancelled,
{
    one_more_download_is_added(p, q, s, x);
}

/// All downloads of a batch are settled exactly where each is done, failed or cancelled.
pub proof fn all_are_settled_where_each_is(s: Seq<Progress>)
    ensures
        all_settled(s) <==> forall|i: int|
            0 <= i < s.len() ==> (#[trigger] s[i]) is Done || s[i] is Failed || s[i] is Cancelled,
{
    if forall|i: int|
        0 <= i < s.len() ==> (#[trigger] s[i]) is Done || s[i] is Failed || s[i] is Cancelled {
        assert forall|i: int| 0 <= i < s.len() implies (#[trigger] s[i]).settled() by {}
    }
    if all_settled(s) {
        assert forall|i: int| 0 <= i < s.len() implies (#[trigger] s[i]) is Done || s[i] is Failed
            || s[i] is Cancelled by {
            assert(s[i].settled());
        }
    }
}

/// What is shown of a batch is what is shown of each of its downloads, in their order.
pub proof fn a_batch_shows_its_downloads(s: Seq<DownloadState>)
    ensures
        shown(s).len() == s.len(),
        forall|i: int| 0 <= i < s.len() ==> #[trigger] shown(s)[i] == s[i].progress,
{
}

} // verus!
