//! Several downloads taken as one.

use crate::download::{Download, DownloadState};
use crate::progress::{Progress, Ratio, Verification};
use crate::speed::Speed;
use vstd::prelude::*;

verus! {

/// How many of the downloads satisfy a condition.
pub open spec fn count(s: Seq<Progress>, holds: spec_fn(Progress) -> bool) -> nat
    decreases s.len(),
{
    if s.len() == 0 {
        0
    } else {
        count(s.drop_last(), holds) + if holds(s.last()) {
            1nat
        } else {
            0nat
        }
    }
}

/// Whether a download is done and does not have the expected digest.
pub open spec fn mismatches(p: Progress) -> bool {
    p is Done && p->Done_0.verified == Verification::Mismatch
}

/// The bytes that have arrived, all downloads together.
pub open spec fn received_sum(s: Seq<Progress>) -> nat
    decreases s.len(),
{
    if s.len() == 0 {
        0
    } else {
        received_sum(s.drop_last()) + s.last().received_bytes() as nat
    }
}

/// What a download adds to the bytes of a batch. A cancelled one adds nothing; nothing is known
/// of one that failed, waits or is being verified.
pub open spec fn size_of(p: Progress) -> Option<u64> {
    match p {
        Progress::Done(outcome) => Some(outcome.bytes),
        Progress::Downloading { total, .. } => total,
        Progress::Paused { total, .. } => total,
        Progress::Cancelled => Some(0),
        Progress::Failed(_) => None,
        Progress::Queued => None,
        Progress::Verifying => None,
    }
}

/// Whether the size of every download is known.
pub open spec fn all_sized(s: Seq<Progress>) -> bool {
    forall|i: int| 0 <= i < s.len() ==> #[trigger] size_of(s[i]) is Some
}

/// The sizes of all downloads together.
pub open spec fn size_sum(s: Seq<Progress>) -> nat
    decreases s.len(),
{
    if s.len() == 0 {
        0
    } else {
        size_sum(s.drop_last()) + match size_of(s.last()) {
            Some(size) => size as nat,
            None => 0nat,
        }
    }
}

/// The speeds of the running transfers, in the order of the downloads.
pub open spec fn running_speeds(s: Seq<Progress>) -> Seq<Speed>
    decreases s.len(),
{
    if s.len() == 0 {
        Seq::empty()
    } else {
        match s.last() {
            Progress::Downloading { speed, .. } => running_speeds(s.drop_last()).push(speed),
            _ => running_speeds(s.drop_last()),
        }
    }
}

/// Whether the sums over a batch can be counted: the bytes that have arrived, and the sizes up to
/// the first one that is not known.
pub open spec fn sums_fit(s: Seq<Progress>) -> bool {
    &&& received_sum(s) <= u64::MAX
    &&& forall|n: int|
        0 <= n <= s.len() && all_sized(#[trigger] s.take(n)) ==> size_sum(s.take(n)) <= u64::MAX
}

/// What is shown of the downloads.
pub open spec fn shown(s: Seq<DownloadState>) -> Seq<Progress> {
    s.map_values(|d: DownloadState| d.progress)
}

/// The progress of several downloads taken as one.
#[derive(Clone, Debug)]
pub struct BatchProgress {
    pub files: usize,
    pub done: usize,
    /// The downloads that are done and do not have the expected digest.
    pub mismatched: usize,
    pub failed: usize,
    pub cancelled: usize,
    pub bytes_received: u64,
    pub bytes_total: Option<u64>,
    /// The speeds of the running transfers. The speed of the batch is their sum.
    pub speeds: Vec<Speed>,
}

impl BatchProgress {
    /// The downloads that are done, failed or cancelled.
    pub open spec fn settled_count(self) -> int {
        self.done + self.failed + self.cancelled
    }

    /// Whether this is the progress of downloads that are shown like this.
    pub open spec fn sums_up(self, s: Seq<Progress>) -> bool {
        &&& self.files == s.len()
        &&& self.done == count(s, |p: Progress| p is Done)
        &&& self.mismatched == count(s, |p: Progress| mismatches(p))
        &&& self.failed == count(s, |p: Progress| p is Failed)
        &&& self.cancelled == count(s, |p: Progress| p is Cancelled)
        &&& self.bytes_received == received_sum(s)
        &&& self.bytes_total is Some <==> all_sized(s)
        &&& self.bytes_total is Some ==> self.bytes_total->0 == size_sum(s)
        &&& self.speeds@ == running_speeds(s)
    }

    /// The share of the batch that has arrived: of its bytes where they are known and not none,
    /// else of its files.
    pub open spec fn share(self) -> Option<Ratio> {
        match self.bytes_total {
            Some(total) if total > 0 => Some(
                Ratio {
                    numerator: if self.bytes_received <= total {
                        self.bytes_received
                    } else {
                        total
                    },
                    denominator: total,
                },
            ),
            _ => if self.files > 0 {
                Some(
                    Ratio {
                        numerator: self.settled_count() as u64,
                        denominator: self.files as u64,
                    },
                )
            } else {
                None
            },
        }
    }

    /// How many downloads are done, failed or cancelled.
    pub fn settled(&self) -> (n: usize)
        requires
            self.settled_count() <= usize::MAX,
        ensures
            n == self.settled_count(),
    {
        self.done + self.failed + self.cancelled
    }

    /// Whether there are downloads, and all are done, failed or cancelled.
    pub fn is_complete(&self) -> (b: bool)
        requires
            self.files > 0 ==> self.settled_count() <= usize::MAX,
        ensures
            b == (self.files > 0 && self.settled_count() == self.files),
    {
        self.files > 0 && self.settled() == self.files
    }

    /// Whether there are downloads, and every file is downloaded and verified: all are done, and
    /// none has another digest than the expected one.
    pub fn all_done(&self) -> (b: bool)
        ensures
            b == (self.files > 0 && self.done == self.files && self.mismatched == 0),
    {
        self.files > 0 && self.done == self.files && self.mismatched == 0
    }

    /// The share of the batch that has arrived.
    pub fn fraction(&self) -> (share: Option<Ratio>)
        requires
            self.files > 0 && (self.bytes_total is None || self.bytes_total->0 == 0)
                ==> self.settled_count() <= usize::MAX,
        ensures
            share == self.share(),
    {
        match self.bytes_total {
            Some(total) if total > 0 => {
                let numerator: u64 = if self.bytes_received <= total {
                    self.bytes_received
                } else {
                    total
                };
                Some(Ratio { numerator, denominator: total })
            },
            _ => if self.files > 0 {
                Some(
                    Ratio { numerator: self.settled() as u64, denominator: self.files as u64 },
                )
            } else {
                None
            },
        }
    }
}

/// Adds a size to a sum. The sum is lost where the size is not known.
pub fn accumulate_total(acc: &mut Option<u64>, total: Option<u64>)
    requires
        *old(acc) is Some && total is Some ==> (*old(acc))->0 + total->0 <= u64::MAX,
    ensures
        *final(acc) == (match (*old(acc), total) {
            (Some(sum), Some(total)) => Some((sum + total) as u64),
            _ => None,
        }),
{
    match total {
        Some(total) => {
            if let Some(sum) = acc.as_mut() {
                *sum = *sum + total;
            }
        },
        None => {
            *acc = None;
        },
    }
}

/// Several downloads taken as one.
#[derive(Clone, Debug)]
pub struct Batch {
    downloads: Vec<Download>,
}

impl View for Batch {
    type V = Seq<DownloadState>;

    /// The downloads in their order.
    closed spec fn view(&self) -> Seq<DownloadState> {
        self.downloads@.map_values(|d: Download| d@)
    }
}

proof fn sums_grow(s: Seq<Progress>, n: int)
    requires
        0 <= n <= s.len(),
    ensures
        received_sum(s.take(n)) <= received_sum(s),
    decreases s.len(),
{
    if n < s.len() {
        sums_grow(s.drop_last(), n);
        assert(s.drop_last().take(n) == s.take(n));
    } else {
        assert(s.take(n) == s);
    }
}

proof fn one_more_is_sized(s: Seq<Progress>, n: int)
    requires
        0 <= n < s.len(),
    ensures
        all_sized(s.take(n + 1)) <==> all_sized(s.take(n)) && size_of(s[n]) is Some,
{
    let longer = s.take(n + 1);
    if all_sized(longer) {
        assert forall|i: int| 0 <= i < n implies #[trigger] size_of(s.take(n)[i]) is Some by {
            assert(size_of(longer[i]) is Some);
        }
        assert(size_of(longer[n]) is Some);
    }
    if all_sized(s.take(n)) && size_of(s[n]) is Some {
        assert forall|i: int| 0 <= i < n + 1 implies #[trigger] size_of(longer[i]) is Some by {
            if i < n {
                assert(size_of(s.take(n)[i]) is Some);
            }
        }
    }
}

/// Whether every download is done, failed or cancelled.
pub open spec fn all_settled(s: Seq<Progress>) -> bool {
    forall|i: int| 0 <= i < s.len() ==> (#[trigger] s[i]).settled()
}

/// The settled downloads are counted once each: they are all of them exactly where each is
/// settled.
pub proof fn settled_are_counted_once(s: Seq<Progress>)
    ensures
        count(s, |p: Progress| p is Done) + count(s, |p: Progress| p is Failed) + count(
            s,
            |p: Progress| p is Cancelled,
        ) <= s.len(),
        count(s, |p: Progress| p is Done) + count(s, |p: Progress| p is Failed) + count(
            s,
            |p: Progress| p is Cancelled,
        ) == s.len() <==> all_settled(s),
    decreases s.len(),
{
    if s.len() > 0 {
        let shorter = s.drop_last();
        settled_are_counted_once(shorter);
        if all_settled(s) {
            assert forall|i: int| 0 <= i < shorter.len() implies (
            #[trigger] shorter[i]).settled() by {
                assert(s[i].settled());
            }
            assert(s[s.len() - 1].settled());
        }
        if all_settled(shorter) && s.last().settled() {
            assert forall|i: int| 0 <= i < s.len() implies (#[trigger] s[i]).settled() by {
                if i < shorter.len() {
                    assert(shorter[i].settled());
                }
            }
        }
    }
}

impl Batch {
    /// The downloads as a batch.
    pub fn new(downloads: Vec<Download>) -> (batch: Batch)
        ensures
            batch@ == downloads@.map_values(|d: Download| d@),
    {
        Batch { downloads }
    }

    /// The downloads in their order.
    pub fn downloads(&self) -> (downloads: &[Download])
        ensures
            downloads@.map_values(|d: Download| d@) == self@,
    {
        self.downloads.as_slice()
    }

    /// Whether the sums over the batch can be counted.
    pub fn fits(&self) -> (b: bool)
        ensures
            b == sums_fit(shown(self@)),
    {
        let ghost s = shown(self@);
        let mut received: u64 = 0;
        let mut total: Option<u64> = Some(0);
        let mut i: usize = 0;
        assert(s.take(0).len() == 0);
        while i < self.downloads.len()
            invariant
                s == shown(self@),
                i <= self.downloads@.len() == s.len(),
                received == received_sum(s.take(i as int)),
                total is Some <==> all_sized(s.take(i as int)),
                total is Some ==> total->0 == size_sum(s.take(i as int)),
                forall|n: int|
                    0 <= n <= i && all_sized(#[trigger] s.take(n)) ==> size_sum(s.take(n))
                        <= u64::MAX,
            decreases self.downloads.len() - i,
        {
            let progress: &Progress = self.downloads[i].progress();
            assert(*progress == s[i as int]);
            assert(s.take(i + 1).drop_last() == s.take(i as int));
            proof {
                sums_grow(s, i + 1);
                one_more_is_sized(s, i as int);
            }
            match received.checked_add(progress.received()) {
                Some(sum) => {
                    received = sum;
                },
                None => {
                    return false;
                },
            }
            let size: Option<u64> = size_in_batch(progress);
            if let (Some(sum), Some(size)) = (total, size) {
                if size > u64::MAX - sum {
                    assert(all_sized(s.take(i + 1)));
                    return false;
                }
            }
            accumulate_total(&mut total, size);
            i = i + 1;
        }
        assert(s.take(i as int) == s);
        true
    }

    /// Whether there are downloads, and all are done, failed or cancelled.
    pub fn is_finished(&self) -> (b: bool)
        requires
            sums_fit(shown(self@)),
        ensures
            b == (self@.len() > 0 && all_settled(shown(self@))),
    {
        proof {
            settled_are_counted_once(shown(self@));
        }
        self.progress().is_complete()
    }

    /// Asks for a pause of every download.
    pub fn pause_all(&mut self)
        ensures
            final(self)@ == old(self)@.map_values(|d: DownloadState| d.after_pause()),
    {
        let ghost before = self@;
        let mut i: usize = 0;
        while i < self.downloads.len()
            invariant
                i <= self.downloads@.len() == before.len(),
                forall|j: int|
                    0 <= j < i ==> (#[trigger] self.downloads@[j])@ == before[j].after_pause(),
                forall|j: int|
                    i <= j < before.len() ==> (#[trigger] self.downloads@[j])@ == before[j],
            decreases self.downloads.len() - i,
        {
            self.downloads[i].pause();
            i = i + 1;
        }
        assert(self@ == before.map_values(|d: DownloadState| d.after_pause()));
    }

    /// Queues every paused or failed download again, and says of each whether it is to be put on
    /// the queue.
    pub fn resume_all(&mut self) -> (wake: Vec<bool>)
        ensures
            final(self)@ == old(self)@.map_values(|d: DownloadState| d.after_resume()),
            wake@ == old(self)@.map_values(|d: DownloadState| d.progress.resumable()),
    {
        let ghost before = self@;
        let mut wake: Vec<bool> = Vec::new();
        let mut i: usize = 0;
        while i < self.downloads.len()
            invariant
                i <= self.downloads@.len() == before.len(),
                i == wake@.len(),
                forall|j: int|
                    0 <= j < i ==> (#[trigger] self.downloads@[j])@ == before[j].after_resume(),
                forall|j: int|
                    0 <= j < i ==> #[trigger] wake@[j] == before[j].progress.resumable(),
                forall|j: int|
                    i <= j < before.len() ==> (#[trigger] self.downloads@[j])@ == before[j],
            decreases self.downloads.len() - i,
        {
            let w: bool = self.downloads[i].resume();
            wake.push(w);
            i = i + 1;
        }
        assert(self@ == before.map_values(|d: DownloadState| d.after_resume()));
        wake
    }

    /// Asks for the end of every download, and says of each whether it is to be put on the queue.
    pub fn cancel_all(&mut self) -> (wake: Vec<bool>)
        ensures
            final(self)@ == old(self)@.map_values(|d: DownloadState| d.after_cancel()),
            wake@ == old(self)@.map_values(|d: DownloadState| d.cancel_wakes()),
    {
        let ghost before = self@;
        let mut wake: Vec<bool> = Vec::new();
        let mut i: usize = 0;
        while i < self.downloads.len()
            invariant
                i <= self.downloads@.len() == before.len(),
                i == wake@.len(),
                forall|j: int|
                    0 <= j < i ==> (#[trigger] self.downloads@[j])@ == before[j].after_cancel(),
                forall|j: int| 0 <= j < i ==> #[trigger] wake@[j] == before[j].cancel_wakes(),
                forall|j: int|
                    i <= j < before.len() ==> (#[trigger] self.downloads@[j])@ == before[j],
            decreases self.downloads.len() - i,
        {
            let w: bool = self.downloads[i].cancel();
            wake.push(w);
            i = i + 1;
        }
        assert(self@ == before.map_values(|d: DownloadState| d.after_cancel()));
        wake
    }

    /// The progress of the batch.
    pub fn progress(&self) -> (progress: BatchProgress)
        requires
            sums_fit(shown(self@)),
        ensures
            progress.sums_up(shown(self@)),
    {
        let ghost s = shown(self@);
        let mut acc: BatchProgress = BatchProgress {
            files: self.downloads.len(),
            done: 0,
            mismatched: 0,
            failed: 0,
            cancelled: 0,
            bytes_received: 0,
            bytes_total: Some(0),
            speeds: Vec::new(),
        };
        let mut i: usize = 0;
        assert(s.take(0).len() == 0);
        while i < self.downloads.len()
            invariant
                s == shown(self@),
                sums_fit(s),
                i <= self.downloads@.len() == s.len(),
                acc.files == s.len(),
                acc.done <= i,
                acc.mismatched <= i,
                acc.failed <= i,
                acc.cancelled <= i,
                (BatchProgress { files: i, ..acc }).sums_up(s.take(i as int)),
            decreases self.downloads.len() - i,
        {
            let progress: &Progress = self.downloads[i].progress();
            let ghost shorter = s.take(i as int);
            let ghost longer = s.take(i + 1);
            proof {
                assert(*progress == s[i as int]);
                assert(longer.drop_last() == shorter);
                assert(longer.last() == s[i as int]);
                sums_grow(s, i + 1);
                one_more_is_sized(s, i as int);
            }
            match progress {
                Progress::Done(outcome) => {
                    acc.done = acc.done + 1;
                    if outcome.verified == Verification::Mismatch {
                        acc.mismatched = acc.mismatched + 1;
                    }
                    acc.bytes_received = acc.bytes_received + outcome.bytes;
                    accumulate_total(&mut acc.bytes_total, Some(outcome.bytes));
                },
                Progress::Failed(_) => {
                    acc.failed = acc.failed + 1;
                    acc.bytes_total = None;
                },
                Progress::Cancelled => {
                    acc.cancelled = acc.cancelled + 1;
                },
                Progress::Downloading { received, total, speed } => {
                    acc.bytes_received = acc.bytes_received + *received;
                    acc.speeds.push(*speed);
                    accumulate_total(&mut acc.bytes_total, *total);
                },
                Progress::Paused { received, total } => {
                    acc.bytes_received = acc.bytes_received + *received;
                    accumulate_total(&mut acc.bytes_total, *total);
                },
                Progress::Queued | Progress::Verifying => {
                    acc.bytes_total = None;
                },
            }
            i = i + 1;
        }
        assert(s.take(i as int) == s);
        acc
    }
}

/// What a download adds to the bytes of a batch.
fn size_in_batch(progress: &Progress) -> (size: Option<u64>)
    ensures
        size == size_of(*progress),
{
    match progress {
        Progress::Done(outcome) => Some(outcome.bytes),
        Progress::Downloading { total, .. } => *total,
        Progress::Paused { total, .. } => *total,
        Progress::Cancelled => Some(0),
        _ => None,
    }
}

} // verus!
