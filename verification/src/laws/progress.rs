//! What holds of the progress of one download.

use crate::laws::batch::arrived;
use crate::progress::{Progress, Ratio};
use vstd::prelude::*;

verus! {

/// A transfer that runs or is paused has the share that its bytes are of its total, where that is
/// known and not zero. A file that is done has arrived whole, and nothing is said of any other.
pub proof fn a_share_is_what_arrived_of_the_total(p: Progress)
    ensures
        p matches Progress::Downloading { received, total, .. } ==> p.share() == of_total(
            received,
            total,
        ),
        p matches Progress::Paused { received, total } ==> p.share() == of_total(received, total),
        p is Done ==> p.share() is Some && p.share()->0.numerator == p.share()->0.denominator
            && p.share()->0.denominator == 1,
        p is Queued || p is Verifying || p is Failed || p is Cancelled ==> p.share() is None,
{
}

/// So many bytes of so many, where it is known of how many and they are not none.
pub open spec fn of_total(received: u64, total: Option<u64>) -> Option<Ratio> {
    if total is Some && total->0 > 0 {
        Some(Ratio { numerator: received, denominator: total->0 })
    } else {
        None
    }
}

/// What has arrived of a download is what a transfer counts, running or paused, or the size of a file
/// that is done, whatever its total; and nothing where no count is shown.
pub proof fn what_arrived_is_what_is_counted(p: Progress)
    ensures
        p.received_bytes() == arrived(p),
        p matches Progress::Downloading { received, .. } ==> p.received_bytes() == received,
        p matches Progress::Paused { received, .. } ==> p.received_bytes() == received,
        p matches Progress::Done(outcome) ==> p.received_bytes() == outcome.bytes,
{
}

/// A download ends for good when it is done or cancelled, and can be taken up where it is paused or
/// failed. Each of the others is on its way.
pub proof fn a_download_is_over_open_or_on_its_way(p: Progress)
    ensures
        p.finished() <==> p is Done || p is Cancelled,
        p.resumable() <==> p is Paused || p is Failed,
        p.settled() <==> p is Done || p is Cancelled || p is Failed,
        !p.finished() && !p.resumable() <==> p is Queued || p is Downloading || p is Verifying,
{
}

} // verus!
