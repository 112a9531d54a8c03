//! What holds of whatever the functions of the library return.

use crate::attempt::range_header;
use crate::batch::{settled_are_counted_once, BatchProgress};
use crate::digest::verify;
use crate::downloader::Downloader;
use crate::laws::batch::{
    all_are_settled_where_each_is, all_done_means_downloaded_and_verified,
};
use crate::laws::digest::a_digest_is_compared_place_by_place;
use crate::laws::text::{a_number_is_read_back, number_of, same_letter};
use crate::progress::{Progress, Verification};
use crate::settings::{Settings, Threads};
use crate::speed::Speed;
use crate::text::{decimal, is_white_space};
use crate::url::{file_name_from_url, slashes_alone_are_no_name, the_name_is_the_last_segment};
use vstd::prelude::*;

verus! {

/// The value of a `Range` header is `bytes=`, digits that read back as the offset, and a hyphen.
pub proof fn a_range_header_tells_the_offset(offset: u64, value: String)
    requires
        call_ensures(range_header, (offset,), value),
    ensures
        exists|digits: Seq<char>|
            #[trigger] number_of(digits) == offset && value@ == "bytes="@ + digits + "-"@ && (
            digits.len() > 1 ==> digits[0] != '0') && forall|i: int|
                0 <= i < digits.len() ==> '0' <= #[trigger] digits[i] <= '9',
{
    a_number_is_read_back(offset as nat);
    assert(number_of(decimal(offset as nat)) == offset);
}

/// The file name out of an address is the last segment of its path that is not empty.
pub proof fn a_file_name_is_found(
    url: &str,
    prefix: Seq<char>,
    segment: Seq<char>,
    slashes: Seq<char>,
    rest: Seq<char>,
    name: Option<String>,
)
    requires
        call_ensures(file_name_from_url, (url,), name),
        url@ == prefix + segment + slashes + rest,
        forall|i: int| 0 <= i < prefix.len() ==> #[trigger] prefix[i] != '?' && prefix[i] != '#',
        prefix.len() == 0 || prefix.last() == '/',
        segment.len() > 0,
        forall|i: int|
            0 <= i < segment.len() ==> #[trigger] segment[i] != '/' && segment[i] != '?'
                && segment[i] != '#',
        forall|i: int| 0 <= i < slashes.len() ==> #[trigger] slashes[i] == '/',
        rest.len() == 0 || rest.first() == '?' || rest.first() == '#',
    ensures
        name is Some,
        name->0@ == segment,
{
    the_name_is_the_last_segment(prefix, segment, slashes, rest);
}

/// No file name is found where the path of an address is made of slashes alone, or empty.
pub proof fn no_file_name_is_found(
    url: &str,
    slashes: Seq<char>,
    rest: Seq<char>,
    name: Option<String>,
)
    requires
        call_ensures(file_name_from_url, (url,), name),
        url@ == slashes + rest,
        forall|i: int| 0 <= i < slashes.len() ==> #[trigger] slashes[i] == '/',
        rest.len() == 0 || rest.first() == '?' || rest.first() == '#',
    ensures
        name is None,
{
    slashes_alone_are_no_name(slashes, rest);
}

/// A digest is compared with the expected text without the white space around it, place by place and
/// without regard to the case of letters, and with nothing where nothing is expected.
pub proof fn a_digest_is_verified(
    expected: Option<String>,
    before: Seq<char>,
    core: Seq<char>,
    behind: Seq<char>,
    sha256: String,
    verified: Verification,
)
    requires
        call_ensures(verify, (&expected, &sha256), verified),
        expected is Some ==> expected->0@ == before + core + behind,
        forall|i: int| 0 <= i < before.len() ==> is_white_space(#[trigger] before[i]),
        forall|i: int| 0 <= i < behind.len() ==> is_white_space(#[trigger] behind[i]),
        core.len() > 0 ==> !is_white_space(core.first()) && !is_white_space(core.last()),
    ensures
        expected is None <==> verified == Verification::Skipped,
        verified == Verification::Matched <==> expected is Some && core.len() == sha256@.len()
            && forall|i: int| 0 <= i < core.len() ==> same_letter(#[trigger] core[i], sha256@[i]),
{
    a_digest_is_compared_place_by_place(before, core, behind, sha256@);
}

/// A worker is busy with a download exactly where a transfer runs or a digest is computed, and only a
/// transfer has a speed.
pub proof fn a_running_download_is_seen(p: Progress, running: bool, speed: Speed)
    requires
        call_ensures(Progress::is_running, (&p,), running),
        call_ensures(Progress::speed, (&p,), speed),
    ensures
        p is Downloading ==> running && speed == p->speed,
        p is Verifying ==> running && speed.bits == 0,
        p is Queued || p is Paused || p is Done || p is Failed || p is Cancelled ==> !running
            && speed.bits == 0,
{
}

/// A downloader with default settings has as many threads as the machine runs in parallel, or four,
/// and three workers; one with other settings has what they ask for, but never no thread or worker.
/// Its first download is number one.
pub proof fn a_downloader_is_what_its_settings_ask_for(
    defaults: Settings,
    settings: Settings,
    available: Option<usize>,
    plain: Downloader,
    other: Downloader,
)
    requires
        call_ensures(<Settings as Default>::default, (), defaults),
        available != Some(0usize),
        call_ensures(Downloader::new, (defaults, available), plain),
        call_ensures(Downloader::new, (settings, available), other),
    ensures
        plain@.next_id == 1 && other@.next_id == 1,
        plain@.max_concurrent == 3,
        available is Some ==> plain@.worker_threads == available->0,
        available is None ==> plain@.worker_threads == 4,
        settings.max_concurrent >= 1 ==> other@.max_concurrent == settings.max_concurrent,
        settings.max_concurrent == 0 ==> other@.max_concurrent == 1,
        settings.threads matches Threads::Fixed(n) ==> (n >= 1 ==> other@.worker_threads == n) && (n
            == 0 ==> other@.worker_threads == 1),
        settings.threads is Auto ==> other@.worker_threads == plain@.worker_threads,
{
}

/// A batch is complete where it has downloads and each is done, failed or cancelled, and all done where
/// it has downloads and each is done with no other digest than the expected one: what is all done is
/// complete, with none failed or cancelled.
pub proof fn what_is_all_done_is_complete(
    p: BatchProgress,
    s: Seq<Progress>,
    complete: bool,
    all_done: bool,
)
    requires
        p.sums_up(s),
        call_ensures(BatchProgress::is_complete, (&p,), complete),
        call_ensures(BatchProgress::all_done, (&p,), all_done),
    ensures
        complete <==> s.len() > 0 && forall|i: int|
            0 <= i < s.len() ==> (#[trigger] s[i]) is Done || s[i] is Failed || s[i] is Cancelled,
        all_done <==> s.len() > 0 && forall|i: int|
            0 <= i < s.len() ==> (#[trigger] s[i]) is Done && s[i]->Done_0.verified
                != Verification::Mismatch,
        all_done ==> complete,
{
    settled_are_counted_once(s);
    all_are_settled_where_each_is(s);
    all_done_means_downloaded_and_verified(p, s);
}

} // verus!
