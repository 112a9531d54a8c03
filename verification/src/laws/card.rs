//! What holds of the card with one download.

use crate::card::{bar_view, body_view, offered, title_text, Control, Row, RowView, Tone};
use crate::laws::progress::of_total;
use crate::progress::{Progress, Ratio, Verification};
use crate::text::decimal;
use crate::units::{size_text, speed_text};
use crate::url::{slashes_alone_are_no_name, the_name_is_the_last_segment};
use vstd::prelude::*;

verus! {

/// The title is the name of the file on disk, whatever the address and the number.
pub proof fn a_file_name_is_the_title(name: Seq<char>, url: Seq<char>, id: u64)
    ensures
        title_text(Some(name), url, id) == name,
{
}

/// Without a name on disk, the title is the last segment of the path of the address that is not
/// empty, whatever the number.
pub proof fn a_segment_is_the_title(
    prefix: Seq<char>,
    segment: Seq<char>,
    slashes: Seq<char>,
    rest: Seq<char>,
    id: u64,
)
    requires
        forall|i: int| 0 <= i < prefix.len() ==> #[trigger] prefix[i] != '?' && prefix[i] != '#',
        prefix.len() == 0 || prefix.last() == '/',
        segment.len() > 0,
        forall|i: int|
            0 <= i < segment.len() ==> #[trigger] segment[i] != '/' && segment[i] != '?'
                && segment[i] != '#',
        forall|i: int| 0 <= i < slashes.len() ==> #[trigger] slashes[i] == '/',
        rest.len() == 0 || rest.first() == '?' || rest.first() == '#',
    ensures
        title_text(None, prefix + segment + slashes + rest, id) == segment,
{
    the_name_is_the_last_segment(prefix, segment, slashes, rest);
}

/// Without a name on disk and with an address whose path is made of slashes alone, or empty, the title
/// is the number of the download.
pub proof fn a_number_is_the_title(slashes: Seq<char>, rest: Seq<char>, id: u64)
    requires
        forall|i: int| 0 <= i < slashes.len() ==> #[trigger] slashes[i] == '/',
        rest.len() == 0 || rest.first() == '?' || rest.first() == '#',
    ensures
        title_text(None, slashes + rest, id) == "download #"@ + decimal(id as nat),
{
    slashes_alone_are_no_name(slashes, rest);
}

/// There are two buttons while a download is not done or cancelled: first the one that pauses it, or
/// resumes it where it is paused or failed, then the one that cancels it.
pub proof fn the_buttons_of_a_card(progress: Progress)
    ensures
        progress is Done || progress is Cancelled ==> offered(progress).len() == 0,
        progress is Paused || progress is Failed ==> offered(progress) == seq![
            Control::Resume,
            Control::Cancel,
        ],
        progress is Queued || progress is Downloading || progress is Verifying ==> offered(progress)
            == seq![Control::Pause, Control::Cancel],
{
}

/// The text on the bar of a transfer: what arrived, and of how much where that is known and not zero.
pub open spec fn bar_text(received: u64, total: Option<u64>) -> Seq<char> {
    if total is Some && total->0 > 0 {
        size_text(received) + " / "@ + size_text(total->0)
    } else {
        size_text(received)
    }
}

/// A bar shows what arrived, of how much where that is known and not zero, and moves by itself exactly
/// where it is told to.
pub proof fn a_bar_shows_what_arrived(received: u64, total: Option<u64>, animate: bool)
    ensures
        bar_view(received, total, animate) == (RowView::Bar {
            fill: of_total(received, total),
            text: bar_text(received, total),
            animate,
        }),
{
}

/// A card has a bar exactly where a count is shown, as its first row, filled as far as the share of
/// the download. It moves by itself only under a running transfer whose total is not known.
pub proof fn a_bar_is_filled_by_the_share(progress: Progress)
    ensures
        body_view(progress).len() > 0,
        body_view(progress)[0] is Bar <==> progress is Downloading || progress is Paused
            || progress is Done,
        forall|i: int|
            0 < i < body_view(progress).len() ==> !((#[trigger] body_view(progress)[i]) is Bar),
        body_view(progress)[0] is Bar ==> body_view(progress)[0]->fill == progress.share(),
        body_view(progress)[0] is Bar ==> (body_view(progress)[0]->animate
            <==> progress is Downloading && progress->Downloading_total is None),
{
}

/// What is said of a transfer: what arrived, of how much where that is known, and how fast, or that it
/// is paused.
pub proof fn a_card_shows_a_transfer(progress: Progress)
    ensures
        progress matches Progress::Downloading { received, total, speed } ==> {
            let rows = body_view(progress);
            &&& rows.len() == 2
            &&& rows[0] == RowView::Bar {
                fill: of_total(received, total),
                text: bar_text(received, total),
                animate: total is None,
            }
            &&& rows[1] == RowView::Label(speed_text(speed))
        },
        progress matches Progress::Paused { received, total } ==> {
            let rows = body_view(progress);
            &&& rows.len() == 2
            &&& rows[0] == RowView::Bar {
                fill: of_total(received, total),
                text: bar_text(received, total),
                animate: false,
            }
            &&& rows[1] == RowView::Colored(Tone::Yellow, "paused"@)
        },
{
}

/// What is said of a file that is done: its size under a full bar, the verdict on its digest, in
/// green exactly where it matches and in red exactly where it does not, and the digest itself.
pub proof fn a_card_shows_a_file(progress: Progress)
    requires
        progress is Done,
    ensures
        ({
            let rows = body_view(progress);
            let outcome = progress->Done_0;
            &&& rows.len() == 3
            &&& rows[0] == RowView::Bar {
                fill: Some(Ratio { numerator: 1, denominator: 1 }),
                text: size_text(outcome.bytes),
                animate: false,
            }
            &&& rows[1] is Colored
            &&& rows[1]->Colored_0 == Tone::Green <==> outcome.verified == Verification::Matched
            &&& rows[1]->Colored_0 == Tone::Red <==> outcome.verified == Verification::Mismatch
            &&& rows[1]->Colored_0 == Tone::Gray <==> outcome.verified == Verification::Skipped
            &&& rows[1]->Colored_1 == if outcome.verified == Verification::Matched {
                "\u{2713} verified"@
            } else if outcome.verified == Verification::Mismatch {
                "\u{2717} SHA-256 mismatch"@
            } else {
                "no expected hash"@
            }
            &&& rows[2] == RowView::Monospace(outcome.sha256@)
        }),
{
}

/// What is said of a download that does not move: one row, and the reason in it where one failed.
pub proof fn a_card_shows_what_does_not_move(progress: Progress)
    ensures
        progress is Queued ==> body_view(progress) == seq![RowView::Label("queued..."@)],
        progress is Verifying ==> body_view(progress) == seq![RowView::Busy("verifying SHA-256..."@)],
        progress matches Progress::Failed(error) ==> body_view(progress) == seq![
            RowView::Colored(Tone::Red, "failed: "@ + error@),
        ],
        progress is Cancelled ==> body_view(progress) == seq![
            RowView::Colored(Tone::Gray, "cancelled"@),
        ],
{
}

/// A row is shown as it is: its kind, its text, its colour, and how far its bar is filled.
pub proof fn a_row_is_shown_as_it_is(row: Row)
    ensures
        row matches Row::Label(label) ==> row@ == RowView::Label(label@),
        row matches Row::Bar(bar) ==> row@ == (RowView::Bar {
            fill: bar.fill,
            text: bar.text@,
            animate: bar.animate,
        }),
        row matches Row::Colored(tone, label) ==> row@ == RowView::Colored(tone, label@),
        row matches Row::Busy(label) ==> row@ == RowView::Busy(label@),
        row matches Row::Monospace(label) ==> row@ == RowView::Monospace(label@),
{
}

} // verus!
