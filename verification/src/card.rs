//! What a card with one download shows.

use crate::progress::{Progress, Ratio, Verification};
use crate::text;
use crate::units;
use crate::url;
use vstd::prelude::*;

verus! {

/// Something that the user can ask for.
#[derive(Clone, Copy, Debug, PartialEq, Eq, Structural)]
pub enum Control {
    Pause,
    Resume,
    Cancel,
}

/// A colour of text.
#[derive(Clone, Copy, Debug, PartialEq, Eq, Structural)]
pub enum Tone {
    Yellow,
    Green,
    Red,
    Gray,
}

/// A progress bar.
#[derive(Debug)]
pub struct Bar {
    /// How far the bar is filled; not at all where this is nothing.
    pub fill: Option<Ratio>,
    pub text: String,
    pub animate: bool,
}

/// One row of a card.
#[derive(Debug)]
pub enum Row {
    Label(String),
    Bar(Bar),
    Colored(Tone, String),
    /// A text beside something that turns.
    Busy(String),
    Monospace(String),
}

/// What a row shows.
pub enum RowView {
    Label(Seq<char>),
    Bar { fill: Option<Ratio>, text: Seq<char>, animate: bool },
    Colored(Tone, Seq<char>),
    Busy(Seq<char>),
    Monospace(Seq<char>),
}

impl View for Row {
    type V = RowView;

    open spec fn view(&self) -> RowView {
        match *self {
            Row::Label(label) => RowView::Label(label@),
            Row::Bar(bar) => RowView::Bar { fill: bar.fill, text: bar.text@, animate: bar.animate },
            Row::Colored(tone, label) => RowView::Colored(tone, label@),
            Row::Busy(label) => RowView::Busy(label@),
            Row::Monospace(label) => RowView::Monospace(label@),
        }
    }
}

/// The title of a card: the name of the file on disk, else the one in the address, else the
/// number of the download.
pub open spec fn title_text(file_name: Option<Seq<char>>, url: Seq<char>, id: u64) -> Seq<char> {
    match file_name {
        Some(name) => name,
        None => if url::name_in(url).len() > 0 {
            url::name_in(url)
        } else {
            "download #"@ + text::decimal(id as nat)
        },
    }
}

/// What the user can ask for.
pub open spec fn offered(progress: Progress) -> Seq<Control> {
    if progress.finished() {
        Seq::empty()
    } else if progress.resumable() {
        seq![Control::Resume, Control::Cancel]
    } else {
        seq![Control::Pause, Control::Cancel]
    }
}

/// A bar for so many bytes of so many.
pub open spec fn bar_view(received: u64, total: Option<u64>, animate: bool) -> RowView {
    match total {
        Some(total) if total > 0 => RowView::Bar {
            fill: Some(Ratio { numerator: received, denominator: total }),
            text: units::size_text(received) + " / "@ + units::size_text(total),
            animate,
        },
        _ => RowView::Bar { fill: None, text: units::size_text(received), animate },
    }
}

/// What is said of the comparison of the digests.
pub open spec fn verdict_view(verified: Verification) -> RowView {
    match verified {
        Verification::Matched => RowView::Colored(Tone::Green, "\u{2713} verified"@),
        Verification::Mismatch => RowView::Colored(Tone::Red, "\u{2717} SHA-256 mismatch"@),
        Verification::Skipped => RowView::Colored(Tone::Gray, "no expected hash"@),
    }
}

/// What a card shows below its title.
pub open spec fn body_view(progress: Progress) -> Seq<RowView> {
    match progress {
        Progress::Queued => seq![RowView::Label("queued..."@)],
        Progress::Downloading { received, total, speed } => seq![
            bar_view(received, total, total is None),
            RowView::Label(units::speed_text(speed)),
        ],
        Progress::Paused { received, total } => seq![
            bar_view(received, total, false),
            RowView::Colored(Tone::Yellow, "paused"@),
        ],
        Progress::Verifying => seq![RowView::Busy("verifying SHA-256..."@)],
        Progress::Done(outcome) => seq![
            RowView::Bar {
                fill: Some(Ratio { numerator: 1, denominator: 1 }),
                text: units::size_text(outcome.bytes),
                animate: false,
            },
            verdict_view(outcome.verified),
            RowView::Monospace(outcome.sha256@),
        ],
        Progress::Failed(error) => seq![RowView::Colored(Tone::Red, "failed: "@ + error@)],
        Progress::Cancelled => seq![RowView::Colored(Tone::Gray, "cancelled"@)],
    }
}

impl Control {
    /// The sign on the button.
    pub fn symbol(self) -> (symbol: String)
        ensures
            symbol@ == (match self {
                Control::Pause => "\u{23f8}"@,
                Control::Resume => "\u{25b6}"@,
                Control::Cancel => "\u{2716}"@,
            }),
    {
        match self {
            Control::Pause => String::from("\u{23f8}"),
            Control::Resume => String::from("\u{25b6}"),
            Control::Cancel => String::from("\u{2716}"),
        }
    }

    /// What the button does, in a word.
    pub fn hint(self) -> (hint: String)
        ensures
            hint@ == (match self {
                Control::Pause => "Pause"@,
                Control::Resume => "Resume"@,
                Control::Cancel => "Cancel"@,
            }),
    {
        match self {
            Control::Pause => String::from("Pause"),
            Control::Resume => String::from("Resume"),
            Control::Cancel => String::from("Cancel"),
        }
    }
}

/// The title of a card with a download, given the name of its file on disk.
pub fn card_title(file_name: Option<String>, url: &str, id: u64) -> (title: String)
    ensures
        title@ == title_text(
            match file_name {
                Some(name) => Some(name@),
                None => None,
            },
            url@,
            id,
        ),
{
    match file_name {
        Some(name) => name,
        None => match url::file_name_from_url(url) {
            Some(name) => name,
            None => {
                let mut title: String = String::from("download #");
                text::push_decimal(&mut title, id);
                title
            },
        },
    }
}

/// What the user can ask for, in the order of the buttons.
pub fn controls(progress: &Progress) -> (controls: Vec<Control>)
    ensures
        controls@ == offered(*progress),
{
    match progress {
        Progress::Downloading { .. } | Progress::Queued | Progress::Verifying => vec![
            Control::Pause,
            Control::Cancel,
        ],
        Progress::Paused { .. } | Progress::Failed(_) => vec![Control::Resume, Control::Cancel],
        Progress::Done(_) | Progress::Cancelled => Vec::new(),
    }
}

/// A bar for so many bytes of so many.
pub fn progress_bar(received: u64, total: Option<u64>, animate: bool) -> (bar: Bar)
    ensures
        Row::Bar(bar)@ == bar_view(received, total, animate),
{
    let mut text: String = units::human_bytes(received);
    match total {
        Some(total) if total > 0 => {
            text.append(" / ");
            text.append(units::human_bytes(total).as_str());
            Bar {
                fill: Some(Ratio { numerator: received, denominator: total }),
                text,
                animate,
            }
        },
        _ => Bar { fill: None, text, animate },
    }
}

/// What a card shows below its title.
pub fn body(progress: &Progress) -> (rows: Vec<Row>)
    ensures
        rows@.map_values(|row: Row| row@) == body_view(*progress),
{
    let rows: Vec<Row> = match progress {
        Progress::Queued => vec![Row::Label(String::from("queued..."))],
        Progress::Downloading { received, total, speed } => vec![
            Row::Bar(progress_bar(*received, *total, total.is_none())),
            Row::Label(units::human_speed(*speed)),
        ],
        Progress::Paused { received, total } => vec![
            Row::Bar(progress_bar(*received, *total, false)),
            Row::Colored(Tone::Yellow, String::from("paused")),
        ],
        Progress::Verifying => vec![Row::Busy(String::from("verifying SHA-256..."))],
        Progress::Done(outcome) => {
            let bar: Bar = Bar {
                fill: Some(Ratio { numerator: 1, denominator: 1 }),
                text: units::human_bytes(outcome.bytes),
                animate: false,
            };
            let verdict: Row = match outcome.verified {
                Verification::Matched => Row::Colored(
                    Tone::Green,
                    String::from("\u{2713} verified"),
                ),
                Verification::Mismatch => Row::Colored(
                    Tone::Red,
                    String::from("\u{2717} SHA-256 mismatch"),
                ),
                Verification::Skipped => Row::Colored(
                    Tone::Gray,
                    String::from("no expected hash"),
                ),
            };
            vec![Row::Bar(bar), verdict, Row::Monospace(outcome.sha256.clone())]
        },
        Progress::Failed(error) => {
            let mut text: String = String::from("failed: ");
            text.append(error.as_str());
            vec![Row::Colored(Tone::Red, text)]
        },
        Progress::Cancelled => vec![Row::Colored(Tone::Gray, String::from("cancelled"))],
    };
    assert(rows@.map_values(|row: Row| row@) == body_view(*progress));
    rows
}

/// A button is offered exactly where what it asks for has an effect on what is shown: every
/// download that is not finished can be cancelled, and can be resumed where it is paused or
/// failed, else paused.
pub proof fn controls_fit_the_progress(progress: Progress)
    ensures
        offered(progress).contains(Control::Resume) <==> progress.resumable(),
        offered(progress).contains(Control::Cancel) <==> !progress.finished(),
        offered(progress).contains(Control::Pause) <==> !progress.finished()
            && !progress.resumable(),
{
    let o = offered(progress);
    if progress.resumable() {
        assert(o[0] == Control::Resume && o[1] == Control::Cancel);
    } else if !progress.finished() {
        assert(o[0] == Control::Pause && o[1] == Control::Cancel);
    }
}

} // verus!
