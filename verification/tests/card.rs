use async_downloader::card::{body, card_title, controls, progress_bar, Bar, Control, Row, Tone};
use async_downloader::{Outcome, Progress, Ratio, Speed, Verification};

fn done(verified: Verification) -> Progress {
    Progress::Done(Outcome {
        path: "d".into(),
        bytes: 2048,
        sha256: "abcd".to_owned(),
        verified,
    })
}

fn running(total: Option<u64>) -> Progress {
    Progress::Downloading {
        received: 512,
        total,
        speed: Speed::from_bits(1024.0f64.to_bits()),
    }
}

fn rows(progress: &Progress) -> Vec<String> {
    body(progress)
        .into_iter()
        .map(|row| match row {
            Row::Label(text) => format!("label {text}"),
            Row::Bar(bar) => {
                let fill: String = match bar.fill {
                    Some(r) => format!("{}/{}", r.numerator, r.denominator),
                    None => "none".to_owned(),
                };
                format!("bar {fill} {} {}", bar.text, bar.animate)
            }
            Row::Colored(tone, text) => format!("{tone:?} {text}"),
            Row::Busy(text) => format!("busy {text}"),
            Row::Monospace(text) => format!("mono {text}"),
        })
        .collect()
}

#[test]
fn a_title_is_the_first_name_there_is() {
    let named: Option<String> = Some("on-disk".to_owned());
    assert_eq!(card_title(named, "http://h/in-url", 3), "on-disk");
    assert_eq!(card_title(None, "http://h/in-url?x", 3), "in-url");
    assert_eq!(card_title(None, "///", 31), "download #31");
}

#[test]
fn buttons_fit_the_progress() {
    let pausable: Vec<Control> = vec![Control::Pause, Control::Cancel];
    let resumable: Vec<Control> = vec![Control::Resume, Control::Cancel];
    assert_eq!(controls(&Progress::Queued), pausable);
    assert_eq!(controls(&running(None)), pausable);
    assert_eq!(controls(&Progress::Verifying), pausable);
    assert_eq!(
        controls(&Progress::Paused {
            received: 0,
            total: None
        }),
        resumable
    );
    assert_eq!(controls(&Progress::Failed("x".to_owned())), resumable);
    assert_eq!(controls(&done(Verification::Matched)), vec![]);
    assert_eq!(controls(&Progress::Cancelled), vec![]);
}

#[test]
fn buttons_have_signs() {
    assert_eq!(Control::Pause.symbol(), "\u{23f8}");
    assert_eq!(Control::Resume.symbol(), "\u{25b6}");
    assert_eq!(Control::Cancel.symbol(), "\u{2716}");
    assert_eq!(Control::Pause.hint(), "Pause");
    assert_eq!(Control::Resume.hint(), "Resume");
    assert_eq!(Control::Cancel.hint(), "Cancel");
}

#[test]
fn a_bar_shows_what_is_known() {
    let bar: Bar = progress_bar(512, Some(2048), false);
    assert_eq!(
        bar.fill,
        Some(Ratio {
            numerator: 512,
            denominator: 2048
        })
    );
    assert_eq!(bar.text, "512 B / 2.0 KiB");
    assert!(!bar.animate);
    for total in [None, Some(0u64)] {
        let bar: Bar = progress_bar(512, total, true);
        assert_eq!(bar.fill, None);
        assert_eq!(bar.text, "512 B");
        assert!(bar.animate);
    }
}

#[test]
fn a_card_shows_every_progress() {
    assert_eq!(rows(&Progress::Queued), vec!["label queued..."]);
    assert_eq!(
        rows(&running(Some(2048))),
        vec!["bar 512/2048 512 B / 2.0 KiB false", "label 1.0 KiB/s"]
    );
    assert_eq!(
        rows(&running(None)),
        vec!["bar none 512 B true", "label 1.0 KiB/s"]
    );
    assert_eq!(
        rows(&Progress::Paused {
            received: 1,
            total: Some(2)
        }),
        vec!["bar 1/2 1 B / 2 B false", "Yellow paused"]
    );
    assert_eq!(rows(&Progress::Verifying), vec!["busy verifying SHA-256..."]);
    assert_eq!(
        rows(&done(Verification::Matched)),
        vec!["bar 1/1 2.0 KiB false", "Green \u{2713} verified", "mono abcd"]
    );
    assert_eq!(
        rows(&done(Verification::Mismatch))[1],
        "Red \u{2717} SHA-256 mismatch"
    );
    assert_eq!(rows(&done(Verification::Skipped))[1], "Gray no expected hash");
    assert_eq!(
        rows(&Progress::Failed("no route".to_owned())),
        vec!["Red failed: no route"]
    );
    assert_eq!(rows(&Progress::Cancelled), vec!["Gray cancelled"]);
    assert!(matches!(body(&Progress::Cancelled)[0], Row::Colored(Tone::Gray, _)));
}
