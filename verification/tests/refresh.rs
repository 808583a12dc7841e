use hotdog::controller::{complete_refresh, report, Action, Reaction};
use hotdog::diagnostics::{Diagnostic, Severity};
use hotdog::image::{ImageReference, ImageState, DEFAULT_IMAGE_URL};
use hotdog::service::{select_image, FetchError, FetchOutcome, RemoteImageRecord};

fn record(id: &str, url: &str, width: u32, height: u32) -> RemoteImageRecord {
    RemoteImageRecord { id: String::from(id), url: String::from(url), width, height }
}

fn showing(url: &str) -> ImageState {
    let mut state = ImageState::new();
    state.set(ImageReference::new(String::from(url)));
    state
}

#[test]
fn transport_failure_leaves_the_image() {
    let mut state = showing("https://example/before.jpg");
    let before = state.clone();
    let reaction = complete_refresh(
        &mut state,
        FetchOutcome::TransportFailure { detail: String::from("connection refused") },
    );
    assert_eq!(state, before);
    assert_eq!(
        reaction,
        Reaction {
            action: Action::Idle,
            diagnostic: Diagnostic {
                severity: Severity::Error,
                message: String::from("Failed to fetch from Cat API: connection refused"),
            },
        }
    );
}

#[test]
fn decode_failure_leaves_the_image() {
    let mut state = showing("https://example/before.jpg");
    let before = state.clone();
    let reaction = complete_refresh(
        &mut state,
        FetchOutcome::DecodeFailure { detail: String::from("expected value at line 1 column 1") },
    );
    assert_eq!(state, before);
    assert_eq!(
        reaction,
        Reaction {
            action: Action::Idle,
            diagnostic: Diagnostic {
                severity: Severity::Error,
                message: String::from("Failed to parse JSON: expected value at line 1 column 1"),
            },
        }
    );
}

#[test]
fn failure_on_a_fresh_state_keeps_the_default() {
    let mut state = ImageState::new();
    complete_refresh(&mut state, FetchOutcome::TransportFailure { detail: String::new() });
    complete_refresh(&mut state, FetchOutcome::DecodeFailure { detail: String::new() });
    assert_eq!(state.get().url, DEFAULT_IMAGE_URL);
}

#[test]
fn empty_result_leaves_the_image() {
    let mut state = showing("https://example/before.jpg");
    let before = state.clone();
    let reaction = complete_refresh(&mut state, FetchOutcome::Decoded { records: vec![] });
    assert_eq!(state, before);
    assert_eq!(
        reaction,
        Reaction {
            action: Action::Idle,
            diagnostic: Diagnostic {
                severity: Severity::Warn,
                message: String::from("API returned empty array"),
            },
        }
    );
}

#[test]
fn success_shows_the_first_record() {
    let mut state = ImageState::new();
    let reaction = complete_refresh(
        &mut state,
        FetchOutcome::Decoded { records: vec![record("a", "https://example/cat1.jpg", 640, 480)] },
    );
    assert_eq!(state.get().url, "https://example/cat1.jpg");
    assert_eq!(
        reaction,
        Reaction {
            action: Action::Publish,
            diagnostic: Diagnostic {
                severity: Severity::Info,
                message: String::from("Got image URL: https://example/cat1.jpg"),
            },
        }
    );
}

#[test]
fn success_ignores_the_records_after_the_first() {
    let mut one = ImageState::new();
    let mut many = ImageState::new();
    complete_refresh(
        &mut one,
        FetchOutcome::Decoded { records: vec![record("a", "https://example/cat1.jpg", 1, 1)] },
    );
    let reaction = complete_refresh(
        &mut many,
        FetchOutcome::Decoded {
            records: vec![
                record("a", "https://example/cat1.jpg", 1, 1),
                record("b", "https://example/cat2.jpg", 2, 2),
                record("c", "https://example/cat3.jpg", 3, 3),
            ],
        },
    );
    assert_eq!(many.get().url, "https://example/cat1.jpg");
    assert_eq!(many, one);
    assert_eq!(reaction.diagnostic.message, "Got image URL: https://example/cat1.jpg");
}

#[test]
fn success_with_the_url_on_display_still_publishes() {
    let mut state = showing("https://example/cat1.jpg");
    let reaction = complete_refresh(
        &mut state,
        FetchOutcome::Decoded { records: vec![record("a", "https://example/cat1.jpg", 1, 1)] },
    );
    assert_eq!(state.get().url, "https://example/cat1.jpg");
    assert_eq!(reaction.action, Action::Publish);
}

#[test]
fn first_record_without_url_is_reported_but_not_shown() {
    let mut state = showing("https://example/before.jpg");
    let before = state.clone();
    let reaction = complete_refresh(
        &mut state,
        FetchOutcome::Decoded {
            records: vec![record("a", "", 0, 0), record("b", "https://example/cat2.jpg", 1, 1)],
        },
    );
    assert_eq!(state, before);
    assert_eq!(state.get().url, "https://example/before.jpg");
    assert_eq!(
        reaction,
        Reaction {
            action: Action::Idle,
            diagnostic: Diagnostic {
                severity: Severity::Info,
                message: String::from("Got image URL: "),
            },
        }
    );
}

#[test]
fn first_record_without_url_keeps_the_default() {
    let mut state = ImageState::new();
    complete_refresh(&mut state, FetchOutcome::Decoded { records: vec![record("a", "", 0, 0)] });
    assert_eq!(state.get().url, DEFAULT_IMAGE_URL);
    assert!(!state.get().url.is_empty());
}

#[test]
fn select_image_takes_an_empty_url_as_it_is() {
    assert_eq!(
        select_image(FetchOutcome::Decoded { records: vec![record("a", "", 10, 10)] }),
        Ok(String::new())
    );
}

#[test]
fn url_of_a_later_record_does_not_matter() {
    let mut state = ImageState::new();
    complete_refresh(
        &mut state,
        FetchOutcome::Decoded {
            records: vec![record("a", "https://example/cat1.jpg", 1, 1), record("b", "", 0, 0)],
        },
    );
    assert_eq!(state.get().url, "https://example/cat1.jpg");
}

#[test]
fn later_completion_wins() {
    let mut state = ImageState::new();
    let b = FetchOutcome::Decoded { records: vec![record("b", "https://example/b.jpg", 1, 1)] };
    let a = FetchOutcome::Decoded { records: vec![record("a", "https://example/a.jpg", 1, 1)] };
    complete_refresh(&mut state, b);
    assert_eq!(state.get().url, "https://example/b.jpg");
    complete_refresh(&mut state, a);
    assert_eq!(state.get().url, "https://example/a.jpg");
}

#[test]
fn later_failure_keeps_the_earlier_success() {
    let mut state = ImageState::new();
    complete_refresh(
        &mut state,
        FetchOutcome::Decoded { records: vec![record("b", "https://example/b.jpg", 1, 1)] },
    );
    complete_refresh(&mut state, FetchOutcome::TransportFailure { detail: String::from("timeout") });
    complete_refresh(&mut state, FetchOutcome::Decoded { records: vec![] });
    assert_eq!(state.get().url, "https://example/b.jpg");
}

#[test]
fn select_image_takes_the_first_url() {
    let selected = select_image(FetchOutcome::Decoded {
        records: vec![
            record("1", "https://x/cat.png", 100, 100),
            record("2", "https://x/dog.png", 100, 100),
        ],
    });
    assert_eq!(selected, Ok(String::from("https://x/cat.png")));
}

#[test]
fn select_image_reports_an_empty_result() {
    assert_eq!(select_image(FetchOutcome::Decoded { records: vec![] }), Err(FetchError::EmptyResult));
}

#[test]
fn select_image_passes_a_transport_failure_on() {
    assert_eq!(
        select_image(FetchOutcome::TransportFailure { detail: String::from("dns") }),
        Err(FetchError::TransportFailure { detail: String::from("dns") })
    );
}

#[test]
fn select_image_passes_a_decode_failure_on() {
    assert_eq!(
        select_image(FetchOutcome::DecodeFailure { detail: String::from("eof") }),
        Err(FetchError::DecodeFailure { detail: String::from("eof") })
    );
}

#[test]
fn report_of_each_kind() {
    assert_eq!(
        report(&Ok(String::from("https://x/cat.png"))),
        Diagnostic { severity: Severity::Info, message: String::from("Got image URL: https://x/cat.png") }
    );
    assert_eq!(
        report(&Err(FetchError::TransportFailure { detail: String::from("dns") })),
        Diagnostic { severity: Severity::Error, message: String::from("Failed to fetch from Cat API: dns") }
    );
    assert_eq!(
        report(&Err(FetchError::DecodeFailure { detail: String::from("eof") })),
        Diagnostic { severity: Severity::Error, message: String::from("Failed to parse JSON: eof") }
    );
    assert_eq!(
        report(&Err(FetchError::EmptyResult)),
        Diagnostic { severity: Severity::Warn, message: String::from("API returned empty array") }
    );
    assert_eq!(
        report(&Ok(String::new())),
        Diagnostic { severity: Severity::Info, message: String::from("Got image URL: ") }
    );
}

#[test]
fn outcome_clone_keeps_every_record() {
    let outcome = FetchOutcome::Decoded {
        records: vec![record("1", "https://x/cat.png", 100, 50), record("2", "https://x/dog.png", 7, 9)],
    };
    assert_eq!(outcome.clone(), outcome);
    let failure = FetchOutcome::TransportFailure { detail: String::from("dns") };
    assert_eq!(failure.clone(), failure);
    let error = FetchError::DecodeFailure { detail: String::from("eof") };
    assert_eq!(error.clone(), error);
}
