//! The controller: what each event of the page does to the picture on
//! display, what it asks of the embedding application, and what it reports.
//!
//! The application owns the event loop. It tells the controller what
//! happened, carries out the action that comes back and writes the
//! diagnostic to its log. A refresh runs through three events: the click
//! ([`refresh_image`]), the arrival of an answer ([`response_arrived`]) and
//! the outcome ([`complete_refresh`]). Refreshes are not serialised: each
//! outcome is applied when it arrives, so the one that arrives last decides
//! what is on display.

use vstd::prelude::*;
use crate::diagnostics::{
    decode_failure_text,
    decoding_text,
    empty_result_text,
    fetching_text,
    got_image_text,
    skip_text,
    transport_failure_text,
    Diagnostic,
    DiagnosticView,
    Severity,
};
use crate::image::{ImageReference, ImageReferenceView, ImageState};
use crate::service::{
    picture_of,
    select_image,
    selection,
    selection_view,
    FetchError,
    FetchErrorView,
    FetchOutcome,
    FetchOutcomeView,
    SERVICE_ENDPOINT,
};

verus! {

/// Something that happened on the page or on the wire.
#[derive(Debug, PartialEq, Eq)]
pub enum Event {
    /// The skip button was clicked.
    SkipClicked,
    /// The save button was clicked: a refresh is wanted.
    SaveClicked,
    /// The service answered a request; the body has not been read yet.
    ResponseArrived,
    /// A request came to its end.
    FetchSettled { outcome: FetchOutcome },
}

/// An event as a mathematical value.
pub enum EventView {
    SkipClicked,
    SaveClicked,
    ResponseArrived,
    FetchSettled { outcome: FetchOutcomeView },
}

impl View for Event {
    type V = EventView;

    open spec fn view(&self) -> EventView {
        match self {
            Event::SkipClicked => EventView::SkipClicked,
            Event::SaveClicked => EventView::SaveClicked,
            Event::ResponseArrived => EventView::ResponseArrived,
            Event::FetchSettled { outcome } => EventView::FetchSettled { outcome: outcome@ },
        }
    }
}

impl Clone for Event {
    fn clone(&self) -> (e: Event)
        ensures
            e@ == self@,
    {
        match self {
            Event::SkipClicked => Event::SkipClicked,
            Event::SaveClicked => Event::SaveClicked,
            Event::ResponseArrived => Event::ResponseArrived,
            Event::FetchSettled { outcome } => Event::FetchSettled { outcome: outcome.clone() },
        }
    }
}

/// What the application is to do next.
#[derive(Debug, PartialEq, Eq)]
pub enum Action {
    /// Nothing.
    Idle,
    /// Send one GET request to `endpoint`, without blocking the page.
    SendGet { endpoint: String },
    /// Read the body of the answer and decode it as a sequence of records.
    DecodeBody,
    /// The picture on display was replaced: draw it.
    Publish,
}

/// An action as a mathematical value.
pub enum ActionView {
    Idle,
    SendGet { endpoint: Seq<char> },
    DecodeBody,
    Publish,
}

impl View for Action {
    type V = ActionView;

    open spec fn view(&self) -> ActionView {
        match self {
            Action::Idle => ActionView::Idle,
            Action::SendGet { endpoint } => ActionView::SendGet { endpoint: endpoint@ },
            Action::DecodeBody => ActionView::DecodeBody,
            Action::Publish => ActionView::Publish,
        }
    }
}

impl Clone for Action {
    fn clone(&self) -> (a: Action)
        ensures
            a@ == self@,
    {
        match self {
            Action::Idle => Action::Idle,
            Action::SendGet { endpoint } => Action::SendGet { endpoint: endpoint.clone() },
            Action::DecodeBody => Action::DecodeBody,
            Action::Publish => Action::Publish,
        }
    }
}

/// The controller's answer to one event.
#[derive(Debug, PartialEq, Eq)]
pub struct Reaction {
    pub action: Action,
    pub diagnostic: Diagnostic,
}

/// A reaction as a mathematical value.
pub struct ReactionView {
    pub action: ActionView,
    pub diagnostic: DiagnosticView,
}

impl View for Reaction {
    type V = ReactionView;

    open spec fn view(&self) -> ReactionView {
        ReactionView { action: self.action@, diagnostic: self.diagnostic@ }
    }
}

impl Clone for Reaction {
    fn clone(&self) -> (r: Reaction)
        ensures
            r@ == self@,
    {
        Reaction { action: self.action.clone(), diagnostic: self.diagnostic.clone() }
    }
}

/// What is reported of a selection: the selected address at info level,
/// whatever it holds; an answer without records as a warning; a failure on
/// the wire or in decoding as an error.
pub open spec fn selection_diagnostic(
    selected: Result<Seq<char>, FetchErrorView>,
) -> DiagnosticView {
    match selected {
        Ok(url) => DiagnosticView { severity: Severity::Info, message: got_image_text(url) },
        Err(FetchErrorView::TransportFailure { detail }) => DiagnosticView {
            severity: Severity::Error,
            message: transport_failure_text(detail),
        },
        Err(FetchErrorView::DecodeFailure { detail }) => DiagnosticView {
            severity: Severity::Error,
            message: decode_failure_text(detail),
        },
        Err(FetchErrorView::EmptyResult) => DiagnosticView {
            severity: Severity::Warn,
            message: empty_result_text(),
        },
    }
}

/// The picture on display after `event`, if `current` was on display before
/// it: the one that the outcome of a request names, if it names one, else
/// `current`.
pub open spec fn image_after(current: ImageReferenceView, event: EventView) -> ImageReferenceView {
    match event {
        EventView::FetchSettled { outcome } => match picture_of(outcome) {
            Some(image) => image,
            None => current,
        },
        _ => current,
    }
}

/// The reaction that `event` calls for. It does not depend on what is on
/// display.
pub open spec fn reaction_to(event: EventView) -> ReactionView {
    match event {
        EventView::SkipClicked => ReactionView {
            action: ActionView::Idle,
            diagnostic: DiagnosticView { severity: Severity::Info, message: skip_text() },
        },
        EventView::SaveClicked => ReactionView {
            action: ActionView::SendGet { endpoint: SERVICE_ENDPOINT@ },
            diagnostic: DiagnosticView { severity: Severity::Info, message: fetching_text() },
        },
        EventView::ResponseArrived => ReactionView {
            action: ActionView::DecodeBody,
            diagnostic: DiagnosticView { severity: Severity::Debug, message: decoding_text() },
        },
        EventView::FetchSettled { outcome } => ReactionView {
            action: if picture_of(outcome) is Some {
                ActionView::Publish
            } else {
                ActionView::Idle
            },
            diagnostic: selection_diagnostic(selection(outcome)),
        },
    }
}

/// The diagnostic for what [`select_image`] returned.
pub fn report(selected: &Result<String, FetchError>) -> (d: Diagnostic)
    ensures
        d@ == selection_diagnostic(selection_view(*selected)),
{
    match selected {
        Ok(url) => Diagnostic::with_detail(Severity::Info, "Got image URL: ", url.as_str()),
        Err(FetchError::TransportFailure { detail }) => Diagnostic::with_detail(
            Severity::Error,
            "Failed to fetch from Cat API: ",
            detail.as_str(),
        ),
        Err(FetchError::DecodeFailure { detail }) => Diagnostic::with_detail(
            Severity::Error,
            "Failed to parse JSON: ",
            detail.as_str(),
        ),
        Err(FetchError::EmptyResult) => Diagnostic::fixed(
            Severity::Warn,
            "API returned empty array",
        ),
    }
}

/// The skip button: a placeholder that reports the click and does nothing
/// else. It is handed no state, so it can change none.
pub fn skip_action() -> (r: Reaction)
    ensures
        r@ == reaction_to(EventView::SkipClicked),
{
    Reaction {
        action: Action::Idle,
        diagnostic: Diagnostic::fixed(Severity::Info, "Skip button clicked"),
    }
}

/// Starts a refresh: asks for one GET request to the service.
pub fn refresh_image() -> (r: Reaction)
    ensures
        r@ == reaction_to(EventView::SaveClicked),
{
    Reaction {
        action: Action::SendGet { endpoint: String::from_str(SERVICE_ENDPOINT) },
        diagnostic: Diagnostic::fixed(Severity::Info, "Fetching new cat image..."),
    }
}

/// The service has answered: asks for the body to be decoded.
pub fn response_arrived() -> (r: Reaction)
    ensures
        r@ == reaction_to(EventView::ResponseArrived),
{
    Reaction {
        action: Action::DecodeBody,
        diagnostic: Diagnostic::fixed(Severity::Debug, "Fetch successful, parsing JSON..."),
    }
}

/// Ends a refresh: applies the outcome of its request to the state.
///
/// What is reported goes by the answer alone: an error for a failure on the
/// wire or in decoding, a warning for an answer without records, and the
/// first record's address at info level for every other answer.
///
/// The state is written at most once, and only when the first record's
/// address is not empty: that address then replaces what was on display.
/// An empty address is reported like any other but is not put on display,
/// so that what is on display can always be drawn.
pub fn complete_refresh(state: &mut ImageState, outcome: FetchOutcome) -> (r: Reaction)
    ensures
        final(state)@ == image_after(old(state)@, (EventView::FetchSettled { outcome: outcome@ })),
        r@ == reaction_to(EventView::FetchSettled { outcome: outcome@ }),
        final(state)@.is_displayable(),
        outcome is TransportFailure || outcome is DecodeFailure ==> *final(state) == *old(state),
        outcome is Decoded && outcome->records.len() == 0 ==> *final(state) == *old(state),
        outcome is Decoded && outcome->records.len() > 0 && outcome->records[0].url@.len() == 0
            ==> *final(state) == *old(state),
        outcome is Decoded && outcome->records.len() > 0 && outcome->records[0].url@.len() > 0
            ==> final(state)@.url == outcome->records[0].url@,
        r.action is Publish <==> outcome is Decoded && outcome->records.len() > 0
            && outcome->records[0].url@.len() > 0,
        r.action is Publish || r.action is Idle,
        r.diagnostic.severity == Severity::Error <==> outcome is TransportFailure
            || outcome is DecodeFailure,
        r.diagnostic.severity == Severity::Warn <==> outcome is Decoded && outcome->records.len()
            == 0,
        r.diagnostic.severity == Severity::Info <==> outcome is Decoded && outcome->records.len()
            > 0,
        outcome is Decoded && outcome->records.len() > 0 ==> r.diagnostic.message@
            == got_image_text(outcome->records[0].url@),
{
    proof {
        use_type_invariant(&*state);
    }
    let selected = select_image(outcome);
    let diagnostic = report(&selected);
    match selected {
        Ok(url) => {
            if url.as_str().is_empty() {
                Reaction { action: Action::Idle, diagnostic }
            } else {
                state.set(ImageReference::new(url));
                Reaction { action: Action::Publish, diagnostic }
            }
        },
        Err(_) => Reaction { action: Action::Idle, diagnostic },
    }
}

/// Applies one event to the state and says what to do about it.
pub fn handle(state: &mut ImageState, event: Event) -> (r: Reaction)
    ensures
        final(state)@ == image_after(old(state)@, event@),
        r@ == reaction_to(event@),
        final(state)@.is_displayable(),
        !(event is FetchSettled) ==> *final(state) == *old(state),
{
    proof {
        use_type_invariant(&*state);
    }
    match event {
        Event::SkipClicked => skip_action(),
        Event::SaveClicked => refresh_image(),
        Event::ResponseArrived => response_arrived(),
        Event::FetchSettled { outcome } => complete_refresh(state, outcome),
    }
}

} // verus!
