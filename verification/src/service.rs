//! The image service: what it is asked, what it answers, and which picture
//! an answer selects.

use vstd::prelude::*;
use crate::image::ImageReferenceView;

verus! {

/// The one address that is ever asked for a picture.
pub const SERVICE_ENDPOINT: &'static str = "https://api.thecatapi.com/v1/images/search";

/// One entry of the service's answer.
#[derive(Debug, PartialEq, Eq)]
pub struct RemoteImageRecord {
    pub id: String,
    pub url: String,
    pub width: u32,
    pub height: u32,
}

/// A record as a mathematical value.
pub struct RemoteImageRecordView {
    pub id: Seq<char>,
    pub url: Seq<char>,
    pub width: nat,
    pub height: nat,
}

impl View for RemoteImageRecord {
    type V = RemoteImageRecordView;

    open spec fn view(&self) -> RemoteImageRecordView {
        RemoteImageRecordView {
            id: self.id@,
            url: self.url@,
            width: self.width as nat,
            height: self.height as nat,
        }
    }
}

impl Clone for RemoteImageRecord {
    fn clone(&self) -> (r: RemoteImageRecord)
        ensures
            r@ == self@,
    {
        RemoteImageRecord {
            id: self.id.clone(),
            url: self.url.clone(),
            width: self.width,
            height: self.height,
        }
    }
}

/// How one request to the service ended, as its caller saw it.
#[derive(Debug, PartialEq, Eq)]
pub enum FetchOutcome {
    /// No answer arrived: the connection or the network failed.
    TransportFailure { detail: String },
    /// An answer arrived, but its body is not a sequence of records.
    DecodeFailure { detail: String },
    /// An answer arrived and its body held these records, in this order.
    Decoded { records: Vec<RemoteImageRecord> },
}

/// An outcome as a mathematical value.
pub enum FetchOutcomeView {
    TransportFailure { detail: Seq<char> },
    DecodeFailure { detail: Seq<char> },
    Decoded { records: Seq<RemoteImageRecordView> },
}

impl View for FetchOutcome {
    type V = FetchOutcomeView;

    open spec fn view(&self) -> FetchOutcomeView {
        match self {
            FetchOutcome::TransportFailure { detail } => FetchOutcomeView::TransportFailure {
                detail: detail@,
            },
            FetchOutcome::DecodeFailure { detail } => FetchOutcomeView::DecodeFailure {
                detail: detail@,
            },
            FetchOutcome::Decoded { records } => FetchOutcomeView::Decoded {
                records: records@.map_values(|r: RemoteImageRecord| r@),
            },
        }
    }
}

impl Clone for FetchOutcome {
    fn clone(&self) -> (r: FetchOutcome)
        ensures
            r@ == self@,
    {
        match self {
            FetchOutcome::TransportFailure { detail } => FetchOutcome::TransportFailure {
                detail: detail.clone(),
            },
            FetchOutcome::DecodeFailure { detail } => FetchOutcome::DecodeFailure {
                detail: detail.clone(),
            },
            FetchOutcome::Decoded { records } => {
                let copy = records.clone();
                assert(copy@.map_values(|r: RemoteImageRecord| r@) =~= records@.map_values(
                    |r: RemoteImageRecord| r@,
                ));
                FetchOutcome::Decoded { records: copy }
            },
        }
    }
}

/// Why a request put no new picture on display.
#[derive(Debug, PartialEq, Eq)]
pub enum FetchError {
    /// No answer arrived.
    TransportFailure { detail: String },
    /// The answer could not be decoded.
    DecodeFailure { detail: String },
    /// The answer decoded to no records at all.
    EmptyResult,
}

/// A fetch error as a mathematical value.
pub enum FetchErrorView {
    TransportFailure { detail: Seq<char> },
    DecodeFailure { detail: Seq<char> },
    EmptyResult,
}

impl View for FetchError {
    type V = FetchErrorView;

    open spec fn view(&self) -> FetchErrorView {
        match self {
            FetchError::TransportFailure { detail } => FetchErrorView::TransportFailure {
                detail: detail@,
            },
            FetchError::DecodeFailure { detail } => FetchErrorView::DecodeFailure {
                detail: detail@,
            },
            FetchError::EmptyResult => FetchErrorView::EmptyResult,
        }
    }
}

impl Clone for FetchError {
    fn clone(&self) -> (r: FetchError)
        ensures
            r@ == self@,
    {
        match self {
            FetchError::TransportFailure { detail } => FetchError::TransportFailure {
                detail: detail.clone(),
            },
            FetchError::DecodeFailure { detail } => FetchError::DecodeFailure {
                detail: detail.clone(),
            },
            FetchError::EmptyResult => FetchError::EmptyResult,
        }
    }
}

/// What an outcome selects: the address of the first record, whatever it
/// holds and whatever follows it; or the reason why there is none. Only an
/// answer without records is an empty result.
pub open spec fn selection(outcome: FetchOutcomeView) -> Result<Seq<char>, FetchErrorView> {
    match outcome {
        FetchOutcomeView::TransportFailure { detail } => Err(
            FetchErrorView::TransportFailure { detail },
        ),
        FetchOutcomeView::DecodeFailure { detail } => Err(FetchErrorView::DecodeFailure { detail }),
        FetchOutcomeView::Decoded { records } => if records.len() == 0 {
            Err(FetchErrorView::EmptyResult)
        } else {
            Ok(records[0].url)
        },
    }
}

/// The picture that an outcome puts on display: the one at the selected
/// address, unless that address is empty. A reference is never empty, so an
/// empty address is selected and reported, but names no picture.
pub open spec fn picture_of(outcome: FetchOutcomeView) -> Option<ImageReferenceView> {
    match selection(outcome) {
        Ok(url) => if url.len() > 0 {
            Some(ImageReferenceView { url })
        } else {
            None
        },
        Err(_) => None,
    }
}

/// The mathematical value of what [`select_image`] returns.
pub open spec fn selection_view(r: Result<String, FetchError>) -> Result<
    Seq<char>,
    FetchErrorView,
> {
    match r {
        Ok(url) => Ok(url@),
        Err(error) => Err(error@),
    }
}

/// Selects the address of the picture from the outcome of a request.
///
/// Succeeds exactly when the answer decoded to at least one record, with
/// the address of the first one as it is. Each failure is passed on under
/// its own kind, an answer without records as [`FetchError::EmptyResult`].
pub fn select_image(outcome: FetchOutcome) -> (r: Result<String, FetchError>)
    ensures
        selection_view(r) == selection(outcome@),
        r is Ok <==> outcome is Decoded && outcome->records.len() > 0,
        r is Ok ==> r->Ok_0@ == outcome->records[0].url@,
        r == Err::<String, FetchError>(FetchError::EmptyResult) <==> outcome is Decoded
            && outcome->records.len() == 0,
        r is Err && r->Err_0 is TransportFailure <==> outcome is TransportFailure,
        r is Err && r->Err_0 is DecodeFailure <==> outcome is DecodeFailure,
{
    match outcome {
        FetchOutcome::TransportFailure { detail } => Err(FetchError::TransportFailure { detail }),
        FetchOutcome::DecodeFailure { detail } => Err(FetchError::DecodeFailure { detail }),
        FetchOutcome::Decoded { records } => {
            if records.len() == 0 {
                Err(FetchError::EmptyResult)
            } else {
                Ok(records[0].url.clone())
            }
        },
    }
}

} // verus!
