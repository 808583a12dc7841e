//! The picture on display.

use vstd::prelude::*;

verus! {

/// Where the picture shown at start comes from.
pub const DEFAULT_IMAGE_URL: &'static str = "https://images.dog.ceo/breeds/pitbull/dog-3981540_1280.jpg";

/// The address of a picture that can be put on display. It is never empty:
/// every function of this crate that makes or hands out a reference says so.
#[derive(Debug, PartialEq, Eq)]
pub struct ImageReference {
    pub url: String,
}

/// An image reference as a mathematical value.
pub struct ImageReferenceView {
    pub url: Seq<char>,
}

impl ImageReferenceView {
    /// A reference can be shown only if it names something.
    pub open spec fn is_displayable(self) -> bool {
        self.url.len() > 0
    }
}

impl View for ImageReference {
    type V = ImageReferenceView;

    open spec fn view(&self) -> ImageReferenceView {
        ImageReferenceView { url: self.url@ }
    }
}

/// The reference that is on display before any refresh has succeeded.
pub open spec fn initial_image() -> ImageReferenceView {
    ImageReferenceView { url: DEFAULT_IMAGE_URL@ }
}

impl Clone for ImageReference {
    fn clone(&self) -> (r: ImageReference)
        ensures
            r@ == self@,
    {
        ImageReference { url: self.url.clone() }
    }
}

impl ImageReference {
    /// The reference to the picture at `url`, which must not be empty.
    pub fn new(url: String) -> (r: ImageReference)
        requires
            url@.len() > 0,
        ensures
            r@ == (ImageReferenceView { url: url@ }),
            r@.is_displayable(),
    {
        ImageReference { url }
    }

    /// The reference shown at start.
    pub fn initial() -> (r: ImageReference)
        ensures
            r@ == initial_image(),
            r@.is_displayable(),
    {
        proof {
            reveal_strlit("https://images.dog.ceo/breeds/pitbull/dog-3981540_1280.jpg");
        }
        ImageReference { url: String::from_str(DEFAULT_IMAGE_URL) }
    }
}

/// Holds the one reference that the page draws. What it holds can always be
/// displayed.
///
/// By convention there is a single writer: only the completion of a refresh
/// calls [`ImageState::set`]. Everything else reads.
#[derive(Debug, PartialEq, Eq)]
pub struct ImageState {
    current: ImageReference,
}

impl View for ImageState {
    type V = ImageReferenceView;

    closed spec fn view(&self) -> ImageReferenceView {
        self.current@
    }
}

impl Clone for ImageState {
    fn clone(&self) -> (s: ImageState)
        ensures
            s@ == self@,
    {
        proof {
            use_type_invariant(self);
        }
        ImageState { current: self.current.clone() }
    }
}

impl ImageState {
    /// Holds of every state: there is always something to draw.
    #[verifier::type_invariant]
    pub open spec fn holds_an_address(&self) -> bool {
        self@.is_displayable()
    }

    /// The state at application start: the default picture.
    pub fn new() -> (s: ImageState)
        ensures
            s@ == initial_image(),
            s@.is_displayable(),
    {
        ImageState { current: ImageReference::initial() }
    }

    /// The reference on display now.
    pub fn get(&self) -> (r: ImageReference)
        ensures
            r@ == self@,
            r@.is_displayable(),
    {
        proof {
            use_type_invariant(self);
        }
        self.current.clone()
    }

    /// Puts `new` on display in place of whatever was there.
    pub fn set(&mut self, new: ImageReference)
        requires
            new@.is_displayable(),
        ensures
            final(self)@ == new@,
            final(self)@.is_displayable(),
    {
        self.current = new;
    }
}

} // verus!
