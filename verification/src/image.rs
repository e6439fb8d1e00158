//! Decoded RGBA8 images and the load status that an asset pipeline reports
//! for them.

use vstd::prelude::*;

verus! {

/// A decoded image: row-major RGBA8, four bytes per pixel.
#[derive(Debug, PartialEq, Eq)]
pub struct Image {
    pub width: usize,
    pub height: usize,
    pub data: Vec<u8>,
}

/// What an image is, apart from how it is stored.
pub struct ImageView {
    pub width: nat,
    pub height: nat,
    pub data: Seq<u8>,
}

impl View for Image {
    type V = ImageView;

    open spec fn view(&self) -> ImageView {
        ImageView { width: self.width as nat, height: self.height as nat, data: self.data@ }
    }
}

impl ImageView {
    /// The buffer holds exactly `width * height` pixels.
    pub open spec fn is_well_formed(self) -> bool {
        self.data.len() == self.width * self.height * 4
    }
}

impl Clone for Image {
    fn clone(&self) -> (copy: Image)
        ensures
            copy@ == self@,
    {
        Image { width: self.width, height: self.height, data: self.data.clone() }
    }
}

impl Image {
    /// An image of the given size over the given bytes.
    pub fn new(width: usize, height: usize, data: Vec<u8>) -> (image: Image)
        ensures
            image@ == (ImageView { width: width as nat, height: height as nat, data: data@ }),
    {
        Image { width, height, data }
    }
}

/// Load status of a requested asset.
#[derive(Clone, Copy, Debug, PartialEq, Eq, Structural)]
pub enum LoadState {
    NotLoaded,
    Loading,
    Loaded,
    Failed,
}

/// Why an image could not be used yet.
#[derive(Clone, Copy, Debug, PartialEq, Eq, Structural)]
pub enum ImageIndexError {
    /// The asset is still on its way: ask again later.
    NotLoaded,
    /// The asset will never arrive.
    LoadFailure,
}

impl LoadState {
    /// What stands in the way of using an asset in this state, if anything.
    pub open spec fn obstacle(self) -> Option<ImageIndexError> {
        match self {
            LoadState::NotLoaded | LoadState::Loading => Some(ImageIndexError::NotLoaded),
            LoadState::Failed => Some(ImageIndexError::LoadFailure),
            LoadState::Loaded => None,
        }
    }

    /// Tells a usable asset from one that is pending or lost.
    pub fn check(self) -> (r: Result<(), ImageIndexError>)
        ensures
            r == match self.obstacle() {
                Some(e) => Err::<(), ImageIndexError>(e),
                None => Ok(()),
            },
    {
        match self {
            LoadState::NotLoaded | LoadState::Loading => Err(ImageIndexError::NotLoaded),
            LoadState::Failed => Err(ImageIndexError::LoadFailure),
            LoadState::Loaded => Ok(()),
        }
    }
}

impl ImageIndexError {
    /// The text of this error.
    pub open spec fn text(self) -> Seq<char> {
        match self {
            ImageIndexError::NotLoaded => "NotLoaded"@,
            ImageIndexError::LoadFailure => "LoadFailure"@,
        }
    }

    /// The error's name as text.
    pub fn message(&self) -> (s: String)
        ensures
            s@ == self.text(),
    {
        match self {
            ImageIndexError::NotLoaded => String::from_str("NotLoaded"),
            ImageIndexError::LoadFailure => String::from_str("LoadFailure"),
        }
    }
}

} // verus!
