//! The ball's image: the wait for it to load, and the extent that the
//! ball takes from it.
use vstd::prelude::*;
use crate::units::{from_pixels, pixels};

verus! {

/// Width and height of a loaded image, in pixels.
#[derive(Clone, Copy, Debug, PartialEq, Eq, Structural)]
pub struct ImageSize {
    pub width: u32,
    pub height: u32,
}

/// How far the loading of an asset has come.
#[derive(Clone, Copy, Debug, PartialEq, Eq, Structural)]
pub enum LoadState {
    NotLoaded,
    Loading,
    Loaded,
    Failed,
}

/// Why the ball's image cannot be had. Either ends the match.
#[derive(Clone, Copy, Debug, PartialEq, Eq, Structural)]
pub enum AssetError {
    /// The image failed to load.
    LoadFailed,
    /// The image is loaded, yet its size cannot be read.
    SizeUnavailable,
}

/// What stands in the way of the ball's image size, if anything does. With
/// a size already known nothing does, whatever the loader says. Without
/// one, a failed load does, and so does a loaded image whose size cannot be
/// read.
pub open spec fn load_error(
    known: Option<ImageSize>,
    state: LoadState,
    loaded: Option<ImageSize>,
) -> Option<AssetError> {
    if known is Some {
        None
    } else if state == LoadState::Failed {
        Some(AssetError::LoadFailed)
    } else if state == LoadState::Loaded && loaded is None {
        Some(AssetError::SizeUnavailable)
    } else {
        None
    }
}

/// Whether the match cannot go on: the size of the ball's image is not
/// known, and the load has failed or has left an image without a size.
pub open spec fn load_is_fatal(
    known: Option<ImageSize>,
    state: LoadState,
    loaded: Option<ImageSize>,
) -> bool {
    known is None && (state == LoadState::Failed || (state == LoadState::Loaded && loaded is None))
}

/// Computes [`load_error`]: `state` is the load state of the ball's image
/// and `loaded` its size where the loader holds the image. The match must
/// end where this gives an error, and [`wait_for_ball_assets`] may be called
/// where it gives none.
pub fn asset_error(
    known: Option<ImageSize>,
    state: LoadState,
    loaded: Option<ImageSize>,
) -> (e: Option<AssetError>)
    ensures
        e == load_error(known, state, loaded),
        e is Some == load_is_fatal(known, state, loaded),
        e == Some(AssetError::LoadFailed) ==> state == LoadState::Failed,
{
    if known.is_some() {
        None
    } else {
        match state {
            LoadState::Failed => Some(AssetError::LoadFailed),
            LoadState::Loaded => match loaded {
                Some(_) => None,
                None => Some(AssetError::SizeUnavailable),
            },
            _ => None,
        }
    }
}

/// What is known of the ball's image size after a look at the loader. A
/// size once known stays. Without one, a loaded image gives its size, and
/// any other state leaves the size unknown.
pub open spec fn awaited(
    known: Option<ImageSize>,
    state: LoadState,
    loaded: Option<ImageSize>,
) -> Option<ImageSize> {
    if known is Some {
        known
    } else if state == LoadState::Loaded {
        loaded
    } else {
        None
    }
}

/// Computes [`awaited`]: `state` is the load state of the ball's image and
/// `loaded` its size where the loader holds the image. A load that is fatal
/// is not waited for: [`asset_error`] tells.
pub fn wait_for_ball_assets(
    known: Option<ImageSize>,
    state: LoadState,
    loaded: Option<ImageSize>,
) -> (size: Option<ImageSize>)
    requires
        !load_is_fatal(known, state, loaded),
    ensures
        size == awaited(known, state, loaded),
{
    if known.is_none() {
        match state {
            LoadState::Loaded => loaded,
            _ => None,
        }
    } else {
        known
    }
}

/// The half extent of a ball with the given image: half the image's width,
/// and nothing while the size is unknown.
pub open spec fn half_extent_of(size: Option<ImageSize>) -> u32 {
    match size {
        Some(size) => pixels(size.width) / 2,
        None => 0,
    }
}

/// Computes [`half_extent_of`].
pub fn ball_half_extent(size: Option<ImageSize>) -> (half_extent: u32)
    ensures
        half_extent == half_extent_of(size),
{
    match size {
        Some(size) => from_pixels(size.width) / 2,
        None => 0,
    }
}

} // verus!
