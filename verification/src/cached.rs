//! What the cache keeps of an image: the handle under which the renderer
//! knows it, its size, and how far its loading has come.

use crate::config::PLACEHOLDER_AND_NOT_FOUND_H;
use crate::config::PLACEHOLDER_AND_NOT_FOUND_W;
use vstd::prelude::*;

verus! {

/// How far the loading of an item's image has come.
#[derive(Clone, Copy, Debug, PartialEq, Eq, Structural)]
pub enum ImgState {
    /// The image is loaded.
    Loaded,
    /// A stand-in is shown until a tick has budget left to load the image.
    Placeholder,
    /// Loading failed. It is not tried again.
    NotFound,
}

/// The handles of the two stand-in images.
#[derive(Clone, Copy, Debug, PartialEq, Eq, Structural)]
pub struct DispCtrlImgData {
    /// Shown for an image that could not be loaded.
    pub nf_id: u64,
    /// Shown for an image that is not loaded yet.
    pub placeholder_id: u64,
}

/// An image that the renderer has taken into its table.
#[derive(Clone, Copy, Debug, PartialEq, Eq, Structural)]
pub struct FetchedImage {
    pub img_id: u64,
    pub w: u32,
    pub h: u32,
}

/// A cache entry: the image shown for one item of a set.
#[derive(Clone, Copy, Debug, PartialEq, Eq, Structural)]
pub struct CachedImgData {
    pub img_id: u64,
    /// Width in pixels of the source; the renderer scales it.
    pub w: u32,
    /// Height in pixels of the source.
    pub h: u32,
    pub state: ImgState,
}

impl CachedImgData {
    /// The entry that stands in for an image that is not loaded yet.
    pub open spec fn placeholder(ids: DispCtrlImgData) -> CachedImgData {
        CachedImgData {
            img_id: ids.placeholder_id,
            w: PLACEHOLDER_AND_NOT_FOUND_W,
            h: PLACEHOLDER_AND_NOT_FOUND_H,
            state: ImgState::Placeholder,
        }
    }

    /// The entry that records the outcome of a load: the image, or the
    /// not-found stand-in where the load failed.
    pub open spec fn home_tile_or_not_found(
        fetched: Option<FetchedImage>,
        ids: DispCtrlImgData,
    ) -> CachedImgData {
        match fetched {
            Some(image) => CachedImgData {
                img_id: image.img_id,
                w: image.w,
                h: image.h,
                state: ImgState::Loaded,
            },
            None => CachedImgData {
                img_id: ids.nf_id,
                w: PLACEHOLDER_AND_NOT_FOUND_W,
                h: PLACEHOLDER_AND_NOT_FOUND_H,
                state: ImgState::NotFound,
            },
        }
    }

    /// An entry for image `img_id` of `w` by `h` pixels.
    pub fn new(img_id: u64, w: u32, h: u32, state: ImgState) -> (entry: Self)
        ensures
            entry == (CachedImgData { img_id, w, h, state }),
    {
        CachedImgData { img_id, w, h, state }
    }

    /// Computes `placeholder`.
    pub fn new_placeholder(ids: &DispCtrlImgData) -> (entry: Self)
        ensures
            entry == CachedImgData::placeholder(*ids),
    {
        CachedImgData::new(
            ids.placeholder_id,
            PLACEHOLDER_AND_NOT_FOUND_W,
            PLACEHOLDER_AND_NOT_FOUND_H,
            ImgState::Placeholder,
        )
    }

    /// Computes `home_tile_or_not_found`.
    pub fn get_home_tile_or_not_found(fetched: Option<FetchedImage>, ids: &DispCtrlImgData) -> (entry:
        Self)
        ensures
            entry == CachedImgData::home_tile_or_not_found(fetched, *ids),
    {
        match fetched {
            Some(image) => CachedImgData::new(image.img_id, image.w, image.h, ImgState::Loaded),
            None => CachedImgData::new(
                ids.nf_id,
                PLACEHOLDER_AND_NOT_FOUND_W,
                PLACEHOLDER_AND_NOT_FOUND_H,
                ImgState::NotFound,
            ),
        }
    }

    /// Whether the entry still waits for its image.
    pub fn is_placeholder(&self) -> (waiting: bool)
        ensures
            waiting == (self.state == ImgState::Placeholder),
    {
        match self.state {
            ImgState::Placeholder => true,
            _ => false,
        }
    }
}

} // verus!
