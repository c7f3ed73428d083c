//! Sprite sheet resources: the atlas layouts cut from the loaded images,
//! and the handle of the stage sheet shared by every tile.
//!
//! The images themselves and the atlas objects live in the host engine;
//! this module fixes the exact grid each image is partitioned into and
//! carries the resulting handles as plain values.

use vstd::prelude::*;

verus! {

/// The grid an image is partitioned into to form a texture atlas: square
/// cells of `cell_px` pixels, `cols` columns by `rows` rows, separated by
/// a padding measured in tenths of a pixel.
#[derive(Debug, Clone, Copy, PartialEq, Eq, Structural)]
pub struct AtlasGrid {
    pub cell_px: u32,
    pub cols: u32,
    pub rows: u32,
    pub pad_tenths_px: u32,
}

/// Handle of the stage (tile) sprite sheet atlas, resolved once at startup.
#[derive(Debug, Clone, Copy, PartialEq, Eq, Structural)]
pub struct AsciiSheet(pub u64);

/// The sheet's atlas handle, as every tile sprite references it.
pub fn get_zero(ascii: &AsciiSheet) -> (r: u64)
    ensures
        r == ascii.0,
{
    ascii.0
}

/// The grid of the stage sheet: 32-pixel cells, 2 columns by 2 rows, with
/// 2 pixels of padding.
pub fn stage_atlas_grid() -> (r: AtlasGrid)
    ensures
        r == (AtlasGrid { cell_px: 32, cols: 2, rows: 2, pad_tenths_px: 20 }),
{
    AtlasGrid { cell_px: 32, cols: 2, rows: 2, pad_tenths_px: 20 }
}

/// The grid of the player's character sheet: 32-pixel cells, 2 columns by
/// 5 rows, with a tenth of a pixel of padding.
pub fn player_atlas_grid() -> (r: AtlasGrid)
    ensures
        r == (AtlasGrid { cell_px: 32, cols: 2, rows: 5, pad_tenths_px: 1 }),
{
    AtlasGrid { cell_px: 32, cols: 2, rows: 5, pad_tenths_px: 1 }
}

} // verus!
