//! Pure tile-map arithmetic.
//!
//! The tile map itself — its JSON, textures and draw calls — is an
//! external collaborator. What the simulation needs from it are plain
//! values: the map's size in world units, which tile indices a viewport
//! covers, where a tile sits, and which static colliders a layer
//! contributes to the collision world.

use vstd::prelude::*;

use crate::geometry::Recti;
use crate::geometry::Vec2i;
use crate::geometry::COORD_LIMIT;
use crate::physics::div_trunc;
use crate::physics::spec_max;

verus! {

/// What a tile contributes to the collision world.
#[derive(Clone, Copy, PartialEq, Eq, Structural, Debug)]
pub enum TileKind {
    /// No collider.
    Empty,
    /// Solid from every side.
    Solid,
    /// A one-way platform: solid from above, passable from below.
    JumpThrough,
}

/// The map's size in world units: the tile grid times the tile size.
pub fn map_size(width: u32, height: u32, tile_width: u32, tile_height: u32) -> (r: Vec2i)
    requires
        width * tile_width <= COORD_LIMIT,
        height * tile_height <= COORD_LIMIT,
    ensures
        r.x == width * tile_width,
        r.y == height * tile_height,
{
    Vec2i::new((width as i64) * (tile_width as i64), (height as i64) * (tile_height as i64))
}

/// Where a tile sits in world units.
pub fn tile_position(x: u32, y: u32, tile_width: u32, tile_height: u32) -> (r: Vec2i)
    requires
        x * tile_width <= COORD_LIMIT,
        y * tile_height <= COORD_LIMIT,
    ensures
        r.x == x * tile_width,
        r.y == y * tile_height,
{
    Vec2i::new((x as i64) * (tile_width as i64), (y as i64) * (tile_height as i64))
}

/// An inclusive range of tile indices per axis.
#[derive(Clone, Copy, PartialEq, Eq, Structural, Debug)]
pub struct TileRange {
    pub x_start: i64,
    pub x_end: i64,
    pub y_start: i64,
    pub y_end: i64,
}

/// First tile index covering a viewport edge at `pos`, one tile of
/// margin included, never below zero.
pub open spec fn tile_index_low(pos: int, tile: int) -> int {
    spec_max(div_trunc(pos, tile) - 1, 0)
}

/// Last tile index covering a viewport edge at `pos`, one tile of margin
/// included, never below zero.
pub open spec fn tile_index_high(pos: int, tile: int) -> int {
    spec_max(div_trunc(pos, tile) + 1, 0)
}

/// The tile indices a viewport covers, with a one-tile margin on each
/// side, clamped at the map origin.
pub fn visible_tile_range(viewport: Recti, tile_width: i64, tile_height: i64) -> (r: TileRange)
    requires
        1 <= tile_width <= COORD_LIMIT,
        1 <= tile_height <= COORD_LIMIT,
        -8 * COORD_LIMIT <= viewport.x <= 8 * COORD_LIMIT,
        -8 * COORD_LIMIT <= viewport.y <= 8 * COORD_LIMIT,
        0 <= viewport.w <= COORD_LIMIT,
        0 <= viewport.h <= COORD_LIMIT,
    ensures
        r.x_start == tile_index_low(viewport.x as int, tile_width as int),
        r.x_end == tile_index_high(viewport.x + viewport.w, tile_width as int),
        r.y_start == tile_index_low(viewport.y as int, tile_height as int),
        r.y_end == tile_index_high(viewport.y + viewport.h, tile_height as int),
        0 <= r.x_start && 0 <= r.x_end && 0 <= r.y_start && 0 <= r.y_end,
{
    let x_start = max0(viewport.x / tile_width - 1);
    let x_end = max0((viewport.x + viewport.w) / tile_width + 1);
    let y_start = max0(viewport.y / tile_height - 1);
    let y_end = max0((viewport.y + viewport.h) / tile_height + 1);
    TileRange { x_start, x_end, y_start, y_end }
}

fn max0(a: i64) -> (r: i64)
    ensures
        r == spec_max(a as int, 0),
{
    if a >= 0 {
        a
    } else {
        0
    }
}

/// The static colliders one tile layer contributes: a present tile
/// becomes the layer's collider kind, an absent one no collider.
pub fn collider_tiles(present: &Vec<bool>, collider_type: TileKind) -> (r: Vec<TileKind>)
    ensures
        r@.len() == present@.len(),
        forall|i: int|
            0 <= i < present@.len() ==> r@[i] == (if present@[i] {
                collider_type
            } else {
                TileKind::Empty
            }),
{
    let mut out: Vec<TileKind> = Vec::new();
    let mut idx: usize = 0;
    while idx < present.len()
        invariant
            0 <= idx <= present@.len(),
            out@.len() == idx,
            forall|i: int|
                0 <= i < idx ==> out@[i] == (if present@[i] {
                    collider_type
                } else {
                    TileKind::Empty
                }),
        decreases present@.len() - idx,
    {
        if present[idx] {
            out.push(collider_type);
        } else {
            out.push(TileKind::Empty);
        }
        idx = idx + 1;
    }
    out
}

} // verus!
