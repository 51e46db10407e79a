//! Camera limits, move events, and the layer build / tile recycling
//! algorithms.

use crate::fixed::{
    add_sat, ceil_div, diag_spec, diagonal, div_ceil64, fx_add, fx_half, fx_mul, fx_scale, fx_sub,
    half_fx, in_range, is_odd, lemma_ceil_div_bounds, mul_fx, scale_sat, sub_sat, Vec2, FX_MAX,
    FX_MIN,
};
use crate::layer::{
    mirrors_x, mirrors_y, repeats_horizontally, repeats_vertically, resolved_speed,
    sprite_update_spec, strategy_of, valid_layer, Color, LayerComponent, LayerData,
    LayerTextureComponent, RepeatStrategy, TileCount, TileSprite,
};
use crate::sprite::SpriteFrameUpdate;
use vstd::arithmetic::div_mod::{
    lemma_fundamental_div_mod_converse_div, lemma_fundamental_div_mod_converse_mod,
    lemma_mod_multiples_basic, lemma_mod_multiples_vanish,
};
use vstd::prelude::*;

verus! {

/// A scalar clamp range, default unbounded (the whole fixed-point range).
#[derive(Clone, Copy, Debug, PartialEq, Eq, Structural)]
pub struct Limit {
    pub min: i64,
    pub max: i64,
}

/// Clamping as `min(max(v, lo), hi)` computes it: the lower bound is
/// applied first, then the upper bound, which therefore wins when the range
/// is inverted.
pub open spec fn clamp_spec(l: Limit, v: int) -> int {
    let lower = if v > l.min {
        v
    } else {
        l.min as int
    };
    if lower < l.max {
        lower
    } else {
        l.max as int
    }
}

impl Limit {
    pub fn new(min: i64, max: i64) -> (r: Self)
        ensures
            r == (Limit { min, max }),
    {
        Self { min, max }
    }

    /// Bounded below by zero only.
    pub fn zero_to_infinity() -> (r: Self)
        ensures
            r == (Limit { min: 0i64, max: FX_MAX }),
    {
        Self { min: 0, max: FX_MAX }
    }

    /// Bounded between zero and `max`.
    pub fn zero_to(max: i64) -> (r: Self)
        ensures
            r == (Limit { min: 0i64, max }),
    {
        Self { min: 0, max }
    }

    /// Clamp `value` into the range.
    pub fn fix(&self, value: i64) -> (r: i64)
        ensures
            r as int == clamp_spec(*self, value as int),
    {
        let lower: i64 = if value > self.min {
            value
        } else {
            self.min
        };
        if lower < self.max {
            lower
        } else {
            self.max
        }
    }
}

impl Default for Limit {
    /// The unbounded range: clamping with it changes nothing.
    fn default() -> (r: Self)
        ensures
            r == (Limit { min: FX_MIN, max: FX_MAX }),
    {
        Self { min: FX_MIN, max: FX_MAX }
    }
}

/// Two independent scalar clamps, one per axis.
#[derive(Clone, Copy, Debug, PartialEq, Eq, Structural)]
pub struct Vec2Limit {
    pub x: Limit,
    pub y: Limit,
}

impl Vec2Limit {
    pub fn new(x: Limit, y: Limit) -> (r: Self)
        ensures
            r == (Vec2Limit { x, y }),
    {
        Self { x, y }
    }

    /// Clamp each component of `vec` into its axis range.
    pub fn fix(&self, vec: Vec2) -> (r: Vec2)
        ensures
            r.x as int == clamp_spec(self.x, vec.x as int),
            r.y as int == clamp_spec(self.y, vec.y as int),
    {
        Vec2 { x: self.x.fix(vec.x), y: self.y.fix(vec.y) }
    }
}

impl Default for Vec2Limit {
    fn default() -> (r: Self)
        ensures
            r.x == (Limit { min: FX_MIN, max: FX_MAX }),
            r.y == (Limit { min: FX_MIN, max: FX_MAX }),
    {
        Self { x: Limit::default(), y: Limit::default() }
    }
}

/// A request to move a camera and its layers this frame.
#[derive(Clone, Copy, Debug, PartialEq, Eq, Structural)]
pub struct ParallaxMoveEvent {
    /// Requested camera translation.
    pub translation: Vec2,
    /// Requested camera rotation (radians, applied without clamping).
    pub rotation: i64,
    /// The camera to move.
    pub camera: u64,
}

impl ParallaxMoveEvent {
    pub fn has_translation(&self) -> (r: bool)
        ensures
            r == (self.translation != (Vec2 { x: 0i64, y: 0i64 })),
    {
        self.translation.x != 0 || self.translation.y != 0
    }

    pub fn has_right_translation(&self) -> (r: bool)
        ensures
            r == (self.translation.x > 0),
    {
        self.translation.x > 0
    }

    pub fn has_left_translation(&self) -> (r: bool)
        ensures
            r == (self.translation.x < 0),
    {
        self.translation.x < 0
    }

    pub fn has_up_translation(&self) -> (r: bool)
        ensures
            r == (self.translation.y > 0),
    {
        self.translation.y > 0
    }

    pub fn has_down_translation(&self) -> (r: bool)
        ensures
            r == (self.translation.y < 0),
    {
        self.translation.y < 0
    }
}

/// Per-camera parallax state: which render layer its tiles draw on and how
/// far it may travel.
#[derive(Clone, Copy, Debug, PartialEq, Eq, Structural)]
pub struct ParallaxCameraComponent {
    pub render_layer: u8,
    pub limits: Vec2Limit,
}

impl ParallaxCameraComponent {
    /// Clamp a camera position into the configured travel range.
    pub fn inside_limits(&self, translation: Vec2) -> (r: Vec2)
        ensures
            r.x as int == clamp_spec(self.limits.x, translation.x as int),
            r.y as int == clamp_spec(self.limits.y, translation.y as int),
    {
        self.limits.fix(translation)
    }

    pub fn new(render_layer: u8) -> (r: Self)
        ensures
            r.render_layer == render_layer,
            r.limits.x == (Limit { min: FX_MIN, max: FX_MAX }),
            r.limits.y == (Limit { min: FX_MIN, max: FX_MAX }),
    {
        Self { render_layer, limits: Vec2Limit::default() }
    }

    /// Resolve a requested translation against the travel limits: the new
    /// camera position is the clamped prospective position, and the
    /// effective delta is what the camera actually moved, so a request
    /// pushing further into a limit is silently absorbed.
    pub fn apply_move(&self, camera_pos: Vec2, translation: Vec2) -> (r: (Vec2, Vec2))
        ensures
            r.0.x as int == clamp_spec(self.limits.x, fx_add(camera_pos.x as int, translation.x as int)),
            r.0.y as int == clamp_spec(self.limits.y, fx_add(camera_pos.y as int, translation.y as int)),
            r.1.x as int == fx_sub(r.0.x as int, camera_pos.x as int),
            r.1.y as int == fx_sub(r.0.y as int, camera_pos.y as int),
    {
        let prospective: Vec2 = Vec2 {
            x: crate::fixed::add_sat(camera_pos.x, translation.x),
            y: crate::fixed::add_sat(camera_pos.y, translation.y),
        };
        let clamped: Vec2 = self.limits.fix(prospective);
        let effective: Vec2 = Vec2 {
            x: sub_sat(clamped.x, camera_pos.x),
            y: sub_sat(clamped.y, camera_pos.y),
        };
        (clamped, effective)
    }
}

impl Default for ParallaxCameraComponent {
    fn default() -> (r: Self)
        ensures
            r.render_layer == 0u8,
            r.limits.x == (Limit { min: FX_MIN, max: FX_MAX }),
            r.limits.y == (Limit { min: FX_MIN, max: FX_MAX }),
    {
        Self { render_layer: 0, limits: Vec2Limit::default() }
    }
}

/// Clamping with a well-ordered limit always lands inside the range, and
/// leaves values already inside it untouched.
pub proof fn lemma_clamp_in_range(l: Limit, v: int)
    requires
        l.min <= l.max,
    ensures
        l.min <= clamp_spec(l, v) <= l.max,
        l.min <= v <= l.max ==> clamp_spec(l, v) == v,
{
}

/// A camera standing at a boundary absorbs any request pushing further into
/// it: the clamped prospective position equals the current one, so the
/// effective delta on that axis is zero.
pub proof fn lemma_boundary_absorbs(l: Limit, pos: int, translation: int)
    requires
        l.min <= l.max,
        in_range(pos),
        (pos == l.max && translation >= 0) || (pos == l.min && translation <= 0),
    ensures
        clamp_spec(l, fx_add(pos, translation)) == pos,
        fx_sub(clamp_spec(l, fx_add(pos, translation)), pos) == 0,
{
}

/// How many grid cells are needed on one axis: the viewport diagonal
/// divided by the scaled tile extent, rounded up; zero (one tile, no
/// replication) when the axis does not repeat or the scaled extent is
/// degenerate.
pub open spec fn axis_max_index(repeat: bool, diag: int, tile: int, scale: int) -> int {
    if repeat && fx_mul(tile, scale) > 0 {
        ceil_div(diag, fx_mul(tile, scale))
    } else {
        0
    }
}

/// The tile replication count for a maximum grid index: `max(2 * mi, 1)`,
/// always even so mirrored tiling stays symmetric about the center, or
/// exactly one on a non-replicating axis.
pub open spec fn axis_tile_count(mi: int) -> int {
    if mi >= 1 {
        2 * mi
    } else {
        1
    }
}

/// The first grid cell on an axis: cells range over `(-mi, mi]`, or just
/// `{0}` without replication.
pub open spec fn axis_first_cell(mi: int) -> int {
    if mi >= 1 {
        1 - mi
    } else {
        0
    }
}

/// The horizontal grid sizing of a layer against a viewport.
pub open spec fn x_max_index(d: LayerData, w: Vec2) -> int {
    axis_max_index(
        repeats_horizontally(d.repeat),
        diag_spec(w.x as int, w.y as int),
        d.tile_size.x as int,
        d.scale.x as int,
    )
}

/// The vertical grid sizing of a layer against a viewport.
pub open spec fn y_max_index(d: LayerData, w: Vec2) -> int {
    axis_max_index(
        repeats_vertically(d.repeat),
        diag_spec(w.x as int, w.y as int),
        d.tile_size.y as int,
        d.scale.y as int,
    )
}

/// Horizontal tile replication count of a layer against a viewport.
pub open spec fn x_tile_count(d: LayerData, w: Vec2) -> int {
    axis_tile_count(x_max_index(d, w))
}

/// Vertical tile replication count of a layer against a viewport.
pub open spec fn y_tile_count(d: LayerData, w: Vec2) -> int {
    axis_tile_count(y_max_index(d, w))
}

/// How many tiles the layer spawns in total.
pub open spec fn tile_total(d: LayerData, w: Vec2) -> int {
    x_tile_count(d, w) * y_tile_count(d, w)
}

/// The replication count on each axis is even, or exactly one on an axis
/// without replication, for every viewport and tile geometry.
pub proof fn lemma_tile_count_even(repeat: bool, diag: int, tile: int, scale: int)
    requires
        0 <= diag,
    ensures
        axis_tile_count(axis_max_index(repeat, diag, tile, scale)) == 1 || axis_tile_count(
            axis_max_index(repeat, diag, tile, scale),
        ) % 2 == 0,
        axis_tile_count(axis_max_index(repeat, diag, tile, scale)) >= 1,
{
    if repeat && fx_mul(tile, scale) > 0 {
        lemma_ceil_div_bounds(diag, fx_mul(tile, scale));
    }
    let mi = axis_max_index(repeat, diag, tile, scale);
    if mi >= 1 {
        lemma_mod_multiples_basic(mi, 2);
        assert(mi * 2 == 2 * mi) by (nonlinear_arith);
    }
}

/// One tile to spawn: its grid cell, its local offset from the layer
/// container, the mirror flips baked in at spawn time, and its animation
/// state if the layer animates.
#[derive(Clone, Copy, Debug, PartialEq, Eq)]
pub struct Tile {
    /// Integer grid cell offset from the layer's center.
    pub grid_x: i64,
    pub grid_y: i64,
    /// Local offset from the layer container: the grid cell times the tile
    /// size.
    pub position: Vec2,
    /// Visual flips after applying the mirror policy to the base flip.
    pub sprite: TileSprite,
    /// Animation state, if the layer animates.
    pub frame_update: Option<SpriteFrameUpdate>,
}

/// The tile at linear index `j` of a layer's grid: cells are laid out
/// column-major, vertical cells within one horizontal cell first.
pub open spec fn tile_at(d: LayerData, w: Vec2, j: int) -> Tile {
    let cy = y_tile_count(d, w);
    let gx = axis_first_cell(x_max_index(d, w)) + j / cy;
    let gy = axis_first_cell(y_max_index(d, w)) + j % cy;
    Tile {
        grid_x: gx as i64,
        grid_y: gy as i64,
        position: Vec2 {
            x: fx_scale(d.tile_size.x as int, gx) as i64,
            y: fx_scale(d.tile_size.y as int, gy) as i64,
        },
        sprite: TileSprite {
            flip_x: d.flip.flip_x ^ (mirrors_x(strategy_of(d.repeat)) && is_odd(gx)),
            flip_y: d.flip.flip_y ^ (mirrors_y(strategy_of(d.repeat)) && is_odd(gy)),
        },
        frame_update: sprite_update_spec(d),
    }
}

/// Everything needed to spawn one parallax layer: the container's
/// components and transform, and one entry per tile.
#[derive(Clone, Debug)]
pub struct SpawnedLayer {
    /// Runtime component for the layer container entity.
    pub layer: LayerComponent,
    /// Texture data each tile carries for recycling.
    pub texture: LayerTextureComponent,
    /// The container's initial position.
    pub position: Vec2,
    /// The container's z depth.
    pub z: i64,
    /// The container's scale.
    pub scale: Vec2,
    /// Tint applied to every tile.
    pub color: Color,
    /// Path of the texture to load; opaque to this library.
    pub path: String,
    /// Render layer the host engine should draw the tiles on.
    pub render_layer: u8,
    /// The tiles of the layer's grid, in layout order.
    pub tiles: Vec<Tile>,
}

/// Whether `out` is exactly the layer that descriptor `d` spawns for
/// viewport `w`.
pub open spec fn layer_built(
    d: LayerData,
    w: Vec2,
    camera: u64,
    render_layer: u8,
    out: SpawnedLayer,
) -> bool {
    &&& out.layer.speed == resolved_speed(d.speed)
    &&& out.layer.repeat == d.repeat
    &&& out.layer.camera == camera
    &&& out.layer.texture_count.x as int == x_tile_count(d, w)
    &&& out.layer.texture_count.y as int == y_tile_count(d, w)
    &&& out.texture == (LayerTextureComponent { width: d.tile_size.x, height: d.tile_size.y })
    &&& out.position == d.position
    &&& out.z == d.z
    &&& out.scale == d.scale
    &&& out.color == d.color
    &&& out.path@ == d.path@
    &&& out.render_layer == render_layer
    &&& out.tiles@.len() == tile_total(d, w)
    &&& forall|j: int| 0 <= j < out.tiles@.len() ==> out.tiles@[j] == tile_at(d, w, j)
}

/// A request to (re)build the parallax layers of one camera.
#[derive(Clone, Debug)]
pub struct CreateParallaxEvent {
    pub layers_data: Vec<LayerData>,
    pub camera: u64,
}

impl CreateParallaxEvent {
    /// The tile replication counts a descriptor needs against a viewport;
    /// lets a caller bound the total tile count before building.
    pub fn replication_counts(layer: &LayerData, window_size: Vec2) -> (r: TileCount)
        ensures
            r.x as int == x_tile_count(*layer, window_size),
            r.y as int == y_tile_count(*layer, window_size),
            r.x >= 1,
            r.y >= 1,
            r.x == 1 || r.x as int % 2 == 0,
            r.y == 1 || r.y as int % 2 == 0,
    {
        let diag: i64 = diagonal(window_size.x, window_size.y);
        proof {
            lemma_tile_count_even(
                repeats_horizontally(layer.repeat),
                diag as int,
                layer.tile_size.x as int,
                layer.scale.x as int,
            );
            lemma_tile_count_even(
                repeats_vertically(layer.repeat),
                diag as int,
                layer.tile_size.y as int,
                layer.scale.y as int,
            );
        }
        let x_denom: i64 = mul_fx(layer.tile_size.x, layer.scale.x);
        let x_mi: i64 = if layer.repeat.has_horizontal() && x_denom > 0 {
            div_ceil64(diag, x_denom)
        } else {
            0
        };
        let y_denom: i64 = mul_fx(layer.tile_size.y, layer.scale.y);
        let y_mi: i64 = if layer.repeat.has_vertical() && y_denom > 0 {
            div_ceil64(diag, y_denom)
        } else {
            0
        };
        let count_x: i64 = if x_mi >= 1 {
            2 * x_mi
        } else {
            1
        };
        let count_y: i64 = if y_mi >= 1 {
            2 * y_mi
        } else {
            1
        };
        TileCount { x: count_x, y: count_y }
    }

    /// Compute the layers to spawn for this request: for each descriptor in
    /// order, resolve its speed, size its grid against the viewport
    /// diagonal, and lay out one tile per grid cell with the mirror policy
    /// applied.  The host engine spawns entities from the result.
    pub fn create_layers(&self, window_size: Vec2, render_layer: u8) -> (r: Vec<SpawnedLayer>)
        requires
            forall|i: int| #![auto] 0 <= i < self.layers_data@.len() ==> valid_layer(
                self.layers_data@[i],
            ),
            forall|i: int| #![auto] 0 <= i < self.layers_data@.len() ==> tile_total(
                self.layers_data@[i],
                window_size,
            ) <= usize::MAX,
        ensures
            r@.len() == self.layers_data@.len(),
            forall|i: int| #![auto] 0 <= i < r@.len() ==> layer_built(
                self.layers_data@[i],
                window_size,
                self.camera,
                render_layer,
                r@[i],
            ),
    {
        let mut result: Vec<SpawnedLayer> = Vec::new();
        let diag: i64 = diagonal(window_size.x, window_size.y);
        let n: usize = self.layers_data.len();
        let mut i: usize = 0;
        while i < n
            invariant
                n == self.layers_data@.len(),
                0 <= i <= n,
                diag as int == diag_spec(window_size.x as int, window_size.y as int),
                0 <= diag <= FX_MAX,
                forall|k: int| #![auto] 0 <= k < n ==> valid_layer(self.layers_data@[k]),
                forall|k: int| #![auto] 0 <= k < n ==> tile_total(
                    self.layers_data@[k],
                    window_size,
                ) <= usize::MAX,
                result@.len() == i,
                forall|k: int| #![auto] 0 <= k < i ==> layer_built(
                    self.layers_data@[k],
                    window_size,
                    self.camera,
                    render_layer,
                    result@[k],
                ),
            decreases n - i,
        {
            let layer: &LayerData = &self.layers_data[i];
            let ghost d: LayerData = self.layers_data@[i as int];

            let x_denom: i64 = mul_fx(layer.tile_size.x, layer.scale.x);
            let x_mi: i64 = if layer.repeat.has_horizontal() && x_denom > 0 {
                div_ceil64(diag, x_denom)
            } else {
                0
            };
            let y_denom: i64 = mul_fx(layer.tile_size.y, layer.scale.y);
            let y_mi: i64 = if layer.repeat.has_vertical() && y_denom > 0 {
                div_ceil64(diag, y_denom)
            } else {
                0
            };
            proof {
                assert(x_mi as int == x_max_index(d, window_size));
                assert(y_mi as int == y_max_index(d, window_size));
            }
            let count_x: i64 = if x_mi >= 1 {
                2 * x_mi
            } else {
                1
            };
            let count_y: i64 = if y_mi >= 1 {
                2 * y_mi
            } else {
                1
            };
            let first_x: i64 = if x_mi >= 1 {
                1 - x_mi
            } else {
                0
            };
            let first_y: i64 = if y_mi >= 1 {
                1 - y_mi
            } else {
                0
            };
            let frame_update: Option<SpriteFrameUpdate> = layer.create_animation_bundle();
            let strategy: RepeatStrategy = layer.repeat.get_strategy();

            let mut tiles: Vec<Tile> = Vec::new();
            let mut xi: i64 = 0;
            while xi < count_x
                invariant
                    *layer == d,
                    valid_layer(d),
                    count_x as int == x_tile_count(d, window_size),
                    count_y as int == y_tile_count(d, window_size),
                    first_x as int == axis_first_cell(x_max_index(d, window_size)),
                    first_y as int == axis_first_cell(y_max_index(d, window_size)),
                    -FX_MAX <= first_x <= 0,
                    -FX_MAX <= first_y <= 0,
                    1 <= count_y,
                    first_x + count_x <= FX_MAX + 1,
                    first_y + count_y <= FX_MAX + 1,
                    frame_update == sprite_update_spec(d),
                    strategy == strategy_of(d.repeat),
                    0 <= xi <= count_x,
                    tiles@.len() == xi * count_y,
                    forall|j: int| #![auto] 0 <= j < tiles@.len() ==> tiles@[j] == tile_at(
                        d,
                        window_size,
                        j,
                    ),
                decreases count_x - xi,
            {
                let gx: i64 = first_x + xi;
                let mut yi: i64 = 0;
                while yi < count_y
                    invariant
                        *layer == d,
                        valid_layer(d),
                        count_x as int == x_tile_count(d, window_size),
                        count_y as int == y_tile_count(d, window_size),
                        first_x as int == axis_first_cell(x_max_index(d, window_size)),
                        first_y as int == axis_first_cell(y_max_index(d, window_size)),
                        -FX_MAX <= first_x <= 0,
                        -FX_MAX <= first_y <= 0,
                        1 <= count_y,
                        first_x + count_x <= FX_MAX + 1,
                        first_y + count_y <= FX_MAX + 1,
                        frame_update == sprite_update_spec(d),
                        strategy == strategy_of(d.repeat),
                        0 <= xi < count_x,
                        gx == first_x + xi,
                        0 <= yi <= count_y,
                        tiles@.len() == xi * count_y + yi,
                        forall|j: int| #![auto] 0 <= j < tiles@.len() ==> tiles@[j] == tile_at(
                            d,
                            window_size,
                            j,
                        ),
                    decreases count_y - yi,
                {
                    let gy: i64 = first_y + yi;
                    let mut sprite: TileSprite = TileSprite {
                        flip_x: layer.flip.flip_x,
                        flip_y: layer.flip.flip_y,
                    };
                    strategy.transform(&mut sprite, (gx, gy));
                    let tile: Tile = Tile {
                        grid_x: gx,
                        grid_y: gy,
                        position: Vec2 {
                            x: scale_sat(layer.tile_size.x, gx),
                            y: scale_sat(layer.tile_size.y, gy),
                        },
                        sprite,
                        frame_update,
                    };
                    tiles.push(tile);
                    proof {
                        let j: int = xi as int * count_y as int + yi as int;
                        lemma_fundamental_div_mod_converse_div(
                            j,
                            count_y as int,
                            xi as int,
                            yi as int,
                        );
                        lemma_fundamental_div_mod_converse_mod(
                            j,
                            count_y as int,
                            xi as int,
                            yi as int,
                        );
                        assert(tiles@[j] == tile_at(d, window_size, j));
                    }
                    yi = yi + 1;
                }
                proof {
                    assert((xi as int + 1) * count_y as int == xi as int * count_y as int
                        + count_y as int) by (nonlinear_arith);
                }
                xi = xi + 1;
            }

            let spawned: SpawnedLayer = SpawnedLayer {
                layer: LayerComponent {
                    speed: layer.speed.resolve(),
                    repeat: layer.repeat,
                    texture_count: TileCount { x: count_x, y: count_y },
                    camera: self.camera,
                },
                texture: layer.crate_layer_texture(),
                position: layer.position,
                z: layer.z,
                scale: layer.scale,
                color: layer.color,
                path: layer.path.clone(),
                render_layer,
                tiles,
            };
            result.push(spawned);
            i = i + 1;
        }
        result
    }

    /// Validate every descriptor and bound the total tile count, then
    /// build: `Some` exactly when every descriptor is well-formed and every
    /// layer's tile total fits in a `usize`.
    pub fn create_layers_checked(&self, window_size: Vec2, render_layer: u8) -> (r: Option<
        Vec<SpawnedLayer>,
    >)
        ensures
            r is Some <==> (forall|i: int|
                #![auto]
                0 <= i < self.layers_data@.len() ==> (valid_layer(self.layers_data@[i])
                    && tile_total(self.layers_data@[i], window_size) <= usize::MAX)),
            match r {
                Some(layers) => {
                    &&& layers@.len() == self.layers_data@.len()
                    &&& forall|i: int| #![auto] 0 <= i < layers@.len() ==> layer_built(
                        self.layers_data@[i],
                        window_size,
                        self.camera,
                        render_layer,
                        layers@[i],
                    )
                },
                None => true,
            },
    {
        let n: usize = self.layers_data.len();
        let mut i: usize = 0;
        while i < n
            invariant
                n == self.layers_data@.len(),
                0 <= i <= n,
                forall|k: int| #![auto] 0 <= k < i ==> (valid_layer(self.layers_data@[k])
                    && tile_total(self.layers_data@[k], window_size) <= usize::MAX),
            decreases n - i,
        {
            let layer: &LayerData = &self.layers_data[i];
            if layer.validate().is_err() {
                return None;
            }
            let counts: TileCount = Self::replication_counts(layer, window_size);
            proof {
                assert(counts.x as int * counts.y as int == tile_total(
                    self.layers_data@[i as int],
                    window_size,
                ));
                assert(1 <= (counts.x as int) * (counts.y as int) < i128::MAX)
                    by (nonlinear_arith)
                    requires
                        1 <= counts.x <= 0x7fff_ffff_ffff_ffffi64,
                        1 <= counts.y <= 0x7fff_ffff_ffff_ffffi64,
                ;
            }
            let total: i128 = (counts.x as i128) * (counts.y as i128);
            if total > usize::MAX as i128 {
                return None;
            }
            i = i + 1;
        }
        Some(self.create_layers(window_size, render_layer))
    }
}

/// The horizontal wrap span of a layer: the distance a recycled tile jumps,
/// one full grid width.
pub open spec fn span_x(layer: LayerComponent, texture: LayerTextureComponent) -> int {
    fx_scale(texture.width as int, layer.texture_count.x as int)
}

/// The vertical wrap span of a layer.
pub open spec fn span_y(layer: LayerComponent, texture: LayerTextureComponent) -> int {
    fx_scale(texture.height as int, layer.texture_count.y as int)
}

/// The horizontal shift recycling applies to one tile, per the rules of
/// [`tile_recycle_shift`].
pub open spec fn tile_shift_x(
    event: ParallaxMoveEvent,
    layer: LayerComponent,
    texture: LayerTextureComponent,
    camera_pos: Vec2,
    tile_pos: Vec2,
    tile_scale: Vec2,
    view_size: Vec2,
    visible: bool,
) -> int {
    if visible || !repeats_horizontally(layer.repeat) {
        0
    } else {
        let to_tile = fx_sub(camera_pos.x as int, tile_pos.x as int);
        let half = fx_half(fx_mul(texture.width as int, tile_scale.x as int));
        let view_half = fx_half(view_size.x as int);
        if event.translation.x < 0 && fx_add(to_tile, half) < -view_half {
            -span_x(layer, texture)
        } else if event.translation.x > 0 && fx_sub(to_tile, half) > view_half {
            span_x(layer, texture)
        } else {
            0
        }
    }
}

/// The vertical shift recycling applies to one tile.
pub open spec fn tile_shift_y(
    event: ParallaxMoveEvent,
    layer: LayerComponent,
    texture: LayerTextureComponent,
    camera_pos: Vec2,
    tile_pos: Vec2,
    tile_scale: Vec2,
    view_size: Vec2,
    visible: bool,
) -> int {
    if visible || !repeats_vertically(layer.repeat) {
        0
    } else {
        let to_tile = fx_sub(camera_pos.y as int, tile_pos.y as int);
        let half = fx_half(fx_mul(texture.height as int, tile_scale.y as int));
        let view_half = fx_half(view_size.y as int);
        if event.translation.y < 0 && fx_add(to_tile, half) < -view_half {
            -span_y(layer, texture)
        } else if event.translation.y > 0 && fx_sub(to_tile, half) > view_half {
            span_y(layer, texture)
        } else {
            0
        }
    }
}

/// Decide how far one tile must be teleported to keep the scroll seamless:
/// a tile that is not visible and has fully exited the viewport opposite
/// the movement direction jumps by exactly one wrap span toward the other
/// side; every other tile stays put.  Visible tiles are never touched, so
/// recycling can never pop on screen.
pub fn tile_recycle_shift(
    event: &ParallaxMoveEvent,
    layer: &LayerComponent,
    texture: &LayerTextureComponent,
    camera_pos: Vec2,
    tile_pos: Vec2,
    tile_scale: Vec2,
    view_size: Vec2,
    visible: bool,
) -> (shift: Vec2)
    ensures
        shift.x as int == tile_shift_x(
            *event,
            *layer,
            *texture,
            camera_pos,
            tile_pos,
            tile_scale,
            view_size,
            visible,
        ),
        shift.y as int == tile_shift_y(
            *event,
            *layer,
            *texture,
            camera_pos,
            tile_pos,
            tile_scale,
            view_size,
            visible,
        ),
        shift.x as int == 0 || shift.x as int == span_x(*layer, *texture) || shift.x as int
            == -span_x(*layer, *texture),
        shift.y as int == 0 || shift.y as int == span_y(*layer, *texture) || shift.y as int
            == -span_y(*layer, *texture),
{
    if visible {
        return Vec2::zero();
    }
    let mut shift: Vec2 = Vec2::zero();
    if layer.repeat.has_horizontal() {
        let span: i64 = scale_sat(texture.width, layer.texture_count.x);
        let to_tile: i64 = sub_sat(camera_pos.x, tile_pos.x);
        let half: i64 = half_fx(mul_fx(texture.width, tile_scale.x));
        let view_half: i64 = half_fx(view_size.x);
        if event.has_left_translation() && add_sat(to_tile, half) < -view_half {
            shift.x = -span;
        } else if event.has_right_translation() && sub_sat(to_tile, half) > view_half {
            shift.x = span;
        }
    }
    if layer.repeat.has_vertical() {
        let span: i64 = scale_sat(texture.height, layer.texture_count.y);
        let to_tile: i64 = sub_sat(camera_pos.y, tile_pos.y);
        let half: i64 = half_fx(mul_fx(texture.height, tile_scale.y));
        let view_half: i64 = half_fx(view_size.y);
        if event.has_down_translation() && add_sat(to_tile, half) < -view_half {
            shift.y = -span;
        } else if event.has_up_translation() && sub_sat(to_tile, half) > view_half {
            shift.y = span;
        }
    }
    shift
}

/// Recycling preserves a tile's position modulo the wrap span: after any
/// number of whole-span jumps in either direction, the tile stands at a
/// position congruent to its original one, so grid spacing and mirror
/// parity are preserved.
pub proof fn lemma_recycle_round_trip(pos: int, span: int, k: int)
    requires
        span > 0,
    ensures
        (pos + k * span) % span == pos % span,
{
    lemma_mod_multiples_vanish(k, pos, span);
    assert(span * k + pos == pos + k * span) by (nonlinear_arith);
}

/// One recycling step never moves a tile off its residue class: the shifts
/// [`tile_recycle_shift`] produces are zero or one whole span, so the
/// shifted position is congruent to the old one modulo the span.
pub proof fn lemma_shift_preserves_congruence(pos: int, shift: int, span: int)
    requires
        span > 0,
        shift == 0 || shift == span || shift == -span,
    ensures
        (pos + shift) % span == pos % span,
{
    if shift == 0 {
        lemma_recycle_round_trip(pos, span, 0);
    } else if shift == span {
        lemma_recycle_round_trip(pos, span, 1);
    } else {
        lemma_recycle_round_trip(pos, span, -1);
    }
}

} // verus!
