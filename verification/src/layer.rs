//! Parallax layer descriptors and per-layer runtime components.

use crate::fixed::{fx_mul, is_odd, odd64, tdiv, Vec2, SCALE};
use crate::sprite::{SpriteFrameUpdate, Timer};
use vstd::prelude::*;

verus! {

/// How a layer's speed relates to camera movement.  Layers with horizontal
/// or vertical speed scroll along one axis only, while bidirectional layers
/// can be scrolled endlessly in both directions.  A component of `SCALE`
/// (that is, 1.0) moves in lockstep with the camera; 0 stays put.
#[derive(Clone, Copy, Debug, PartialEq, Eq, Structural)]
pub enum LayerSpeed {
    Horizontal(i64),
    Vertical(i64),
    Bidirectional(i64, i64),
}

/// The speed descriptor resolved to a per-axis velocity scale, with 0 on an
/// axis the speed type does not support.
pub open spec fn resolved_speed(s: LayerSpeed) -> Vec2 {
    match s {
        LayerSpeed::Horizontal(vx) => Vec2 { x: vx, y: 0 },
        LayerSpeed::Vertical(vy) => Vec2 { x: 0, y: vy },
        LayerSpeed::Bidirectional(vx, vy) => Vec2 { x: vx, y: vy },
    }
}

impl LayerSpeed {
    /// Resolve the descriptor to an `(x, y)` velocity scale.
    pub fn resolve(&self) -> (r: Vec2)
        ensures
            r == resolved_speed(*self),
    {
        match self {
            LayerSpeed::Horizontal(vx) => Vec2 { x: *vx, y: 0 },
            LayerSpeed::Vertical(vy) => Vec2 { x: 0, y: *vy },
            LayerSpeed::Bidirectional(vx, vy) => Vec2 { x: *vx, y: *vy },
        }
    }
}

/// The mirror policy applied to repeated tiles at spawn time.
#[derive(Clone, Copy, Debug, PartialEq, Eq, Structural)]
pub enum RepeatStrategy {
    Same,
    MirrorHorizontally,
    MirrorVertically,
    MirrorBoth,
}

/// Whether the policy flips tiles at odd horizontal grid positions.
pub open spec fn mirrors_x(s: RepeatStrategy) -> bool {
    s == RepeatStrategy::MirrorHorizontally || s == RepeatStrategy::MirrorBoth
}

/// Whether the policy flips tiles at odd vertical grid positions.
pub open spec fn mirrors_y(s: RepeatStrategy) -> bool {
    s == RepeatStrategy::MirrorVertically || s == RepeatStrategy::MirrorBoth
}

/// The visual attributes of one spawned tile that the mirror policy can
/// touch: whether its texture is drawn flipped on each axis.
#[derive(Clone, Copy, Debug, PartialEq, Eq, Structural)]
pub struct TileSprite {
    pub flip_x: bool,
    pub flip_y: bool,
}

impl RepeatStrategy {
    /// Apply the mirror policy to the tile at grid cell `pos`, flipping the
    /// sprite on an axis when the policy mirrors that axis and the cell
    /// coordinate is odd.  The flip is baked in at spawn time only.
    pub fn transform(&self, sprite: &mut TileSprite, pos: (i64, i64))
        ensures
            final(sprite).flip_x == (old(sprite).flip_x ^ (mirrors_x(*self) && is_odd(
                pos.0 as int,
            ))),
            final(sprite).flip_y == (old(sprite).flip_y ^ (mirrors_y(*self) && is_odd(
                pos.1 as int,
            ))),
    {
        match self {
            RepeatStrategy::Same => (),
            RepeatStrategy::MirrorHorizontally => {
                sprite.flip_x = sprite.flip_x ^ odd64(pos.0);
            },
            RepeatStrategy::MirrorVertically => {
                sprite.flip_y = sprite.flip_y ^ odd64(pos.1);
            },
            RepeatStrategy::MirrorBoth => {
                sprite.flip_x = sprite.flip_x ^ odd64(pos.0);
                sprite.flip_y = sprite.flip_y ^ odd64(pos.1);
            },
        }
    }
}

/// On which axes a layer's tiles repeat, and with which mirror policy.
#[derive(Clone, Copy, Debug, PartialEq, Eq, Structural)]
pub enum LayerRepeat {
    Horizontal(RepeatStrategy),
    Vertical(RepeatStrategy),
    Bidirectional(RepeatStrategy),
}

/// Whether tiles repeat along the vertical axis.
pub open spec fn repeats_vertically(r: LayerRepeat) -> bool {
    !(r is Horizontal)
}

/// Whether tiles repeat along the horizontal axis.
pub open spec fn repeats_horizontally(r: LayerRepeat) -> bool {
    !(r is Vertical)
}

/// The mirror policy of the repeat descriptor.
pub open spec fn strategy_of(r: LayerRepeat) -> RepeatStrategy {
    match r {
        LayerRepeat::Horizontal(s) => s,
        LayerRepeat::Vertical(s) => s,
        LayerRepeat::Bidirectional(s) => s,
    }
}

impl LayerRepeat {
    /// Repeat on both axes.
    pub fn both(strategy: RepeatStrategy) -> (r: Self)
        ensures
            r == LayerRepeat::Bidirectional(strategy),
    {
        Self::Bidirectional(strategy)
    }

    /// Repeat horizontally only.
    pub fn horizontally(strategy: RepeatStrategy) -> (r: Self)
        ensures
            r == LayerRepeat::Horizontal(strategy),
    {
        Self::Horizontal(strategy)
    }

    /// Repeat vertically only.
    pub fn vertically(strategy: RepeatStrategy) -> (r: Self)
        ensures
            r == LayerRepeat::Vertical(strategy),
    {
        Self::Vertical(strategy)
    }

    pub fn has_vertical(&self) -> (r: bool)
        ensures
            r == repeats_vertically(*self),
    {
        match self {
            Self::Horizontal(_) => false,
            _ => true,
        }
    }

    pub fn has_horizontal(&self) -> (r: bool)
        ensures
            r == repeats_horizontally(*self),
    {
        match self {
            Self::Vertical(_) => false,
            _ => true,
        }
    }

    pub fn get_strategy(&self) -> (r: RepeatStrategy)
        ensures
            r == strategy_of(*self),
    {
        match self {
            Self::Horizontal(strategy) => *strategy,
            Self::Bidirectional(strategy) => *strategy,
            Self::Vertical(strategy) => *strategy,
        }
    }
}

/// How fast a sprite-sheet layer animates: frames per second (fixed-point),
/// a fixed duration per frame, or a total duration split evenly over all
/// sub-frames (both in microseconds).
#[derive(Clone, Copy, Debug, PartialEq, Eq, Structural)]
pub enum Animation {
    FPS(i64),
    FrameDuration(u64),
    TotalDuration(u64),
}

/// Whether the animation descriptor is well-formed: a frame rate must be
/// positive.
pub open spec fn valid_animation(a: Animation) -> bool {
    a is FPS ==> a->FPS_0 > 0
}

/// The per-frame duration in microseconds derived from the descriptor for a
/// sheet of `total` sub-frames.
pub open spec fn frame_duration_micros(a: Animation, total: int) -> int {
    match a {
        Animation::FPS(f) => tdiv(1_000_000_000_000, f as int),
        Animation::FrameDuration(d) => d as int,
        Animation::TotalDuration(d) => d as int / total,
    }
}

/// An RGBA tint with fixed-point channels; `SCALE` is full intensity.
#[derive(Clone, Copy, Debug, PartialEq, Eq, Structural)]
pub struct Color {
    pub red: i64,
    pub green: i64,
    pub blue: i64,
    pub alpha: i64,
}

impl Color {
    /// Opaque white: the identity tint.
    pub fn white() -> (r: Color)
        ensures
            r == (Color { red: SCALE, green: SCALE, blue: SCALE, alpha: SCALE }),
    {
        Color { red: SCALE, green: SCALE, blue: SCALE, alpha: SCALE }
    }
}

/// Layer initialization data, immutable after creation.
#[derive(Clone, Debug)]
pub struct LayerData {
    /// Speed of the layer relative to camera movement.
    pub speed: LayerSpeed,
    /// Repeat axes and mirror policy.
    pub repeat: LayerRepeat,
    /// Path to the layer's texture file; opaque to this library.
    pub path: String,
    /// Size of one tile of the texture.
    pub tile_size: Vec2,
    /// Columns of sub-frames in the texture file.
    pub cols: usize,
    /// Rows of sub-frames in the texture file.
    pub rows: usize,
    /// Scale of the texture.
    pub scale: Vec2,
    /// Z position of the layer.
    pub z: i64,
    /// Initial position of the layer's container.
    pub position: Vec2,
    /// Tint applied to every tile.
    pub color: Color,
    /// Starting sub-frame index for sprite-sheet layers.
    pub index: usize,
    /// Base horizontal/vertical texture flip applied to every tile.
    pub flip: TileSprite,
    /// Optional sprite-sheet animation.
    pub animation: Option<Animation>,
}

/// Why a layer descriptor was rejected.
#[derive(Clone, Copy, Debug, PartialEq, Eq, Structural)]
pub enum LayerDataError {
    /// `cols` or `rows` is zero, so the sheet has no sub-frames.
    EmptyGrid,
    /// `cols * rows` does not fit in a `usize`.
    GridTooLarge,
    /// The animation frame rate is not positive.
    InvalidAnimationRate,
}

/// Whether a layer descriptor is well-formed: the sub-frame grid holds at
/// least one frame, its size is representable, and any animation rate is
/// positive.
pub open spec fn valid_layer(d: LayerData) -> bool {
    &&& d.cols >= 1
    &&& d.rows >= 1
    &&& d.cols * d.rows <= usize::MAX
    &&& match d.animation {
        Some(a) => valid_animation(a),
        None => true,
    }
}

/// The animation state a freshly spawned tile of this layer starts with.
pub open spec fn sprite_update_spec(d: LayerData) -> Option<SpriteFrameUpdate> {
    match d.animation {
        Some(a) => Some(
            SpriteFrameUpdate {
                index: d.index,
                total: (d.cols * d.rows) as usize,
                timer: Timer {
                    duration_micros: frame_duration_micros(a, d.cols * d.rows) as u64,
                    elapsed_micros: 0,
                },
            },
        ),
        None => None,
    }
}

impl Animation {
    /// Build the frame-advance state for one tile of `layer_data`, seeded
    /// with the per-frame duration this descriptor implies.
    pub fn to_sprite_update(&self, layer_data: &LayerData) -> (r: SpriteFrameUpdate)
        requires
            layer_data.cols >= 1,
            layer_data.rows >= 1,
            layer_data.cols * layer_data.rows <= usize::MAX,
            valid_animation(*self),
        ensures
            r == (SpriteFrameUpdate {
                index: layer_data.index,
                total: (layer_data.cols * layer_data.rows) as usize,
                timer: Timer {
                    duration_micros: frame_duration_micros(
                        *self,
                        layer_data.cols * layer_data.rows,
                    ) as u64,
                    elapsed_micros: 0u64,
                },
            }),
    {
        let total: usize = layer_data.cols * layer_data.rows;
        proof {
            assert(layer_data.cols * layer_data.rows >= 1) by (nonlinear_arith)
                requires
                    layer_data.cols >= 1,
                    layer_data.rows >= 1,
            ;
        }
        let duration_micros: u64 = match self {
            Self::FPS(fps) => 1_000_000_000_000u64 / (*fps as u64),
            Self::FrameDuration(d) => *d,
            Self::TotalDuration(d) => *d / (total as u64),
        };
        SpriteFrameUpdate { total, index: layer_data.index, timer: Timer::new(duration_micros) }
    }
}

/// The sub-frame grid of a sprite-sheet texture, as the host engine's atlas
/// builder needs it.
#[derive(Clone, Copy, Debug, PartialEq, Eq, Structural)]
pub struct TextureAtlasGrid {
    /// Size of one sub-frame.
    pub tile_size: Vec2,
    /// Columns of sub-frames.
    pub cols: usize,
    /// Rows of sub-frames.
    pub rows: usize,
}

impl LayerData {
    /// The atlas grid the layer's texture is cut into.
    pub fn create_texture_atlas_layout(&self) -> (r: TextureAtlasGrid)
        ensures
            r == (TextureAtlasGrid {
                tile_size: self.tile_size,
                cols: self.cols,
                rows: self.rows,
            }),
    {
        TextureAtlasGrid { tile_size: self.tile_size, cols: self.cols, rows: self.rows }
    }

    /// Check the descriptor, rejecting degenerate geometry at construction
    /// time; `Ok` exactly when the descriptor is well-formed.
    pub fn validate(&self) -> (r: Result<(), LayerDataError>)
        ensures
            r is Ok <==> valid_layer(*self),
            (self.cols == 0 || self.rows == 0) ==> r == Result::<(), LayerDataError>::Err(
                LayerDataError::EmptyGrid,
            ),
            (self.cols >= 1 && self.rows >= 1 && self.cols * self.rows > usize::MAX) ==> r
                == Result::<(), LayerDataError>::Err(LayerDataError::GridTooLarge),
            (valid_layer(*self) || r == Result::<(), LayerDataError>::Err(
                LayerDataError::EmptyGrid,
            ) || r == Result::<(), LayerDataError>::Err(LayerDataError::GridTooLarge) || r
                == Result::<(), LayerDataError>::Err(LayerDataError::InvalidAnimationRate)),
    {
        if self.cols == 0 || self.rows == 0 {
            return Err(LayerDataError::EmptyGrid);
        }
        if self.cols.checked_mul(self.rows).is_none() {
            return Err(LayerDataError::GridTooLarge);
        }
        match &self.animation {
            Some(Animation::FPS(f)) => {
                if *f <= 0 {
                    Err(LayerDataError::InvalidAnimationRate)
                } else {
                    Ok(())
                }
            },
            _ => Ok(()),
        }
    }

    /// The data the recycler needs about one tile texture.
    pub fn crate_layer_texture(&self) -> (r: LayerTextureComponent)
        ensures
            r == (LayerTextureComponent { width: self.tile_size.x, height: self.tile_size.y }),
    {
        LayerTextureComponent { width: self.tile_size.x, height: self.tile_size.y }
    }

    /// The animation state for tiles of this layer, if it animates.
    pub fn create_animation_bundle(&self) -> (r: Option<SpriteFrameUpdate>)
        requires
            valid_layer(*self),
        ensures
            r == sprite_update_spec(*self),
    {
        match &self.animation {
            Some(animation) => Some(animation.to_sprite_update(self)),
            None => None,
        }
    }
}

impl Default for LayerData {
    /// A single-tile, camera-locked, horizontally scrolling layer with no
    /// animation and no tint.
    fn default() -> (r: Self)
        ensures
            r.speed == LayerSpeed::Horizontal(SCALE),
            r.repeat == LayerRepeat::Bidirectional(RepeatStrategy::Same),
            r.path@ == Seq::<char>::empty(),
            r.tile_size == (Vec2 { x: 0i64, y: 0i64 }),
            r.cols == 1usize,
            r.rows == 1usize,
            r.scale == (Vec2 { x: SCALE, y: SCALE }),
            r.z == 0i64,
            r.position == (Vec2 { x: 0i64, y: 0i64 }),
            r.color == (Color { red: SCALE, green: SCALE, blue: SCALE, alpha: SCALE }),
            r.index == 0usize,
            r.flip == (TileSprite { flip_x: false, flip_y: false }),
            r.animation is None,
    {
        Self {
            speed: LayerSpeed::Horizontal(SCALE),
            repeat: LayerRepeat::Bidirectional(RepeatStrategy::Same),
            path: String::new(),
            tile_size: Vec2::zero(),
            cols: 1,
            rows: 1,
            scale: Vec2::new(SCALE, SCALE),
            z: 0,
            position: Vec2::zero(),
            color: Color::white(),
            index: 0,
            flip: TileSprite { flip_x: false, flip_y: false },
            animation: None,
        }
    }
}

/// A per-axis count of tile replicas.
#[derive(Clone, Copy, Debug, PartialEq, Eq, Structural)]
pub struct TileCount {
    pub x: i64,
    pub y: i64,
}

/// Core runtime component of one spawned parallax layer.
#[derive(Clone, Copy, Debug, PartialEq, Eq, Structural)]
pub struct LayerComponent {
    /// Velocity scale of the layer relative to camera movement.
    pub speed: Vec2,
    /// Repeat axes and mirror policy, copied from the descriptor.
    pub repeat: LayerRepeat,
    /// How many tile widths/heights the wrap span covers per axis.
    pub texture_count: TileCount,
    /// The camera this layer belongs to.
    pub camera: u64,
}

impl LayerComponent {
    /// How far the layer moves when the camera's effective movement is
    /// `delta`: each axis is weighted by the layer's velocity scale, which
    /// produces the parallax depth illusion.
    pub fn displacement(&self, delta: Vec2) -> (r: Vec2)
        ensures
            r.x as int == fx_mul(delta.x as int, self.speed.x as int),
            r.y as int == fx_mul(delta.y as int, self.speed.y as int),
    {
        Vec2 {
            x: crate::fixed::mul_fx(delta.x, self.speed.x),
            y: crate::fixed::mul_fx(delta.y, self.speed.y),
        }
    }
}

/// A layer whose velocity scale is zero on both axes never moves, whatever
/// effective camera movement the frame applies: its displacement is zero on
/// both axes.
pub proof fn lemma_stationary_layer(layer: LayerComponent, delta: Vec2)
    requires
        layer.speed == (Vec2 { x: 0i64, y: 0i64 }),
    ensures
        fx_mul(delta.x as int, layer.speed.x as int) == 0,
        fx_mul(delta.y as int, layer.speed.y as int) == 0,
{
    vstd::arithmetic::div_mod::lemma_div_of0(SCALE as int);
}

/// Core runtime component of one layer tile texture.
#[derive(Clone, Copy, Debug, PartialEq, Eq, Structural)]
pub struct LayerTextureComponent {
    /// Width of the texture.
    pub width: i64,
    /// Height of the texture.
    pub height: i64,
}

} // verus!
