//! A parallax-scrolling layer manager for 2D games.
//!
//! Given a camera and a set of declaratively described visual layers, the
//! library computes how many tile copies are needed to cover the viewport,
//! arranges them in a grid with mirror/flip repeat patterns, moves layers at
//! per-layer speeds relative to camera motion, and recycles off-screen tiles
//! by whole wrap spans so the scrolling illusion continues indefinitely.
//! Camera motion itself is produced by pluggable follow strategies (fixed,
//! proportional, PID).
//!
//! All quantities are exact fixed-point numbers (see [`fixed`]); the host
//! engine converts at its own edge and owns entity lifetimes, rendering and
//! input.

pub mod camera;
pub mod fixed;
pub mod layer;
pub mod parallax;
pub mod sprite;

pub use camera::CameraFollow;
pub use camera::LinearAxisStrategy;
pub use camera::RotationStrategy;
pub use camera::TranslationStrategy;
pub use camera::PID;
pub use camera::shortest_angle;
pub use fixed::Vec2;
pub use fixed::FX_MAX;
pub use fixed::FX_MIN;
pub use fixed::PI_FX;
pub use fixed::SCALE;
pub use fixed::TWO_PI_FX;
pub use layer::Animation;
pub use layer::Color;
pub use layer::LayerComponent;
pub use layer::LayerData;
pub use layer::LayerDataError;
pub use layer::LayerRepeat;
pub use layer::LayerSpeed;
pub use layer::LayerTextureComponent;
pub use layer::RepeatStrategy;
pub use layer::TextureAtlasGrid;
pub use layer::TileCount;
pub use layer::TileSprite;
pub use parallax::tile_recycle_shift;
pub use parallax::CreateParallaxEvent;
pub use parallax::Limit;
pub use parallax::ParallaxCameraComponent;
pub use parallax::ParallaxMoveEvent;
pub use parallax::SpawnedLayer;
pub use parallax::Tile;
pub use parallax::Vec2Limit;
pub use sprite::SpriteFrameUpdate;
pub use sprite::Timer;
