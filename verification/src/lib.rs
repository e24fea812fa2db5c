//! Per-window rendering state and window identity mapping for shell surfaces.
//!
//! A [`State`] holds what one window needs in order to interpret the events of
//! its surface: the viewport, the scale factor, the appearance derived from
//! the theme, and the last known pointer position and keyboard modifiers.
//! A [`WindowManager`] owns the records of all live windows and the two-way
//! alias table between toolkit window ids and protocol surface ids.
//!
//! Scale factors are carried as IEEE 754 bit patterns, so that every decision
//! the library takes is taken on integers.

pub mod alias;
pub mod application;
pub mod foreign;
pub mod ids;
pub mod input;
pub mod ordered;
pub mod scale;
pub mod state;
pub mod viewport;
pub mod window_manager;

pub use alias::AliasTable;
pub use alias::AliasView;
pub use application::Appearance;
pub use application::Application;
pub use ids::SurfaceId;
pub use ids::WindowId;
pub use input::Cursor;
pub use input::Interaction;
pub use input::Modifiers;
pub use input::WindowEvent;
pub use scale::ScaleFactor;
pub use state::State;
pub use state::StateView;
pub use viewport::Destination;
pub use viewport::DestinationRule;
pub use viewport::PhysicalSize;
pub use viewport::Viewport;
pub use window_manager::ManagerView;
pub use window_manager::Window;
pub use window_manager::WindowManager;
