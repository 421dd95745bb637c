//! Reactive playback coordinator for a song-list page.
//!
//! The crate models the state that drives such a page: an asynchronously
//! loaded song catalog with pending / ready / failed states and a
//! last-write-wins refetch, a selection coordinator that keeps at most one
//! song active, and the transport commands (play, pause, seek to start)
//! that a selection change sends to each item's media handle.

pub mod catalog;
pub mod player;
pub mod registry;
pub mod selection;
pub mod song;
pub mod transport;

pub use catalog::CatalogModel;
pub use catalog::CatalogResource;
pub use catalog::CatalogState;
pub use catalog::ErrorKind;
pub use player::Player;
pub use player::VisualState;
pub use player::visual_state;
pub use registry::TransportRegistry;
pub use selection::Selection;
pub use song::Assets;
pub use song::SongInfo;
pub use transport::HandleState;
pub use transport::TransportCommand;
pub use transport::apply_commands;
pub use transport::item_transition;
pub use transport::selection_transition;
