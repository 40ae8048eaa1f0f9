//! A platform-independent model of "whatever media is currently playing":
//! the snapshot record, the playback-position projection, and the state
//! machines that keep a backend's view of the current player consistent.

pub mod bus;
pub mod clock;
pub mod controls;
pub mod cover;
pub mod error;
pub mod integer;
pub mod media_info;
pub mod media_status;
pub mod playback_state;
pub mod position;
pub mod rate;
pub mod render;
pub mod session;
pub mod text;

pub use clock::{micros_since_epoch, nt_to_unix, try_micros_since_epoch};
pub use error::Error;
pub use media_info::MediaInfo;
pub use playback_state::PlaybackState;
pub use position::PositionInfo;
pub use rate::PlaybackRate;
