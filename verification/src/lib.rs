//! Driver core for HD44780-family character displays behind an I2C-to-parallel
//! bridge. The crate owns the command encoding and the transmission state
//! machine: how a logical operation becomes a sequence of strobed bus writes,
//! how 4-bit word width splits a byte into two nibble transmissions, and how
//! the persistent display flags are tracked so a single-attribute change
//! re-applies all of them. The raw bus transport is an injected capability
//! (the [`bus::Bus`] trait); everything above it is verified.

pub mod bus;
pub mod flags;
pub mod laws;
pub mod protocol;
pub mod screen;

pub use bus::Bus;
pub use bus::BusError;
pub use bus::TraceBus;
pub use flags::Backlight;
pub use flags::BitMode;
pub use flags::BlinkState;
pub use flags::Command;
pub use flags::CursorState;
pub use flags::DisplayStatus;
pub use flags::EntryMode;
pub use flags::EntryShift;
pub use flags::LineCount;
pub use flags::MatrixSize;
pub use flags::MoveDirection;
pub use flags::MoveType;
pub use flags::WriteMode;
pub use screen::DisplayState;
pub use screen::Screen;
pub use screen::ScreenConfig;
