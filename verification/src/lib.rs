//! Volume control for the system's audio output devices.
//!
//! Three backends share one interface, [`AudioDevice`]: PulseAudio
//! ([`linux`]), CoreAudio ([`macos`]) and WASAPI ([`wasapi`]).  Each
//! backend's device type reports [`AudioError::Unsupported`] from every
//! operation of the interface when no platform audio service is linked in;
//! the decisions that each backend makes around its platform calls are
//! functions of this crate, proved against their contracts.

pub mod error;
pub mod device;
pub mod text;
pub mod linux;
pub mod macos;
pub mod wasapi;

pub use error::AudioError;
pub use device::AudioDevice;
