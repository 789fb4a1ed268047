//! Decoding of IEEE 802.11 information elements (IEs) as found in Beacon and
//! Probe Response management frames, together with attributes derived from a
//! decoded element sequence: operating channel, channel width, and the Wi-Fi
//! and security protocol generations a network advertises.
//!
//! The entry point is [`ies::from_bytes`], which splits a raw byte blob into
//! a sequence of typed elements. Each element type validates its length
//! contract at construction and exposes named, bit-exact accessors.

pub mod bits;
pub mod capability_info;
pub mod channel;
pub mod channel_width;
pub mod ies;
pub mod security_protocol;
pub mod wifi_protocol;

pub use bits::bit_at;
pub use bits::bits_at;
pub use capability_info::CapabilityInfo;
pub use channel::Channel;
pub use channel::ChannelBand;
pub use channel::ChannelNumber;
pub use channel_width::ChannelWidth;
pub use channel_width::ChannelWidths;
pub use channel_width::resolve_width;
pub use ies::Ie;
pub use ies::InformationElement;
pub use ies::from_bytes;
pub use security_protocol::SecurityProtocol;
pub use security_protocol::SecurityProtocols;
pub use security_protocol::security_protocols;
pub use wifi_protocol::WifiProtocol;
pub use wifi_protocol::WifiProtocols;
pub use wifi_protocol::wifi_protocols;
