//! A telemetry-to-chat bridge: tracks a battery-voltage reading against an
//! adjustable warning threshold, and decides which alerts, query replies,
//! subscriptions and diagnostics to hand to a publish/subscribe broker.
//!
//! Everything that decides — topic routing, the alert state machine with its
//! hysteresis, chat-command recognition, wire framing, and the reconnection
//! re-subscribe — lives here, verified. The broker transport and the
//! binary32 primitives (parsing a reading, comparing it to the threshold,
//! rendering it as text) are left to the surrounding program, which hands
//! their outcomes in as plain values.

pub mod dispatch;
pub mod laws;
pub mod session;
pub mod text;
pub mod topics;
pub mod wire;

pub use session::DEFAULT_THRESHOLD_BITS;
pub use session::DESTINATION_ID;
pub use session::FloatCmp;
pub use session::INITIAL_VOLTAGE_BITS;
pub use session::SessionState;
