//! A client that turns a logical message into a Discord embed and says what
//! has to be posted to the webhook, with every rule of the payload proved.

pub mod clock;
pub mod delivery;
pub mod embed;
pub mod json;
pub mod laws;
pub mod logger;

pub use crate::clock::Instant;
pub use crate::delivery::{Completion, DeliveryError, LogAction, PostOutcome, PostRequest};
pub use crate::embed::{Embed, Field};
pub use crate::logger::{DiscordLogger, LogOptions};
