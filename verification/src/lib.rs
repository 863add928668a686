//! Messages for a chat service's incoming webhooks: the message model, its
//! builders, text escaping, color validation and the JSON wire format.

pub mod attachment;
pub mod color;
pub mod error;
pub mod escape;
pub mod helper;
pub mod hex_digits;
pub mod json;
pub mod payload;
pub mod slack;
pub mod strings;
pub mod text;
pub mod time;
pub mod web_url;
pub mod wire;

pub use crate::attachment::{Action, Attachment, AttachmentBuilder, Field, Section, UrlField};
pub use crate::color::{HexColor, SlackColor};
pub use crate::error::SlackError;
pub use crate::helper::bool_to_u8;
pub use crate::hex_digits::FromHexError;
pub use crate::payload::{Parse, Payload, PayloadBuilder};
pub use crate::slack::{Post, Slack};
pub use crate::text::{SlackLink, SlackText, SlackTextContent, SlackUserLink};
pub use crate::time::SlackTime;
pub use crate::web_url::WebUrl;
