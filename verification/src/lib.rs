//! Cross-platform desktop notification management.
//!
//! One platform-neutral content model, response model and error taxonomy,
//! shared by three notification back ends: a main-thread delegate adapter,
//! an event-handler adapter that carries interaction data through a compact
//! callback-URI encoding, and a stub for platforms without support.

pub mod deeplink;
mod error;
mod notify;
mod strutil;
pub mod linux;
pub mod macos;
pub mod windows;

pub use deeplink::decode_deeplink;
pub use deeplink::encode_deeplink;
pub use error::Error;
pub use notify::NotifyBuilder;
pub use notify::NotifyCategory;
pub use notify::NotifyCategoryAction;
pub use notify::NotifyResponse;
pub use notify::NotifyResponseAction;
pub use notify::UserMetadata;
