//! The error taxonomy shared across back ends.

use vstd::prelude::*;

verus! {

/// The error taxonomy shared by every notification back end.
///
/// Native failures are always wrapped with enough context (code, domain,
/// description) to be inspected without platform-specific knowledge.
#[derive(Debug, Clone)]
pub enum Error {
    /// No application identity (bundle identifier) is configured; it is
    /// required to send notifications.
    NoBundleId,
    /// A main-thread-only operation was invoked from another thread.
    NotMainThread,
    /// A wrapped native failure, normalized to code, domain, attached
    /// key/value info and description.
    Native { code: i64, domain: String, user_info: String, description: String },
    /// The delegate reference cell was already filled: `register` was called
    /// more than once on the same manager.
    MultipleRegisterCalls,
    /// The listener-loop cell was already filled: `register` was called more
    /// than once on the same manager.
    MultipleRegisterCallsListenerLoop,
    /// The interaction-handler cell was already filled, or the category store
    /// was unavailable.
    SettingHandler,
    /// Stored user metadata failed to parse back from its serialized form.
    FailedToParseUserInfo(String),
    /// An XML-escaped string failed to unescape.
    XmlEscape(String),
    /// A callback URI did not have the expected shape.
    UrlParse(String),
    /// A callback URI carried a query component that was not valid base64.
    Base64Decode(String),
    /// The bridge between a native completion callback and the awaiting
    /// caller was dropped before it fired.
    ChannelClosed,
    /// The back end does not support notifications at all.
    NotSupported,
    /// Any other failure, carried as a plain message.
    Other(String),
}

} // verus!
