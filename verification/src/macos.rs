//! Main-thread delegate style notification back end.
//!
//! Construction requires an application identity (bundle id); most native
//! operations additionally require the process's designated main thread and
//! fail fast off it. Registration installs one delegate and one listener
//! loop, each held in a write-once cell, so a second registration fails
//! deterministically instead of replacing state.

use vstd::prelude::*;

use crate::error::Error;
use crate::notify::NotifyBuilder;
use crate::notify::NotifyResponseAction;
use crate::notify::UserMetadata;
use crate::strutil::contains_seq;
use crate::strutil::str_contains;
use crate::strutil::str_eq;

verus! {

/// How many interaction events the bounded delegate channel holds: a small
/// fixed backlog, since events are user-paced; a full channel drops the
/// event rather than blocking the native delivery thread.
pub const NOTIFICATION_RESPONSE_CHANNEL_SIZE: usize = 10;

// ---------------------------------------------------------------------------
// Handle
// ---------------------------------------------------------------------------
/// A handle for one notification on this back end: the request identifier
/// and the user metadata captured at send time.
#[derive(Debug)]
pub struct NotifyHandle {
    pub id: String,
    pub user_info: UserMetadata,
}

impl NotifyHandle {
    /// A handle from an id and the metadata captured for it.
    pub fn new(id: String, user_data: UserMetadata) -> (r: Self)
        ensures
            r.id == id,
            r.user_info == user_data,
    {
        NotifyHandle { id, user_info: user_data }
    }

    /// The notification id.
    pub fn get_id(&self) -> (r: String)
        ensures
            r@ == self.id@,
    {
        self.id.clone()
    }

    /// Whether the main-thread-bound removal of this notification may
    /// proceed: off the main thread it fails fast, and without a bundle id
    /// it cannot address the notification center.
    pub fn remove_notification_by_id(is_main_thread: bool, has_bundle_id: bool) -> (r: Result<
        (),
        Error,
    >)
        ensures
            !is_main_thread ==> (r matches Err(e) && e matches Error::NotMainThread),
            is_main_thread && !has_bundle_id ==> (r matches Err(e) && e matches Error::NoBundleId),
            is_main_thread && has_bundle_id ==> r is Ok,
    {
        ensure_main_thread(is_main_thread)?;
        if !has_bundle_id {
            return Err(Error::NoBundleId);
        }
        Ok(())
    }
}

/// Thread-affinity check: an operation bound to the main thread proceeds
/// exactly when invoked there, and otherwise fails with the threading
/// error — never nondeterministically.
pub fn ensure_main_thread(is_main_thread: bool) -> (r: Result<(), Error>)
    ensures
        r is Ok <==> is_main_thread,
        !is_main_thread ==> (r matches Err(e) && e matches Error::NotMainThread),
{
    if is_main_thread {
        Ok(())
    } else {
        Err(Error::NotMainThread)
    }
}

// ---------------------------------------------------------------------------
// Manager state
// ---------------------------------------------------------------------------
/// Manager state for this back end: the cached bundle identifier and the
/// two write-once cells of registration — the delegate reference and the
/// listener-loop handle. The native delegate, categories and completion
/// blocks belong to the process that drives this state.
#[derive(Debug)]
pub struct NotifyManager {
    /// The application's bundle identifier, cached at construction;
    /// operations fail with a configuration error when it is absent.
    pub bundle_id: Option<String>,
    /// Whether the delegate-reference cell has been filled; it models the
    /// write-once cell holding the native delegate.
    pub delegate_registered: bool,
    /// Whether the listener-loop cell has been filled; it models the
    /// write-once cell holding the worker that drains interaction events.
    pub listener_registered: bool,
}

/// The registration transition of this back end's two write-once cells:
/// given the cells' state, it yields the new state and whether
/// registration succeeded.
pub open spec fn register_spec(delegate: bool, listener: bool) -> (bool, bool, bool) {
    if delegate {
        (delegate, listener, false)
    } else if listener {
        (true, listener, false)
    } else {
        (true, true, true)
    }
}

impl NotifyManager {
    /// A manager around a cached bundle identifier, with both registration
    /// cells empty.
    pub fn new_(bundle_id: Option<String>) -> (r: Self)
        ensures
            r.bundle_id == bundle_id,
            r.delegate_registered == false,
            r.listener_registered == false,
    {
        NotifyManager { bundle_id, delegate_registered: false, listener_registered: false }
    }

    /// Creation: fails with the configuration error when no bundle
    /// identifier is available, so no partially-usable manager is ever
    /// returned.
    pub fn try_new(bundle_id: Option<&str>) -> (r: Result<Self, Error>)
        ensures
            bundle_id is None ==> (r matches Err(e) && e matches Error::NoBundleId),
            bundle_id matches Some(b) ==> (r matches Ok(m) && m.bundle_id matches Some(s) && s@
                == b@ && m.delegate_registered == false && m.listener_registered == false),
    {
        match bundle_id {
            None => Err(Error::NoBundleId),
            Some(b) => Ok(Self::new_(Some(b.to_owned()))),
        }
    }

    /// The cached bundle identifier, or the configuration error when none
    /// was available at construction.
    pub fn ensure_valid_bundle_id(&self) -> (r: Result<&str, Error>)
        ensures
            match self.bundle_id {
                Some(b) => r matches Ok(s) && s@ == b@,
                None => r matches Err(e) && e matches Error::NoBundleId,
            },
    {
        match self.bundle_id.as_ref() {
            Some(b) => Ok(b.as_str()),
            None => Err(Error::NoBundleId),
        }
    }

    /// Fills the two write-once registration cells: the delegate reference,
    /// then the listener loop. Off the main thread nothing changes; a
    /// filled cell fails with its own multiple-registration error and is
    /// never overwritten, so the first registration's delegate and handler
    /// stay in place.
    pub fn register(&mut self, is_main_thread: bool) -> (r: Result<(), Error>)
        ensures
            !is_main_thread ==> (r matches Err(e) && e matches Error::NotMainThread && *final(self)
                == *old(self)),
            is_main_thread && old(self).delegate_registered ==> (r matches Err(e)
                && e matches Error::MultipleRegisterCalls && *final(self) == *old(self)),
            is_main_thread && !old(self).delegate_registered && old(self).listener_registered ==> (
            r matches Err(e) && e matches Error::MultipleRegisterCallsListenerLoop && final(self).delegate_registered
                && final(self).listener_registered == old(self).listener_registered && final(self).bundle_id == old(self).bundle_id),
            is_main_thread && !old(self).delegate_registered && !old(self).listener_registered ==> (
            r is Ok && final(self).delegate_registered && final(self).listener_registered
                && final(self).bundle_id == old(self).bundle_id),
            is_main_thread ==> ({
                let t = register_spec(old(self).delegate_registered, old(self).listener_registered);
                final(self).delegate_registered == t.0 && final(self).listener_registered == t.1 && (
                r is Ok) == t.2
            }),
    {
        ensure_main_thread(is_main_thread)?;
        if self.delegate_registered {
            return Err(Error::MultipleRegisterCalls);
        }
        self.delegate_registered = true;
        if self.listener_registered {
            return Err(Error::MultipleRegisterCallsListenerLoop);
        }
        self.listener_registered = true;
        Ok(())
    }
}

/// Single-registration law: starting from empty cells, one registration
/// succeeds, and a second on the resulting state fails and leaves the
/// cells exactly as the first left them.
pub proof fn lemma_single_registration()
    ensures
        ({
            let first = register_spec(false, false);
            let second = register_spec(first.0, first.1);
            first.2 && !second.2 && second.0 == first.0 && second.1 == first.1
        }),
{
}

// ---------------------------------------------------------------------------
// Content translation
// ---------------------------------------------------------------------------
/// The sound a notification plays: the platform default, or a named sound
/// from the application bundle.
#[derive(Debug)]
pub enum SoundSelection {
    DefaultSound,
    Named(String),
}

/// Resolves the sound field: an unset field and the literal name "default"
/// both select the platform default sound; any other name selects that
/// named sound.
pub fn resolve_sound(sound: Option<String>) -> (r: SoundSelection)
    ensures
        match sound {
            None => r matches SoundSelection::DefaultSound,
            Some(s) => if s@ == "default"@ {
                r matches SoundSelection::DefaultSound
            } else {
                r matches SoundSelection::Named(n) && n@ == s@
            },
        },
{
    match sound {
        None => SoundSelection::DefaultSound,
        Some(s) => {
            if str_eq(s.as_str(), "default") {
                SoundSelection::DefaultSound
            } else {
                SoundSelection::Named(s)
            }
        },
    }
}

/// A notification description translated to the fields the native request
/// object is built from, each content field mapped one to one and the
/// sound already resolved.
#[derive(Debug)]
pub struct RequestContent {
    pub body: Option<String>,
    pub title: Option<String>,
    pub subtitle: Option<String>,
    pub sound: SoundSelection,
    pub thread_id: Option<String>,
    pub category_id: Option<String>,
    pub user_info: UserMetadata,
}

/// Translates a notification description into the native request fields:
/// every field passes through unchanged — a category id is not validated
/// against registered categories — and absent metadata becomes an empty
/// mapping.
pub fn build_request_content(builder: NotifyBuilder) -> (r: RequestContent)
    ensures
        r.body.deep_view() == builder@.body,
        r.title.deep_view() == builder@.title,
        r.subtitle.deep_view() == builder@.subtitle,
        r.thread_id.deep_view() == builder@.thread_id,
        r.category_id.deep_view() == builder@.category_id,
        match builder@.sound {
            None => r.sound matches SoundSelection::DefaultSound,
            Some(s) => if s == "default"@ {
                r.sound matches SoundSelection::DefaultSound
            } else {
                r.sound matches SoundSelection::Named(n) && n@ == s
            },
        },
        r.user_info@ == (match builder@.user_metadata {
            Some(m) => m,
            None => Map::<Seq<char>, Seq<char>>::empty(),
        }),
{
    let user_info = match builder.user_metadata {
        Some(m) => m,
        None => UserMetadata::new(),
    };
    RequestContent {
        body: builder.body,
        title: builder.title,
        subtitle: builder.subtitle,
        sound: resolve_sound(builder.sound),
        thread_id: builder.thread_id,
        category_id: builder.category_id,
        user_info,
    }
}

/// Relies on uuid::Uuid::new_v4 and its display form of 36 lowercase
/// hexadecimal digits and hyphens: the request identifier is
/// `<uuid>.<bundle_id>`.
#[verifier::external_body]
pub(crate) fn generate_request_id(bundle_id: &str) -> (r: String)
    ensures
        r@.len() == 37 + bundle_id@.len(),
        r@[36] == '.',
        r@.subrange(37, r@.len() as int) == bundle_id@,
{
    format!("{}.{}", uuid::Uuid::new_v4(), bundle_id)
}

impl NotifyManager {
    /// The computing part of a send: translates the description, draws the
    /// fresh request identifier from the bundle id, and makes the handle
    /// the caller keeps. Without a bundle id the send is refused.
    pub fn prepare_request(&self, builder: NotifyBuilder) -> (r: Result<
        (RequestContent, String, NotifyHandle),
        Error,
    >)
        ensures
            self.bundle_id is None ==> (r matches Err(e) && e matches Error::NoBundleId),
            self.bundle_id matches Some(b) ==> (r matches Ok(t) && {
                &&& t.0.body.deep_view() == builder@.body
                &&& t.0.title.deep_view() == builder@.title
                &&& t.0.subtitle.deep_view() == builder@.subtitle
                &&& t.0.thread_id.deep_view() == builder@.thread_id
                &&& t.0.category_id.deep_view() == builder@.category_id
                &&& (match builder@.sound {
                    None => t.0.sound matches SoundSelection::DefaultSound,
                    Some(s) => if s == "default"@ {
                        t.0.sound matches SoundSelection::DefaultSound
                    } else {
                        t.0.sound matches SoundSelection::Named(n) && n@ == s
                    },
                })
                &&& t.1@.len() == 37 + b@.len()
                &&& t.1@.subrange(37, t.1@.len() as int) == b@
                &&& t.2.id@ == t.1@
                &&& t.2.user_info@ == (match builder@.user_metadata {
                    Some(m) => m,
                    None => Map::<Seq<char>, Seq<char>>::empty(),
                })
            }),
    {
        let content = build_request_content(builder);
        let bundle_id = self.ensure_valid_bundle_id()?;
        let id = generate_request_id(bundle_id);
        let user_info = content.user_info.duplicate();
        let handle = NotifyHandle::new(id.clone(), user_info);
        Ok((content, id, handle))
    }
}

// ---------------------------------------------------------------------------
// Permission decisions
// ---------------------------------------------------------------------------
/// The authorization states the native notification settings report.
#[derive(Clone, Copy, Debug)]
pub enum AuthorizationStatus {
    NotDetermined,
    Denied,
    Authorized,
    Provisional,
    Ephemeral,
    Unknown,
}

/// Whether an authorization status means permission is granted.
pub open spec fn spec_status_granted(status: AuthorizationStatus) -> bool {
    match status {
        AuthorizationStatus::Authorized => true,
        AuthorizationStatus::Provisional => true,
        AuthorizationStatus::Ephemeral => true,
        AuthorizationStatus::NotDetermined => false,
        AuthorizationStatus::Denied => false,
        AuthorizationStatus::Unknown => false,
    }
}

/// Maps an authorization status to the permission answer: authorized,
/// provisional and ephemeral count as granted; denied, undetermined and
/// anything unknown do not.
pub fn is_authorization_status_granted(status: AuthorizationStatus) -> (r: bool)
    ensures
        r == spec_status_granted(status),
{
    match status {
        AuthorizationStatus::Authorized => true,
        AuthorizationStatus::Provisional => true,
        AuthorizationStatus::Ephemeral => true,
        AuthorizationStatus::NotDetermined => false,
        AuthorizationStatus::Denied => false,
        AuthorizationStatus::Unknown => false,
    }
}

/// A native failure, normalized to its code, domain, attached info and
/// description.
#[derive(Debug)]
pub struct NativeErrorInfo {
    pub code: i64,
    pub domain: String,
    pub user_info: String,
    pub description: String,
}

/// The outcome of a native authorization callback: without an error the
/// answer is what the callback reported; the specific native error pattern
/// meaning "the user declined" — code 1 with a description that speaks of
/// what is allowed — is deliberately remapped to a successful `false`,
/// since declining is an expected outcome; every other error is wrapped
/// and propagated.
pub fn authorization_outcome(authorized: bool, error: Option<NativeErrorInfo>) -> (r: Result<
    bool,
    Error,
>)
    ensures
        error is None ==> (r matches Ok(b) && b == authorized),
        match error {
            None => true,
            Some(e) => {
                if e.code == 1 && contains_seq(e.description@, "allowed"@) {
                    r matches Ok(b) && b == false
                } else {
                    r matches Err(err) && err matches Error::Native {
                        code,
                        domain,
                        user_info,
                        description,
                    } && code == e.code && domain@ == e.domain@ && user_info@ == e.user_info@
                        && description@ == e.description@
                }
            },
        },
{
    match error {
        None => Ok(authorized),
        Some(e) => {
            if e.code == 1 && str_contains(e.description.as_str(), "allowed") {
                Ok(false)
            } else {
                Err(
                    Error::Native {
                        code: e.code,
                        domain: e.domain,
                        user_info: e.user_info,
                        description: e.description,
                    },
                )
            }
        },
    }
}

// ---------------------------------------------------------------------------
// Interaction decoding
// ---------------------------------------------------------------------------
/// Maps a native action identifier to the response action: the native
/// default and dismiss identifiers (passed in by the delegate) map to the
/// default-tap and dismissal actions, anything else is the identifier of a
/// selected action button.
pub fn map_action_identifier(
    action_id: String,
    default_action_identifier: &str,
    dismiss_action_identifier: &str,
) -> (r: NotifyResponseAction)
    ensures
        action_id@ == default_action_identifier@ ==> r matches NotifyResponseAction::Default,
        action_id@ != default_action_identifier@ && action_id@ == dismiss_action_identifier@ ==> (
        r matches NotifyResponseAction::Dismiss),
        action_id@ != default_action_identifier@ && action_id@ != dismiss_action_identifier@ ==> (
        r matches NotifyResponseAction::Other(s) && s@ == action_id@),
{
    if str_eq(action_id.as_str(), default_action_identifier) {
        NotifyResponseAction::Default
    } else if str_eq(action_id.as_str(), dismiss_action_identifier) {
        NotifyResponseAction::Dismiss
    } else {
        NotifyResponseAction::Other(action_id)
    }
}

/// Converts the notifications the system still tracks — pairs of request
/// identifier and recovered metadata — into the handles a query returns.
pub fn convert_notifications_to_handles(items: &Vec<(String, UserMetadata)>) -> (r: Vec<
    NotifyHandle,
>)
    ensures
        r@.len() == items@.len(),
        forall|i: int|
            0 <= i < items@.len() ==> (#[trigger] r@[i].id@ == items@[i].0@ && r@[i].user_info@
                == items@[i].1@),
{
    let mut handles: Vec<NotifyHandle> = Vec::new();
    let mut i: usize = 0;
    while i < items.len()
        invariant
            i <= items@.len(),
            handles@.len() == i,
            forall|j: int|
                0 <= j < i ==> (#[trigger] handles@[j].id@ == items@[j].0@ && handles@[j].user_info@
                    == items@[j].1@),
        decreases items@.len() - i,
    {
        let id = items[i].0.clone();
        let user_info = items[i].1.duplicate();
        handles.push(NotifyHandle::new(id, user_info));
        i = i + 1;
    }
    handles
}

} // verus!
