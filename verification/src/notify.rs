//! The platform-neutral content and response models: what a notification
//! says, which interactive actions it offers, and the normalized record of
//! what the user did with it.

use vstd::prelude::*;

verus! {

/// Caller-defined string-to-string metadata attached to a notification and
/// round-tripped verbatim to every response for that notification.
///
/// The mapping is kept as a list of key/value entries; when the same key
/// occurs more than once, the latest entry wins. The view is the resulting
/// mathematical map.
#[derive(Debug)]
pub struct UserMetadata {
    pub entries: Vec<(String, String)>,
}

/// The map described by a list of key/value entries, read left to right:
/// a later entry for the same key replaces the earlier one.
pub open spec fn entries_map(s: Seq<(Seq<char>, Seq<char>)>) -> Map<Seq<char>, Seq<char>>
    decreases s.len(),
{
    if s.len() == 0 {
        Map::empty()
    } else {
        entries_map(s.drop_last()).insert(s.last().0, s.last().1)
    }
}

impl View for UserMetadata {
    type V = Map<Seq<char>, Seq<char>>;

    open spec fn view(&self) -> Map<Seq<char>, Seq<char>> {
        entries_map(self.entries.deep_view())
    }
}

impl UserMetadata {
    /// An empty mapping.
    pub fn new() -> (r: Self)
        ensures
            r@ == Map::<Seq<char>, Seq<char>>::empty(),
            r.entries@.len() == 0,
    {
        UserMetadata { entries: Vec::new() }
    }

    /// Adds one key/value pair, replacing any earlier value for the key.
    pub fn insert(&mut self, key: &str, value: &str)
        ensures
            final(self)@ == old(self)@.insert(key@, value@),
            final(self).entries.deep_view() == old(self).entries.deep_view().push(
                (key@, value@),
            ),
    {
        self.entries.push((key.to_owned(), value.to_owned()));
        proof {
            assert(self.entries.deep_view() =~~= old(self).entries.deep_view().push(
                (key@, value@),
            ));
            assert(self.entries.deep_view().drop_last() =~~= old(self).entries.deep_view());
        }
    }

    /// A copy with the same entries.
    pub fn duplicate(&self) -> (r: Self)
        ensures
            r.entries.deep_view() == self.entries.deep_view(),
            r@ == self@,
    {
        let mut entries: Vec<(String, String)> = Vec::new();
        let mut i: usize = 0;
        while i < self.entries.len()
            invariant
                i <= self.entries@.len(),
                entries@.len() == i,
                forall|j: int| 0 <= j < i ==> entries@[j] == self.entries@[j],
            decreases self.entries@.len() - i,
        {
            let kv = (self.entries[i].0.clone(), self.entries[i].1.clone());
            entries.push(kv);
            i = i + 1;
        }
        proof {
            assert(entries@ =~= self.entries@);
            assert(entries.deep_view() =~= self.entries.deep_view());
        }
        UserMetadata { entries }
    }
}

/// The ghost shape of a notification description: each content field as the
/// mathematical value it carries, absence meaning "use the platform default".
pub struct NotifyContentView {
    pub body: Option<Seq<char>>,
    pub title: Option<Seq<char>>,
    pub subtitle: Option<Seq<char>>,
    pub thread_id: Option<Seq<char>>,
    pub category_id: Option<Seq<char>>,
    pub user_metadata: Option<Map<Seq<char>, Seq<char>>>,
    pub sound: Option<Seq<char>>,
}

/// Platform-neutral notification description, populated field by field and
/// immutable once handed to `send`. A field left unset means "use the
/// platform default", never an error.
#[derive(Debug)]
pub struct NotifyBuilder {
    pub body: Option<String>,
    pub title: Option<String>,
    pub subtitle: Option<String>,
    pub thread_id: Option<String>,
    pub category_id: Option<String>,
    pub user_metadata: Option<UserMetadata>,
    pub sound: Option<String>,
}

impl View for NotifyBuilder {
    type V = NotifyContentView;

    open spec fn view(&self) -> NotifyContentView {
        NotifyContentView {
            body: self.body.deep_view(),
            title: self.title.deep_view(),
            subtitle: self.subtitle.deep_view(),
            thread_id: self.thread_id.deep_view(),
            category_id: self.category_id.deep_view(),
            user_metadata: match self.user_metadata {
                Some(m) => Some(m@),
                None => None,
            },
            sound: self.sound.deep_view(),
        }
    }
}

impl NotifyBuilder {
    /// A description with every field unset.
    pub fn new() -> (r: Self)
        ensures
            r@ == (NotifyContentView {
                body: None,
                title: None,
                subtitle: None,
                thread_id: None,
                category_id: None,
                user_metadata: None,
                sound: None,
            }),
    {
        NotifyBuilder {
            body: None,
            title: None,
            subtitle: None,
            thread_id: None,
            category_id: None,
            user_metadata: None,
            sound: None,
        }
    }

    /// Set main content of the notification.
    pub fn body(self, body: &str) -> (r: Self)
        ensures
            r@ == (NotifyContentView { body: Some(body@), ..self@ }),
    {
        NotifyBuilder { body: Some(body.to_owned()), ..self }
    }

    /// Set primary description of the notification.
    pub fn title(self, title: &str) -> (r: Self)
        ensures
            r@ == (NotifyContentView { title: Some(title@), ..self@ }),
    {
        NotifyBuilder { title: Some(title.to_owned()), ..self }
    }

    /// Set secondary description of the notification.
    pub fn subtitle(self, subtitle: &str) -> (r: Self)
        ensures
            r@ == (NotifyContentView { subtitle: Some(subtitle@), ..self@ }),
    {
        NotifyBuilder { subtitle: Some(subtitle.to_owned()), ..self }
    }

    /// Set the notification sound: "default" (or leaving the field unset,
    /// on back ends that default the sound) selects the platform default
    /// sound, any other value names a custom sound.
    pub fn sound(self, sound: &str) -> (r: Self)
        ensures
            r@ == (NotifyContentView { sound: Some(sound@), ..self@ }),
    {
        NotifyBuilder { sound: Some(sound.to_owned()), ..self }
    }

    /// Set the thread id, a grouping key for related notifications.
    pub fn set_thread_id(self, thread_id: &str) -> (r: Self)
        ensures
            r@ == (NotifyContentView { thread_id: Some(thread_id@), ..self@ }),
    {
        NotifyBuilder { thread_id: Some(thread_id.to_owned()), ..self }
    }

    /// Select a previously registered category of interactive actions.
    pub fn set_category_id(self, category_id: &str) -> (r: Self)
        ensures
            r@ == (NotifyContentView { category_id: Some(category_id@), ..self@ }),
    {
        NotifyBuilder { category_id: Some(category_id.to_owned()), ..self }
    }

    /// Attach caller-defined metadata, round-tripped verbatim to every
    /// response for this notification.
    pub fn set_user_metadata(self, user_metadata: UserMetadata) -> (r: Self)
        ensures
            r@ == (NotifyContentView { user_metadata: Some(user_metadata@), ..self@ }),
    {
        NotifyBuilder { user_metadata: Some(user_metadata), ..self }
    }
}

/// What the user did with a delivered notification: tapped it, dismissed it,
/// or selected one specific action button.
#[derive(Debug)]
pub enum NotifyResponseAction {
    /// The user tapped the notification itself.
    Default,
    /// The user closed the notification.
    Dismiss,
    /// The identifier of the action button the user selected.
    Other(String),
}

/// A normalized record of a user interaction, correlated back to the
/// originating notification and the metadata captured when it was sent.
#[derive(Debug)]
pub struct NotifyResponse {
    /// Id of the notification, as assigned at send time.
    pub notification_id: String,
    pub action: NotifyResponseAction,
    /// The text the user typed in, present only for text-input actions.
    pub user_input: Option<String>,
    /// The metadata captured when the notification was sent, recovered from
    /// the native record.
    pub user_metadata: UserMetadata,
}

/// One action of a category: a plain button, or a button with a text field.
#[derive(Debug)]
pub enum NotifyCategoryAction {
    Action { identifier: String, title: String },
    TextInputAction {
        identifier: String,
        title: String,
        input_button_title: String,
        input_placeholder: String,
    },
}

/// A named, reusable set of interactive buttons and inputs a notification
/// can reference through its category id.
#[derive(Debug)]
pub struct NotifyCategory {
    /// Key by which notifications reference this category.
    pub identifier: String,
    /// The actions to display, in order, for notifications of this category.
    pub actions: Vec<NotifyCategoryAction>,
}

} // verus!
