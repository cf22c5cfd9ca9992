//! Event-handler style notification back end.
//!
//! Notifications are described by a toast XML document; interactive actions
//! come from a per-manager category store consulted at send time; and the
//! default-tap target is encoded as a callback URI, because this subsystem
//! carries only one opaque string per interaction.

use vstd::prelude::*;
use vstd::string::StringSliceAdditionalSpecFns;
use vstd::utf8::*;

use crate::deeplink::action_matches;
use crate::deeplink::base64_of;
use crate::deeplink::deeplink_of;
use crate::deeplink::decode_deeplink;
use crate::deeplink::default_token;
use crate::deeplink::encode_deeplink;
use crate::deeplink::json_of_map;
use crate::deeplink::metadata_from_json_bytes;
use crate::deeplink::spec_parse_deeplink;
use crate::error::Error;
use crate::notify::NotifyBuilder;
use crate::notify::NotifyCategory;
use crate::notify::NotifyCategoryAction;
use crate::notify::NotifyContentView;
use crate::notify::NotifyResponse;
use crate::notify::NotifyResponseAction;
use crate::notify::UserMetadata;
use crate::strutil::str_eq;

verus! {

// ---------------------------------------------------------------------------
// XML escaping
// ---------------------------------------------------------------------------
/// The replacement for one character in XML-escaped text.
pub open spec fn escape_char(c: char) -> Seq<char> {
    if c == '<' {
        "&lt;"@
    } else if c == '>' {
        "&gt;"@
    } else if c == '&' {
        "&amp;"@
    } else if c == '\'' {
        "&apos;"@
    } else if c == '"' {
        "&quot;"@
    } else if c == '\r' {
        "&#13;"@
    } else {
        seq![c]
    }
}

/// Text with every XML special character replaced by its entity.
pub open spec fn xml_escaped(s: Seq<char>) -> Seq<char>
    decreases s.len(),
{
    if s.len() == 0 {
        Seq::empty()
    } else {
        xml_escaped(s.drop_last()) + escape_char(s.last())
    }
}

/// Relies on quick_xml::escape::escape, which replaces `<`, `>`, `&`, `'`,
/// `"` and carriage return with their XML entities and keeps every other
/// character as it is.
#[verifier::external_body]
pub(crate) fn xml_escape(s: &str) -> (r: String)
    ensures
        r@ == xml_escaped(s@),
{
    quick_xml::escape::escape(s).into_owned()
}

/// Relies on quick_xml::escape::unescape, which resolves the entities that
/// escaping produces back to the characters they stand for.
#[verifier::external_body]
pub(crate) fn xml_unescape(s: &str) -> (r: Result<String, String>)
    ensures
        match r {
            Ok(v) => forall|t: Seq<char>| s@ == xml_escaped(t) ==> v@ == t,
            Err(_) => forall|t: Seq<char>| s@ != xml_escaped(t),
        },
{
    match quick_xml::escape::unescape(s) {
        Ok(v) => Ok(v.into_owned()),
        Err(e) => Err(e.to_string()),
    }
}

// ---------------------------------------------------------------------------
// Handle and manager state
// ---------------------------------------------------------------------------
/// Handle to a notification sent through this back end: its system-assigned
/// id and the metadata captured at send time.
#[derive(Debug)]
pub struct NotifyHandle {
    pub id: String,
    pub user_metadata: UserMetadata,
}

impl NotifyHandle {
    /// The notification id.
    pub fn get_id(&self) -> (r: String)
        ensures
            r@ == self.id@,
    {
        self.id.clone()
    }

    /// Closing a handle is a no-op on this back end; removal is done through
    /// the manager.
    pub fn close(&self) -> (r: Result<(), Error>)
        ensures
            r is Ok,
    {
        Ok(())
    }
}

/// The category store: the map a list of categories registers, read left to
/// right, a later category with the same identifier replacing the earlier.
pub open spec fn cats_map(s: Seq<NotifyCategory>) -> Map<Seq<char>, NotifyCategory>
    decreases s.len(),
{
    if s.len() == 0 {
        Map::empty()
    } else {
        cats_map(s.drop_last()).insert(s.last().identifier@, s.last())
    }
}

/// The category-store transition: a registration replaces the whole store
/// with the map of the new list — last registration wins, never additive.
pub open spec fn store_spec(
    store: Map<Seq<char>, NotifyCategory>,
    cats: Seq<NotifyCategory>,
) -> Map<Seq<char>, NotifyCategory> {
    cats_map(cats)
}

/// The registration transition of the handler cell and category store:
/// given whether the handler is installed and the current store, it yields
/// the new handler state, the new store and whether registration succeeded.
pub open spec fn register_spec(
    registered: bool,
    store: Map<Seq<char>, NotifyCategory>,
    cats: Seq<NotifyCategory>,
) -> (bool, Map<Seq<char>, NotifyCategory>, bool) {
    if registered {
        (true, store, false)
    } else {
        (true, store_spec(store, cats), true)
    }
}

proof fn lemma_cats_map_lookup(s: Seq<NotifyCategory>, k: Seq<char>, i: int)
    requires
        0 <= i < s.len(),
        s[i].identifier@ == k,
        forall|j: int| i < j < s.len() ==> s[j].identifier@ != k,
    ensures
        cats_map(s).contains_key(k),
        cats_map(s)[k] == s[i],
    decreases s.len(),
{
    if i == s.len() - 1 {
    } else {
        assert(forall|j: int| i < j < s.drop_last().len() ==> s.drop_last()[j].identifier@ != k);
        lemma_cats_map_lookup(s.drop_last(), k, i);
    }
}

proof fn lemma_cats_map_absent(s: Seq<NotifyCategory>, k: Seq<char>)
    requires
        forall|j: int| 0 <= j < s.len() ==> s[j].identifier@ != k,
    ensures
        !cats_map(s).contains_key(k),
    decreases s.len(),
{
    if s.len() > 0 {
        lemma_cats_map_absent(s.drop_last(), k);
    }
}

/// Manager state for this back end: one write-once interaction-handler
/// cell, the application identity, the optional reverse-activation protocol
/// scheme, and the category store.
///
/// The native pieces around it — the toast notifier, the event
/// subscriptions, the history — belong to the process that drives this
/// state; every decision about them is made here.
#[derive(Debug)]
pub struct NotifyManager {
    /// Whether the single interaction handler has been installed; it models
    /// the write-once handler cell, which holds the caller's function.
    pub handler_registered: bool,
    pub app_id: String,
    pub notification_protocol: Option<String>,
    pub categories: Vec<NotifyCategory>,
}

impl NotifyManager {
    /// A manager with no handler and no categories.
    pub fn new_(app_id: String, notification_protocol: Option<String>) -> (r: Self)
        ensures
            r.handler_registered == false,
            r.app_id == app_id,
            r.notification_protocol == notification_protocol,
            r.categories@.len() == 0,
    {
        NotifyManager {
            handler_registered: false,
            app_id,
            notification_protocol,
            categories: Vec::new(),
        }
    }

    /// Creation: succeeds exactly when the native layer could produce a
    /// toast notifier for this application identity (`notifier_available`,
    /// established by the caller's probe).
    pub fn try_new(app_id: &str, notification_protocol: Option<&str>, notifier_available: bool) -> (r:
        Result<Self, Error>)
        ensures
            notifier_available ==> (r matches Ok(m) && m.handler_registered == false
                && m.app_id@ == app_id@ && m.categories@.len() == 0 && (match (
                m.notification_protocol,
                notification_protocol,
            ) {
                (Some(a), Some(b)) => a@ == b@,
                (None, None) => true,
                _ => false,
            })),
            !notifier_available ==> (r matches Err(e) && e matches Error::Other(_)),
    {
        if !notifier_available {
            return Err(Error::Other("failed to get toast notifier for this app id".to_owned()));
        }
        let protocol = match notification_protocol {
            Some(p) => Some(p.to_owned()),
            None => None,
        };
        Ok(Self::new_(app_id.to_owned(), protocol))
    }

    /// Replaces the whole category store with the given set: registration is
    /// last-wins, never additive.
    pub fn store_categories(&mut self, categories: Vec<NotifyCategory>) -> (r: Result<(), Error>)
        ensures
            r is Ok,
            final(self).categories == categories,
            cats_map(final(self).categories@) == store_spec(
                cats_map(old(self).categories@),
                categories@,
            ),
            final(self).handler_registered == old(self).handler_registered,
            final(self).app_id == old(self).app_id,
            final(self).notification_protocol == old(self).notification_protocol,
    {
        self.categories = categories;
        Ok(())
    }

    /// Installs the single interaction handler and the category set.
    ///
    /// The handler cell is write-once: a second call fails with a
    /// setting-handler error and leaves the first registration — handler and
    /// categories — untouched.
    pub fn register(&mut self, categories: Vec<NotifyCategory>) -> (r: Result<(), Error>)
        ensures
            old(self).handler_registered ==> (r matches Err(e) && e matches Error::SettingHandler
                && *final(self) == *old(self)),
            !old(self).handler_registered ==> (r is Ok && final(self).handler_registered
                && final(self).categories == categories && final(self).app_id == old(self).app_id
                && final(self).notification_protocol == old(self).notification_protocol),
            ({
                let t = register_spec(
                    old(self).handler_registered,
                    cats_map(old(self).categories@),
                    categories@,
                );
                final(self).handler_registered == t.0 && cats_map(final(self).categories@) == t.1
                    && (r is Ok) == t.2
            }),
    {
        if self.handler_registered {
            return Err(Error::SettingHandler);
        }
        self.handler_registered = true;
        let stored = self.store_categories(categories);
        match stored {
            Ok(()) => Ok(()),
            Err(e) => Err(e),
        }
    }

    /// Relies on uuid::Uuid::new_v4 and its display form: 36 lowercase
    /// hexadecimal digits and hyphens, of which the first 16 are kept.
    #[verifier::external_body]
    pub(crate) fn generate_notification_id() -> (r: String)
        ensures
            r@.len() == 16,
            forall|i: int| 0 <= i < 16 ==> is_id_char(#[trigger] r@[i]),
    {
        uuid::Uuid::new_v4().to_string()[..16].to_owned()
    }

    /// Serializes metadata to the JSON text stored beside a notification;
    /// absent metadata serializes as the empty object.
    pub fn serialize_user_metadata(user_metadata: &Option<UserMetadata>) -> (r: String)
        ensures
            user_metadata matches Some(m) ==> r@ == json_of_map(m@),
            user_metadata is None ==> r@ == "{}"@,
    {
        match user_metadata {
            Some(m) => crate::deeplink::metadata_to_json(m),
            None => "{}".to_owned(),
        }
    }

    /// Recovers the metadata mapping from the raw string kept in a
    /// notification's data store, which comes back XML-escaped.
    pub fn parse_user_info(raw: &str) -> (r: Result<UserMetadata, Error>)
        ensures
            match r {
                Ok(u) => forall|m: Map<Seq<char>, Seq<char>>|
                    raw@ == xml_escaped(json_of_map(m)) ==> u@ == m,
                Err(e) => (e matches Error::XmlEscape(_)
                    || e matches Error::FailedToParseUserInfo(_)) && forall|
                    m: Map<Seq<char>, Seq<char>>,
                |
                    raw@ != xml_escaped(#[trigger] json_of_map(m)),
            },
    {
        let unescaped = match xml_unescape(raw) {
            Ok(v) => v,
            Err(msg) => {
                return Err(Error::XmlEscape(msg));
            },
        };
        let bytes = unescaped.as_str().as_bytes();
        match metadata_from_json_bytes(bytes) {
            Some(u) => Ok(u),
            None => {
                proof {
                    assert forall|m: Map<Seq<char>, Seq<char>>|
                        raw@ != xml_escaped(#[trigger] json_of_map(m)) by {
                        if raw@ == xml_escaped(json_of_map(m)) {
                            assert(unescaped@ == json_of_map(m));
                            assert(bytes@ == encode_utf8(json_of_map(m)));
                            assert(false);
                        }
                    }
                }
                Err(Error::FailedToParseUserInfo(unescaped))
            },
        }
    }

    /// XML for one plain action button.
    pub fn generate_action_xml(identifier: &str, title: &str) -> (r: String)
        ensures
            r@ == action_xml_of(identifier@, title@),
    {
        let mut s = String::new();
        s.append("<action content=\"");
        let escaped_title = xml_escape(title);
        s.append(escaped_title.as_str());
        s.append("\" arguments=\"");
        let escaped_identifier = xml_escape(identifier);
        s.append(escaped_identifier.as_str());
        s.append("\" activationType=\"foreground\" />");
        s
    }

    /// XML for one text-input action: the input field and its submit button.
    pub fn generate_text_input_action_xml(
        identifier: &str,
        input_button_title: &str,
        input_placeholder: &str,
    ) -> (r: String)
        ensures
            r@ == text_input_action_xml_of(identifier@, input_button_title@, input_placeholder@),
    {
        let mut s = String::new();
        s.append("<input id=\"textBox\" type=\"text\" placeHolderContent=\"");
        let escaped_placeholder = xml_escape(input_placeholder);
        s.append(escaped_placeholder.as_str());
        s.append("\" /><action content=\"");
        let escaped_button_title = xml_escape(input_button_title);
        s.append(escaped_button_title.as_str());
        s.append("\" arguments=\"");
        let escaped_identifier = xml_escape(identifier);
        s.append(escaped_identifier.as_str());
        s.append("\" hint-inputId=\"textBox\" activationType=\"foreground\" />");
        s
    }

    /// The actions XML of one category: empty for a category without
    /// actions, else the action elements wrapped in an `<actions>` element.
    fn actions_xml_for(category: &NotifyCategory) -> (r: String)
        ensures
            r@ == actions_xml_of(*category),
    {
        if category.actions.len() == 0 {
            return String::new();
        }
        let mut xml = String::new();
        xml.append("<actions>");
        let mut i: usize = 0;
        while i < category.actions.len()
            invariant
                i <= category.actions@.len(),
                xml@ == "<actions>"@ + actions_list_xml(category.actions@.take(i as int)),
            decreases category.actions@.len() - i,
        {
            let action_xml = match &category.actions[i] {
                NotifyCategoryAction::Action { identifier, title } => Self::generate_action_xml(
                    identifier.as_str(),
                    title.as_str(),
                ),
                NotifyCategoryAction::TextInputAction {
                    identifier,
                    title: _,
                    input_button_title,
                    input_placeholder,
                } => Self::generate_text_input_action_xml(
                    identifier.as_str(),
                    input_button_title.as_str(),
                    input_placeholder.as_str(),
                ),
            };
            xml.append(action_xml.as_str());
            proof {
                let taken = category.actions@.take(i + 1 as int);
                assert(taken.drop_last() =~= category.actions@.take(i as int));
                assert(taken.last() == category.actions@[i as int]);
            }
            i = i + 1;
        }
        proof {
            assert(category.actions@.take(category.actions@.len() as int) =~= category.actions@);
        }
        xml.append("</actions>");
        xml
    }

    /// The actions XML for a category id: the XML of the latest stored
    /// category under that id, or empty text when no category matches.
    pub fn generate_actions_xml(&self, category_id: &str) -> (r: String)
        ensures
            cats_map(self.categories@).contains_key(category_id@) ==> r@ == actions_xml_of(
                cats_map(self.categories@)[category_id@],
            ),
            !cats_map(self.categories@).contains_key(category_id@) ==> r@ == Seq::<char>::empty(),
    {
        let mut i: usize = self.categories.len();
        while i > 0
            invariant
                i <= self.categories@.len(),
                forall|j: int|
                    i <= j < self.categories@.len()
                        ==> #[trigger] self.categories@[j].identifier@ != category_id@,
            decreases i,
        {
            i = i - 1;
            if str_eq(self.categories[i].identifier.as_str(), category_id) {
                proof {
                    lemma_cats_map_lookup(self.categories@, category_id@, i as int);
                }
                return Self::actions_xml_for(&self.categories[i]);
            }
        }
        proof {
            lemma_cats_map_absent(self.categories@, category_id@);
        }
        String::new()
    }
}

/// True of the characters a generated notification id is made of: lowercase
/// hexadecimal digits and hyphens.
pub open spec fn is_id_char(c: char) -> bool {
    ('0' <= c && c <= '9') || ('a' <= c && c <= 'f') || c == '-'
}

/// The XML of one plain action button.
pub open spec fn action_xml_of(identifier: Seq<char>, title: Seq<char>) -> Seq<char> {
    "<action content=\""@ + xml_escaped(title) + "\" arguments=\""@ + xml_escaped(identifier)
        + "\" activationType=\"foreground\" />"@
}

/// The XML of one text-input action.
pub open spec fn text_input_action_xml_of(
    identifier: Seq<char>,
    input_button_title: Seq<char>,
    input_placeholder: Seq<char>,
) -> Seq<char> {
    "<input id=\"textBox\" type=\"text\" placeHolderContent=\""@ + xml_escaped(input_placeholder)
        + "\" /><action content=\""@ + xml_escaped(input_button_title) + "\" arguments=\""@
        + xml_escaped(identifier) + "\" hint-inputId=\"textBox\" activationType=\"foreground\" />"@
}

/// The XML of one category action.
pub open spec fn category_action_xml(a: NotifyCategoryAction) -> Seq<char> {
    match a {
        NotifyCategoryAction::Action { identifier, title } => action_xml_of(identifier@, title@),
        NotifyCategoryAction::TextInputAction {
            identifier,
            title: _,
            input_button_title,
            input_placeholder,
        } => text_input_action_xml_of(identifier@, input_button_title@, input_placeholder@),
    }
}

/// The concatenated XML of a list of category actions, in order.
pub open spec fn actions_list_xml(s: Seq<NotifyCategoryAction>) -> Seq<char>
    decreases s.len(),
{
    if s.len() == 0 {
        Seq::empty()
    } else {
        actions_list_xml(s.drop_last()) + category_action_xml(s.last())
    }
}

/// The actions XML of one category.
pub open spec fn actions_xml_of(c: NotifyCategory) -> Seq<char> {
    if c.actions@.len() == 0 {
        Seq::empty()
    } else {
        "<actions>"@ + actions_list_xml(c.actions@) + "</actions>"@
    }
}

// ---------------------------------------------------------------------------
// Toast XML
// ---------------------------------------------------------------------------
/// The metadata mapping of a notification description, empty when unset.
pub open spec fn meta_of(c: NotifyContentView) -> Map<Seq<char>, Seq<char>> {
    match c.user_metadata {
        Some(m) => m,
        None => Map::empty(),
    }
}

/// The launch attributes of the toast element: with a reverse-activation
/// protocol configured, the default-tap target is a callback URI carrying
/// the notification id, the default-tap token and the metadata.
pub open spec fn launch_options_of(
    c: NotifyContentView,
    id: Seq<char>,
    protocol: Option<Seq<char>>,
) -> Seq<char> {
    match protocol {
        Some(p) => "launch=\""@ + deeplink_of(
            p,
            id,
            default_token(),
            base64_of(encode_utf8(json_of_map(meta_of(c)))),
        ) + "\" activationType=\"protocol\""@,
        None => Seq::empty(),
    }
}

/// The title text element, empty when the title is unset.
pub open spec fn title_content_of(t: Option<Seq<char>>) -> Seq<char> {
    match t {
        Some(x) => "<text id=\"1\">"@ + xml_escaped(x) + "</text>"@,
        None => Seq::empty(),
    }
}

/// The subtitle text element, empty when the subtitle is unset.
pub open spec fn subtitle_content_of(t: Option<Seq<char>>) -> Seq<char> {
    match t {
        Some(x) => "<text id=\"2\">"@ + xml_escaped(x) + "</text>"@,
        None => Seq::empty(),
    }
}

/// The body text element, empty when the body is unset.
pub open spec fn body_content_of(t: Option<Seq<char>>) -> Seq<char> {
    match t {
        Some(x) => "<text id=\"3\">"@ + xml_escaped(x) + "</text>"@,
        None => Seq::empty(),
    }
}

/// The complete toast XML document for one notification description.
pub open spec fn toast_xml_of(
    c: NotifyContentView,
    id: Seq<char>,
    protocol: Option<Seq<char>>,
    actions_xml: Seq<char>,
) -> Seq<char> {
    "<toast duration=\"short\" "@ + launch_options_of(c, id, protocol)
        + ">\n            <visual>\n                <binding template=\"ToastGeneric\">\n                    "@
        + title_content_of(c.title) + "\n                    "@ + subtitle_content_of(c.subtitle)
        + "\n                    "@ + body_content_of(c.body)
        + "\n                </binding>\n            </visual>\n            <audio src=\"ms-winsoundevent:Notification.SMS\" />\n            "@
        + actions_xml + "\n        </toast>"@
}

/// Builds the toast XML document text for a notification description: the
/// visible text elements with their content escaped, the optional
/// callback-URI launch target, and the given actions markup.
#[verifier::rlimit(50)]
pub fn build_toast_xml(
    builder: &NotifyBuilder,
    id: &str,
    notification_protocol: Option<&str>,
    actions_xml: &str,
) -> (r: String)
    ensures
        r@ == toast_xml_of(
            builder@,
            id@,
            match notification_protocol {
                Some(p) => Some(p@),
                None => None,
            },
            actions_xml@,
        ),
{
    let mut out = String::new();
    out.append("<toast duration=\"short\" ");
    match notification_protocol {
        Some(p) => {
            let user_metadata = match &builder.user_metadata {
                Some(m) => m.duplicate(),
                None => UserMetadata::new(),
            };
            let response = NotifyResponse {
                notification_id: id.to_owned(),
                action: NotifyResponseAction::Default,
                user_input: None,
                user_metadata,
            };
            let launch_url = encode_deeplink(p, &response);
            out.append("launch=\"");
            out.append(launch_url.as_str());
            out.append("\" activationType=\"protocol\"");
        },
        None => {},
    }
    out.append(
        ">\n            <visual>\n                <binding template=\"ToastGeneric\">\n                    ",
    );
    match &builder.title {
        Some(t) => {
            out.append("<text id=\"1\">");
            let escaped = xml_escape(t.as_str());
            out.append(escaped.as_str());
            out.append("</text>");
        },
        None => {},
    }
    out.append("\n                    ");
    match &builder.subtitle {
        Some(t) => {
            out.append("<text id=\"2\">");
            let escaped = xml_escape(t.as_str());
            out.append(escaped.as_str());
            out.append("</text>");
        },
        None => {},
    }
    out.append("\n                    ");
    match &builder.body {
        Some(t) => {
            out.append("<text id=\"3\">");
            let escaped = xml_escape(t.as_str());
            out.append(escaped.as_str());
            out.append("</text>");
        },
        None => {},
    }
    out.append(
        "\n                </binding>\n            </visual>\n            <audio src=\"ms-winsoundevent:Notification.SMS\" />\n            ",
    );
    out.append(actions_xml);
    out.append("\n        </toast>");
    proof {
        assert(out@ =~= toast_xml_of(
            builder@,
            id@,
            match notification_protocol {
                Some(p) => Some(p@),
                None => None,
            },
            actions_xml@,
        ));
    }
    out
}

/// The actions XML a send with the given category id produces from a
/// category store.
pub open spec fn actions_xml_spec(
    cats: Seq<NotifyCategory>,
    category_id: Option<Seq<char>>,
) -> Seq<char> {
    match category_id {
        Some(cid) => if cats_map(cats).contains_key(cid) {
            actions_xml_of(cats_map(cats)[cid])
        } else {
            Seq::empty()
        },
        None => Seq::empty(),
    }
}

/// Everything a send computes before the native layer takes over: the fresh
/// notification id, the serialized metadata, the toast XML, and the handle
/// returned to the caller.
#[derive(Debug)]
pub struct PreparedNotification {
    pub notification_id: String,
    pub user_metadata_string: String,
    pub toast_xml: String,
    pub handle: NotifyHandle,
}

impl NotifyManager {
    /// The handle a send returns: the fresh id and the metadata captured
    /// from the description.
    pub fn create_notification_handle(builder: &NotifyBuilder, notification_id: String) -> (r:
        NotifyHandle)
        ensures
            r.id == notification_id,
            r.user_metadata@ == meta_of(builder@),
    {
        let user_metadata = match &builder.user_metadata {
            Some(m) => m.duplicate(),
            None => UserMetadata::new(),
        };
        NotifyHandle { id: notification_id, user_metadata }
    }

    /// The computing part of a send: generates the notification id,
    /// serializes the metadata, builds the toast XML — resolving the
    /// category id against the stored categories — and makes the handle.
    pub fn prepare_notification(&self, builder: &NotifyBuilder) -> (r: PreparedNotification)
        ensures
            r.notification_id@.len() == 16,
            forall|i: int| 0 <= i < 16 ==> is_id_char(#[trigger] r.notification_id@[i]),
            r.user_metadata_string@ == (match builder@.user_metadata {
                Some(m) => json_of_map(m),
                None => "{}"@,
            }),
            r.toast_xml@ == toast_xml_of(
                builder@,
                r.notification_id@,
                self.notification_protocol.deep_view(),
                actions_xml_spec(self.categories@, builder@.category_id),
            ),
            r.handle.id@ == r.notification_id@,
            r.handle.user_metadata@ == meta_of(builder@),
    {
        let notification_id = Self::generate_notification_id();
        let user_metadata_string = Self::serialize_user_metadata(&builder.user_metadata);
        let actions_xml = match &builder.category_id {
            Some(cid) => self.generate_actions_xml(cid.as_str()),
            None => String::new(),
        };
        let protocol: Option<&str> = match &self.notification_protocol {
            Some(p) => Some(p.as_str()),
            None => None,
        };
        let toast_xml = build_toast_xml(
            builder,
            notification_id.as_str(),
            protocol,
            actions_xml.as_str(),
        );
        let handle = Self::create_notification_handle(builder, notification_id.clone());
        PreparedNotification { notification_id, user_metadata_string, toast_xml, handle }
    }

    /// The response an activation event produces: no argument string means
    /// the default tap; with a protocol configured an argument string is
    /// decoded as a callback URI, falling back to treating it as a literal
    /// action identifier; without one it is always a literal identifier.
    /// The notification id and metadata are the ones captured for the
    /// notification, never guessed from the argument.
    pub fn activation_response(
        &self,
        notification_id: &str,
        user_info: &UserMetadata,
        action: Option<String>,
    ) -> (r: NotifyResponse)
        ensures
            r.notification_id@ == notification_id@,
            r.user_metadata@ == user_info@,
            r.user_input is None,
            match action {
                None => r.action matches NotifyResponseAction::Default,
                Some(a) => {
                    &&& (self.notification_protocol is None ==> (
                    r.action matches NotifyResponseAction::Other(s) && s@ == a@))
                    &&& (self.notification_protocol is Some ==> activation_action_ok(
                        r.action,
                        a@,
                    ))
                    &&& (self.notification_protocol is Some ==> match spec_parse_deeplink(a@) {
                        Some(p) => match p.query {
                            None => action_matches(r.action, p.token),
                            Some(q) => forall|m: Map<Seq<char>, Seq<char>>|
                                q == base64_of(encode_utf8(json_of_map(m))) ==> action_matches(
                                    r.action,
                                    p.token,
                                ),
                        },
                        None => true,
                    })
                },
            },
    {
        let response_action = match action {
            None => NotifyResponseAction::Default,
            Some(a) => {
                if self.notification_protocol.is_some() {
                    match decode_deeplink(a.as_str()) {
                        Ok(resp) => resp.action,
                        Err(_) => NotifyResponseAction::Other(a),
                    }
                } else {
                    NotifyResponseAction::Other(a)
                }
            },
        };
        NotifyResponse {
            notification_id: notification_id.to_owned(),
            action: response_action,
            user_input: None,
            user_metadata: user_info.duplicate(),
        }
    }

    /// The response a dismissal event produces, if any: only an explicit
    /// user cancellation reaches the handler; a timeout, an application
    /// hide or an unknown reason is suppressed.
    pub fn dismissal_response(
        notification_id: &str,
        user_info: &UserMetadata,
        reason: Option<DismissalReason>,
    ) -> (r: Option<NotifyResponse>)
        ensures
            r is Some <==> (reason matches Some(x) && x matches DismissalReason::UserCanceled),
            r matches Some(resp) ==> (resp.action matches NotifyResponseAction::Dismiss
                && resp.notification_id@ == notification_id@ && resp.user_metadata@ == user_info@
                && resp.user_input is None),
    {
        match reason {
            Some(DismissalReason::UserCanceled) => Some(
                NotifyResponse {
                    notification_id: notification_id.to_owned(),
                    action: NotifyResponseAction::Dismiss,
                    user_input: None,
                    user_metadata: user_info.duplicate(),
                },
            ),
            _ => None,
        }
    }

    /// The cleanup decision after the primary bulk clear: on failure the
    /// app-identity-scoped fallback clear must be attempted, and the
    /// operation still reports success — cleanup is best-effort, never
    /// fatal.
    pub fn clear_all_notifications(primary: Result<(), Error>) -> (r: (bool, Result<(), Error>))
        ensures
            r.0 == (primary is Err),
            r.1 is Ok,
    {
        match primary {
            Ok(()) => (false, Ok(())),
            Err(_) => (true, Ok(())),
        }
    }

    /// Converts the notifications the system still tracks — pairs of tag
    /// and raw stored metadata — into handles; metadata that fails to parse
    /// degrades to an empty mapping.
    pub fn handles_from_history(items: &Vec<(String, String)>) -> (r: Vec<NotifyHandle>)
        ensures
            r@.len() == items@.len(),
            forall|i: int| 0 <= i < items@.len() ==> #[trigger] r@[i].id@ == items@[i].0@,
            forall|i: int, m: Map<Seq<char>, Seq<char>>|
                #![trigger r@[i].user_metadata@, json_of_map(m)]
                0 <= i < items@.len() && items@[i].1@ == xml_escaped(json_of_map(m))
                    ==> r@[i].user_metadata@ == m,
    {
        let mut handles: Vec<NotifyHandle> = Vec::new();
        let mut i: usize = 0;
        while i < items.len()
            invariant
                i <= items@.len(),
                handles@.len() == i,
                forall|j: int| 0 <= j < i ==> #[trigger] handles@[j].id@ == items@[j].0@,
                forall|j: int, m: Map<Seq<char>, Seq<char>>|
                    #![trigger handles@[j].user_metadata@, json_of_map(m)]
                    0 <= j < i && items@[j].1@ == xml_escaped(json_of_map(m))
                        ==> handles@[j].user_metadata@ == m,
            decreases items@.len() - i,
        {
            let user_metadata = match Self::parse_user_info(items[i].1.as_str()) {
                Ok(u) => u,
                Err(_) => UserMetadata::new(),
            };
            let ghost pre = handles@;
            handles.push(NotifyHandle { id: items[i].0.clone(), user_metadata });
            proof {
                assert forall|j: int| 0 <= j < i + 1 implies #[trigger] handles@[j].id@
                    == items@[j].0@ by {
                    if j < i {
                        assert(handles@[j] == pre[j]);
                    }
                }
                assert forall|j: int, m: Map<Seq<char>, Seq<char>>|
                    0 <= j < i + 1 && items@[j].1@ == xml_escaped(
                        #[trigger] json_of_map(m),
                    ) implies #[trigger] handles@[j].user_metadata@ == m by {
                    if j < i {
                        assert(handles@[j] == pre[j]);
                    }
                }
            }
            i = i + 1;
        }
        handles
    }
}

/// The dismissal reasons the native layer reports.
#[derive(Clone, Copy, Debug)]
pub enum DismissalReason {
    /// The user explicitly canceled the notification.
    UserCanceled,
    /// The application hid the notification itself.
    ApplicationHidden,
    /// The notification timed out.
    TimedOut,
}

/// What an activation decision may make of an argument string when a
/// protocol is configured: the action decoded from it as a callback URI,
/// or, where decoding fails, the string itself as a literal identifier.
pub open spec fn activation_action_ok(act: NotifyResponseAction, a: Seq<char>) -> bool {
    match spec_parse_deeplink(a) {
        None => act matches NotifyResponseAction::Other(s) && s@ == a,
        Some(p) => action_matches(act, p.token) || (act matches NotifyResponseAction::Other(s)
            && s@ == a),
    }
}

/// Category-domain law: an identifier resolves against a registered
/// category list exactly when one of its categories carries it; with
/// `store_categories` replacing the whole store, only the latest
/// registration's identifiers resolve.
pub proof fn lemma_cats_map_domain(s: Seq<NotifyCategory>, k: Seq<char>)
    ensures
        cats_map(s).contains_key(k) <==> exists|i: int|
            0 <= i < s.len() && #[trigger] s[i].identifier@ == k,
    decreases s.len(),
{
    if s.len() > 0 {
        lemma_cats_map_domain(s.drop_last(), k);
        if cats_map(s).contains_key(k) {
            if s.last().identifier@ == k {
                assert(s[s.len() - 1].identifier@ == k);
            } else {
                let i = choose|i: int|
                    0 <= i < s.drop_last().len() && #[trigger] s.drop_last()[i].identifier@ == k;
                assert(s[i].identifier@ == k);
            }
        }
        if exists|i: int| 0 <= i < s.len() && #[trigger] s[i].identifier@ == k {
            let i = choose|i: int| 0 <= i < s.len() && #[trigger] s[i].identifier@ == k;
            if i < s.len() - 1 {
                assert(s.drop_last()[i].identifier@ == k);
            }
        }
    }
}


/// Single-registration law: starting from an uninstalled handler, one
/// registration succeeds; a second registration on the resulting state
/// fails and leaves both the handler and the stored categories exactly as
/// the first registration left them.
pub proof fn lemma_single_registration(
    store: Map<Seq<char>, NotifyCategory>,
    cats1: Seq<NotifyCategory>,
    cats2: Seq<NotifyCategory>,
)
    ensures
        ({
            let first = register_spec(false, store, cats1);
            let second = register_spec(first.0, first.1, cats2);
            first.2 && !second.2 && second.0 == first.0 && second.1 == first.1
        }),
{
}

/// A generated notification id is safe to carry in a callback URI: its
/// characters are hexadecimal digits and hyphens, so it contains neither
/// the path separator nor the query separator the URI grammar splits at.
pub proof fn lemma_generated_id_is_deeplink_safe(id: Seq<char>)
    requires
        forall|i: int| 0 <= i < id.len() ==> is_id_char(#[trigger] id[i]),
    ensures
        !id.contains('/'),
        !id.contains('?'),
{
    if id.contains('/') {
        let i = choose|i: int| 0 <= i < id.len() && id[i] == '/';
        assert(is_id_char(id[i]));
        assert(false);
    }
    if id.contains('?') {
        let i = choose|i: int| 0 <= i < id.len() && id[i] == '?';
        assert(is_id_char(id[i]));
        assert(false);
    }
}

/// Category replacement law: storing one category set and then another
/// leaves exactly the second set in the store, whatever was stored before;
/// an identifier resolves afterwards exactly when the second set carries
/// it.
pub proof fn lemma_category_replacement(
    cats1: Seq<NotifyCategory>,
    cats2: Seq<NotifyCategory>,
    k: Seq<char>,
)
    ensures
        store_spec(store_spec(Map::empty(), cats1), cats2) == cats_map(cats2),
        cats_map(cats2).contains_key(k) <==> exists|i: int|
            0 <= i < cats2.len() && #[trigger] cats2[i].identifier@ == k,
{
    lemma_cats_map_domain(cats2, k);
}


} // verus!
