use user_notify::linux;
use user_notify::macos;
use user_notify::macos::AuthorizationStatus;
use user_notify::macos::NativeErrorInfo;
use user_notify::macos::SoundSelection;
use user_notify::windows;
use user_notify::windows::DismissalReason;
use user_notify::Error;
use user_notify::NotifyBuilder;
use user_notify::NotifyCategory;
use user_notify::NotifyCategoryAction;
use user_notify::NotifyResponseAction;
use user_notify::UserMetadata;

fn category(id: &str, action_id: &str, title: &str) -> NotifyCategory {
    NotifyCategory {
        identifier: id.to_string(),
        actions: vec![NotifyCategoryAction::Action {
            identifier: action_id.to_string(),
            title: title.to_string(),
        }],
    }
}

// ---------------------------------------------------------------------------
// Event-handler adapter
// ---------------------------------------------------------------------------

#[test]
fn windows_register_twice_fails_and_keeps_first_registration() {
    let mut manager = windows::NotifyManager::new_("com.example.app".to_string(), None);
    assert!(manager.register(vec![category("cat.a", "cat.a.ok", "OK")]).is_ok());
    let second = manager.register(vec![category("cat.b", "cat.b.ok", "OK")]);
    assert!(matches!(second, Err(Error::SettingHandler)));
    // The first registration's categories are still the ones that resolve.
    let xml = manager.generate_actions_xml("cat.a");
    assert!(xml.contains("cat.a.ok"));
    assert_eq!(manager.generate_actions_xml("cat.b"), "");
}

#[test]
fn windows_category_replacement_last_registration_wins() {
    let mut manager = windows::NotifyManager::new_("com.example.app".to_string(), None);
    manager.store_categories(vec![category("x", "x.go", "Go")]).unwrap();
    manager.store_categories(vec![category("y", "y.go", "Go")]).unwrap();
    assert_eq!(manager.generate_actions_xml("x"), "");
    let xml = manager.generate_actions_xml("y");
    assert_eq!(
        xml,
        "<actions><action content=\"Go\" arguments=\"y.go\" activationType=\"foreground\" /></actions>",
    );
}

#[test]
fn windows_actions_xml_escapes_special_characters() {
    let xml = windows::NotifyManager::generate_action_xml("id<1>", "O&K");
    assert_eq!(
        xml,
        "<action content=\"O&amp;K\" arguments=\"id&lt;1&gt;\" activationType=\"foreground\" />",
    );
}

#[test]
fn windows_text_input_action_xml_exact() {
    let xml = windows::NotifyManager::generate_text_input_action_xml("reply.id", "Send", "Type here");
    assert_eq!(
        xml,
        "<input id=\"textBox\" type=\"text\" placeHolderContent=\"Type here\" /><action content=\"Send\" arguments=\"reply.id\" hint-inputId=\"textBox\" activationType=\"foreground\" />",
    );
}

#[test]
fn windows_empty_category_gives_empty_actions_xml() {
    let mut manager = windows::NotifyManager::new_("com.example.app".to_string(), None);
    manager
        .store_categories(vec![NotifyCategory { identifier: "empty".to_string(), actions: vec![] }])
        .unwrap();
    assert_eq!(manager.generate_actions_xml("empty"), "");
}

#[test]
fn windows_prepare_notification_simple_send() {
    let manager = windows::NotifyManager::new_("com.example.app".to_string(), None);
    let builder = NotifyBuilder::new().title("Hi").body("Test");
    let prepared = manager.prepare_notification(&builder);
    assert_eq!(prepared.notification_id.len(), 16);
    assert!(!prepared.handle.get_id().is_empty());
    assert_eq!(prepared.handle.get_id(), prepared.notification_id);
    assert_eq!(prepared.user_metadata_string, "{}");
    let expected = String::new()
        + "<toast duration=\"short\" >\n"
        + "            <visual>\n"
        + "                <binding template=\"ToastGeneric\">\n"
        + "                    <text id=\"1\">Hi</text>\n"
        + "                    \n"
        + "                    <text id=\"3\">Test</text>\n"
        + "                </binding>\n"
        + "            </visual>\n"
        + "            <audio src=\"ms-winsoundevent:Notification.SMS\" />\n"
        + "            \n"
        + "        </toast>";
    assert_eq!(prepared.toast_xml, expected);
    // On query, the id the system then tracks comes back as a handle.
    let active = windows::NotifyManager::handles_from_history(&vec![(
        prepared.notification_id.clone(),
        prepared.user_metadata_string.clone(),
    )]);
    assert_eq!(active.len(), 1);
    assert_eq!(active[0].id, prepared.notification_id);
}

#[test]
fn windows_prepare_notification_with_protocol_embeds_deeplink() {
    let manager = windows::NotifyManager::new_(
        "com.example.app".to_string(),
        Some("myapp".to_string()),
    );
    let mut m = UserMetadata::new();
    m.insert("k", "v");
    let builder = NotifyBuilder::new().title("Hi").set_user_metadata(m);
    let prepared = manager.prepare_notification(&builder);
    let launch = format!(
        "launch=\"myapp://{}/__default__?",
        prepared.notification_id,
    );
    assert!(prepared.toast_xml.contains(&launch));
    assert!(prepared.toast_xml.contains("activationType=\"protocol\""));
}

#[test]
fn windows_notification_id_charset() {
    let manager = windows::NotifyManager::new_("com.example.app".to_string(), None);
    let id = manager.prepare_notification(&NotifyBuilder::new()).notification_id;
    assert_eq!(id.len(), 16);
    assert!(id.chars().all(|c| c.is_ascii_hexdigit() || c == '-'));
}

#[test]
fn windows_activation_selected_action_reaches_handler_with_metadata() {
    let mut manager = windows::NotifyManager::new_("com.example.app".to_string(), None);
    manager.register(vec![category("cat.a", "cat.a.ok", "OK")]).unwrap();
    let builder = NotifyBuilder::new().set_category_id("cat.a");
    let prepared = manager.prepare_notification(&builder);
    assert!(prepared.toast_xml.contains("arguments=\"cat.a.ok\""));
    // The user selects the action button: the native layer hands back its
    // raw identifier.
    let mut m = UserMetadata::new();
    m.insert("origin", "test");
    let response = manager.activation_response(
        &prepared.notification_id,
        &m,
        Some("cat.a.ok".to_string()),
    );
    match &response.action {
        NotifyResponseAction::Other(s) => assert_eq!(s, "cat.a.ok"),
        other => panic!("wrong action: {other:?}"),
    }
    assert_eq!(response.notification_id, prepared.notification_id);
    assert_eq!(
        response.user_metadata.entries,
        vec![("origin".to_string(), "test".to_string())],
    );
    assert!(response.user_input.is_none());
}

#[test]
fn windows_activation_without_argument_is_default_tap() {
    let manager = windows::NotifyManager::new_("com.example.app".to_string(), None);
    let response = manager.activation_response("nid", &UserMetadata::new(), None);
    assert!(matches!(response.action, NotifyResponseAction::Default));
}

#[test]
fn windows_activation_with_protocol_decodes_deeplink() {
    let manager = windows::NotifyManager::new_(
        "com.example.app".to_string(),
        Some("myapp".to_string()),
    );
    let response = manager.activation_response(
        "nid",
        &UserMetadata::new(),
        Some("myapp://nid/__default__?e30=".to_string()),
    );
    assert!(matches!(response.action, NotifyResponseAction::Default));
}

#[test]
fn windows_activation_with_protocol_falls_back_to_literal() {
    let manager = windows::NotifyManager::new_(
        "com.example.app".to_string(),
        Some("myapp".to_string()),
    );
    let response = manager.activation_response(
        "nid",
        &UserMetadata::new(),
        Some("cat.a.ok".to_string()),
    );
    match &response.action {
        NotifyResponseAction::Other(s) => assert_eq!(s, "cat.a.ok"),
        other => panic!("wrong action: {other:?}"),
    }
}

#[test]
fn windows_dismissal_timeout_never_reaches_handler() {
    let forwarded = windows::NotifyManager::dismissal_response(
        "nid",
        &UserMetadata::new(),
        Some(DismissalReason::TimedOut),
    );
    assert!(forwarded.is_none());
    let hidden = windows::NotifyManager::dismissal_response(
        "nid",
        &UserMetadata::new(),
        Some(DismissalReason::ApplicationHidden),
    );
    assert!(hidden.is_none());
    let unknown = windows::NotifyManager::dismissal_response("nid", &UserMetadata::new(), None);
    assert!(unknown.is_none());
}

#[test]
fn windows_dismissal_user_canceled_always_reaches_handler() {
    let mut m = UserMetadata::new();
    m.insert("k", "v");
    let forwarded = windows::NotifyManager::dismissal_response(
        "nid",
        &m,
        Some(DismissalReason::UserCanceled),
    )
    .expect("user cancellation must be forwarded");
    assert!(matches!(forwarded.action, NotifyResponseAction::Dismiss));
    assert_eq!(forwarded.notification_id, "nid");
    assert_eq!(
        forwarded.user_metadata.entries,
        vec![("k".to_string(), "v".to_string())],
    );
}

#[test]
fn windows_clear_all_is_best_effort() {
    let (fallback, result) = windows::NotifyManager::clear_all_notifications(Ok(()));
    assert!(!fallback);
    assert!(result.is_ok());
    let (fallback, result) =
        windows::NotifyManager::clear_all_notifications(Err(Error::Other("boom".to_string())));
    assert!(fallback);
    assert!(result.is_ok());
    // Once the history is cleared, a query sees no notifications.
    let active = windows::NotifyManager::handles_from_history(&vec![]);
    assert!(active.is_empty());
}

#[test]
fn windows_serialize_user_metadata_exact() {
    assert_eq!(windows::NotifyManager::serialize_user_metadata(&None), "{}");
    let mut m = UserMetadata::new();
    m.insert("a", "b");
    assert_eq!(
        windows::NotifyManager::serialize_user_metadata(&Some(m)),
        "{\"a\":\"b\"}",
    );
}

#[test]
fn windows_parse_user_info_round_trip() {
    let parsed = windows::NotifyManager::parse_user_info("{&quot;k&quot;:&quot;v&quot;}").unwrap();
    assert_eq!(parsed.entries, vec![("k".to_string(), "v".to_string())]);
    let plain = windows::NotifyManager::parse_user_info("{\"k\":\"v\"}").unwrap();
    assert_eq!(plain.entries, vec![("k".to_string(), "v".to_string())]);
    let err = windows::NotifyManager::parse_user_info("not json").unwrap_err();
    assert!(matches!(err, Error::FailedToParseUserInfo(_)));
    let err = windows::NotifyManager::parse_user_info("&unknown;").unwrap_err();
    assert!(matches!(err, Error::XmlEscape(_)));
}

#[test]
fn windows_handles_from_history_degrades_bad_metadata() {
    let items = vec![
        ("id-1".to_string(), "{&quot;k&quot;:&quot;v&quot;}".to_string()),
        ("id-2".to_string(), "garbage".to_string()),
    ];
    let handles = windows::NotifyManager::handles_from_history(&items);
    assert_eq!(handles.len(), 2);
    assert_eq!(handles[0].id, "id-1");
    assert_eq!(handles[0].user_metadata.entries, vec![("k".to_string(), "v".to_string())]);
    assert_eq!(handles[1].id, "id-2");
    assert!(handles[1].user_metadata.entries.is_empty());
}

#[test]
fn windows_try_new_follows_notifier_probe() {
    let ok = windows::NotifyManager::try_new("com.example.app", Some("myapp"), true);
    assert!(ok.is_ok());
    let err = windows::NotifyManager::try_new("com.example.app", None, false);
    assert!(matches!(err, Err(Error::Other(_))));
}

#[test]
fn windows_handle_close_is_noop() {
    let handle = windows::NotifyHandle {
        id: "h-1".to_string(),
        user_metadata: UserMetadata::new(),
    };
    assert!(handle.close().is_ok());
    assert_eq!(handle.get_id(), "h-1");
}

// ---------------------------------------------------------------------------
// Main-thread delegate adapter
// ---------------------------------------------------------------------------

#[test]
fn macos_construction_requires_bundle_id() {
    let err = macos::NotifyManager::try_new(None);
    assert!(matches!(err, Err(Error::NoBundleId)));
    let manager = macos::NotifyManager::try_new(Some("com.example.app")).unwrap();
    assert_eq!(manager.bundle_id.as_deref(), Some("com.example.app"));
}

#[test]
fn macos_main_thread_operations_fail_off_main_thread() {
    assert!(matches!(macos::ensure_main_thread(false), Err(Error::NotMainThread)));
    assert!(macos::ensure_main_thread(true).is_ok());
    assert!(matches!(
        macos::NotifyHandle::remove_notification_by_id(false, true),
        Err(Error::NotMainThread),
    ));
    assert!(matches!(
        macos::NotifyHandle::remove_notification_by_id(true, false),
        Err(Error::NoBundleId),
    ));
    assert!(macos::NotifyHandle::remove_notification_by_id(true, true).is_ok());
    let mut manager = macos::NotifyManager::new_(Some("com.example.app".to_string()));
    assert!(matches!(manager.register(false), Err(Error::NotMainThread)));
    assert!(!manager.delegate_registered);
}

#[test]
fn macos_register_twice_fails_and_keeps_cells() {
    let mut manager = macos::NotifyManager::new_(Some("com.example.app".to_string()));
    assert!(manager.register(true).is_ok());
    assert!(manager.delegate_registered);
    assert!(manager.listener_registered);
    let second = manager.register(true);
    assert!(matches!(second, Err(Error::MultipleRegisterCalls)));
    assert!(manager.delegate_registered);
    assert!(manager.listener_registered);
}

#[test]
fn macos_sound_resolution() {
    assert!(matches!(macos::resolve_sound(None), SoundSelection::DefaultSound));
    assert!(matches!(
        macos::resolve_sound(Some("default".to_string())),
        SoundSelection::DefaultSound,
    ));
    match macos::resolve_sound(Some("ping".to_string())) {
        SoundSelection::Named(n) => assert_eq!(n, "ping"),
        SoundSelection::DefaultSound => panic!("named sound lost"),
    }
}

#[test]
fn macos_prepare_request_builds_content_and_handle() {
    let manager = macos::NotifyManager::new_(Some("com.example.app".to_string()));
    let mut m = UserMetadata::new();
    m.insert("k", "v");
    let builder = NotifyBuilder::new()
        .title("Hi")
        .body("Test")
        .set_thread_id("t")
        .set_category_id("cat.a")
        .set_user_metadata(m);
    let (content, id, handle) = manager.prepare_request(builder).unwrap();
    assert_eq!(content.title.as_deref(), Some("Hi"));
    assert_eq!(content.body.as_deref(), Some("Test"));
    assert_eq!(content.thread_id.as_deref(), Some("t"));
    assert_eq!(content.category_id.as_deref(), Some("cat.a"));
    assert!(matches!(content.sound, SoundSelection::DefaultSound));
    assert!(id.ends_with(".com.example.app"));
    assert_eq!(id.len(), 37 + "com.example.app".len());
    assert_eq!(handle.get_id(), id);
    assert_eq!(handle.user_info.entries, vec![("k".to_string(), "v".to_string())]);
}

#[test]
fn macos_prepare_request_without_bundle_id_fails() {
    let manager = macos::NotifyManager::new_(None);
    let err = manager.prepare_request(NotifyBuilder::new());
    assert!(matches!(err, Err(Error::NoBundleId)));
}

#[test]
fn macos_authorization_status_mapping() {
    assert!(macos::is_authorization_status_granted(AuthorizationStatus::Authorized));
    assert!(macos::is_authorization_status_granted(AuthorizationStatus::Provisional));
    assert!(macos::is_authorization_status_granted(AuthorizationStatus::Ephemeral));
    assert!(!macos::is_authorization_status_granted(AuthorizationStatus::Denied));
    assert!(!macos::is_authorization_status_granted(AuthorizationStatus::NotDetermined));
    assert!(!macos::is_authorization_status_granted(AuthorizationStatus::Unknown));
}

#[test]
fn macos_authorization_decline_remaps_to_false() {
    let declined = macos::authorization_outcome(
        false,
        Some(NativeErrorInfo {
            code: 1,
            domain: "UNErrorDomain".to_string(),
            user_info: "{}".to_string(),
            description: "Notifications are not allowed for this application".to_string(),
        }),
    );
    assert!(matches!(declined, Ok(false)));
    let other = macos::authorization_outcome(
        true,
        Some(NativeErrorInfo {
            code: 5,
            domain: "UNErrorDomain".to_string(),
            user_info: "{}".to_string(),
            description: "something broke".to_string(),
        }),
    );
    match other {
        Err(Error::Native { code, domain, description, .. }) => {
            assert_eq!(code, 5);
            assert_eq!(domain, "UNErrorDomain");
            assert_eq!(description, "something broke");
        },
        other => panic!("wrong outcome: {other:?}"),
    }
    assert!(matches!(macos::authorization_outcome(true, None), Ok(true)));
    assert!(matches!(macos::authorization_outcome(false, None), Ok(false)));
}

#[test]
fn macos_action_identifier_mapping() {
    let default_id = "com.apple.UNNotificationDefaultActionIdentifier";
    let dismiss_id = "com.apple.UNNotificationDismissActionIdentifier";
    assert!(matches!(
        macos::map_action_identifier(default_id.to_string(), default_id, dismiss_id),
        NotifyResponseAction::Default,
    ));
    assert!(matches!(
        macos::map_action_identifier(dismiss_id.to_string(), default_id, dismiss_id),
        NotifyResponseAction::Dismiss,
    ));
    match macos::map_action_identifier("cat.a.ok".to_string(), default_id, dismiss_id) {
        NotifyResponseAction::Other(s) => assert_eq!(s, "cat.a.ok"),
        other => panic!("wrong action: {other:?}"),
    }
}

#[test]
fn macos_convert_notifications_to_handles_keeps_pairs() {
    let mut m = UserMetadata::new();
    m.insert("k", "v");
    let items = vec![("id-1".to_string(), m), ("id-2".to_string(), UserMetadata::new())];
    let handles = macos::convert_notifications_to_handles(&items);
    assert_eq!(handles.len(), 2);
    assert_eq!(handles[0].id, "id-1");
    assert_eq!(handles[0].user_info.entries, vec![("k".to_string(), "v".to_string())]);
    assert_eq!(handles[1].id, "id-2");
    assert!(handles[1].user_info.entries.is_empty());
}

// ---------------------------------------------------------------------------
// Stub adapter
// ---------------------------------------------------------------------------

#[test]
fn stub_manager_fails_every_operation() {
    let manager = linux::NotifyManager::try_new("com.example.app", None).unwrap();
    assert!(matches!(
        manager.get_notification_permission_state(),
        Err(Error::NotSupported),
    ));
    assert!(matches!(
        manager.first_time_ask_for_notification_permission(),
        Err(Error::NotSupported),
    ));
    assert!(matches!(manager.register(vec![]), Err(Error::NotSupported)));
    assert!(matches!(
        manager.remove_all_delivered_notifications(),
        Err(Error::NotSupported),
    ));
    assert!(matches!(
        manager.remove_delivered_notifications(vec!["id-1"]),
        Err(Error::NotSupported),
    ));
    assert!(matches!(manager.get_active_notifications(), Err(Error::NotSupported)));
    assert!(matches!(
        manager.send(NotifyBuilder::new()),
        Err(Error::NotSupported),
    ));
    let handle = linux::NotifyHandle { id: "h-1".to_string() };
    assert_eq!(handle.get_id(), "h-1");
    assert!(matches!(handle.close(), Err(Error::NotSupported)));
}
