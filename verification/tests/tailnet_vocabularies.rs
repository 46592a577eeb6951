use tailscale_mcp::common::one_of;
use tailscale_mcp::error::ErrorCode;
use tailscale_mcp::tailnet_devices::checked_fields;
use tailscale_mcp::tailnet_keys::checked_key_type;
use tailscale_mcp::tailnet_org::PageWalk;
use tailscale_mcp::tailnet_services::{approval_suffix, checked_name, service_path, DOCUMENTED, GO_CLIENT};
use tailscale_mcp::tailnet_settings::contact_path;
use tailscale_mcp::tailnet_webhooks::checked_subscriptions;

// The control plane's vocabularies, as its description lists them. The
// library takes each list as an argument, so every test names the one it
// holds a value to.
const CREATE_KEY_TYPES: [&str; 3] = ["auth", "client", "federated"];
const UPDATE_KEY_TYPES: [&str; 2] = ["client", "federated"];
const CONTACT_TYPES: [&str; 3] = ["account", "support", "security"];
const USER_ROLES: [&str; 7] =
    ["owner", "member", "admin", "it-admin", "network-admin", "billing-admin", "auditor"];
const USER_ROLE_FILTERS: [&str; 8] =
    ["owner", "member", "admin", "it-admin", "network-admin", "billing-admin", "auditor", "all"];
const USER_TYPE_FILTERS: [&str; 3] = ["member", "shared", "all"];
const DEVICE_FIELDS: [&str; 2] = ["all", "default"];
const SUBSCRIPTIONS: [&str; 4] = ["nodeCreated", "nodeDeleted", "userCreated", "userDeleted"];

#[test]
fn a_service_name_keeps_its_colon_and_a_dot_segment_is_still_refused() {
    // Paths here are the part under the tailnet's own path.
    let name = checked_name("svc:example").expect("a name");
    assert_eq!(service_path(DOCUMENTED, &name, "/devices"), "/services/svc:example/devices");
    assert_eq!(service_path(GO_CLIENT, &name, ""), "/vip-services/svc:example");
    assert!(checked_name("..").is_err());
    assert!(approval_suffix("../..").is_err());
}

#[test]
fn a_contact_kind_that_is_not_one_of_the_three_never_reaches_a_path() {
    assert_eq!(
        contact_path("security", "/resend-verification-email", &CONTACT_TYPES).expect("a kind"),
        "/contacts/security/resend-verification-email"
    );
    assert!(contact_path("..", "", &CONTACT_TYPES).is_err());
    assert!(contact_path("billing", "", &CONTACT_TYPES).is_err());
}

#[test]
fn each_call_is_held_to_its_own_list_of_key_types() {
    assert!(checked_key_type(Some("auth"), &CREATE_KEY_TYPES).is_ok());
    assert!(checked_key_type(Some("api"), &CREATE_KEY_TYPES).is_err());
    assert!(checked_key_type(Some("auth"), &UPDATE_KEY_TYPES).is_err());
    assert!(checked_key_type(Some("client"), &UPDATE_KEY_TYPES).is_ok());

    assert_eq!(checked_key_type(None, &UPDATE_KEY_TYPES).expect("no type"), None);

    let error = checked_key_type(Some("auth"), &UPDATE_KEY_TYPES).expect_err("not updatable");
    let message = error.message;
    assert!(
        message.contains("client") && message.contains("federated"),
        "the refusal quotes the list that applies here: {message}"
    );
    assert!(!message.contains("api"), "and not one that does not: {message}");
}

#[test]
fn the_filter_that_means_do_not_filter_is_not_a_role_anyone_can_hold() {
    assert!(one_of("role", "all", &USER_ROLE_FILTERS).is_ok());
    assert!(one_of("role", "all", &USER_ROLES).is_err());
    assert!(one_of("role", "owner", &USER_ROLES).is_ok());
    assert!(one_of("user_type", "shared", &USER_TYPE_FILTERS).is_ok());
}

#[test]
fn an_event_the_description_does_not_have_is_refused_before_any_is_subscribed() {
    let good = vec!["nodeCreated".to_owned(), "userDeleted".to_owned()];
    assert_eq!(checked_subscriptions(&good, &SUBSCRIPTIONS).expect("known events"), good);

    let error = checked_subscriptions(
        &vec!["nodeCreated".to_owned(), "nodeExploded".to_owned()],
        &SUBSCRIPTIONS,
    )
    .expect_err("one is not an event");
    assert!(error.message.contains("nodeExploded"), "the refusal names the one that is wrong: {error:#?}");
}

#[test]
fn the_field_selection_is_checked_against_the_list_beside_the_model() {
    assert_eq!(checked_fields(None, &DEVICE_FIELDS).expect("absent is fine"), None);
    assert_eq!(
        checked_fields(Some("all"), &DEVICE_FIELDS).expect("a known value").as_deref(),
        Some("all")
    );
    let error = checked_fields(Some("everything"), &DEVICE_FIELDS).expect_err("not a known value");
    assert_eq!(error.code, ErrorCode::InvalidArgs);
    assert!(
        error.message.contains("all") && error.message.contains("default"),
        "the refusal should quote the values: {error:?}"
    );
}

#[test]
fn an_empty_cursor_ends_the_walk_rather_than_repeating_the_last_page() {
    let mut walk = PageWalk::<String>::new();
    assert!(walk.more());
    walk.record(Some(vec!["T1".to_owned()]), Some(String::new()), None).expect("a page");
    assert_eq!(walk.gathered.len(), 1);
    assert_eq!(walk.cursor, None, "an empty cursor is not a cursor");
    assert!(!walk.more());

    let mut walk = PageWalk::<String>::new();
    walk.record(Some(vec![]), Some("abc".to_owned()), None).expect("a page");
    assert_eq!(walk.cursor.as_deref(), Some("abc"));
    assert!(walk.more());
}

#[test]
fn a_listing_with_no_tailnets_array_is_not_read_as_an_empty_organisation() {
    let mut walk = PageWalk::<String>::new();
    assert_eq!(walk.record(None, None, Some("3".to_owned())).unwrap_err().code, ErrorCode::ApiError);
}
