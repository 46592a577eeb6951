use tailscale_mcp::tailnet_users::Standing;
use tailscale_mcp::tailnet_policy::{policy_read, PolicyGetParams, PolicyRead};
use tailscale_mcp::tailnet_webhooks::{webhook_body, WebhookCreateParams};
use tailscale_mcp::tailnet_invites::checked_invite;
use tailscale_mcp::tailnet_posture::{checked_provider, create_check, update_check, CreateParams, UpdateParams};
use tailscale_mcp::tailnet_settings::{checked_email, contact_path};
use tailscale_mcp::tailnet_logging::{audit_query, trust_policy_path, window as log_window, AuditLogParams};
use tailscale_mcp::tailnet_invites::{checked_roles, UserInviteRequest};
use tailscale_mcp::tailnet_users::{user_filters, UserListParams};
use tailscale_mcp::error::{ErrorCode, ToolError};
use tailscale_mcp::meta::Tier;
use tailscale_mcp::tailnet_devices::{
    attribute_path, authorize_check, checked_batch, device_path, filter_query, window, windowed,
    Filter,
};
use tailscale_mcp::tailnet_dns::addresses;
use tailscale_mcp::tailnet_invites::{explain_credential, NEEDS_A_PERSON};
use tailscale_mcp::tailnet_logging::{explain_log_type, stream_path};
use tailscale_mcp::tailnet_oauth::{OauthAppBody, OauthAppWriteParams};
use tailscale_mcp::tailnet_org::{checked_limit, organization_path, PageWalk, PAGES_FOLLOWED};
use tailscale_mcp::tailnet_policy::{if_match, validation, Format, Validation, HUJSON, JSON};
use tailscale_mcp::tailnet_posture::integration_path;
use tailscale_mcp::tailnet_services::{approval_suffix, retry_spelling, service_path, DOCUMENTED};
use tailscale_mcp::tailnet_users::user_path;
use tailscale_mcp::tailnet_webhooks::{checked_subscriptions, webhook_path};

#[test]
fn a_device_is_addressed_globally_rather_than_through_a_tailnet() {
    assert_eq!(
        device_path("n1234567CNTRL", "/routes").expect("a valid id"),
        "/api/v2/device/n1234567CNTRL/routes"
    );
    assert_eq!(
        device_path("123456789", "").expect("the numeric form is valid too"),
        "/api/v2/device/123456789"
    );
}

#[test]
fn an_identifier_that_would_rewrite_the_path_is_refused() {
    for bad in [
        "n123/../tailnet/-/devices",
        "n123?fields=all",
        "n123 456",
        "",
    ] {
        let error = device_path(bad, "").expect_err("should be refused");
        assert_eq!(error.code, ErrorCode::InvalidArgs, "{bad}");
    }
}

#[test]
fn an_attribute_this_server_may_not_set_is_refused_before_the_call() {
    let error = attribute_path("n1", "node:os").expect_err("not a custom attribute");
    assert_eq!(error.code, ErrorCode::InvalidArgs);
    assert!(error.message.contains("custom:"));
    assert_eq!(
        attribute_path("n1", "custom:diskEncrypted").unwrap(),
        "/api/v2/device/n1/attributes/custom:diskEncrypted"
    );
}

#[test]
fn a_filter_named_fields_is_refused_and_the_rest_become_pairs() {
    let pairs = filter_query(&vec![
        ("os".to_owned(), Filter::One("linux".to_owned())),
        (
            "tags".to_owned(),
            Filter::Several(vec!["tag:a".to_owned(), "tag:b".to_owned()]),
        ),
    ])
    .unwrap();
    assert_eq!(
        pairs,
        [
            ("os".to_owned(), "linux".to_owned()),
            ("tags".to_owned(), "tag:a".to_owned()),
            ("tags".to_owned(), "tag:b".to_owned()),
        ]
    );
    let error = filter_query(&vec![("fields".to_owned(), Filter::One("all".to_owned()))])
        .err()
        .unwrap();
    assert_eq!(error.code, ErrorCode::InvalidArgs);
}

#[test]
fn a_window_never_runs_past_the_listing() {
    let (start, end, w) = window(5, Some(10), 3);
    assert_eq!((start, end), (3, 5));
    assert_eq!(w.returned, 2);
    let (start, end, w) = window(5, None, 9);
    assert_eq!((start, end, w.returned), (5, 5, 0));
    let (start, end, _) = window(10, Some(2), 0);
    assert_eq!((start, end), (0, 2));
    assert!(!windowed(None, None));
    assert!(!windowed(None, Some(0)));
    assert!(windowed(None, Some(1)));
    assert!(windowed(Some(0), None));
}

#[test]
fn revoking_an_authorisation_needs_the_destructive_tier() {
    assert!(authorize_check(true, Tier::Write).is_ok());
    assert_eq!(
        authorize_check(false, Tier::Write).err().unwrap().code,
        ErrorCode::NotPermitted
    );
    assert!(authorize_check(false, Tier::Destructive).is_ok());
}

#[test]
fn a_batch_is_checked_whole_before_it_is_sent() {
    let plan = checked_batch(&vec![
        (" n1 ".to_owned(), vec!["custom:a".to_owned(), "custom:b".to_owned()]),
        ("n2".to_owned(), vec!["custom:a".to_owned()]),
        ("n1".to_owned(), vec![]),
    ])
    .unwrap();
    assert_eq!(plan.devices, ["n1", "n2"]);
    assert_eq!(plan.changed, 3);
    let error = checked_batch(&vec![("n1".to_owned(), vec!["node:os".to_owned()])])
        .err()
        .unwrap();
    assert_eq!(
        error.message,
        "`node:os` on `n1` does not begin with `custom:`; only custom attributes can be set"
    );
    assert!(checked_batch(&vec![]).is_err());
}

#[test]
fn a_blank_nameserver_is_refused_but_an_empty_list_is_not() {
    assert_eq!(
        addresses(Vec::new()).expect("an empty list"),
        Vec::<String>::new()
    );
    assert_eq!(
        addresses(vec![" 8.8.8.8 ".to_owned()]).expect("one address"),
        ["8.8.8.8"]
    );
    assert!(addresses(vec!["8.8.8.8".to_owned(), "  ".to_owned()]).is_err());
}

#[test]
fn only_a_refusal_about_permission_gets_the_credential_explanation() {
    let refused = explain_credential(ToolError::api_error(403, "forbidden"));
    assert_eq!(refused.hint.as_deref(), Some(NEEDS_A_PERSON));

    assert_eq!(
        explain_credential(
            ToolError::new(ErrorCode::NotFound, "gone".to_owned()).with_status(404)
        )
        .hint,
        None
    );
    assert!(explain_credential(ToolError::rate_limited(Some(60)))
        .hint
        .is_some());
    assert_ne!(
        explain_credential(ToolError::rate_limited(Some(60)))
            .hint
            .as_deref(),
        Some(NEEDS_A_PERSON),
        "the rate limit keeps its own hint"
    );
}

#[test]
fn the_log_type_decides_the_path_and_only_a_path_break_is_refused() {
    assert_eq!(
        stream_path("network", "/status").expect("known"),
        "/logging/network/stream/status"
    );
    assert_eq!(
        stream_path("posture", "").expect("sent anyway"),
        "/logging/posture/stream"
    );
    assert!(stream_path("../acl", "").is_err());
}

#[test]
fn a_log_type_that_is_not_one_of_the_two_is_explained_on_the_way_back() {
    let known = ["configuration", "network"];
    let refused = ToolError::new(ErrorCode::ApiError, "not found".to_owned()).with_status(404);
    let explained = explain_log_type(refused, "config", &known);
    assert!(explained
        .hint
        .as_deref()
        .is_some_and(|h| h.contains("configuration")));
    let refused = ToolError::new(ErrorCode::ApiError, "not found".to_owned()).with_status(404);
    assert!(explain_log_type(refused, "network", &known).hint.is_none());
}

fn bare(redirect_uris: Vec<String>, scopes: Vec<String>) -> OauthAppWriteParams {
    OauthAppWriteParams {
        name: "my-oauth-app".to_owned(),
        description: None,
        redirect_uris,
        scopes,
        allowed_node_attributes: None,
    }
}

#[test]
fn a_registration_that_could_not_work_is_refused_before_it_is_sent() {
    let uri = || vec!["https://example.com/cb".to_owned()];
    let scope = || vec!["auth_keys:create".to_owned()];
    assert!(OauthAppBody::build(bare(vec![], scope())).is_err());
    assert!(OauthAppBody::build(bare(uri(), vec![])).is_err());
    assert!(OauthAppBody::build(bare(vec![String::new()], scope())).is_err());
    let body = OauthAppBody::build(bare(uri(), scope())).unwrap();
    assert_eq!(body.redirect_uris, ["https://example.com/cb"]);
    assert_eq!(body.scopes, ["auth_keys:create"]);
}

#[test]
fn a_guard_is_quoted_however_it_arrives() {
    assert_eq!(
        if_match(Some("\"e0b2816b418\""), false).expect("an etag"),
        "\"e0b2816b418\""
    );
    assert_eq!(
        if_match(Some("e0b2816b418"), false).expect("an etag"),
        "\"e0b2816b418\""
    );
    assert_eq!(if_match(None, true).expect("the default"), "\"ts-default\"");
}

#[test]
fn the_two_guards_together_are_refused_rather_than_ranked() {
    assert!(if_match(Some("\"abc\""), true).is_err());
    assert!(if_match(Some("  "), false).is_err());
    assert_eq!(
        if_match(Some("   "), true).expect("the default"),
        "\"ts-default\""
    );
}

#[test]
fn a_format_the_endpoint_does_not_have_is_refused_with_the_two_it_does() {
    assert_eq!(Format::parse(None).expect("the default"), Format::HuJson);
    assert_eq!(Format::parse(Some("json")).expect("json"), Format::Json);
    assert_eq!(Format::Json.accept(), JSON);
    assert_eq!(Format::HuJson.accept(), HUJSON);
    let error = Format::parse(Some("yaml")).err().unwrap();
    assert!(error.message.contains("hujson") && error.message.contains("json"));
}

#[test]
fn a_validation_is_one_mode_or_the_other() {
    assert!(validation(true, true).is_err());
    assert!(validation(false, false).is_err());
    assert_eq!(validation(true, false).unwrap(), Validation::Tests);
    assert_eq!(validation(false, true).unwrap(), Validation::Policy);
}

#[test]
fn an_integration_is_addressed_outside_the_tailnet_path() {
    assert_eq!(
        integration_path("pi-abc123").expect("a valid id"),
        "/api/v2/posture/integrations/pi-abc123"
    );
    assert!(integration_path("../devices").is_err());
}

#[test]
fn a_user_is_addressed_outside_the_tailnet_path() {
    assert_eq!(
        user_path("uid-example", "/suspend").expect("a valid id"),
        "/api/v2/users/uid-example/suspend"
    );
    assert!(user_path("../../tailnet/-", "/delete").is_err());
}

#[test]
fn a_listing_of_tailnets_follows_at_most_ten_pages() {
    assert_eq!(checked_limit(None).unwrap(), 100);
    assert_eq!(checked_limit(Some(7)).unwrap(), 7);
    assert_eq!(
        checked_limit(Some(0)).err().unwrap().message,
        "`limit` is between 1 and 100; `0` is outside that"
    );
    assert_eq!(
        organization_path("-").unwrap(),
        "/api/v2/organizations/-/tailnets"
    );
    let mut walk = PageWalk::<String>::new();
    let mut fetched = 0;
    while walk.more() {
        walk.record(Some(vec![format!("T{fetched}")]), Some(format!("page-{fetched}")), None)
            .expect("a page");
        fetched += 1;
    }
    assert_eq!(fetched, PAGES_FOLLOWED);
    assert!(walk.stopped_short().is_some());
    let mut walk = PageWalk::<String>::new();
    walk.record(Some(vec![]), Some(String::new()), None).expect("a page");
    assert!(!walk.more());
    assert!(walk.stopped_short().is_none());
}

#[test]
fn services_are_tried_under_both_spellings() {
    assert_eq!(
        service_path(DOCUMENTED, "svc:web", "/device/n1/approved"),
        "/services/svc:web/device/n1/approved"
    );
    assert_eq!(approval_suffix("n1").unwrap(), "/device/n1/approved");
    assert!(retry_spelling(Some(404)));
    assert!(!retry_spelling(Some(403)));
    assert!(!retry_spelling(None));
}

#[test]
fn a_webhook_needs_events_it_can_be_sent() {
    let known = ["nodeCreated", "nodeDeleted"];
    assert!(checked_subscriptions(&vec![], &known).is_err());
    assert!(checked_subscriptions(&vec!["nodeCreated".to_owned(), "other".to_owned()], &known).is_err());
    assert_eq!(
        checked_subscriptions(&vec!["nodeDeleted".to_owned()], &known).unwrap(),
        ["nodeDeleted"]
    );
    assert_eq!(
        webhook_path("ep1", "/rotate").unwrap(),
        "/api/v2/webhooks/ep1/rotate"
    );
}

#[test]
fn the_detailed_report_takes_no_format() {
    assert!(policy_read(&PolicyGetParams {
        format: Some("json".to_owned()),
        details: Some(true),
    })
    .is_err());
    assert_eq!(
        policy_read(&PolicyGetParams {
            format: None,
            details: Some(true),
        })
        .unwrap(),
        PolicyRead::Details
    );
    assert_eq!(
        policy_read(&PolicyGetParams {
            format: Some("json".to_owned()),
            details: None,
        })
        .unwrap(),
        PolicyRead::Document(Format::Json)
    );
    assert_eq!(
        policy_read(&PolicyGetParams::default()).unwrap(),
        PolicyRead::Document(Format::HuJson)
    );
}

#[test]
fn a_webhook_needs_somewhere_to_post_to() {
    let params = WebhookCreateParams {
        endpoint_url: "  https://hooks.example.com/x ".to_owned(),
        provider_type: Some("slack".to_owned()),
        subscriptions: vec!["nodeCreated".to_owned()],
    };
    let body = webhook_body(&params, &["slack", "discord"], &["nodeCreated"]).unwrap();
    assert_eq!(body.endpoint_url, "https://hooks.example.com/x");
    assert_eq!(body.provider_type.as_deref(), Some("slack"));
    let blank = WebhookCreateParams {
        endpoint_url: " ".to_owned(),
        ..WebhookCreateParams::default()
    };
    assert_eq!(
        webhook_body(&blank, &["slack"], &["nodeCreated"]).err().unwrap().message,
        "`endpoint_url` is empty; a webhook needs somewhere to post to"
    );
    assert!(webhook_body(&params, &["discord"], &["nodeCreated"]).is_err());
}

#[test]
fn blank_values_are_refused_where_they_would_mean_nothing() {
    assert_eq!(checked_email(" a@example.com ").unwrap(), "a@example.com");
    assert!(checked_email("  ").is_err());
    assert_eq!(checked_invite(" https://login.tailscale.com/admin/invite/abc ").unwrap(), "https://login.tailscale.com/admin/invite/abc");
    assert!(checked_invite("").is_err());
    assert_eq!(checked_provider(" intune ").unwrap(), "intune");
    let error = create_check(&CreateParams {
        provider: "intune".to_owned(),
        client_secret: "  ".to_owned(),
        ..CreateParams::default()
    })
    .err()
    .unwrap();
    assert!(error.message.starts_with("`client_secret` is empty"));
    assert!(update_check(&UpdateParams {
        integration_id: "pi-1".to_owned(),
        ..UpdateParams::default()
    })
    .is_err());
    assert_eq!(
        contact_path("security", "/resend-verification-email", &["account", "security"]).unwrap(),
        "/contacts/security/resend-verification-email"
    );
    assert!(contact_path("sales", "", &["account", "security"]).is_err());
}

#[test]
fn an_audit_read_carries_its_window_and_its_narrowing() {
    let params = AuditLogParams {
        start: "2023-12-19T16:39:57-08:00".to_owned(),
        end: "2023-12-20T16:39:57-08:00".to_owned(),
        actor: Some(vec![" alice@example.com ".to_owned()]),
        event: Some(vec!["nodeCreated".to_owned(), "nodeDeleted".to_owned()]),
        ..AuditLogParams::default()
    };
    let query = audit_query(&params).unwrap();
    let pairs: Vec<(&str, &str)> = query.iter().map(|(a, b)| (a.as_str(), b.as_str())).collect();
    assert_eq!(
        pairs,
        [
            ("start", "2023-12-19T16:39:57-08:00"),
            ("end", "2023-12-20T16:39:57-08:00"),
            ("actor", "alice@example.com"),
            ("event", "nodeCreated"),
            ("event", "nodeDeleted"),
        ]
    );
    let error = log_window("2023-12-19T16:39:57-08:00", "  ").err().unwrap();
    assert!(error.message.contains("`end`") && error.message.contains("2023-12-19"));
    assert_eq!(
        trust_policy_path("ext-1").unwrap(),
        "/aws-external-id/ext-1/validate-aws-trust-policy"
    );
}

#[test]
fn roles_and_filters_are_held_to_what_the_api_has() {
    let roles = ["member", "admin"];
    assert!(checked_roles(
        &vec![
            UserInviteRequest { role: None, email: None },
            UserInviteRequest { role: Some("admin".to_owned()), email: None },
        ],
        &roles
    )
    .is_ok());
    assert!(checked_roles(
        &vec![UserInviteRequest { role: Some("owner".to_owned()), email: None }],
        &roles
    )
    .is_err());
    let (t, role) = user_filters(
        &UserListParams {
            user_type: Some("shared".to_owned()),
            role: None,
        },
        &["member", "shared", "all"],
        &["all", "owner"],
    )
    .unwrap();
    assert_eq!(t.as_deref(), Some("shared"));
    assert_eq!(role, None);
}

#[test]
fn a_window_with_a_blank_end_is_refused_naming_the_end() {
    let error = log_window("2023-12-19T16:39:57-08:00", "  ").expect_err("blank");
    assert_eq!(error.code, ErrorCode::InvalidArgs);
    assert!(error.message.contains("`end`"), "should name the parameter: {}", error.message);
    assert!(error.message.contains("2023-12-19"), "and show the shape it wants: {}", error.message);
}

#[test]
fn a_page_size_the_api_would_reject_is_refused_here_rather_than_shortened() {
    assert_eq!(checked_limit(None).expect("default"), tailscale_mcp::tailnet_org::LARGEST_PAGE);
    assert_eq!(checked_limit(Some(25)).expect("in range"), 25);
    assert!(checked_limit(Some(0)).is_err());
    let error = checked_limit(Some(500)).expect_err("too large");
    assert!(
        error.message.contains("100") && error.message.contains("500"),
        "should name both the limit and what was asked: {}",
        error.message
    );
}

#[test]
fn a_write_without_a_guard_is_refused_before_it_is_sent() {
    let error = if_match(None, false).expect_err("no guard");
    assert_eq!(error.code, ErrorCode::InvalidArgs);
    assert!(
        error.message.contains("etag") && error.message.contains("over_default"),
        "{}",
        error.message
    );
}

#[test]
fn a_provider_the_description_does_not_know_still_reaches_the_control_plane() {
    assert_eq!(checked_provider("falcon").expect("a provider"), "falcon");
    assert_eq!(
        checked_provider("  something-new  ").expect("sent anyway"),
        "something-new",
        "and it is trimmed on the way, so a stray space is not a provider"
    );
    let error = checked_provider("   ").expect_err("no provider");
    assert_eq!(error.code, ErrorCode::InvalidArgs);
}

#[test]
fn an_endpoint_with_no_events_is_refused_rather_than_created() {
    assert!(checked_subscriptions(&vec![], &["nodeCreated"]).is_err());
}

#[test]
fn a_change_of_standing_is_a_post_to_the_action() {
    assert_eq!(
        Standing::Suspend.path("uid-example").unwrap(),
        "/api/v2/users/uid-example/suspend"
    );
    assert_eq!(Standing::Delete.done(), "user deleted");
    assert!(Standing::Approve.path("..").is_err());
}

#[test]
fn a_followed_listing_gathers_every_page_and_keeps_the_last_total() {
    let mut walk = PageWalk::<String>::new();
    walk.record(Some(vec!["T1".to_owned(), "T2".to_owned()]), Some("c1".to_owned()), Some("3".to_owned()))
        .expect("a page");
    walk.record(Some(vec!["T3".to_owned()]), None, None).expect("a page");
    let listing = walk.finish();
    assert_eq!(listing.tailnets, ["T1", "T2", "T3"]);
    assert_eq!(listing.total.as_deref(), Some("3"));
    assert!(listing.more.is_none());

    let mut walk = PageWalk::<String>::new();
    let error = walk.record(None, None, Some("3".to_owned())).unwrap_err();
    assert_eq!(error.code, ErrorCode::ApiError);
}
