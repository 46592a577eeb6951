use tailscale_mcp::local_files::{drive_list, no_taildrive, rename_outcome, share_outcome, syspolicy_reload, taildrive_unsupported};
use tailscale_mcp::local_files::{entries, parse_shares, parse_targets};
use tailscale_mcp::meta::{Tier, Toolset};

const TARGETS: &str = "100.64.0.2\tworkstation\n\
    100.64.0.3\tlaptop\toffline; last seen 66h38m0s ago\n";

const SHARES: &str = "name       path                  as\n\
    ----       ----                  --\n\
    docs       /srv/shared docs      alice\n\
    photos     /srv/photos           alice\n";

#[test]
fn targets_are_read_column_by_column() {
    let targets = parse_targets(TARGETS);
    assert_eq!(targets.len(), 2);
    assert_eq!(targets[0].hostname, "workstation");
    assert_eq!(targets[0].status, None);
    assert_eq!(targets[1].address, "100.64.0.3");
    assert_eq!(
        targets[1].status.as_deref(),
        Some("offline; last seen 66h38m0s ago")
    );
}

#[test]
fn shares_survive_a_path_with_a_space_in_it() {
    let shares = parse_shares(SHARES);
    assert_eq!(shares.len(), 2);
    assert_eq!(shares[0].name, "docs");
    assert_eq!(shares[0].path, "/srv/shared docs");
    assert_eq!(shares[0].as_user, "alice");
    assert_eq!(shares[1].path, "/srv/photos");
}

#[test]
fn an_empty_share_table_is_an_empty_list() {
    assert!(parse_shares("name    path    as\n----    ----    --\n").is_empty());
}

#[test]
fn a_share_with_no_as_user_is_still_a_share() {
    let shares = parse_shares(
        "name       path                  as\n\
         ----       ----                  --\n\
         docs       /srv/shared docs      \n\
         photos     /srv/photos\n",
    );
    assert_eq!(shares.len(), 2);
    assert_eq!(shares[0].path, "/srv/shared docs");
    assert_eq!(shares[0].as_user, "");
    assert_eq!(shares[1].name, "photos");
    assert_eq!(shares[1].as_user, "");
}

#[test]
fn a_path_may_hold_consecutive_spaces() {
    let shares = parse_shares(
        "name       path                  as\n\
         ----       ----                  --\n\
         docs       /srv/two  spaces      alice\n",
    );
    assert_eq!(shares.len(), 1);
    assert_eq!(shares[0].path, "/srv/two  spaces");
    assert_eq!(shares[0].as_user, "alice");
}

#[test]
fn a_share_called_name_is_not_mistaken_for_the_header() {
    let shares = parse_shares(
        "name       path                  as\n\
         ----       ----                  --\n\
         name       /srv/awkward          alice\n",
    );
    assert_eq!(shares.len(), 1);
    assert_eq!(shares[0].name, "name");
    assert_eq!(shares[0].path, "/srv/awkward");
}

#[test]
fn the_toolset_is_the_size_it_was_scoped_to() {
    assert_eq!(entries().len(), 11);
    for entry in entries() {
        assert_eq!(entry.meta.toolset, Toolset::LocalFiles);
    }
}

#[test]
fn nothing_here_is_reachable_from_a_read_only_session_except_the_two_readers() {
    let readers: Vec<&str> = entries()
        .iter()
        .filter(|entry| entry.meta.tier == Tier::Read)
        .map(|entry| entry.meta.name)
        .collect();
    assert_eq!(readers, ["tailscale_file_targets", "tailscale_drive_list"]);
}

#[test]
fn withdrawing_a_share_is_the_one_destructive_tool() {
    let destructive: Vec<&str> = entries()
        .iter()
        .filter(|entry| entry.meta.tier == Tier::Destructive)
        .map(|entry| entry.meta.name)
        .collect();
    assert_eq!(destructive, ["tailscale_drive_unshare"]);
}

#[test]
fn every_description_says_which_files_it_touches() {
    for entry in entries()
        .iter()
        .filter(|entry| entry.meta.name != "tailscale_syspolicy_reload")
    {
        let summary = entry.meta.summary.to_lowercase();
        assert!(
            summary.contains("local filesystem")
                || summary.contains("file")
                || summary.contains("directories"),
            "`{}` does not say what it touches: {}",
            entry.meta.name,
            entry.meta.summary
        );
    }
}

#[test]
fn the_file_tools_say_what_they_did() {
    assert_eq!(syspolicy_reload(), ["syspolicy", "reload", "--json=true"]);
    assert_eq!(drive_list(), ["drive", "list"]);
    assert_eq!(
        share_outcome("/srv/docs"),
        "`/srv/docs` shared with the tailnet over Taildrive"
    );
    assert_eq!(rename_outcome("photos"), "renamed to `photos`");
    let said = " Taildrive CLI commands are not supported on this platform \n";
    assert!(taildrive_unsupported(said));
    let error = no_taildrive(said);
    assert_eq!(error.code, tailscale_mcp::error::ErrorCode::UnsupportedPlatform);
    assert_eq!(
        error.message,
        "Taildrive is not configurable through the client on this node: Taildrive CLI commands are not supported on this platform"
    );
    assert!(error.hint.is_some());
}
