use tailscale_mcp::registry::{confirmation, offered};
use tailscale_mcp::registry::{Registry, TableFault, ToolEntry, ToolMeta};
use tailscale_mcp::meta::{Tier, Toolset};
use tailscale_mcp::tools::entries;

#[test]
fn the_whole_table_forms_a_valid_registry() {
    Registry::new(entries()).expect("the tool table is valid");
}

#[test]
fn every_tool_carries_its_surface_prefix() {
    for entry in entries() {
        assert!(
            entry.meta.name.starts_with(entry.meta.surface().prefix()),
            "`{}` belongs to the {:?} surface",
            entry.meta.name,
            entry.meta.surface()
        );
    }
}

fn row(name: &'static str, tier: Tier, confirm: bool, severing: bool) -> ToolEntry {
    ToolEntry {
        meta: ToolMeta {
            name,
            summary: "a tool",
            toolset: Toolset::LocalStatus,
            tier,
            idempotent: false,
            requires_confirmation: confirm,
            self_severing: severing,
            varying: false,
            since: None,
        },
    }
}

#[test]
fn a_broken_table_is_refused_with_the_row_that_broke_it() {
    let twice = vec![
        row("tailscale_a", Tier::Read, false, false),
        row("tailscale_b", Tier::Write, true, false),
        row("tailscale_a", Tier::Read, false, false),
    ];
    assert_eq!(Registry::new(twice).err(), Some(TableFault::Duplicate(0, 2)));

    let prefix = vec![row("tailnet_a", Tier::Read, false, false)];
    assert_eq!(Registry::new(prefix).err(), Some(TableFault::WrongPrefix(0)));

    let reader_asks = vec![
        row("tailscale_a", Tier::Write, true, true),
        row("tailscale_b", Tier::Read, true, false),
    ];
    assert_eq!(Registry::new(reader_asks).err(), Some(TableFault::Inconsistent(1)));

    let severs_silently = vec![row("tailscale_a", Tier::Destructive, false, true)];
    assert_eq!(Registry::new(severs_silently).err(), Some(TableFault::Inconsistent(0)));

    let fine = Registry::new(vec![row("tailscale_a", Tier::Destructive, true, true)]).unwrap();
    assert_eq!(fine.len(), 1);
}

#[test]
fn the_table_is_the_status_prefs_serve_and_file_toolsets_in_order() {
    let all = entries();
    assert_eq!(all.len(), 30);
    assert_eq!(all[0].meta.name, "tailscale_version");
    assert_eq!(all[1].meta.toolset, Toolset::LocalPrefs);
    assert_eq!(all[9].meta.toolset, Toolset::LocalServe);
    assert_eq!(all[19].meta.toolset, Toolset::LocalFiles);
}

#[test]
fn a_tool_above_the_session_is_not_offered_and_a_confirmation_is_asked_for() {
    let registry = Registry::new(entries()).unwrap();
    let up = registry.find("tailscale_up").expect("declared");
    assert!(!offered(&up, Tier::Write));
    assert!(offered(&up, Tier::Destructive));
    let error = confirmation(&up, false).err().unwrap();
    assert_eq!(error.code, tailscale_mcp::error::ErrorCode::ConfirmationRequired);
    assert!(confirmation(&up, true).is_ok());
    let get = registry.find("tailscale_prefs_get").expect("declared");
    assert!(offered(&get, Tier::Read));
    assert!(confirmation(&get, false).is_ok());
    assert!(registry.find("tailscale_nonesuch").is_none());
}
