//! Argument building, output reading and command gating for a server that
//! drives the `tailscale` command-line client and the Tailscale control-plane
//! API on behalf of a caller.

pub mod text;
pub mod error;
pub mod meta;
pub mod registry;
pub mod tools;
pub mod common;
pub mod path_policy;
pub mod json;
pub mod version;
pub mod local_debug;
pub mod passthrough;
pub mod local_status;
pub mod local_files;
pub mod local_prefs;
pub mod local_serve;
pub mod local_lock;
pub mod tailnet_devices;
pub mod tailnet_dns;
pub mod tailnet_invites;
pub mod tailnet_keys;
pub mod tailnet_logging;
pub mod tailnet_oauth;
pub mod tailnet_org;
pub mod tailnet_policy;
pub mod tailnet_posture;
pub mod tailnet_services;
pub mod tailnet_settings;
pub mod tailnet_users;
pub mod tailnet_webhooks;
