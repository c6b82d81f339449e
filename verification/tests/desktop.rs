use micyou_plugin::manifest::{PluginKind, PluginManifest, RuntimeKind};
use micyou_plugin::plugin_host::{
    PluginDspRegistry, PluginHost, PLUGIN_CHAIN_NODE, PLUGIN_NODE_AFTER,
};
use micyou_plugin::renderer::{equals_ignore_ascii_case, software_rendering_requested};
use micyou_plugin::views::{ids_to_retry, record_load_error, PluginSyncStatus, PluginView};
use std::sync::Arc;

fn chain(names: &[&str]) -> Vec<String> {
    names.iter().map(|s| s.to_string()).collect()
}

fn active_host() -> PluginHost {
    let mut host = PluginHost::new("/home/u/.config/micyou");
    host.dsp_registry = Arc::new(PluginDspRegistry {
        plugin_ids: vec!["dev.micyou.eq".to_string()],
    });
    host
}

#[test]
fn host_locations() {
    let host = PluginHost::new("/home/u/.config/micyou");
    assert_eq!(host.manager.plugins_dir, "/home/u/.config/micyou/plugins");
    assert_eq!(host.manager.state_file, "/home/u/.config/micyou/plugin-state.json");
    assert!(!host.dsp_registry.is_active());
    assert!(PluginDspRegistry::new().plugin_ids.is_empty());
}

#[test]
fn plugin_node_goes_after_aec() {
    let host = active_host();
    let mut c = chain(&["Gain", "AEC", "Equalizer", "AEC"]);
    host.ensure_plugin_chain_node(&mut c);
    assert_eq!(c, chain(&["Gain", "AEC", "Plugins", "Equalizer", "AEC"]));
    assert_eq!(PLUGIN_CHAIN_NODE, "Plugins");
    assert_eq!(PLUGIN_NODE_AFTER, "AEC");
}

#[test]
fn plugin_node_appended_without_aec() {
    let host = active_host();
    let mut c = chain(&["Gain", "Equalizer"]);
    host.ensure_plugin_chain_node(&mut c);
    assert_eq!(c, chain(&["Gain", "Equalizer", "Plugins"]));
    let mut empty: Vec<String> = Vec::new();
    host.ensure_plugin_chain_node(&mut empty);
    assert_eq!(empty, chain(&["Plugins"]));
}

#[test]
fn plugin_node_insertion_is_idempotent() {
    let host = active_host();
    let mut c = chain(&["AEC", "Equalizer"]);
    host.ensure_plugin_chain_node(&mut c);
    let once = c.clone();
    host.ensure_plugin_chain_node(&mut c);
    assert_eq!(c, once);
    // a node the user moved elsewhere stays where it is
    let mut moved = chain(&["Plugins", "AEC"]);
    host.ensure_plugin_chain_node(&mut moved);
    assert_eq!(moved, chain(&["Plugins", "AEC"]));
}

#[test]
fn inactive_registry_leaves_chain_alone() {
    let host = PluginHost::new("/cfg");
    let mut c = chain(&["AEC", "Equalizer"]);
    host.ensure_plugin_chain_node(&mut c);
    assert_eq!(c, chain(&["AEC", "Equalizer"]));
}

fn manifest(id: &str, kind: PluginKind) -> PluginManifest {
    PluginManifest {
        id: id.to_string(),
        name: "Name".to_string(),
        version: "1.0.0".to_string(),
        author: Some("me".to_string()),
        description: None,
        runtime: RuntimeKind::Wasm,
        entry: "x.wasm".to_string(),
        platforms: vec!["linux".to_string()],
        api_version: 1,
        capabilities: vec!["dsp.node".to_string()],
        kind,
        ui: None,
        dsp: None,
        config: None,
    }
}

#[test]
fn plugin_views_and_retries() {
    let dsp_ids = vec!["a.dsp".to_string()];
    let mut views = vec![
        PluginView::from_entry(&manifest("a.dsp", PluginKind::Dsp), true, true, &dsp_ids),
        PluginView::from_entry(&manifest("b.util", PluginKind::Utility), true, false, &dsp_ids),
        PluginView::from_entry(&manifest("c.ui", PluginKind::Ui), false, false, &dsp_ids),
        PluginView::from_entry(&manifest("d.bridge", PluginKind::Bridge), true, false, &dsp_ids),
    ];
    assert!(views[0].dsp_node);
    assert!(!views[1].dsp_node);
    assert_eq!(views[0].kind, "dsp");
    assert_eq!(views[3].kind, "bridge");
    assert_eq!(views[0].runtime, "wasm");
    assert_eq!(views[0].author.as_deref(), Some("me"));
    assert_eq!(views[0].platforms, vec!["linux"]);
    assert_eq!(views[0].capabilities, vec!["dsp.node"]);
    assert!(views.iter().all(|v| v.error.is_none()));
    assert_eq!(ids_to_retry(&views), vec!["b.util", "d.bridge"]);
    record_load_error(&mut views, "d.bridge", "entry artifact missing".to_string());
    assert_eq!(views[3].error.as_deref(), Some("entry artifact missing"));
    assert!(views[1].error.is_none());
    record_load_error(&mut views, "zzz", "x".to_string());
    assert_eq!(views.len(), 4);
    assert!(views[0].error.is_none() && views[1].error.is_none() && views[2].error.is_none());
}

#[test]
fn sync_status() {
    let s = PluginSyncStatus::from_connection(true);
    assert!(s.device_connected && s.transport_ready);
    let s = PluginSyncStatus::from_connection(false);
    assert!(!s.device_connected && !s.transport_ready);
}

#[test]
fn software_rendering_switches() {
    let args = vec!["micyou".to_string(), "--software-rendering".to_string()];
    assert!(software_rendering_requested(&args, None));
    let plain = vec!["micyou".to_string()];
    assert!(!software_rendering_requested(&plain, None));
    assert!(software_rendering_requested(&plain, Some("SoftWare")));
    assert!(!software_rendering_requested(&plain, Some("hardware")));
    assert!(!software_rendering_requested(&plain, Some("softwares")));
    assert!(equals_ignore_ascii_case("ÄbC", "Äbc"));
    assert!(!equals_ignore_ascii_case("Ä", "ä"));
}
