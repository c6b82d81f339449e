//! What the frontend's plugin page shows: one view per installed plugin and
//! the cross-device sync status.

use vstd::prelude::*;
use crate::manifest::PluginManifest;
use crate::text::str_eq;

verus! {

/// Frontend view of one plugin.
#[derive(Debug, Clone)]
pub struct PluginView {
    pub id: String,
    pub name: String,
    pub version: String,
    pub author: Option<String>,
    pub description: Option<String>,
    pub runtime: String,
    pub kind: String,
    pub platforms: Vec<String>,
    pub capabilities: Vec<String>,
    pub enabled: bool,
    pub loaded: bool,
    pub dsp_node: bool,
    /// Load/enable error surfaced to the user (e.g. artifact missing).
    pub error: Option<String>,
}

/// Cross-device sync status for the plugins page.
#[derive(Debug, Clone, Copy, PartialEq, Eq, Structural)]
pub struct PluginSyncStatus {
    /// Whether a phone device session is connected.
    pub device_connected: bool,
    /// Plugins can currently reach the remote device.
    pub transport_ready: bool,
}

impl PluginSyncStatus {
    /// The status for a device session that is (or is not) connected: the
    /// transport is ready exactly when a device is connected.
    pub fn from_connection(connected: bool) -> (s: Self)
        ensures
            s.device_connected == connected,
            s.transport_ready == connected,
    {
        PluginSyncStatus { device_connected: connected, transport_ready: connected }
    }
}

/// Whether `ids` holds `id`.
pub open spec fn holds_id(ids: Seq<String>, id: Seq<char>) -> bool {
    exists|i: int| 0 <= i < ids.len() && (#[trigger] ids[i])@ == id
}

fn clone_strings(v: &Vec<String>) -> (r: Vec<String>)
    ensures
        r@ == v@,
{
    let mut r: Vec<String> = Vec::new();
    let n = v.len();
    let mut i: usize = 0;
    while i < n
        invariant
            n == v@.len(),
            i <= n,
            r@ == v@.take(i as int),
        decreases n - i,
    {
        r.push(v[i].clone());
        assert(r@ =~= v@.take(i + 1));
        i += 1;
    }
    assert(v@.take(n as int) =~= v@);
    r
}

fn clone_opt(o: &Option<String>) -> (r: Option<String>)
    ensures
        r == *o,
{
    match o {
        Some(s) => Some(s.clone()),
        None => None,
    }
}

impl PluginView {
    /// The view of an installed plugin: its manifest fields, whether it is
    /// enabled and loaded, and whether it has a registered DSP node (its id is
    /// among `dsp_ids`). No error is attached yet.
    pub fn from_entry(manifest: &PluginManifest, enabled: bool, loaded: bool, dsp_ids: &Vec<String>) -> (v: PluginView)
        ensures
            v.id == manifest.id,
            v.name == manifest.name,
            v.version == manifest.version,
            v.author == manifest.author,
            v.description == manifest.description,
            v.runtime@ == (match manifest.runtime {
                crate::manifest::RuntimeKind::Native => "native"@,
                crate::manifest::RuntimeKind::Wasm => "wasm"@,
            }),
            v.kind@ == (match manifest.kind {
                crate::manifest::PluginKind::Utility => "utility"@,
                crate::manifest::PluginKind::Dsp => "dsp"@,
                crate::manifest::PluginKind::Ui => "ui"@,
                crate::manifest::PluginKind::Bridge => "bridge"@,
            }),
            v.platforms@ == manifest.platforms@,
            v.capabilities@ == manifest.capabilities@,
            v.enabled == enabled,
            v.loaded == loaded,
            v.dsp_node == holds_id(dsp_ids@, manifest.id@),
            v.error is None,
    {
        let mut dsp_node = false;
        let n = dsp_ids.len();
        let mut i: usize = 0;
        while i < n
            invariant
                n == dsp_ids@.len(),
                i <= n,
                dsp_node == exists|j: int| 0 <= j < i && (#[trigger] dsp_ids@[j])@ == manifest.id@,
            decreases n - i,
        {
            if str_eq(dsp_ids[i].as_str(), manifest.id.as_str()) {
                dsp_node = true;
            }
            i += 1;
        }
        PluginView {
            id: manifest.id.clone(),
            name: manifest.name.clone(),
            version: manifest.version.clone(),
            author: clone_opt(&manifest.author),
            description: clone_opt(&manifest.description),
            runtime: String::from_str(manifest.runtime.as_str()),
            kind: String::from_str(manifest.kind.as_str()),
            platforms: clone_strings(&manifest.platforms),
            capabilities: clone_strings(&manifest.capabilities),
            enabled,
            loaded,
            dsp_node,
            error: None,
        }
    }
}

/// The ids of the views that are enabled but not loaded, in order.
pub open spec fn retry_ids(views: Seq<PluginView>) -> Seq<Seq<char>>
    decreases views.len(),
{
    if views.len() == 0 {
        Seq::empty()
    } else {
        let last = views.last();
        retry_ids(views.drop_last()) + if last.enabled && !last.loaded {
            seq![last.id@]
        } else {
            Seq::empty()
        }
    }
}

/// The ids of the plugins to load again: enabled but not loaded, in view
/// order.
pub fn ids_to_retry(views: &Vec<PluginView>) -> (ids: Vec<String>)
    ensures
        ids@.map_values(|s: String| s@) == retry_ids(views@),
{
    let mut ids: Vec<String> = Vec::new();
    let n = views.len();
    let mut i: usize = 0;
    while i < n
        invariant
            n == views@.len(),
            i <= n,
            ids@.map_values(|s: String| s@) == retry_ids(views@.take(i as int)),
        decreases n - i,
    {
        let v = &views[i];
        assert(views@.take(i + 1).drop_last() =~= views@.take(i as int));
        if v.enabled && !v.loaded {
            ids.push(v.id.clone());
        }
        assert(ids@.map_values(|s: String| s@) =~= retry_ids(views@.take(i + 1)));
        i += 1;
    }
    assert(views@.take(n as int) =~= views@);
    ids
}

/// Attaches a load error to the first view with id `id` (no view changes
/// when none has that id).
pub fn record_load_error(views: &mut Vec<PluginView>, id: &str, error: String)
    ensures
        final(views)@.len() == old(views)@.len(),
        forall|j: int|
            0 <= j < old(views)@.len() ==> {
                let is_target = (#[trigger] old(views)@[j]).id@ == id@ && forall|k: int|
                    0 <= k < j ==> old(views)@[k].id@ != id@;
                if is_target {
                    final(views)@[j] == PluginView { error: Some(error), ..old(views)@[j] }
                } else {
                    final(views)@[j] == old(views)@[j]
                }
            },
{
    let n = views.len();
    let mut i: usize = 0;
    while i < n
        invariant
            n == views@.len(),
            views@ == old(views)@,
            i <= n,
            forall|k: int| 0 <= k < i ==> old(views)@[k].id@ != id@,
        decreases n - i,
    {
        if str_eq(views[i].id.as_str(), id) {
            let mut v = views.remove(i);
            v.error = Some(error);
            views.insert(i, v);
            return;
        }
        i += 1;
    }
}

} // verus!
