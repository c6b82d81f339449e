//! Desktop plugin host wiring: the plugin manager's locations, the DSP node
//! registry, and the synthetic `Plugins` node of the processing chain.

use vstd::prelude::*;
use std::sync::Arc;
use crate::path::{join_path, path_join};
use crate::text::str_eq;

verus! {

/// Default chain position for the synthetic plugin node: right after AEC,
/// so plugin processing runs on echo-cancelled audio.
pub const PLUGIN_NODE_AFTER: &'static str = "AEC";

/// Name of the synthetic processing-chain node that runs DSP plugins.
pub const PLUGIN_CHAIN_NODE: &'static str = "Plugins";

/// Where the plugin manager keeps installed plugins and their state.
#[derive(Debug, Clone)]
pub struct PluginManager {
    /// Directory holding one sub-directory per installed plugin.
    pub plugins_dir: String,
    /// File persisting enable state and plugin configuration.
    pub state_file: String,
}

/// Registry of the DSP nodes that loaded plugins contribute.
#[derive(Debug, Clone)]
pub struct PluginDspRegistry {
    /// Ids of the plugins with a registered DSP node.
    pub plugin_ids: Vec<String>,
}

impl PluginDspRegistry {
    /// An empty registry.
    pub fn new() -> (r: Self)
        ensures
            r.plugin_ids@.len() == 0,
    {
        PluginDspRegistry { plugin_ids: Vec::new() }
    }

    /// Whether at least one DSP plugin is registered.
    pub fn is_active(&self) -> (b: bool)
        ensures
            b == (self.plugin_ids@.len() > 0),
    {
        self.plugin_ids.len() > 0
    }
}

/// Runtime plugin host: one instance per process.
pub struct PluginHost {
    pub manager: PluginManager,
    pub dsp_registry: Arc<PluginDspRegistry>,
}

/// The names of a processing chain.
pub open spec fn chain_names(chain: Seq<String>) -> Seq<Seq<char>> {
    chain.map_values(|n: String| n@)
}

/// Whether `i` is the first position of `x` in `s`.
pub open spec fn is_first_index(s: Seq<Seq<char>>, x: Seq<char>, i: int) -> bool {
    0 <= i < s.len() && s[i] == x && forall|j: int| 0 <= j < i ==> s[j] != x
}

/// The first position of `x` in `s`, if any.
pub open spec fn first_index(s: Seq<Seq<char>>, x: Seq<char>) -> Option<int> {
    if exists|i: int| is_first_index(s, x, i) {
        Some(choose|i: int| is_first_index(s, x, i))
    } else {
        None
    }
}

/// The chain after making sure the plugin node is in it: nothing changes
/// when no DSP plugin is active or the node is already present; otherwise the
/// node goes right after the first `AEC`, or at the end when there is none.
pub open spec fn with_plugin_node(chain: Seq<Seq<char>>, active: bool) -> Seq<Seq<char>> {
    if !active || chain.contains(PLUGIN_CHAIN_NODE@) {
        chain
    } else {
        match first_index(chain, PLUGIN_NODE_AFTER@) {
            Some(i) => chain.insert(i + 1, PLUGIN_CHAIN_NODE@),
            None => chain.push(PLUGIN_CHAIN_NODE@),
        }
    }
}

proof fn lemma_first_index_unique(s: Seq<Seq<char>>, x: Seq<char>, i: int)
    requires
        is_first_index(s, x, i),
    ensures
        first_index(s, x) == Some(i),
{
    let k = choose|k: int| is_first_index(s, x, k);
    assert(is_first_index(s, x, k));
    if k < i {
        assert(s[k] != x);
    }
    if i < k {
        assert(s[i] != x);
    }
}

fn find_name(chain: &Vec<String>, name: &str) -> (r: Option<usize>)
    ensures
        match r {
            Some(i) => is_first_index(chain_names(chain@), name@, i as int),
            None => !chain_names(chain@).contains(name@),
        },
{
    let n = chain.len();
    let mut i: usize = 0;
    while i < n
        invariant
            n == chain@.len(),
            i <= n,
            forall|j: int| 0 <= j < i ==> chain_names(chain@)[j] != name@,
        decreases n - i,
    {
        if str_eq(chain[i].as_str(), name) {
            return Some(i);
        }
        i += 1;
    }
    proof {
        if chain_names(chain@).contains(name@) {
            let j = choose|j: int| 0 <= j < n && chain_names(chain@)[j] == name@;
            assert(chain_names(chain@)[j] != name@);
        }
    }
    None
}

impl PluginHost {
    /// A host whose plugins live in `<config_dir>/plugins` and whose state is
    /// kept in `<config_dir>/plugin-state.json`, with no DSP node registered.
    pub fn new(config_dir: &str) -> (h: PluginHost)
        ensures
            h.manager.plugins_dir@ == path_join(config_dir@, "plugins"@),
            h.manager.state_file@ == path_join(config_dir@, "plugin-state.json"@),
            h.dsp_registry.plugin_ids@.len() == 0,
    {
        PluginHost {
            manager: PluginManager {
                plugins_dir: join_path(config_dir, "plugins"),
                state_file: join_path(config_dir, "plugin-state.json"),
            },
            dsp_registry: Arc::new(PluginDspRegistry::new()),
        }
    }

    /// Ensures the synthetic `Plugins` node is in the processing chain (right
    /// after AEC) when at least one DSP plugin is registered.
    pub fn ensure_plugin_chain_node(&self, processing_chain: &mut Vec<String>)
        ensures
            chain_names(final(processing_chain)@) == with_plugin_node(
                chain_names(old(processing_chain)@),
                self.dsp_registry.plugin_ids@.len() > 0,
            ),
    {
        if !self.dsp_registry.is_active() {
            return;
        }
        if find_name(processing_chain, PLUGIN_CHAIN_NODE).is_some() {
            return;
        }
        let ghost before = chain_names(processing_chain@);
        match find_name(processing_chain, PLUGIN_NODE_AFTER) {
            Some(idx) => {
                proof {
                    lemma_first_index_unique(before, PLUGIN_NODE_AFTER@, idx as int);
                }
                assert(idx < processing_chain.len());
                processing_chain.insert(idx + 1, String::from_str(PLUGIN_CHAIN_NODE));
                assert(chain_names(processing_chain@) =~= before.insert(
                    idx + 1,
                    PLUGIN_CHAIN_NODE@,
                ));
            },
            None => {
                proof {
                    if exists|i: int| is_first_index(before, PLUGIN_NODE_AFTER@, i) {
                        let i = choose|i: int| is_first_index(before, PLUGIN_NODE_AFTER@, i);
                        assert(before.contains(before[i]));
                    }
                }
                processing_chain.push(String::from_str(PLUGIN_CHAIN_NODE));
                assert(chain_names(processing_chain@) =~= before.push(PLUGIN_CHAIN_NODE@));
            },
        }
    }
}

/// Making sure the plugin node is in the chain is idempotent: a second call
/// leaves the chain as the first call left it.
pub proof fn lemma_plugin_node_idempotent(chain: Seq<Seq<char>>, active: bool)
    ensures
        with_plugin_node(with_plugin_node(chain, active), active) == with_plugin_node(
            chain,
            active,
        ),
{
    let once = with_plugin_node(chain, active);
    if active && !chain.contains(PLUGIN_CHAIN_NODE@) {
        match first_index(chain, PLUGIN_NODE_AFTER@) {
            Some(i) => {
                assert(is_first_index(chain, PLUGIN_NODE_AFTER@, i));
                assert(once[i + 1] == PLUGIN_CHAIN_NODE@);
            },
            None => {
                assert(once[chain.len() as int] == PLUGIN_CHAIN_NODE@);
            },
        }
    }
}

/// With a DSP plugin active the chain afterwards holds the plugin node and
/// grows by at most that one node; with none active it is left unchanged.
pub proof fn lemma_plugin_node_present(chain: Seq<Seq<char>>)
    ensures
        with_plugin_node(chain, true).contains(PLUGIN_CHAIN_NODE@),
        with_plugin_node(chain, false) == chain,
        with_plugin_node(chain, true).len() <= chain.len() + 1,
{
    if !chain.contains(PLUGIN_CHAIN_NODE@) {
        match first_index(chain, PLUGIN_NODE_AFTER@) {
            Some(i) => {
                assert(is_first_index(chain, PLUGIN_NODE_AFTER@, i));
                assert(with_plugin_node(chain, true)[i + 1] == PLUGIN_CHAIN_NODE@);
            },
            None => {
                assert(with_plugin_node(chain, true)[chain.len() as int] == PLUGIN_CHAIN_NODE@);
            },
        }
    }
}

/// With a DSP plugin active and neither a plugin node nor an AEC node in the
/// chain, the plugin node is appended: every existing node keeps its place
/// and the chain ends with the one new node.
pub proof fn lemma_plugin_node_appended_without_aec(chain: Seq<Seq<char>>)
    requires
        !chain.contains(PLUGIN_CHAIN_NODE@),
        !chain.contains(PLUGIN_NODE_AFTER@),
    ensures
        with_plugin_node(chain, true).len() == chain.len() + 1,
        forall|k: int| 0 <= k < chain.len() ==> #[trigger] with_plugin_node(chain, true)[k] == chain[k],
        with_plugin_node(chain, true)[chain.len() as int] == PLUGIN_CHAIN_NODE@,
{
    if exists|i: int| is_first_index(chain, PLUGIN_NODE_AFTER@, i) {
        let i = choose|i: int| is_first_index(chain, PLUGIN_NODE_AFTER@, i);
        assert(chain.contains(chain[i]));
    }
}

/// With a DSP plugin active, no plugin node yet, and the first AEC node at
/// position `a`, the plugin node is inserted right after it: the nodes up to
/// and including that AEC keep their places, the plugin node follows, and the
/// rest move one place back.
pub proof fn lemma_plugin_node_follows_first_aec(chain: Seq<Seq<char>>, a: int)
    requires
        !chain.contains(PLUGIN_CHAIN_NODE@),
        0 <= a < chain.len(),
        chain[a] == PLUGIN_NODE_AFTER@,
        forall|k: int| 0 <= k < a ==> chain[k] != PLUGIN_NODE_AFTER@,
    ensures
        with_plugin_node(chain, true).len() == chain.len() + 1,
        forall|k: int| 0 <= k <= a ==> #[trigger] with_plugin_node(chain, true)[k] == chain[k],
        with_plugin_node(chain, true)[a + 1] == PLUGIN_CHAIN_NODE@,
        forall|k: int| a < k < chain.len() ==> with_plugin_node(chain, true)[k + 1] == #[trigger] chain[k],
{
    assert(is_first_index(chain, PLUGIN_NODE_AFTER@, a));
    lemma_first_index_unique(chain, PLUGIN_NODE_AFTER@, a);
}

} // verus!
