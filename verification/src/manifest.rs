//! Plugin manifest: a unified, platform-independent description of a plugin
//! (identity, runtime type, capabilities, DSP wiring and UI registration).

use vstd::prelude::*;
use crate::error::{ErrorView, PluginError, PluginResult};
use crate::path::{join_path, path_join};
use crate::text::chars_of;

pub mod capabilities;
pub mod platforms;

verus! {

/// `serde_json::Value`, the default configuration a manifest carries; it is
/// only passed along, never inspected.
#[verifier::external_type_specification]
#[verifier::external_body]
pub struct ExJsonValue(serde_json::Value);

/// Host API version this plugin system speaks. Plugins declare the version
/// they were built against; the host rejects incompatible ones.
pub const HOST_API_VERSION: u32 = 1;

/// Plugin directory layout: the manifest file name.
pub const MANIFEST_FILE_NAME: &'static str = "plugin.json";

/// The characters a plugin id may hold: lowercase ASCII letters, digits,
/// `.` and `-`.
pub open spec fn id_char_allowed(c: char) -> bool {
    ('a' <= c && c <= 'z') || ('0' <= c && c <= '9') || c == '.' || c == '-'
}

/// A reverse-DNS plugin id: 1 to 128 allowed characters with at least one dot.
pub open spec fn valid_plugin_id(id: Seq<char>) -> bool {
    &&& 0 < id.len() <= 128
    &&& id.contains('.')
    &&& forall|i: int| 0 <= i < id.len() ==> id_char_allowed(#[trigger] id[i])
}

/// Reverse-DNS plugin id check (e.g. `dev.micyou.eq`): lowercase
/// alphanumerics plus `.` and `-`, at least one dot, at most 128 bytes.
pub fn validate_plugin_id(id: &str) -> (r: bool)
    ensures
        r == valid_plugin_id(id@),
{
    let cs = chars_of(id);
    let n = cs.len();
    if n == 0 || n > 128 {
        return false;
    }
    let mut has_dot = false;
    let mut i: usize = 0;
    while i < n
        invariant
            n == cs@.len(),
            cs@ == id@,
            i <= n,
            forall|j: int| 0 <= j < i ==> id_char_allowed(#[trigger] cs@[j]),
            has_dot <==> exists|j: int| 0 <= j < i && cs@[j] == '.',
        decreases n - i,
    {
        let c = cs[i];
        if !(('a' <= c && c <= 'z') || ('0' <= c && c <= '9') || c == '.' || c == '-') {
            assert(!id_char_allowed(cs@[i as int]));
            return false;
        }
        if c == '.' {
            has_dot = true;
        }
        i += 1;
    }
    proof {
        if has_dot {
            let j = choose|j: int| 0 <= j < n && cs@[j] == '.';
            assert(id@.contains(id@[j]));
        } else {
            assert forall|j: int| 0 <= j < id@.len() implies id@[j] != '.' by {}
        }
    }
    has_dot
}

/// Runtime type: `Native` loads a platform cdylib, `Wasm` loads a
/// WebAssembly module into the sandboxed interpreter.
#[derive(Debug, Clone, Copy, PartialEq, Eq, Structural)]
pub enum RuntimeKind {
    Native,
    Wasm,
}

impl RuntimeKind {
    /// The lowercase name of the runtime (`native` or `wasm`).
    pub fn as_str(&self) -> (s: &'static str)
        ensures
            s@ == (match self {
                RuntimeKind::Native => "native"@,
                RuntimeKind::Wasm => "wasm"@,
            }),
    {
        match self {
            RuntimeKind::Native => "native",
            RuntimeKind::Wasm => "wasm",
        }
    }
}

/// Functional category of a plugin, used by the host to decide lifecycle and
/// scheduling policy.
#[derive(Debug, Clone, Copy, PartialEq, Eq, Structural)]
pub enum PluginKind {
    /// Background logic / automation / networking.
    Utility,
    /// Real-time audio processor inserted into the DSP chain.
    Dsp,
    /// Provides a frontend configuration panel.
    Ui,
    /// Dedicated to cross-device state synchronization.
    Bridge,
}

impl PluginKind {
    /// The snake_case name of the kind (`utility`, `dsp`, `ui`, `bridge`).
    pub fn as_str(&self) -> (s: &'static str)
        ensures
            s@ == (match self {
                PluginKind::Utility => "utility"@,
                PluginKind::Dsp => "dsp"@,
                PluginKind::Ui => "ui"@,
                PluginKind::Bridge => "bridge"@,
            }),
    {
        match self {
            PluginKind::Utility => "utility",
            PluginKind::Dsp => "dsp",
            PluginKind::Ui => "ui",
            PluginKind::Bridge => "bridge",
        }
    }
}

impl Default for PluginKind {
    fn default() -> (k: Self)
        ensures
            k == PluginKind::Utility,
    {
        PluginKind::Utility
    }
}

/// The API version a manifest gets when it declares none.
pub fn default_api_version() -> (v: u32)
    ensures
        v == HOST_API_VERSION,
{
    HOST_API_VERSION
}

/// Optional UI registration: a panel the frontend can lazy-load.
#[derive(Debug, Clone)]
pub struct UiDescriptor {
    /// Frontend route / component identifier.
    pub route: String,
    /// Display name of the panel.
    pub label: String,
    /// Relative path to a bundled JS entry.
    pub entry: Option<String>,
}

/// Optional DSP registration: where the node is inserted in the chain.
#[derive(Debug, Clone)]
pub struct DspDescriptor {
    /// Insert after a built-in node name (e.g. `Equalizer`).
    pub insert_after: Option<String>,
    /// Insert at the head of the chain when true.
    pub first: bool,
    /// Preferred processing block size in samples.
    pub frame_size: Option<usize>,
    /// Whether the plugin claims real-time safety.
    pub realtime_safe: bool,
}

/// The unified plugin manifest.
#[derive(Debug, Clone)]
pub struct PluginManifest {
    /// Reverse-DNS id, e.g. `dev.micyou.eq`.
    pub id: String,
    /// Human-readable name.
    pub name: String,
    /// Semver version.
    pub version: String,
    pub author: Option<String>,
    pub description: Option<String>,
    /// native | wasm
    pub runtime: RuntimeKind,
    /// File name of the entry artifact relative to the plugin directory.
    pub entry: String,
    /// Supported platforms; empty means all.
    pub platforms: Vec<String>,
    /// Host API version this plugin was built against.
    pub api_version: u32,
    /// Capability identifiers requested from the host.
    pub capabilities: Vec<String>,
    /// Functional category.
    pub kind: PluginKind,
    pub ui: Option<UiDescriptor>,
    pub dsp: Option<DspDescriptor>,
    /// Default configuration (merged into plugin state on first enable).
    pub config: Option<serde_json::Value>,
}

/// What `semver::Version::parse` reports for `version`: `None` when it parses,
/// otherwise the text of the parse error.
pub uninterp spec fn semver_error(version: Seq<char>) -> Option<Seq<char>>;

/// Parses `version` with `semver::Version::parse`. The contract says that the
/// outcome is the named result [`semver_error`] of the text, and that an empty
/// text is refused with the crate's "empty string" message; the semver grammar
/// itself is not restated.
#[verifier::external_body]
fn check_semver(version: &str) -> (r: Option<String>)
    ensures
        semver_error(version@) == (match r {
            Some(m) => Some(m@),
            None => None::<Seq<char>>,
        }),
        version@.len() == 0 ==> (match r {
            Some(m) => m@ == "empty string, expected a semver version"@,
            None => false,
        }),
{
    match semver::Version::parse(version) {
        Ok(_) => None,
        Err(e) => Some(e.to_string()),
    }
}

/// The first capability in `caps` that the host does not recognize.
pub open spec fn first_unknown_capability(caps: Seq<String>) -> Option<Seq<char>>
    decreases caps.len(),
{
    if caps.len() == 0 {
        None
    } else if !capabilities::is_known(caps[0]@) {
        Some(caps[0]@)
    } else {
        first_unknown_capability(caps.drop_first())
    }
}

/// What Debug formatting (`{:?}`) makes of a string: the string in double
/// quotes, with quotes, backslashes, control and non-printable characters
/// escaped.
pub uninterp spec fn debug_quoted(s: Seq<char>) -> Seq<char>;

/// Formats `s` with `{:?}` (the `Debug` implementation of `str`). The
/// contract names the result [`debug_quoted`] of the text; the escaping rules,
/// which follow std's Unicode tables, are not restated.
#[verifier::external_body]
fn debug_str(s: &str) -> (r: String)
    ensures
        r@ == debug_quoted(s@),
{
    format!("{:?}", s)
}

pub open spec fn invalid_id_message(id: Seq<char>) -> Seq<char> {
    "invalid plugin id "@ + debug_quoted(id)
        + ": expect reverse-DNS lowercase alphanumeric with a dot"@
}

pub open spec fn invalid_version_message(version: Seq<char>, err: Seq<char>) -> Seq<char> {
    "invalid semver version "@ + debug_quoted(version) + ": "@ + err
}

pub open spec fn unknown_capability_message(cap: Seq<char>) -> Seq<char> {
    "unknown capability "@ + debug_quoted(cap)
}

/// Whether the manifest describes a WASM DSP plugin claiming real-time safety.
pub open spec fn wasm_dsp_claims_realtime(m: PluginManifest) -> bool {
    &&& m.kind == PluginKind::Dsp
    &&& m.runtime == RuntimeKind::Wasm
    &&& m.dsp matches Some(d) && d.realtime_safe
}

/// The error that semantic validation of `m` reports, given what the semver
/// parser says of its version (`None`: the manifest is valid). Checks run in
/// order: id, name, version, entry, API version, capabilities, WASM DSP
/// real-time claim, UI descriptor.
pub open spec fn manifest_error(m: PluginManifest, semver: Option<Seq<char>>) -> Option<ErrorView> {
    if !valid_plugin_id(m.id@) {
        Some(ErrorView::Validation(invalid_id_message(m.id@)))
    } else if m.name@.len() == 0 {
        Some(ErrorView::Validation("name must not be empty"@))
    } else if semver is Some {
        Some(ErrorView::Validation(invalid_version_message(m.version@, semver->0)))
    } else if m.entry@.len() == 0 {
        Some(ErrorView::Validation("entry must not be empty"@))
    } else if m.api_version != HOST_API_VERSION {
        Some(ErrorView::ApiVersionMismatch { plugin: m.api_version, host: HOST_API_VERSION })
    } else if first_unknown_capability(m.capabilities@) is Some {
        Some(
            ErrorView::Validation(
                unknown_capability_message(first_unknown_capability(m.capabilities@)->0),
            ),
        )
    } else if wasm_dsp_claims_realtime(m) {
        Some(
            ErrorView::Validation(
                "wasm dsp plugin must not claim realtime_safe; interpreter execution cannot guarantee real-time safety"@,
            ),
        )
    } else if m.kind == PluginKind::Ui && m.ui is None {
        Some(ErrorView::Validation("ui plugin must declare a ui descriptor"@))
    } else {
        None
    }
}

/// How a validation outcome matches the specified error.
pub open spec fn outcome_matches(r: PluginResult<()>, expected: Option<ErrorView>) -> bool {
    match r {
        Ok(_) => expected is None,
        Err(e) => expected == Some(e@),
    }
}

/// A validation error whose message quotes `value` as Debug formatting does.
fn validation_error(prefix: &str, value: &str, suffix: &str) -> (e: PluginError)
    ensures
        e@ == ErrorView::Validation(prefix@ + debug_quoted(value@) + suffix@),
{
    let mut msg = prefix.to_owned();
    let quoted = debug_str(value);
    msg.append(quoted.as_str());
    msg.append(suffix);
    PluginError::Validation(msg)
}

/// A validation error whose message ends with `value` quoted as Debug
/// formatting does.
fn value_error(prefix: &str, value: &str) -> (e: PluginError)
    ensures
        e@ == ErrorView::Validation(prefix@ + debug_quoted(value@)),
{
    let mut msg = prefix.to_owned();
    let quoted = debug_str(value);
    msg.append(quoted.as_str());
    PluginError::Validation(msg)
}

impl PluginManifest {
    /// Semantic validation of a parsed manifest, given the outcome of parsing
    /// its version with semver (`None`: it parsed; `Some(text)`: the error).
    #[verifier::loop_isolation(false)]
    pub fn validate_with_semver_outcome(&self, semver: Option<String>) -> (r: PluginResult<()>)
        ensures
            outcome_matches(
                r,
                manifest_error(
                    *self,
                    match semver {
                        Some(s) => Some(s@),
                        None => None,
                    },
                ),
            ),
    {
        if !validate_plugin_id(self.id.as_str()) {
            return Err(
                validation_error(
                    "invalid plugin id ",
                    self.id.as_str(),
                    ": expect reverse-DNS lowercase alphanumeric with a dot",
                ),
            );
        }
        if self.name.as_str().is_empty() {
            return Err(PluginError::Validation(String::from_str("name must not be empty")));
        }
        match semver {
            Some(err) => {
                let mut msg = String::from_str("invalid semver version ");
                let quoted = debug_str(self.version.as_str());
                msg.append(quoted.as_str());
                msg.append(": ");
                msg.append(err.as_str());
                return Err(PluginError::Validation(msg));
            },
            None => {},
        }
        if self.entry.as_str().is_empty() {
            return Err(PluginError::Validation(String::from_str("entry must not be empty")));
        }
        if self.api_version != HOST_API_VERSION {
            return Err(
                PluginError::ApiVersionMismatch { plugin: self.api_version, host: HOST_API_VERSION },
            );
        }
        let n = self.capabilities.len();
        let mut i: usize = 0;
        assert(self.capabilities@.skip(0) =~= self.capabilities@);
        while i < n
            invariant
                n == self.capabilities@.len(),
                i <= n,
                first_unknown_capability(self.capabilities@) == first_unknown_capability(
                    self.capabilities@.skip(i as int),
                ),
            decreases n - i,
        {
            let cap = &self.capabilities[i];
            assert(self.capabilities@.skip(i as int)[0] == self.capabilities@[i as int]);
            if !capabilities::is_known_capability(cap.as_str()) {
                assert(first_unknown_capability(self.capabilities@.skip(i as int)) == Some(
                    cap@,
                ));
                return Err(value_error("unknown capability ", cap.as_str()));
            }
            assert(self.capabilities@.skip(i as int).drop_first() =~= self.capabilities@.skip(
                i + 1,
            ));
            i += 1;
        }
        assert(self.capabilities@.skip(n as int).len() == 0);
        if self.kind == PluginKind::Dsp && self.runtime == RuntimeKind::Wasm {
            match &self.dsp {
                Some(dsp) => {
                    if dsp.realtime_safe {
                        return Err(
                            PluginError::Validation(
                                String::from_str(
                                    "wasm dsp plugin must not claim realtime_safe; interpreter execution cannot guarantee real-time safety",
                                ),
                            ),
                        );
                    }
                },
                None => {},
            }
        }
        if self.kind == PluginKind::Ui && self.ui.is_none() {
            return Err(
                PluginError::Validation(String::from_str("ui plugin must declare a ui descriptor")),
            );
        }
        Ok(())
    }

    /// Semantic validation of a parsed manifest.
    pub fn validate(&self) -> (r: PluginResult<()>)
        ensures
            outcome_matches(r, manifest_error(*self, semver_error(self.version@))),
    {
        let semver = check_semver(self.version.as_str());
        self.validate_with_semver_outcome(semver)
    }

    /// Accepts the outcome of parsing a manifest's JSON text: a parse error
    /// becomes `InvalidManifest`, a parsed manifest is validated and returned.
    pub fn from_json(parsed: Result<PluginManifest, String>) -> (r: PluginResult<PluginManifest>)
        ensures
            match parsed {
                Err(msg) => r matches Err(e) && e@ == ErrorView::InvalidManifest(msg@),
                Ok(m) => match manifest_error(m, semver_error(m.version@)) {
                    None => r == Ok::<PluginManifest, PluginError>(m),
                    Some(ev) => r matches Err(e) && e@ == ev,
                },
            },
    {
        match parsed {
            Err(msg) => Err(PluginError::InvalidManifest(msg)),
            Ok(m) => match m.validate() {
                Ok(()) => Ok(m),
                Err(e) => Err(e),
            },
        }
    }

    /// Entry artifact path resolved against the plugin directory.
    pub fn entry_path(&self, plugin_dir: &str) -> (p: String)
        ensures
            p@ == path_join(plugin_dir@, self.entry@),
    {
        join_path(plugin_dir, self.entry.as_str())
    }
}

/// Path of the manifest file inside a plugin directory.
pub fn manifest_path(plugin_dir: &str) -> (p: String)
    ensures
        p@ == path_join(plugin_dir@, MANIFEST_FILE_NAME@),
{
    join_path(plugin_dir, MANIFEST_FILE_NAME)
}

proof fn lemma_no_unknown_capability(caps: Seq<String>)
    requires
        first_unknown_capability(caps) is None,
    ensures
        forall|i: int| 0 <= i < caps.len() ==> capabilities::is_known((#[trigger] caps[i])@),
    decreases caps.len(),
{
    if caps.len() > 0 {
        lemma_no_unknown_capability(caps.drop_first());
        assert forall|i: int| 0 <= i < caps.len() implies capabilities::is_known(
            (#[trigger] caps[i])@,
        ) by {
            if i > 0 {
                assert(caps[i] == caps.drop_first()[i - 1]);
            }
        }
    }
}

/// A manifest that passes validation has a valid reverse-DNS id, a non-empty
/// name and entry, a version the semver parser accepts, the host's API
/// version, only capabilities the host recognizes, no real-time claim for a
/// WASM DSP plugin, and a UI descriptor when it is a UI plugin.
pub proof fn lemma_valid_manifest(m: PluginManifest, semver: Option<Seq<char>>)
    requires
        manifest_error(m, semver) is None,
    ensures
        valid_plugin_id(m.id@),
        m.name@.len() > 0,
        m.entry@.len() > 0,
        semver is None,
        m.api_version == HOST_API_VERSION,
        forall|i: int|
            0 <= i < m.capabilities@.len() ==> capabilities::is_known(
                (#[trigger] m.capabilities@[i])@,
            ),
        !wasm_dsp_claims_realtime(m),
        m.kind == PluginKind::Ui ==> m.ui is Some,
{
    lemma_no_unknown_capability(m.capabilities@);
}

/// Plugin ids are exactly the strings of 1 to 128 characters, each a
/// lowercase ASCII letter, an ASCII digit, `.` or `-`, with at least one `.`:
/// an uppercase letter anywhere makes the id invalid.
pub proof fn lemma_plugin_id_charset(id: Seq<char>)
    ensures
        valid_plugin_id(id) <==> {
            &&& 0 < id.len() <= 128
            &&& exists|k: int| 0 <= k < id.len() && id[k] == '.'
            &&& forall|k: int|
                0 <= k < id.len() ==> {
                    let c = #[trigger] id[k];
                    ('a' <= c && c <= 'z') || ('0' <= c && c <= '9') || c == '.' || c == '-'
                }
        },
        forall|k: int| 0 <= k < id.len() && 'A' <= #[trigger] id[k] && id[k] <= 'Z' ==> !valid_plugin_id(id),
{
    if exists|k: int| 0 <= k < id.len() && id[k] == '.' {
        let k = choose|k: int| 0 <= k < id.len() && id[k] == '.';
        assert(id.contains(id[k]));
    }
    if id.contains('.') {
        let k = choose|k: int| 0 <= k < id.len() && id[k] == '.';
        assert(0 <= k < id.len() && id[k] == '.');
    }
}

proof fn lemma_all_known_capabilities(caps: Seq<String>)
    requires
        forall|i: int| 0 <= i < caps.len() ==> capabilities::is_known((#[trigger] caps[i])@),
    ensures
        first_unknown_capability(caps) is None,
    decreases caps.len(),
{
    if caps.len() > 0 {
        assert(capabilities::is_known(caps[0]@));
        assert forall|i: int| 0 <= i < caps.drop_first().len() implies capabilities::is_known(
            (#[trigger] caps.drop_first()[i])@,
        ) by {
            assert(caps.drop_first()[i] == caps[i + 1]);
        }
        lemma_all_known_capabilities(caps.drop_first());
    }
}

/// A manifest passes validation when it has a valid reverse-DNS id, a
/// non-empty name and entry, a version the semver parser accepts, the host's
/// API version, only capabilities the host recognizes, no real-time claim for
/// a WASM DSP plugin, and, for a UI plugin only, a UI descriptor: a utility,
/// DSP or bridge plugin needs none.
pub proof fn lemma_manifest_accepted(m: PluginManifest, semver: Option<Seq<char>>)
    requires
        valid_plugin_id(m.id@),
        m.name@.len() > 0,
        m.entry@.len() > 0,
        semver is None,
        m.api_version == HOST_API_VERSION,
        forall|i: int|
            0 <= i < m.capabilities@.len() ==> capabilities::is_known(
                (#[trigger] m.capabilities@[i])@,
            ),
        !(m.kind == PluginKind::Dsp && m.runtime == RuntimeKind::Wasm && (m.dsp matches Some(
            d,
        ) && d.realtime_safe)),
        m.kind == PluginKind::Ui ==> m.ui is Some,
    ensures
        manifest_error(m, semver) is None,
{
    lemma_all_known_capabilities(m.capabilities@);
}

/// The UI descriptor is looked at for UI plugins only: for any other kind,
/// validation gives the same outcome whatever the `ui` field holds.
pub proof fn lemma_ui_descriptor_only_for_ui_plugins(
    m: PluginManifest,
    ui: Option<UiDescriptor>,
    semver: Option<Seq<char>>,
)
    requires
        m.kind != PluginKind::Ui,
    ensures
        manifest_error(PluginManifest { ui: ui, ..m }, semver) == manifest_error(m, semver),
{
}

} // verus!
