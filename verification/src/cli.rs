//! `micyou plugin` — the plugin development toolkit's decisions: what each
//! subcommand reads and writes, how packaged entries are named and which
//! files a new plugin starts with.

use vstd::prelude::*;
use crate::manifest::{platforms, PluginManifest};
use crate::path::{join_path, path_join};
use crate::text::{chars_of, push_char, replace, replace_all, str_eq};

pub mod templates;

use templates::{
    NATIVE_CARGO, NATIVE_PLUGIN_JSON, NATIVE_README, NATIVE_TEMPLATE_LIB, WASM_PANEL_HTML,
    WASM_PLUGIN_JSON, WASM_README, WASM_TEMPLATE_WAT,
};

verus! {

/// The `plugin` subcommands.
#[derive(Debug, Clone)]
pub enum PluginAction {
    /// Validate the plugin.json of a plugin directory.
    Validate { dir: String },
    /// Pack a plugin directory into an importable .zip.
    Package { dir: String, out: Option<String> },
    /// Create a new plugin (wasm or native).
    Create { id: String, runtime: String, name: Option<String>, out: Option<String> },
}

/// One file-system step of creating a plugin.
#[derive(Debug, Clone)]
pub enum ScaffoldStep {
    /// Create a directory and its missing parents.
    CreateDir(String),
    /// Write a file.
    WriteFile { path: String, content: String },
}

/// The mathematical value of a [`ScaffoldStep`].
pub enum StepView {
    CreateDir(Seq<char>),
    WriteFile(Seq<char>, Seq<char>),
}

impl View for ScaffoldStep {
    type V = StepView;

    open spec fn view(&self) -> StepView {
        match self {
            ScaffoldStep::CreateDir(d) => StepView::CreateDir(d@),
            ScaffoldStep::WriteFile { path, content } => StepView::WriteFile(path@, content@),
        }
    }
}

/// What a subcommand does, with every path and file content decided.
#[derive(Debug, Clone)]
pub enum PluginTask {
    /// Read and validate `manifest_path`, then check the entry artifact of the
    /// plugin in `dir`.
    Validate { dir: String, manifest_path: String },
    /// Read and validate `manifest_path`, then pack `dir` into `out` (by
    /// default `<plugin id>.zip`).
    Package { dir: String, manifest_path: String, out: Option<String> },
    /// Create a `runtime` plugin in `out_dir` by performing `steps` in order.
    Create { runtime: String, out_dir: String, steps: Vec<ScaffoldStep> },
}

/// The part of `id` after its last `.` (all of it when it has none).
pub open spec fn last_segment(id: Seq<char>) -> Seq<char>
    decreases id.len(),
{
    if id.len() == 0 {
        id
    } else if id.last() == '.' {
        Seq::empty()
    } else {
        last_segment(id.drop_last()).push(id.last())
    }
}

/// The manifest of a new WASM plugin.
pub open spec fn wasm_manifest_text(id: Seq<char>, display_name: Seq<char>) -> Seq<char> {
    replace_all(
        replace_all(WASM_PLUGIN_JSON@, "dev.micyou.example.myplugin"@, id),
        "My Plugin"@,
        display_name,
    )
}

/// The manifest of a new native plugin, whose library is `lib<last>.so`.
pub open spec fn native_manifest_text(id: Seq<char>, display_name: Seq<char>, last: Seq<char>) -> Seq<char> {
    replace_all(
        replace_all(
            replace_all(NATIVE_PLUGIN_JSON@, "dev.micyou.example.mynative"@, id),
            "My Native Plugin"@,
            display_name,
        ),
        "libmicyou_example_mynative.so"@,
        "lib"@ + last + ".so"@,
    )
}

/// The directory a new plugin is created in: `out`, or the last segment of
/// its id.
pub open spec fn scaffold_dir(id: Seq<char>, out: Option<Seq<char>>) -> Seq<char> {
    match out {
        Some(o) => o,
        None => last_segment(id),
    }
}

/// The steps that create a plugin with id `id`: a native plugin when
/// `runtime` is `native`, a WASM plugin otherwise. Its display name is `name`,
/// or the last segment of the id.
pub open spec fn scaffold_steps(
    id: Seq<char>,
    runtime: Seq<char>,
    name: Option<Seq<char>>,
    out: Option<Seq<char>>,
) -> Seq<StepView> {
    let last = last_segment(id);
    let dir = scaffold_dir(id, out);
    let display_name = match name {
        Some(n) => n,
        None => last,
    };
    if runtime == "native"@ {
        let src_dir = path_join(dir, "src"@);
        seq![
            StepView::CreateDir(dir),
            StepView::WriteFile(
                path_join(dir, "plugin.json"@),
                native_manifest_text(id, display_name, last),
            ),
            StepView::WriteFile(path_join(dir, "README.md"@), NATIVE_README@),
            StepView::WriteFile(path_join(dir, "Cargo.toml"@), NATIVE_CARGO@),
            StepView::CreateDir(src_dir),
            StepView::WriteFile(
                path_join(src_dir, "lib.rs"@),
                replace_all(NATIVE_TEMPLATE_LIB@, "dev.micyou.example.mynative"@, id),
            ),
        ]
    } else {
        seq![
            StepView::CreateDir(dir),
            StepView::WriteFile(path_join(dir, "plugin.json"@), wasm_manifest_text(id, display_name)),
            StepView::WriteFile(path_join(dir, "README.md"@), WASM_README@),
            StepView::WriteFile(path_join(dir, "main.wat"@), WASM_TEMPLATE_WAT@),
            StepView::WriteFile(path_join(dir, "panel.html"@), WASM_PANEL_HTML@),
        ]
    }
}

/// The part of `id` after its last `.` (all of it when it has none).
pub fn id_last_segment(id: &str) -> (s: String)
    ensures
        s@ == last_segment(id@),
{
    let cs = chars_of(id);
    let n = cs.len();
    // position just after the last dot seen so far
    let mut start: usize = 0;
    let mut i: usize = 0;
    while i < n
        invariant
            n == cs@.len(),
            cs@ == id@,
            start <= i <= n,
            last_segment(cs@.take(i as int)) == cs@.subrange(start as int, i as int),
        decreases n - i,
    {
        assert(cs@.take(i + 1).drop_last() =~= cs@.take(i as int));
        if cs[i] == '.' {
            start = i + 1;
            assert(cs@.subrange(start as int, i + 1) =~= Seq::<char>::empty());
        } else {
            assert(cs@.subrange(start as int, i + 1) =~= cs@.subrange(start as int, i as int).push(
                cs@[i as int],
            ));
        }
        i += 1;
    }
    assert(cs@.take(n as int) =~= cs@);
    let mut s = String::new();
    let mut k: usize = start;
    while k < n
        invariant
            n == cs@.len(),
            start <= k <= n,
            s@ == cs@.subrange(start as int, k as int),
        decreases n - k,
    {
        push_char(&mut s, cs[k]);
        assert(cs@.subrange(start as int, k + 1) =~= cs@.subrange(start as int, k as int).push(
            cs@[k as int],
        ));
        k += 1;
    }
    s
}

fn step_dir(dir: &str) -> (s: ScaffoldStep)
    ensures
        s@ == StepView::CreateDir(dir@),
{
    ScaffoldStep::CreateDir(dir.to_owned())
}

fn step_file(dir: &str, name: &str, content: String) -> (s: ScaffoldStep)
    ensures
        s@ == StepView::WriteFile(path_join(dir@, name@), content@),
{
    ScaffoldStep::WriteFile { path: join_path(dir, name), content }
}

/// The steps that create a plugin (see [`scaffold_steps`]).
pub fn scaffold_plan(id: &str, runtime: &str, name: Option<&str>, out: Option<&str>) -> (steps: Vec<ScaffoldStep>)
    ensures
        steps@.map_values(|s: ScaffoldStep| s@) == scaffold_steps(
            id@,
            runtime@,
            match name {
                Some(n) => Some(n@),
                None => None,
            },
            match out {
                Some(o) => Some(o@),
                None => None,
            },
        ),
{
    proof {
        reveal_strlit("dev.micyou.example.mynative");
        reveal_strlit("dev.micyou.example.myplugin");
        reveal_strlit("My Native Plugin");
        reveal_strlit("My Plugin");
        reveal_strlit("libmicyou_example_mynative.so");
    }
    let last = id_last_segment(id);
    let dir: String = match out {
        Some(o) => o.to_owned(),
        None => last.clone(),
    };
    let display_name: String = match name {
        Some(n) => n.to_owned(),
        None => last.clone(),
    };
    let mut steps: Vec<ScaffoldStep> = Vec::new();
    steps.push(step_dir(dir.as_str()));
    if str_eq(runtime, "native") {
        proof {
            reveal_strlit("native");
        }
        let mut lib_name = String::from_str("lib");
        lib_name.append(last.as_str());
        lib_name.append(".so");
        let json1 = replace(NATIVE_PLUGIN_JSON, "dev.micyou.example.mynative", id);
        let json2 = replace(json1.as_str(), "My Native Plugin", display_name.as_str());
        let json3 = replace(json2.as_str(), "libmicyou_example_mynative.so", lib_name.as_str());
        steps.push(step_file(dir.as_str(), "plugin.json", json3));
        steps.push(step_file(dir.as_str(), "README.md", String::from_str(NATIVE_README)));
        steps.push(step_file(dir.as_str(), "Cargo.toml", String::from_str(NATIVE_CARGO)));
        let src_dir = join_path(dir.as_str(), "src");
        steps.push(step_dir(src_dir.as_str()));
        let lib = replace(NATIVE_TEMPLATE_LIB, "dev.micyou.example.mynative", id);
        steps.push(step_file(src_dir.as_str(), "lib.rs", lib));
    } else {
        let json1 = replace(WASM_PLUGIN_JSON, "dev.micyou.example.myplugin", id);
        let json2 = replace(json1.as_str(), "My Plugin", display_name.as_str());
        steps.push(step_file(dir.as_str(), "plugin.json", json2));
        steps.push(step_file(dir.as_str(), "README.md", String::from_str(WASM_README)));
        steps.push(step_file(dir.as_str(), "main.wat", String::from_str(WASM_TEMPLATE_WAT)));
        steps.push(step_file(dir.as_str(), "panel.html", String::from_str(WASM_PANEL_HTML)));
    }
    assert(steps@.map_values(|s: ScaffoldStep| s@) =~= scaffold_steps(
        id@,
        runtime@,
        match name {
            Some(n) => Some(n@),
            None => None,
        },
        match out {
            Some(o) => Some(o@),
            None => None,
        },
    ));
    steps
}

/// The zip archive a plugin is packed into: `out`, or `<plugin id>.zip`.
pub fn package_output_path(out: Option<&str>, plugin_id: &str) -> (p: String)
    ensures
        p@ == match out {
            Some(o) => o@,
            None => plugin_id@ + ".zip"@,
        },
{
    match out {
        Some(o) => o.to_owned(),
        None => {
            let mut p = plugin_id.to_owned();
            p.append(".zip");
            p
        },
    }
}

/// Whether a directory entry is left out of a package: build output
/// (`target`) and hidden files.
pub fn is_skipped_entry(name: &str) -> (b: bool)
    ensures
        b == (name@ == "target"@ || (name@.len() > 0 && name@[0] == '.')),
{
    let cs = chars_of(name);
    str_eq(name, "target") || (cs.len() > 0 && cs[0] == '.')
}

/// `rel` with every `\` turned into `/`.
pub open spec fn forward_slashes(rel: Seq<char>) -> Seq<char> {
    rel.map_values(|c: char| if c == '\\' { '/' } else { c })
}

/// The name of a packaged file inside the zip: its path relative to the
/// plugin directory, with `/` separators.
pub fn zip_entry_name(rel: &str) -> (n: String)
    ensures
        n@ == forward_slashes(rel@),
{
    let cs = chars_of(rel);
    let len = cs.len();
    let mut n = String::new();
    let mut i: usize = 0;
    while i < len
        invariant
            len == cs@.len(),
            cs@ == rel@,
            i <= len,
            n@ == forward_slashes(cs@.take(i as int)),
        decreases len - i,
    {
        let c = cs[i];
        push_char(&mut n, if c == '\\' { '/' } else { c });
        assert(forward_slashes(cs@.take(i + 1)) =~= forward_slashes(cs@.take(i as int)).push(
            if c == '\\' { '/' } else { c },
        ));
        i += 1;
    }
    assert(cs@.take(len as int) =~= cs@);
    n
}

/// The first platform tag in `tags` that the host does not recognize.
pub open spec fn first_unknown_platform(tags: Seq<String>) -> Option<Seq<char>>
    decreases tags.len(),
{
    if tags.len() == 0 {
        None
    } else if !platforms::is_known(tags[0]@) {
        Some(tags[0]@)
    } else {
        first_unknown_platform(tags.drop_first())
    }
}

proof fn lemma_first_unknown_platform(tags: Seq<String>)
    ensures
        first_unknown_platform(tags) is None <==> forall|i: int|
            0 <= i < tags.len() ==> platforms::is_known((#[trigger] tags[i])@),
    decreases tags.len(),
{
    if tags.len() > 0 {
        lemma_first_unknown_platform(tags.drop_first());
        assert forall|i: int| 1 <= i < tags.len() implies tags[i] == tags.drop_first()[i - 1] by {}
        if !platforms::is_known(tags[0]@) {
            assert(!platforms::is_known(tags[0]@));
        } else if first_unknown_platform(tags.drop_first()) is Some {
            let j = choose|j: int|
                0 <= j < tags.drop_first().len() && !platforms::is_known(
                    (#[trigger] tags.drop_first()[j])@,
                );
            assert(tags[j + 1] == tags.drop_first()[j]);
        }
    }
}

/// The platform check of the `validate` subcommand: the first tag in the
/// manifest's `platforms` that is not windows, linux, macos or android, if
/// any.
pub fn unknown_platform(m: &PluginManifest) -> (r: Option<String>)
    ensures
        match r {
            Some(t) => first_unknown_platform(m.platforms@) == Some(t@),
            None => first_unknown_platform(m.platforms@) is None,
        },
        r is None <==> forall|i: int|
            0 <= i < m.platforms@.len() ==> platforms::is_known((#[trigger] m.platforms@[i])@),
{
    proof {
        lemma_first_unknown_platform(m.platforms@);
    }
    let n = m.platforms.len();
    let mut k: usize = 0;
    assert(m.platforms@.skip(0) =~= m.platforms@);
    while k < n
        invariant
            n == m.platforms@.len(),
            k <= n,
            first_unknown_platform(m.platforms@) == first_unknown_platform(
                m.platforms@.skip(k as int),
            ),
        decreases n - k,
    {
        let tag = &m.platforms[k];
        assert(m.platforms@.skip(k as int)[0] == m.platforms@[k as int]);
        if !platforms::is_known_platform(tag.as_str()) {
            assert(first_unknown_platform(m.platforms@.skip(k as int)) == Some(tag@));
            return Some(tag.clone());
        }
        assert(m.platforms@.skip(k as int).drop_first() =~= m.platforms@.skip(k + 1));
        k += 1;
    }
    assert(m.platforms@.skip(n as int).len() == 0);
    None
}

/// Decides what a subcommand does.
pub fn run(action: PluginAction) -> (t: PluginTask)
    ensures
        match action {
            PluginAction::Validate { dir } => t matches PluginTask::Validate {
                dir: d,
                manifest_path: p,
            } && d == dir && p@ == path_join(dir@, "plugin.json"@),
            PluginAction::Package { dir, out } => t matches PluginTask::Package {
                dir: d,
                manifest_path: p,
                out: o,
            } && d == dir && o == out && p@ == path_join(dir@, "plugin.json"@),
            PluginAction::Create { id, runtime, name, out } => t matches PluginTask::Create {
                runtime: r,
                out_dir: d,
                steps,
            } && r == runtime && d@ == scaffold_dir(
                id@,
                match out {
                    Some(o) => Some(o@),
                    None => None,
                },
            ) && steps@.map_values(|s: ScaffoldStep| s@) == scaffold_steps(
                id@,
                runtime@,
                match name {
                    Some(n) => Some(n@),
                    None => None,
                },
                match out {
                    Some(o) => Some(o@),
                    None => None,
                },
            ),
        },
{
    match action {
        PluginAction::Validate { dir } => {
            let manifest_path = join_path(dir.as_str(), "plugin.json");
            PluginTask::Validate { dir, manifest_path }
        },
        PluginAction::Package { dir, out } => {
            let manifest_path = join_path(dir.as_str(), "plugin.json");
            PluginTask::Package { dir, manifest_path, out }
        },
        PluginAction::Create { id, runtime, name, out } => {
            let name_ref: Option<&str> = match &name {
                Some(n) => Some(n.as_str()),
                None => None,
            };
            let out_ref: Option<&str> = match &out {
                Some(o) => Some(o.as_str()),
                None => None,
            };
            let steps = scaffold_plan(id.as_str(), runtime.as_str(), name_ref, out_ref);
            let out_dir = match out_ref {
                Some(o) => o.to_owned(),
                None => id_last_segment(id.as_str()),
            };
            PluginTask::Create { runtime, out_dir, steps }
        },
    }
}

/// Whatever the runtime, the `plugin.json` a new plugin starts with is its
/// template with the plugin's id and display name filled in, and the display
/// name is the `--name` given, or the last segment of the id when none is.
pub proof fn lemma_manifest_carries_display_name(
    id: Seq<char>,
    runtime: Seq<char>,
    name: Option<Seq<char>>,
    out: Option<Seq<char>>,
)
    ensures
        ({
            let shown = match name {
                Some(n) => n,
                None => last_segment(id),
            };
            let dir = match out {
                Some(o) => o,
                None => last_segment(id),
            };
            let json = if runtime == "native"@ {
                replace_all(
                    replace_all(
                        replace_all(NATIVE_PLUGIN_JSON@, "dev.micyou.example.mynative"@, id),
                        "My Native Plugin"@,
                        shown,
                    ),
                    "libmicyou_example_mynative.so"@,
                    "lib"@ + last_segment(id) + ".so"@,
                )
            } else {
                replace_all(
                    replace_all(WASM_PLUGIN_JSON@, "dev.micyou.example.myplugin"@, id),
                    "My Plugin"@,
                    shown,
                )
            };
            &&& scaffold_steps(id, runtime, name, out)[0] == StepView::CreateDir(dir)
            &&& scaffold_steps(id, runtime, name, out)[1] == StepView::WriteFile(
                path_join(dir, "plugin.json"@),
                json,
            )
        }),
{
}

/// The display name given on creation only changes `plugin.json`: every other
/// step is the same whatever name is chosen.
pub proof fn lemma_name_only_changes_manifest(
    id: Seq<char>,
    runtime: Seq<char>,
    a: Option<Seq<char>>,
    b: Option<Seq<char>>,
    out: Option<Seq<char>>,
)
    ensures
        scaffold_steps(id, runtime, a, out).len() == scaffold_steps(id, runtime, b, out).len(),
        forall|k: int|
            0 <= k < scaffold_steps(id, runtime, a, out).len() && k != 1 ==> #[trigger] scaffold_steps(
                id,
                runtime,
                a,
                out,
            )[k] == scaffold_steps(id, runtime, b, out)[k],
{
}

} // verus!
