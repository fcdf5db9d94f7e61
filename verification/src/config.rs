//! Resolving a project's configuration: the overrides of one machine are laid
//! over the project's defaults, and the templates are expanded.

pub mod defines;
pub mod model;
pub mod template;

use crate::config::defines::{has_name, lookup, names_distinct, DefineMap};
use crate::config::model::{
    ConfigDefine, ConfigDefineType, ConfigError, ConfigFault, DefineRule, DefineValue,
    OverridesConfig, RawConfig, Resolved, ResolvedConfig, text_of, CURRENT_CONFIG_VERSION,
};
use crate::config::template::{evaluate_template_at, expand, Clock, Context, LocalTime};
use crate::text::texts;
use crate::trusted::{requirement_admits, semver_admits};
use vstd::prelude::*;
use vstd::string::StringExecFns;

verus! {

/// The name of the file that holds a project's configuration.
pub const CONFIG_FILE: &'static str = "vexmason-config.json";

/// The name of the file that holds the configuration local to one machine.
pub const CONFIG_OVERRIDES_FILE: &'static str = "vexmason-local-config.json";

/// The directory, under a project's root, in which both files are kept.
pub const CONFIG_DIRECTORY: &'static str = ".vscode";

/// The name of the file that marks a directory as a project.
pub const PROJECT_MARKER: &'static str = "vex_project_settings.json";

/// The entry file of a project that names none, relative to its root.
pub const DEFAULT_ENTRY_FILE: &'static str = "src/main.py";

/// The description of a project that gives none.
pub const DEFAULT_DESCRIPTION: &'static str =
    "compiled by vexmason at {{ time/hour }}:{{ time/minute }} by {{ computer-name }} | {{ language::short }} | min: {{ minify::short }} | {{ defines::count }} defines: {{ defines::list }} ";

/// The computer name of a machine that gives none.
pub const UNKNOWN_COMPUTER_NAME: &'static str = "unknown";

/// The first place at or after `from` of a define that is not sound in
/// itself, or the number of defines where all are.
pub open spec fn first_unsound(declared: Seq<(Seq<char>, DefineRule)>, from: int) -> int
    decreases declared.len() - from,
{
    if from < 0 || from >= declared.len() {
        declared.len() as int
    } else if !declared[from].1.default_admitted() {
        from
    } else {
        first_unsound(declared, from + 1)
    }
}

/// An override is refused where a define of its name is declared and does not
/// admit its value. An override that names no declared define is not refused:
/// it is passed over.
pub open spec fn refused(
    declared: Seq<(Seq<char>, DefineRule)>,
    entry: (Seq<char>, DefineValue),
) -> bool {
    lookup(declared, entry.0) matches Some(rule) && !rule.admits(entry.1)
}

/// The first place at or after `from` of an override that is refused, or the
/// number of overrides where none is.
pub open spec fn first_refused(
    declared: Seq<(Seq<char>, DefineRule)>,
    overrides: Seq<(Seq<char>, DefineValue)>,
    from: int,
) -> int
    decreases overrides.len() - from,
{
    if from < 0 || from >= overrides.len() {
        overrides.len() as int
    } else if refused(declared, overrides[from]) {
        from
    } else {
        first_refused(declared, overrides, from + 1)
    }
}

/// The value of each declared define: its override where there is one, its
/// default where there is none. The defines keep their declared order.
pub open spec fn resolved_defines(
    declared: Seq<(Seq<char>, DefineRule)>,
    overrides: Seq<(Seq<char>, DefineValue)>,
) -> Seq<(Seq<char>, DefineValue)> {
    Seq::new(
        declared.len(),
        |k: int|
            (
                declared[k].0,
                match lookup(overrides, declared[k].0) {
                    Some(value) => value,
                    None => declared[k].1.default_value(),
                },
            ),
    )
}

/// The requirement that a configuration of the given version puts on the
/// library: a version compatible with its own.
pub open spec fn required(config_version: Seq<char>) -> Seq<char> {
    "^"@ + config_version
}

/// The context in which the templates of a configuration are expanded.
pub open spec fn context_of(config: &RawConfig, overrides: &OverridesConfig, now: Clock) -> Context {
    Context {
        computer_name: match overrides.computer_name {
            Some(name) => name@,
            None => UNKNOWN_COMPUTER_NAME@,
        },
        language: config.language@,
        minify: match config.minify {
            Some(minify) => minify,
            None => false,
        },
        defines: resolved_defines(config.default_defines@, overrides.defines_overrides@),
        now,
    }
}

/// Whether the library supports a configuration of the given version: `None`
/// where the version is not written as one, and otherwise whether the newest
/// version that the library reads meets what the configuration requires.
pub open spec fn supported(config_version: Seq<char>) -> Option<bool> {
    semver_admits(required(config_version), CURRENT_CONFIG_VERSION@)
}

/// What resolving a configuration comes to, given whether its version is
/// supported.
pub open spec fn resolution(
    config: &RawConfig,
    overrides: &OverridesConfig,
    project_root: Seq<char>,
    entry_file: Option<Seq<char>>,
    supported: Option<bool>,
    now: Clock,
) -> Result<Resolved, ConfigFault> {
    let declared = config.default_defines@;
    let given = overrides.defines_overrides@;
    let context = context_of(config, overrides, now);
    if config.config_version@ != overrides.config_version@ {
        Err(ConfigFault::VersionMismatch)
    } else if supported is None {
        Err(ConfigFault::MalformedVersion)
    } else if supported == Some(false) {
        Err(ConfigFault::UnsupportedVersion { requested: config.config_version@ })
    } else if first_unsound(declared, 0) < declared.len() {
        Err(ConfigFault::InvalidDefault { define: declared[first_unsound(declared, 0)].0 })
    } else if first_refused(declared, given, 0) < given.len() {
        Err(
            ConfigFault::InvalidOverride {
                define: given[first_refused(declared, given, 0)].0,
                value: given[first_refused(declared, given, 0)].1,
            },
        )
    } else {
        match entry_file {
            None => Err(ConfigFault::EntryFileNotFound),
            Some(entry_file) => Ok(
                Resolved {
                    name: expand(config.name@, context),
                    description: expand(
                        match config.description {
                            Some(description) => description@,
                            None => DEFAULT_DESCRIPTION@,
                        },
                        context,
                    ),
                    language: config.language@,
                    defines: context.defines,
                    project_root,
                    minify: context.minify,
                    entry_file,
                },
            ),
        }
    }
}

/// The names of the first `n` overrides that are passed over because no
/// define of their name is declared, in their order.
pub open spec fn passed_over(
    declared: Seq<(Seq<char>, DefineRule)>,
    overrides: Seq<(Seq<char>, DefineValue)>,
    n: int,
) -> Seq<Seq<char>>
    decreases n,
{
    if n <= 0 || n > overrides.len() {
        Seq::empty()
    } else if has_name(declared, overrides[n - 1].0) {
        passed_over(declared, overrides, n - 1)
    } else {
        passed_over(declared, overrides, n - 1).push(overrides[n - 1].0)
    }
}

/// What was seen of one directory on the way up from the entry point.
#[derive(Debug, Clone, Copy, PartialEq, Eq, Structural)]
pub struct DirectoryProbe {
    /// The path names a directory.
    pub is_directory: bool,
    /// Its configuration directory holds the project marker.
    pub has_marker: bool,
    /// Its configuration directory holds the project's configuration.
    pub has_config: bool,
}

/// The first place at or after `from` of a directory that holds both the
/// marker and the configuration, with nothing but directories before it.
pub open spec fn root_from(ancestors: Seq<DirectoryProbe>, from: int) -> Option<int>
    decreases ancestors.len() - from,
{
    if from < 0 || from >= ancestors.len() || !ancestors[from].is_directory {
        None
    } else if ancestors[from].has_marker && ancestors[from].has_config {
        Some(from)
    } else {
        root_from(ancestors, from + 1)
    }
}

/// The root of the project that an entry point belongs to.
///
/// `ancestors` holds what was seen of the directories above the entry point,
/// from the nearest to the root of the file system. The project's root is the
/// nearest of them that holds both the project marker and the project's
/// configuration. The walk ends without a root at the first path that is no
/// directory, and at the root of the file system.
pub fn root(ancestors: &Vec<DirectoryProbe>) -> (r: Option<usize>)
    ensures
        match r {
            Some(k) => root_from(ancestors@, 0) == Some(k as int),
            None => root_from(ancestors@, 0) is None,
        },
{
    let mut k: usize = 0;
    while k < ancestors.len()
        invariant
            k <= ancestors@.len(),
            root_from(ancestors@, 0) == root_from(ancestors@, k as int),
        decreases ancestors@.len() - k,
    {
        if !ancestors[k].is_directory {
            return None;
        }
        if ancestors[k].has_marker && ancestors[k].has_config {
            return Some(k);
        }
        k = k + 1;
    }
    None
}

/// The entry file of a configuration, relative to the project root: the one
/// it names, or the default.
pub fn entry_file_of(config: &RawConfig) -> (path: String)
    ensures
        path@ == match config.entry_file {
            Some(named) => named@,
            None => DEFAULT_ENTRY_FILE@,
        },
{
    match &config.entry_file {
        Some(named) => named.clone(),
        None => DEFAULT_ENTRY_FILE.to_owned(),
    }
}

/// The names of the overrides that resolution passes over because the
/// configuration declares no define of their name.
pub fn ignored_overrides(config: &RawConfig, overrides: &OverridesConfig) -> (names: Vec<String>)
    ensures
        texts(names@) == passed_over(
            config.default_defines@,
            overrides.defines_overrides@,
            overrides.defines_overrides@.len() as int,
        ),
{
    let given = &overrides.defines_overrides;
    let n = given.len();
    let mut names: Vec<String> = Vec::new();
    let mut k: usize = 0;
    while k < n
        invariant
            k <= n,
            n == given@.len(),
            texts(names@) == passed_over(
                config.default_defines@,
                given@,
                k as int,
            ),
        decreases n - k,
    {
        let ghost before = texts(names@);
        if config.default_defines.find(given.name(k)).is_none() {
            names.push(given.name(k).clone());
            assert(texts(names@) =~= before.push(given@[k as int].0));
        }
        k = k + 1;
    }
    names
}

/// The view of what resolving returned.
pub open spec fn outcome(r: Result<ResolvedConfig, ConfigError>) -> Result<Resolved, ConfigFault> {
    match r {
        Ok(config) => Ok(config@),
        Err(error) => Err(error@),
    }
}

fn find_unsound(declared: &DefineMap<ConfigDefine>) -> (r: Option<usize>)
    ensures
        match r {
            Some(k) => k == first_unsound(declared@, 0) && k < declared@.len(),
            None => first_unsound(declared@, 0) == declared@.len(),
        },
{
    let n = declared.len();
    let mut k: usize = 0;
    while k < n
        invariant
            k <= n,
            n == declared@.len(),
            first_unsound(declared@, 0) == first_unsound(declared@, k as int),
        decreases n - k,
    {
        if !declared.value(k).validate_default() {
            return Some(k);
        }
        k = k + 1;
    }
    None
}

fn find_refused(
    declared: &DefineMap<ConfigDefine>,
    overrides: &DefineMap<ConfigDefineType>,
) -> (r: Option<usize>)
    ensures
        match r {
            Some(k) => k == first_refused(declared@, overrides@, 0) && k < overrides@.len(),
            None => first_refused(declared@, overrides@, 0) == overrides@.len(),
        },
{
    let n = overrides.len();
    let mut k: usize = 0;
    while k < n
        invariant
            k <= n,
            n == overrides@.len(),
            first_refused(declared@, overrides@, 0) == first_refused(
                declared@,
                overrides@,
                k as int,
            ),
        decreases n - k,
    {
        match declared.get(overrides.name(k)) {
            Some(rule) => {
                if !rule.validate(overrides.value(k)) {
                    return Some(k);
                }
            },
            None => {},
        }
        k = k + 1;
    }
    None
}

fn resolve_defines(
    declared: &DefineMap<ConfigDefine>,
    overrides: &DefineMap<ConfigDefineType>,
) -> (resolved: DefineMap<ConfigDefineType>)
    ensures
        resolved@ == resolved_defines(declared@, overrides@),
{
    let n = declared.len();
    let mut resolved: DefineMap<ConfigDefineType> = DefineMap::new();
    let mut k: usize = 0;
    while k < n
        invariant
            k <= n,
            n == declared@.len(),
            names_distinct(declared@),
            resolved@ == resolved_defines(declared@, overrides@).take(k as int),
        decreases n - k,
    {
        let name = declared.name(k);
        let value = match overrides.get(name) {
            Some(value) => value.clone(),
            None => declared.value(k).default_value(),
        };
        proof {
            let all = resolved_defines(declared@, overrides@);
            if has_name(resolved@, name@) {
                let j = choose|j: int| 0 <= j < resolved@.len() && (#[trigger] resolved@[j]).0
                    == name@;
                assert(all[j].0 == declared@[j].0);
                assert(declared@[j].0 != declared@[k as int].0);
            }
            assert(all.take(k as int).push(all[k as int]) =~= all.take(k + 1));
        }
        resolved.insert(name.clone(), value);
        k = k + 1;
    }
    assert(resolved_defines(declared@, overrides@).take(n as int) =~= resolved_defines(
        declared@,
        overrides@,
    ));
    resolved
}

/// Whether the library supports a configuration of the given version.
pub fn version_supported(config_version: &str) -> (r: Option<bool>)
    ensures
        r == supported(config_version@),
{
    let mut requirement = "^".to_owned();
    requirement.append(config_version);
    requirement_admits(requirement.as_str(), CURRENT_CONFIG_VERSION)
}

/// Resolves a configuration against its overrides, given whether its version
/// is supported, with `now` for the time tokens of its templates.
///
/// `entry_file` is the canonical path of the project's entry file, or `None`
/// where that file was not found. Resolution fails, in this order, where the
/// two versions differ, where the version is not written as one, where it is
/// not supported, where a define is not sound in itself, where an override is
/// refused, and where the entry file is missing.
pub fn resolve(
    config: &RawConfig,
    overrides: &OverridesConfig,
    project_root: &str,
    entry_file: Option<String>,
    supported: Option<bool>,
    now: &LocalTime,
) -> (r: Result<ResolvedConfig, ConfigError>)
    ensures
        outcome(r) == resolution(
            config,
            overrides,
            project_root@,
            text_of(entry_file),
            supported,
            now@,
        ),
{
    if config.config_version != overrides.config_version {
        return Err(ConfigError::VersionMismatch);
    }
    match supported {
        None => {
            return Err(ConfigError::MalformedVersion);
        },
        Some(false) => {
            return Err(ConfigError::UnsupportedVersion { requested: config.config_version.clone() });
        },
        Some(true) => {},
    }
    match find_unsound(&config.default_defines) {
        Some(k) => {
            return Err(
                ConfigError::InvalidDefault { define: config.default_defines.name(k).clone() },
            );
        },
        None => {},
    }
    match find_refused(&config.default_defines, &overrides.defines_overrides) {
        Some(k) => {
            return Err(
                ConfigError::InvalidOverride {
                    define: overrides.defines_overrides.name(k).clone(),
                    value: overrides.defines_overrides.value(k).clone(),
                },
            );
        },
        None => {},
    }
    let entry_file = match entry_file {
        Some(path) => path,
        None => {
            return Err(ConfigError::EntryFileNotFound);
        },
    };
    let defines = resolve_defines(&config.default_defines, &overrides.defines_overrides);
    let computer_name = match &overrides.computer_name {
        Some(name) => name.as_str(),
        None => UNKNOWN_COMPUTER_NAME,
    };
    let minify = match config.minify {
        Some(minify) => minify,
        None => false,
    };
    let name = evaluate_template_at(
        config.name.as_str(),
        computer_name,
        config.language.as_str(),
        minify,
        &defines,
        now,
    );
    let description = evaluate_template_at(
        match &config.description {
            Some(description) => description.as_str(),
            None => DEFAULT_DESCRIPTION,
        },
        computer_name,
        config.language.as_str(),
        minify,
        &defines,
        now,
    );
    Ok(
        ResolvedConfig {
            name,
            description,
            language: config.language.clone(),
            defines,
            project_root: project_root.to_owned(),
            minify,
            entry_file,
        },
    )
}

/// Resolves a configuration against its overrides: asks whether the version
/// of the configuration is supported, reads the local clock for the time
/// tokens of the templates, and resolves.
pub fn resolved_config_from_files(
    config: &RawConfig,
    overrides: &OverridesConfig,
    project_root: &str,
    entry_file: Option<String>,
) -> (r: Result<ResolvedConfig, ConfigError>)
    ensures
        exists|now: Clock|
            outcome(r) == #[trigger] resolution(
                config,
                overrides,
                project_root@,
                text_of(entry_file),
                supported(config.config_version@),
                now,
            ),
{
    let supported = version_supported(config.config_version.as_str());
    let now = LocalTime::now();
    resolve(config, overrides, project_root, entry_file, supported, &now)
}

/// `first_unsound` finds the first define that is not sound in itself.
pub proof fn lemma_first_unsound(declared: Seq<(Seq<char>, DefineRule)>, from: int)
    requires
        0 <= from <= declared.len(),
    ensures
        from <= first_unsound(declared, from) <= declared.len(),
        first_unsound(declared, from) < declared.len() ==> !declared[first_unsound(
            declared,
            from,
        )].1.default_admitted(),
        forall|k: int|
            from <= k < first_unsound(declared, from) ==> (#[trigger] declared[k]).1.default_admitted(),
    decreases declared.len() - from,
{
    if from < declared.len() && declared[from].1.default_admitted() {
        lemma_first_unsound(declared, from + 1);
    }
}

/// `first_refused` finds the first override that is refused.
pub proof fn lemma_first_refused(
    declared: Seq<(Seq<char>, DefineRule)>,
    overrides: Seq<(Seq<char>, DefineValue)>,
    from: int,
)
    requires
        0 <= from <= overrides.len(),
    ensures
        from <= first_refused(declared, overrides, from) <= overrides.len(),
        first_refused(declared, overrides, from) < overrides.len() ==> refused(
            declared,
            overrides[first_refused(declared, overrides, from)],
        ),
        forall|k: int|
            from <= k < first_refused(declared, overrides, from) ==> !refused(
                declared,
                #[trigger] overrides[k],
            ),
    decreases overrides.len() - from,
{
    if from < overrides.len() && !refused(declared, overrides[from]) {
        lemma_first_refused(declared, overrides, from + 1);
    }
}

/// Of a configuration and overrides that name the same, supported version,
/// with defines that are sound in themselves and an entry file that was
/// found: resolution succeeds exactly where each override either names no
/// declared define or is admitted by the define that it names.
pub proof fn law_resolution_succeeds_iff_overrides_admitted(
    config: &RawConfig,
    overrides: &OverridesConfig,
    project_root: Seq<char>,
    entry_file: Seq<char>,
    now: Clock,
)
    requires
        config.config_version@ == overrides.config_version@,
        forall|k: int|
            0 <= k < config.default_defines@.len() ==> (
            #[trigger] config.default_defines@[k]).1.default_admitted(),
    ensures
        resolution(config, overrides, project_root, Some(entry_file), Some(true), now) is Ok
            <==> forall|k: int|
            0 <= k < overrides.defines_overrides@.len() ==> match lookup(
                config.default_defines@,
                (#[trigger] overrides.defines_overrides@[k]).0,
            ) {
                Some(rule) => rule.admits(overrides.defines_overrides@[k].1),
                None => true,
            },
{
    let declared = config.default_defines@;
    let given = overrides.defines_overrides@;
    lemma_first_unsound(declared, 0);
    lemma_first_refused(declared, given, 0);
    if first_refused(declared, given, 0) < given.len() {
        let k = first_refused(declared, given, 0);
        assert(refused(declared, given[k]));
    } else {
        assert forall|k: int| 0 <= k < given.len() implies match lookup(
            declared,
            (#[trigger] given[k]).0,
        ) {
            Some(rule) => rule.admits(given[k].1),
            None => true,
        } by {
            assert(!refused(declared, given[k]));
        }
    }
}

/// A define that is not sound in itself fails resolution before any override
/// is looked at: whatever the overrides hold, resolution fails, and two sets
/// of overrides under one version fail alike.
pub proof fn law_unsound_default_fails_first(
    config: &RawConfig,
    overrides: &OverridesConfig,
    others: &OverridesConfig,
    project_root: Seq<char>,
    entry_file: Option<Seq<char>>,
    supported: Option<bool>,
    now: Clock,
)
    requires
        exists|k: int|
            0 <= k < config.default_defines@.len() && !(
            #[trigger] config.default_defines@[k]).1.default_admitted(),
    ensures
        resolution(config, overrides, project_root, entry_file, supported, now) is Err,
        !(resolution(config, overrides, project_root, entry_file, supported, now) matches Err(
            ConfigFault::InvalidOverride { .. },
        )),
        overrides.config_version@ == others.config_version@ ==> resolution(
            config,
            overrides,
            project_root,
            entry_file,
            supported,
            now,
        ) == resolution(config, others, project_root, entry_file, supported, now),
{
    let declared = config.default_defines@;
    lemma_first_unsound(declared, 0);
    let k = choose|k: int| 0 <= k < declared.len() && !(#[trigger] declared[k]).1.default_admitted();
    if first_unsound(declared, 0) >= declared.len() {
        assert(declared[k].1.default_admitted());
    }
}

} // verus!
