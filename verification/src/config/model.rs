//! The values a project configuration is made of.

use crate::config::defines::DefineMap;
use vstd::prelude::*;
use vstd::string::StringExecFns;

verus! {

/// What a define value is, mathematically.
pub enum DefineValue {
    Text(Seq<char>),
    Number(Seq<char>),
    Flag(bool),
}

/// The three kinds a define value can have.
#[derive(PartialEq, Eq, Structural, Clone, Copy, Debug)]
pub enum DefineKind {
    Text,
    Number,
    Flag,
}

impl DefineValue {
    pub open spec fn kind(self) -> DefineKind {
        match self {
            DefineValue::Text(_) => DefineKind::Text,
            DefineValue::Number(_) => DefineKind::Number,
            DefineValue::Flag(_) => DefineKind::Flag,
        }
    }

    /// The text a value is written out as.
    pub open spec fn rendered(self) -> Seq<char> {
        match self {
            DefineValue::Text(s) => s,
            DefineValue::Number(s) => s,
            DefineValue::Flag(b) => if b { "true"@ } else { "false"@ },
        }
    }
}

/// A concrete define value: a string, a number or a boolean.
///
/// A number is held as the decimal text it is written out as. Defines are only
/// ever compared and printed, so two numbers are the same value exactly when
/// their texts agree.
#[derive(Debug)]
pub enum ConfigDefineType {
    String(String),
    Number(String),
    Boolean(bool),
}

impl View for ConfigDefineType {
    type V = DefineValue;

    open spec fn view(&self) -> DefineValue {
        match self {
            ConfigDefineType::String(s) => DefineValue::Text(s@),
            ConfigDefineType::Number(s) => DefineValue::Number(s@),
            ConfigDefineType::Boolean(b) => DefineValue::Flag(*b),
        }
    }
}

impl PartialEq for ConfigDefineType {
    fn eq(&self, other: &Self) -> (r: bool) {
        match self {
            ConfigDefineType::String(a) => match other {
                ConfigDefineType::String(b) => *a == *b,
                _ => false,
            },
            ConfigDefineType::Number(a) => match other {
                ConfigDefineType::Number(b) => *a == *b,
                _ => false,
            },
            ConfigDefineType::Boolean(a) => match other {
                ConfigDefineType::Boolean(b) => *a == *b,
                _ => false,
            },
        }
    }
}

impl vstd::std_specs::cmp::PartialEqSpecImpl for ConfigDefineType {
    open spec fn obeys_eq_spec() -> bool {
        true
    }

    open spec fn eq_spec(&self, other: &Self) -> bool {
        self@ == other@
    }
}

impl ConfigDefineType {
    pub fn kind(&self) -> (k: DefineKind)
        ensures
            k == self@.kind(),
    {
        match self {
            ConfigDefineType::String(_) => DefineKind::Text,
            ConfigDefineType::Number(_) => DefineKind::Number,
            ConfigDefineType::Boolean(_) => DefineKind::Flag,
        }
    }

}

impl ConfigDefineType {
    /// The text this value is written out as: a string as it is, a number by
    /// its decimal text, a boolean as `true` or `false`.
    pub fn to_string(&self) -> (r: String)
        ensures
            r@ == self@.rendered(),
    {
        match self {
            ConfigDefineType::String(s) => s.clone(),
            ConfigDefineType::Number(s) => s.clone(),
            ConfigDefineType::Boolean(b) => if *b {
                "true".to_owned()
            } else {
                "false".to_owned()
            },
        }
    }
}

impl Clone for ConfigDefineType {
    fn clone(&self) -> (r: Self)
        ensures
            r@ == self@,
    {
        match self {
            ConfigDefineType::String(s) => ConfigDefineType::String(s.clone()),
            ConfigDefineType::Number(s) => ConfigDefineType::Number(s.clone()),
            ConfigDefineType::Boolean(b) => ConfigDefineType::Boolean(*b),
        }
    }
}

/// What a define declaration is, mathematically.
pub enum DefineRule {
    /// A default alone: any value may replace it.
    Simple(DefineValue),
    /// A default and a flag; when the flag is set a replacement must be of the
    /// default's kind.
    Explicit { default: DefineValue, typed: bool },
    /// A default and the values that are admissible.
    Restricted { default: DefineValue, options: Seq<DefineValue> },
}

impl DefineRule {
    pub open spec fn default_value(self) -> DefineValue {
        match self {
            DefineRule::Simple(d) => d,
            DefineRule::Explicit { default, .. } => default,
            DefineRule::Restricted { default, .. } => default,
        }
    }

    /// Whether `candidate` may replace the default of this declaration.
    pub open spec fn admits(self, candidate: DefineValue) -> bool {
        match self {
            DefineRule::Simple(_) => true,
            DefineRule::Explicit { default, typed } => typed ==> default.kind() == candidate.kind(),
            DefineRule::Restricted { options, .. } => options.contains(candidate),
        }
    }

    /// Whether the declaration is sound in itself: a restricted define's
    /// default is one of its options.
    pub open spec fn default_admitted(self) -> bool {
        match self {
            DefineRule::Restricted { default, options } => options.contains(default),
            _ => true,
        }
    }
}

/// The declared form of a define.
#[derive(Debug)]
pub enum ConfigDefine {
    /// A default value alone; an override of any type is allowed.
    SimpleTyped(ConfigDefineType),
    /// A default value, and whether an override must share its type.
    ExplicitTyped { default: ConfigDefineType, typed: bool },
    /// A default value restricted to a set of options.
    Restricted { default: ConfigDefineType, options: Vec<ConfigDefineType> },
}

/// The views of the values in `v`, in order.
pub open spec fn values_view(v: Seq<ConfigDefineType>) -> Seq<DefineValue> {
    Seq::new(v.len(), |i: int| v[i]@)
}

impl View for ConfigDefine {
    type V = DefineRule;

    open spec fn view(&self) -> DefineRule {
        match self {
            ConfigDefine::SimpleTyped(d) => DefineRule::Simple(d@),
            ConfigDefine::ExplicitTyped { default, typed } => DefineRule::Explicit {
                default: default@,
                typed: *typed,
            },
            ConfigDefine::Restricted { default, options } => DefineRule::Restricted {
                default: default@,
                options: values_view(options@),
            },
        }
    }
}

/// Whether `value` occurs among `options`.
pub fn contains_value(options: &Vec<ConfigDefineType>, value: &ConfigDefineType) -> (r: bool)
    ensures
        r == values_view(options@).contains(value@),
{
    let mut i: usize = 0;
    while i < options.len()
        invariant
            i <= options.len(),
            forall|j: int| 0 <= j < i ==> values_view(options@)[j] != value@,
        decreases options.len() - i,
    {
        if options[i] == *value {
            assert(values_view(options@)[i as int] == value@);
            return true;
        }
        i = i + 1;
    }
    false
}

impl ConfigDefine {
    /// Whether the declaration is sound in itself.
    pub fn validate_default(&self) -> (r: bool)
        ensures
            r == self@.default_admitted(),
    {
        match self {
            ConfigDefine::Restricted { default, options } => contains_value(options, default),
            _ => true,
        }
    }

    /// Whether `other` may override the default of this declaration.
    pub fn validate(&self, other: &ConfigDefineType) -> (r: bool)
        ensures
            r == self@.admits(other@),
    {
        match self {
            ConfigDefine::SimpleTyped(_) => true,
            ConfigDefine::ExplicitTyped { default, typed } => !*typed || default.kind()
                == other.kind(),
            ConfigDefine::Restricted { options, .. } => contains_value(options, other),
        }
    }

    /// The declared default.
    pub fn default_value(&self) -> (r: ConfigDefineType)
        ensures
            r@ == self@.default_value(),
    {
        match self {
            ConfigDefine::SimpleTyped(d) => d.clone(),
            ConfigDefine::ExplicitTyped { default, .. } => default.clone(),
            ConfigDefine::Restricted { default, .. } => default.clone(),
        }
    }
}

/// The newest configuration version that this library reads.
pub const CURRENT_CONFIG_VERSION: &'static str = "1.1.0";

/// The text of an optional string.
pub open spec fn text_of(s: Option<String>) -> Option<Seq<char>> {
    match s {
        Some(s) => Some(s@),
        None => None,
    }
}

/// A project's configuration as it is written down.
#[derive(Debug)]
pub struct RawConfig {
    pub config_version: String,
    /// A template.
    pub name: String,
    /// A template.
    pub description: Option<String>,
    pub language: String,
    pub minify: Option<bool>,
    pub default_defines: DefineMap<ConfigDefine>,
    /// Relative to the project root.
    pub entry_file: Option<String>,
}

/// The configuration that is local to one machine.
#[derive(Debug)]
pub struct OverridesConfig {
    pub config_version: String,
    pub computer_name: Option<String>,
    pub defines_overrides: DefineMap<ConfigDefineType>,
}

impl OverridesConfig {
    /// The overrides that stand for a local configuration that was not
    /// written: none, under the version of the project's configuration.
    pub fn absent(config_version: &str) -> (r: OverridesConfig)
        ensures
            r.config_version@ == config_version@,
            r.computer_name is None,
            r.defines_overrides@ == Seq::<(Seq<char>, DefineValue)>::empty(),
    {
        OverridesConfig {
            config_version: config_version.to_owned(),
            computer_name: None,
            defines_overrides: DefineMap::new(),
        }
    }
}

/// A configuration with its overrides applied and its templates expanded.
#[derive(Debug)]
pub struct ResolvedConfig {
    pub name: String,
    pub description: String,
    pub language: String,
    pub defines: DefineMap<ConfigDefineType>,
    pub project_root: String,
    pub minify: bool,
    /// Absolute and canonical.
    pub entry_file: String,
}

/// What a `ResolvedConfig` holds, mathematically.
pub struct Resolved {
    pub name: Seq<char>,
    pub description: Seq<char>,
    pub language: Seq<char>,
    pub defines: Seq<(Seq<char>, DefineValue)>,
    pub project_root: Seq<char>,
    pub minify: bool,
    pub entry_file: Seq<char>,
}

impl View for ResolvedConfig {
    type V = Resolved;

    open spec fn view(&self) -> Resolved {
        Resolved {
            name: self.name@,
            description: self.description@,
            language: self.language@,
            defines: self.defines@,
            project_root: self.project_root@,
            minify: self.minify,
            entry_file: self.entry_file@,
        }
    }
}

impl ResolvedConfig {
    /// Where the transformed source is written: the project root, and the
    /// names by which to descend from it.
    pub fn build_output(&self) -> (path: Vec<String>)
        ensures
            path@.len() == 3,
            path@[0]@ == self.project_root@,
            path@[1]@ == "build"@,
            path@[2]@ == "compiled.py"@,
    {
        let mut path: Vec<String> = Vec::new();
        path.push(self.project_root.clone());
        path.push("build".to_owned());
        path.push("compiled.py".to_owned());
        path
    }

    /// Where the log of one run is kept: the project root, and the names by
    /// which to descend from it.
    pub fn log_output(&self) -> (path: Vec<String>)
        ensures
            path@.len() == 3,
            path@[0]@ == self.project_root@,
            path@[1]@ == "build"@,
            path@[2]@ == "vexmason.log"@,
    {
        let mut path: Vec<String> = Vec::new();
        path.push(self.project_root.clone());
        path.push("build".to_owned());
        path.push("vexmason.log".to_owned());
        path
    }
}

/// Why a configuration could not be resolved.
#[derive(Debug)]
pub enum ConfigError {
    /// The configuration and its overrides name different versions.
    VersionMismatch,
    /// The version of the configuration is not written as one.
    MalformedVersion,
    /// The configuration asks for a version that this library does not read.
    UnsupportedVersion { requested: String },
    /// A restricted define whose default is none of its options.
    InvalidDefault { define: String },
    /// An override that its define does not admit.
    InvalidOverride { define: String, value: ConfigDefineType },
    /// The entry file could not be found under the project root.
    EntryFileNotFound,
}

/// What a `ConfigError` holds, mathematically.
pub enum ConfigFault {
    VersionMismatch,
    MalformedVersion,
    UnsupportedVersion { requested: Seq<char> },
    InvalidDefault { define: Seq<char> },
    InvalidOverride { define: Seq<char>, value: DefineValue },
    EntryFileNotFound,
}

impl View for ConfigError {
    type V = ConfigFault;

    open spec fn view(&self) -> ConfigFault {
        match self {
            ConfigError::VersionMismatch => ConfigFault::VersionMismatch,
            ConfigError::MalformedVersion => ConfigFault::MalformedVersion,
            ConfigError::UnsupportedVersion { requested } => ConfigFault::UnsupportedVersion {
                requested: requested@,
            },
            ConfigError::InvalidDefault { define } => ConfigFault::InvalidDefault {
                define: define@,
            },
            ConfigError::InvalidOverride { define, value } => ConfigFault::InvalidOverride {
                define: define@,
                value: value@,
            },
            ConfigError::EntryFileNotFound => ConfigFault::EntryFileNotFound,
        }
    }
}

/// The message of a fault, as it is shown to the user.
pub open spec fn fault_message(fault: ConfigFault) -> Seq<char> {
    match fault {
        ConfigFault::VersionMismatch => "config and config overrides versions don't match"@,
        ConfigFault::MalformedVersion =>
            "failed to parse config version. it must be of the format 1.0 or 1.0.0 (e.g. 1.5 or 2.1 would be valid)"@,
        ConfigFault::UnsupportedVersion { requested } => "your config requires version "@
            + requested + "; this installation of vexmason supports up to "@
            + CURRENT_CONFIG_VERSION@ + ". try updating."@,
        ConfigFault::InvalidDefault { define } =>
            "the default define defined in vexmason-config.json did not pass its own type validation. check that `default_defines."@
            + define + ".default` is contained in `default_defines."@ + define + ".options`."@,
        ConfigFault::InvalidOverride { define, value } => "local config defines '"@ + define
            + "' with the value '"@ + value.rendered()
            + "', but the default for that define in vexmason-config.json doesn't allow that type. make sure it's either included in `default_defines."@
            + define
            + ".options` (if that exists) or the type is the same as the default if `default_defines."@
            + define + ".typed` is `true`"@,
        ConfigFault::EntryFileNotFound => "failed to find the entry file of your project"@,
    }
}

impl ConfigError {
    /// The message of this error, as it is shown to the user.
    pub fn message(&self) -> (text: String)
        ensures
            text@ == fault_message(self@),
    {
        match self {
            ConfigError::VersionMismatch => {
                "config and config overrides versions don't match".to_owned()
            },
            ConfigError::MalformedVersion => {
                "failed to parse config version. it must be of the format 1.0 or 1.0.0 (e.g. 1.5 or 2.1 would be valid)".to_owned()
            },
            ConfigError::UnsupportedVersion { requested } => {
                let mut text = "your config requires version ".to_owned();
                text.append(requested.as_str());
                text.append("; this installation of vexmason supports up to ");
                text.append(CURRENT_CONFIG_VERSION);
                text.append(". try updating.");
                text
            },
            ConfigError::InvalidDefault { define } => {
                let mut text =
                    "the default define defined in vexmason-config.json did not pass its own type validation. check that `default_defines.".to_owned();
                text.append(define.as_str());
                text.append(".default` is contained in `default_defines.");
                text.append(define.as_str());
                text.append(".options`.");
                text
            },
            ConfigError::InvalidOverride { define, value } => {
                let mut text = "local config defines '".to_owned();
                text.append(define.as_str());
                text.append("' with the value '");
                text.append(value.to_string().as_str());
                text.append(
                    "', but the default for that define in vexmason-config.json doesn't allow that type. make sure it's either included in `default_defines.",
                );
                text.append(define.as_str());
                text.append(
                    ".options` (if that exists) or the type is the same as the default if `default_defines.",
                );
                text.append(define.as_str());
                text.append(".typed` is `true`");
                text
            },
            ConfigError::EntryFileNotFound => {
                "failed to find the entry file of your project".to_owned()
            },
        }
    }
}

} // verus!
