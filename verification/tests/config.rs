use vexmason::config::defines::DefineMap;
use vexmason::config::model::{
    ConfigDefine, ConfigDefineType, ConfigError, DefineKind, OverridesConfig, RawConfig,
    CURRENT_CONFIG_VERSION,
};
use vexmason::config::template::LocalTime;
use vexmason::config::{
    entry_file_of, ignored_overrides, resolve, resolved_config_from_files, root,
    version_supported, DirectoryProbe, CONFIG_DIRECTORY, CONFIG_FILE, CONFIG_OVERRIDES_FILE,
    DEFAULT_DESCRIPTION, DEFAULT_ENTRY_FILE, PROJECT_MARKER, UNKNOWN_COMPUTER_NAME,
};

fn text(s: &str) -> ConfigDefineType {
    ConfigDefineType::String(s.to_string())
}

fn number(s: &str) -> ConfigDefineType {
    ConfigDefineType::Number(s.to_string())
}

fn flag(b: bool) -> ConfigDefineType {
    ConfigDefineType::Boolean(b)
}

fn fixed_clock() -> LocalTime {
    LocalTime {
        stamp: "Wed 28 Oct 2026, 09:05AM".to_string(),
        iso8601: "2026-10-28T09:05:07+01:00".to_string(),
        year: "2026".to_string(),
        month: "10".to_string(),
        day: "28".to_string(),
        hour: "9".to_string(),
        minute: "5".to_string(),
    }
}

fn project() -> RawConfig {
    let mut defines = DefineMap::new();
    defines.insert(
        "DEBUG".to_string(),
        ConfigDefine::ExplicitTyped { default: flag(false), typed: true },
    );
    RawConfig {
        config_version: "1.1.0".to_string(),
        name: "{{computer-name}}-build".to_string(),
        description: None,
        language: "python".to_string(),
        minify: None,
        default_defines: defines,
        entry_file: None,
    }
}

fn local(version: &str, computer: Option<&str>, entries: Vec<(&str, ConfigDefineType)>) -> OverridesConfig {
    let mut defines = DefineMap::new();
    for (name, value) in entries {
        defines.insert(name.to_string(), value);
    }
    OverridesConfig {
        config_version: version.to_string(),
        computer_name: computer.map(|c| c.to_string()),
        defines_overrides: defines,
    }
}

fn entry() -> Option<String> {
    Some("/work/robot/src/main.py".to_string())
}

#[test]
fn file_names_are_fixed() {
    assert_eq!(CONFIG_FILE, "vexmason-config.json");
    assert_eq!(CONFIG_OVERRIDES_FILE, "vexmason-local-config.json");
    assert_eq!(CONFIG_DIRECTORY, ".vscode");
    assert_eq!(PROJECT_MARKER, "vex_project_settings.json");
    assert_eq!(DEFAULT_ENTRY_FILE, "src/main.py");
    assert_eq!(UNKNOWN_COMPUTER_NAME, "unknown");
    assert_eq!(CURRENT_CONFIG_VERSION, "1.1.0");
    assert!(!DEFAULT_DESCRIPTION.contains('\n'));
    assert!(DEFAULT_DESCRIPTION.starts_with("compiled by vexmason at {{ time/hour }}"));
    assert!(DEFAULT_DESCRIPTION.ends_with("{{ defines::list }} "));
}

#[test]
fn define_values_are_written_out() {
    assert_eq!(text("a b").to_string(), "a b");
    assert_eq!(number("0.5").to_string(), "0.5");
    assert_eq!(flag(true).to_string(), "true");
    assert_eq!(flag(false).to_string(), "false");
}

#[test]
fn define_values_compare_by_kind_and_content() {
    assert_eq!(text("1"), text("1"));
    assert_ne!(text("1"), number("1"));
    assert_ne!(text("true"), flag(true));
    assert_ne!(number("1"), number("2"));
    assert_eq!(flag(true), flag(true));
    assert_ne!(flag(true), flag(false));
    assert_eq!(text("x").clone(), text("x"));
    assert_eq!(text("x").kind(), DefineKind::Text);
    assert_eq!(number("1").kind(), DefineKind::Number);
    assert_eq!(flag(true).kind(), DefineKind::Flag);
}

#[test]
fn simple_define_admits_any_value() {
    let define = ConfigDefine::SimpleTyped(text("a"));
    assert!(define.validate_default());
    assert!(define.validate(&text("b")));
    assert!(define.validate(&number("3")));
    assert!(define.validate(&flag(true)));
    assert_eq!(define.default_value(), text("a"));
}

#[test]
fn typed_define_admits_its_own_kind_only() {
    let define = ConfigDefine::ExplicitTyped { default: number("1"), typed: true };
    assert!(define.validate_default());
    assert!(define.validate(&number("2")));
    assert!(!define.validate(&text("2")));
    assert!(!define.validate(&flag(false)));
    assert_eq!(define.default_value(), number("1"));
}

#[test]
fn untyped_define_admits_any_value() {
    let define = ConfigDefine::ExplicitTyped { default: number("1"), typed: false };
    assert!(define.validate_default());
    assert!(define.validate(&text("2")));
    assert!(define.validate(&flag(false)));
}

#[test]
fn restricted_define_admits_its_options_only() {
    let define = ConfigDefine::Restricted {
        default: text("red"),
        options: vec![text("red"), text("blue"), number("3")],
    };
    assert!(define.validate_default());
    assert!(define.validate(&text("blue")));
    assert!(define.validate(&number("3")));
    assert!(!define.validate(&text("green")));
    assert!(!define.validate(&text("3")));
    assert_eq!(define.default_value(), text("red"));
}

#[test]
fn restricted_define_with_foreign_default_is_unsound() {
    let define = ConfigDefine::Restricted { default: text("green"), options: vec![text("red")] };
    assert!(!define.validate_default());
    let empty = ConfigDefine::Restricted { default: flag(true), options: vec![] };
    assert!(!empty.validate_default());
    assert!(!empty.validate(&flag(true)));
}

#[test]
fn define_map_keeps_order_and_replaces_in_place() {
    let mut map: DefineMap<ConfigDefineType> = DefineMap::new();
    assert_eq!(map.len(), 0);
    map.insert("b".to_string(), number("1"));
    map.insert("a".to_string(), number("2"));
    map.insert("b".to_string(), number("3"));
    assert_eq!(map.len(), 2);
    assert_eq!(map.name(0), "b");
    assert_eq!(map.value(0), &number("3"));
    assert_eq!(map.name(1), "a");
    assert_eq!(map.get(&"a".to_string()), Some(&number("2")));
    assert_eq!(map.get(&"c".to_string()), None);
    assert_eq!(map.find(&"a".to_string()), Some(1));
    assert_eq!(map.find(&"".to_string()), None);
    let map = map.with("c".to_string(), flag(true));
    assert_eq!(map.len(), 3);
    assert_eq!(map.name(2), "c");
}

#[test]
fn supported_versions() {
    assert_eq!(version_supported("1.1.0"), Some(true));
    assert_eq!(version_supported("1.0.0"), Some(true));
    assert_eq!(version_supported("1.0"), Some(true));
    assert_eq!(version_supported("1"), Some(true));
    assert_eq!(version_supported("1.1"), Some(true));
    assert_eq!(version_supported("1.1.1"), Some(false));
    assert_eq!(version_supported("1.2.0"), Some(false));
    assert_eq!(version_supported("2.0.0"), Some(false));
    assert_eq!(version_supported("0.9.0"), Some(false));
    assert_eq!(version_supported(""), None);
    assert_eq!(version_supported("one"), None);
    assert_eq!(version_supported("1.1.0.0"), None);
}

#[test]
fn end_to_end_resolution() {
    let overrides = local("1.1.0", Some("rig1"), vec![("DEBUG", flag(true))]);
    let resolved = resolved_config_from_files(&project(), &overrides, "/work/robot", entry()).unwrap();
    assert_eq!(resolved.name, "rig1-build");
    assert_eq!(resolved.defines.get(&"DEBUG".to_string()), Some(&flag(true)));
    assert_eq!(resolved.defines.len(), 1);
    assert_eq!(resolved.language, "python");
    assert!(!resolved.minify);
    assert_eq!(resolved.project_root, "/work/robot");
    assert_eq!(resolved.entry_file, "/work/robot/src/main.py");
}

#[test]
fn default_description_is_expanded() {
    let overrides = local("1.1.0", Some("rig1"), vec![("DEBUG", flag(true))]);
    let resolved =
        resolve(&project(), &overrides, "/work/robot", entry(), Some(true), &fixed_clock()).unwrap();
    assert_eq!(
        resolved.description,
        "compiled by vexmason at 9:5 by rig1 | py | min: n | 1 defines: DEBUG=true,  "
    );
}

#[test]
fn given_description_is_expanded() {
    let mut config = project();
    config.description = Some("{{ language }} on {{ computer-name }} {{ defines/DEBUG }}".to_string());
    config.minify = Some(true);
    let overrides = local("1.1.0", None, vec![]);
    let resolved = resolve(&config, &overrides, "/r", entry(), Some(true), &fixed_clock()).unwrap();
    assert_eq!(resolved.description, "python on unknown false");
    assert_eq!(resolved.name, "unknown-build");
    assert!(resolved.minify);
}

#[test]
fn absent_overrides_keep_the_defaults() {
    let overrides = OverridesConfig::absent("1.1.0");
    assert_eq!(overrides.config_version, "1.1.0");
    assert_eq!(overrides.computer_name, None);
    assert_eq!(overrides.defines_overrides.len(), 0);
    let resolved = resolve(&project(), &overrides, "/r", entry(), Some(true), &fixed_clock()).unwrap();
    assert_eq!(resolved.defines.get(&"DEBUG".to_string()), Some(&flag(false)));
    assert_eq!(resolved.name, "unknown-build");
}

#[test]
fn resolved_defines_keep_the_declared_order() {
    let mut config = project();
    config.default_defines.insert("TEAM".to_string(), ConfigDefine::SimpleTyped(text("A")));
    config.default_defines.insert(
        "MODE".to_string(),
        ConfigDefine::Restricted { default: text("slow"), options: vec![text("slow"), text("fast")] },
    );
    let overrides = local(
        "1.1.0",
        None,
        vec![("MODE", text("fast")), ("GONE", number("1")), ("TEAM", number("7"))],
    );
    let resolved = resolve(&config, &overrides, "/r", entry(), Some(true), &fixed_clock()).unwrap();
    assert_eq!(resolved.defines.len(), 3);
    assert_eq!(resolved.defines.name(0), "DEBUG");
    assert_eq!(resolved.defines.value(0), &flag(false));
    assert_eq!(resolved.defines.name(1), "TEAM");
    assert_eq!(resolved.defines.value(1), &number("7"));
    assert_eq!(resolved.defines.name(2), "MODE");
    assert_eq!(resolved.defines.value(2), &text("fast"));
    assert_eq!(ignored_overrides(&config, &overrides), vec!["GONE".to_string()]);
}

#[test]
fn override_without_default_is_passed_over() {
    let overrides = local("1.1.0", None, vec![("OTHER", text("x"))]);
    let resolved = resolve(&project(), &overrides, "/r", entry(), Some(true), &fixed_clock()).unwrap();
    assert_eq!(resolved.defines.len(), 1);
    assert_eq!(resolved.defines.get(&"OTHER".to_string()), None);
    assert_eq!(ignored_overrides(&project(), &overrides), vec!["OTHER".to_string()]);
    assert_eq!(ignored_overrides(&project(), &local("1.1.0", None, vec![])), Vec::<String>::new());
}

#[test]
fn version_mismatch_fails() {
    let overrides = local("1.0.0", None, vec![]);
    let r = resolve(&project(), &overrides, "/r", entry(), Some(true), &fixed_clock());
    assert!(matches!(r, Err(ConfigError::VersionMismatch)));
    let r = resolved_config_from_files(&project(), &overrides, "/r", entry());
    assert!(matches!(r, Err(ConfigError::VersionMismatch)));
}

#[test]
fn malformed_version_fails() {
    let mut config = project();
    config.config_version = "latest".to_string();
    let overrides = local("latest", None, vec![]);
    let r = resolved_config_from_files(&config, &overrides, "/r", entry());
    assert!(matches!(r, Err(ConfigError::MalformedVersion)));
    let r = resolve(&project(), &local("1.1.0", None, vec![]), "/r", entry(), None, &fixed_clock());
    assert!(matches!(r, Err(ConfigError::MalformedVersion)));
}

#[test]
fn unsupported_version_fails() {
    let mut config = project();
    config.config_version = "2.0.0".to_string();
    let overrides = local("2.0.0", None, vec![]);
    match resolved_config_from_files(&config, &overrides, "/r", entry()) {
        Err(ConfigError::UnsupportedVersion { requested }) => assert_eq!(requested, "2.0.0"),
        other => panic!("{:?}", other),
    }
}

#[test]
fn unsound_default_fails_before_overrides() {
    let mut config = project();
    config.default_defines.insert(
        "MODE".to_string(),
        ConfigDefine::Restricted { default: text("idle"), options: vec![text("slow"), text("fast")] },
    );
    for overrides in [
        local("1.1.0", None, vec![]),
        local("1.1.0", None, vec![("DEBUG", text("not a flag"))]),
        local("1.1.0", Some("rig1"), vec![("MODE", text("fast"))]),
    ] {
        match resolved_config_from_files(&config, &overrides, "/r", entry()) {
            Err(ConfigError::InvalidDefault { define }) => assert_eq!(define, "MODE"),
            other => panic!("{:?}", other),
        }
    }
}

#[test]
fn refused_override_fails_with_its_name_and_value() {
    let overrides = local("1.1.0", None, vec![("GONE", text("x")), ("DEBUG", text("yes"))]);
    match resolved_config_from_files(&project(), &overrides, "/r", entry()) {
        Err(ConfigError::InvalidOverride { define, value }) => {
            assert_eq!(define, "DEBUG");
            assert_eq!(value, text("yes"));
        }
        other => panic!("{:?}", other),
    }
}

#[test]
fn first_refused_override_is_reported() {
    let mut config = project();
    config.default_defines.insert(
        "N".to_string(),
        ConfigDefine::ExplicitTyped { default: number("1"), typed: true },
    );
    let overrides = local("1.1.0", None, vec![("N", flag(true)), ("DEBUG", number("1"))]);
    match resolve(&config, &overrides, "/r", entry(), Some(true), &fixed_clock()) {
        Err(ConfigError::InvalidOverride { define, value }) => {
            assert_eq!(define, "N");
            assert_eq!(value, flag(true));
        }
        other => panic!("{:?}", other),
    }
}

#[test]
fn missing_entry_file_fails_last() {
    let r = resolve(&project(), &local("1.1.0", None, vec![]), "/r", None, Some(true), &fixed_clock());
    assert!(matches!(r, Err(ConfigError::EntryFileNotFound)));
    let r = resolve(
        &project(),
        &local("1.1.0", None, vec![("DEBUG", number("1"))]),
        "/r",
        None,
        Some(true),
        &fixed_clock(),
    );
    assert!(matches!(r, Err(ConfigError::InvalidOverride { .. })));
}

#[test]
fn resolution_succeeds_exactly_where_overrides_are_admitted() {
    let candidates = [flag(true), flag(false), number("1"), text("true")];
    for value in candidates {
        let admitted = matches!(value, ConfigDefineType::Boolean(_));
        let overrides = local("1.1.0", None, vec![("DEBUG", value.clone()), ("ELSE", value)]);
        let r = resolve(&project(), &overrides, "/r", entry(), Some(true), &fixed_clock());
        assert_eq!(r.is_ok(), admitted);
    }
}

#[test]
fn entry_file_defaults() {
    let mut config = project();
    assert_eq!(entry_file_of(&config), "src/main.py");
    config.entry_file = Some("src/robot.py".to_string());
    assert_eq!(entry_file_of(&config), "src/robot.py");
}

#[test]
fn build_and_log_output_lie_under_the_root() {
    let resolved =
        resolve(&project(), &local("1.1.0", None, vec![]), "/work/robot", entry(), Some(true), &fixed_clock())
            .unwrap();
    assert_eq!(resolved.build_output(), vec!["/work/robot", "build", "compiled.py"]);
    assert_eq!(resolved.log_output(), vec!["/work/robot", "build", "vexmason.log"]);
}

fn probe(is_directory: bool, has_marker: bool, has_config: bool) -> DirectoryProbe {
    DirectoryProbe { is_directory, has_marker, has_config }
}

#[test]
fn root_is_the_nearest_directory_with_marker_and_configuration() {
    assert_eq!(root(&vec![]), None);
    assert_eq!(root(&vec![probe(true, true, true)]), Some(0));
    assert_eq!(
        root(&vec![probe(true, false, false), probe(true, true, false), probe(true, true, true)]),
        Some(2)
    );
    assert_eq!(
        root(&vec![probe(true, false, true), probe(true, true, true), probe(true, true, true)]),
        Some(1)
    );
}

#[test]
fn root_search_ends_without_a_project() {
    assert_eq!(root(&vec![probe(true, true, false), probe(true, false, true)]), None);
    assert_eq!(root(&vec![probe(false, true, true)]), None);
    assert_eq!(root(&vec![probe(true, false, false), probe(false, true, true), probe(true, true, true)]), None);
}
