//! End-to-end tests of launch-command synthesis: rule evaluation,
//! placeholder resolution, classpath construction, argument assembly and
//! process composition.

use rustified::GameLauncher;
use rustified::Os;
use rustified::arguments::memory_flags;
use rustified::classpath::get_library_path;
use rustified::launch::exit_outcome;
use rustified::model::ArgumentValue;
use rustified::model::ArgumentValueType;
use rustified::model::Arguments;
use rustified::model::AuthResult;
use rustified::model::InstanceConfig;
use rustified::model::InstanceSettings;
use rustified::model::LaunchError;
use rustified::model::Library;
use rustified::model::LibraryDownloads;
use rustified::model::MinecraftDir;
use rustified::model::PlayerProfile;
use rustified::model::VersionInfo;
use rustified::model::VersionKind;
use rustified::resolve::game_directory;
use rustified::rules::OsRule;
use rustified::rules::Rule;
use rustified::text::replace_all;
use rustified::text::split_whitespace_tokens;
use rustified::text::u32_to_decimal;

fn auth() -> AuthResult {
    AuthResult {
        profile: PlayerProfile {
            name: "Steve".to_string(),
            id: "abc-123".to_string(),
        },
        access_token: "bearer-token-0123456789".to_string(),
    }
}

fn dir() -> MinecraftDir {
    MinecraftDir {
        base_path: "/home/player/.minecraft".to_string(),
    }
}

fn instance(memory_mb: Option<u32>, java_args: Vec<String>) -> InstanceConfig {
    InstanceConfig {
        name: "modded".to_string(),
        settings: InstanceSettings { memory_mb, java_args },
    }
}

fn bare_version(id: &str) -> VersionInfo {
    VersionInfo {
        id: id.to_string(),
        main_class: "net.minecraft.client.main.Main".to_string(),
        assets: "17".to_string(),
        version_type: VersionKind::Release,
        arguments: None,
        minecraft_arguments: None,
        libraries: Vec::new(),
    }
}

fn plain_library(name: &str) -> Library {
    Library {
        name: name.to_string(),
        downloads: LibraryDownloads {
            artifact: Some(format!("https://libraries.example/{name}.jar")),
            classifiers: None,
        },
        rules: Vec::new(),
    }
}

fn rule(os_name: Option<&str>, action: &str) -> Rule {
    Rule {
        os: os_name.map(|n| OsRule { name: Some(n.to_string()) }),
        action: action.to_string(),
    }
}

// Rule evaluation is first-match with a default-deny fallthrough.
#[test]
fn first_match_reaches_unconditional_allow() {
    let launcher = GameLauncher::new();
    let rules = vec![rule(Some("windows"), "disallow"), rule(None, "allow")];
    assert!(launcher.evaluate_rules(&rules, Os::Linux));
    assert!(!launcher.evaluate_rules(&rules, Os::Windows));
}

#[test]
fn first_match_disallow_excludes() {
    let launcher = GameLauncher::new();
    let rules = vec![rule(Some("linux"), "disallow")];
    assert!(!launcher.evaluate_rules(&rules, Os::Linux));
    // No rule matches on Windows, so the default denies as well.
    assert!(!launcher.evaluate_rules(&rules, Os::Windows));
}

#[test]
fn empty_rule_list_denies() {
    let launcher = GameLauncher::new();
    assert!(!launcher.evaluate_rules(&Vec::new(), Os::Linux));
}

#[test]
fn unknown_os_name_never_matches() {
    let launcher = GameLauncher::new();
    let rules = vec![rule(Some("solaris"), "allow")];
    assert!(!launcher.evaluate_rules(&rules, Os::Linux));
    assert!(!launcher.evaluate_rules(&rules, Os::Other));
}

#[test]
fn osx_name_matches_macos() {
    let launcher = GameLauncher::new();
    let rules = vec![rule(Some("osx"), "allow")];
    assert!(launcher.evaluate_rules(&rules, Os::MacOs));
    assert!(!launcher.evaluate_rules(&rules, Os::Linux));
}

// The computed game directory is identical across the game-phase,
// JVM-phase and legacy resolution paths, with and without an instance.
#[test]
fn game_directory_agrees_across_resolvers() {
    let launcher = GameLauncher::new();
    let version = bare_version("1.20.1");
    let a = auth();
    let d = dir();
    let inst = instance(None, Vec::new());
    for chosen in [None, Some(&inst)] {
        let expected = game_directory(&d, chosen);
        let via_game = launcher.resolve_argument_variables(
            "${game_directory}",
            &version,
            &a,
            &d,
            chosen,
        );
        let via_jvm = launcher.resolve_jvm_argument_variables(
            "${game_directory}",
            &version,
            &d,
            chosen,
        );
        let via_legacy = launcher
            .resolve_legacy_variable("game_directory", &a, &d, chosen)
            .unwrap();
        assert_eq!(via_game, expected);
        assert_eq!(via_jvm, expected);
        assert_eq!(via_legacy, expected);
    }
}

#[test]
fn instance_game_directory_is_under_instances() {
    let d = dir();
    let inst = instance(None, Vec::new());
    assert_eq!(
        game_directory(&d, Some(&inst)),
        "/home/player/.minecraft/instances/modded"
    );
    assert_eq!(game_directory(&d, None), "/home/player/.minecraft");
}

#[test]
fn game_resolver_substitutes_session_and_defaults() {
    let launcher = GameLauncher::new();
    let version = bare_version("1.20.1");
    let a = auth();
    let d = dir();
    assert_eq!(
        launcher.resolve_argument_variables("${auth_player_name}", &version, &a, &d, None),
        "Steve"
    );
    assert_eq!(
        launcher.resolve_argument_variables("${user_type}", &version, &a, &d, None),
        "msa"
    );
    assert_eq!(
        launcher.resolve_argument_variables("${resolution_width}x${resolution_height}", &version, &a, &d, None),
        "854x480"
    );
    assert_eq!(
        launcher.resolve_argument_variables("${quickPlayPath}", &version, &a, &d, None),
        ""
    );
    assert_eq!(
        launcher.resolve_argument_variables("${version_type}", &version, &a, &d, None),
        "release"
    );
}

#[test]
fn unresolved_placeholder_is_left_verbatim_in_modern_path() {
    let launcher = GameLauncher::new();
    let version = bare_version("1.20.1");
    let a = auth();
    let d = dir();
    assert_eq!(
        launcher.resolve_argument_variables("${mystery_value}", &version, &a, &d, None),
        "${mystery_value}"
    );
}

#[test]
fn substituted_values_are_never_rescanned() {
    let launcher = GameLauncher::new();
    let mut version = bare_version("1.20.1");
    // A version id that is itself placeholder text must come through
    // literally: the scan continues after an emitted value.
    version.id = "${user_type}".to_string();
    let a = auth();
    let d = dir();
    assert_eq!(
        launcher.resolve_argument_variables("${version_name}", &version, &a, &d, None),
        "${user_type}"
    );
    assert_eq!(
        launcher.resolve_jvm_argument_variables("${version_name}", &version, &d, None),
        "${user_type}"
    );
}

#[test]
fn placeholder_inside_session_value_cannot_inject_the_token() {
    let launcher = GameLauncher::new();
    let version = bare_version("1.20.1");
    let mut a = auth();
    a.profile.name = "${auth_access_token}".to_string();
    let d = dir();
    let resolved = launcher.resolve_argument_variables("${auth_player_name}", &version, &a, &d, None);
    assert_eq!(resolved, "${auth_access_token}");
    assert!(!resolved.contains(&a.access_token));
}

#[test]
fn jvm_resolver_leaves_auth_placeholders_verbatim() {
    let launcher = GameLauncher::new();
    let version = bare_version("1.20.1");
    let d = dir();
    // The JVM-phase resolver has no session input at all, so an auth
    // placeholder cannot be substituted there.
    assert_eq!(
        launcher.resolve_jvm_argument_variables("${auth_access_token}", &version, &d, None),
        "${auth_access_token}"
    );
    assert_eq!(
        launcher.resolve_jvm_argument_variables("${version_name}", &version, &d, None),
        "1.20.1"
    );
}

// Legacy resolution: the documented scenario.
#[test]
fn legacy_tokens_resolve_to_session_values() {
    let launcher = GameLauncher::new();
    let a = auth();
    let d = dir();
    let parsed = launcher
        .parse_legacy_arguments("--username ${auth_player_name} --uuid ${auth_uuid}", &a, &d, None)
        .unwrap();
    assert_eq!(parsed, vec!["--username", "Steve", "--uuid", "abc-123"]);
}

#[test]
fn legacy_launch_appends_essential_arguments() {
    let launcher = GameLauncher::new();
    let mut version = bare_version("1.7.10");
    version.minecraft_arguments =
        Some("--username ${auth_player_name} --uuid ${auth_uuid}".to_string());
    let a = auth();
    let d = dir();
    let mut args: Vec<String> = Vec::new();
    launcher
        .add_game_arguments(&mut args, &version, &a, &d, None, Os::Linux)
        .unwrap();
    let expected_suffix = vec![
        "--username",
        "Steve",
        "--uuid",
        "abc-123",
        "--accessToken",
        "bearer-token-0123456789",
        "--userType",
        "msa",
        "--gameDir",
        "/home/player/.minecraft",
    ];
    assert_eq!(
        args,
        [
            vec!["--username", "Steve", "--uuid", "abc-123"],
            expected_suffix
        ]
        .concat()
    );
}

#[test]
fn unknown_legacy_placeholder_is_fatal() {
    let launcher = GameLauncher::new();
    let a = auth();
    let d = dir();
    let err = launcher
        .parse_legacy_arguments("--demo ${not_a_real_var}", &a, &d, None)
        .unwrap_err();
    assert_eq!(
        err,
        LaunchError::UnknownLegacyVariable { name: "not_a_real_var".to_string() }
    );
}

#[test]
fn unknown_legacy_placeholder_fails_the_whole_launch() {
    let launcher = GameLauncher::new();
    let mut version = bare_version("1.7.10");
    version.minecraft_arguments = Some("${not_a_real_var}".to_string());
    let a = auth();
    let d = dir();
    let mut args: Vec<String> = Vec::new();
    let err = launcher
        .add_game_arguments(&mut args, &version, &a, &d, None, Os::Linux)
        .unwrap_err();
    assert!(matches!(err, LaunchError::UnknownLegacyVariable { .. }));
    assert!(args.is_empty());
}

// `--demo` never survives, on either branch.
#[test]
fn demo_flag_dropped_from_modern_arguments() {
    let launcher = GameLauncher::new();
    let mut version = bare_version("1.20.1");
    version.arguments = Some(Arguments {
        jvm: None,
        game: Some(vec![
            ArgumentValue::Simple("--demo".to_string()),
            ArgumentValue::Simple("--version".to_string()),
            ArgumentValue::Conditional {
                rules: vec![rule(None, "allow")],
                value: ArgumentValueType::Multiple(vec![
                    "--demo".to_string(),
                    "--width".to_string(),
                ]),
            },
        ]),
    });
    let a = auth();
    let d = dir();
    let mut args: Vec<String> = Vec::new();
    launcher
        .add_game_arguments(&mut args, &version, &a, &d, None, Os::Linux)
        .unwrap();
    assert_eq!(args, vec!["--version", "--width"]);
    assert!(!args.iter().any(|t| t == "--demo"));
}

#[test]
fn demo_token_dropped_from_legacy_arguments() {
    let launcher = GameLauncher::new();
    let a = auth();
    let d = dir();
    let parsed = launcher
        .parse_legacy_arguments("--demo --username ${auth_player_name}", &a, &d, None)
        .unwrap();
    assert_eq!(parsed, vec!["--username", "Steve"]);
}

// Memory flags.
#[test]
fn instance_memory_yields_halved_minimum() {
    let inst = instance(Some(4096), Vec::new());
    let (xms, xmx) = memory_flags(Some(&inst));
    assert_eq!(xms, "-Xms2048M");
    assert_eq!(xmx, "-Xmx4096M");
}

#[test]
fn default_memory_flags_without_instance_or_setting() {
    let (xms, xmx) = memory_flags(None);
    assert_eq!(xms, "-Xms1G");
    assert_eq!(xmx, "-Xmx2G");
    let inst = instance(None, Vec::new());
    let (xms, xmx) = memory_flags(Some(&inst));
    assert_eq!(xms, "-Xms1G");
    assert_eq!(xmx, "-Xmx2G");
}

#[test]
fn jvm_arguments_start_with_memory_and_collector_block() {
    let launcher = GameLauncher::new();
    let version = bare_version("1.20.1");
    let d = dir();
    let inst = instance(Some(4096), vec!["-ea".to_string()]);
    let mut args: Vec<String> = Vec::new();
    launcher.add_jvm_arguments(&mut args, &version, &d, Some(&inst), Os::Linux);
    assert_eq!(
        &args[..8],
        &[
            "-Xms2048M",
            "-Xmx4096M",
            "-XX:+UseG1GC",
            "-XX:+UnlockExperimentalVMOptions",
            "-XX:G1NewSizePercent=20",
            "-XX:G1ReservePercent=20",
            "-XX:MaxGCPauseMillis=50",
            "-XX:G1HeapRegionSize=32M",
        ]
    );
    assert_eq!(args[8], "-ea");
    assert_eq!(
        args[9],
        "-Djava.library.path=/home/player/.minecraft/versions/1.20.1/natives"
    );
    assert_eq!(args[10], "-Dminecraft.launcher.brand=rustified");
    assert_eq!(args[11], "-Dminecraft.launcher.version=1.0.0");
    assert_eq!(args.len(), 12);
}

// The JVM-phase argument list never carries the access token.
#[test]
fn jvm_arguments_exclude_the_access_token() {
    let launcher = GameLauncher::new();
    let mut version = bare_version("1.20.1");
    version.arguments = Some(Arguments {
        jvm: Some(vec![
            ArgumentValue::Simple("-Dsome.flag=${version_name}".to_string()),
            ArgumentValue::Simple("${auth_access_token}".to_string()),
        ]),
        game: None,
    });
    let d = dir();
    let token = auth().access_token;
    let mut args: Vec<String> = Vec::new();
    launcher.add_jvm_arguments(&mut args, &version, &d, None, Os::Linux);
    assert!(!args.iter().any(|arg| arg.contains(&token)));
    // The auth placeholder itself survives verbatim instead of being
    // substituted: the JVM resolver cannot see the session.
    assert!(args.iter().any(|arg| arg == "${auth_access_token}"));
}

// Classpath construction.
#[test]
fn library_coordinate_resolves_to_repository_path() {
    assert_eq!(
        get_library_path("org.lwjgl:lwjgl:3.3.3").unwrap(),
        "org/lwjgl/lwjgl/3.3.3/lwjgl-3.3.3.jar"
    );
    assert_eq!(get_library_path("broken-coordinate"), None);
}

#[test]
fn native_only_libraries_stay_off_the_classpath() {
    let launcher = GameLauncher::new();
    let mut version = bare_version("1.20.1");
    let native_by_name = Library {
        name: "org.lwjgl:lwjgl:3.3.3:natives-linux".to_string(),
        downloads: LibraryDownloads {
            artifact: Some("https://libraries.example/lwjgl-natives.jar".to_string()),
            classifiers: None,
        },
        rules: Vec::new(),
    };
    let classifier_only = Library {
        name: "org.lwjgl:lwjgl-platform:2.9.4".to_string(),
        downloads: LibraryDownloads {
            artifact: None,
            classifiers: Some(vec!["natives-linux".to_string(), "natives-windows".to_string()]),
        },
        rules: Vec::new(),
    };
    version.libraries = vec![
        plain_library("com.example:alpha:1.0"),
        native_by_name,
        classifier_only,
    ];
    let d = dir();
    let candidates = launcher.classpath_candidates(&version, &d, Os::Linux);
    assert_eq!(
        candidates,
        vec![
            "/home/player/.minecraft/versions/1.20.1/1.20.1.jar",
            "/home/player/.minecraft/libraries/com/example/alpha/1.0/alpha-1.0.jar",
        ]
    );
}

#[test]
fn library_rules_filter_the_classpath() {
    let launcher = GameLauncher::new();
    let mut version = bare_version("1.20.1");
    let mut windows_only = plain_library("com.example:winonly:1.0");
    windows_only.rules = vec![rule(Some("windows"), "allow")];
    version.libraries = vec![windows_only];
    let d = dir();
    assert_eq!(
        launcher.classpath_candidates(&version, &d, Os::Linux).len(),
        1
    );
    assert_eq!(
        launcher.classpath_candidates(&version, &d, Os::Windows).len(),
        2
    );
}

#[test]
fn missing_primary_jar_fails_before_any_spawn() {
    let launcher = GameLauncher::new();
    let version = bare_version("1.20.1");
    let a = auth();
    let d = dir();
    let candidates = launcher.classpath_candidates(&version, &d, Os::Linux);
    let exists = vec![false; candidates.len()];
    let err = launcher
        .build_process_spec(&version, &a, &d, "/usr/bin/java", None, Os::Linux, &exists)
        .unwrap_err();
    assert_eq!(
        err,
        LaunchError::MainJarMissing {
            path: "/home/player/.minecraft/versions/1.20.1/1.20.1.jar".to_string()
        }
    );
}

#[test]
fn missing_library_jar_is_skipped_not_fatal() {
    let launcher = GameLauncher::new();
    let mut version = bare_version("1.20.1");
    version.libraries = vec![plain_library("com.example:alpha:1.0")];
    let a = auth();
    let d = dir();
    let candidates = launcher.classpath_candidates(&version, &d, Os::Linux);
    assert_eq!(candidates.len(), 2);
    let exists = vec![true, false];
    let process = launcher
        .build_process_spec(&version, &a, &d, "/usr/bin/java", None, Os::Linux, &exists)
        .unwrap();
    let cp_index = process.args.iter().position(|x| x == "-cp").unwrap();
    assert_eq!(
        process.args[cp_index + 1],
        "/home/player/.minecraft/versions/1.20.1/1.20.1.jar"
    );
}

#[test]
fn duplicate_library_appears_once_on_the_classpath() {
    let launcher = GameLauncher::new();
    let mut version = bare_version("1.20.1");
    version.libraries = vec![
        plain_library("com.example:alpha:1.0"),
        plain_library("com.example:beta:2.0"),
        plain_library("com.example:alpha:1.0"),
    ];
    let a = auth();
    let d = dir();
    let candidates = launcher.classpath_candidates(&version, &d, Os::Linux);
    // Candidates still list every resolution; the join de-duplicates.
    assert_eq!(candidates.len(), 4);
    let exists = vec![true; candidates.len()];
    let process = launcher
        .build_process_spec(&version, &a, &d, "/usr/bin/java", None, Os::Linux, &exists)
        .unwrap();
    let cp_index = process.args.iter().position(|x| x == "-cp").unwrap();
    let jar = "/home/player/.minecraft/versions/1.20.1/1.20.1.jar";
    let alpha = "/home/player/.minecraft/libraries/com/example/alpha/1.0/alpha-1.0.jar";
    let beta = "/home/player/.minecraft/libraries/com/example/beta/2.0/beta-2.0.jar";
    assert_eq!(process.args[cp_index + 1], format!("{jar}:{alpha}:{beta}"));
}

#[test]
fn classpath_joins_with_platform_separator() {
    let launcher = GameLauncher::new();
    let mut version = bare_version("1.20.1");
    version.libraries = vec![plain_library("com.example:alpha:1.0")];
    let a = auth();
    let d = dir();
    let exists = vec![true, true];
    let on_linux = launcher
        .build_process_spec(&version, &a, &d, "/usr/bin/java", None, Os::Linux, &exists)
        .unwrap();
    let on_windows = launcher
        .build_process_spec(&version, &a, &d, "java.exe", None, Os::Windows, &exists)
        .unwrap();
    let jar = "/home/player/.minecraft/versions/1.20.1/1.20.1.jar";
    let lib = "/home/player/.minecraft/libraries/com/example/alpha/1.0/alpha-1.0.jar";
    let linux_cp_index = on_linux.args.iter().position(|x| x == "-cp").unwrap();
    let windows_cp_index = on_windows.args.iter().position(|x| x == "-cp").unwrap();
    assert_eq!(on_linux.args[linux_cp_index + 1], format!("{jar}:{lib}"));
    assert_eq!(on_windows.args[windows_cp_index + 1], format!("{jar};{lib}"));
}

// Full composition.
#[test]
fn process_spec_orders_jvm_classpath_main_class_game() {
    let launcher = GameLauncher::new();
    let mut version = bare_version("1.20.1");
    version.arguments = Some(Arguments {
        jvm: None,
        game: Some(vec![ArgumentValue::Simple("--username".to_string()),
                        ArgumentValue::Simple("${auth_player_name}".to_string())]),
    });
    let a = auth();
    let d = dir();
    let inst = instance(None, Vec::new());
    let exists = vec![true];
    let process = launcher
        .build_process_spec(&version, &a, &d, "/usr/bin/java", Some(&inst), Os::Linux, &exists)
        .unwrap();
    assert_eq!(process.program, "/usr/bin/java");
    assert_eq!(process.working_dir, "/home/player/.minecraft/instances/modded");
    let cp_index = process.args.iter().position(|x| x == "-cp").unwrap();
    assert_eq!(process.args[cp_index + 2], "net.minecraft.client.main.Main");
    assert_eq!(
        &process.args[cp_index + 3..],
        &["--username".to_string(), "Steve".to_string()]
    );
}

#[test]
fn bare_manifest_launches_with_empty_game_arguments() {
    let launcher = GameLauncher::new();
    let version = bare_version("1.20.1");
    let a = auth();
    let d = dir();
    let exists = vec![true];
    let process = launcher
        .build_process_spec(&version, &a, &d, "/usr/bin/java", None, Os::Linux, &exists)
        .unwrap();
    // The main class is the final argument: nothing follows it.
    assert_eq!(process.args.last().unwrap(), "net.minecraft.client.main.Main");
}

#[test]
fn exit_status_maps_to_launch_outcome() {
    assert!(exit_outcome(true, Some(0)).is_ok());
    assert_eq!(
        exit_outcome(false, Some(1)).unwrap_err(),
        LaunchError::ExitFailure { code: Some(1) }
    );
    assert_eq!(
        exit_outcome(false, None).unwrap_err(),
        LaunchError::ExitFailure { code: None }
    );
}

// Text primitives.
#[test]
fn replacement_is_literal_and_not_rescanned() {
    assert_eq!(replace_all("a${x}b${x}", "${x}", "V"), "aVbV");
    // The substituted value is not itself rescanned for placeholders.
    assert_eq!(replace_all("${a}", "${a}", "${b}"), "${b}");
    assert_eq!(replace_all("aaa", "aa", "b"), "ba");
}

#[test]
fn whitespace_tokenisation_drops_empty_tokens() {
    assert_eq!(
        split_whitespace_tokens("  --a   b\t c \n"),
        vec!["--a", "b", "c"]
    );
    assert!(split_whitespace_tokens("   ").is_empty());
}

#[test]
fn tokenisation_splits_on_unicode_whitespace() {
    // No-break space, en space and ideographic space all separate tokens.
    assert_eq!(
        split_whitespace_tokens("--a\u{00A0}b\u{2002}c\u{3000}d"),
        vec!["--a", "b", "c", "d"]
    );
}

#[test]
fn decimal_rendering_matches_expected_digits() {
    assert_eq!(u32_to_decimal(0), "0");
    assert_eq!(u32_to_decimal(7), "7");
    assert_eq!(u32_to_decimal(2048), "2048");
    assert_eq!(u32_to_decimal(4294967295), "4294967295");
}

#[test]
fn version_kind_names_are_lower_case() {
    assert_eq!(VersionKind::Release.name(), "release");
    assert_eq!(VersionKind::Snapshot.name(), "snapshot");
    assert_eq!(VersionKind::OldBeta.name(), "oldbeta");
    assert_eq!(VersionKind::OldAlpha.name(), "oldalpha");
}

#[test]
fn os_rule_without_name_matches_everywhere() {
    let launcher = GameLauncher::new();
    let rules = vec![Rule {
        os: Some(OsRule { name: None }),
        action: "allow".to_string(),
    }];
    assert!(launcher.evaluate_rules(&rules, Os::Linux));
    assert!(launcher.evaluate_rules(&rules, Os::Other));
}

#[test]
fn empty_placeholder_name_is_unknown() {
    let launcher = GameLauncher::new();
    let a = auth();
    let d = dir();
    let err = launcher.parse_legacy_arguments("${}", &a, &d, None).unwrap_err();
    assert_eq!(err, LaunchError::UnknownLegacyVariable { name: String::new() });
}

#[test]
fn version_paths_follow_the_standard_layout() {
    let d = dir();
    assert_eq!(
        d.version_jar_path("1.20.1"),
        "/home/player/.minecraft/versions/1.20.1/1.20.1.jar"
    );
    assert_eq!(
        d.natives_dir("1.20.1"),
        "/home/player/.minecraft/versions/1.20.1/natives"
    );
    assert_eq!(d.assets_dir(), "/home/player/.minecraft/assets");
}
