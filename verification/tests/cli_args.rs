use archivefs_cli::args::{extract_flag, extract_repeated_id_flags, extract_repeated_path_flags, take_flag, take_value};
use archivefs_cli::cli::{
    extract_cheat_destination_root_flag, extract_id_flag, extract_named_u64_flag, extract_path_flag,
    format_platform_and_source, parse_cli_args, parse_platform_alias_add_args, require_at_least_one_bulk_selector,
    resolve_keep_catalogue_flag, resolve_target_selector, yes_no, LibraryTargetSelector, LogLevel,
};

fn strings(items: &[&str]) -> Vec<String> {
    items.iter().map(|s| s.to_string()).collect()
}

#[test]
fn parse_cli_args_defaults_to_quiet_help() {
    let args = parse_cli_args(Vec::<String>::new());

    assert_eq!(args.log_level, LogLevel::Off);
    assert_eq!(args.command, "help");
    assert!(args.args.is_empty());
}

#[test]
fn parse_cli_args_accepts_verbose_flag() {
    let args = parse_cli_args(["-v", "scan"].into_iter().map(str::to_string).collect());

    assert_eq!(args.log_level, LogLevel::Info);
    assert_eq!(args.command, "scan");
}

#[test]
fn parse_cli_args_accepts_debug_flag_and_preserves_command_args() {
    let args = parse_cli_args(["--debug", "mount-one", "Test", "Game"].into_iter().map(str::to_string).collect());

    assert_eq!(args.log_level, LogLevel::Debug);
    assert_eq!(args.command, "mount-one");
    assert_eq!(args.args, vec!["Test".to_string(), "Game".to_string()]);
}

#[test]
fn parse_cli_args_recognizes_long_version_flag() {
    let args = parse_cli_args(["--version"].into_iter().map(str::to_string).collect());

    assert_eq!(args.command, "--version");
    assert!(args.args.is_empty());
}

#[test]
fn parse_cli_args_recognizes_short_version_flag() {
    let args = parse_cli_args(["-V"].into_iter().map(str::to_string).collect());

    assert_eq!(args.command, "-V");
    assert!(args.args.is_empty());
}

#[test]
fn parse_cli_args_still_recognizes_help_flags() {
    assert_eq!(parse_cli_args(["--help"].into_iter().map(str::to_string).collect()).command, "--help");
    assert_eq!(parse_cli_args(["-h"].into_iter().map(str::to_string).collect()).command, "-h");
}

#[test]
fn parse_cli_args_leaves_ordinary_commands_unaffected() {
    let args = parse_cli_args(["scan"].into_iter().map(str::to_string).collect());

    assert_eq!(args.command, "scan");
    assert!(args.args.is_empty());
}

#[test]
fn version_flag_trailing_extra_command_is_ignored_deterministically() {
    let args = parse_cli_args(["--version", "library-list"].into_iter().map(str::to_string).collect());

    assert_eq!(args.command, "--version");
    assert_eq!(args.args, vec!["library-list".to_string()]);
}

#[test]
fn version_flag_after_a_command_is_not_treated_as_a_global_request() {
    let args = parse_cli_args(["library-list", "--version"].into_iter().map(str::to_string).collect());

    assert_eq!(args.command, "library-list");
    assert_eq!(args.args, vec!["--version".to_string()]);
}

#[test]
fn parse_cli_args_keeps_the_most_verbose_global_flag() {
    let args = parse_cli_args(strings(&["--debug", "-v", "scan", "-v"]));
    assert_eq!(args.log_level, LogLevel::Debug);
    assert_eq!(args.command, "scan");
    assert_eq!(args.args, strings(&["-v"]));

    let only_flags = parse_cli_args(strings(&["--verbose"]));
    assert_eq!(only_flags.log_level, LogLevel::Info);
    assert_eq!(only_flags.command, "help");
}

#[test]
fn extract_repeated_id_flags_collects_every_occurrence_in_order() {
    let mut args = vec![
        "--id".to_string(),
        "1".to_string(),
        "GameCube".to_string(),
        "--id".to_string(),
        "2".to_string(),
        "--id".to_string(),
        "3".to_string(),
    ];

    let ids = extract_repeated_id_flags(&mut args).unwrap();

    assert_eq!(ids, vec![1, 2, 3]);
    assert_eq!(args, vec!["GameCube".to_string()]);
}

#[test]
fn extract_repeated_id_flags_rejects_an_invalid_value() {
    let mut args = vec!["--id".to_string(), "not-a-number".to_string()];
    assert!(extract_repeated_id_flags(&mut args).is_err());
}

#[test]
fn extract_repeated_id_flags_requires_a_value() {
    let mut args = vec!["--id".to_string()];
    assert!(extract_repeated_id_flags(&mut args).is_err());
}

#[test]
fn extract_repeated_path_flags_collects_every_occurrence_in_order() {
    let mut args = vec![
        "--path".to_string(),
        "/roms/a.zip".to_string(),
        "--path".to_string(),
        "/roms/b.zip".to_string(),
    ];

    let paths = extract_repeated_path_flags(&mut args).unwrap();

    assert_eq!(paths, vec!["/roms/a.zip".to_string(), "/roms/b.zip".to_string()]);
    assert!(args.is_empty());
}

#[test]
fn require_at_least_one_bulk_selector_rejects_an_empty_selection() {
    let error = require_at_least_one_bulk_selector("library-set-platform-bulk", &vec![], &vec![]).unwrap_err();
    assert!(error.to_string().contains("at least one --id or --path"));
}

#[test]
fn require_at_least_one_bulk_selector_accepts_an_id_alone() {
    assert!(require_at_least_one_bulk_selector("library-set-platform-bulk", &vec![1], &vec![]).is_ok());
}

#[test]
fn require_at_least_one_bulk_selector_accepts_a_path_alone() {
    assert!(require_at_least_one_bulk_selector("library-set-platform-bulk", &vec![], &vec!["/roms/a.zip".to_string()]).is_ok());
}

#[test]
fn platform_alias_add_args_parsing_requires_exactly_two_positional_args() {
    let (json, alias, platform) =
        parse_platform_alias_add_args(["gc", "GameCube"].into_iter().map(str::to_string).collect()).unwrap();
    assert!(!json);
    assert_eq!(alias, "gc");
    assert_eq!(platform, "GameCube");

    let (json, alias, platform) =
        parse_platform_alias_add_args(["--json", "gc", "GameCube"].into_iter().map(str::to_string).collect()).unwrap();
    assert!(json);
    assert_eq!(alias, "gc");
    assert_eq!(platform, "GameCube");

    assert!(parse_platform_alias_add_args(vec!["gc".to_string()]).is_err());
    assert!(parse_platform_alias_add_args(Vec::new()).is_err());
    assert!(parse_platform_alias_add_args(["gc", "GameCube", "extra"].into_iter().map(str::to_string).collect()).is_err());
}

#[test]
fn resolve_keep_catalogue_flag_requires_exactly_one_flag() {
    assert!(resolve_keep_catalogue_flag(true, false).unwrap());
    assert!(!resolve_keep_catalogue_flag(false, true).unwrap());
    assert!(resolve_keep_catalogue_flag(false, false).is_err());
    assert!(resolve_keep_catalogue_flag(true, true).is_err());
}

#[test]
fn resolve_target_selector_requires_exactly_one_selection_method() {
    assert!(matches!(
        resolve_target_selector("library-set-platform", Some(7), None, Vec::new()).unwrap(),
        LibraryTargetSelector::Id(7)
    ));
    assert!(matches!(
        resolve_target_selector("library-set-platform", None, Some("/a.zip".to_string()), Vec::new()).unwrap(),
        LibraryTargetSelector::Path(path) if path == "/a.zip"
    ));
    assert!(matches!(
        resolve_target_selector("library-set-platform", None, None, vec!["query".to_string()]).unwrap(),
        LibraryTargetSelector::Query(query) if query == "query"
    ));

    assert!(
        resolve_target_selector("library-set-platform", Some(7), Some("/a.zip".to_string()), Vec::new()).is_err(),
        "--id and --path together must be rejected"
    );
    assert!(
        resolve_target_selector("library-set-platform", None, None, Vec::new()).is_err(),
        "no selector at all must be rejected"
    );
    assert!(
        resolve_target_selector("library-set-platform", Some(7), None, vec!["extra".to_string()]).is_err(),
        "--id plus leftover query words must be rejected"
    );
}

#[test]
fn resolve_target_selector_messages() {
    assert_eq!(
        resolve_target_selector("library-set-platform", Some(7), Some("/a.zip".to_string()), Vec::new()).unwrap_err(),
        "--id and --path cannot both be given"
    );
    assert_eq!(
        resolve_target_selector("library-set-platform", Some(7), None, vec!["extra".to_string()]).unwrap_err(),
        "library-set-platform --id <id> takes no additional query arguments"
    );
}

#[test]
fn extract_id_flag_parses_removes_and_rejects_invalid_values() {
    let mut args = vec!["--id".to_string(), "42".to_string(), "GameCube".to_string()];
    assert_eq!(extract_id_flag(&mut args).unwrap(), Some(42));
    assert_eq!(args, vec!["GameCube".to_string()]);

    let mut args = vec!["GameCube".to_string()];
    assert_eq!(extract_id_flag(&mut args).unwrap(), None);

    let mut args = vec!["--id".to_string(), "not-a-number".to_string()];
    assert!(extract_id_flag(&mut args).is_err());

    let mut args = vec!["--id".to_string()];
    assert!(extract_id_flag(&mut args).is_err());
}

#[test]
fn extract_path_flag_parses_removes_and_requires_a_value() {
    let mut args = vec!["--path".to_string(), "/roms/game.zip".to_string(), "GameCube".to_string()];
    assert_eq!(extract_path_flag(&mut args).unwrap(), Some("/roms/game.zip".to_string()));
    assert_eq!(args, vec!["GameCube".to_string()]);

    let mut args = vec!["GameCube".to_string()];
    assert_eq!(extract_path_flag(&mut args).unwrap(), None);

    let mut args = vec!["--path".to_string()];
    assert!(extract_path_flag(&mut args).is_err());
}

#[test]
fn extract_path_flag_takes_the_first_occurrence() {
    let mut args = strings(&["--path", "/a", "--path", "/b"]);
    assert_eq!(extract_path_flag(&mut args).unwrap(), Some("/a".to_string()));
    assert_eq!(args, strings(&["--path", "/b"]));
    let mut args = strings(&["--cheat-destination-root", "/cheats", "x"]);
    assert_eq!(extract_cheat_destination_root_flag(&mut args).unwrap(), Some("/cheats".to_string()));
    assert_eq!(args, strings(&["x"]));
}

#[test]
fn extract_named_u64_flag_parses_and_names_a_bad_value() {
    let mut args = strings(&["--limit", "25", "rest"]);
    assert_eq!(extract_named_u64_flag(&mut args, "--limit").unwrap(), Some(25));
    assert_eq!(args, strings(&["rest"]));
    let mut args = strings(&["--limit", "many"]);
    let error = extract_named_u64_flag(&mut args, "--limit").unwrap_err();
    assert!(error.contains("--limit"), "{error}");
    assert!(error.contains("\"many\""), "{error}");
}

#[test]
fn flag_helpers_take_first_or_every_occurrence() {
    let mut args = strings(&["--json", "a", "--json"]);
    assert!(take_flag(&mut args, "--json"));
    assert_eq!(args, strings(&["a", "--json"]));

    let mut args = strings(&["--json", "a", "--json"]);
    assert!(extract_flag(&mut args, "--json"));
    assert_eq!(args, strings(&["a"]));
    assert!(!extract_flag(&mut args, "--json"));

    let mut args = strings(&["x", "--root"]);
    assert_eq!(take_value(&mut args, "--root").unwrap_err(), "--root requires a value");
    assert_eq!(args, strings(&["x", "--root"]));

    let mut args = strings(&["--root", "/r", "x", "--root", "/s"]);
    assert_eq!(take_value(&mut args, "--root").unwrap(), Some("/r".to_string()));
    assert_eq!(args, strings(&["x", "--root", "/s"]));
}

#[test]
fn small_formatting_helpers() {
    assert_eq!(yes_no(true), "yes");
    assert_eq!(yes_no(false), "no");
    assert_eq!(format_platform_and_source(Some("GameCube"), Some("manual")), "GameCube (manual)");
    assert_eq!(format_platform_and_source(Some("GameCube"), None), "Unknown");
    assert_eq!(format_platform_and_source(None, None), "Unknown");
}
