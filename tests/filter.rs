use cargo_testify::{compile_patterns, filter_allows, ConfigBuilder, GlobPattern, SetupError};

fn default_patterns() -> Vec<GlobPattern> {
    let config = ConfigBuilder::new().project_dir("/project".to_string()).build().expect("valid config");
    config.patterns
}

#[test]
fn source_files_are_allowed() {
    let ps = default_patterns();
    assert!(filter_allows("/project", &ps, "/project/src/file.rs"));
    assert!(filter_allows("/project", &ps, "/project/src/a/b/c.rs"));
    assert!(filter_allows("/project", &ps, "/project/tests/it.rs"));
    assert!(filter_allows("/project", &ps, "/project/Cargo.toml"));
    assert!(filter_allows("/project", &ps, "/project/Cargo.lock"));
    assert!(filter_allows("/project", &ps, "/project/build.rs"));
}

#[test]
fn dotfiles_are_rejected() {
    let ps = default_patterns();
    assert!(!filter_allows("/project", &ps, "/project/src/.#file.rs"));
    assert!(!filter_allows("/project", &ps, "/project/src/.file.rs"));
    assert!(filter_allows("/project", &ps, "/project/src/file.rs"));
}

#[test]
fn editor_backups_are_rejected() {
    let ps = default_patterns();
    assert!(!filter_allows("/project", &ps, "/project/src/file.rs~"));
    assert!(!filter_allows("/project", &ps, "/project/src/file.txt"));
    assert!(!filter_allows("/project", &ps, "/project/target/debug/build.rs.d"));
}

#[test]
fn paths_outside_the_project_are_rejected() {
    let ps = default_patterns();
    assert!(!filter_allows("/project", &ps, "/tmp/file.rs"));
    assert!(!filter_allows("/project", &ps, "/tmp/src/file.rs"));
    assert!(!filter_allows("/project", &ps, "/projectx/src/file.rs"));
}

#[test]
fn single_star_stays_within_a_directory() {
    let ps = compile_patterns(&["*.md".to_string(), "src/*.rs".to_string()]).expect("valid");
    assert!(filter_allows("/p", &ps, "/p/README.md"));
    assert!(!filter_allows("/p", &ps, "/p/docs/README.md"));
    assert!(filter_allows("/p", &ps, "/p/src/lib.rs"));
    assert!(!filter_allows("/p", &ps, "/p/src/a/b.rs"));
}

#[test]
fn relative_paths_match_directly() {
    let ps = default_patterns();
    assert!(filter_allows("/project", &ps, "src/lib.rs"));
}

#[test]
fn filter_is_deterministic() {
    let ps = default_patterns();
    for path in ["/project/src/a.rs", "/project/src/.#a.rs", "/tmp/a.rs", "/project/Cargo.toml"] {
        assert_eq!(filter_allows("/project", &ps, path), filter_allows("/project", &ps, path));
    }
}

#[test]
fn no_patterns_allow_nothing() {
    assert!(!filter_allows("/project", &[], "/project/src/lib.rs"));
}

#[test]
fn glob_patterns_compile_or_fail() {
    let p = GlobPattern::new("src/**/*.rs").expect("valid");
    assert_eq!(p.as_str(), "src/**/*.rs");
    assert!(GlobPattern::new("src/a**/*.rs").is_err());
    assert!(GlobPattern::new("src/***").is_err());
    assert!(GlobPattern::new("src/[abc").is_err());
}

#[test]
fn compile_patterns_keeps_order() {
    let sources = vec!["*.md".to_string(), "docs/**/*.txt".to_string()];
    let ps = compile_patterns(&sources).expect("valid");
    assert_eq!(ps.len(), 2);
    assert_eq!(ps[0].as_str(), "*.md");
    assert_eq!(ps[1].as_str(), "docs/**/*.txt");
    assert!(filter_allows("/p", &ps, "/p/README.md"));
    assert!(filter_allows("/p", &ps, "/p/docs/a/b.txt"));
    let bad = vec!["ok.rs".to_string(), "a**".to_string()];
    assert!(compile_patterns(&bad).is_err());
}

#[test]
fn builder_defaults_and_errors() {
    match ConfigBuilder::new().project_dir(String::new()).build() {
        Err(SetupError::ProjectDirEmpty) => {}
        other => panic!("unexpected: {:?}", other),
    }
    match ConfigBuilder::new().build() {
        Err(SetupError::ProjectDirMissing) => {}
        other => panic!("unexpected: {:?}", other),
    }
    match ConfigBuilder::new().include_patterns(&["src/***"]).build() {
        Err(SetupError::ProjectDirMissing) => {}
        other => panic!("unexpected: {:?}", other),
    }
    match ConfigBuilder::new().project_dir("/p".to_string()).include_patterns(&["src/***"]).build() {
        Err(SetupError::Pattern(_)) => {}
        other => panic!("unexpected: {:?}", other),
    }
    let config = ConfigBuilder::new()
        .project_dir("/p".to_string())
        .include_patterns(&["*.md", "docs/*"])
        .cargo_test_args(vec!["--lib".to_string()])
        .ignore_duration(500)
        .build()
        .expect("valid config");
    assert_eq!(config.project_dir, "/p");
    assert_eq!(config.ignore_duration_ms, 500);
    assert_eq!(config.cargo_test_args, vec!["--lib".to_string()]);
    let sources: Vec<&str> = config.patterns.iter().map(|p| p.as_str()).collect();
    assert_eq!(sources, vec!["src/**/*.rs", "tests/**/*.rs", "Cargo.toml", "Cargo.lock", "build.rs", "*.md", "docs/*"]);
}

#[test]
fn builder_default_delay() {
    let config = ConfigBuilder::new().project_dir("/p".to_string()).build().expect("valid config");
    assert_eq!(config.ignore_duration_ms, 300);
    assert_eq!(config.ignore_duration_ms, cargo_testify::DEFAULT_IGNORE_DURATION_MS);
    assert!(config.cargo_test_args.is_empty());
    assert_eq!(config.patterns.len(), 5);
}
