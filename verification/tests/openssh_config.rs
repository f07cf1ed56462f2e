use xfercat::openssh::{
    expand_environment_with, expand_include, is_concrete_alias, parse_directive, split_words,
    ConfigContext, DiscoveryBuilder, OpenSshDiscovery,
};

#[test]
fn lexer_preserves_quoted_values_and_strips_comments() {
    assert_eq!(
        split_words(r#"Include "config.d/team hosts/*" # comment"#),
        Ok(vec!["Include".into(), "config.d/team hosts/*".into()])
    );
    assert!(split_words(r#"Host "unterminated"#).is_err());
}

#[test]
fn directive_and_include_expansion_cover_separator_and_path_forms() {
    let mut warnings = 0;
    assert_eq!(
        parse_directive("Host =build-box", &mut warnings),
        Some(("host".into(), vec!["build-box".into()]))
    );
    assert_eq!(warnings, 0);

    let home = "/synthetic-home";
    let environment: Vec<(String, String)> = Vec::new();
    assert_eq!(
        expand_include("%d/.ssh/config.d/*", home, &environment),
        Some("/synthetic-home/.ssh/config.d/*".to_string())
    );
    assert_eq!(
        expand_include("~/.ssh/config", home, &environment),
        Some("/synthetic-home/.ssh/config".to_string())
    );
    assert!(expand_include("%h/.ssh/config", home, &environment).is_none());
    assert!(expand_include("~other-user/.ssh/config", home, &environment).is_none());
    let lookup = vec![
        ("CONFIG_ROOT".to_string(), "/synthetic-root".to_string()),
        ("TEAM".to_string(), "build".to_string()),
    ];
    assert_eq!(
        expand_environment_with("$CONFIG_ROOT/${TEAM}/config", &lookup),
        Some("/synthetic-root/build/config".into())
    );
    assert!(!is_concrete_alias("bad\u{1b}alias"));
    assert!(!is_concrete_alias(&"x".repeat(256)));
}

fn scan(builder: &mut DiscoveryBuilder, contents: &str) -> Vec<String> {
    let mut context = ConfigContext::Global;
    let mut includes = Vec::new();
    for line in contents.lines() {
        let (next, found) = builder.scan_line(context, line);
        context = next;
        includes.extend(found);
    }
    includes
}

#[test]
fn builder_keeps_only_concrete_unique_aliases_in_stable_order() {
    let mut builder = DiscoveryBuilder::new("/synthetic-home", Vec::new(), true);
    assert!(builder.begin_file("/synthetic-home/.ssh/config"));
    builder.file_read();
    let includes = scan(
        &mut builder,
        r#"
            Host * !blocked *.example ?ingle
            Host build-box archive-box
            Host=BUILD-BOX
            Host "release-box" # quoted alias
        "#,
    );
    let discovery = builder.finish();

    assert!(includes.is_empty());
    assert_eq!(discovery.aliases, ["archive-box", "build-box", "release-box"]);
    assert_eq!(discovery.files_read, 1);
    assert_eq!(discovery.warnings, 0);
}

#[test]
fn builder_hands_back_only_global_includes_and_reads_each_file_once() {
    let mut builder = DiscoveryBuilder::new("/synthetic-home", Vec::new(), true);
    assert!(builder.begin_file("/synthetic-home/.ssh/config"));
    builder.file_read();
    let includes = scan(
        &mut builder,
        "Include ~/.ssh/config.d/*\nHost main-box\n    Include ~/.ssh/conditional.conf\n",
    );
    assert_eq!(includes, ["~/.ssh/config.d/*"]);
    assert_eq!(builder.warnings, 1);
    assert_eq!(
        builder.include_pattern(&includes[0]),
        Some("/synthetic-home/.ssh/config.d/*".to_string())
    );
    assert!(!builder.begin_file("/synthetic-home/.ssh/config"));
    assert_eq!(builder.warnings, 1);
}

#[test]
fn unreadable_include_matches_are_counted_and_the_rest_sorted() {
    let mut builder = DiscoveryBuilder::new("/synthetic-home", Vec::new(), true);
    let paths = builder.include_paths(vec![
        Some("/synthetic-home/.ssh/config.d/20-release.conf".to_string()),
        None,
        Some("/synthetic-home/.ssh/config.d/10-build.conf".to_string()),
    ]);
    assert_eq!(
        paths,
        [
            "/synthetic-home/.ssh/config.d/10-build.conf",
            "/synthetic-home/.ssh/config.d/20-release.conf",
        ]
    );
    assert_eq!(builder.warnings, 1);
}

#[test]
fn missing_root_reports_an_empty_non_error_state() {
    let discovery = DiscoveryBuilder::new("/synthetic-home", Vec::new(), false).finish();
    assert!(!discovery.root_found);
    assert!(discovery.aliases.is_empty());
    assert_eq!(discovery.warnings, 0);
    assert!(discovery.status().contains("No OpenSSH user config found"));
    assert_eq!(
        OpenSshDiscovery::default().status(),
        "No OpenSSH user config found; A adds a manual profile."
    );
}

#[test]
fn discovery_status_counts_imports_and_skipped_items() {
    let discovery = OpenSshDiscovery {
        aliases: vec!["build-box".into(), "release-box".into()],
        files_read: 2,
        warnings: 3,
        root_found: true,
    };
    assert_eq!(
        discovery.status(),
        "Imported 2 OpenSSH profile(s); I refreshes the catalog. 3 config item(s) were skipped."
    );
    let profiles = discovery.profiles();
    assert_eq!(profiles.len(), 2);
    assert_eq!(profiles[1].id, "openssh:release-box");
    assert!(profiles[1].is_open_ssh());
    let empty = OpenSshDiscovery {
        aliases: Vec::new(),
        files_read: 1,
        warnings: 0,
        root_found: true,
    };
    assert_eq!(
        empty.status(),
        "No concrete OpenSSH Host aliases found; A adds a manual profile."
    );
}

#[test]
fn environment_expansion_rejects_unset_empty_and_unclosed_names() {
    let lookup = vec![("HOME".to_string(), "/h".to_string())];
    assert_eq!(expand_environment_with("a$HOME-b", &lookup), Some("a/h-b".to_string()));
    assert_eq!(expand_environment_with("plain", &lookup), Some("plain".to_string()));
    assert!(expand_environment_with("$MISSING", &lookup).is_none());
    assert!(expand_environment_with("$", &lookup).is_none());
    assert!(expand_environment_with("${}", &lookup).is_none());
    assert!(expand_environment_with("${HOME", &lookup).is_none());
    assert_eq!(expand_include("100%%", "/h", &lookup), Some("100%".to_string()));
    assert_eq!(expand_include("~", "/h", &lookup), Some("/h".to_string()));
    assert_eq!(expand_include("relative/path", "/h", &lookup), Some("relative/path".to_string()));
}

#[test]
fn lexer_handles_escapes_and_unterminated_escapes() {
    assert_eq!(split_words(r"a\ b c"), Ok(vec!["a b".to_string(), "c".to_string()]));
    assert!(split_words("trailing\\").is_err());
    assert_eq!(split_words("   # only a comment"), Ok(Vec::new()));
    let mut warnings = 0;
    assert_eq!(parse_directive("Host \"open", &mut warnings), None);
    assert_eq!(warnings, 1);
    assert_eq!(parse_directive("", &mut warnings), None);
    assert_eq!(warnings, 1);
    assert_eq!(
        parse_directive("Include=a b", &mut warnings),
        Some(("include".into(), vec!["a".into(), "b".into()]))
    );
}

#[test]
fn files_are_the_same_when_their_paths_are_equal() {
    let mut builder = DiscoveryBuilder::new("/synthetic-home", Vec::new(), true);
    assert!(builder.begin_file("/synthetic-home/.ssh/config.d/a"));
    assert!(!builder.begin_file("/synthetic-home/.ssh/./config.d/a"));
    assert!(!builder.begin_file("/synthetic-home//.ssh/config.d/a/"));
    assert!(builder.begin_file("/synthetic-home/.ssh/config.d/b"));
    assert_eq!(builder.warnings, 0);
}

#[test]
fn unreadable_metadata_or_contents_are_warnings() {
    let mut builder = DiscoveryBuilder::new("/synthetic-home", Vec::new(), true);
    assert!(!builder.metadata_read(None));
    assert!(!builder.metadata_read(Some((false, 10))));
    assert!(!builder.metadata_read(Some((true, 1048577))));
    assert!(builder.metadata_read(Some((true, 1048576))));
    assert_eq!(builder.warnings, 3);
    builder.contents_read(false);
    assert_eq!((builder.warnings, builder.files_read), (4, 0));
    builder.contents_read(true);
    assert_eq!((builder.warnings, builder.files_read), (4, 1));
}
