use code_aggregator::{
    default_extensions, extension_of, is_eligible_file, is_excluded_folder, join_path,
    parse_args, run, Aggregate, ArgsError, Config, Entry, RunError, WarningKind,
};

fn s(x: &str) -> String {
    x.to_string()
}

fn file(name: &str, content: &str) -> Entry {
    Entry::File { name: s(name), content: Some(s(content)) }
}

fn unreadable(name: &str) -> Entry {
    Entry::File { name: s(name), content: None }
}

fn dir(name: &str, children: Vec<Entry>) -> Entry {
    Entry::Dir { name: s(name), children: Some(children) }
}

fn cfg(allowed: &[&str], excluded: &[&str]) -> Config {
    Config::with_extensions(
        allowed.iter().map(|x| s(x)).collect(),
        excluded.iter().map(|x| s(x)).collect(),
    )
}

fn paths(agg: &Aggregate) -> Vec<String> {
    (0..agg.file_count()).map(|i| agg.path_at(i).clone()).collect()
}

#[test]
fn scenario_a_picks_allowed_files_in_subfolders() {
    let root = dir(
        "root",
        vec![
            file("a.rs", "fn a() {}"),
            file("b.txt", "notes"),
            dir("sub", vec![file("c.py", "print(1)")]),
        ],
    );
    let report = run(&s("root"), &Some(root), &cfg(&["rs", "py"], &[])).ok().unwrap();
    assert_eq!(report.aggregate.file_count(), 2);
    assert_eq!(paths(&report.aggregate), vec![s("root/a.rs"), s("root/sub/c.py")]);
    assert_eq!(report.aggregate.content_at(1), "print(1)");
    assert_eq!(
        report.aggregate.text(),
        "root/a.rs\nfn a() {}\n\nroot/sub/c.py\nprint(1)\n\n"
    );
    assert!(report.warnings.is_empty());
}

#[test]
fn scenario_b_excluded_folder_is_skipped() {
    let root = dir(
        "root",
        vec![file("keep.go", "package main"), dir("node_modules", vec![file("dep.js", "x")])],
    );
    let report =
        run(&s("root"), &Some(root), &cfg(&["go", "js"], &["node_modules"])).ok().unwrap();
    assert_eq!(report.aggregate.file_count(), 1);
    assert_eq!(paths(&report.aggregate), vec![s("root/keep.go")]);
    assert_eq!(report.aggregate.text(), "root/keep.go\npackage main\n\n");
}

#[test]
fn scenario_c_missing_root_aborts() {
    let r = run(&s("root"), &None, &cfg(&["rs"], &[]));
    assert!(matches!(r, Err(RunError::RootInvalid)));
}

#[test]
fn unlistable_root_aborts() {
    let root = Entry::Dir { name: s("root"), children: None };
    let r = run(&s("root"), &Some(root), &cfg(&["rs"], &[]));
    assert!(matches!(r, Err(RunError::RootInvalid)));
}

#[test]
fn scenario_d_unreadable_file_is_omitted() {
    let root = dir(
        "root",
        vec![
            file("a.rs", "A"),
            unreadable("locked.rs"),
            dir("sub", vec![file("b.rs", "B")]),
        ],
    );
    let report = run(&s("root"), &Some(root), &cfg(&["rs"], &[])).ok().unwrap();
    assert_eq!(report.aggregate.file_count(), 2);
    assert_eq!(paths(&report.aggregate), vec![s("root/a.rs"), s("root/sub/b.rs")]);
    assert_eq!(report.warnings.len(), 1);
    assert_eq!(report.warnings[0].kind, WarningKind::FileRead);
    assert_eq!(report.warnings[0].path, "root/locked.rs");
}

#[test]
fn root_that_is_a_file_gives_nothing_and_a_warning() {
    let r = run(&s("main.rs"), &Some(file("main.rs", "x")), &cfg(&["rs"], &[])).ok().unwrap();
    assert_eq!(r.aggregate.file_count(), 0);
    assert_eq!(r.aggregate.text(), "");
    assert_eq!(r.warnings.len(), 1);
    assert_eq!(r.warnings[0].kind, WarningKind::DirectoryList);
    assert_eq!(r.warnings[0].path, "main.rs");
}

#[test]
fn unlistable_subfolder_and_unknown_entry_are_warnings() {
    let root = dir(
        "root",
        vec![
            Entry::Dir { name: s("locked"), children: None },
            Entry::Unknown { name: s("odd") },
            Entry::Other { name: s("link.rs") },
            file("z.rs", "Z"),
        ],
    );
    let r = run(&s("root/"), &Some(root), &cfg(&["rs"], &[])).ok().unwrap();
    assert_eq!(paths(&r.aggregate), vec![s("root/z.rs")]);
    assert_eq!(r.warnings.len(), 2);
    assert_eq!(r.warnings[0].kind, WarningKind::DirectoryList);
    assert_eq!(r.warnings[0].path, "root/locked");
    assert_eq!(r.warnings[1].kind, WarningKind::EntryType);
    assert_eq!(r.warnings[1].path, "root/odd");
}

#[test]
fn running_twice_gives_identical_output() {
    let make = || {
        dir(
            "root",
            vec![file("x.go", "X"), dir("d", vec![file("y.lua", "Y"), file("z", "Z")])],
        )
    };
    let c = Config::new(vec![]);
    let first = run(&s("p"), &Some(make()), &c).ok().unwrap();
    let second = run(&s("p"), &Some(make()), &c).ok().unwrap();
    assert_eq!(first.aggregate.text(), second.aggregate.text());
    assert_eq!(first.aggregate.file_count(), second.aggregate.file_count());
    assert_eq!(first.aggregate.file_count(), 2);
}

#[test]
fn exclusion_reaches_every_depth_by_name_only() {
    let root = dir(
        "root",
        vec![
            dir("a", vec![dir("build", vec![file("deep.rs", "d")]), file("ok.rs", "o")]),
            dir("build2", vec![file("kept.rs", "k")]),
            dir("build", vec![dir("inner", vec![file("x.rs", "x")])]),
        ],
    );
    let r = run(&s("root"), &Some(root), &cfg(&["rs"], &["build"])).ok().unwrap();
    assert_eq!(paths(&r.aggregate), vec![s("root/a/ok.rs"), s("root/build2/kept.rs")]);
}

#[test]
fn extensionless_and_unlisted_files_never_appear() {
    let root = dir(
        "root",
        vec![
            file("Makefile", "m"),
            file(".gitignore", "g"),
            file("A.RS", "upper"),
            file("notes.md", "n"),
            file("lib.rs", "l"),
        ],
    );
    let r = run(&s("root"), &Some(root), &cfg(&["rs", "gitignore"], &[])).ok().unwrap();
    assert_eq!(paths(&r.aggregate), vec![s("root/lib.rs")]);
}

#[test]
fn empty_tree_gives_empty_aggregate() {
    let r = run(&s("root"), &Some(dir("root", vec![])), &Config::new(vec![])).ok().unwrap();
    assert_eq!(r.aggregate.file_count(), 0);
    assert_eq!(r.aggregate.text(), "");
    assert!(r.warnings.is_empty());
}

#[test]
fn aggregate_renders_records_in_order() {
    let mut agg = Aggregate::new();
    agg.append(s("p/one.rs"), s("1"));
    agg.append(s("p/two.rs"), s(""));
    assert_eq!(agg.file_count(), 2);
    assert_eq!(agg.text(), "p/one.rs\n1\n\np/two.rs\n\n\n");
}

#[test]
fn extension_is_text_after_last_dot() {
    assert_eq!(extension_of(&s("a.rs")), Some(s("rs")));
    assert_eq!(extension_of(&s("archive.tar.gz")), Some(s("gz")));
    assert_eq!(extension_of(&s("trailing.")), Some(s("")));
    assert_eq!(extension_of(&s("..x")), Some(s("x")));
    assert_eq!(extension_of(&s(".gitignore")), None);
    assert_eq!(extension_of(&s("Makefile")), None);
    assert_eq!(extension_of(&s("")), None);
}

#[test]
fn eligibility_is_exact_and_case_sensitive() {
    let allowed = vec![s("rs"), s("py")];
    assert!(is_eligible_file(&Some(s("rs")), &allowed));
    assert!(!is_eligible_file(&Some(s("RS")), &allowed));
    assert!(!is_eligible_file(&Some(s("r")), &allowed));
    assert!(!is_eligible_file(&None, &allowed));
}

#[test]
fn folder_exclusion_is_exact_name_match() {
    let excluded = vec![s("node_modules"), s(".git")];
    assert!(is_excluded_folder(&s("node_modules"), &excluded));
    assert!(is_excluded_folder(&s(".git"), &excluded));
    assert!(!is_excluded_folder(&s("node_modules2"), &excluded));
    assert!(!is_excluded_folder(&s("git"), &excluded));
    assert!(!is_excluded_folder(&s("x"), &vec![]));
}

#[test]
fn default_extensions_are_the_built_in_list() {
    let expected = [
        "go", "py", "cs", "csproj", "axaml", "xaml", "rs", "lua", "js", "json", "txt", "ipynb",
    ];
    let got = default_extensions();
    assert_eq!(got.len(), expected.len());
    for (g, e) in got.iter().zip(expected.iter()) {
        assert_eq!(g, e);
    }
    let c = Config::new(vec![s("target")]);
    assert_eq!(c.allowed_extensions.len(), 12);
    assert_eq!(c.excluded_folders, vec![s("target")]);
}

#[test]
fn paths_are_joined_with_one_separator() {
    assert_eq!(join_path(&s("root"), &s("a.rs")), "root/a.rs");
    assert_eq!(join_path(&s("root/"), &s("a.rs")), "root/a.rs");
    assert_eq!(join_path(&s(""), &s("a.rs")), "a.rs");
    assert_eq!(join_path(&s("/"), &s("etc")), "/etc");
}

#[test]
fn arguments_need_a_path() {
    assert!(matches!(parse_args(&vec![s("prog")]), Err(ArgsError::MissingPath)));
    assert!(matches!(parse_args(&vec![]), Err(ArgsError::MissingPath)));
}

#[test]
fn arguments_without_exclusions() {
    let inv = parse_args(&vec![s("prog"), s("./proj")]).ok().unwrap();
    assert_eq!(inv.root, "./proj");
    assert!(inv.excluded_folders.is_empty());
}

#[test]
fn arguments_with_exclusions() {
    let args = vec![s("prog"), s("./proj"), s("--exclude"), s("target"), s("node_modules")];
    let inv = parse_args(&args).ok().unwrap();
    assert_eq!(inv.root, "./proj");
    assert_eq!(inv.excluded_folders, vec![s("target"), s("node_modules")]);
    let bare = parse_args(&vec![s("prog"), s("p"), s("--exclude")]).ok().unwrap();
    assert!(bare.excluded_folders.is_empty());
}
