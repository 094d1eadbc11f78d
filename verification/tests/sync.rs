use readme_sync::error::{PackageError, ReadmeError};
use readme_sync::paths::{FilePath, FileSet};
use readme_sync::sync::{
    check_pkg_readme, check_readme, compare_digests, first_failure, gen_all_readme,
    gen_pkg_readme, merge_readme, CheckAction, CheckReadmeResult, GenerateAction,
    GenerateReadmeMode, Package, PackageReport, Rendered, Workspace, README_FILE,
};

fn path(parts: &[&str]) -> FilePath {
    FilePath { parts: parts.iter().map(|p| p.to_string()).collect() }
}

fn workspace(paths: &[&[&str]]) -> Workspace {
    let mut files = FileSet::new();
    for p in paths {
        files.insert(path(p));
    }
    Workspace { root: path(&["ws"]), files }
}

fn package(name: &str, readme: Option<&str>) -> Package {
    Package {
        name: name.to_string(),
        dir: path(&["ws", name]),
        documentation: None,
        readme: readme.map(|r| r.as_bytes().to_vec()),
    }
}

fn body(text: &str) -> Rendered {
    Ok(text.as_bytes().to_vec())
}

fn written(action: Result<GenerateAction, ReadmeError>) -> String {
    match action {
        Ok(GenerateAction::Write(content)) => String::from_utf8(content).unwrap(),
        other => panic!("expected a write, got {:?}", other),
    }
}

#[test]
fn check_same_content_is_up_to_date() {
    assert_eq!(check_readme(Some(b"# Title\n\nText\n"), b"# Title\n\nText\n"), CheckReadmeResult::UpToDate);
    assert_eq!(check_readme(Some(b""), b""), CheckReadmeResult::UpToDate);
}

#[test]
fn check_single_byte_difference_needs_update() {
    assert_eq!(check_readme(Some(b"# Title\n\nText\n"), b"# Title\n\nText"), CheckReadmeResult::UpdateNeeded);
    assert_eq!(check_readme(Some(b"# Title\n\nText\n"), b"# Title\n\nTexu\n"), CheckReadmeResult::UpdateNeeded);
    assert_eq!(check_readme(Some(b"a"), b""), CheckReadmeResult::UpdateNeeded);
}

#[test]
fn check_without_readme_is_missing() {
    assert_eq!(check_readme(None, b"anything"), CheckReadmeResult::Missing);
}

#[test]
fn digests_are_compared_byte_for_byte() {
    assert_eq!(compare_digests(None, &[1, 2]), CheckReadmeResult::Missing);
    assert_eq!(compare_digests(Some(&[1, 2]), &[1, 2]), CheckReadmeResult::UpToDate);
    assert_eq!(compare_digests(Some(&[1, 2]), &[1, 3]), CheckReadmeResult::UpdateNeeded);
    assert_eq!(compare_digests(Some(&[1, 2]), &[1, 2, 3]), CheckReadmeResult::UpdateNeeded);
}

#[test]
fn check_results_have_their_texts() {
    assert_eq!(CheckReadmeResult::Skipped.to_string(), "Skipped");
    assert_eq!(CheckReadmeResult::Missing.to_string(), "Missing");
    assert_eq!(CheckReadmeResult::UpdateNeeded.to_string(), "Update needed");
    assert_eq!(CheckReadmeResult::UpToDate.to_string(), "Up-to-date");
}

#[test]
fn check_results_as_success_or_failure() {
    assert!(CheckReadmeResult::UpToDate.as_result().is_ok());
    assert!(CheckReadmeResult::Skipped.as_result().is_ok());
    assert!(matches!(CheckReadmeResult::Missing.as_result(), Err(ReadmeError::Missing)));
    assert!(matches!(CheckReadmeResult::UpdateNeeded.as_result(), Err(ReadmeError::UpdateNeeded)));
    assert_eq!(CheckReadmeResult::UpdateNeeded.as_result().unwrap_err().to_string(), "Update needed");
    assert_eq!(CheckReadmeResult::Missing.as_result().unwrap_err().to_string(), "Missing");
}

#[test]
fn merge_under_append_puts_one_line_break_between() {
    let merged = merge_readme(&GenerateReadmeMode::Append, Some(b"old text"), b"new text");
    assert_eq!(merged, b"old text\nnew text".to_vec());
    let keeps_line_end = merge_readme(&GenerateReadmeMode::Append, Some(b"old\n"), b"new\n");
    assert_eq!(keeps_line_end, b"old\n\nnew\n".to_vec());
}

#[test]
fn merge_otherwise_gives_the_new_text() {
    assert_eq!(merge_readme(&GenerateReadmeMode::Overwrite, Some(b"old"), b"new"), b"new".to_vec());
    assert_eq!(merge_readme(&GenerateReadmeMode::IfMissing, None, b"new"), b"new".to_vec());
    assert_eq!(merge_readme(&GenerateReadmeMode::Append, None, b"new"), b"new".to_vec());
    assert_eq!(merge_readme(&GenerateReadmeMode::Overwrite, None, b"new"), b"new".to_vec());
}

#[test]
fn check_first_asks_for_the_sources_to_be_rendered() {
    let ws = workspace(&[&["ws", "a", "src", "lib.rs"], &["ws", "README.tpl"]]);
    match check_pkg_readme(&ws, &package("a", None), None) {
        Ok(CheckAction::Render(sources)) => {
            assert_eq!(sources.entrypoint.parts, vec!["ws", "a", "src", "lib.rs"]);
            assert_eq!(sources.template.unwrap().parts, vec!["ws", "README.tpl"]);
        }
        other => panic!("expected a request to render, got {:?}", other),
    }
}

#[test]
fn check_reports_up_to_date_for_the_relinked_candidate() {
    let ws = workspace(&[&["ws", "my-crate", "src", "lib.rs"]]);
    let readme = "See [Foo](https://docs.rs/my-crate/latest/my_crate/quux.html \"See also\")\n";
    let pkg = package("my-crate", Some(readme));
    let rendered = body("See [Foo](./quux.html \"See also\")\n");
    let r = check_pkg_readme(&ws, &pkg, Some(&rendered));
    assert!(matches!(r, Ok(CheckAction::Report(CheckReadmeResult::UpToDate))));
}

#[test]
fn check_reports_update_needed_for_a_stale_readme() {
    let ws = workspace(&[&["ws", "a", "src", "lib.rs"]]);
    let r = check_pkg_readme(&ws, &package("a", Some("old\n")), Some(&body("new\n")));
    assert!(matches!(r, Ok(CheckAction::Report(CheckReadmeResult::UpdateNeeded))));
    let unlinked = check_pkg_readme(&ws, &package("a", Some("[x](./y)")), Some(&body("[x](./y)")));
    assert!(matches!(unlinked, Ok(CheckAction::Report(CheckReadmeResult::UpdateNeeded))));
}

#[test]
fn check_reports_missing_without_readme() {
    let ws = workspace(&[&["ws", "a", "src", "main.rs"]]);
    let r = check_pkg_readme(&ws, &package("a", None), Some(&body("new\n")));
    assert!(matches!(r, Ok(CheckAction::Report(CheckReadmeResult::Missing))));
}

#[test]
fn check_without_entry_file_fails() {
    let ws = workspace(&[&["ws", "b", "src", "lib.rs"]]);
    assert!(matches!(check_pkg_readme(&ws, &package("a", Some("x")), None), Err(ReadmeError::EntrypointNotFound)));
    let rendered = body("x");
    assert!(matches!(
        check_pkg_readme(&ws, &package("a", Some("x")), Some(&rendered)),
        Err(ReadmeError::EntrypointNotFound)
    ));
}

#[test]
fn check_passes_a_render_failure_on() {
    let ws = workspace(&[&["ws", "a", "src", "lib.rs"]]);
    let failed: Rendered = Err("unclosed code block".to_string());
    match check_pkg_readme(&ws, &package("a", Some("x")), Some(&failed)) {
        Err(ReadmeError::RenderFailure(why)) => assert_eq!(why, "unclosed code block"),
        other => panic!("expected a render failure, got {:?}", other),
    }
}

#[test]
fn generate_if_missing_skips_an_existing_readme() {
    let ws = workspace(&[&["ws", "a", "src", "lib.rs"]]);
    let pkg = package("a", Some("kept as it is"));
    let first = gen_pkg_readme(&ws, &pkg, &GenerateReadmeMode::IfMissing, None);
    assert!(matches!(first, Ok(GenerateAction::Skip)));
    let rendered = body("new");
    let second = gen_pkg_readme(&ws, &pkg, &GenerateReadmeMode::IfMissing, Some(&rendered));
    assert!(matches!(second, Ok(GenerateAction::Skip)));
    assert_eq!(second.unwrap().readme_field(), Some("README.md".to_string()));
}

#[test]
fn generate_if_missing_writes_where_there_is_no_readme() {
    let ws = workspace(&[&["ws", "a", "src", "lib.rs"]]);
    let pkg = package("a", None);
    let first = gen_pkg_readme(&ws, &pkg, &GenerateReadmeMode::IfMissing, None);
    assert!(matches!(first, Ok(GenerateAction::Render(_))));
    let second = gen_pkg_readme(&ws, &pkg, &GenerateReadmeMode::IfMissing, Some(&body("# a\n")));
    assert_eq!(written(second), "# a\n");
}

#[test]
fn generate_asks_for_the_sources_to_be_rendered() {
    let ws = workspace(&[
        &["ws", "a", "src", "main.rs"],
        &["ws", "a", "README.tpl"],
        &["ws", "README.tpl"],
    ]);
    for mode in [GenerateReadmeMode::Overwrite, GenerateReadmeMode::Append] {
        match gen_pkg_readme(&ws, &package("a", Some("old")), &mode, None) {
            Ok(GenerateAction::Render(sources)) => {
                assert_eq!(sources.entrypoint.parts, vec!["ws", "a", "src", "main.rs"]);
                assert_eq!(sources.template.unwrap().parts, vec!["ws", "a", "README.tpl"]);
            }
            other => panic!("expected a request to render, got {:?}", other),
        }
    }
    let bare = workspace(&[&["ws", "a", "src", "lib.rs"]]);
    match gen_pkg_readme(&bare, &package("a", None), &GenerateReadmeMode::Overwrite, None) {
        Ok(GenerateAction::Render(sources)) => assert!(sources.template.is_none()),
        other => panic!("expected a request to render, got {:?}", other),
    }
}

#[test]
fn generate_overwrite_replaces_the_readme() {
    let ws = workspace(&[&["ws", "my-crate", "src", "lib.rs"]]);
    let pkg = package("my-crate", Some("old text"));
    let r = gen_pkg_readme(&ws, &pkg, &GenerateReadmeMode::Overwrite, Some(&body("see [Foo](./foo.html)\n")));
    assert_eq!(written(r), "see [Foo](https://docs.rs/my-crate/latest/my_crate/foo.html)\n");
}

#[test]
fn generate_append_keeps_the_prior_content_first() {
    let ws = workspace(&[&["ws", "my-crate", "src", "lib.rs"]]);
    let pkg = package("my-crate", Some("old [kept](./as_is.html)"));
    let r = gen_pkg_readme(&ws, &pkg, &GenerateReadmeMode::Append, Some(&body("new [Foo](../bar_baz/index.html)")));
    assert_eq!(written(r), "old [kept](./as_is.html)\nnew [Foo](https://docs.rs/bar-baz)");
}

#[test]
fn generate_append_without_readme_writes_the_new_text() {
    let ws = workspace(&[&["ws", "a", "src", "lib.rs"]]);
    let r = gen_pkg_readme(&ws, &package("a", None), &GenerateReadmeMode::Append, Some(&body("new")));
    assert_eq!(written(r), "new");
}

#[test]
fn generate_uses_the_declared_documentation_host() {
    let ws = workspace(&[&["ws", "a", "src", "lib.rs"]]);
    let mut pkg = package("a", None);
    pkg.documentation = Some("https://docs.example.org/".to_string());
    let r = gen_pkg_readme(&ws, &pkg, &GenerateReadmeMode::Overwrite, Some(&body("[x](./y.html)")));
    assert_eq!(written(r), "[x](https://docs.example.org/a/latest/a/y.html)");
}

#[test]
fn generate_without_entry_file_fails_in_every_mode() {
    let ws = workspace(&[&["ws", "a", "README.tpl"]]);
    let rendered = body("x");
    for mode in [GenerateReadmeMode::IfMissing, GenerateReadmeMode::Overwrite, GenerateReadmeMode::Append] {
        for pkg in [package("a", None), package("a", Some("old"))] {
            assert!(matches!(gen_pkg_readme(&ws, &pkg, &mode, None), Err(ReadmeError::EntrypointNotFound)));
            assert!(matches!(
                gen_pkg_readme(&ws, &pkg, &mode, Some(&rendered)),
                Err(ReadmeError::EntrypointNotFound)
            ));
        }
    }
}

#[test]
fn generate_passes_a_render_failure_on() {
    let ws = workspace(&[&["ws", "a", "src", "lib.rs"]]);
    let failed: Rendered = Err("bad template".to_string());
    match gen_pkg_readme(&ws, &package("a", Some("old")), &GenerateReadmeMode::Overwrite, Some(&failed)) {
        Err(ReadmeError::RenderFailure(why)) => assert_eq!(why, "bad template"),
        other => panic!("expected a render failure, got {:?}", other),
    }
}

#[test]
fn actions_say_what_the_manifest_field_becomes() {
    assert_eq!(README_FILE, "README.md");
    assert_eq!(GenerateAction::Skip.readme_field(), Some("README.md".to_string()));
    assert_eq!(GenerateAction::Write(vec![1]).readme_field(), Some("README.md".to_string()));
    let ws = workspace(&[&["ws", "a", "src", "lib.rs"]]);
    let render = gen_pkg_readme(&ws, &package("a", None), &GenerateReadmeMode::Overwrite, None).unwrap();
    assert_eq!(render.readme_field(), None);
}

#[test]
fn readme_is_in_the_package_directory() {
    assert_eq!(package("a", None).readme_path().parts, vec!["ws", "a", "README.md"]);
}

#[test]
fn batch_reports_each_package_in_order() {
    let ws = workspace(&[&["ws", "a", "src", "lib.rs"], &["ws", "c", "src", "main.rs"]]);
    let packages = vec![package("a", None), package("b", None), package("c", Some("old"))];
    let first = gen_all_readme(&packages, &ws, &GenerateReadmeMode::Append, &vec![]);
    assert_eq!(first.len(), 3);
    assert_eq!(first[0].package, "a");
    assert_eq!(first[1].package, "b");
    assert_eq!(first[2].package, "c");
    assert!(matches!(first[0].outcome, Ok(GenerateAction::Render(_))));
    assert!(matches!(
        first[1].outcome,
        Err(PackageError { error: ReadmeError::EntrypointNotFound, .. })
    ));
    assert!(matches!(first[2].outcome, Ok(GenerateAction::Render(_))));

    let rendered = vec![Some(body("A")), None, Some(body("C"))];
    let second = gen_all_readme(&packages, &ws, &GenerateReadmeMode::Append, &rendered);
    assert_eq!(second.len(), 3);
    match &second[0].outcome {
        Ok(GenerateAction::Write(content)) => assert_eq!(content, b"A"),
        other => panic!("expected a write, got {:?}", other),
    }
    match &second[1].outcome {
        Err(e) => {
            assert_eq!(e.package, "b");
            assert_eq!(e.to_string(), "Failure generating Readme for b: No entrypoint found");
        }
        other => panic!("expected an error, got {:?}", other),
    }
    match &second[2].outcome {
        Ok(GenerateAction::Write(content)) => assert_eq!(content, b"old\nC"),
        other => panic!("expected a write, got {:?}", other),
    }
}

#[test]
fn batch_attributes_a_render_failure_to_its_package() {
    let ws = workspace(&[&["ws", "a", "src", "lib.rs"], &["ws", "b", "src", "lib.rs"]]);
    let packages = vec![package("a", None), package("b", None)];
    let rendered = vec![Some(Err("no docs".to_string())), Some(body("B"))];
    let reports = gen_all_readme(&packages, &ws, &GenerateReadmeMode::Overwrite, &rendered);
    match &reports[0].outcome {
        Err(e) => assert_eq!(e.to_string(), "Failure generating Readme for a: no docs"),
        other => panic!("expected an error, got {:?}", other),
    }
    assert!(matches!(reports[1].outcome, Ok(GenerateAction::Write(_))));
    let failure = first_failure(&reports).unwrap_err();
    assert_eq!(failure.package, "a");
    assert!(matches!(failure.error, ReadmeError::RenderFailure(_)));
}

#[test]
fn batch_of_no_package_reports_nothing() {
    let ws = workspace(&[]);
    let reports = gen_all_readme(&vec![], &ws, &GenerateReadmeMode::Overwrite, &vec![Some(body("x"))]);
    assert!(reports.is_empty());
    assert!(first_failure(&reports).is_ok());
}

#[test]
fn first_failure_is_the_earliest_one() {
    let ok = |name: &str| PackageReport { package: name.to_string(), outcome: Ok(GenerateAction::Skip) };
    let bad = |name: &str, error: ReadmeError| PackageReport {
        package: name.to_string(),
        outcome: Err(PackageError { package: name.to_string(), error }),
    };
    assert!(first_failure(&vec![ok("a"), ok("b")]).is_ok());
    let reports = vec![
        ok("a"),
        bad("b", ReadmeError::IoFailure("disk full".to_string())),
        bad("c", ReadmeError::EntrypointNotFound),
    ];
    let failure = first_failure(&reports).unwrap_err();
    assert_eq!(failure.package, "b");
    assert_eq!(failure.to_string(), "Failure generating Readme for b: disk full");
}

#[test]
fn a_freshly_generated_readme_is_up_to_date() {
    let ws = workspace(&[&["ws", "my-crate", "src", "lib.rs"]]);
    let rendered = body("# my-crate\n\nSee [Foo](./foo.html) and [Bar](../bar_baz/index.html \"Bar\").\n");
    let mut pkg = package("my-crate", None);
    let content = match gen_pkg_readme(&ws, &pkg, &GenerateReadmeMode::IfMissing, Some(&rendered)) {
        Ok(GenerateAction::Write(content)) => content,
        other => panic!("expected a write, got {:?}", other),
    };
    pkg.readme = Some(content);
    let checked = check_pkg_readme(&ws, &pkg, Some(&rendered));
    assert!(matches!(checked, Ok(CheckAction::Report(CheckReadmeResult::UpToDate))));
    let again = gen_pkg_readme(&ws, &pkg, &GenerateReadmeMode::IfMissing, Some(&rendered));
    assert!(matches!(again, Ok(GenerateAction::Skip)));
}

#[test]
fn check_and_generate_ask_for_the_same_sources() {
    let ws = workspace(&[&["ws", "a", "src", "lib.rs"], &["ws", "a", "src", "main.rs"], &["ws", "README.tpl"]]);
    let pkg = package("a", Some("old"));
    let for_check = match check_pkg_readme(&ws, &pkg, None) {
        Ok(CheckAction::Render(sources)) => sources,
        other => panic!("expected a request to render, got {:?}", other),
    };
    let for_generate = match gen_pkg_readme(&ws, &pkg, &GenerateReadmeMode::Overwrite, None) {
        Ok(GenerateAction::Render(sources)) => sources,
        other => panic!("expected a request to render, got {:?}", other),
    };
    assert_eq!(for_check.entrypoint.parts, for_generate.entrypoint.parts);
    assert_eq!(for_check.entrypoint.parts, vec!["ws", "a", "src", "lib.rs"]);
    assert_eq!(
        for_check.template.map(|t| t.parts),
        for_generate.template.map(|t| t.parts)
    );
}
