use gitkit::cli::{cli, Remove};

fn build(remove: Option<&str>) -> Option<gitkit::cli::Cli> {
    cli(
        "repo".to_string(),
        "sub/dir".to_string(),
        "target".to_string(),
        remove,
        None,
        Some("origin".to_string()),
        true,
    )
}

#[test]
fn remove_names_and_aliases() {
    assert_eq!(Remove::from_name("nothing"), Some(Remove::Nothing));
    assert_eq!(Remove::from_name("n"), Some(Remove::Nothing));
    assert_eq!(Remove::from_name("commit"), Some(Remove::Commit));
    assert_eq!(Remove::from_name("c"), Some(Remove::Commit));
    assert_eq!(Remove::from_name("prune"), Some(Remove::Prune));
    assert_eq!(Remove::from_name("p"), Some(Remove::Prune));
}

#[test]
fn remove_unknown_names() {
    assert_eq!(Remove::from_name(""), None);
    assert_eq!(Remove::from_name("Prune"), None);
    assert_eq!(Remove::from_name("pr"), None);
    assert_eq!(Remove::from_name("nothings"), None);
    assert_eq!(Remove::from_name("x"), None);
}

#[test]
fn remove_default_is_nothing() {
    assert_eq!(Remove::default(), Remove::Nothing);
}

#[test]
fn cli_without_mode_removes_nothing() {
    let c = build(None).unwrap();
    assert_eq!(c.repo, "repo");
    assert_eq!(c.path, "sub/dir");
    assert_eq!(c.target, "target");
    assert_eq!(c.remove, Remove::Nothing);
    assert_eq!(c.local, None);
    assert_eq!(c.remote, Some("origin".to_string()));
    assert!(c.keep);
}

#[test]
fn cli_with_alias() {
    assert_eq!(build(Some("p")).unwrap().remove, Remove::Prune);
    assert_eq!(build(Some("commit")).unwrap().remove, Remove::Commit);
}

#[test]
fn cli_rejects_unknown_mode() {
    assert!(build(Some("delete")).is_none());
}

#[test]
fn git_paths_use_forward_slashes() {
    let c = cli(
        "C:\\work\\repo".to_string(),
        "src\\sub".to_string(),
        "t".to_string(),
        None,
        None,
        None,
        false,
    )
    .unwrap();
    assert_eq!(c.repo_git(), "C:/work/repo");
    assert_eq!(c.path_git(), "src/sub");
    assert_eq!(build(None).unwrap().path_git(), "sub/dir");
}
