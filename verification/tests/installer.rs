use maypaper::myppm::{
    clone_sparse_repo, ensure_branch, find_wallpaper, is_dirty, load_config, stale_entries, sync_wallpaper,
    validate_wallpaper_name, ConfigError, Configuration, GitStep, NameError, Wallpaper,
};

fn wallpaper(name: &str, repo: &str, subdir: Option<&str>) -> Wallpaper {
    Wallpaper { name: name.to_string(), repo: repo.to_string(), subdir: subdir.map(|s| s.to_string()) }
}

fn words(words: &[&str]) -> Vec<String> {
    words.iter().map(|w| w.to_string()).collect()
}

#[test]
fn a_plain_name_is_accepted() {
    assert_eq!(validate_wallpaper_name("Aurora Waves"), Ok(()));
    assert_eq!(validate_wallpaper_name("a.b"), Ok(()));
    assert_eq!(validate_wallpaper_name(".hidden"), Ok(()));
    assert_eq!(validate_wallpaper_name("a. .b"), Ok(()));
    assert_eq!(validate_wallpaper_name(""), Ok(()));
}

#[test]
fn a_name_with_a_separator_is_refused() {
    assert_eq!(validate_wallpaper_name("a/b"), Err(NameError::Separator));
    assert_eq!(validate_wallpaper_name("a\\b"), Err(NameError::Separator));
    assert_eq!(validate_wallpaper_name("/"), Err(NameError::Separator));
    assert_eq!(validate_wallpaper_name("../x"), Err(NameError::Separator));
}

#[test]
fn a_name_with_dot_segments_is_refused() {
    assert_eq!(validate_wallpaper_name("."), Err(NameError::DotSegments));
    assert_eq!(validate_wallpaper_name(".."), Err(NameError::DotSegments));
    assert_eq!(validate_wallpaper_name("a..b"), Err(NameError::DotSegments));
    assert_eq!(validate_wallpaper_name("..."), Err(NameError::DotSegments));
}

#[test]
fn a_good_list_is_loaded_as_it_is() {
    let config = Configuration {
        wallpapers: vec![wallpaper("a", "https://example.org/a.git", None), wallpaper("b", "r", Some("w/b"))],
    };
    assert_eq!(load_config(config.clone()), Ok(config));
    let empty = Configuration { wallpapers: Vec::new() };
    assert_eq!(load_config(empty.clone()), Ok(empty));
}

#[test]
fn the_first_bad_wallpaper_fails_the_list() {
    let list = |wallpapers: Vec<Wallpaper>| load_config(Configuration { wallpapers });
    assert_eq!(list(vec![wallpaper("", "r", None)]), Err(ConfigError::EmptyName(0)));
    assert_eq!(list(vec![wallpaper("", "", None)]), Err(ConfigError::EmptyName(0)));
    assert_eq!(
        list(vec![wallpaper("a", "r", None), wallpaper("b/c", "r", None)]),
        Err(ConfigError::UnsafeName(1, NameError::Separator))
    );
    assert_eq!(
        list(vec![wallpaper("a", "r", None), wallpaper("..", "", None)]),
        Err(ConfigError::UnsafeName(1, NameError::DotSegments))
    );
    assert_eq!(
        list(vec![wallpaper("a", "r", None), wallpaper("b", "r", None), wallpaper("c", "", None)]),
        Err(ConfigError::EmptyRepo(2))
    );
    assert_eq!(
        list(vec![wallpaper("a", "", None), wallpaper("", "r", None), wallpaper("b/c", "r", None)]),
        Err(ConfigError::EmptyRepo(0))
    );
}

#[test]
fn status_output_with_anything_in_it_is_dirty() {
    assert!(is_dirty(" M src/main.rs\n"));
    assert!(is_dirty("?? new"));
    assert!(is_dirty("\u{200b}"));
    assert!(!is_dirty(""));
    assert!(!is_dirty("\n"));
    assert!(!is_dirty(" \t\r\n"));
    assert!(!is_dirty("\u{00a0}\u{2009}\u{0085}"));
}

#[test]
fn the_branch_follows_the_default_of_the_repository() {
    assert_eq!(ensure_branch(Some("origin/main")), words(&["checkout", "-B", "mayppm", "--track", "origin/main"]));
    assert_eq!(
        ensure_branch(Some("  origin/trunk\n")),
        words(&["checkout", "-B", "mayppm", "--track", "origin/trunk"])
    );
    assert_eq!(ensure_branch(Some("")), words(&["checkout", "-B", "mayppm", "--track", ""]));
    assert_eq!(ensure_branch(None), words(&["checkout", "-B", "mayppm", "--track", "origin/master"]));
}

#[test]
fn a_wallpaper_is_installed_by_a_sparse_clone() {
    let steps = clone_sparse_repo("/w/Aurora", "https://example.org/w.git", &Some("wallpapers/aurora".to_string()));
    assert_eq!(
        steps,
        vec![
            GitStep::Clone(words(&[
                "clone",
                "--depth=1",
                "--single-branch",
                "--filter=blob:none",
                "--no-checkout",
                "https://example.org/w.git",
                "/w/Aurora",
            ])),
            GitStep::Run(words(&["sparse-checkout", "init", "--cone"])),
            GitStep::Run(words(&["sparse-checkout", "set", "wallpapers/aurora"])),
            GitStep::Run(words(&["checkout", "-f"])),
            GitStep::Branch(words(&["symbolic-ref", "--quiet", "--short", "refs/remotes/origin/HEAD"])),
        ]
    );
}

#[test]
fn a_whole_repository_is_not_narrowed_to_a_folder() {
    let steps = clone_sparse_repo("d", "r", &None);
    assert_eq!(
        steps,
        vec![
            GitStep::Clone(words(&[
                "clone",
                "--depth=1",
                "--single-branch",
                "--filter=blob:none",
                "--no-checkout",
                "r",
                "d",
            ])),
            GitStep::Run(words(&["sparse-checkout", "init", "--cone"])),
            GitStep::Run(words(&["checkout", "-f"])),
            GitStep::Branch(words(&["symbolic-ref", "--quiet", "--short", "refs/remotes/origin/HEAD"])),
        ]
    );
}

#[test]
fn a_missing_wallpaper_is_installed() {
    let w = wallpaper("Aurora", "https://example.org/w.git", Some("wallpapers/aurora"));
    assert_eq!(
        sync_wallpaper(false, "/w/Aurora", &w),
        clone_sparse_repo("/w/Aurora", "https://example.org/w.git", &Some("wallpapers/aurora".to_string()))
    );
}

#[test]
fn an_installed_wallpaper_is_updated() {
    let w = wallpaper("Aurora", "https://example.org/w.git", Some("wallpapers/aurora"));
    assert_eq!(
        sync_wallpaper(true, "/w/Aurora", &w),
        vec![
            GitStep::Run(words(&["sparse-checkout", "init", "--cone"])),
            GitStep::Run(words(&["sparse-checkout", "set", "wallpapers/aurora"])),
            GitStep::Status(words(&["status", "--porcelain"])),
            GitStep::Branch(words(&["symbolic-ref", "--quiet", "--short", "refs/remotes/origin/HEAD"])),
            GitStep::Run(words(&["pull", "--ff-only"])),
        ]
    );
    assert_eq!(
        sync_wallpaper(true, "/w/Aurora", &wallpaper("Aurora", "r", None)),
        vec![
            GitStep::Run(words(&["sparse-checkout", "init", "--cone"])),
            GitStep::Status(words(&["status", "--porcelain"])),
            GitStep::Branch(words(&["symbolic-ref", "--quiet", "--short", "refs/remotes/origin/HEAD"])),
            GitStep::Run(words(&["pull", "--ff-only"])),
        ]
    );
}

#[test]
fn a_wallpaper_is_found_by_its_name() {
    let config = Configuration {
        wallpapers: vec![wallpaper("a", "r", None), wallpaper("b", "r", None), wallpaper("a", "s", None)],
    };
    assert_eq!(find_wallpaper(&config, "a"), Some(0));
    assert_eq!(find_wallpaper(&config, "b"), Some(1));
    assert_eq!(find_wallpaper(&config, "c"), None);
    assert_eq!(find_wallpaper(&config, "A"), None);
    assert_eq!(find_wallpaper(&Configuration { wallpapers: Vec::new() }, "a"), None);
}

#[test]
fn entries_that_the_list_does_not_name_are_stale() {
    let config = Configuration { wallpapers: vec![wallpaper("a", "r", None), wallpaper("b", "r", None)] };
    let entries = words(&["b", "old", "a", ".git", "old", "A"]);
    assert_eq!(stale_entries(&config, &entries), words(&["old", ".git", "old", "A"]));
    assert_eq!(stale_entries(&config, &words(&["a", "b"])), Vec::<String>::new());
    assert_eq!(stale_entries(&config, &Vec::new()), Vec::<String>::new());
    assert_eq!(stale_entries(&Configuration { wallpapers: Vec::new() }, &words(&["x"])), words(&["x"]));
}
