//! The rules of the wallpaper installer: which wallpapers a list may name,
//! and what is asked of git to install or update one.
//!
//! A wallpaper is a folder of a git repository, checked out sparsely into a
//! folder of its own. The installer runs git; what it runs, and in which
//! order, is decided here.

use vstd::prelude::*;
use vstd::string::*;
use crate::text::{contains_dot_dot, has_char, has_dot_dot, trimmed};

verus! {

/// A wallpaper to install: the name of its folder, the repository it comes
/// from, and the folder of the repository that holds it, where it is not
/// the whole of it.
#[derive(Debug, Clone, PartialEq, Eq)]
pub struct Wallpaper {
    pub name: String,
    pub repo: String,
    pub subdir: Option<String>,
}

/// The view of [`Wallpaper`]: every text in it as the sequence of its characters.
pub struct WallpaperView {
    pub name: Seq<char>,
    pub repo: Seq<char>,
    pub subdir: Option<Seq<char>>,
}

impl View for Wallpaper {
    type V = WallpaperView;

    open spec fn view(&self) -> WallpaperView {
        WallpaperView { name: self.name@, repo: self.repo@, subdir: self.subdir.deep_view() }
    }
}

/// The list of the wallpapers to install.
#[derive(Debug, Clone, PartialEq, Eq)]
pub struct Configuration {
    pub wallpapers: Vec<Wallpaper>,
}

impl View for Configuration {
    type V = Seq<WallpaperView>;

    open spec fn view(&self) -> Seq<WallpaperView> {
        self.wallpapers@.map_values(|w: Wallpaper| w@)
    }
}

/// Why a name cannot be the name of a folder.
#[derive(Debug, Clone, Copy, PartialEq, Eq)]
pub enum NameError {
    /// It holds `/` or `\`.
    Separator,
    /// It is `.`, or holds `..`.
    DotSegments,
}

/// What is wrong with `name` as the name of a folder, if anything.
pub open spec fn name_error(name: Seq<char>) -> Option<NameError> {
    if name.contains('/') || name.contains('\\') {
        Some(NameError::Separator)
    } else if name == "."@ || name == ".."@ || has_dot_dot(name) {
        Some(NameError::DotSegments)
    } else {
        None
    }
}

/// Accepts a name that can be the name of a folder.
pub fn validate_wallpaper_name(name: &str) -> (checked: Result<(), NameError>)
    ensures
        match name_error(name@) {
            Some(e) => checked == Err::<(), NameError>(e),
            None => checked is Ok,
        },
{
    if has_char(name, '/') || has_char(name, '\\') {
        Err(NameError::Separator)
    } else if *name == *"." || *name == *".." || contains_dot_dot(name) {
        Err(NameError::DotSegments)
    } else {
        Ok(())
    }
}

/// Why a list is not accepted. Each names the place of the wallpaper in
/// the list.
#[derive(Debug, Clone, Copy, PartialEq, Eq)]
pub enum ConfigError {
    /// The wallpaper has no name.
    EmptyName(usize),
    /// The wallpaper's name cannot be the name of a folder.
    UnsafeName(usize, NameError),
    /// The wallpaper has no repository.
    EmptyRepo(usize),
}

/// What is wrong with the wallpaper at place `index`, if anything.
pub open spec fn wallpaper_error(wallpaper: WallpaperView, index: usize) -> Option<ConfigError> {
    if wallpaper.name.len() == 0 {
        Some(ConfigError::EmptyName(index))
    } else if name_error(wallpaper.name) is Some {
        Some(ConfigError::UnsafeName(index, name_error(wallpaper.name).unwrap()))
    } else if wallpaper.repo.len() == 0 {
        Some(ConfigError::EmptyRepo(index))
    } else {
        None
    }
}

/// What is wrong with the first of the first `count` wallpapers that
/// anything is wrong with.
pub open spec fn config_error(wallpapers: Seq<WallpaperView>, count: int) -> Option<ConfigError>
    decreases count,
{
    if count <= 0 {
        None
    } else {
        match config_error(wallpapers, count - 1) {
            Some(e) => Some(e),
            None => wallpaper_error(wallpapers[count - 1], (count - 1) as usize),
        }
    }
}

/// Accepts a list as it was read if every wallpaper in it has a name that
/// can be the name of a folder, and a repository.
pub fn load_config(config: Configuration) -> (loaded: Result<Configuration, ConfigError>)
    ensures
        match config_error(config@, config@.len() as int) {
            Some(e) => loaded == Err::<Configuration, ConfigError>(e),
            None => loaded == Ok::<Configuration, ConfigError>(config),
        },
{
    let mut i: usize = 0;
    while i < config.wallpapers.len()
        invariant
            i <= config.wallpapers@.len(),
            config@.len() == config.wallpapers@.len(),
            config_error(config@, i as int) is None,
        decreases config.wallpapers@.len() - i,
    {
        let wallpaper = &config.wallpapers[i];
        assert(config@[i as int] == wallpaper@);
        let found = if wallpaper.name.as_str().is_empty() {
            Some(ConfigError::EmptyName(i))
        } else {
            match validate_wallpaper_name(wallpaper.name.as_str()) {
                Err(e) => Some(ConfigError::UnsafeName(i, e)),
                Ok(_) => if wallpaper.repo.as_str().is_empty() {
                    Some(ConfigError::EmptyRepo(i))
                } else {
                    None
                },
            }
        };
        assert(found == wallpaper_error(config@[i as int], i));
        match found {
            Some(e) => {
                proof {
                    lemma_config_error_stays(config@, i + 1, config@.len() as int);
                }
                return Err(e);
            },
            None => {},
        }
        i += 1;
    }
    Ok(config)
}

proof fn lemma_config_error_stays(wallpapers: Seq<WallpaperView>, failed: int, count: int)
    requires
        0 <= failed <= count,
        config_error(wallpapers, failed) is Some,
    ensures
        config_error(wallpapers, count) == config_error(wallpapers, failed),
    decreases count - failed,
{
    if failed < count {
        lemma_config_error_stays(wallpapers, failed, count - 1);
    }
}

/// The place in the list of the first wallpaper called `name`.
pub fn find_wallpaper(config: &Configuration, name: &str) -> (found: Option<usize>)
    ensures
        match found {
            Some(i) => i < config@.len() && config@[i as int].name == name@ && forall|k: int|
                0 <= k < i ==> (#[trigger] config@[k]).name != name@,
            None => forall|k: int| 0 <= k < config@.len() ==> (#[trigger] config@[k]).name != name@,
        },
{
    let mut i: usize = 0;
    while i < config.wallpapers.len()
        invariant
            i <= config.wallpapers@.len(),
            config@.len() == config.wallpapers@.len(),
            forall|k: int| 0 <= k < i ==> (#[trigger] config@[k]).name != name@,
        decreases config.wallpapers@.len() - i,
    {
        assert(config@[i as int] == config.wallpapers@[i as int]@);
        if *config.wallpapers[i].name.as_str() == *name {
            return Some(i);
        }
        i += 1;
    }
    None
}

/// Whether the list names a wallpaper `name`.
pub open spec fn listed(wallpapers: Seq<WallpaperView>, name: Seq<char>) -> bool {
    exists|k: int| 0 <= k < wallpapers.len() && (#[trigger] wallpapers[k]).name == name
}

/// The entries of the wallpapers' folder that the list no longer names, in
/// their order: these are removed.
pub fn stale_entries(config: &Configuration, entries: &Vec<String>) -> (stale: Vec<String>)
    ensures
        stale.deep_view() == entries.deep_view().filter(|name: Seq<char>| !listed(config@, name)),
{
    let ghost unlisted = |name: Seq<char>| !listed(config@, name);
    let mut stale: Vec<String> = Vec::new();
    let mut i: usize = 0;
    assert(entries.deep_view().take(0) =~= Seq::<Seq<char>>::empty());
    assert(stale.deep_view() =~= entries.deep_view().take(0).filter(unlisted)) by {
        reveal(Seq::filter);
    }
    while i < entries.len()
        invariant
            i <= entries@.len(),
            unlisted == |name: Seq<char>| !listed(config@, name),
            stale.deep_view() == entries.deep_view().take(i as int).filter(unlisted),
        decreases entries@.len() - i,
    {
        let ghost done = entries.deep_view().take(i as int);
        let ghost next = entries.deep_view().take(i + 1);
        let ghost kept = stale.deep_view();
        assert(next.drop_last() =~= done);
        assert(next.last() == entries@[i as int]@);
        let found = find_wallpaper(config, entries[i].as_str());
        assert(found is None <==> unlisted(next.last())) by {
            if found is Some {
                assert(config@[found.unwrap() as int].name == next.last());
            }
        }
        assert(next.filter(unlisted) == if unlisted(next.last()) {
            done.filter(unlisted).push(next.last())
        } else {
            done.filter(unlisted)
        }) by {
            reveal(Seq::filter);
        }
        if found.is_none() {
            stale.push(entries[i].clone());
            assert(stale.deep_view() =~= kept.push(entries@[i as int]@));
        }
        i += 1;
    }
    assert(entries.deep_view().take(i as int) =~= entries.deep_view());
    stale
}

/// One thing that is asked of git. The words are what follows `git` on the
/// command line.
#[derive(Debug, Clone, PartialEq, Eq)]
pub enum GitStep {
    /// Run where the installer runs. It has to succeed.
    Clone(Vec<String>),
    /// Run in the wallpaper's folder. It has to succeed.
    Run(Vec<String>),
    /// Run in the wallpaper's folder, and its output read; it has to
    /// succeed. Where [`is_dirty`] finds local changes in the output, the
    /// wallpaper is left as it is and the steps that follow are not taken.
    Status(Vec<String>),
    /// Run in the wallpaper's folder, and its output read; it may fail.
    /// What [`ensure_branch`] makes of the output is run next, in the same
    /// folder, and has to succeed.
    Branch(Vec<String>),
}

/// The view of [`GitStep`]: every text in it as the sequence of its characters.
pub enum GitStepView {
    Clone(Seq<Seq<char>>),
    Run(Seq<Seq<char>>),
    Status(Seq<Seq<char>>),
    Branch(Seq<Seq<char>>),
}

impl View for GitStep {
    type V = GitStepView;

    open spec fn view(&self) -> GitStepView {
        match *self {
            GitStep::Clone(words) => GitStepView::Clone(words.deep_view()),
            GitStep::Run(words) => GitStepView::Run(words.deep_view()),
            GitStep::Status(words) => GitStepView::Status(words.deep_view()),
            GitStep::Branch(words) => GitStepView::Branch(words.deep_view()),
        }
    }
}

/// The views of `steps`, in their order.
pub open spec fn step_views(steps: Seq<GitStep>) -> Seq<GitStepView> {
    steps.map_values(|s: GitStep| s@)
}

/// Whether git reports local changes: whether the output of
/// `git status --porcelain` holds more than white space.
pub fn is_dirty(status: &str) -> (dirty: bool)
    ensures
        dirty == (trimmed(status@).len() > 0),
{
    !status.trim().is_empty()
}

/// The words that put a checkout on the branch `mayppm`, following
/// `default_remote`: the default branch of the repository as git has named
/// it, white space around it left out, or `origin/master` where git has
/// named none.
pub open spec fn branch_words(default_remote: Option<Seq<char>>) -> Seq<Seq<char>> {
    seq![
        "checkout"@,
        "-B"@,
        "mayppm"@,
        "--track"@,
        match default_remote {
            Some(name) => trimmed(name),
            None => "origin/master"@,
        },
    ]
}

/// The words that put a checkout on the installer's branch.
pub fn ensure_branch(default_remote: Option<&str>) -> (words: Vec<String>)
    ensures
        words.deep_view() == branch_words(
            match default_remote {
                Some(name) => Some(name@),
                None => None,
            },
        ),
{
    let remote = match default_remote {
        Some(name) => name.trim(),
        None => "origin/master",
    };
    let mut words: Vec<String> = Vec::new();
    words.push(String::from_str("checkout"));
    words.push(String::from_str("-B"));
    words.push(String::from_str("mayppm"));
    words.push(String::from_str("--track"));
    words.push(String::from_str(remote));
    assert(words.deep_view() =~= branch_words(
        match default_remote {
            Some(name) => Some(name@),
            None => None,
        },
    ));
    words
}

/// The words that ask git which branch is the default of the repository.
pub open spec fn default_branch_words() -> Seq<Seq<char>> {
    seq!["symbolic-ref"@, "--quiet"@, "--short"@, "refs/remotes/origin/HEAD"@]
}

/// The words that set up a sparse checkout.
pub open spec fn cone_words() -> Seq<Seq<char>> {
    seq!["sparse-checkout"@, "init"@, "--cone"@]
}

/// The steps that narrow a checkout: it is set up as a sparse one, and
/// where the wallpaper is a folder of the repository, narrowed to that.
pub open spec fn sparse_steps(subdir: Option<Seq<char>>) -> Seq<GitStepView> {
    match subdir {
        Some(dir) => seq![
            GitStepView::Run(cone_words()),
            GitStepView::Run(seq!["sparse-checkout"@, "set"@, dir]),
        ],
        None => seq![GitStepView::Run(cone_words())],
    }
}

/// The steps that install a wallpaper: a shallow clone of one branch
/// without files, narrowed, then checked out and put on the installer's
/// branch.
pub open spec fn clone_steps(
    destination: Seq<char>,
    repo_url: Seq<char>,
    subdir: Option<Seq<char>>,
) -> Seq<GitStepView> {
    seq![
        GitStepView::Clone(
            seq![
                "clone"@,
                "--depth=1"@,
                "--single-branch"@,
                "--filter=blob:none"@,
                "--no-checkout"@,
                repo_url,
                destination,
            ],
        ),
    ] + sparse_steps(subdir) + seq![
        GitStepView::Run(seq!["checkout"@, "-f"@]),
        GitStepView::Branch(default_branch_words()),
    ]
}

/// The steps that update a wallpaper: narrowed anew, and unless there are
/// local changes, put on the installer's branch and pulled, fast forward
/// only.
pub open spec fn update_steps(subdir: Option<Seq<char>>) -> Seq<GitStepView> {
    sparse_steps(subdir) + seq![
        GitStepView::Status(seq!["status"@, "--porcelain"@]),
        GitStepView::Branch(default_branch_words()),
        GitStepView::Run(seq!["pull"@, "--ff-only"@]),
    ]
}

fn default_branch_step() -> (step: GitStep)
    ensures
        step@ == GitStepView::Branch(default_branch_words()),
{
    let mut words: Vec<String> = Vec::new();
    words.push(String::from_str("symbolic-ref"));
    words.push(String::from_str("--quiet"));
    words.push(String::from_str("--short"));
    words.push(String::from_str("refs/remotes/origin/HEAD"));
    assert(words.deep_view() =~= default_branch_words());
    GitStep::Branch(words)
}

fn push_sparse_steps(steps: &mut Vec<GitStep>, subdir: &Option<String>)
    ensures
        step_views(final(steps)@) == step_views(old(steps)@) + sparse_steps(subdir.deep_view()),
{
    let ghost before = step_views(steps@);
    let mut cone: Vec<String> = Vec::new();
    cone.push(String::from_str("sparse-checkout"));
    cone.push(String::from_str("init"));
    cone.push(String::from_str("--cone"));
    assert(cone.deep_view() =~= cone_words());
    steps.push(GitStep::Run(cone));
    match subdir {
        Some(dir) => {
            let mut set: Vec<String> = Vec::new();
            set.push(String::from_str("sparse-checkout"));
            set.push(String::from_str("set"));
            set.push(dir.clone());
            assert(set.deep_view() =~= seq!["sparse-checkout"@, "set"@, dir@]);
            steps.push(GitStep::Run(set));
        },
        None => {},
    }
    assert(step_views(steps@) =~= before + sparse_steps(subdir.deep_view()));
}

/// The steps that install a wallpaper from `repo_url` into `destination`.
pub fn clone_sparse_repo(destination: &str, repo_url: &str, subdir: &Option<String>) -> (steps: Vec<
    GitStep,
>)
    ensures
        step_views(steps@) == clone_steps(destination@, repo_url@, subdir.deep_view()),
{
    let mut clone: Vec<String> = Vec::new();
    clone.push(String::from_str("clone"));
    clone.push(String::from_str("--depth=1"));
    clone.push(String::from_str("--single-branch"));
    clone.push(String::from_str("--filter=blob:none"));
    clone.push(String::from_str("--no-checkout"));
    clone.push(String::from_str(repo_url));
    clone.push(String::from_str(destination));
    assert(clone.deep_view() =~= seq![
        "clone"@,
        "--depth=1"@,
        "--single-branch"@,
        "--filter=blob:none"@,
        "--no-checkout"@,
        repo_url@,
        destination@,
    ]);
    let mut steps: Vec<GitStep> = Vec::new();
    steps.push(GitStep::Clone(clone));
    let ghost first = step_views(steps@);
    assert(first =~= seq![steps@[0]@]);
    push_sparse_steps(&mut steps, subdir);
    let ghost narrowed = step_views(steps@);
    let mut checkout: Vec<String> = Vec::new();
    checkout.push(String::from_str("checkout"));
    checkout.push(String::from_str("-f"));
    assert(checkout.deep_view() =~= seq!["checkout"@, "-f"@]);
    steps.push(GitStep::Run(checkout));
    steps.push(default_branch_step());
    assert(step_views(steps@) =~= narrowed + seq![
        GitStepView::Run(seq!["checkout"@, "-f"@]),
        GitStepView::Branch(default_branch_words()),
    ]);
    steps
}

/// The steps that bring the wallpaper's folder `destination` up to date:
/// those that update it where the folder is there already, else those that
/// install it.
pub fn sync_wallpaper(installed: bool, destination: &str, wallpaper: &Wallpaper) -> (steps: Vec<
    GitStep,
>)
    ensures
        step_views(steps@) == (if installed {
            update_steps(wallpaper@.subdir)
        } else {
            clone_steps(destination@, wallpaper@.repo, wallpaper@.subdir)
        }),
{
    if !installed {
        return clone_sparse_repo(destination, wallpaper.repo.as_str(), &wallpaper.subdir);
    }
    let mut steps: Vec<GitStep> = Vec::new();
    assert(step_views(steps@) =~= Seq::<GitStepView>::empty());
    push_sparse_steps(&mut steps, &wallpaper.subdir);
    let ghost narrowed = step_views(steps@);
    let mut status: Vec<String> = Vec::new();
    status.push(String::from_str("status"));
    status.push(String::from_str("--porcelain"));
    assert(status.deep_view() =~= seq!["status"@, "--porcelain"@]);
    steps.push(GitStep::Status(status));
    steps.push(default_branch_step());
    let mut pull: Vec<String> = Vec::new();
    pull.push(String::from_str("pull"));
    pull.push(String::from_str("--ff-only"));
    assert(pull.deep_view() =~= seq!["pull"@, "--ff-only"@]);
    steps.push(GitStep::Run(pull));
    assert(step_views(steps@) =~= narrowed + seq![
        GitStepView::Status(seq!["status"@, "--porcelain"@]),
        GitStepView::Branch(default_branch_words()),
        GitStepView::Run(seq!["pull"@, "--ff-only"@]),
    ]);
    steps
}

} // verus!
