//! The layered search path: where templates are looked for, and in which
//! order. Highest priority comes first: the `.cmps` directories beside the
//! working directory and its ancestors, nearest first, then the user's
//! configuration directory, the user's data directory, and the directory
//! the tool was installed from.

use vstd::prelude::*;
use vstd::string::{StrSliceExecFns, StringExecFns};

verus! {

/// The path that `std::path::Path::join` makes of a base and a segment.
pub uninterp spec fn joined_path(base: Seq<char>, segment: Seq<char>) -> Seq<char>;

/// The path that `std::path::Path::parent` finds above a path, if any.
pub uninterp spec fn parent_path(path: Seq<char>) -> Option<Seq<char>>;

/// The extension that `std::path::Path::extension` finds in a path, if any.
pub uninterp spec fn extension_of(path: Seq<char>) -> Option<Seq<char>>;

/// `std::path::Path::join`: adjoins `segment` to `base` by the platform's
/// rules for paths. The contract only names the result.
#[verifier::external_body]
fn join(base: &str, segment: &str) -> (joined: String)
    ensures
        joined@ == joined_path(base@, segment@),
{
    std::path::Path::new(base).join(segment).to_string_lossy().into_owned()
}

/// `std::path::Path::parent`: the path without its final component, or
/// `None` where the path ends in a root or is empty. The contract only
/// names the result.
#[verifier::external_body]
fn parent(path: &str) -> (above: Option<String>)
    ensures
        above.deep_view() == parent_path(path@),
{
    std::path::Path::new(path).parent().map(|dir| dir.to_string_lossy().into_owned())
}

/// `std::path::Path::extension`: the part of the file name after its last
/// dot, or `None` where the name has none to offer. The contract only names
/// the result.
#[verifier::external_body]
fn file_extension(path: &str) -> (extension: Option<String>)
    ensures
        extension.deep_view() == extension_of(path@),
{
    std::path::Path::new(path).extension().map(|found| found.to_string_lossy().into_owned())
}

/// `dirs::config_dir`: the user's configuration directory, or `None` where
/// the platform names none or its name is not valid Unicode. It depends on
/// the environment, so nothing is claimed of it.
#[verifier::external_body]
fn user_config_dir() -> (dir: Option<String>) {
    dirs::config_dir().and_then(|dir| dir.into_os_string().into_string().ok())
}

/// `dirs::data_local_dir`: the user's local data directory, or `None` where
/// the platform names none or its name is not valid Unicode. It depends on
/// the environment, so nothing is claimed of it.
#[verifier::external_body]
fn user_data_dir() -> (dir: Option<String>) {
    dirs::data_local_dir().and_then(|dir| dir.into_os_string().into_string().ok())
}

/// The function that adjoins `segment` to a directory.
pub open spec fn adjoin(segment: Seq<char>) -> spec_fn(Seq<char>) -> Seq<char> {
    |dir: Seq<char>| joined_path(dir, segment)
}

/// A path followed by each of its ancestors, up to the root. A parent is
/// its path without the final component; the walk ends where no parent is
/// left, and would end at a parent that is not shorter than its path.
pub open spec fn ancestors(path: Seq<char>) -> Seq<Seq<char>>
    decreases path.len(),
{
    match parent_path(path) {
        Some(above) => if above.len() < path.len() {
            seq![path] + ancestors(above)
        } else {
            seq![path]
        },
        None => seq![path],
    }
}

/// Where a local configuration directory may be: `.cmps` in the working
/// directory and in each of its ancestors, nearest first.
pub open spec fn local_candidates(working_dir: Seq<char>) -> Seq<Seq<char>> {
    ancestors(working_dir).map_values(adjoin(".cmps"@))
}

/// Lists the paths at which a local configuration directory may be.
///
/// The walk starts at the working directory and ends at the root. Which of
/// the paths exist is for the caller to find out; see
/// [`local_config_directories`].
pub fn local_config_candidates(working_dir: &str) -> (candidates: Vec<String>)
    ensures
        candidates.deep_view() == local_candidates(working_dir@),
{
    let ghost name = adjoin(".cmps"@);
    let mut candidates: Vec<String> = Vec::new();
    let mut current: String = String::from_str(working_dir);
    assert(candidates.deep_view() + ancestors(current@).map_values(name) =~= ancestors(
        working_dir@,
    ).map_values(name));
    loop
        invariant_except_break
            name == adjoin(".cmps"@),
            candidates.deep_view() + ancestors(current@).map_values(name) == ancestors(
                working_dir@,
            ).map_values(name),
        ensures
            candidates.deep_view() == local_candidates(working_dir@),
        decreases current@.len(),
    {
        let ghost before = candidates.deep_view();
        candidates.push(join(current.as_str(), ".cmps"));
        assert(candidates.deep_view() =~= before.push(name(current@)));
        match parent(current.as_str()) {
            Some(above) => {
                if above.as_str().unicode_len() < current.as_str().unicode_len() {
                    assert(ancestors(current@).map_values(name) =~= seq![name(current@)]
                        + ancestors(above@).map_values(name));
                    assert(candidates.deep_view() + ancestors(above@).map_values(name) =~= before
                        + ancestors(current@).map_values(name));
                    current = above;
                } else {
                    assert(ancestors(current@).map_values(name) =~= seq![name(current@)]);
                    assert(candidates.deep_view() =~= before + ancestors(current@).map_values(
                        name,
                    ));
                    break ;
                }
            },
            None => {
                assert(ancestors(current@).map_values(name) =~= seq![name(current@)]);
                assert(candidates.deep_view() =~= before + ancestors(current@).map_values(name));
                break ;
            },
        }
    }
    candidates
}

/// A path at which a local configuration directory may be, and whether a
/// directory was found there.
#[derive(Clone, Debug, PartialEq, Eq)]
pub struct Sighting {
    pub path: String,
    pub present: bool,
}

/// A sighting as a mathematical value.
pub struct SightingView {
    pub path: Seq<char>,
    pub present: bool,
}

impl View for Sighting {
    type V = SightingView;

    open spec fn view(&self) -> SightingView {
        SightingView { path: self.path@, present: self.present }
    }
}

impl DeepView for Sighting {
    type V = SightingView;

    open spec fn deep_view(&self) -> SightingView {
        self.view()
    }
}

/// The predicate "a directory was found there".
pub open spec fn is_present() -> spec_fn(SightingView) -> bool {
    |sighting: SightingView| sighting.present
}

/// The projection of a sighting to its path.
pub open spec fn sighted_path() -> spec_fn(SightingView) -> Seq<char> {
    |sighting: SightingView| sighting.path
}

/// The paths at which a directory was found, in the order of the sightings.
pub open spec fn present_paths(sightings: Seq<SightingView>) -> Seq<Seq<char>> {
    sightings.filter(is_present()).map_values(sighted_path())
}

/// Keeps the local configuration directories that exist, nearest first.
pub fn local_config_directories(sightings: &Vec<Sighting>) -> (dirs: Vec<String>)
    ensures
        dirs.deep_view() == present_paths(sightings.deep_view()),
{
    let ghost all = sightings.deep_view();
    let mut dirs: Vec<String> = Vec::new();
    let mut i: usize = 0;
    assert(all.take(0) =~= Seq::<SightingView>::empty());
    while i < sightings.len()
        invariant
            i <= sightings.len(),
            all == sightings.deep_view(),
            dirs.deep_view() == present_paths(all.take(i as int)),
        decreases sightings.len() - i,
    {
        let ghost seen = all.take(i as int);
        let ghost kept = dirs.deep_view();
        proof {
            assert(all.take(i + 1) =~= seen.push(all[i as int]));
            seen.lemma_filter_push(all[i as int], is_present());
            seen.filter(is_present()).lemma_push_map_commute(sighted_path(), all[i as int]);
        }
        if sightings[i].present {
            dirs.push(sightings[i].path.clone());
            assert(dirs.deep_view() =~= kept.push(all[i as int].path));
        }
        i += 1;
    }
    assert(all.take(i as int) =~= all);
    dirs
}

/// The roots of the search path, before anything is adjoined to them.
#[derive(Clone, Debug, PartialEq, Eq)]
pub struct SearchRoots {
    /// The local configuration directories that exist, nearest first.
    pub local: Vec<String>,
    /// The user's configuration directory, where the platform names one.
    pub user_config: Option<String>,
    /// The user's data directory, where the platform names one.
    pub user_data: Option<String>,
    /// The directory the tool was installed from, with its built-in defaults.
    pub install: String,
}

/// The roots of the search path as a mathematical value.
pub struct SearchRootsView {
    pub local: Seq<Seq<char>>,
    pub user_config: Option<Seq<char>>,
    pub user_data: Option<Seq<char>>,
    pub install: Seq<char>,
}

impl View for SearchRoots {
    type V = SearchRootsView;

    open spec fn view(&self) -> SearchRootsView {
        SearchRootsView {
            local: self.local.deep_view(),
            user_config: self.user_config.deep_view(),
            user_data: self.user_data.deep_view(),
            install: self.install@,
        }
    }
}

impl SearchRoots {
    /// Completes the roots with the user's directories as the platform
    /// names them. A directory that cannot be determined is left out.
    pub fn locate(local: Vec<String>, install: String) -> (roots: SearchRoots)
        ensures
            roots@.local == local.deep_view(),
            roots@.install == install@,
    {
        SearchRoots { local, user_config: user_config_dir(), user_data: user_data_dir(), install }
    }
}

/// What a user directory adds to the search path: its `cmps` subdirectory,
/// or nothing where the directory is unknown.
pub open spec fn user_layer(dir: Option<Seq<char>>) -> Seq<Seq<char>> {
    match dir {
        Some(dir) => seq![joined_path(dir, "cmps"@)],
        None => Seq::empty(),
    }
}

/// The base directories in priority order.
pub open spec fn base_directories_of(roots: SearchRootsView) -> Seq<Seq<char>> {
    roots.local + user_layer(roots.user_config) + user_layer(roots.user_data) + seq![
        roots.install,
    ]
}

/// The template directory of each base directory, in priority order.
pub open spec fn base_paths_of(roots: SearchRootsView) -> Seq<Seq<char>> {
    base_directories_of(roots).map_values(adjoin("templates"@))
}

/// The template path of `extension` in each base directory, in priority
/// order.
pub open spec fn template_paths_of(roots: SearchRootsView, extension: Seq<char>) -> Seq<
    Seq<char>,
> {
    base_paths_of(roots).map_values(adjoin(extension))
}

/// Adjoins `segment` to each directory.
fn adjoin_each(dirs: &Vec<String>, segment: &str) -> (paths: Vec<String>)
    ensures
        paths.deep_view() == dirs.deep_view().map_values(adjoin(segment@)),
{
    let ghost all = dirs.deep_view();
    let ghost step = adjoin(segment@);
    let mut paths: Vec<String> = Vec::new();
    let mut i: usize = 0;
    while i < dirs.len()
        invariant
            i <= dirs.len(),
            all == dirs.deep_view(),
            step == adjoin(segment@),
            paths.deep_view() == all.take(i as int).map_values(step),
        decreases dirs.len() - i,
    {
        let ghost done = paths.deep_view();
        paths.push(join(dirs[i].as_str(), segment));
        assert(paths.deep_view() =~= done.push(step(all[i as int])));
        assert(all.take(i + 1).map_values(step) =~= all.take(i as int).map_values(step).push(
            step(all[i as int]),
        ));
        i += 1;
    }
    assert(all.take(i as int) =~= all);
    paths
}

/// Appends what a user directory adds to the search path.
fn push_user_layer(bases: &mut Vec<String>, dir: &Option<String>)
    ensures
        final(bases).deep_view() == old(bases).deep_view() + user_layer(dir.deep_view()),
{
    let ghost before = bases.deep_view();
    match dir {
        Some(dir) => {
            bases.push(join(dir.as_str(), "cmps"));
            assert(bases.deep_view() =~= before + seq![joined_path(dir@, "cmps"@)]);
        },
        None => {
            assert(bases.deep_view() =~= before + Seq::<Seq<char>>::empty());
        },
    }
}

/// Lists the base directories, highest priority first: the local
/// configuration directories, `cmps` in the user's configuration directory,
/// `cmps` in the user's data directory, then the install directory.
pub fn base_directories(roots: &SearchRoots) -> (bases: Vec<String>)
    ensures
        bases.deep_view() == base_directories_of(roots@),
{
    let mut bases: Vec<String> = roots.local.clone();
    assert(bases.deep_view() =~= roots@.local);
    push_user_layer(&mut bases, &roots.user_config);
    push_user_layer(&mut bases, &roots.user_data);
    let ghost before = bases.deep_view();
    bases.push(roots.install.clone());
    assert(bases.deep_view() =~= before + seq![roots@.install]);
    bases
}

/// Lists the `templates` directory of every base directory, highest
/// priority first.
pub fn base_paths(roots: &SearchRoots) -> (paths: Vec<String>)
    ensures
        paths.deep_view() == base_paths_of(roots@),
{
    let bases = base_directories(roots);
    adjoin_each(&bases, "templates")
}

/// Lists the paths at which a template for `extension` may be, highest
/// priority first.
pub fn template_paths(roots: &SearchRoots, extension: &str) -> (paths: Vec<String>)
    ensures
        paths.deep_view() == template_paths_of(roots@, extension@),
{
    let dirs = base_paths(roots);
    adjoin_each(&dirs, extension)
}

/// The extension that templates are looked up by: the one given
/// explicitly, else the one found in the file name.
pub open spec fn effective_extension(
    explicit: Option<Seq<char>>,
    in_name: Option<Seq<char>>,
) -> Option<Seq<char>> {
    match explicit {
        Some(extension) => Some(extension),
        None => in_name,
    }
}

/// Picks between an extension given explicitly and the one found in the
/// file name: the explicit one overrides.
pub fn pick_extension(explicit: Option<String>, in_name: Option<String>) -> (extension: Option<
    String,
>)
    ensures
        extension.deep_view() == effective_extension(explicit.deep_view(), in_name.deep_view()),
{
    match explicit {
        Some(extension) => Some(extension),
        None => in_name,
    }
}

/// Picks the extension to look templates up by. An extension given
/// explicitly overrides the one in the file name; a file name without
/// extension and with none given has no template.
pub fn target_extension(filename: &str, explicit: Option<String>) -> (extension: Option<String>)
    ensures
        extension.deep_view() == effective_extension(
            explicit.deep_view(),
            extension_of(filename@),
        ),
{
    pick_extension(explicit, file_extension(filename))
}

/// Template paths keep the priority order of the base directories: the
/// `i`-th template path is `templates/<extension>` in the `i`-th base
/// directory.
pub proof fn lemma_template_path_of_base(roots: SearchRootsView, extension: Seq<char>, i: int)
    requires
        0 <= i < base_directories_of(roots).len(),
    ensures
        template_paths_of(roots, extension).len() == base_directories_of(roots).len(),
        template_paths_of(roots, extension)[i] == joined_path(
            joined_path(base_directories_of(roots)[i], "templates"@),
            extension,
        ),
{
}

/// The base directories are layered: the local configuration directories
/// come first, in their own order, then what the user's directories add, and
/// the install directory is last.
pub proof fn lemma_layers_in_order(roots: SearchRootsView)
    ensures
        forall|i: int|
            0 <= i < roots.local.len() ==> base_directories_of(roots)[i] == roots.local[i],
        base_directories_of(roots).last() == roots.install,
        base_directories_of(roots).len() == roots.local.len() + user_layer(
            roots.user_config,
        ).len() + user_layer(roots.user_data).len() + 1,
{
}

} // verus!
