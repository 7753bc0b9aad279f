//! Where the bundled resources lie.
//!
//! Packaging may leave the resources in the directory the application is
//! given, relocate them below `_up_/resources`, or, when the application runs
//! from a build tree, leave them in a `resources` directory three levels up.
//! The locator takes the first of these places that holds everything the
//! native services need, and falls back on the given directory.

use crate::host::{FileSet, Request, RequestView};
use crate::paths::{
    great_grandparent, great_grandparent_of, join, join2, join3, joined2, joined3, joined_path,
};
use crate::platform::Platform;
use vstd::prelude::*;

verus! {

/// The paths of the resources below one root directory. None of them is
/// known to exist: each consumer checks the files it needs when it needs them.
#[derive(Clone, Debug, PartialEq, Eq)]
pub struct ResourceLayout {
    pub root: String,
    pub phoenixd_binary: String,
    pub backend_dir: String,
    pub backend_entry: String,
    pub frontend_dir: String,
    pub frontend_entry: String,
    pub node_binary: String,
    pub template_db: String,
    pub compose_file: String,
}

/// The mathematical content of a [`ResourceLayout`].
pub struct ResourceLayoutView {
    pub root: Seq<char>,
    pub phoenixd_binary: Seq<char>,
    pub backend_dir: Seq<char>,
    pub backend_entry: Seq<char>,
    pub frontend_dir: Seq<char>,
    pub frontend_entry: Seq<char>,
    pub node_binary: Seq<char>,
    pub template_db: Seq<char>,
    pub compose_file: Seq<char>,
}

impl View for ResourceLayout {
    type V = ResourceLayoutView;

    open spec fn view(&self) -> ResourceLayoutView {
        ResourceLayoutView {
            root: self.root@,
            phoenixd_binary: self.phoenixd_binary@,
            backend_dir: self.backend_dir@,
            backend_entry: self.backend_entry@,
            frontend_dir: self.frontend_dir@,
            frontend_entry: self.frontend_entry@,
            node_binary: self.node_binary@,
            template_db: self.template_db@,
            compose_file: self.compose_file@,
        }
    }
}

/// The layout below `root` on a platform.
pub open spec fn layout_at(root: Seq<char>, platform: Platform) -> ResourceLayoutView {
    ResourceLayoutView {
        root,
        phoenixd_binary: joined2(root, "binaries"@, platform.daemon_binary_name()),
        backend_dir: joined_path(root, "backend"@),
        backend_entry: joined3(root, "backend"@, "dist"@, "index.js"@),
        frontend_dir: joined_path(root, "frontend"@),
        frontend_entry: joined2(root, "frontend"@, "server.js"@),
        node_binary: if platform == Platform::Windows {
            joined2(root, "node"@, "node.exe"@)
        } else {
            joined3(root, "node"@, "bin"@, "node"@)
        },
        template_db: joined_path(root, "template.db"@),
        compose_file: joined_path(root, "docker-compose.yml"@),
    }
}

impl ResourceLayoutView {
    /// A layout is complete when the node daemon's binary and the entry
    /// points of backend and frontend exist. The runtime, the template
    /// database and the compose file may be absent.
    pub open spec fn is_complete(self, files: Set<Seq<char>>) -> bool {
        &&& files.contains(self.phoenixd_binary)
        &&& files.contains(self.backend_entry)
        &&& files.contains(self.frontend_entry)
    }

    /// The files that completeness depends on.
    pub open spec fn required_files(self) -> Seq<Seq<char>> {
        seq![self.phoenixd_binary, self.backend_entry, self.frontend_entry]
    }
}

/// The places where resources are looked for, in order of priority. The
/// third exists only for a base directory that lies three levels deep.
pub open spec fn candidate_roots(base: Seq<char>) -> Seq<Seq<char>> {
    let packaged = seq![base, joined2(base, "_up_"@, "resources"@)];
    match great_grandparent(base) {
        Some(ancestor) => packaged.push(joined_path(ancestor, "resources"@)),
        None => packaged,
    }
}

/// The first root whose layout is complete, if there is one.
pub open spec fn first_complete(
    roots: Seq<Seq<char>>,
    platform: Platform,
    files: Set<Seq<char>>,
) -> Option<Seq<char>>
    decreases roots.len(),
{
    if roots.len() == 0 {
        None
    } else if layout_at(roots[0], platform).is_complete(files) {
        Some(roots[0])
    } else {
        first_complete(roots.drop_first(), platform, files)
    }
}

/// The root that the locator settles on: the first complete candidate, or
/// the base directory itself when no candidate is complete.
pub open spec fn resolved_root(base: Seq<char>, platform: Platform, files: Set<Seq<char>>) -> Seq<
    char,
> {
    match first_complete(candidate_roots(base), platform, files) {
        Some(root) => root,
        None => base,
    }
}

/// The required files of all the roots, root by root.
pub open spec fn required_files_of(roots: Seq<Seq<char>>, platform: Platform) -> Seq<Seq<char>>
    decreases roots.len(),
{
    if roots.len() == 0 {
        Seq::empty()
    } else {
        required_files_of(roots.drop_last(), platform) + layout_at(
            roots.last(),
            platform,
        ).required_files()
    }
}

/// The request that gathers what the locator needs to know.
pub open spec fn locator_probe(base: Seq<char>, platform: Platform) -> RequestView {
    RequestView::Probe(required_files_of(candidate_roots(base), platform))
}

/// A candidate wins when it is complete and no candidate before it is.
pub proof fn lemma_first_complete_candidate_wins(
    roots: Seq<Seq<char>>,
    platform: Platform,
    files: Set<Seq<char>>,
    i: int,
)
    requires
        0 <= i < roots.len(),
        layout_at(roots[i], platform).is_complete(files),
        forall|j: int| 0 <= j < i ==> !layout_at(#[trigger] roots[j], platform).is_complete(files),
    ensures
        first_complete(roots, platform, files) == Some(roots[i]),
    decreases i,
{
    if i > 0 {
        let rest = roots.drop_first();
        assert forall|j: int| 0 <= j < i - 1 implies !layout_at(
            #[trigger] rest[j],
            platform,
        ).is_complete(files) by {
            assert(rest[j] == roots[j + 1]);
        }
        lemma_first_complete_candidate_wins(rest, platform, files, i - 1);
    }
}

/// Where no candidate is complete, none is chosen.
pub proof fn lemma_no_complete_candidate(
    roots: Seq<Seq<char>>,
    platform: Platform,
    files: Set<Seq<char>>,
)
    requires
        forall|j: int|
            0 <= j < roots.len() ==> !layout_at(#[trigger] roots[j], platform).is_complete(files),
    ensures
        first_complete(roots, platform, files) is None,
    decreases roots.len(),
{
    if roots.len() > 0 {
        let rest = roots.drop_first();
        assert forall|j: int| 0 <= j < rest.len() implies !layout_at(
            #[trigger] rest[j],
            platform,
        ).is_complete(files) by {
            assert(rest[j] == roots[j + 1]);
        }
        lemma_no_complete_candidate(rest, platform, files);
    }
}

/// The locator returns the first candidate, in the fixed order of priority,
/// whose three required files all exist.
pub proof fn lemma_resolves_to_first_complete(
    base: Seq<char>,
    platform: Platform,
    files: Set<Seq<char>>,
    i: int,
)
    requires
        0 <= i < candidate_roots(base).len(),
        layout_at(candidate_roots(base)[i], platform).is_complete(files),
        forall|j: int|
            0 <= j < i ==> !layout_at(#[trigger] candidate_roots(base)[j], platform).is_complete(
                files,
            ),
    ensures
        resolved_root(base, platform, files) == candidate_roots(base)[i],
{
    lemma_first_complete_candidate_wins(candidate_roots(base), platform, files, i);
}

/// The locator returns the base directory unchanged when no candidate is
/// complete.
pub proof fn lemma_resolves_to_base(base: Seq<char>, platform: Platform, files: Set<Seq<char>>)
    requires
        forall|j: int|
            0 <= j < candidate_roots(base).len() ==> !layout_at(
                #[trigger] candidate_roots(base)[j],
                platform,
            ).is_complete(files),
    ensures
        resolved_root(base, platform, files) == base,
{
    lemma_no_complete_candidate(candidate_roots(base), platform, files);
}

impl ResourceLayout {
    /// The layout below `root` on a platform.
    pub fn at(root: &str, platform: Platform) -> (layout: ResourceLayout)
        ensures
            layout@ == layout_at(root@, platform),
    {
        ResourceLayout {
            root: root.to_owned(),
            phoenixd_binary: join2(root, "binaries", platform.daemon_binary()),
            backend_dir: join(root, "backend"),
            backend_entry: join3(root, "backend", "dist", "index.js"),
            frontend_dir: join(root, "frontend"),
            frontend_entry: join2(root, "frontend", "server.js"),
            node_binary: if platform.is_windows() {
                join2(root, "node", "node.exe")
            } else {
                join3(root, "node", "bin", "node")
            },
            template_db: join(root, "template.db"),
            compose_file: join(root, "docker-compose.yml"),
        }
    }

    /// Whether everything the native services need exists.
    pub fn is_complete(&self, files: &FileSet) -> (b: bool)
        ensures
            b == self@.is_complete(files@),
    {
        files.contains(self.phoenixd_binary.as_str()) && files.contains(
            self.backend_entry.as_str(),
        ) && files.contains(self.frontend_entry.as_str())
    }
}

/// The places where resources are looked for, in order of priority.
pub fn candidate_dirs(base: &str) -> (roots: Vec<String>)
    ensures
        roots.deep_view() == candidate_roots(base@),
{
    let mut roots: Vec<String> = Vec::new();
    roots.push(base.to_owned());
    roots.push(join2(base, "_up_", "resources"));
    match great_grandparent_of(base) {
        Some(ancestor) => {
            roots.push(join(ancestor.as_str(), "resources"));
        },
        None => {},
    }
    roots
}

/// The request that gathers what the locator needs to know: whether the
/// required files of each candidate exist.
pub fn resource_probe(base: &str, platform: Platform) -> (request: Request)
    ensures
        request@ == locator_probe(base@, platform),
{
    let roots = candidate_dirs(base);
    let mut paths: Vec<String> = Vec::new();
    let mut i: usize = 0;
    while i < roots.len()
        invariant
            i <= roots.len(),
            paths.deep_view() == required_files_of(roots.deep_view().take(i as int), platform),
        decreases roots.len() - i,
    {
        let layout = ResourceLayout::at(roots[i].as_str(), platform);
        proof {
            assert(roots.deep_view().take(i + 1).drop_last() =~= roots.deep_view().take(i as int));
        }
        paths.push(layout.phoenixd_binary);
        paths.push(layout.backend_entry);
        paths.push(layout.frontend_entry);
        i += 1;
    }
    assert(roots.deep_view().take(i as int) =~= roots.deep_view());
    Request::Probe(paths)
}

/// The layouts of the candidates, in order of priority.
pub fn candidate_layouts(base: &str, platform: Platform) -> (layouts: Vec<ResourceLayout>)
    ensures
        layouts.len() == candidate_roots(base@).len(),
        forall|j: int|
            0 <= j < layouts.len() ==> (#[trigger] layouts[j])@ == layout_at(
                candidate_roots(base@)[j],
                platform,
            ),
{
    let roots = candidate_dirs(base);
    let mut layouts: Vec<ResourceLayout> = Vec::new();
    let mut i: usize = 0;
    while i < roots.len()
        invariant
            i <= roots.len(),
            layouts.len() == i,
            roots.deep_view() == candidate_roots(base@),
            forall|j: int|
                0 <= j < i ==> (#[trigger] layouts[j])@ == layout_at(
                    candidate_roots(base@)[j],
                    platform,
                ),
        decreases roots.len() - i,
    {
        layouts.push(ResourceLayout::at(roots[i].as_str(), platform));
        i += 1;
    }
    layouts
}

/// Finds the first layout whose required files all exist. The result is its
/// position among `layouts`; `None` says that no layout is complete.
pub fn first_complete_layout(layouts: &Vec<ResourceLayout>, files: &FileSet) -> (found: Option<
    usize,
>)
    ensures
        match found {
            Some(i) => {
                &&& i < layouts.len()
                &&& layouts[i as int]@.is_complete(files@)
                &&& forall|j: int| 0 <= j < i ==> !(#[trigger] layouts[j])@.is_complete(files@)
            },
            None => forall|j: int|
                0 <= j < layouts.len() ==> !(#[trigger] layouts[j])@.is_complete(files@),
        },
{
    let mut i: usize = 0;
    while i < layouts.len()
        invariant
            i <= layouts.len(),
            forall|j: int| 0 <= j < i ==> !(#[trigger] layouts[j])@.is_complete(files@),
        decreases layouts.len() - i,
    {
        if layouts[i].is_complete(files) {
            return Some(i);
        }
        i += 1;
    }
    None
}

/// Settles on the resource directory, given the files that exist: the first
/// candidate whose required files all exist, else `default_dir` unchanged.
/// The locator never fails.
pub fn find_resource_dir(default_dir: &str, platform: Platform, files: &FileSet) -> (dir: String)
    ensures
        dir@ == resolved_root(default_dir@, platform, files@),
{
    let layouts = candidate_layouts(default_dir, platform);
    let ghost roots = candidate_roots(default_dir@);
    match first_complete_layout(&layouts, files) {
        Some(i) => {
            proof {
                assert forall|j: int| 0 <= j < i implies !layout_at(
                    #[trigger] roots[j],
                    platform,
                ).is_complete(files@) by {
                    assert(layouts[j]@ == layout_at(roots[j], platform));
                }
                lemma_first_complete_candidate_wins(roots, platform, files@, i as int);
            }
            layouts[i].root.clone()
        },
        None => {
            proof {
                assert forall|j: int| 0 <= j < roots.len() implies !layout_at(
                    #[trigger] roots[j],
                    platform,
                ).is_complete(files@) by {
                    assert(layouts[j]@ == layout_at(roots[j], platform));
                }
                lemma_no_complete_candidate(roots, platform, files@);
            }
            default_dir.to_owned()
        },
    }
}

} // verus!
