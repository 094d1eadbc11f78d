//! Finding the entry file of a package and the README template that
//! frames its README.

use vstd::prelude::*;
use crate::error::{ReadmeError, ReadmeErrorView};
use crate::paths::{FilePath, FileSet, PathView};

verus! {

/// The directory of a package that holds its sources.
pub const SOURCE_DIR: &'static str = "src";

/// The name of a library's entry file.
pub const LIB_FILE: &'static str = "lib.rs";

/// The name of an executable's entry file.
pub const MAIN_FILE: &'static str = "main.rs";

/// The name of a README template.
pub const TEMPLATE_FILE: &'static str = "README.tpl";

/// The library entry file of the package in `dir`.
pub open spec fn lib_entry(dir: PathView) -> PathView {
    dir.push(SOURCE_DIR@).push(LIB_FILE@)
}

/// The executable entry file of the package in `dir`.
pub open spec fn main_entry(dir: PathView) -> PathView {
    dir.push(SOURCE_DIR@).push(MAIN_FILE@)
}

/// The entry file of the package in `dir`: the library entry where it
/// exists, else the executable entry where that exists.
pub open spec fn entrypoint(dir: PathView, files: Set<PathView>) -> Option<PathView> {
    if files.contains(lib_entry(dir)) {
        Some(lib_entry(dir))
    } else if files.contains(main_entry(dir)) {
        Some(main_entry(dir))
    } else {
        None
    }
}

/// The template file of the directory `dir`.
pub open spec fn template_in(dir: PathView) -> PathView {
    dir.push(TEMPLATE_FILE@)
}

/// How many components the outermost directory has in which a template
/// for the package in `pkg` is looked for: the workspace root where the
/// package lies at or below it, the package's own directory otherwise.
pub open spec fn search_floor(root: PathView, pkg: PathView) -> int {
    if root.is_prefix_of(pkg) {
        root.len() as int
    } else {
        pkg.len() as int
    }
}

/// The first template met when going up from the first `depth` components
/// of `pkg` to its first `floor` components.
pub open spec fn nearest_template_from(
    pkg: PathView,
    files: Set<PathView>,
    depth: int,
    floor: int,
) -> Option<PathView>
    decreases depth - floor,
{
    if files.contains(template_in(pkg.take(depth))) {
        Some(template_in(pkg.take(depth)))
    } else if depth > floor {
        nearest_template_from(pkg, files, depth - 1, floor)
    } else {
        None
    }
}

/// The template for the package in `pkg`: the one in the nearest directory
/// that has one, going up from the package's directory and no further than
/// the workspace root.
pub open spec fn nearest_template(root: PathView, pkg: PathView, files: Set<PathView>) -> Option<
    PathView,
> {
    nearest_template_from(pkg, files, pkg.len() as int, search_floor(root, pkg))
}

/// The two places where an entry file may be, in the order of preference.
pub fn entrypoint_candidates(current_dir: &FilePath) -> (r: Vec<FilePath>)
    ensures
        r@.len() == 2,
        r@[0]@ == lib_entry(current_dir@),
        r@[1]@ == main_entry(current_dir@),
{
    let src = current_dir.join(SOURCE_DIR);
    let mut r: Vec<FilePath> = Vec::new();
    r.push(src.join(LIB_FILE));
    r.push(src.join(MAIN_FILE));
    r
}

/// Finds the file whose documentation comments seed the README: the
/// library entry file, or else the executable entry file.
pub fn find_entrypoint_internal(current_dir: &FilePath, files: &FileSet) -> (r: Result<
    FilePath,
    ReadmeError,
>)
    ensures
        match entrypoint(current_dir@, files@) {
            Some(p) => r matches Ok(found) && found@ == p,
            None => r matches Err(e) && e@ == ReadmeErrorView::EntrypointNotFound,
        },
{
    let src = current_dir.join(SOURCE_DIR);
    let lib_rs = src.join(LIB_FILE);
    if files.contains(&lib_rs) {
        return Ok(lib_rs);
    }
    let main_rs = src.join(MAIN_FILE);
    if files.contains(&main_rs) {
        return Ok(main_rs);
    }
    Err(ReadmeError::EntrypointNotFound)
}

/// The places where a template for the package in `pkg_path` may be,
/// nearest first: its own directory, then each directory above it up to
/// the workspace root.
pub fn template_candidates(root_path: &FilePath, pkg_path: &FilePath) -> (r: Vec<FilePath>)
    ensures
        r@.len() == pkg_path@.len() - search_floor(root_path@, pkg_path@) + 1,
        forall|k: int|
            0 <= k < r@.len() ==> (#[trigger] r@[k])@ == template_in(
                pkg_path@.take(pkg_path@.len() - k),
            ),
{
    let floor: usize = if pkg_path.starts_with(root_path) {
        root_path.len()
    } else {
        pkg_path.len()
    };
    let mut r: Vec<FilePath> = Vec::new();
    let mut depth: usize = pkg_path.len();
    loop
        invariant_except_break
            r@.len() == pkg_path@.len() - depth,
        invariant
            floor <= depth <= pkg_path@.len(),
            forall|k: int|
                0 <= k < r@.len() ==> (#[trigger] r@[k])@ == template_in(
                    pkg_path@.take(pkg_path@.len() - k),
                ),
        ensures
            r@.len() == pkg_path@.len() - floor + 1,
        decreases depth,
    {
        r.push(pkg_path.ancestor(depth).join(TEMPLATE_FILE));
        if depth == floor {
            break ;
        }
        depth -= 1;
    }
    r
}

/// Finds the template that frames the README of the package in
/// `pkg_path`: the nearest one going up from the package's directory, the
/// workspace root being the last directory looked at. That there is none
/// is no error.
pub fn find_readme_template(root_path: &FilePath, pkg_path: &FilePath, files: &FileSet) -> (r:
    Result<Option<FilePath>, ReadmeError>)
    ensures
        r is Ok,
        match nearest_template(root_path@, pkg_path@, files@) {
            Some(t) => r matches Ok(Some(found)) && found@ == t,
            None => r matches Ok(None),
        },
{
    let floor: usize = if pkg_path.starts_with(root_path) {
        root_path.len()
    } else {
        pkg_path.len()
    };
    let mut depth: usize = pkg_path.len();
    loop
        invariant
            floor == search_floor(root_path@, pkg_path@),
            floor <= depth <= pkg_path@.len(),
            nearest_template(root_path@, pkg_path@, files@) == nearest_template_from(
                pkg_path@,
                files@,
                depth as int,
                floor as int,
            ),
        decreases depth,
    {
        let tpl_path = pkg_path.ancestor(depth).join(TEMPLATE_FILE);
        if files.contains(&tpl_path) {
            return Ok(Some(tpl_path));
        }
        if depth == floor {
            return Ok(None);
        }
        depth -= 1;
    }
}

/// Where the library entry file exists it is the entry file, whether or
/// not the executable entry file exists too.
pub proof fn lemma_library_entry_preferred(dir: PathView, files: Set<PathView>)
    requires
        files.contains(lib_entry(dir)),
    ensures
        entrypoint(dir, files) == Some(lib_entry(dir)),
{
}

proof fn lemma_nearest_from(pkg: PathView, files: Set<PathView>, depth: int, floor: int)
    requires
        floor <= depth,
    ensures
        match nearest_template_from(pkg, files, depth, floor) {
            Some(t) => exists|d: int|
                {
                    &&& floor <= d <= depth
                    &&& t == #[trigger] template_in(pkg.take(d))
                    &&& files.contains(t)
                    &&& forall|e: int|
                        d < e <= depth ==> !files.contains(#[trigger] template_in(pkg.take(e)))
                },
            None => forall|d: int|
                floor <= d <= depth ==> !files.contains(#[trigger] template_in(pkg.take(d))),
        },
    decreases depth - floor,
{
    if files.contains(template_in(pkg.take(depth))) {
    } else if depth > floor {
        lemma_nearest_from(pkg, files, depth - 1, floor);
    }
}

/// The template found is the one of the nearest directory that has one:
/// no directory between it and the package has a template. None is found
/// exactly where no directory from the package's up to the outermost one
/// searched has a template.
pub proof fn lemma_nearest_template(root: PathView, pkg: PathView, files: Set<PathView>)
    ensures
        match nearest_template(root, pkg, files) {
            Some(t) => exists|d: int|
                {
                    &&& search_floor(root, pkg) <= d <= pkg.len()
                    &&& t == #[trigger] template_in(pkg.take(d))
                    &&& files.contains(t)
                    &&& forall|e: int|
                        d < e <= pkg.len() ==> !files.contains(
                            #[trigger] template_in(pkg.take(e)),
                        )
                },
            None => forall|d: int|
                search_floor(root, pkg) <= d <= pkg.len() ==> !files.contains(
                    #[trigger] template_in(pkg.take(d)),
                ),
        },
{
    lemma_nearest_from(pkg, files, pkg.len() as int, search_floor(root, pkg));
}

/// Whether `path` is one of the places that are looked at for the
/// package in `pkg`: an entry file, or a template between the package's
/// directory and the outermost one searched.
pub open spec fn is_candidate(root: PathView, pkg: PathView, path: PathView) -> bool {
    ||| path == lib_entry(pkg)
    ||| path == main_entry(pkg)
    ||| exists|d: int|
        search_floor(root, pkg) <= d <= pkg.len() && path == #[trigger] template_in(pkg.take(d))
}

proof fn lemma_nearest_from_agrees(
    root: PathView,
    pkg: PathView,
    known: Set<PathView>,
    actual: Set<PathView>,
    depth: int,
)
    requires
        search_floor(root, pkg) <= depth <= pkg.len(),
        forall|p: PathView| is_candidate(root, pkg, p) ==> (known.contains(p) == actual.contains(p)),
    ensures
        nearest_template_from(pkg, known, depth, search_floor(root, pkg)) == nearest_template_from(
            pkg,
            actual,
            depth,
            search_floor(root, pkg),
        ),
    decreases depth - search_floor(root, pkg),
{
    if depth > search_floor(root, pkg) {
        lemma_nearest_from_agrees(root, pkg, known, actual, depth - 1);
    }
}

/// Only the candidates matter: two sets of files that agree on every
/// place looked at for a package give the same entry file and the same
/// template. So it is enough to know of the candidates whether they exist.
pub proof fn lemma_only_candidates_matter(
    root: PathView,
    pkg: PathView,
    known: Set<PathView>,
    actual: Set<PathView>,
)
    requires
        forall|p: PathView| is_candidate(root, pkg, p) ==> (known.contains(p) == actual.contains(p)),
    ensures
        entrypoint(pkg, known) == entrypoint(pkg, actual),
        nearest_template(root, pkg, known) == nearest_template(root, pkg, actual),
{
    lemma_nearest_from_agrees(root, pkg, known, actual, pkg.len() as int);
}

} // verus!
