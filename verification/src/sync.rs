//! Checking and generating the README of a package.
//!
//! Rendering the entry file's documentation comments is the one thing
//! done elsewhere. So each operation is taken in two calls: the first,
//! without a rendered body, says what to render; the second, with what
//! the renderer gave, says what was found or what to write.

use vstd::prelude::*;
use vstd::string::StringExecFns;
use crate::bytes::{append, same_bytes};
use crate::digest::{content_digest, sha1_digest};
use crate::error::{PackageError, PackageErrorView, ReadmeError, ReadmeErrorView};
use crate::links::{fix_doc_links, fixed_links};
use crate::paths::{FilePath, FileSet, PathView};
use crate::resolve::{entrypoint, find_entrypoint_internal, find_readme_template, nearest_template};

verus! {

/// The name of a package's README file, and the value that the manifest's
/// `readme` field is given once the README has been generated.
pub const README_FILE: &'static str = "README.md";

/// What a check of one package's README found.
#[derive(Debug, Clone, Copy, PartialEq, Eq, Structural)]
pub enum CheckReadmeResult {
    Skipped,
    Missing,
    UpdateNeeded,
    UpToDate,
}

impl CheckReadmeResult {
    /// The text shown for this result.
    pub open spec fn text(self) -> Seq<char> {
        match self {
            CheckReadmeResult::Skipped => "Skipped"@,
            CheckReadmeResult::Missing => "Missing"@,
            CheckReadmeResult::UpdateNeeded => "Update needed"@,
            CheckReadmeResult::UpToDate => "Up-to-date"@,
        }
    }

    /// The text shown for this result.
    pub fn to_string(&self) -> (s: String)
        ensures
            s@ == self.text(),
    {
        match self {
            CheckReadmeResult::Skipped => String::from_str("Skipped"),
            CheckReadmeResult::Missing => String::from_str("Missing"),
            CheckReadmeResult::UpdateNeeded => String::from_str("Update needed"),
            CheckReadmeResult::UpToDate => String::from_str("Up-to-date"),
        }
    }

    /// The result for a caller that wants success or failure: a README
    /// that is missing or out of date is a failure.
    pub fn as_result(&self) -> (r: Result<(), ReadmeError>)
        ensures
            match *self {
                CheckReadmeResult::Skipped => r is Ok,
                CheckReadmeResult::UpToDate => r is Ok,
                CheckReadmeResult::Missing => r matches Err(e) && e@ == ReadmeErrorView::Missing,
                CheckReadmeResult::UpdateNeeded => r matches Err(e) && e@
                    == ReadmeErrorView::UpdateNeeded,
            },
    {
        match self {
            CheckReadmeResult::Skipped => Ok(()),
            CheckReadmeResult::UpToDate => Ok(()),
            CheckReadmeResult::Missing => Err(ReadmeError::Missing),
            CheckReadmeResult::UpdateNeeded => Err(ReadmeError::UpdateNeeded),
        }
    }
}

/// How a freshly generated README meets one that exists already.
#[derive(Debug, Clone, Copy, PartialEq, Eq, Structural)]
pub enum GenerateReadmeMode {
    /// Generate only where there is no README yet.
    IfMissing,
    /// Replace the README.
    Overwrite,
    /// Keep the README and add the generated text after it.
    Append,
}

/// Whether two contents have the same content hash.
pub open spec fn same_hash(a: Seq<u8>, b: Seq<u8>) -> bool {
    sha1_digest(a) == sha1_digest(b)
}

/// What `check_readme` answers: `Missing` where there is no README,
/// `UpToDate` where the README and the candidate have the same content
/// hash, `UpdateNeeded` otherwise.
pub open spec fn check_result(existing: Option<Seq<u8>>, candidate: Seq<u8>) -> CheckReadmeResult {
    match existing {
        None => CheckReadmeResult::Missing,
        Some(readme) => if same_hash(readme, candidate) {
            CheckReadmeResult::UpToDate
        } else {
            CheckReadmeResult::UpdateNeeded
        },
    }
}

/// `check_result` on digests already taken.
pub open spec fn digest_result(existing: Option<Seq<u8>>, candidate: Seq<u8>) -> CheckReadmeResult {
    match existing {
        None => CheckReadmeResult::Missing,
        Some(digest) => if digest == candidate {
            CheckReadmeResult::UpToDate
        } else {
            CheckReadmeResult::UpdateNeeded
        },
    }
}

/// The content of the README once `fresh` has been generated in `mode`
/// where `existing` was there before: under `Append`, what was there, a
/// line break, and `fresh`; otherwise `fresh` alone.
pub open spec fn merged(mode: GenerateReadmeMode, existing: Option<Seq<u8>>, fresh: Seq<u8>) -> Seq<
    u8,
> {
    match existing {
        Some(old) if mode == GenerateReadmeMode::Append => old + seq![0x0au8] + fresh,
        _ => fresh,
    }
}

/// An optional byte string as an optional sequence.
pub open spec fn opt_bytes(b: Option<&[u8]>) -> Option<Seq<u8>> {
    match b {
        Some(s) => Some(s@),
        None => None,
    }
}

/// Compares the digest of the README that exists, if any, with the digest
/// of the candidate.
pub fn compare_digests(existing: Option<&[u8]>, candidate: &[u8]) -> (r: CheckReadmeResult)
    ensures
        r == digest_result(opt_bytes(existing), candidate@),
{
    match existing {
        None => CheckReadmeResult::Missing,
        Some(digest) => if same_bytes(digest, candidate) {
            CheckReadmeResult::UpToDate
        } else {
            CheckReadmeResult::UpdateNeeded
        },
    }
}

/// Compares the README that exists, if any, with the freshly generated
/// candidate, by content hash.
pub fn check_readme(existing: Option<&[u8]>, candidate: &[u8]) -> (r: CheckReadmeResult)
    ensures
        r == check_result(opt_bytes(existing), candidate@),
{
    match existing {
        None => CheckReadmeResult::Missing,
        Some(readme) => {
            let old = content_digest(readme);
            let new = content_digest(candidate);
            compare_digests(Some(old.as_slice()), new.as_slice())
        },
    }
}

/// Puts a freshly generated README together with the one that exists.
pub fn merge_readme(mode: &GenerateReadmeMode, existing: Option<&[u8]>, fresh: &[u8]) -> (r: Vec<
    u8,
>)
    ensures
        r@ == merged(*mode, opt_bytes(existing), fresh@),
{
    let mut out: Vec<u8> = Vec::new();
    match (mode, existing) {
        (GenerateReadmeMode::Append, Some(old)) => {
            append(&mut out, old);
            out.push(0x0au8);
        },
        _ => {},
    }
    append(&mut out, fresh);
    out
}

/// What is known of one package: its name, its directory, the
/// documentation host it declares, and the content of its README where it
/// has one.
#[derive(Debug, Clone)]
pub struct Package {
    pub name: String,
    pub dir: FilePath,
    pub documentation: Option<String>,
    pub readme: Option<Vec<u8>>,
}

/// A `Package` as mathematical values.
pub struct PackageView {
    pub name: Seq<char>,
    pub dir: PathView,
    pub documentation: Option<Seq<char>>,
    pub readme: Option<Seq<u8>>,
}

impl View for Package {
    type V = PackageView;

    open spec fn view(&self) -> PackageView {
        PackageView {
            name: self.name@,
            dir: self.dir@,
            documentation: match self.documentation {
                Some(uri) => Some(uri@),
                None => None,
            },
            readme: match self.readme {
                Some(content) => Some(content@),
                None => None,
            },
        }
    }
}

impl Package {
    /// Where the README of this package is.
    pub fn readme_path(&self) -> (r: FilePath)
        ensures
            r@ == self@.dir.push(README_FILE@),
    {
        self.dir.join(README_FILE)
    }
}

/// What is known of the workspace: its root directory and which of the
/// files that matter exist.
#[derive(Debug, Clone)]
pub struct Workspace {
    pub root: FilePath,
    pub files: FileSet,
}

/// A `Workspace` as mathematical values.
pub struct WorkspaceView {
    pub root: PathView,
    pub files: Set<PathView>,
}

impl View for Workspace {
    type V = WorkspaceView;

    open spec fn view(&self) -> WorkspaceView {
        WorkspaceView { root: self.root@, files: self.files@ }
    }
}

/// What the renderer is to read: the entry file and, where one was found,
/// the template.
#[derive(Debug, Clone)]
pub struct Sources {
    pub entrypoint: FilePath,
    pub template: Option<FilePath>,
}

/// `Sources` as mathematical values.
pub struct SourcesView {
    pub entrypoint: PathView,
    pub template: Option<PathView>,
}

impl View for Sources {
    type V = SourcesView;

    open spec fn view(&self) -> SourcesView {
        SourcesView {
            entrypoint: self.entrypoint@,
            template: match self.template {
                Some(t) => Some(t@),
                None => None,
            },
        }
    }
}

/// What the renderer gave: the README body, or why it failed.
pub type Rendered = Result<Vec<u8>, String>;

/// A `Rendered`, where there is one, as mathematical values.
pub open spec fn rendered_view(rendered: Option<&Rendered>) -> Option<Result<Seq<u8>, Seq<char>>> {
    match rendered {
        Some(Ok(body)) => Some(Ok(body@)),
        Some(Err(why)) => Some(Err(why@)),
        None => None,
    }
}

/// What to do next when checking a package.
#[derive(Debug, Clone)]
pub enum CheckAction {
    /// Render these sources and come back with the result.
    Render(Sources),
    /// The check is done; this is what it found.
    Report(CheckReadmeResult),
}

/// A `CheckAction` as mathematical values.
pub enum CheckActionView {
    Render(SourcesView),
    Report(CheckReadmeResult),
}

impl View for CheckAction {
    type V = CheckActionView;

    open spec fn view(&self) -> CheckActionView {
        match self {
            CheckAction::Render(sources) => CheckActionView::Render(sources@),
            CheckAction::Report(result) => CheckActionView::Report(*result),
        }
    }
}

/// What to do next when generating the README of a package.
#[derive(Debug, Clone)]
pub enum GenerateAction {
    /// Leave the README as it is and set the manifest's `readme` field.
    Skip,
    /// Render these sources and come back with the result.
    Render(Sources),
    /// Write these bytes as the README and set the manifest's `readme` field.
    Write(Vec<u8>),
}

/// A `GenerateAction` as mathematical values.
pub enum GenerateActionView {
    Skip,
    Render(SourcesView),
    Write(Seq<u8>),
}

impl View for GenerateAction {
    type V = GenerateActionView;

    open spec fn view(&self) -> GenerateActionView {
        match self {
            GenerateAction::Skip => GenerateActionView::Skip,
            GenerateAction::Render(sources) => GenerateActionView::Render(sources@),
            GenerateAction::Write(content) => GenerateActionView::Write(content@),
        }
    }
}

impl GenerateActionView {
    /// The content of the README once the action is carried out, where
    /// `existing` was its content before.
    pub open spec fn readme_after(self, existing: Option<Seq<u8>>) -> Option<Seq<u8>> {
        match self {
            GenerateActionView::Write(content) => Some(content),
            _ => existing,
        }
    }

    /// What the manifest's `readme` field is set to when the action is
    /// carried out; `None` where the action leaves the manifest alone.
    pub open spec fn readme_field(self) -> Option<Seq<char>> {
        match self {
            GenerateActionView::Render(_) => None,
            _ => Some(README_FILE@),
        }
    }
}

impl GenerateAction {
    /// What the manifest's `readme` field is to be set to when this action
    /// is carried out; `None` where the manifest is left alone.
    pub fn readme_field(&self) -> (r: Option<String>)
        ensures
            match self@.readme_field() {
                Some(name) => r matches Some(field) && field@ == name,
                None => r is None,
            },
    {
        match self {
            GenerateAction::Render(_) => None,
            _ => Some(String::from_str(README_FILE)),
        }
    }
}

/// The sources of the package's README: its entry file and the nearest
/// template; `None` where the package has no entry file.
pub open spec fn sources(ws: WorkspaceView, pkg: PackageView) -> Option<SourcesView> {
    match entrypoint(pkg.dir, ws.files) {
        Some(entry) => Some(
            SourcesView {
                entrypoint: entry,
                template: nearest_template(ws.root, pkg.dir, ws.files),
            },
        ),
        None => None,
    }
}

/// What `check_pkg_readme` answers.
pub open spec fn check_step(
    ws: WorkspaceView,
    pkg: PackageView,
    rendered: Option<Result<Seq<u8>, Seq<char>>>,
) -> Result<CheckActionView, ReadmeErrorView> {
    match sources(ws, pkg) {
        None => Err(ReadmeErrorView::EntrypointNotFound),
        Some(found) => match rendered {
            None => Ok(CheckActionView::Render(found)),
            Some(Err(why)) => Err(ReadmeErrorView::RenderFailure(why)),
            Some(Ok(body)) => match fixed_links(pkg.name, body, pkg.documentation) {
                None => Err(ReadmeErrorView::PatternRejected),
                Some(candidate) => Ok(CheckActionView::Report(check_result(pkg.readme, candidate))),
            },
        },
    }
}

/// What `gen_pkg_readme` answers.
pub open spec fn generate_step(
    ws: WorkspaceView,
    pkg: PackageView,
    mode: GenerateReadmeMode,
    rendered: Option<Result<Seq<u8>, Seq<char>>>,
) -> Result<GenerateActionView, ReadmeErrorView> {
    match sources(ws, pkg) {
        None => Err(ReadmeErrorView::EntrypointNotFound),
        Some(found) => if mode == GenerateReadmeMode::IfMissing && pkg.readme is Some {
            Ok(GenerateActionView::Skip)
        } else {
            match rendered {
                None => Ok(GenerateActionView::Render(found)),
                Some(Err(why)) => Err(ReadmeErrorView::RenderFailure(why)),
                Some(Ok(body)) => match fixed_links(pkg.name, body, pkg.documentation) {
                    None => Err(ReadmeErrorView::PatternRejected),
                    Some(fresh) => Ok(GenerateActionView::Write(merged(mode, pkg.readme, fresh))),
                },
            }
        },
    }
}

/// The view of a result of one step.
pub open spec fn step_view<A: View>(r: Result<A, ReadmeError>) -> Result<A::V, ReadmeErrorView> {
    match r {
        Ok(action) => Ok(action@),
        Err(e) => Err(e@),
    }
}

fn find_sources(ws: &Workspace, pkg: &Package) -> (r: Result<Sources, ReadmeError>)
    ensures
        match sources(ws@, pkg@) {
            Some(found) => r matches Ok(s) && s@ == found,
            None => r matches Err(e) && e@ == ReadmeErrorView::EntrypointNotFound,
        },
{
    let entrypoint = match find_entrypoint_internal(&pkg.dir, &ws.files) {
        Ok(found) => found,
        Err(e) => {
            return Err(e);
        },
    };
    let template = match find_readme_template(&ws.root, &pkg.dir, &ws.files) {
        Ok(found) => found,
        Err(e) => {
            return Err(e);
        },
    };
    Ok(Sources { entrypoint, template })
}

fn documentation_of(pkg: &Package) -> (r: Option<&str>)
    ensures
        crate::links::opt_text(r) == pkg@.documentation,
{
    match &pkg.documentation {
        Some(uri) => Some(uri.as_str()),
        None => None,
    }
}

fn readme_of(pkg: &Package) -> (r: Option<&[u8]>)
    ensures
        opt_bytes(r) == pkg@.readme,
{
    match &pkg.readme {
        Some(content) => Some(content.as_slice()),
        None => None,
    }
}

/// Checks whether the README of a package is what would be generated now.
///
/// Without `rendered` the answer is what to render (or that there is no
/// entry file). With it, the rendered body has its links made absolute and
/// is compared with the README by content hash. Nothing is written.
pub fn check_pkg_readme(ws: &Workspace, pkg: &Package, rendered: Option<&Rendered>) -> (r: Result<
    CheckAction,
    ReadmeError,
>)
    ensures
        step_view(r) == check_step(ws@, pkg@, rendered_view(rendered)),
{
    let found = match find_sources(ws, pkg) {
        Ok(found) => found,
        Err(e) => {
            return Err(e);
        },
    };
    match rendered {
        None => Ok(CheckAction::Render(found)),
        Some(Err(why)) => Err(ReadmeError::RenderFailure(why.clone())),
        Some(Ok(body)) => {
            match fix_doc_links(pkg.name.as_str(), body.as_slice(), documentation_of(pkg)) {
                Ok(candidate) => Ok(
                    CheckAction::Report(check_readme(readme_of(pkg), candidate.as_slice())),
                ),
                Err(e) => Err(e),
            }
        },
    }
}

/// Generates the README of a package in the given mode.
///
/// Under `IfMissing` a package that has a README is skipped. Otherwise,
/// without `rendered` the answer is what to render; with it, the rendered
/// body has its links made absolute and, under `Append`, follows what the
/// README held before. A package without entry file is an error in every
/// mode.
pub fn gen_pkg_readme(
    ws: &Workspace,
    pkg: &Package,
    mode: &GenerateReadmeMode,
    rendered: Option<&Rendered>,
) -> (r: Result<GenerateAction, ReadmeError>)
    ensures
        step_view(r) == generate_step(ws@, pkg@, *mode, rendered_view(rendered)),
{
    let found = match find_sources(ws, pkg) {
        Ok(found) => found,
        Err(e) => {
            return Err(e);
        },
    };
    let existing = readme_of(pkg);
    match (mode, existing) {
        (GenerateReadmeMode::IfMissing, Some(_)) => {
            return Ok(GenerateAction::Skip);
        },
        _ => {},
    }
    match rendered {
        None => Ok(GenerateAction::Render(found)),
        Some(Err(why)) => Err(ReadmeError::RenderFailure(why.clone())),
        Some(Ok(body)) => {
            match fix_doc_links(pkg.name.as_str(), body.as_slice(), documentation_of(pkg)) {
                Ok(fresh) => Ok(GenerateAction::Write(merge_readme(mode, existing, fresh.as_slice()))),
                Err(e) => Err(e),
            }
        },
    }
}

/// What came of one package of a batch: the action to carry out, or the
/// error, which names the package.
#[derive(Debug)]
pub struct PackageReport {
    pub package: String,
    pub outcome: Result<GenerateAction, PackageError>,
}

/// What the renderer gave for package `i` of a batch, if anything yet.
pub open spec fn rendered_at(rendered: Seq<Option<Rendered>>, i: int) -> Option<
    Result<Seq<u8>, Seq<char>>,
> {
    if 0 <= i < rendered.len() {
        match rendered[i] {
            Some(Ok(body)) => Some(Ok(body@)),
            Some(Err(why)) => Some(Err(why@)),
            None => None,
        }
    } else {
        None
    }
}

/// Whether `report` is the report for `pkg`: it bears the package's name
/// and holds what `gen_pkg_readme` answers, an error being attributed to
/// the package.
pub open spec fn reports_on(
    report: PackageReport,
    ws: WorkspaceView,
    pkg: PackageView,
    mode: GenerateReadmeMode,
    rendered: Option<Result<Seq<u8>, Seq<char>>>,
) -> bool {
    &&& report.package@ == pkg.name
    &&& match generate_step(ws, pkg, mode, rendered) {
        Ok(action) => report.outcome matches Ok(a) && a@ == action,
        Err(error) => report.outcome matches Err(e) && e@ == (PackageErrorView {
            package: pkg.name,
            error,
        }),
    }
}

/// Generates the READMEs of the packages of a workspace, each for itself
/// and in the order given: report `i` is the one for package `i`, with
/// `rendered[i]` as what the renderer gave for it (nothing, where
/// `rendered` is shorter). A package that fails does not keep the others
/// from being dealt with.
pub fn gen_all_readme(
    packages: &Vec<Package>,
    ws: &Workspace,
    readme_mode: &GenerateReadmeMode,
    rendered: &Vec<Option<Rendered>>,
) -> (reports: Vec<PackageReport>)
    ensures
        reports@.len() == packages@.len(),
        forall|i: int|
            0 <= i < packages@.len() ==> reports_on(
                #[trigger] reports@[i],
                ws@,
                packages@[i]@,
                *readme_mode,
                rendered_at(rendered@, i),
            ),
{
    let mut reports: Vec<PackageReport> = Vec::new();
    let mut i: usize = 0;
    while i < packages.len()
        invariant
            i <= packages@.len(),
            reports@.len() == i,
            forall|k: int|
                0 <= k < i ==> reports_on(
                    #[trigger] reports@[k],
                    ws@,
                    packages@[k]@,
                    *readme_mode,
                    rendered_at(rendered@, k),
                ),
        decreases packages.len() - i,
    {
        let pkg = &packages[i];
        let given: Option<&Rendered> = if i < rendered.len() {
            rendered[i].as_ref()
        } else {
            None
        };
        let outcome = match gen_pkg_readme(ws, pkg, readme_mode, given) {
            Ok(action) => Ok(action),
            Err(error) => Err(PackageError { package: pkg.name.clone(), error }),
        };
        reports.push(PackageReport { package: pkg.name.clone(), outcome });
        i += 1;
    }
    reports
}

/// The first failure among the reports of a batch, for a caller to whom
/// one failure fails the batch; `Ok` where no package failed.
pub fn first_failure(reports: &Vec<PackageReport>) -> (r: Result<(), PackageError>)
    ensures
        match r {
            Ok(_) => forall|i: int| 0 <= i < reports@.len() ==> (#[trigger] reports@[i]).outcome is Ok,
            Err(e) => exists|i: int|
                {
                    &&& 0 <= i < reports@.len()
                    &&& (#[trigger] reports@[i]).outcome matches Err(first) && first@ == e@
                    &&& forall|k: int| 0 <= k < i ==> (#[trigger] reports@[k]).outcome is Ok
                },
        },
{
    let mut i: usize = 0;
    while i < reports.len()
        invariant
            i <= reports@.len(),
            forall|k: int| 0 <= k < i ==> (#[trigger] reports@[k]).outcome is Ok,
        decreases reports.len() - i,
    {
        match &reports[i].outcome {
            Ok(_) => {},
            Err(e) => {
                return Err(e.duplicate());
            },
        }
        i += 1;
    }
    Ok(())
}

/// A README that holds exactly what would be generated now is up to date.
pub proof fn lemma_same_content_is_up_to_date(
    ws: WorkspaceView,
    pkg: PackageView,
    body: Seq<u8>,
    candidate: Seq<u8>,
)
    requires
        sources(ws, pkg) is Some,
        fixed_links(pkg.name, body, pkg.documentation) == Some(candidate),
        pkg.readme == Some(candidate),
    ensures
        check_result(pkg.readme, candidate) == CheckReadmeResult::UpToDate,
        check_step(ws, pkg, Some(Ok(body))) == Ok::<CheckActionView, ReadmeErrorView>(
            CheckActionView::Report(CheckReadmeResult::UpToDate),
        ),
{
}

/// A README that differs from what would be generated now needs an
/// update, provided that the two do not happen to have the same SHA-1
/// digest.
pub proof fn lemma_different_content_needs_update(
    ws: WorkspaceView,
    pkg: PackageView,
    body: Seq<u8>,
    candidate: Seq<u8>,
    readme: Seq<u8>,
)
    requires
        sources(ws, pkg) is Some,
        fixed_links(pkg.name, body, pkg.documentation) == Some(candidate),
        pkg.readme == Some(readme),
        readme != candidate,
        !same_hash(readme, candidate),
    ensures
        check_result(pkg.readme, candidate) == CheckReadmeResult::UpdateNeeded,
        check_step(ws, pkg, Some(Ok(body))) == Ok::<CheckActionView, ReadmeErrorView>(
            CheckActionView::Report(CheckReadmeResult::UpdateNeeded),
        ),
{
}

/// Under `IfMissing` a package that has a README (and an entry file) is
/// skipped whatever was rendered: the README keeps its bytes, and the
/// manifest's `readme` field is set all the same.
pub proof fn lemma_if_missing_keeps_readme(
    ws: WorkspaceView,
    pkg: PackageView,
    rendered: Option<Result<Seq<u8>, Seq<char>>>,
)
    requires
        sources(ws, pkg) is Some,
        pkg.readme is Some,
    ensures
        generate_step(ws, pkg, GenerateReadmeMode::IfMissing, rendered) == Ok::<
            GenerateActionView,
            ReadmeErrorView,
        >(GenerateActionView::Skip),
        GenerateActionView::Skip.readme_after(pkg.readme) == pkg.readme,
        GenerateActionView::Skip.readme_field() == Some(README_FILE@),
{
}

/// Under `Append` the README that is written begins with the bytes it
/// held before; one line break follows, then the newly rendered text with
/// its links made absolute. The manifest's `readme` field is set.
pub proof fn lemma_append_keeps_prior_content(
    ws: WorkspaceView,
    pkg: PackageView,
    body: Seq<u8>,
    old: Seq<u8>,
    fresh: Seq<u8>,
)
    requires
        sources(ws, pkg) is Some,
        pkg.readme == Some(old),
        fixed_links(pkg.name, body, pkg.documentation) == Some(fresh),
    ensures
        generate_step(ws, pkg, GenerateReadmeMode::Append, Some(Ok(body))) == Ok::<
            GenerateActionView,
            ReadmeErrorView,
        >(GenerateActionView::Write(old + seq![0x0au8] + fresh)),
        old.is_prefix_of(old + seq![0x0au8] + fresh),
        GenerateActionView::Write(old + seq![0x0au8] + fresh).readme_field() == Some(README_FILE@),
{
}

/// Where there is no README, or the mode is `Overwrite`, the README that
/// is written is the newly rendered text with its links made absolute.
pub proof fn lemma_fresh_readme_written(
    ws: WorkspaceView,
    pkg: PackageView,
    mode: GenerateReadmeMode,
    body: Seq<u8>,
    fresh: Seq<u8>,
)
    requires
        sources(ws, pkg) is Some,
        pkg.readme is None || mode == GenerateReadmeMode::Overwrite,
        fixed_links(pkg.name, body, pkg.documentation) == Some(fresh),
    ensures
        generate_step(ws, pkg, mode, Some(Ok(body))) == Ok::<GenerateActionView, ReadmeErrorView>(
            GenerateActionView::Write(fresh),
        ),
{
}

/// Checking and generating ask for the same sources to be rendered, so
/// that what they get can be compared byte for byte.
pub proof fn lemma_same_sources_rendered(
    ws: WorkspaceView,
    pkg: PackageView,
    mode: GenerateReadmeMode,
    for_check: SourcesView,
    for_generate: SourcesView,
)
    requires
        check_step(ws, pkg, None) == Ok::<CheckActionView, ReadmeErrorView>(
            CheckActionView::Render(for_check),
        ),
        generate_step(ws, pkg, mode, None) == Ok::<GenerateActionView, ReadmeErrorView>(
            GenerateActionView::Render(for_generate),
        ),
    ensures
        for_check == for_generate,
{
}

/// A README that has just been written afresh is up to date: once the
/// package holds what `gen_pkg_readme` said to write, without prior
/// content in front, `check_pkg_readme` on the same rendered body reports
/// `UpToDate`.
pub proof fn lemma_generated_readme_is_up_to_date(
    ws: WorkspaceView,
    pkg: PackageView,
    mode: GenerateReadmeMode,
    body: Seq<u8>,
    content: Seq<u8>,
)
    requires
        pkg.readme is None || mode == GenerateReadmeMode::Overwrite,
        generate_step(ws, pkg, mode, Some(Ok(body))) == Ok::<GenerateActionView, ReadmeErrorView>(
            GenerateActionView::Write(content),
        ),
    ensures
        check_step(
            ws,
            PackageView { readme: Some(content), ..pkg },
            Some(Ok(body)),
        ) == Ok::<CheckActionView, ReadmeErrorView>(
            CheckActionView::Report(CheckReadmeResult::UpToDate),
        ),
{
}

/// A check that is done reports `Missing`, `UpdateNeeded` or `UpToDate`.
pub proof fn lemma_check_report(
    ws: WorkspaceView,
    pkg: PackageView,
    rendered: Option<Result<Seq<u8>, Seq<char>>>,
)
    ensures
        check_step(ws, pkg, rendered) matches Ok(CheckActionView::Report(result)) ==> result
            != CheckReadmeResult::Skipped,
{
}

} // verus!
