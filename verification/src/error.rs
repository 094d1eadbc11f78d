//! What can go wrong for one package, and how it is reported.

use vstd::prelude::*;
use vstd::string::*;

verus! {

/// Why work on a package's README stopped.
#[derive(Debug, Clone)]
pub enum ReadmeError {
    /// The package has neither a library nor an executable entry file.
    EntrypointNotFound,
    /// The renderer could not turn the entry file into a README body.
    RenderFailure(String),
    /// A file could not be read or written.
    IoFailure(String),
    /// The README on disk differs from what would be generated now.
    UpdateNeeded,
    /// The package has no README to compare with.
    Missing,
    /// The regex engine refused the pattern that finds links.
    PatternRejected,
}

/// A `ReadmeError` with its texts as sequences of characters.
pub enum ReadmeErrorView {
    EntrypointNotFound,
    RenderFailure(Seq<char>),
    IoFailure(Seq<char>),
    UpdateNeeded,
    Missing,
    PatternRejected,
}

impl View for ReadmeError {
    type V = ReadmeErrorView;

    open spec fn view(&self) -> ReadmeErrorView {
        match self {
            ReadmeError::EntrypointNotFound => ReadmeErrorView::EntrypointNotFound,
            ReadmeError::RenderFailure(m) => ReadmeErrorView::RenderFailure(m@),
            ReadmeError::IoFailure(m) => ReadmeErrorView::IoFailure(m@),
            ReadmeError::UpdateNeeded => ReadmeErrorView::UpdateNeeded,
            ReadmeError::Missing => ReadmeErrorView::Missing,
            ReadmeError::PatternRejected => ReadmeErrorView::PatternRejected,
        }
    }
}

impl ReadmeErrorView {
    /// The text shown for this error.
    pub open spec fn message(self) -> Seq<char> {
        match self {
            ReadmeErrorView::EntrypointNotFound => "No entrypoint found"@,
            ReadmeErrorView::RenderFailure(m) => m,
            ReadmeErrorView::IoFailure(m) => m,
            ReadmeErrorView::UpdateNeeded => "Update needed"@,
            ReadmeErrorView::Missing => "Missing"@,
            ReadmeErrorView::PatternRejected => "Link pattern rejected"@,
        }
    }
}

impl ReadmeError {
    /// A copy of this error.
    pub fn duplicate(&self) -> (r: ReadmeError)
        ensures
            r@ == self@,
    {
        match self {
            ReadmeError::EntrypointNotFound => ReadmeError::EntrypointNotFound,
            ReadmeError::RenderFailure(m) => ReadmeError::RenderFailure(m.clone()),
            ReadmeError::IoFailure(m) => ReadmeError::IoFailure(m.clone()),
            ReadmeError::UpdateNeeded => ReadmeError::UpdateNeeded,
            ReadmeError::Missing => ReadmeError::Missing,
            ReadmeError::PatternRejected => ReadmeError::PatternRejected,
        }
    }

    /// The text shown for this error.
    pub fn to_string(&self) -> (s: String)
        ensures
            s@ == self@.message(),
    {
        match self {
            ReadmeError::EntrypointNotFound => String::from_str("No entrypoint found"),
            ReadmeError::RenderFailure(m) => m.clone(),
            ReadmeError::IoFailure(m) => m.clone(),
            ReadmeError::UpdateNeeded => String::from_str("Update needed"),
            ReadmeError::Missing => String::from_str("Missing"),
            ReadmeError::PatternRejected => String::from_str("Link pattern rejected"),
        }
    }
}

/// An error together with the name of the package it belongs to.
#[derive(Debug, Clone)]
pub struct PackageError {
    pub package: String,
    pub error: ReadmeError,
}

/// The text shown for `error` when it arose in the package called `package`.
pub open spec fn attributed_message(package: Seq<char>, error: ReadmeErrorView) -> Seq<char> {
    "Failure generating Readme for "@ + package + ": "@ + error.message()
}

/// A `PackageError` as mathematical values.
pub struct PackageErrorView {
    pub package: Seq<char>,
    pub error: ReadmeErrorView,
}

impl View for PackageError {
    type V = PackageErrorView;

    open spec fn view(&self) -> PackageErrorView {
        PackageErrorView { package: self.package@, error: self.error@ }
    }
}

impl PackageError {
    /// A copy of this error.
    pub fn duplicate(&self) -> (r: PackageError)
        ensures
            r@ == self@,
    {
        PackageError { package: self.package.clone(), error: self.error.duplicate() }
    }

    /// The text shown for this error; it names the package.
    pub fn to_string(&self) -> (s: String)
        ensures
            s@ == attributed_message(self.package@, self.error@),
    {
        let mut s = String::from_str("Failure generating Readme for ");
        s.append(self.package.as_str());
        s.append(": ");
        let inner = self.error.to_string();
        s.append(inner.as_str());
        s
    }
}

} // verus!
