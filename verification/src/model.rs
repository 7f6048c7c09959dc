//! The data the pipeline hands from stage to stage: the parsed request
//! reference, one normalized change per file, and the whole normalized diff.

use vstd::prelude::*;
use crate::errors::Provider;

verus! {

/// Mathematical image of a [`FileChange`].
pub ghost struct FileChangeView {
    pub path: Seq<char>,
    pub prior_path: Seq<char>,
    pub patch_text: Seq<char>,
}

/// One changed file of a request: its path, its path before the change
/// (equal to `path` when the file was not moved), and the provider-native
/// unified-diff fragment, kept verbatim.
#[derive(Debug, PartialEq, Eq)]
pub struct FileChange {
    pub path: String,
    pub prior_path: String,
    pub patch_text: String,
}

impl View for FileChange {
    type V = FileChangeView;

    open spec fn view(&self) -> FileChangeView {
        FileChangeView { path: self.path@, prior_path: self.prior_path@, patch_text: self.patch_text@ }
    }
}

impl DeepView for FileChange {
    type V = FileChangeView;

    open spec fn deep_view(&self) -> FileChangeView {
        self.view()
    }
}

/// The ordered changes of one request, in the provider's response order.
/// An empty diff is a valid value, not an error.
#[derive(Debug, PartialEq, Eq)]
pub struct NormalizedDiff {
    pub changes: Vec<FileChange>,
}

impl View for NormalizedDiff {
    type V = Seq<FileChangeView>;

    open spec fn view(&self) -> Seq<FileChangeView> {
        self.changes.deep_view()
    }
}

/// Mathematical image of a [`RequestReference`].
pub ghost struct RequestReferenceView {
    pub provider: Provider,
    pub owner_or_namespace: Seq<char>,
    pub repo_or_project: Seq<char>,
    pub request_number: u64,
}

/// The identifiers a provider needs to serve one request's diff. For
/// GitHub, owner and repository; for GitLab, the namespace and the
/// percent-encoded project path, held in `repo_or_project`.
#[derive(Debug, PartialEq, Eq)]
pub struct RequestReference {
    pub provider: Provider,
    pub owner_or_namespace: String,
    pub repo_or_project: String,
    pub request_number: u64,
}

impl View for RequestReference {
    type V = RequestReferenceView;

    open spec fn view(&self) -> RequestReferenceView {
        RequestReferenceView {
            provider: self.provider,
            owner_or_namespace: self.owner_or_namespace@,
            repo_or_project: self.repo_or_project@,
            request_number: self.request_number,
        }
    }
}

impl RequestReference {
    /// A reference is well formed when its number is positive and its
    /// identifying segments are non-empty.
    pub open spec fn wf(&self) -> bool {
        self.request_number > 0 && self.owner_or_namespace@.len() > 0
            && self.repo_or_project@.len() > 0
    }
}

} // verus!
