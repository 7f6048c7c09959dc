//! The link parser: classifies a request URL by provider (by substring
//! containment, as the providers' hosts appear in no other recognized
//! link) and extracts the identifiers the provider's diff endpoint needs.

use vstd::prelude::*;
use crate::errors::{Error, Provider};
use crate::github;
use crate::gitlab;
use crate::model::RequestReference;
use crate::strings::has_substring;

verus! {

/// Classifies `url` and extracts its request reference. GitHub wins when
/// a URL names both hosts, mirroring the dispatch order of the pipeline.
pub fn classify(url: &str) -> (r: Result<RequestReference, Error>)
    ensures
        has_substring(url@, "github.com"@) ==> match r {
            Ok(rr) => gh_ok(url@, rr@),
            Err(e) => !github::gh_wf(url@) && e == Error::MalformedLink,
        },
        !has_substring(url@, "github.com"@) && has_substring(url@, "gitlab.com"@) ==> match r {
            Ok(rr) => gl_ok(url@, rr@),
            Err(e) => !gitlab::gl_wf(url@) && e == Error::MalformedLink,
        },
        !has_substring(url@, "github.com"@) && !has_substring(url@, "gitlab.com"@) ==> r == Err::<
            RequestReference,
            Error,
        >(Error::UnsupportedProvider),
        r matches Ok(rr) ==> rr.wf(),
{
    if crate::strings::str_contains_str(url, "github.com") {
        match github::parse_github_link(url) {
            Some(t) => Ok(
                RequestReference {
                    provider: Provider::GitHub,
                    owner_or_namespace: t.0,
                    repo_or_project: t.1,
                    request_number: t.2,
                },
            ),
            None => Err(Error::MalformedLink),
        }
    } else if crate::strings::str_contains_str(url, "gitlab.com") {
        match gitlab::parse_gitlab_link(url) {
            Some(t) => Ok(
                RequestReference {
                    provider: Provider::GitLab,
                    owner_or_namespace: t.0,
                    repo_or_project: t.1,
                    request_number: t.2,
                },
            ),
            None => Err(Error::MalformedLink),
        }
    } else {
        Err(Error::UnsupportedProvider)
    }
}

/// What a successful GitHub classification pins down.
pub open spec fn gh_ok(url: Seq<char>, rr: crate::model::RequestReferenceView) -> bool {
    &&& github::gh_wf(url)
    &&& rr.provider == Provider::GitHub
    &&& rr.owner_or_namespace == github::gh_owner(url)
    &&& rr.repo_or_project == github::gh_repo(url)
    &&& rr.request_number == github::gh_number(url)
}

/// What a successful GitLab classification pins down.
pub open spec fn gl_ok(url: Seq<char>, rr: crate::model::RequestReferenceView) -> bool {
    &&& gitlab::gl_wf(url)
    &&& rr.provider == Provider::GitLab
    &&& rr.owner_or_namespace == gitlab::gl_namespace(url)
    &&& rr.repo_or_project == gitlab::gl_encoded_path(url)
    &&& rr.request_number == gitlab::gl_number(url)
}

} // verus!
