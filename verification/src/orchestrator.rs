//! The orchestrator's decisions, stated as pure functions: which provider
//! serves a URL, which credential must be present before any call goes
//! out, which request to send, and what each answer means. The caller
//! performs the two HTTP round trips and hands the raw status and body
//! back; everything in between is decided and verified here.

use vstd::prelude::*;
use crate::config::AppConfig;
use crate::errors::{spec_is_success, CredentialKind, Error, Provider};
use crate::github;
use crate::gitlab;
use crate::links::classify;
use crate::model::NormalizedDiff;
use crate::strings::has_substring;

verus! {

/// One authenticated GET against a provider's diff endpoint, planned
/// here and performed by the caller. GitHub also expects a `User-Agent`
/// header, which is the caller's transport concern.
#[derive(Debug, PartialEq, Eq)]
pub struct FetchPlan {
    pub provider: Provider,
    pub url: String,
    pub auth_header_name: String,
    pub auth_header_value: String,
}

/// The plan a well-formed GitHub link and a configured credential yield:
/// the files-changed URL and a `Authorization: token <credential>`
/// header.
pub open spec fn gh_plan_ok(url: Seq<char>, config: AppConfig, p: FetchPlan) -> bool {
    &&& p.provider == Provider::GitHub
    &&& p.url@ == github::spec_github_files_url(
        github::gh_owner(url),
        github::gh_repo(url),
        github::gh_number(url) as u64,
    )
    &&& p.auth_header_name@ == "Authorization"@
    &&& p.auth_header_value@ == "token "@ + config.spec_github_token()
}

/// The plan a well-formed GitLab link and a configured credential yield:
/// the merge-request diffs URL for the encoded project path and a
/// `PRIVATE-TOKEN: <credential>` header.
pub open spec fn gl_plan_ok(url: Seq<char>, config: AppConfig, p: FetchPlan) -> bool {
    &&& p.provider == Provider::GitLab
    &&& p.url@ == gitlab::spec_gitlab_diffs_url(
        gitlab::gl_encoded_path(url),
        gitlab::gl_number(url) as u64,
    )
    &&& p.auth_header_name@ == "PRIVATE-TOKEN"@
    &&& p.auth_header_value@ == config.spec_gitlab_token()
}

/// Classifies the URL and plans the diff fetch. The provider's
/// credential is demanded here, before any call goes out; a malformed
/// link is rejected first, and no network is touched either way.
pub fn prepare_fetch(url: &str, config: &AppConfig) -> (r: Result<FetchPlan, Error>)
    ensures
        has_substring(url@, "github.com"@) ==> match r {
            Ok(p) => github::gh_wf(url@) && config.spec_github_token().len() > 0 && gh_plan_ok(
                url@,
                *config,
                p,
            ),
            Err(e) => (!github::gh_wf(url@) && e == Error::MalformedLink) || (github::gh_wf(url@)
                && config.spec_github_token().len() == 0 && e == Error::MissingCredential(
                CredentialKind::GitHub,
            )),
        },
        !has_substring(url@, "github.com"@) && has_substring(url@, "gitlab.com"@) ==> match r {
            Ok(p) => gitlab::gl_wf(url@) && config.spec_gitlab_token().len() > 0 && gl_plan_ok(
                url@,
                *config,
                p,
            ),
            Err(e) => (!gitlab::gl_wf(url@) && e == Error::MalformedLink) || (gitlab::gl_wf(url@)
                && config.spec_gitlab_token().len() == 0 && e == Error::MissingCredential(
                CredentialKind::GitLab,
            )),
        },
        !has_substring(url@, "github.com"@) && !has_substring(url@, "gitlab.com"@) ==> (r
            matches Err(e) && e == Error::UnsupportedProvider),
{
    let rr = match classify(url) {
        Err(e) => {
            return Err(e);
        },
        Ok(rr) => rr,
    };
    match rr.provider {
        Provider::GitHub => {
            let token = match config.get_github_token() {
                None => {
                    return Err(Error::MissingCredential(CredentialKind::GitHub));
                },
                Some(t) => t,
            };
            let fetch_url = github::github_files_url(
                rr.owner_or_namespace.as_str(),
                rr.repo_or_project.as_str(),
                rr.request_number,
            );
            let mut value = "token ".to_owned();
            value.append(token);
            Ok(
                FetchPlan {
                    provider: Provider::GitHub,
                    url: fetch_url,
                    auth_header_name: "Authorization".to_owned(),
                    auth_header_value: value,
                },
            )
        },
        Provider::GitLab => {
            let token = match config.get_gitlab_token() {
                None => {
                    return Err(Error::MissingCredential(CredentialKind::GitLab));
                },
                Some(t) => t,
            };
            let fetch_url = gitlab::gitlab_diffs_url(
                rr.repo_or_project.as_str(),
                rr.request_number,
            );
            Ok(
                FetchPlan {
                    provider: Provider::GitLab,
                    url: fetch_url,
                    auth_header_name: "PRIVATE-TOKEN".to_owned(),
                    auth_header_value: token.to_owned(),
                },
            )
        },
    }
}

/// Interprets a provider's answer to the planned fetch, by the provider
/// the plan named: the decoded rows become the normalized changes in
/// order, a non-success status or an undecodable body the matching
/// error.
pub fn handle_fetch_response(provider: Provider, status: u16, body: &str) -> (r: Result<
    NormalizedDiff,
    Error,
>)
    ensures
        !spec_is_success(status) ==> (r matches Err(e) && e matches Error::UpstreamError {
            provider: pv,
            status: st,
            body: b,
        } && pv == provider && st == status && b@ == body@),
        spec_is_success(status) && provider == Provider::GitHub ==> match github::gh_files_of(
            body@,
        ) {
            Some(rows) => r matches Ok(d) && d@.len() == rows.len() && (forall|i: int|
                0 <= i < rows.len() ==> (#[trigger] d@[i]).path == rows[i].0 && d@[i].prior_path
                    == rows[i].0 && d@[i].patch_text == rows[i].1),
            None => r == Err::<NormalizedDiff, Error>(Error::MalformedUpstreamResponse),
        },
        spec_is_success(status) && provider == Provider::GitLab ==> match gitlab::gl_diffs_of(
            body@,
        ) {
            Some(rows) => r matches Ok(d) && d@.len() == rows.len() && (forall|i: int|
                0 <= i < rows.len() ==> (#[trigger] d@[i]).prior_path == rows[i].0 && d@[i].path
                    == rows[i].1 && d@[i].patch_text == rows[i].2),
            None => r == Err::<NormalizedDiff, Error>(Error::MalformedUpstreamResponse),
        },
{
    match provider {
        Provider::GitHub => github::parse_github_response(status, body),
        Provider::GitLab => gitlab::parse_gitlab_response(status, body),
    }
}

/// One authenticated POST against the review endpoint, planned here and
/// performed by the caller: the fixed endpoint URL, a
/// `Authorization: Bearer <credential>` header value, and the JSON body.
#[derive(Debug, PartialEq, Eq)]
pub struct ReviewPlan {
    pub url: String,
    pub auth_header_value: String,
    pub body: String,
}

/// Plans the review call for a prompt. The review credential is demanded
/// here, before any call goes out.
pub fn prepare_review(prompt: &str, config: &AppConfig) -> (r: Result<ReviewPlan, Error>)
    ensures
        config.spec_openai_token().len() == 0 ==> r == Err::<ReviewPlan, Error>(
            Error::MissingCredential(CredentialKind::Review),
        ),
        config.spec_openai_token().len() > 0 ==> (r matches Ok(p) && p.url@
            == "https://api.openai.com/v1/chat/completions"@ && p.auth_header_value@ == "Bearer "@
            + config.spec_openai_token() && p.body@ == crate::openai::spec_review_request_body(
            prompt@,
        )),
{
    let token = match config.get_openai_token() {
        None => {
            return Err(Error::MissingCredential(CredentialKind::Review));
        },
        Some(t) => t,
    };
    let mut value = "Bearer ".to_owned();
    value.append(token);
    let body = crate::openai::build_review_request_body(prompt);
    Ok(
        ReviewPlan {
            url: "https://api.openai.com/v1/chat/completions".to_owned(),
            auth_header_value: value,
            body,
        },
    )
}

} // verus!
