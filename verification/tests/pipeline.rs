//! End-to-end scenarios over the pipeline's pure stages, with the real
//! JSON decoding linked in.

use code_reviewer::config::AppConfig;
use code_reviewer::errors::{CredentialKind, Error, Provider};
use code_reviewer::model::NormalizedDiff;
use code_reviewer::openai::handle_review_response;
use code_reviewer::orchestrator::{handle_fetch_response, prepare_fetch, prepare_review};
use code_reviewer::prompt::build_prompt;

fn full_config() -> AppConfig {
    AppConfig::with_tokens(
        "gl-secret".to_string(),
        "gh-secret".to_string(),
        "ai-secret".to_string(),
    )
}

#[test]
fn github_end_to_end() {
    let config = full_config();
    let url = "https://github.com/acme/widgets/pull/42";

    let plan = prepare_fetch(url, &config).unwrap();
    assert_eq!(plan.provider, Provider::GitHub);
    assert_eq!(
        plan.url,
        "https://api.github.com/repos/acme/widgets/pulls/42/files"
    );
    assert_eq!(plan.auth_header_name, "Authorization");
    assert_eq!(plan.auth_header_value, "token gh-secret");

    let body = "[{\"filename\":\"a.rs\",\"patch\":\"+fn x(){}\\n\"}]";
    let diff = handle_fetch_response(Provider::GitHub, 200, body).unwrap();
    assert_eq!(diff.changes.len(), 1);
    assert_eq!(diff.changes[0].path, "a.rs");
    assert_eq!(diff.changes[0].prior_path, "a.rs");
    assert_eq!(diff.changes[0].patch_text, "+fn x(){}\n");

    let prompt = build_prompt(plan.provider, &diff);
    assert!(prompt.contains("File: a.rs"));
    assert!(prompt.contains("+fn x(){}"));

    let review = prepare_review(&prompt, &config).unwrap();
    assert_eq!(review.url, "https://api.openai.com/v1/chat/completions");
    assert_eq!(review.auth_header_value, "Bearer ai-secret");
    assert!(review.body.contains("\"model\":\"gpt-4o-2024-05-13\""));

    let answer = "{\"choices\":[{\"message\":{\"content\":\"EMPTY_CODE_REVIEW\"}}]}";
    let verdict = handle_review_response(200, answer).unwrap();
    assert_eq!(verdict, "EMPTY_CODE_REVIEW");
}

#[test]
fn gitlab_end_to_end() {
    let config = full_config();
    let url = "https://gitlab.com/grp/proj/-/merge_requests/7";

    let plan = prepare_fetch(url, &config).unwrap();
    assert_eq!(plan.provider, Provider::GitLab);
    assert_eq!(
        plan.url,
        "https://gitlab.com/api/v4/projects/grp%2Fproj/merge_requests/7/diffs"
    );
    assert_eq!(plan.auth_header_name, "PRIVATE-TOKEN");
    assert_eq!(plan.auth_header_value, "gl-secret");

    let body = "[{\"old_path\":\"old.rs\",\"new_path\":\"new.rs\",\"diff\":\"+1\\n-2\\n\"}]";
    let diff = handle_fetch_response(Provider::GitLab, 200, body).unwrap();
    assert_eq!(diff.changes.len(), 1);
    assert_eq!(diff.changes[0].prior_path, "old.rs");
    assert_eq!(diff.changes[0].path, "new.rs");
    assert_eq!(diff.changes[0].patch_text, "+1\n-2\n");

    let prompt = build_prompt(plan.provider, &diff);
    assert!(prompt.contains("File: new.rs"));
    assert!(prompt.contains("Old Path: old.rs"));
    assert!(prompt.contains("+1\n-2\n"));
}

#[test]
fn missing_github_credential_fails_before_any_call() {
    let config = AppConfig::with_tokens("gl".to_string(), "".to_string(), "ai".to_string());
    let r = prepare_fetch("https://github.com/acme/widgets/pull/42", &config);
    assert_eq!(r, Err(Error::MissingCredential(CredentialKind::GitHub)));
}

#[test]
fn missing_gitlab_credential_fails_before_any_call() {
    let config = AppConfig::with_tokens("".to_string(), "gh".to_string(), "ai".to_string());
    let r = prepare_fetch("https://gitlab.com/grp/proj/-/merge_requests/7", &config);
    assert_eq!(r, Err(Error::MissingCredential(CredentialKind::GitLab)));
}

#[test]
fn missing_review_credential_fails_before_any_call() {
    let config = AppConfig::with_tokens("gl".to_string(), "gh".to_string(), "".to_string());
    let r = prepare_review("prompt", &config);
    assert!(matches!(r, Err(Error::MissingCredential(CredentialKind::Review))));
}

#[test]
fn malformed_link_beats_missing_credential() {
    let config = AppConfig::new();
    let r = prepare_fetch("https://github.com/acme", &config);
    assert_eq!(r, Err(Error::MalformedLink));
}

#[test]
fn github_upstream_error_kept_verbatim() {
    let r = handle_fetch_response(Provider::GitHub, 404, "not found");
    assert_eq!(
        r,
        Err(Error::UpstreamError {
            provider: Provider::GitHub,
            status: 404,
            body: "not found".to_string()
        })
    );
}

#[test]
fn gitlab_upstream_error_kept_verbatim() {
    let r = handle_fetch_response(Provider::GitLab, 500, "boom");
    assert_eq!(
        r,
        Err(Error::UpstreamError {
            provider: Provider::GitLab,
            status: 500,
            body: "boom".to_string()
        })
    );
}

#[test]
fn github_missing_patch_field_fails_whole_response() {
    let body = "[{\"filename\":\"a.rs\"}]";
    let r = handle_fetch_response(Provider::GitHub, 200, body);
    assert_eq!(r, Err(Error::MalformedUpstreamResponse));
}

#[test]
fn gitlab_missing_field_fails_whole_response() {
    let body = "[{\"old_path\":\"a\",\"new_path\":\"b\"},{\"old_path\":\"c\",\"new_path\":\"d\",\"diff\":\"+x\"}]";
    let r = handle_fetch_response(Provider::GitLab, 200, body);
    assert_eq!(r, Err(Error::MalformedUpstreamResponse));
}

#[test]
fn non_json_success_body_is_malformed() {
    let r = handle_fetch_response(Provider::GitHub, 200, "plainly not json");
    assert_eq!(r, Err(Error::MalformedUpstreamResponse));
}

#[test]
fn empty_choices_is_empty_review_response() {
    let r = handle_review_response(200, "{\"choices\":[]}");
    assert_eq!(r, Err(Error::EmptyReviewResponse));
}

#[test]
fn review_endpoint_error_kept_verbatim() {
    let r = handle_review_response(429, "{\"error\":\"rate\"}");
    assert_eq!(
        r,
        Err(Error::ReviewEndpointError {
            status: 429,
            body: "{\"error\":\"rate\"}".to_string()
        })
    );
}

#[test]
fn review_request_body_escapes_prompt() {
    let config = full_config();
    let plan = prepare_review("say \"hi\"\nplease", &config).unwrap();
    assert!(plan.body.contains("say \\\"hi\\\"\\nplease"));
    assert!(plan.body.contains("\"max_tokens\":1024"));
    assert!(plan.body.contains("\"role\":\"system\""));
    assert!(plan.body.contains("\"role\":\"user\""));
}

#[test]
fn empty_diff_yields_prompt_not_error() {
    let diff = NormalizedDiff { changes: Vec::new() };
    let p1 = build_prompt(Provider::GitHub, &diff);
    let p2 = build_prompt(Provider::GitHub, &diff);
    assert_eq!(p1, p2);
    assert_eq!(p1, code_reviewer::prompt::prompt_header());
    assert_eq!(build_prompt(Provider::GitLab, &diff), p1);
}

#[test]
fn first_of_several_choices_wins() {
    let answer =
        "{\"choices\":[{\"message\":{\"content\":\"first\"}},{\"message\":{\"content\":\"second\"}}]}";
    assert_eq!(handle_review_response(200, answer).unwrap(), "first");
}

#[test]
fn choice_missing_content_is_malformed() {
    let answer = "{\"choices\":[{\"message\":{}}]}";
    assert_eq!(
        handle_review_response(200, answer),
        Err(Error::MalformedUpstreamResponse)
    );
}

#[test]
fn github_response_order_is_kept() {
    let body = "[{\"filename\":\"b.rs\",\"patch\":\"+b\"},{\"filename\":\"a.rs\",\"patch\":\"+a\"}]";
    let diff = handle_fetch_response(Provider::GitHub, 200, body).unwrap();
    assert_eq!(diff.changes.len(), 2);
    assert_eq!(diff.changes[0].path, "b.rs");
    assert_eq!(diff.changes[1].path, "a.rs");
}
