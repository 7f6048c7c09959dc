//! Unit tests of the link parser, the form-urlencoded serializer, the
//! decimal conversions and the credential store.

use code_reviewer::config::AppConfig;
use code_reviewer::encode::form_urlencode;
use code_reviewer::errors::{Error, Provider};
use code_reviewer::github;
use code_reviewer::gitlab;
use code_reviewer::links::classify;
use code_reviewer::model::{FileChange, NormalizedDiff};
use code_reviewer::prompt::{add_code_reviewer_prompt, build_prompt, combine_diffs, prompt_header};

use code_reviewer::strings::{parse_u64, split_char, str_contains_str, u64_to_string};

#[test]
fn classify_github_link_exactly() {
    let rr = classify("https://github.com/acme/widgets/pull/42").unwrap();
    assert_eq!(rr.provider, Provider::GitHub);
    assert_eq!(rr.owner_or_namespace, "acme");
    assert_eq!(rr.repo_or_project, "widgets");
    assert_eq!(rr.request_number, 42);
}

#[test]
fn classify_gitlab_link_exactly() {
    let rr = classify("https://gitlab.com/grp/proj/-/merge_requests/7").unwrap();
    assert_eq!(rr.provider, Provider::GitLab);
    assert_eq!(rr.owner_or_namespace, "grp");
    assert_eq!(rr.repo_or_project, "grp%2Fproj");
    assert_eq!(rr.request_number, 7);
}

#[test]
fn classify_nested_gitlab_namespace_keeps_all_segments() {
    let rr = classify("https://gitlab.com/grp/sub/proj/-/merge_requests/7").unwrap();
    assert_eq!(rr.provider, Provider::GitLab);
    assert_eq!(rr.owner_or_namespace, "grp");
    assert_eq!(rr.repo_or_project, "grp%2Fsub%2Fproj");
    assert_eq!(rr.request_number, 7);
}

#[test]
fn classify_unknown_host_is_unsupported() {
    assert_eq!(
        classify("https://example.com/acme/widgets/pull/42"),
        Err(Error::UnsupportedProvider)
    );
    assert_eq!(classify(""), Err(Error::UnsupportedProvider));
    assert_eq!(classify("no url at all"), Err(Error::UnsupportedProvider));
}

#[test]
fn classify_rejects_malformed_github_links() {
    assert_eq!(classify("https://github.com/acme"), Err(Error::MalformedLink));
    assert_eq!(
        classify("https://github.com/acme/widgets/pull/abc"),
        Err(Error::MalformedLink)
    );
    assert_eq!(
        classify("https://github.com/acme/widgets/pull/0"),
        Err(Error::MalformedLink)
    );
    assert_eq!(
        classify("https://github.com/acme/widgets/issues/42"),
        Err(Error::MalformedLink)
    );
    assert_eq!(
        classify("https://github.com//widgets/pull/42"),
        Err(Error::MalformedLink)
    );
}

#[test]
fn classify_rejects_malformed_gitlab_links() {
    assert_eq!(
        classify("https://gitlab.com/grp/proj/merge_requests/7"),
        Err(Error::MalformedLink)
    );
    assert_eq!(
        classify("https://gitlab.com/grp/proj/-/merge_requests/x"),
        Err(Error::MalformedLink)
    );
    assert_eq!(classify("https://gitlab.com/"), Err(Error::MalformedLink));
}

#[test]
fn github_extract_info_matches_link() {
    let (owner, repo, number) = github::extract_info("https://github.com/acme/widgets/pull/42");
    assert_eq!(owner, "acme");
    assert_eq!(repo, "widgets");
    assert_eq!(number, 42);
}

#[test]
fn gitlab_extract_info_encodes_project_path() {
    let (project, number) = gitlab::extract_info("https://gitlab.com/grp/proj/-/merge_requests/7");
    assert_eq!(project, "grp%2Fproj");
    assert_eq!(number, 7);
}

#[test]
fn gitlab_extract_info_keeps_nested_namespaces() {
    let (project, number) =
        gitlab::extract_info("https://gitlab.com/grp/sub/proj/-/merge_requests/7");
    assert_eq!(project, "grp%2Fsub%2Fproj");
    assert_eq!(number, 7);
}

#[test]
fn form_urlencode_keeps_unreserved_bytes() {
    assert_eq!(form_urlencode("abc-XYZ_0.9*"), "abc-XYZ_0.9*");
}

#[test]
fn form_urlencode_escapes_the_rest() {
    assert_eq!(form_urlencode("a b*c/d"), "a+b*c%2Fd");
    assert_eq!(form_urlencode("x=y&z"), "x%3Dy%26z");
    assert_eq!(form_urlencode("caf\u{e9}"), "caf%C3%A9");
    assert_eq!(form_urlencode(""), "");
}

#[test]
fn parse_u64_exact_values() {
    assert_eq!(parse_u64("42"), Some(42));
    assert_eq!(parse_u64("0"), Some(0));
    assert_eq!(parse_u64("18446744073709551615"), Some(u64::MAX));
    assert_eq!(parse_u64("18446744073709551616"), None);
    assert_eq!(parse_u64(""), None);
    assert_eq!(parse_u64("12a"), None);
    assert_eq!(parse_u64("-1"), None);
}

#[test]
fn u64_to_string_exact_values() {
    assert_eq!(u64_to_string(0), "0");
    assert_eq!(u64_to_string(42), "42");
    assert_eq!(u64_to_string(1024), "1024");
    assert_eq!(u64_to_string(u64::MAX), "18446744073709551615");
}

#[test]
fn split_char_keeps_empty_segments() {
    let segs = split_char("a/b//c", '/');
    assert_eq!(segs, vec!["a", "b", "", "c"]);
    assert_eq!(split_char("", '/'), vec![""]);
    assert_eq!(split_char("/", '/'), vec!["", ""]);
}

#[test]
fn str_contains_str_cases() {
    assert!(str_contains_str("https://github.com/x", "github.com"));
    assert!(!str_contains_str("https://example.com/x", "github.com"));
    assert!(str_contains_str("anything", ""));
    assert!(!str_contains_str("ab", "abc"));
}

fn two_changes() -> NormalizedDiff {
    NormalizedDiff {
        changes: vec![
            FileChange {
                path: "a.rs".to_string(),
                prior_path: "a.rs".to_string(),
                patch_text: "+1\n".to_string(),
            },
            FileChange {
                path: "b.rs".to_string(),
                prior_path: "old_b.rs".to_string(),
                patch_text: "-2\n".to_string(),
            },
        ],
    }
}

#[test]
fn github_prompt_serializes_blocks_in_order() {
    let diff = two_changes();
    let combined = combine_diffs(Provider::GitHub, &diff);
    assert_eq!(
        combined,
        "File: a.rs\nDiff:\n+1\n\n\nFile: b.rs\nDiff:\n-2\n\n"
    );
    let prompt = add_code_reviewer_prompt(&combined);
    assert!(prompt.starts_with(prompt_header()));
    assert!(prompt.ends_with(&combined));
    assert_eq!(prompt, build_prompt(Provider::GitHub, &diff));
}

#[test]
fn gitlab_blocks_always_carry_the_old_path() {
    let diff = two_changes();
    let combined = combine_diffs(Provider::GitLab, &diff);
    assert_eq!(
        combined,
        "File: a.rs\nOld Path: a.rs\nDiff:\n+1\n\n\nFile: b.rs\nOld Path: old_b.rs\nDiff:\n-2\n\n"
    );
    assert_eq!(
        add_code_reviewer_prompt(&combined),
        build_prompt(Provider::GitLab, &diff)
    );
}

#[test]
fn prompt_header_names_the_sentinel() {
    assert!(prompt_header().contains("EMPTY_CODE_REVIEW"));
    assert!(prompt_header().contains("Here are the code changes:"));
}

#[test]
fn config_roundtrip_and_empty_means_missing() {
    let mut config = AppConfig::new();
    assert!(config.get_github_token().is_none());
    assert!(config.get_gitlab_token().is_none());
    assert!(config.get_openai_token().is_none());
    config.save_github_token("gh");
    config.save_gitlab_token("gl");
    config.save_openai_token("ai");
    assert_eq!(config.get_github_token(), Some("gh"));
    assert_eq!(config.get_gitlab_token(), Some("gl"));
    assert_eq!(config.get_openai_token(), Some("ai"));
    config.save_github_token("");
    assert!(config.get_github_token().is_none());
    assert_eq!(config.get_gitlab_token(), Some("gl"));
}
