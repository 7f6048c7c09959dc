//! The three optional credentials, as the caller hands them in. An empty
//! string means "not configured": both absence and emptiness are reported
//! as a missing credential downstream. Persisting this value is the
//! caller's business; this crate only reads and rewrites the fields.

use vstd::prelude::*;

verus! {

/// The caller-constructed credential store: one opaque bearer string per
/// provider and one for the review endpoint.
pub struct AppConfig {
    gitlab_token: String,
    github_token: String,
    openai_token: String,
}

impl AppConfig {
    /// An empty store, with no credential configured.
    pub fn new() -> (r: AppConfig)
        ensures
            r.spec_gitlab_token().len() == 0,
            r.spec_github_token().len() == 0,
            r.spec_openai_token().len() == 0,
    {
        AppConfig { gitlab_token: String::new(), github_token: String::new(), openai_token: String::new() }
    }

    /// A store holding the given three credentials.
    pub fn with_tokens(gitlab_token: String, github_token: String, openai_token: String) -> (r:
        AppConfig)
        ensures
            r.spec_gitlab_token() == gitlab_token@,
            r.spec_github_token() == github_token@,
            r.spec_openai_token() == openai_token@,
    {
        AppConfig { gitlab_token, github_token, openai_token }
    }

    pub closed spec fn spec_gitlab_token(&self) -> Seq<char> {
        self.gitlab_token@
    }

    pub closed spec fn spec_github_token(&self) -> Seq<char> {
        self.github_token@
    }

    pub closed spec fn spec_openai_token(&self) -> Seq<char> {
        self.openai_token@
    }

    /// Replaces the GitLab credential, leaving the others untouched.
    pub fn save_gitlab_token(&mut self, token: &str)
        ensures
            final(self).spec_gitlab_token() == token@,
            final(self).spec_github_token() == old(self).spec_github_token(),
            final(self).spec_openai_token() == old(self).spec_openai_token(),
    {
        self.gitlab_token = token.to_owned();
    }

    /// Replaces the GitHub credential, leaving the others untouched.
    pub fn save_github_token(&mut self, token: &str)
        ensures
            final(self).spec_github_token() == token@,
            final(self).spec_gitlab_token() == old(self).spec_gitlab_token(),
            final(self).spec_openai_token() == old(self).spec_openai_token(),
    {
        self.github_token = token.to_owned();
    }

    /// Replaces the review-endpoint credential, leaving the others
    /// untouched.
    pub fn save_openai_token(&mut self, token: &str)
        ensures
            final(self).spec_openai_token() == token@,
            final(self).spec_gitlab_token() == old(self).spec_gitlab_token(),
            final(self).spec_github_token() == old(self).spec_github_token(),
    {
        self.openai_token = token.to_owned();
    }

    /// The GitLab credential, or `None` when it is not configured.
    pub fn get_gitlab_token(&self) -> (r: Option<&str>)
        ensures
            match r {
                Some(t) => self.spec_gitlab_token().len() > 0 && t@ == self.spec_gitlab_token(),
                None => self.spec_gitlab_token().len() == 0,
            },
    {
        if self.gitlab_token.as_str().unicode_len() == 0 {
            None
        } else {
            Some(self.gitlab_token.as_str())
        }
    }

    /// The GitHub credential, or `None` when it is not configured.
    pub fn get_github_token(&self) -> (r: Option<&str>)
        ensures
            match r {
                Some(t) => self.spec_github_token().len() > 0 && t@ == self.spec_github_token(),
                None => self.spec_github_token().len() == 0,
            },
    {
        if self.github_token.as_str().unicode_len() == 0 {
            None
        } else {
            Some(self.github_token.as_str())
        }
    }

    /// The review-endpoint credential, or `None` when it is not
    /// configured.
    pub fn get_openai_token(&self) -> (r: Option<&str>)
        ensures
            match r {
                Some(t) => self.spec_openai_token().len() > 0 && t@ == self.spec_openai_token(),
                None => self.spec_openai_token().len() == 0,
            },
    {
        if self.openai_token.as_str().unicode_len() == 0 {
            None
        } else {
            Some(self.openai_token.as_str())
        }
    }
}

} // verus!
