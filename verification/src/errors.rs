//! The failure taxonomy of the review pipeline. Every stage fails fast and
//! hands the first error unchanged to the caller; no stage retries or
//! recovers locally.

use vstd::prelude::*;

verus! {

/// The two request-hosting providers this pipeline understands.
#[derive(Clone, Copy, Debug, PartialEq, Eq, Structural)]
pub enum Provider {
    GitHub,
    GitLab,
}

/// The three independently configured credentials.
#[derive(Clone, Copy, Debug, PartialEq, Eq, Structural)]
pub enum CredentialKind {
    GitHub,
    GitLab,
    Review,
}

/// A terminal failure of one pipeline stage.
#[derive(Debug, PartialEq, Eq)]
pub enum Error {
    /// The URL names neither recognized provider host.
    UnsupportedProvider,
    /// The URL names a provider but lacks a required segment, or its
    /// trailing segment is not a positive number.
    MalformedLink,
    /// The credential needed for the next call is not configured.
    MissingCredential(CredentialKind),
    /// The provider answered with a non-success status; the body is kept
    /// verbatim for diagnosis.
    UpstreamError { provider: Provider, status: u16, body: String },
    /// A provider response decoded, but an item lacked an expected field.
    MalformedUpstreamResponse,
    /// The review endpoint answered success with no candidate at all.
    EmptyReviewResponse,
    /// The review endpoint answered with a non-success status; the body is
    /// its own error payload, kept verbatim.
    ReviewEndpointError { status: u16, body: String },
}

/// An HTTP status is a success exactly when it lies in the 2xx range.
pub open spec fn spec_is_success(status: u16) -> bool {
    200 <= status < 300
}

/// Executable success test for an HTTP status code.
pub fn is_success_status(status: u16) -> (r: bool)
    ensures
        r == spec_is_success(status),
{
    200 <= status && status < 300
}

} // verus!
