//! GitHub's side of link parsing: a pull-request URL is positional, with
//! owner, repository and number at fixed offsets of the `/`-split link.

use vstd::prelude::*;
use crate::errors::{spec_is_success, is_success_status, Error, Provider};
use crate::model::{FileChange, NormalizedDiff};
use crate::strings::{
    lemma_split_concat,
    lemma_split_no_sep,
    split_by,
    split_char,
    parse_u64,
    str_eq,
    all_digits,
    is_digit,
    dec_val,
    dec_str,
    u64_to_string,
};

verus! {

/// A GitHub request link is well formed when splitting on `/` leaves a
/// non-empty owner, a non-empty repository, the literal segment `pull`,
/// and a positive number at the positions of
/// `https://github.com/<owner>/<repo>/pull/<number>`.
pub open spec fn gh_wf(url: Seq<char>) -> bool {
    let segs = split_by(url, '/');
    &&& segs.len() >= 7
    &&& segs[3].len() > 0
    &&& segs[4].len() > 0
    &&& segs[5] == "pull"@
    &&& segs[6].len() > 0
    &&& all_digits(segs[6])
    &&& dec_val(segs[6]) <= u64::MAX
    &&& 0 < dec_val(segs[6])
}

/// The owner segment of a well-formed GitHub link.
pub open spec fn gh_owner(url: Seq<char>) -> Seq<char> {
    split_by(url, '/')[3]
}

/// The repository segment of a well-formed GitHub link.
pub open spec fn gh_repo(url: Seq<char>) -> Seq<char> {
    split_by(url, '/')[4]
}

/// The request number of a well-formed GitHub link.
pub open spec fn gh_number(url: Seq<char>) -> nat {
    dec_val(split_by(url, '/')[6])
}

/// Splits a GitHub request link into owner, repository and number;
/// `None` exactly when the link is not well formed.
pub fn parse_github_link(url: &str) -> (r: Option<(String, String, u64)>)
    ensures
        match r {
            Some(t) => gh_wf(url@) && t.0@ == gh_owner(url@) && t.1@ == gh_repo(url@) && t.2
                == gh_number(url@),
            None => !gh_wf(url@),
        },
{
    let segs = split_char(url, '/');
    if segs.len() < 7 {
        return None;
    }
    let owner = segs[3].clone();
    let repo = segs[4].clone();
    if owner.as_str().unicode_len() == 0 || repo.as_str().unicode_len() == 0 {
        return None;
    }
    if !str_eq(segs[5].as_str(), "pull") {
        return None;
    }
    match parse_u64(segs[6].as_str()) {
        None => None,
        Some(n) => {
            if n == 0 {
                None
            } else {
                Some((owner, repo, n))
            }
        },
    }
}

/// A GitHub request link written out as one concatenation.
pub open spec fn gh_concat_url(owner: Seq<char>, repo: Seq<char>, num: Seq<char>) -> Seq<char> {
    "https://github.com/"@ + owner + seq!['/'] + repo + "/pull/"@ + num
}

/// For every link `https://github.com/<owner>/<repo>/pull/<n>` with
/// `/`-free non-empty owner and repository and a positive in-range
/// number, classification is owed and yields exactly those parts.
pub proof fn lemma_gh_concat_form(owner: Seq<char>, repo: Seq<char>, num: Seq<char>)
    requires
        owner.len() > 0,
        !owner.contains('/'),
        repo.len() > 0,
        !repo.contains('/'),
        num.len() > 0,
        all_digits(num),
        0 < dec_val(num) <= u64::MAX,
    ensures
        gh_wf(gh_concat_url(owner, repo, num)),
        gh_owner(gh_concat_url(owner, repo, num)) == owner,
        gh_repo(gh_concat_url(owner, repo, num)) == repo,
        gh_number(gh_concat_url(owner, repo, num)) == dec_val(num),
{
    let url = gh_concat_url(owner, repo, num);
    reveal_strlit("https://github.com/");
    reveal_strlit("/pull/");
    reveal_strlit("https:");
    reveal_strlit("github.com");
    reveal_strlit("pull");
    let scheme = "https:"@;
    let empty = Seq::<char>::empty();
    let host = "github.com"@;
    let marker = "pull"@;
    let t5 = marker + seq!['/'] + num;
    let t4 = repo + seq!['/'] + t5;
    let t3 = owner + seq!['/'] + t4;
    let t2 = host + seq!['/'] + t3;
    let t1 = empty + seq!['/'] + t2;
    assert(url =~= scheme + seq!['/'] + t1);
    assert forall|i: int| 0 <= i < num.len() implies num[i] != '/' by {
        assert(is_digit(num[i]));
    }
    assert(!num.contains('/'));
    assert(!scheme.contains('/'));
    assert(!host.contains('/'));
    assert(!marker.contains('/'));
    assert(!empty.contains('/'));
    lemma_split_no_sep(num, '/');
    lemma_split_no_sep(marker, '/');
    lemma_split_no_sep(repo, '/');
    lemma_split_no_sep(owner, '/');
    lemma_split_no_sep(host, '/');
    lemma_split_no_sep(empty, '/');
    lemma_split_no_sep(scheme, '/');
    lemma_split_concat(marker, num, '/');
    lemma_split_concat(repo, t5, '/');
    lemma_split_concat(owner, t4, '/');
    lemma_split_concat(host, t3, '/');
    lemma_split_concat(empty, t2, '/');
    lemma_split_concat(scheme, t1, '/');
    assert(split_by(url, '/') =~~= seq![scheme, empty, host, owner, repo, marker, num]);
}

/// The owner, repository and number of a well-formed GitHub request link.
pub fn extract_info(pr_link: &str) -> (r: (String, String, u64))
    requires
        gh_wf(pr_link@),
    ensures
        r.0@ == gh_owner(pr_link@),
        r.1@ == gh_repo(pr_link@),
        r.2 == gh_number(pr_link@),
{
    match parse_github_link(pr_link) {
        Some(t) => t,
        None => {
            proof {
                assert(false);
            }
            (String::new(), String::new(), 1)
        },
    }
}

/// The files-changed endpoint for one request.
pub open spec fn spec_github_files_url(owner: Seq<char>, repo: Seq<char>, number: u64) -> Seq<
    char,
> {
    "https://api.github.com/repos/"@ + owner + "/"@ + repo + "/pulls/"@ + dec_str(number as nat)
        + "/files"@
}

/// Builds the files-changed endpoint URL for one request.
pub fn github_files_url(owner: &str, repo: &str, pr_number: u64) -> (r: String)
    ensures
        r@ == spec_github_files_url(owner@, repo@, pr_number),
{
    let mut out = "https://api.github.com/repos/".to_owned();
    out.append(owner);
    out.append("/");
    out.append(repo);
    out.append("/pulls/");
    let n = u64_to_string(pr_number);
    out.append(n.as_str());
    out.append("/files");
    out
}

/// A normalized change at position `i` that carries the decoded pair at
/// `i`: path and prior path both hold the filename, the patch text the
/// patch.
pub open spec fn github_entry_match(
    d: Seq<crate::model::FileChangeView>,
    es: Seq<(String, String)>,
    i: int,
) -> bool {
    &&& d[i].path == es[i].0@
    &&& d[i].prior_path == es[i].0@
    &&& d[i].patch_text == es[i].1@
}

/// Turns decoded `(filename, patch)` pairs into normalized changes: the
/// path and the prior path both take the filename, since GitHub's
/// files-changed payload reports no rename information here.
pub fn changes_from_github_entries(entries: Vec<(String, String)>) -> (r: NormalizedDiff)
    ensures
        r@.len() == entries@.len(),
        forall|i: int| 0 <= i < entries@.len() ==> #[trigger] github_entry_match(
            r@,
            entries@,
            i,
        ),
{
    let mut changes: Vec<FileChange> = Vec::new();
    let mut i: usize = 0;
    while i < entries.len()
        invariant
            i <= entries.len(),
            changes@.len() == i,
            forall|j: int| 0 <= j < i ==> #[trigger] github_entry_match(
                changes.deep_view(),
                entries@,
                j,
            ),
        decreases entries.len() - i,
    {
        let path = entries[i].0.clone();
        let prior = entries[i].0.clone();
        let patch = entries[i].1.clone();
        let ghost pre = changes.deep_view();
        changes.push(FileChange { path, prior_path: prior, patch_text: patch });
        proof {
            assert(changes.deep_view() =~= pre.push(
                crate::model::FileChangeView {
                    path: entries@[i as int].0@,
                    prior_path: entries@[i as int].0@,
                    patch_text: entries@[i as int].1@,
                },
            ));
            assert forall|j: int| 0 <= j < i + 1 implies #[trigger] github_entry_match(
                changes.deep_view(),
                entries@,
                j,
            ) by {
                if j < i {
                    assert(github_entry_match(pre, entries@, j));
                }
            }
        }
        i += 1;
    }
    NormalizedDiff { changes }
}

/// What a files-changed body decodes to: the `(filename, patch)` string
/// rows of a JSON array of objects, in order; nothing when the body is
/// not such an array or a row lacks one of the two string fields. A
/// function of the text alone.
pub uninterp spec fn gh_files_of(body: Seq<char>) -> Option<Seq<(Seq<char>, Seq<char>)>>;

/// Relies on serde_json (`from_str`, `Value::get`, `Value::as_array`,
/// `Value::as_str`): decodes a files-changed body into its
/// `(filename, patch)` rows; serde_json's decoding depends on the text
/// alone.
#[verifier::external_body]
fn decode_github_files(body: &str) -> (r: Option<Vec<(String, String)>>)
    ensures
        r.deep_view() == gh_files_of(body@),
{
    let v: serde_json::Value = match serde_json::from_str(body) {
        Ok(v) => v,
        Err(_) => return None,
    };
    let arr = v.as_array()?;
    let mut out = Vec::new();
    for item in arr {
        let filename = item.get("filename")?.as_str()?;
        let patch = item.get("patch")?.as_str()?;
        out.push((filename.to_string(), patch.to_string()));
    }
    Some(out)
}

/// Interprets GitHub's answer to the files-changed request. A non-success
/// status is an upstream error carrying the body verbatim; a success body
/// must decode to its `(filename, patch)` rows, which become the
/// normalized changes in order, and a single undecodable row fails the
/// whole response rather than dropping the item.
pub fn parse_github_response(status: u16, body: &str) -> (r: Result<NormalizedDiff, Error>)
    ensures
        !spec_is_success(status) ==> (r matches Err(e) && e matches Error::UpstreamError {
            provider,
            status: st,
            body: b,
        } && provider == Provider::GitHub && st == status && b@ == body@),
        spec_is_success(status) ==> match gh_files_of(body@) {
            Some(rows) => r matches Ok(d) && d@.len() == rows.len() && (forall|i: int|
                0 <= i < rows.len() ==> (#[trigger] d@[i]).path == rows[i].0 && d@[i].prior_path
                    == rows[i].0 && d@[i].patch_text == rows[i].1),
            None => r == Err::<NormalizedDiff, Error>(Error::MalformedUpstreamResponse),
        },
        r matches Ok(d) ==> forall|i: int| 0 <= i < d@.len() ==> (#[trigger] d@[i]).prior_path
            == d@[i].path,
{
    if !is_success_status(status) {
        return Err(
            Error::UpstreamError { provider: Provider::GitHub, status, body: body.to_owned() },
        );
    }
    match decode_github_files(body) {
        None => Err(Error::MalformedUpstreamResponse),
        Some(entries) => {
            let nd = changes_from_github_entries(entries);
            proof {
                assert forall|k: int| 0 <= k < nd@.len() implies (#[trigger] nd@[k]).prior_path
                    == nd@[k].path && nd@[k].path == entries.deep_view()[k].0 && nd@[k].patch_text
                    == entries.deep_view()[k].1 by {
                    assert(github_entry_match(nd@, entries@, k));
                    assert(entries.deep_view()[k] == (entries@[k].0@, entries@[k].1@));
                }
            }
            Ok(nd)
        },
    }
}

} // verus!
