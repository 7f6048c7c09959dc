//! GitLab's side of link parsing: a merge-request URL is positional from
//! the end, with the number in the trailing segment and the project path
//! in every segment between the host and the `-/merge_requests` marker.
//! The project path is form-urlencoded so its literal `/` survives as one
//! URL path component.

use vstd::prelude::*;
use vstd::utf8::encode_utf8;
use crate::encode::{form_encoded, form_urlencode, lemma_encode_utf8_len, lemma_form_encoded_len};
use crate::errors::{spec_is_success, is_success_status, Error, Provider};
use crate::model::{FileChange, NormalizedDiff};
use crate::strings::{
    is_digit,
    join_slash,
    lemma_split_concat,
    lemma_split_no_sep,
    split_by,
    split_char,
    parse_u64,
    str_eq,
    all_digits,
    dec_val,
    dec_str,
    u64_to_string,
};

verus! {

/// A GitLab request link is well formed when splitting on `/` ends in
/// `<namespace...>/<project>/-/merge_requests/<number>`: at least one
/// non-empty path segment between the host and the marker, and a
/// positive number in the trailing segment.
pub open spec fn gl_wf(url: Seq<char>) -> bool {
    let segs = split_by(url, '/');
    let n = segs.len() as int;
    &&& n >= 7
    &&& segs[n - 3] == "-"@
    &&& segs[n - 2] == "merge_requests"@
    &&& (forall|i: int| 3 <= i < n - 3 ==> (#[trigger] segs[i]).len() > 0)
    &&& segs[n - 1].len() > 0
    &&& all_digits(segs[n - 1])
    &&& dec_val(segs[n - 1]) <= u64::MAX
    &&& 0 < dec_val(segs[n - 1])
}

/// The leading namespace segment of a well-formed GitLab link.
pub open spec fn gl_namespace(url: Seq<char>) -> Seq<char> {
    split_by(url, '/')[3]
}

/// The whole project path: every segment between the host and the
/// `-/merge_requests` marker, nested namespace levels included, joined
/// with `/`.
pub open spec fn gl_path(url: Seq<char>) -> Seq<char> {
    let segs = split_by(url, '/');
    join_slash(segs, 3, segs.len() - 3)
}

/// The project path as a single form-urlencoded path component.
pub open spec fn gl_encoded_path(url: Seq<char>) -> Seq<char> {
    form_encoded(encode_utf8(gl_path(url)))
}

/// The request number of a well-formed GitLab link.
pub open spec fn gl_number(url: Seq<char>) -> nat {
    let segs = split_by(url, '/');
    dec_val(segs[segs.len() - 1])
}

/// Splits a GitLab request link into namespace, encoded project path and
/// number; `None` exactly when the link is not well formed.
pub fn parse_gitlab_link(url: &str) -> (r: Option<(String, String, u64)>)
    ensures
        match r {
            Some(t) => gl_wf(url@) && t.0@ == gl_namespace(url@) && t.1@ == gl_encoded_path(url@)
                && t.2 == gl_number(url@) && t.1@.len() > 0,
            None => !gl_wf(url@),
        },
{
    let segs = split_char(url, '/');
    let n = segs.len();
    if n < 7 {
        return None;
    }
    if !str_eq(segs[n - 3].as_str(), "-") {
        return None;
    }
    if !str_eq(segs[n - 2].as_str(), "merge_requests") {
        return None;
    }
    let num = match parse_u64(segs[n - 1].as_str()) {
        None => {
            return None;
        },
        Some(v) => v,
    };
    if num == 0 {
        return None;
    }
    let ns = segs[3].clone();
    if ns.as_str().unicode_len() == 0 {
        proof {
            assert(segs.deep_view()[3].len() == 0);
            assert(!gl_wf(url@));
        }
        return None;
    }
    let mut joined = ns.clone();
    let mut i: usize = 4;
    while i < n - 3
        invariant
            7 <= n,
            4 <= i <= n - 3,
            n == segs@.len(),
            segs.deep_view() == split_by(url@, '/'),
            split_by(url@, '/')[n - 3] == "-"@,
            split_by(url@, '/')[n - 2] == "merge_requests"@,
            split_by(url@, '/')[n - 1].len() > 0,
            all_digits(split_by(url@, '/')[n - 1]),
            dec_val(split_by(url@, '/')[n - 1]) == num,
            0 < num,
            ns@ == split_by(url@, '/')[3],
            forall|j: int| 3 <= j < i ==> (#[trigger] segs.deep_view()[j]).len() > 0,
            joined@ == join_slash(segs.deep_view(), 3, i as int),
            joined@.len() > 0,
        decreases n - 3 - i,
    {
        if segs[i].as_str().unicode_len() == 0 {
            proof {
                assert(split_by(url@, '/')[i as int].len() == 0);
                assert(!gl_wf(url@));
            }
            return None;
        }
        joined.append("/");
        joined.append(segs[i].as_str());
        proof {
            reveal_strlit("/");
            assert(joined@ =~= join_slash(segs.deep_view(), 3, i + 1));
        }
        i += 1;
    }
    proof {
        assert(joined@ == gl_path(url@));
        lemma_encode_utf8_len(gl_path(url@));
        lemma_form_encoded_len(encode_utf8(gl_path(url@)));
    }
    let encoded = form_urlencode(joined.as_str());
    Some((ns, encoded, num))
}

/// A GitLab request link with one namespace level, written out as one
/// concatenation.
pub open spec fn gl_concat_url(ns: Seq<char>, proj: Seq<char>, num: Seq<char>) -> Seq<char> {
    "https://gitlab.com/"@ + ns + seq!['/'] + proj + "/-/merge_requests/"@ + num
}

/// For every link `https://gitlab.com/<ns>/<proj>/-/merge_requests/<n>`
/// with `/`-free non-empty namespace and project and a positive
/// in-range number, classification is owed and yields the encoded
/// project path and the trailing number exactly.
pub proof fn lemma_gl_concat_form(ns: Seq<char>, proj: Seq<char>, num: Seq<char>)
    requires
        ns.len() > 0,
        !ns.contains('/'),
        proj.len() > 0,
        !proj.contains('/'),
        num.len() > 0,
        all_digits(num),
        0 < dec_val(num) <= u64::MAX,
    ensures
        gl_wf(gl_concat_url(ns, proj, num)),
        gl_namespace(gl_concat_url(ns, proj, num)) == ns,
        gl_path(gl_concat_url(ns, proj, num)) == ns + seq!['/'] + proj,
        gl_encoded_path(gl_concat_url(ns, proj, num)) == form_encoded(
            encode_utf8(ns + seq!['/'] + proj),
        ),
        gl_number(gl_concat_url(ns, proj, num)) == dec_val(num),
{
    let url = gl_concat_url(ns, proj, num);
    reveal_strlit("https://gitlab.com/");
    reveal_strlit("/-/merge_requests/");
    reveal_strlit("https:");
    reveal_strlit("gitlab.com");
    reveal_strlit("-");
    reveal_strlit("merge_requests");
    let scheme = "https:"@;
    let empty = Seq::<char>::empty();
    let host = "gitlab.com"@;
    let dash = "-"@;
    let marker = "merge_requests"@;
    let t6 = marker + seq!['/'] + num;
    let t5 = dash + seq!['/'] + t6;
    let t4 = proj + seq!['/'] + t5;
    let t3 = ns + seq!['/'] + t4;
    let t2 = host + seq!['/'] + t3;
    let t1 = empty + seq!['/'] + t2;
    assert(url =~= scheme + seq!['/'] + t1);
    assert forall|i: int| 0 <= i < num.len() implies num[i] != '/' by {
        assert(is_digit(num[i]));
    }
    assert(!num.contains('/'));
    assert(!scheme.contains('/'));
    assert(!host.contains('/'));
    assert(!dash.contains('/'));
    assert(!marker.contains('/'));
    assert(!empty.contains('/'));
    lemma_split_no_sep(num, '/');
    lemma_split_no_sep(marker, '/');
    lemma_split_no_sep(dash, '/');
    lemma_split_no_sep(proj, '/');
    lemma_split_no_sep(ns, '/');
    lemma_split_no_sep(host, '/');
    lemma_split_no_sep(empty, '/');
    lemma_split_no_sep(scheme, '/');
    lemma_split_concat(marker, num, '/');
    lemma_split_concat(dash, t6, '/');
    lemma_split_concat(proj, t5, '/');
    lemma_split_concat(ns, t4, '/');
    lemma_split_concat(host, t3, '/');
    lemma_split_concat(empty, t2, '/');
    lemma_split_concat(scheme, t1, '/');
    let segs = seq![scheme, empty, host, ns, proj, dash, marker, num];
    assert(split_by(url, '/') =~~= segs);
    assert(join_slash(segs, 3, 4) == ns);
    assert(gl_path(url) =~= ns + seq!['/'] + proj);
}

/// The encoded project path and number of a well-formed GitLab request
/// link.
pub fn extract_info(pr_link: &str) -> (r: (String, u64))
    requires
        gl_wf(pr_link@),
    ensures
        r.0@ == gl_encoded_path(pr_link@),
        r.1 == gl_number(pr_link@),
{
    match parse_gitlab_link(pr_link) {
        Some(t) => (t.1, t.2),
        None => {
            proof {
                assert(false);
            }
            (String::new(), 1)
        },
    }
}

/// The merge-request diffs endpoint for one request.
pub open spec fn spec_gitlab_diffs_url(project_id: Seq<char>, number: u64) -> Seq<char> {
    "https://gitlab.com/api/v4/projects/"@ + project_id + "/merge_requests/"@ + dec_str(
        number as nat,
    ) + "/diffs"@
}

/// Builds the merge-request diffs endpoint URL for one request; the
/// project identifier is the encoded project path.
pub fn gitlab_diffs_url(project_id: &str, mr_id: u64) -> (r: String)
    ensures
        r@ == spec_gitlab_diffs_url(project_id@, mr_id),
{
    let mut out = "https://gitlab.com/api/v4/projects/".to_owned();
    out.append(project_id);
    out.append("/merge_requests/");
    let n = u64_to_string(mr_id);
    out.append(n.as_str());
    out.append("/diffs");
    out
}

/// A normalized change at position `i` that carries the decoded triple at
/// `i`: the prior path holds `old_path`, the path `new_path`, the patch
/// text `diff`.
pub open spec fn gitlab_entry_match(
    d: Seq<crate::model::FileChangeView>,
    es: Seq<(String, String, String)>,
    i: int,
) -> bool {
    &&& d[i].prior_path == es[i].0@
    &&& d[i].path == es[i].1@
    &&& d[i].patch_text == es[i].2@
}

/// Turns decoded `(old_path, new_path, diff)` triples into normalized
/// changes, keeping the upstream order.
pub fn changes_from_gitlab_entries(entries: Vec<(String, String, String)>) -> (r: NormalizedDiff)
    ensures
        r@.len() == entries@.len(),
        forall|i: int| 0 <= i < entries@.len() ==> #[trigger] gitlab_entry_match(
            r@,
            entries@,
            i,
        ),
{
    let mut changes: Vec<FileChange> = Vec::new();
    let mut i: usize = 0;
    while i < entries.len()
        invariant
            i <= entries.len(),
            changes@.len() == i,
            forall|j: int| 0 <= j < i ==> #[trigger] gitlab_entry_match(
                changes.deep_view(),
                entries@,
                j,
            ),
        decreases entries.len() - i,
    {
        let prior = entries[i].0.clone();
        let path = entries[i].1.clone();
        let patch = entries[i].2.clone();
        let ghost pre = changes.deep_view();
        changes.push(FileChange { path, prior_path: prior, patch_text: patch });
        proof {
            assert(changes.deep_view() =~= pre.push(
                crate::model::FileChangeView {
                    path: entries@[i as int].1@,
                    prior_path: entries@[i as int].0@,
                    patch_text: entries@[i as int].2@,
                },
            ));
            assert forall|j: int| 0 <= j < i + 1 implies #[trigger] gitlab_entry_match(
                changes.deep_view(),
                entries@,
                j,
            ) by {
                if j < i {
                    assert(gitlab_entry_match(pre, entries@, j));
                }
            }
        }
        i += 1;
    }
    NormalizedDiff { changes }
}

/// What a merge-request diffs body decodes to: the
/// `(old_path, new_path, diff)` string rows of a JSON array of objects,
/// in order; nothing when the body is not such an array or a row lacks
/// one of the three string fields. A function of the text alone.
pub uninterp spec fn gl_diffs_of(body: Seq<char>) -> Option<
    Seq<(Seq<char>, Seq<char>, Seq<char>)>,
>;

/// Relies on serde_json (`from_str`, `Value::get`, `Value::as_array`,
/// `Value::as_str`): decodes a merge-request diffs body into its
/// `(old_path, new_path, diff)` rows; serde_json's decoding depends on
/// the text alone.
#[verifier::external_body]
fn decode_gitlab_diffs(body: &str) -> (r: Option<Vec<(String, String, String)>>)
    ensures
        r.deep_view() == gl_diffs_of(body@),
{
    let v: serde_json::Value = match serde_json::from_str(body) {
        Ok(v) => v,
        Err(_) => return None,
    };
    let arr = v.as_array()?;
    let mut out = Vec::new();
    for item in arr {
        let old_path = item.get("old_path")?.as_str()?;
        let new_path = item.get("new_path")?.as_str()?;
        let diff = item.get("diff")?.as_str()?;
        out.push((old_path.to_string(), new_path.to_string(), diff.to_string()));
    }
    Some(out)
}

/// Interprets GitLab's answer to the merge-request diffs request. A
/// non-success status is an upstream error carrying the body verbatim; a
/// success body must decode to its `(old_path, new_path, diff)` rows,
/// which become the normalized changes in order, and a single
/// undecodable row fails the whole response rather than dropping the
/// item, since a partial diff would yield a misleadingly incomplete
/// review.
pub fn parse_gitlab_response(status: u16, body: &str) -> (r: Result<NormalizedDiff, Error>)
    ensures
        !spec_is_success(status) ==> (r matches Err(e) && e matches Error::UpstreamError {
            provider,
            status: st,
            body: b,
        } && provider == Provider::GitLab && st == status && b@ == body@),
        spec_is_success(status) ==> match gl_diffs_of(body@) {
            Some(rows) => r matches Ok(d) && d@.len() == rows.len() && (forall|i: int|
                0 <= i < rows.len() ==> (#[trigger] d@[i]).prior_path == rows[i].0 && d@[i].path
                    == rows[i].1 && d@[i].patch_text == rows[i].2),
            None => r == Err::<NormalizedDiff, Error>(Error::MalformedUpstreamResponse),
        },
{
    if !is_success_status(status) {
        return Err(
            Error::UpstreamError { provider: Provider::GitLab, status, body: body.to_owned() },
        );
    }
    match decode_gitlab_diffs(body) {
        None => Err(Error::MalformedUpstreamResponse),
        Some(entries) => {
            let nd = changes_from_gitlab_entries(entries);
            proof {
                assert forall|k: int| 0 <= k < nd@.len() implies (#[trigger] nd@[k]).prior_path
                    == entries.deep_view()[k].0 && nd@[k].path == entries.deep_view()[k].1
                    && nd@[k].patch_text == entries.deep_view()[k].2 by {
                    assert(gitlab_entry_match(nd@, entries@, k));
                    assert(entries.deep_view()[k] == (
                        entries@[k].0@,
                        entries@[k].1@,
                        entries@[k].2@,
                    ));
                }
            }
            Ok(nd)
        },
    }
}

} // verus!
