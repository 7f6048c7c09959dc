//! The prompt builder: serializes the normalized diff into labeled blocks,
//! joins them in order with one blank line between blocks, and puts the
//! fixed review instruction header in front. The header and the system
//! message text are constants, kept letter for letter, since
//! downstream consumers look for the sentinel token they name.

use vstd::prelude::*;
use crate::errors::Provider;
use crate::model::{FileChangeView, NormalizedDiff};
use crate::strings::{has_substring, occurs_at};

verus! {

/// The fixed instruction header the prompt opens with.
pub open spec fn spec_prompt_header() -> Seq<char> {
    "\n        Analyze the provided code changes in the Merge Request (MR) for potential issues and suggest improvements. Your review should cover:\n\n        Syntax: Identify and correct syntax errors.\n        Logic: Highlight logical errors or potential issues in the code flow.\n        Efficiency: Suggest optimizations for better performance.\n        Style: Ensure adherence to the company's coding standards and style guides.\n        Security: Identify potential security vulnerabilities.\n        Guidelines:\n        \n        Focus on changed lines: Lines starting with '+' or '-'.\n        Ignore unchanged lines: Lines starting with ' '.\n        Avoid repetition: Comment only once on identical issues.\n        Format feedback with Markdown: Use bullet points and code snippets.\n        Write 'EMPTY_CODE_REVIEW' if there are no issues in whole MR.\n        Example output format:\n        - **Issue:** Potential null pointer exception.\n        **Suggestion:** Add a null check before accessing the object.\n        **Code:** `if (object != null) { // use object }`\n        - **Issue:** Inefficient loop.\n        **Suggestion:** Replace with a more efficient algorithm.\n        **Code:** `for (int i = 0; i < list.size(); i++) { // optimized code }`\n        Here are the code changes:\n    "@
}

/// The fixed text of the system-role message.
pub open spec fn spec_ai_role() -> Seq<char> {
    "You assist in the code review process by \n  analyzing changes in Merge Requests (MRs) within the software development pipeline. \n  Your primary responsibilities include identifying potential issues, suggesting improvements, \n  and ensuring adherence to best coding practices. \n  You will provide feedback on syntax, logic, efficiency, style, and security aspects of the code."@
}

/// The fixed instruction header, ending just where the serialized diff is
/// appended.
pub fn prompt_header() -> (r: &'static str)
    ensures
        r@ == spec_prompt_header(),
{
    "\n        Analyze the provided code changes in the Merge Request (MR) for potential issues and suggest improvements. Your review should cover:\n\n        Syntax: Identify and correct syntax errors.\n        Logic: Highlight logical errors or potential issues in the code flow.\n        Efficiency: Suggest optimizations for better performance.\n        Style: Ensure adherence to the company's coding standards and style guides.\n        Security: Identify potential security vulnerabilities.\n        Guidelines:\n        \n        Focus on changed lines: Lines starting with '+' or '-'.\n        Ignore unchanged lines: Lines starting with ' '.\n        Avoid repetition: Comment only once on identical issues.\n        Format feedback with Markdown: Use bullet points and code snippets.\n        Write 'EMPTY_CODE_REVIEW' if there are no issues in whole MR.\n        Example output format:\n        - **Issue:** Potential null pointer exception.\n        **Suggestion:** Add a null check before accessing the object.\n        **Code:** `if (object != null) { // use object }`\n        - **Issue:** Inefficient loop.\n        **Suggestion:** Replace with a more efficient algorithm.\n        **Code:** `for (int i = 0; i < list.size(); i++) { // optimized code }`\n        Here are the code changes:\n    "
}

/// The fixed text of the review endpoint's system message.
pub fn get_code_reviewer_ai_role() -> (r: &'static str)
    ensures
        r@ == spec_ai_role(),
{
    "You assist in the code review process by \n  analyzing changes in Merge Requests (MRs) within the software development pipeline. \n  Your primary responsibilities include identifying potential issues, suggesting improvements, \n  and ensuring adherence to best coding practices. \n  You will provide feedback on syntax, logic, efficiency, style, and security aspects of the code."
}

/// One labeled block per changed file, in the provider's native shape:
/// a GitLab block always carries the prior path, a GitHub block never
/// does (its payload reports none); the patch text stands verbatim in
/// both.
pub open spec fn spec_block(provider: Provider, c: FileChangeView) -> Seq<char> {
    if provider == Provider::GitLab {
        "File: "@ + c.path + "\nOld Path: "@ + c.prior_path + "\nDiff:\n"@ + c.patch_text + "\n"@
    } else {
        "File: "@ + c.path + "\nDiff:\n"@ + c.patch_text + "\n"@
    }
}

/// All blocks in diff order, separated by one blank line.
pub open spec fn spec_blocks(provider: Provider, cs: Seq<FileChangeView>) -> Seq<char>
    decreases cs.len(),
{
    if cs.len() == 0 {
        Seq::<char>::empty()
    } else if cs.len() == 1 {
        spec_block(provider, cs[0])
    } else {
        spec_blocks(provider, cs.drop_last()) + "\n"@ + spec_block(provider, cs.last())
    }
}

/// The whole review prompt for a diff.
pub open spec fn spec_prompt(provider: Provider, cs: Seq<FileChangeView>) -> Seq<char> {
    spec_prompt_header() + spec_blocks(provider, cs)
}

/// Serializes the normalized diff into its joined blocks, in the shape
/// of the provider it came from.
pub fn combine_diffs(provider: Provider, diff: &NormalizedDiff) -> (r: String)
    ensures
        r@ == spec_blocks(provider, diff@),
{
    let mut out = String::new();
    let mut i: usize = 0;
    proof {
        assert(diff@.take(0) =~= Seq::<FileChangeView>::empty());
    }
    while i < diff.changes.len()
        invariant
            i <= diff.changes.len(),
            diff@.len() == diff.changes.len(),
            out@ == spec_blocks(provider, diff@.take(i as int)),
        decreases diff.changes.len() - i,
    {
        if i > 0 {
            out.append("\n");
        }
        let c = &diff.changes[i];
        out.append("File: ");
        out.append(c.path.as_str());
        if provider == Provider::GitLab {
            out.append("\nOld Path: ");
            out.append(c.prior_path.as_str());
        }
        out.append("\nDiff:\n");
        out.append(c.patch_text.as_str());
        out.append("\n");
        proof {
            assert(diff@.take(i + 1).drop_last() =~= diff@.take(i as int));
            assert(diff@.take(i + 1).last() == diff@[i as int]);
            assert(out@ =~= spec_blocks(provider, diff@.take(i + 1)));
        }
        i += 1;
    }
    proof {
        assert(diff@.take(diff.changes.len() as int) =~= diff@);
    }
    out
}

/// Puts the fixed instruction header in front of the serialized diff.
pub fn add_code_reviewer_prompt(combined_diffs: &String) -> (r: String)
    ensures
        r@ == spec_prompt_header() + combined_diffs@,
{
    let mut out = prompt_header().to_owned();
    out.append(combined_diffs.as_str());
    out
}

/// Builds the whole review prompt from a normalized diff. Total: the
/// empty diff yields the bare header, never an error.
pub fn build_prompt(provider: Provider, diff: &NormalizedDiff) -> (r: String)
    ensures
        r@ == spec_prompt(provider, diff@),
{
    let combined = combine_diffs(provider, diff);
    add_code_reviewer_prompt(&combined)
}

/// Whatever a sequence holds, it holds after something is put in front.
pub proof fn lemma_has_substring_concat_l(a: Seq<char>, b: Seq<char>, x: Seq<char>)
    requires
        has_substring(b, x),
    ensures
        has_substring(a + b, x),
{
    let i = choose|i: int| occurs_at(b, x, i);
    assert((a + b).subrange(a.len() + i, a.len() + i + x.len()) =~= b.subrange(i, i + x.len()));
    assert(occurs_at(a + b, x, a.len() + i));
}

/// Whatever a sequence holds, it holds after something is appended.
pub proof fn lemma_has_substring_concat_r(a: Seq<char>, b: Seq<char>, x: Seq<char>)
    requires
        has_substring(a, x),
    ensures
        has_substring(a + b, x),
{
    let i = choose|i: int| occurs_at(a, x, i);
    assert((a + b).subrange(i, i + x.len()) =~= a.subrange(i, i + x.len()));
    assert(occurs_at(a + b, x, i));
}

/// A block holds its patch text verbatim.
proof fn lemma_block_contains_patch(provider: Provider, c: FileChangeView)
    ensures
        has_substring(spec_block(provider, c), c.patch_text),
{
    if provider == Provider::GitLab {
        let pre = "File: "@ + c.path + "\nOld Path: "@ + c.prior_path + "\nDiff:\n"@;
        assert(spec_block(provider, c).subrange(pre.len() as int, pre.len() as int + c.patch_text.len() as int) =~= c.patch_text);
        assert(occurs_at(spec_block(provider, c), c.patch_text, pre.len() as int));
    } else {
        let pre = "File: "@ + c.path + "\nDiff:\n"@;
        assert(spec_block(provider, c).subrange(pre.len() as int, pre.len() as int + c.patch_text.len() as int) =~= c.patch_text);
        assert(occurs_at(spec_block(provider, c), c.patch_text, pre.len() as int));
    }
}

/// The joined blocks hold every patch text verbatim.
proof fn lemma_blocks_contain_patch(provider: Provider, cs: Seq<FileChangeView>, k: int)
    requires
        0 <= k < cs.len(),
    ensures
        has_substring(spec_blocks(provider, cs), cs[k].patch_text),
    decreases cs.len(),
{
    if cs.len() == 1 {
        lemma_block_contains_patch(provider, cs[0]);
    } else if k == cs.len() - 1 {
        lemma_block_contains_patch(provider, cs.last());
        lemma_has_substring_concat_l(
            spec_blocks(provider, cs.drop_last()) + "\n"@,
            spec_block(provider, cs.last()),
            cs[k].patch_text,
        );
        assert(spec_blocks(provider, cs.drop_last()) + "\n"@ + spec_block(provider, cs.last())
            =~= (spec_blocks(provider, cs.drop_last()) + "\n"@) + spec_block(
            provider,
            cs.last(),
        ));
    } else {
        lemma_blocks_contain_patch(provider, cs.drop_last(), k);
        lemma_has_substring_concat_r(
            spec_blocks(provider, cs.drop_last()),
            "\n"@,
            cs[k].patch_text,
        );
        lemma_has_substring_concat_r(
            spec_blocks(provider, cs.drop_last()) + "\n"@,
            spec_block(provider, cs.last()),
            cs[k].patch_text,
        );
        assert(spec_blocks(provider, cs.drop_last()) + "\n"@ + spec_block(provider, cs.last())
            =~= (spec_blocks(provider, cs.drop_last()) + "\n"@) + spec_block(
            provider,
            cs.last(),
        ));
    }
}

/// The prompt holds every patch text verbatim, line prefixes intact, and
/// opens with the fixed instruction header.
pub proof fn lemma_prompt_complete(provider: Provider, cs: Seq<FileChangeView>)
    ensures
        forall|k: int| 0 <= k < cs.len() ==> has_substring(
            spec_prompt(provider, cs),
            cs[k].patch_text,
        ),
        has_substring(spec_prompt(provider, cs), spec_prompt_header()),
{
    assert forall|k: int| 0 <= k < cs.len() implies has_substring(
        spec_prompt(provider, cs),
        cs[k].patch_text,
    ) by {
        lemma_blocks_contain_patch(provider, cs, k);
        lemma_has_substring_concat_l(
            spec_prompt_header(),
            spec_blocks(provider, cs),
            cs[k].patch_text,
        );
    }
    assert(spec_prompt(provider, cs).subrange(0, spec_prompt_header().len() as int)
        =~= spec_prompt_header());
    assert(occurs_at(spec_prompt(provider, cs), spec_prompt_header(), 0));
}

/// The prompt builder is pure: equal diffs yield the identical prompt,
/// the empty diff included.
pub proof fn lemma_prompt_deterministic(
    provider: Provider,
    d1: Seq<FileChangeView>,
    d2: Seq<FileChangeView>,
)
    requires
        d1 == d2,
    ensures
        spec_prompt(provider, d1) == spec_prompt(provider, d2),
{
}

} // verus!
