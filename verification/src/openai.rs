//! The review client's verified half: it frames the JSON request body for
//! the review endpoint — persona as the system message, the prompt as the
//! user message, fixed generation parameters — and interprets the
//! endpoint's answer, extracting the first candidate's text.

use vstd::prelude::*;
use crate::encode::hex_digit_char;
use crate::errors::{spec_is_success, is_success_status, Error};
use crate::prompt::{get_code_reviewer_ai_role, spec_ai_role};

verus! {

/// How one character is written inside a JSON string literal: the quote,
/// the backslash and the common control characters take their two-char
/// escapes, the remaining control characters a `\u00XX` escape, and
/// every other character stands as itself.
pub open spec fn esc_char(c: char) -> Seq<char> {
    if c == '"' {
        seq!['\\', '"']
    } else if c == '\\' {
        seq!['\\', '\\']
    } else if c == '\n' {
        seq!['\\', 'n']
    } else if c == '\r' {
        seq!['\\', 'r']
    } else if c == '\t' {
        seq!['\\', 't']
    } else if (c as int) < 32 {
        seq!['\\', 'u', '0', '0', hex_digit_char(c as int / 16), hex_digit_char(c as int % 16)]
    } else {
        seq![c]
    }
}

/// A whole text escaped for use inside a JSON string literal.
pub open spec fn json_escaped(s: Seq<char>) -> Seq<char>
    decreases s.len(),
{
    if s.len() == 0 {
        Seq::<char>::empty()
    } else {
        json_escaped(s.drop_last()) + esc_char(s.last())
    }
}

/// Escapes a text for use inside a JSON string literal.
pub fn json_escape(s: &str) -> (r: String)
    ensures
        r@ == json_escaped(s@),
{
    let n = s.unicode_len();
    let mut out = String::new();
    let mut i: usize = 0;
    proof {
        assert(s@.take(0) =~= Seq::<char>::empty());
    }
    while i < n
        invariant
            i <= n,
            n == s@.len(),
            out@ == json_escaped(s@.take(i as int)),
        decreases n - i,
    {
        proof {
            assert(s@.take(i + 1).drop_last() =~= s@.take(i as int));
            assert(s@.take(i + 1).last() == s@[i as int]);
        }
        let c = s.get_char(i);
        if c == '"' {
            out.append("\\\"");
            proof {
                reveal_strlit("\\\"");
                assert(out@ =~= json_escaped(s@.take(i + 1)));
            }
        } else if c == '\\' {
            out.append("\\\\");
            proof {
                reveal_strlit("\\\\");
                assert(out@ =~= json_escaped(s@.take(i + 1)));
            }
        } else if c == '\n' {
            out.append("\\n");
            proof {
                reveal_strlit("\\n");
                assert(out@ =~= json_escaped(s@.take(i + 1)));
            }
        } else if c == '\r' {
            out.append("\\r");
            proof {
                reveal_strlit("\\r");
                assert(out@ =~= json_escaped(s@.take(i + 1)));
            }
        } else if c == '\t' {
            out.append("\\t");
            proof {
                reveal_strlit("\\t");
                assert(out@ =~= json_escaped(s@.take(i + 1)));
            }
        } else if (c as u32) < 32 {
            let hex = "0123456789ABCDEF";
            proof {
                reveal_strlit("0123456789ABCDEF");
                assert(hex@.len() == 16);
            }
            let d = c as u32;
            let hi = (d / 16) as usize;
            let lo = (d % 16) as usize;
            out.append("\\u00");
            proof {
                reveal_strlit("\\u00");
            }
            out.append(hex.substring_char(hi, hi + 1));
            out.append(hex.substring_char(lo, lo + 1));
            proof {
                assert(hex@[hi as int] == hex_digit_char(s@[i as int] as int / 16));
                assert(hex@[lo as int] == hex_digit_char(s@[i as int] as int % 16));
                assert(out@ =~= json_escaped(s@.take(i + 1)));
            }
        } else {
            let piece = s.substring_char(i, i + 1);
            out.append(piece);
            proof {
                assert(piece@ =~= seq![s@[i as int]]);
                assert(out@ =~= json_escaped(s@.take(i + 1)));
            }
        }
        i += 1;
    }
    proof {
        assert(s@.take(n as int) =~= s@);
    }
    out
}

/// The JSON body of one review request: the fixed model name, the
/// persona as the system message, the prompt as the user message, and
/// the fixed generation parameters.
pub open spec fn spec_review_request_body(prompt: Seq<char>) -> Seq<char> {
    "{\"model\":\"gpt-4o-2024-05-13\",\"messages\":[{\"role\":\"system\",\"content\":\""@
        + json_escaped(spec_ai_role()) + "\"},{\"role\":\"user\",\"content\":\""@ + json_escaped(
        prompt,
    )
        + "\"}],\"max_tokens\":1024,\"temperature\":1,\"top_p\":1,\"frequency_penalty\":0,\"presence_penalty\":0}"@
}

/// Builds the JSON body of one review request for a prompt.
pub fn build_review_request_body(prompt: &str) -> (r: String)
    ensures
        r@ == spec_review_request_body(prompt@),
{
    let mut out =
        "{\"model\":\"gpt-4o-2024-05-13\",\"messages\":[{\"role\":\"system\",\"content\":\"".to_owned();
    let persona = json_escape(get_code_reviewer_ai_role());
    out.append(persona.as_str());
    out.append("\"},{\"role\":\"user\",\"content\":\"");
    let escaped = json_escape(prompt);
    out.append(escaped.as_str());
    out.append(
        "\"}],\"max_tokens\":1024,\"temperature\":1,\"top_p\":1,\"frequency_penalty\":0,\"presence_penalty\":0}",
    );
    out
}

/// The verdict for a decoded candidate list: the first candidate's text,
/// or the empty-response error exactly when the list is empty.
pub fn verdict_from_contents(contents: Vec<String>) -> (r: Result<String, Error>)
    ensures
        contents@.len() == 0 ==> r == Err::<String, Error>(Error::EmptyReviewResponse),
        contents@.len() > 0 ==> (r matches Ok(v) && v@ == contents@[0]@),
{
    if contents.len() == 0 {
        Err(Error::EmptyReviewResponse)
    } else {
        Ok(contents[0].clone())
    }
}

/// What a review answer decodes to: the text under
/// `choices[i].message.content` for each candidate, in order; nothing
/// when the body is not such an object or a candidate lacks the text. A
/// function of the text alone.
pub uninterp spec fn review_contents_of(body: Seq<char>) -> Option<Seq<Seq<char>>>;

/// Relies on serde_json (`from_str`, `Value::get`, `Value::as_array`,
/// `Value::as_str`): decodes a review answer into each candidate's
/// `message.content` text; serde_json's decoding depends on the text
/// alone.
#[verifier::external_body]
fn decode_review_contents(body: &str) -> (r: Option<Vec<String>>)
    ensures
        r.deep_view() == review_contents_of(body@),
{
    let v: serde_json::Value = match serde_json::from_str(body) {
        Ok(v) => v,
        Err(_) => return None,
    };
    let arr = v.get("choices")?.as_array()?;
    let mut out = Vec::new();
    for choice in arr {
        let text = choice.get("message")?.get("content")?.as_str()?;
        out.push(text.to_string());
    }
    Some(out)
}

/// Interprets the review endpoint's answer. A non-success status is an
/// endpoint error carrying the endpoint's own payload verbatim; a
/// success body must decode to its candidate texts, of which the first
/// is the verdict; no candidates at all is the empty-response error.
pub fn handle_review_response(status: u16, body: &str) -> (r: Result<String, Error>)
    ensures
        !spec_is_success(status) ==> (r matches Err(e) && e matches Error::ReviewEndpointError {
            status: st,
            body: b,
        } && st == status && b@ == body@),
        spec_is_success(status) ==> match review_contents_of(body@) {
            Some(texts) => if texts.len() == 0 {
                r == Err::<String, Error>(Error::EmptyReviewResponse)
            } else {
                r matches Ok(v) && v@ == texts[0]
            },
            None => r == Err::<String, Error>(Error::MalformedUpstreamResponse),
        },
{
    if !is_success_status(status) {
        return Err(Error::ReviewEndpointError { status, body: body.to_owned() });
    }
    match decode_review_contents(body) {
        None => Err(Error::MalformedUpstreamResponse),
        Some(contents) => {
            proof {
                if contents@.len() > 0 {
                    assert(contents.deep_view()[0] == contents@[0]@);
                }
            }
            verdict_from_contents(contents)
        },
    }
}

} // verus!
