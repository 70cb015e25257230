//! The answer the hook gives: always an approval, with the output of the
//! tools that reported something as context for the agent.

use vstd::prelude::*;
use crate::sanitize::{trim_end, trim_end_of};
use crate::tools::ToolResult;

verus! {

/// The heading of the context.
pub const CONTEXT_HEADING: &'static str = "# Pre-flight Analysis Results\n\n";

/// The lowercase hexadecimal digit of `d` (below 16).
pub open spec fn hex_digit(d: u32) -> char {
    if d < 10 {
        (48 + d) as char
    } else {
        (87 + d) as char
    }
}

/// How `serde_json` writes the character `c` inside a string literal: quote
/// and backslash escaped by a backslash, the controls with a short name as
/// `\b \t \n \f \r`, the other controls below U+0020 as `\u00XX` with
/// lowercase hex digits, every other character as itself.
pub open spec fn json_escaped_char(c: char) -> Seq<char> {
    let u = c as u32;
    if c == '"' {
        seq!['\\', '"']
    } else if c == '\\' {
        seq!['\\', '\\']
    } else if u == 0x08 {
        seq!['\\', 'b']
    } else if u == 0x09 {
        seq!['\\', 't']
    } else if u == 0x0a {
        seq!['\\', 'n']
    } else if u == 0x0c {
        seq!['\\', 'f']
    } else if u == 0x0d {
        seq!['\\', 'r']
    } else if u < 0x20 {
        seq!['\\', 'u', '0', '0', hex_digit(u / 16), hex_digit(u % 16)]
    } else {
        seq![c]
    }
}

/// The characters of `s`, each escaped as `json_escaped_char` says.
pub open spec fn json_escaped(s: Seq<char>) -> Seq<char>
    decreases s.len(),
{
    if s.len() == 0 {
        Seq::empty()
    } else {
        json_escaped(s.drop_last()) + json_escaped_char(s.last())
    }
}

/// How `serde_json` writes the string `s` as a JSON string literal.
#[verifier::opaque]
pub open spec fn json_string_text(s: Seq<char>) -> Seq<char> {
    seq!['"'] + json_escaped(s) + seq!['"']
}

/// Calls `Display` of `serde_json::Value::String(s)` (compact form). Claims
/// the escaping that serde_json's `format_escaped_str` performs with its
/// `ESCAPE` table and `write_char_escape` (see `json_escaped_char`).
#[verifier::external_body]
fn json_string(s: &str) -> (r: String)
    ensures
        r@ == json_string_text(s@),
{
    serde_json::Value::String(s.to_string()).to_string()
}

/// A result that goes into the context: successful and with output.
pub open spec fn is_reported(r: ToolResult) -> bool {
    r.success && r.output@.len() > 0
}

/// The results that go into the context, in order.
pub open spec fn reported(results: Seq<ToolResult>) -> Seq<ToolResult> {
    results.filter(|r: ToolResult| is_reported(r))
}

/// The context section of one result: its name as a heading and its output
/// in a code block.
pub open spec fn section(r: ToolResult) -> Seq<char> {
    "## "@ + r.name@ + "\n\n```\n"@ + r.output@ + "\n```\n\n"@
}

/// The sections of `results`, one after another.
pub open spec fn sections(results: Seq<ToolResult>) -> Seq<char>
    decreases results.len(),
{
    if results.len() == 0 {
        Seq::empty()
    } else {
        sections(results.drop_last()) + section(results.last())
    }
}

/// The context for the agent: the heading and the section of every reported
/// result, without trailing white space.
pub open spec fn context(results: Seq<ToolResult>) -> Seq<char> {
    trim_end(CONTEXT_HEADING@ + sections(reported(results)))
}

/// A digit's character.
pub open spec fn digit_char(d: nat) -> char {
    ((48 + d) as u8) as char
}

/// The decimal numeral of `n`.
pub open spec fn decimal(n: nat) -> Seq<char>
    decreases n,
{
    if n < 10 {
        seq![digit_char(n)]
    } else {
        decimal(n / 10).push(digit_char(n % 10))
    }
}

/// The reason given for the approval: how many tools reported, of how many.
pub open spec fn reason(results: Seq<ToolResult>) -> Seq<char> {
    "Pre-flight: "@ + decimal(reported(results).len()) + "/"@ + decimal(results.len())
        + " tools reported"@
}

/// The JSON object with the string members `key: value` in the order given,
/// written compactly as `serde_json` writes a map of strings.
pub open spec fn json_object(members: Seq<(Seq<char>, Seq<char>)>) -> Seq<char> {
    "{"@ + json_members_text(members) + "}"@
}

/// The members of a JSON object, separated by commas.
pub open spec fn json_members_text(members: Seq<(Seq<char>, Seq<char>)>) -> Seq<char>
    decreases members.len(),
{
    if members.len() == 0 {
        Seq::empty()
    } else {
        let m = members.last();
        let item = json_string_text(m.0) + ":"@ + json_string_text(m.1);
        if members.len() == 1 {
            item
        } else {
            json_members_text(members.drop_last()) + ","@ + item
        }
    }
}

/// The hook's answer for `results`: approve, with the reason and the context,
/// the keys in the order `serde_json`'s map keeps them (sorted).
pub open spec fn answer(results: Seq<ToolResult>) -> Seq<char> {
    json_object(
        seq![
            ("additionalContext"@, context(results)),
            ("decision"@, "approve"@),
            ("reason"@, reason(results)),
        ],
    )
}

/// Appends the decimal numeral of `n` to `out`.
fn push_decimal(out: &mut String, n: usize)
    ensures
        final(out)@ == old(out)@ + decimal(n as nat),
    decreases n,
{
    if n >= 10 {
        push_decimal(out, n / 10);
    }
    out.append(digit_text(n % 10));
    assert(decimal(n as nat) =~= if n < 10 { seq![digit_char(n as nat)] } else {
        decimal((n / 10) as nat).push(digit_char((n % 10) as nat))
    });
}

/// The numeral of the digit `d`.
fn digit_text(d: usize) -> (r: &'static str)
    requires
        d < 10,
    ensures
        r@ == seq![digit_char(d as nat)],
{
    proof {
        reveal_strlit("0");
        reveal_strlit("1");
        reveal_strlit("2");
        reveal_strlit("3");
        reveal_strlit("4");
        reveal_strlit("5");
        reveal_strlit("6");
        reveal_strlit("7");
        reveal_strlit("8");
        reveal_strlit("9");
    }
    match d {
        0 => "0",
        1 => "1",
        2 => "2",
        3 => "3",
        4 => "4",
        5 => "5",
        6 => "6",
        7 => "7",
        8 => "8",
        _ => "9",
    }
}

/// Appends `"key":value` (both as JSON strings) to `out`, after a comma
/// unless it is the first member.
fn push_member(out: &mut String, key: &str, value: &str, first: bool)
    ensures
        final(out)@ == old(out)@ + (if first { Seq::empty() } else { ","@ }) + json_string_text(
            key@,
        ) + ":"@ + json_string_text(value@),
{
    if !first {
        out.append(",");
    }
    let k = json_string(key);
    out.append(k.as_str());
    out.append(":");
    let v = json_string(value);
    out.append(v.as_str());
}

/// The hook's answer: `None` when no tool ran; otherwise a JSON object that
/// approves the call, says how many tools reported of how many ran, and
/// carries the output of every successful tool with output as context.
pub fn build_output(results: &[ToolResult]) -> (r: Option<String>)
    ensures
        results@.len() == 0 ==> r is None,
        results@.len() > 0 ==> (r matches Some(text) && text@ == answer(results@)),
{
    if results.len() == 0 {
        return None;
    }
    let mut ctx = String::new();
    ctx.append(CONTEXT_HEADING);
    let mut count: usize = 0;
    let mut i: usize = 0;
    let ghost f = |r: ToolResult| is_reported(r);
    assert(results@.take(0).filter(f) =~= Seq::<ToolResult>::empty()) by {
        reveal(Seq::filter);
    }
    while i < results.len()
        invariant
            i <= results@.len(),
            f == (|r: ToolResult| is_reported(r)),
            count == results@.take(i as int).filter(f).len(),
            count <= i,
            ctx@ == CONTEXT_HEADING@ + sections(results@.take(i as int).filter(f)),
        decreases results@.len() - i,
    {
        let r = &results[i];
        proof {
            reveal(Seq::filter);
            assert(results@.take(i + 1).drop_last() =~= results@.take(i as int));
            assert(results@.take(i + 1).last() == results@[i as int]);
        }
        if r.success && !r.output.as_str().is_empty() {
            ctx.append("## ");
            ctx.append(r.name);
            ctx.append("\n\n```\n");
            ctx.append(r.output.as_str());
            ctx.append("\n```\n\n");
            count = count + 1;
            proof {
                let prev = results@.take(i as int).filter(f);
                assert(results@.take(i + 1).filter(f) == prev.push(results@[i as int]));
                assert(prev.push(results@[i as int]).drop_last() =~= prev);
            }
        }
        i = i + 1;
    }
    assert(results@.take(results@.len() as int) =~= results@);
    let trimmed = trim_end_of(ctx.as_str());
    let mut why = String::new();
    why.append("Pre-flight: ");
    push_decimal(&mut why, count);
    why.append("/");
    push_decimal(&mut why, results.len());
    why.append(" tools reported");
    let mut text = String::new();
    text.append("{");
    push_member(&mut text, "additionalContext", trimmed.as_str(), true);
    push_member(&mut text, "decision", "approve", false);
    push_member(&mut text, "reason", why.as_str(), false);
    text.append("}");
    proof {
        let ms = seq![
            ("additionalContext"@, context(results@)),
            ("decision"@, "approve"@),
            ("reason"@, reason(results@)),
        ];
        let m1 = ms.drop_last();
        let m2 = m1.drop_last();
        assert(m2 =~= seq![("additionalContext"@, context(results@))]);
        assert(m1.last() == ("decision"@, "approve"@));
        assert(ms.last() == ("reason"@, reason(results@)));
        assert(json_members_text(m2) == json_string_text("additionalContext"@) + ":"@
            + json_string_text(context(results@)));
        assert(json_members_text(m1) == json_members_text(m2) + ","@ + json_string_text(
            "decision"@,
        ) + ":"@ + json_string_text("approve"@));
        assert(json_members_text(ms) == json_members_text(m1) + ","@ + json_string_text(
            "reason"@,
        ) + ":"@ + json_string_text(reason(results@)));
    }
    assert(text@ =~= answer(results@));
    Some(text)
}

/// The context carries exactly the successful results with output, and the
/// count of reporting tools never exceeds the count of tools that ran.
pub proof fn lemma_reported_are_the_successful_with_output(results: Seq<ToolResult>, r: ToolResult)
    ensures
        reported(results).len() <= results.len(),
        reported(results).contains(r) <==> (results.contains(r) && is_reported(r)),
{
    let f = |x: ToolResult| is_reported(x);
    results.lemma_filter_len(f);
    if reported(results).contains(r) {
        results.lemma_filter_contains_rev(f, r);
        let i = choose|i: int| 0 <= i < reported(results).len() && reported(results)[i] == r;
        results.lemma_filter_pred(f, i);
    }
    if results.contains(r) && is_reported(r) {
        let i = choose|i: int| 0 <= i < results.len() && results[i] == r;
        results.lemma_filter_contains(f, i);
    }
}

/// The results that go into the context are exactly those that succeeded
/// and have output, in their order: a failed run is never reported, nor a
/// run with empty output.
pub proof fn lemma_reported_means_successful_with_output(results: Seq<ToolResult>)
    ensures
        reported(results) == results.filter(|r: ToolResult| r.success && r.output@.len() > 0),
{
    assert((|r: ToolResult| is_reported(r)) =~= (|r: ToolResult| r.success && r.output@.len() > 0));
}

} // verus!
