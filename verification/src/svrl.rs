//! SVRL output: a validation report in the Schematron report format every
//! other validator in this field speaks.
//!
//! Two attributes carry something other than what a Schematron tool puts
//! there, and the output says so in a comment: `location` is the
//! business-term path (`BG-25[2]/BT-151`), as there is no source document to
//! point an XPath into, and `test` is `en16931:<rule-id>`, as these rules are
//! code, not XPath expressions.

use vstd::prelude::*;

use crate::ATTRIBUTION;
use crate::bt::path_text;
use crate::edition::edition_designation;
use crate::text::chars_of;
use crate::validation::{Finding, Severity, ValidationReport};

verus! {

/// The SVRL namespace, as every Schematron implementation writes it.
pub const SVRL_NS: &'static str = "http://purl.oclc.org/dsdl/svrl";

/// The `@diagnostic` value on the element carrying a finding's hint.
pub const HINT_DIAGNOSTIC: &'static str = "en16931-hint";

/// A character XML 1.0 cannot represent at all: a control character other
/// than tab, newline and carriage return.
pub open spec fn xml_forbidden(c: char) -> bool {
    (c as u32) < 0x20 && c != '\t' && c != '\n' && c != '\r'
}

/// One character as it is written in XML text or an attribute.
pub open spec fn escape_char(c: char) -> Seq<char> {
    if c == '&' {
        "&amp;"@
    } else if c == '<' {
        "&lt;"@
    } else if c == '>' {
        "&gt;"@
    } else if c == '"' {
        "&quot;"@
    } else if c == '\'' {
        "&apos;"@
    } else if xml_forbidden(c) {
        Seq::empty()
    } else {
        seq![c]
    }
}

/// `s` with the five XML metacharacters escaped and the characters XML 1.0
/// cannot hold dropped.
pub open spec fn escaped(s: Seq<char>) -> Seq<char>
    decreases s.len(),
{
    if s.len() == 0 {
        Seq::empty()
    } else {
        escaped(s.drop_last()) + escape_char(s.last())
    }
}

/// A comment's body as it is written, and whether the last character kept
/// was a hyphen: every run of hyphens collapsed to one, and the characters
/// XML 1.0 cannot hold dropped. Nothing is entity-escaped, because a
/// comment's content is not parsed.
pub open spec fn comment_body(s: Seq<char>) -> (Seq<char>, bool)
    decreases s.len(),
{
    if s.len() == 0 {
        (Seq::empty(), false)
    } else {
        let (out, dash) = comment_body(s.drop_last());
        let c = s.last();
        if c == '-' {
            if dash {
                (out, true)
            } else {
                (out.push('-'), true)
            }
        } else if xml_forbidden(c) {
            (out, dash)
        } else {
            (out.push(c), false)
        }
    }
}

/// `<!-- body -->`, with the body made safe: XML forbids `--` inside a
/// comment and a comment ending in `-`.
pub open spec fn commented(s: Seq<char>) -> Seq<char> {
    "<!-- "@ + comment_body(s).0 + " -->"@
}

/// Append the characters of `s` to `out`.
fn push_text(out: &mut String, s: &str)
    ensures
        final(out)@ == old(out)@ + s@,
{
    let v = chars_of(s);
    let ghost start = out@;
    let mut i: usize = 0;
    while i < v.len()
        invariant
            v@ == s@,
            i <= v@.len(),
            out@ == start + v@.subrange(0, i as int),
        decreases v.len() - i,
    {
        out.push(v[i]);
        i = i + 1;
    }
    assert(v@.subrange(0, v@.len() as int) == v@);
}

/// Append `s` to `out`, escaped for XML.
pub fn escape(s: &str, out: &mut String)
    ensures
        final(out)@ == old(out)@ + escaped(s@),
{
    let v = chars_of(s);
    let ghost start = out@;
    let mut i: usize = 0;
    while i < v.len()
        invariant
            v@ == s@,
            i <= v@.len(),
            out@ == start + escaped(v@.subrange(0, i as int)),
        decreases v.len() - i,
    {
        let c = v[i];
        proof {
            assert(v@.subrange(0, i + 1).drop_last() == v@.subrange(0, i as int));
        }
        if c == '&' {
            push_text(out, "&amp;");
        } else if c == '<' {
            push_text(out, "&lt;");
        } else if c == '>' {
            push_text(out, "&gt;");
        } else if c == '"' {
            push_text(out, "&quot;");
        } else if c == '\'' {
            push_text(out, "&apos;");
        } else if (c as u32) < 0x20 && c != '\t' && c != '\n' && c != '\r' {
        } else {
            out.push(c);
        }
        proof {
            assert(out@ =~= start + escaped(v@.subrange(0, i + 1)));
        }
        i = i + 1;
    }
    assert(v@.subrange(0, v@.len() as int) == v@);
}

/// Append `<!-- body -->` to `out`, made safe for XML.
pub fn comment(body: &str, out: &mut String)
    ensures
        final(out)@ == old(out)@ + commented(body@),
{
    let ghost start = out@;
    push_text(out, "<!-- ");
    let ghost opened = out@;
    let v = chars_of(body);
    let mut last_was_dash = false;
    let mut i: usize = 0;
    while i < v.len()
        invariant
            v@ == body@,
            i <= v@.len(),
            opened == start + "<!-- "@,
            out@ == opened + comment_body(v@.subrange(0, i as int)).0,
            last_was_dash == comment_body(v@.subrange(0, i as int)).1,
        decreases v.len() - i,
    {
        let c = v[i];
        proof {
            assert(v@.subrange(0, i + 1).drop_last() == v@.subrange(0, i as int));
        }
        if c == '-' {
            if !last_was_dash {
                last_was_dash = true;
                out.push('-');
            }
        } else if (c as u32) < 0x20 && c != '\t' && c != '\n' && c != '\r' {
        } else {
            last_was_dash = false;
            out.push(c);
        }
        proof {
            assert(out@ =~= opened + comment_body(v@.subrange(0, i + 1)).0);
        }
        i = i + 1;
    }
    assert(v@.subrange(0, v@.len() as int) == v@);
    push_text(out, " -->");
    assert(out@ =~= start + commented(body@));
}

/// SVRL's `flag` for a severity.
pub open spec fn flag_text(s: Severity) -> Seq<char> {
    match s {
        Severity::Fatal => "fatal"@,
        Severity::Warning => "warning"@,
        Severity::Info => "information"@,
    }
}

/// SVRL's `flag` for a severity.
pub fn flag(s: Severity) -> (r: &'static str)
    ensures
        r@ == flag_text(s),
{
    match s {
        Severity::Fatal => "fatal",
        Severity::Warning => "warning",
        Severity::Info => "information",
    }
}


/// The caveat every SVRL document carries about its two borrowed attributes.
pub open spec fn caveat() -> Seq<char> {
    "Produced by en16931 from the semantic model. `location` is a business-term path, not an XPath: there is no source document. `test` names the rule; these rules are code, not XPath."@
}

/// The opening tag of a finding's element.
pub open spec fn finding_open(f: Finding) -> Seq<char> {
    "  <svrl:failed-assert id=\""@ + escaped(f.rule@) + "\" flag=\""@ + flag_text(f.severity)
        + "\" location=\""@ + escaped(path_text(f.path)) + "\" test=\"en16931:"@ + escaped(
        f.rule@,
    ) + "\">\n"@
}

/// A finding's hint, in Schematron's slot for supplementary text.
pub open spec fn finding_hint(f: Finding) -> Seq<char> {
    match f.hint {
        Some(h) => "    <svrl:diagnostic-reference diagnostic=\""@ + HINT_DIAGNOSTIC@ + "\">"@
            + escaped(h@) + "</svrl:diagnostic-reference>\n"@,
        None => Seq::empty(),
    }
}

/// A finding's text, its arithmetic detail, and the closing tags.
pub open spec fn finding_body(f: Finding) -> Seq<char> {
    "    <svrl:text>"@ + escaped(f.message@) + match f.detail {
        Some(d) => " (expected "@ + escaped(d.expected@) + ", found "@ + escaped(d.actual@) + ")"@,
        None => Seq::empty(),
    } + "</svrl:text>\n  </svrl:failed-assert>\n"@
}

/// One `svrl:failed-assert` element, with its hint and its arithmetic detail
/// when the finding has them.
pub open spec fn finding_text(f: Finding) -> Seq<char> {
    finding_open(f) + finding_hint(f) + finding_body(f)
}

/// The findings' elements, in order.
pub open spec fn findings_text(fs: Seq<Finding>) -> Seq<char>
    decreases fs.len(),
{
    if fs.len() == 0 {
        Seq::empty()
    } else {
        findings_text(fs.drop_last()) + finding_text(fs.last())
    }
}

/// One comment per suppressed rule, in order.
pub open spec fn suppressed_text(ids: Seq<String>) -> Seq<char>
    decreases ids.len(),
{
    if ids.len() == 0 {
        Seq::empty()
    } else {
        suppressed_text(ids.drop_last()) + "  "@ + commented(
            "suppressed, NOT checked: "@ + ids.last()@,
        ) + "\n"@
    }
}

/// The document up to and including the active pattern.
pub open spec fn svrl_head(r: ValidationReport) -> Seq<char> {
    "<?xml version=\"1.0\" encoding=\"UTF-8\"?>\n"@ + "<svrl:schematron-output xmlns:svrl=\""@
        + SVRL_NS@ + "\" title=\"EN 16931"@ + match r.profile {
        Some(p) => " — "@ + escaped(p@),
        None => Seq::empty(),
    } + "\" schemaVersion=\""@ + escaped(edition_designation(r.edition)) + "\">\n"@ + "  "@
        + commented(caveat()) + "\n"@ + "  "@ + commented(ATTRIBUTION@) + "\n"@
        + "  <svrl:active-pattern name=\""@ + escaped(
        match r.profile {
            Some(p) => p@,
            None => "EN 16931"@,
        },
    ) + "\"/>\n"@
}

/// A report as SVRL: the head, a comment per suppressed rule, an element per
/// finding, and the closing tag.
pub open spec fn svrl_text(r: ValidationReport) -> Seq<char> {
    svrl_head(r) + suppressed_text(r.suppressed@) + findings_text(r.findings@)
        + "</svrl:schematron-output>\n"@
}

/// Append a finding's opening tag.
fn push_finding_open(f: &Finding, out: &mut String)
    ensures
        final(out)@ == old(out)@ + finding_open(*f),
{
    let ghost start = out@;
    push_text(out, "  <svrl:failed-assert id=\"");
    escape(f.rule.as_str(), out);
    push_text(out, "\" flag=\"");
    push_text(out, flag(f.severity));
    push_text(out, "\" location=\"");
    let location = f.path.to_string();
    escape(location.as_str(), out);
    push_text(out, "\" test=\"en16931:");
    escape(f.rule.as_str(), out);
    push_text(out, "\">\n");
    assert(out@ =~= start + finding_open(*f));
}

/// Append a finding's hint, if it has one.
fn push_finding_hint(f: &Finding, out: &mut String)
    ensures
        final(out)@ == old(out)@ + finding_hint(*f),
{
    let ghost start = out@;
    match &f.hint {
        Some(h) => {
            push_text(out, "    <svrl:diagnostic-reference diagnostic=\"");
            push_text(out, HINT_DIAGNOSTIC);
            push_text(out, "\">");
            escape(h.as_str(), out);
            push_text(out, "</svrl:diagnostic-reference>\n");
        },
        None => {},
    }
    assert(out@ =~= start + finding_hint(*f));
}

/// Append a finding's text, detail and closing tags.
fn push_finding_body(f: &Finding, out: &mut String)
    ensures
        final(out)@ == old(out)@ + finding_body(*f),
{
    let ghost start = out@;
    push_text(out, "    <svrl:text>");
    escape(f.message.as_str(), out);
    let ghost texted = out@;
    match &f.detail {
        Some(d) => {
            push_text(out, " (expected ");
            escape(d.expected.as_str(), out);
            push_text(out, ", found ");
            escape(d.actual.as_str(), out);
            push_text(out, ")");
        },
        None => {},
    }
    push_text(out, "</svrl:text>\n  </svrl:failed-assert>\n");
    assert(out@ =~= start + finding_body(*f));
}

/// Append one finding's element.
fn push_finding(f: &Finding, out: &mut String)
    ensures
        final(out)@ == old(out)@ + finding_text(*f),
{
    let ghost start = out@;
    push_finding_open(f, out);
    push_finding_hint(f, out);
    push_finding_body(f, out);
    assert(out@ =~= start + finding_text(*f));
}

/// Render a report as SVRL.
pub fn to_svrl(report: &ValidationReport) -> (r: String)
    ensures
        r@ == svrl_text(*report),
{
    let mut out = String::new();
    push_text(&mut out, "<?xml version=\"1.0\" encoding=\"UTF-8\"?>\n");
    push_text(&mut out, "<svrl:schematron-output xmlns:svrl=\"");
    push_text(&mut out, SVRL_NS);
    push_text(&mut out, "\" title=\"EN 16931");
    match &report.profile {
        Some(p) => {
            push_text(&mut out, " — ");
            escape(p.as_str(), &mut out);
        },
        None => {},
    }
    push_text(&mut out, "\" schemaVersion=\"");
    escape(report.edition.designation(), &mut out);
    push_text(&mut out, "\">\n");
    push_text(&mut out, "  ");
    comment(
        "Produced by en16931 from the semantic model. `location` is a business-term path, not an XPath: there is no source document. `test` names the rule; these rules are code, not XPath.",
        &mut out,
    );
    push_text(&mut out, "\n");
    push_text(&mut out, "  ");
    comment(ATTRIBUTION, &mut out);
    push_text(&mut out, "\n");
    push_text(&mut out, "  <svrl:active-pattern name=\"");
    match &report.profile {
        Some(p) => escape(p.as_str(), &mut out),
        None => escape("EN 16931", &mut out),
    }
    push_text(&mut out, "\"/>\n");
    assert(out@ =~= svrl_head(*report));
    let ghost head = out@;
    let mut i: usize = 0;
    while i < report.suppressed.len()
        invariant
            i <= report.suppressed@.len(),
            out@ == head + suppressed_text(report.suppressed@.subrange(0, i as int)),
        decreases report.suppressed.len() - i,
    {
        proof {
            assert(report.suppressed@.subrange(0, i + 1).drop_last() == report.suppressed@.subrange(
                0,
                i as int,
            ));
        }
        let mut body = String::new();
        push_text(&mut body, "suppressed, NOT checked: ");
        push_text(&mut body, report.suppressed[i].as_str());
        push_text(&mut out, "  ");
        comment(body.as_str(), &mut out);
        push_text(&mut out, "\n");
        proof {
            assert(out@ =~= head + suppressed_text(report.suppressed@.subrange(0, i + 1)));
        }
        i = i + 1;
    }
    assert(report.suppressed@.subrange(0, report.suppressed@.len() as int) == report.suppressed@);
    let ghost middle = out@;
    let mut j: usize = 0;
    while j < report.findings.len()
        invariant
            j <= report.findings@.len(),
            out@ == middle + findings_text(report.findings@.subrange(0, j as int)),
        decreases report.findings.len() - j,
    {
        proof {
            assert(report.findings@.subrange(0, j + 1).drop_last() == report.findings@.subrange(
                0,
                j as int,
            ));
        }
        push_finding(&report.findings[j], &mut out);
        proof {
            assert(out@ =~= middle + findings_text(report.findings@.subrange(0, j + 1)));
        }
        j = j + 1;
    }
    assert(report.findings@.subrange(0, report.findings@.len() as int) == report.findings@);
    push_text(&mut out, "</svrl:schematron-output>\n");
    assert(out@ =~= svrl_text(*report));
    out
}


/// Escaped text holds no `<` or `>`, and no character XML 1.0 cannot
/// represent: whatever the input, it cannot open or close an element.
pub proof fn law_escaped_text_is_inert(s: Seq<char>)
    ensures
        forall|i: int|
            0 <= i < escaped(s).len() ==> #[trigger] escaped(s)[i] != '<' && escaped(s)[i] != '>'
                && !xml_forbidden(escaped(s)[i]),
    decreases s.len(),
{
    reveal_strlit("&amp;");
    reveal_strlit("&lt;");
    reveal_strlit("&gt;");
    reveal_strlit("&quot;");
    reveal_strlit("&apos;");
    if s.len() > 0 {
        law_escaped_text_is_inert(s.drop_last());
        let prev = escaped(s.drop_last());
        let add = escape_char(s.last());
        assert forall|i: int| 0 <= i < escaped(s).len() implies #[trigger] escaped(s)[i] != '<'
            && escaped(s)[i] != '>' && !xml_forbidden(escaped(s)[i]) by {
            if i >= prev.len() {
                assert(escaped(s)[i] == add[i - prev.len()]);
            } else {
                assert(escaped(s)[i] == prev[i]);
            }
        }
    }
}

/// A comment's body never holds two hyphens in a row, and ends in a hyphen
/// exactly when the flag says so.
proof fn lemma_comment_body_dashes(s: Seq<char>)
    ensures
        comment_body(s).1 <==> (comment_body(s).0.len() > 0 && comment_body(s).0.last() == '-'),
        forall|i: int|
            0 <= i < comment_body(s).0.len() - 1 ==> !(#[trigger] comment_body(s).0[i] == '-'
                && comment_body(s).0[i + 1] == '-'),
    decreases s.len(),
{
    if s.len() > 0 {
        lemma_comment_body_dashes(s.drop_last());
        let (prev, dash) = comment_body(s.drop_last());
        let out = comment_body(s).0;
        assert forall|i: int| 0 <= i < out.len() - 1 implies !(#[trigger] out[i] == '-' && out[i
            + 1] == '-') by {
            if out.len() > prev.len() {
                assert(out == prev.push(s.last()));
                if i < prev.len() - 1 {
                    assert(out[i] == prev[i] && out[i + 1] == prev[i + 1]);
                } else {
                    assert(out[i] == prev[i]);
                }
            } else {
                assert(out == prev);
            }
        }
    }
}

/// Whatever the body, the comment [`comment`] writes is well formed: no two
/// hyphens in a row between `<!--` and `-->`, a space between the body and
/// the closing `-->` so a trailing hyphen never touches it, and no character
/// XML 1.0 cannot represent.
pub proof fn law_comment_is_well_formed(s: Seq<char>)
    ensures
        forall|i: int|
            0 <= i < comment_body(s).0.len() - 1 ==> !(#[trigger] comment_body(s).0[i] == '-'
                && comment_body(s).0[i + 1] == '-'),
        forall|i: int|
            0 <= i < comment_body(s).0.len() ==> !xml_forbidden(#[trigger] comment_body(s).0[i]),
        commented(s) == "<!-- "@ + comment_body(s).0 + " -->"@,
{
    lemma_comment_body_dashes(s);
    lemma_comment_body_allowed(s);
}

/// A comment's body keeps no character XML 1.0 cannot represent.
proof fn lemma_comment_body_allowed(s: Seq<char>)
    ensures
        forall|i: int|
            0 <= i < comment_body(s).0.len() ==> !xml_forbidden(#[trigger] comment_body(s).0[i]),
    decreases s.len(),
{
    if s.len() > 0 {
        lemma_comment_body_allowed(s.drop_last());
        let prev = comment_body(s.drop_last()).0;
        let out = comment_body(s).0;
        assert forall|i: int| 0 <= i < out.len() implies !xml_forbidden(#[trigger] out[i]) by {
            if i < prev.len() {
                if out.len() > prev.len() {
                    assert(out == prev.push(s.last()));
                }
                assert(out[i] == prev[i]);
            }
        }
    }
}

} // verus!
