//! The findings as JSON text.
//!
//! The wire format is an array of objects, one for each finding in the
//! report's order, each with the string members `rule_name`, `severity`,
//! `line` and `message`, in that order and without white space. How a string
//! is written as a JSON string literal is left to `serde_json`.

use crate::finding::{
    finding_texts, parse_findings, report_result, Finding, FindingText, ParseError,
    ParseErrorText,
};
use vstd::prelude::*;
use vstd::string::StringExecFns;

verus! {

/// A character that a JSON string literal holds as it is: any but the
/// quotation mark, the backslash and the control characters below the space.
pub open spec fn is_plain_char(c: char) -> bool {
    c != '"' && c != '\\' && ' ' <= c
}

/// Every character of `text` is plain.
pub open spec fn is_plain(text: Seq<char>) -> bool {
    forall|i: int| 0 <= i < text.len() ==> is_plain_char(#[trigger] text[i])
}

/// `text` between two quotation marks.
pub open spec fn quoted(text: Seq<char>) -> Seq<char> {
    seq!['"'] + text + seq!['"']
}

/// The JSON string literal that `serde_json` writes for a text that is not
/// plain, quotes included, or `None` where it reports an error.
pub uninterp spec fn json_string_text(text: Seq<char>) -> Option<Seq<char>>;

/// The JSON string literal of `text`: a plain text between quotation marks,
/// any other text as `serde_json` escapes it.
pub open spec fn json_literal(text: Seq<char>) -> Option<Seq<char>> {
    if is_plain(text) {
        Some(quoted(text))
    } else {
        json_string_text(text)
    }
}

/// Writes `text` as a JSON string literal.
///
/// Trusted: stands for `serde_json::to_string` on a `str`. It writes a
/// quotation mark, the text with its quotation marks, backslashes and
/// control characters escaped, and a quotation mark, into a vector, which
/// cannot fail. So a text without such characters comes back between
/// quotation marks. For any other text the contract gives the outcome a name
/// and claims only that it depends on the text alone; an error of
/// `serde_json` becomes `None`.
#[verifier::external_body]
fn json_string(text: &str) -> (r: Option<String>)
    ensures
        is_plain(text@) ==> r is Some && r->0@ == quoted(text@),
        !is_plain(text@) ==> match r {
            Some(literal) => json_string_text(text@) == Some(literal@),
            None => json_string_text(text@) is None,
        },
{
    serde_json::to_string(text).ok()
}

/// The JSON object of one finding, given its four members as JSON string
/// literals.
pub open spec fn object_text(
    rule_name: Seq<char>,
    severity: Seq<char>,
    line: Seq<char>,
    message: Seq<char>,
) -> Seq<char> {
    "{\"rule_name\":"@ + rule_name + ",\"severity\":"@ + severity + ",\"line\":"@ + line
        + ",\"message\":"@ + message + "}"@
}

/// `items` with a comma between each two neighbours.
pub open spec fn comma_joined(items: Seq<Seq<char>>) -> Seq<char>
    decreases items.len(),
{
    if items.len() == 0 {
        Seq::<char>::empty()
    } else if items.len() == 1 {
        items[0]
    } else {
        comma_joined(items.drop_last()) + ","@ + items.last()
    }
}

/// The JSON array of `items`, each of them JSON text already.
pub open spec fn array_text(items: Seq<Seq<char>>) -> Seq<char> {
    "["@ + comma_joined(items) + "]"@
}

/// The JSON object of a finding, or `None` where one of its fields cannot be
/// written.
pub open spec fn finding_json(finding: FindingText) -> Option<Seq<char>> {
    if json_literal(finding.rule_name) is Some && json_literal(finding.severity) is Some
        && json_literal(finding.line) is Some && json_literal(finding.message) is Some {
        Some(
            object_text(
                json_literal(finding.rule_name)->0,
                json_literal(finding.severity)->0,
                json_literal(finding.line)->0,
                json_literal(finding.message)->0,
            ),
        )
    } else {
        None
    }
}

/// The JSON array of a sequence of findings, or `None` where one of them
/// cannot be written.
pub open spec fn findings_json(findings: Seq<FindingText>) -> Option<Seq<char>> {
    if forall|i: int| 0 <= i < findings.len() ==> (#[trigger] finding_json(findings[i])) is Some {
        Some(array_text(Seq::new(findings.len(), |i: int| finding_json(findings[i])->0)))
    } else {
        None
    }
}

/// The views of a sequence of strings.
pub open spec fn string_texts(items: Seq<String>) -> Seq<Seq<char>> {
    Seq::new(items.len(), |i: int| items[i]@)
}

/// Frames four JSON string literals as the object of one finding.
pub fn finding_object(rule_name: &str, severity: &str, line: &str, message: &str) -> (r: String)
    ensures
        r@ == object_text(rule_name@, severity@, line@, message@),
{
    let mut out = String::from_str("{\"rule_name\":");
    out.append(rule_name);
    out.append(",\"severity\":");
    out.append(severity);
    out.append(",\"line\":");
    out.append(line);
    out.append(",\"message\":");
    out.append(message);
    out.append("}");
    out
}

/// Frames JSON texts as an array.
pub fn json_array(items: &Vec<String>) -> (r: String)
    ensures
        r@ == array_text(string_texts(items@)),
{
    let mut out = String::from_str("[");
    let ghost texts = string_texts(items@);
    let mut i: usize = 0;
    while i < items.len()
        invariant
            i <= items@.len(),
            texts == string_texts(items@),
            out@ == "["@ + comma_joined(texts.subrange(0, i as int)),
        decreases items@.len() - i,
    {
        proof {
            let upto = texts.subrange(0, i + 1);
            assert(upto.drop_last() =~= texts.subrange(0, i as int));
            assert(upto.last() == items@[i as int]@);
            if i == 0 {
                assert(comma_joined(texts.subrange(0, 0)) =~= Seq::<char>::empty());
                assert("["@ + comma_joined(upto) =~= "["@ + Seq::<char>::empty() + items@[0]@);
            } else {
                assert("["@ + comma_joined(upto) =~= "["@ + comma_joined(
                    texts.subrange(0, i as int),
                ) + ","@ + items@[i as int]@);
            }
        }
        if i > 0 {
            out.append(",");
        }
        out.append(items[i].as_str());
        i += 1;
    }
    proof {
        assert(texts.subrange(0, i as int) =~= texts);
    }
    out.append("]");
    out
}

/// Writes one finding as a JSON object.
pub fn encode_finding(finding: &Finding) -> (r: Option<String>)
    ensures
        match r {
            Some(json) => finding_json(finding@) == Some(json@),
            None => finding_json(finding@) is None,
        },
{
    let rule_name = json_string(finding.rule_name.as_str());
    let severity = json_string(finding.severity.as_str());
    let line = json_string(finding.line.as_str());
    let message = json_string(finding.message.as_str());
    match (rule_name, severity, line, message) {
        (Some(r), Some(s), Some(l), Some(m)) => Some(
            finding_object(r.as_str(), s.as_str(), l.as_str(), m.as_str()),
        ),
        _ => None,
    }
}

/// Writes the findings as a JSON array, in their order.
pub fn encode_findings(findings: &Vec<Finding>) -> (r: Option<String>)
    ensures
        match r {
            Some(json) => findings_json(finding_texts(findings@)) == Some(json@),
            None => findings_json(finding_texts(findings@)) is None,
        },
{
    let ghost texts = finding_texts(findings@);
    let mut objects: Vec<String> = Vec::new();
    let mut i: usize = 0;
    while i < findings.len()
        invariant
            i <= findings@.len(),
            texts == finding_texts(findings@),
            objects@.len() == i,
            forall|j: int| 0 <= j < i ==> finding_json(texts[j]) == Some((#[trigger] objects@[j])@),
        decreases findings@.len() - i,
    {
        assert(texts[i as int] == findings@[i as int]@);
        match encode_finding(&findings[i]) {
            Some(object) => {
                objects.push(object);
            },
            None => {
                return None;
            },
        }
        i += 1;
    }
    proof {
        assert forall|j: int| 0 <= j < texts.len() implies (#[trigger] finding_json(
            texts[j],
        )) is Some by {
            assert(finding_json(texts[j]) == Some(objects@[j]@));
        }
        assert(string_texts(objects@) =~= Seq::new(
            texts.len(),
            |j: int| finding_json(texts[j])->0,
        ));
    }
    Some(json_array(&objects))
}

/// A finding whose fields are plain is written with each field between
/// quotation marks and otherwise unchanged.
pub proof fn lemma_plain_finding_json(finding: FindingText)
    requires
        is_plain(finding.rule_name),
        is_plain(finding.severity),
        is_plain(finding.line),
        is_plain(finding.message),
    ensures
        finding_json(finding) == Some(
            object_text(
                quoted(finding.rule_name),
                quoted(finding.severity),
                quoted(finding.line),
                quoted(finding.message),
            ),
        ),
{
}

/// The findings are written in their order: the array holds as many objects
/// as there are findings, the object of each finding at its place.
pub proof fn lemma_json_keeps_order(findings: Seq<FindingText>)
    requires
        findings_json(findings) is Some,
    ensures
        exists|objects: Seq<Seq<char>>|
            #![trigger array_text(objects)]
            findings_json(findings) == Some(array_text(objects)) && objects.len()
                == findings.len() && forall|i: int|
                0 <= i < findings.len() ==> finding_json(findings[i]) == Some(
                    #[trigger] objects[i],
                ),
{
    let objects = Seq::new(findings.len(), |i: int| finding_json(findings[i])->0);
    assert(findings_json(findings) == Some(array_text(objects)));
}

/// Why a report could not be turned into JSON.
#[derive(Debug)]
pub enum ReportError {
    /// A line of the report does not hold four fields.
    Malformed(ParseError),
    /// A field could not be written as a JSON string.
    Unencodable,
}

/// What a [`ReportError`] holds, as plain values.
pub ghost enum ReportErrorText {
    Malformed(ParseErrorText),
    Unencodable,
}

impl View for ReportError {
    type V = ReportErrorText;

    open spec fn view(&self) -> ReportErrorText {
        match self {
            ReportError::Malformed(e) => ReportErrorText::Malformed(e@),
            ReportError::Unencodable => ReportErrorText::Unencodable,
        }
    }
}

/// The JSON text of a report's findings, or why there is none.
pub open spec fn report_json(report: Seq<char>) -> Result<Seq<char>, ReportErrorText> {
    match report_result(report) {
        Ok(findings) => match findings_json(findings) {
            Some(json) => Ok(json),
            None => Err(ReportErrorText::Unencodable),
        },
        Err(e) => Err(ReportErrorText::Malformed(e)),
    }
}

/// The view of what [`parse_output`] returns.
pub open spec fn output_text(r: Result<String, ReportError>) -> Result<Seq<char>, ReportErrorText> {
    match r {
        Ok(json) => Ok(json@),
        Err(e) => Err(e@),
    }
}

/// Reads the analyzer's report and writes its findings as JSON.
///
/// A report with a line that does not hold four fields is refused as a
/// whole, with its first such line; the empty report gives the empty array.
pub fn parse_output(output: String) -> (r: Result<String, ReportError>)
    ensures
        output_text(r) == report_json(output@),
{
    match parse_findings(output.as_str()) {
        Ok(findings) => match encode_findings(&findings) {
            Some(json) => Ok(json),
            None => Err(ReportError::Unencodable),
        },
        Err(e) => Err(ReportError::Malformed(e)),
    }
}

} // verus!
