//! Reading the analyzer's report.
//!
//! The analyzer prints one issue per line, as four fields separated by tabs:
//! rule name, severity, line reference, message. A report is read strictly:
//! one line that does not hold exactly four fields fails the whole report, so
//! that no issue is ever dropped in silence.

use crate::split::{lemma_split_nonempty, split, split_spans, texts_of};
use crate::text::{chars_of, string_of};
use vstd::prelude::*;

verus! {

/// One issue that the analyzer reported. The fields are kept as the analyzer
/// wrote them; `line` is not read as a number.
#[derive(Debug)]
pub struct Finding {
    pub rule_name: String,
    pub severity: String,
    pub line: String,
    pub message: String,
}

/// What a [`Finding`] holds, as plain text.
pub ghost struct FindingText {
    pub rule_name: Seq<char>,
    pub severity: Seq<char>,
    pub line: Seq<char>,
    pub message: Seq<char>,
}

impl View for Finding {
    type V = FindingText;

    open spec fn view(&self) -> FindingText {
        FindingText {
            rule_name: self.rule_name@,
            severity: self.severity@,
            line: self.line@,
            message: self.message@,
        }
    }
}

/// The report line that could not be read.
#[derive(Debug)]
pub struct ParseError {
    /// Its position among the report's lines, counted from zero.
    pub line_index: usize,
    /// Its text, without the carriage returns at its end.
    pub line: String,
}

/// What a [`ParseError`] holds, as plain values.
pub ghost struct ParseErrorText {
    pub line_index: int,
    pub line: Seq<char>,
}

impl View for ParseError {
    type V = ParseErrorText;

    open spec fn view(&self) -> ParseErrorText {
        ParseErrorText { line_index: self.line_index as int, line: self.line@ }
    }
}

/// The views of a sequence of findings, in the same order.
pub open spec fn finding_texts(findings: Seq<Finding>) -> Seq<FindingText> {
    Seq::new(findings.len(), |i: int| findings[i]@)
}

/// The lines of a report: the pieces between line feeds, without the empty
/// piece that follows a final line feed. The empty report has no lines.
pub open spec fn report_lines(report: Seq<char>) -> Seq<Seq<char>> {
    let pieces = split(report, '\n');
    if pieces.last().len() == 0 {
        pieces.drop_last()
    } else {
        pieces
    }
}

/// `line` without the carriage returns at its end.
pub open spec fn strip_carriage_returns(line: Seq<char>) -> Seq<char>
    decreases line.len(),
{
    if line.len() > 0 && line.last() == '\r' {
        strip_carriage_returns(line.drop_last())
    } else {
        line
    }
}

/// The tab-separated fields of a report line.
pub open spec fn line_fields(line: Seq<char>) -> Seq<Seq<char>> {
    split(strip_carriage_returns(line), '\t')
}

/// A report line conforms when it holds exactly four fields.
pub open spec fn line_conforms(line: Seq<char>) -> bool {
    line_fields(line).len() == 4
}

/// The finding that a conforming line reports.
pub open spec fn line_finding(line: Seq<char>) -> FindingText {
    let fields = line_fields(line);
    FindingText { rule_name: fields[0], severity: fields[1], line: fields[2], message: fields[3] }
}

/// Every line of the report conforms.
pub open spec fn report_conforms(report: Seq<char>) -> bool {
    forall|i: int|
        0 <= i < report_lines(report).len() ==> line_conforms(#[trigger] report_lines(report)[i])
}

/// The findings of a conforming report: one for each line, in the report's
/// order.
pub open spec fn report_findings(report: Seq<char>) -> Seq<FindingText> {
    Seq::new(report_lines(report).len(), |i: int| line_finding(report_lines(report)[i]))
}

/// Line `i` is the first line of the report that does not conform.
pub open spec fn is_first_bad_line(report: Seq<char>, i: int) -> bool {
    &&& 0 <= i < report_lines(report).len()
    &&& !line_conforms(report_lines(report)[i])
    &&& forall|j: int| 0 <= j < i ==> line_conforms(#[trigger] report_lines(report)[j])
}

/// The index of the first line of the report that does not conform, where
/// there is one.
pub open spec fn first_bad_line(report: Seq<char>) -> int {
    choose|i: int| is_first_bad_line(report, i)
}

/// What reading a report gives: its findings, or its first line that does
/// not conform.
pub open spec fn report_result(report: Seq<char>) -> Result<Seq<FindingText>, ParseErrorText> {
    if report_conforms(report) {
        Ok(report_findings(report))
    } else {
        Err(
            ParseErrorText {
                line_index: first_bad_line(report),
                line: strip_carriage_returns(report_lines(report)[first_bad_line(report)]),
            },
        )
    }
}

/// The view of what [`parse_findings`] returns.
pub open spec fn parsed_text(r: Result<Vec<Finding>, ParseError>) -> Result<
    Seq<FindingText>,
    ParseErrorText,
> {
    match r {
        Ok(findings) => Ok(finding_texts(findings@)),
        Err(e) => Err(e@),
    }
}

/// A first line that does not conform is the only such line, and its report
/// does not conform.
pub proof fn lemma_first_bad_line(report: Seq<char>, i: int)
    requires
        is_first_bad_line(report, i),
    ensures
        !report_conforms(report),
        first_bad_line(report) == i,
{
    let j = first_bad_line(report);
    assert(is_first_bad_line(report, j));
    if j < i {
        assert(line_conforms(report_lines(report)[j]));
    }
    if i < j {
        assert(line_conforms(report_lines(report)[i]));
    }
}

/// Moves the end of `chars[start..end]` back over its trailing carriage
/// returns.
fn strip_end(chars: &Vec<char>, start: usize, end: usize) -> (stripped: usize)
    requires
        start <= end <= chars@.len(),
    ensures
        start <= stripped <= end,
        chars@.subrange(start as int, stripped as int) == strip_carriage_returns(
            chars@.subrange(start as int, end as int),
        ),
{
    let mut e: usize = end;
    while e > start && chars[e - 1] == '\r'
        invariant
            start <= e <= end <= chars@.len(),
            strip_carriage_returns(chars@.subrange(start as int, e as int))
                == strip_carriage_returns(chars@.subrange(start as int, end as int)),
        decreases e,
    {
        proof {
            let cur = chars@.subrange(start as int, e as int);
            assert(cur.last() == chars@[e - 1]);
            assert(cur.drop_last() =~= chars@.subrange(start as int, e - 1));
        }
        e -= 1;
    }
    proof {
        let cur = chars@.subrange(start as int, e as int);
        if e > start {
            assert(cur.last() == chars@[e - 1]);
        }
    }
    e
}

/// Reads the analyzer's report from its characters.
pub fn parse_report(chars: &Vec<char>) -> (r: Result<Vec<Finding>, ParseError>)
    ensures
        parsed_text(r) == report_result(chars@),
{
    let n: usize = chars.len();
    let pieces = split_spans(chars, 0, n, '\n');
    proof {
        assert(chars@.subrange(0, n as int) =~= chars@);
        lemma_split_nonempty(chars@, '\n');
        assert(pieces@.len() == split(chars@, '\n').len());
    }
    let last = pieces[pieces.len() - 1];
    let count: usize = if last.start == last.end {
        pieces.len() - 1
    } else {
        pieces.len()
    };
    let ghost lines = report_lines(chars@);
    proof {
        let all = split(chars@, '\n');
        assert(all.last() == pieces@[pieces@.len() - 1].of(chars@));
        assert(lines.len() == count);
        assert forall|k: int| 0 <= k < count implies lines[k] == (#[trigger] pieces@[k]).of(
            chars@,
        ) by {
            assert(all[k] == pieces@[k].of(chars@));
        }
    }
    let mut findings: Vec<Finding> = Vec::new();
    let mut k: usize = 0;
    while k < count
        invariant
            k <= count <= pieces@.len(),
            lines == report_lines(chars@),
            lines.len() == count,
            forall|j: int|
                0 <= j < pieces@.len() ==> (#[trigger] pieces@[j]).within(0, chars@.len() as int),
            forall|j: int| 0 <= j < count ==> lines[j] == (#[trigger] pieces@[j]).of(chars@),
            findings@.len() == k,
            forall|j: int| 0 <= j < k ==> line_conforms(#[trigger] lines[j]),
            forall|j: int| 0 <= j < k ==> (#[trigger] findings@[j])@ == line_finding(lines[j]),
        decreases count - k,
    {
        let piece = pieces[k];
        assert(piece.within(0, chars@.len() as int));
        assert(lines[k as int] == piece.of(chars@));
        let end = strip_end(chars, piece.start, piece.end);
        let fields = split_spans(chars, piece.start, end, '\t');
        proof {
            assert(texts_of(fields@, chars@) == line_fields(lines[k as int]));
            assert(fields@.len() == line_fields(lines[k as int]).len());
        }
        if fields.len() != 4 {
            let line = string_of(chars, piece.start, end);
            proof {
                assert(is_first_bad_line(chars@, k as int));
                lemma_first_bad_line(chars@, k as int);
            }
            return Err(ParseError { line_index: k, line });
        }
        proof {
            let texts = texts_of(fields@, chars@);
            assert(texts[0] == fields@[0].of(chars@));
            assert(texts[1] == fields@[1].of(chars@));
            assert(texts[2] == fields@[2].of(chars@));
            assert(texts[3] == fields@[3].of(chars@));
            assert(fields@[0].within(piece.start as int, end as int));
            assert(fields@[1].within(piece.start as int, end as int));
            assert(fields@[2].within(piece.start as int, end as int));
            assert(fields@[3].within(piece.start as int, end as int));
        }
        let finding = Finding {
            rule_name: string_of(chars, fields[0].start, fields[0].end),
            severity: string_of(chars, fields[1].start, fields[1].end),
            line: string_of(chars, fields[2].start, fields[2].end),
            message: string_of(chars, fields[3].start, fields[3].end),
        };
        assert(finding@ == line_finding(lines[k as int]));
        findings.push(finding);
        k += 1;
    }
    proof {
        assert(finding_texts(findings@) =~= report_findings(chars@));
    }
    Ok(findings)
}

/// Reads the analyzer's report.
///
/// Succeeds exactly when every line holds four tab-separated fields, and then
/// returns one finding for each line, in the report's order; the empty report
/// gives no findings. Otherwise names the first line that does not conform.
pub fn parse_findings(report: &str) -> (r: Result<Vec<Finding>, ParseError>)
    ensures
        parsed_text(r) == report_result(report@),
{
    let chars = chars_of(report);
    parse_report(&chars)
}

/// A report with a line that does not hold exactly four fields, be they
/// fewer or more, is refused as a whole.
pub proof fn lemma_bad_line_fails_report(report: Seq<char>, i: int)
    requires
        0 <= i < report_lines(report).len(),
        line_fields(report_lines(report)[i]).len() != 4,
    ensures
        report_result(report) is Err,
        0 <= report_result(report)->Err_0.line_index <= i,
{
    assert(!line_conforms(report_lines(report)[i]));
    lemma_has_first_bad_line(report, i);
}

/// Below a line that does not conform stands a first one.
proof fn lemma_has_first_bad_line(report: Seq<char>, i: int)
    requires
        0 <= i < report_lines(report).len(),
        !line_conforms(report_lines(report)[i]),
    ensures
        is_first_bad_line(report, first_bad_line(report)),
        first_bad_line(report) <= i,
    decreases i,
{
    if forall|j: int| 0 <= j < i ==> line_conforms(#[trigger] report_lines(report)[j]) {
        assert(is_first_bad_line(report, i));
        lemma_first_bad_line(report, i);
    } else {
        let j = choose|j: int| 0 <= j < i && !line_conforms(#[trigger] report_lines(report)[j]);
        lemma_has_first_bad_line(report, j);
    }
}

/// A report that is read gives one finding for each of its lines, none of
/// which is empty.
pub proof fn lemma_one_finding_for_each_line(report: Seq<char>)
    requires
        report_result(report) is Ok,
    ensures
        report_result(report)->Ok_0.len() == report_lines(report).len(),
        forall|i: int|
            0 <= i < report_lines(report).len() ==> (#[trigger] report_lines(report)[i]).len() > 0
                && report_result(report)->Ok_0[i] == line_finding(report_lines(report)[i]),
{
    assert forall|i: int| 0 <= i < report_lines(report).len() implies (
    #[trigger] report_lines(report)[i]).len() > 0 by {
        let line = report_lines(report)[i];
        assert(line_conforms(line));
        if line.len() == 0 {
            assert(strip_carriage_returns(line) =~= line);
            assert(split(line, '\t').len() == 1);
        }
    }
}

/// The empty report is read, and has no findings.
pub proof fn lemma_empty_report_has_no_findings()
    ensures
        report_result(Seq::<char>::empty()) == Ok::<Seq<FindingText>, ParseErrorText>(
            Seq::<FindingText>::empty(),
        ),
{
    let report = Seq::<char>::empty();
    assert(split(report, '\n') =~= seq![Seq::<char>::empty()]);
    assert(report_lines(report) =~= Seq::<Seq<char>>::empty());
    assert(report_findings(report) =~= Seq::<FindingText>::empty());
}

} // verus!
