//! Reports: the messages that validation produces, each with a kind, a
//! severity and a place.

use vstd::prelude::*;

use crate::text::string_from_chars;
use crate::token::Loc;

verus! {

/// What a report is about.
#[derive(Clone, Copy, Debug, PartialEq, Eq, Structural)]
pub enum ErrorKey {
    ParseError,
    Validation,
    DuplicateItem,
    UnknownField,
    Colors,
    Crash,
    ReadError,
    ImageFormat,
    MissingItem,
    MissingFile,
    Filename,
    UnusedFile,
    Encoding,
    FieldMissing,
    Deprecated,
    Choice,
    NameConflict,
    Range,
    MissingPerspective,
    Config,
    Removed,
    Structure,
    Logic,
    Gui,
    Scopes,
    DefinitionName,
}

/// How serious a report is, from least to most.
#[derive(Clone, Copy, Debug, PartialEq, Eq, Structural)]
pub enum Severity {
    Tips,
    Untidy,
    Warning,
    Error,
    Fatal,
}

/// The rank of a severity: higher is more serious.
pub open spec fn severity_rank(s: Severity) -> int {
    match s {
        Severity::Tips => 0,
        Severity::Untidy => 1,
        Severity::Warning => 2,
        Severity::Error => 3,
        Severity::Fatal => 4,
    }
}

/// The less serious of `s` and `max`.
pub open spec fn capped(s: Severity, max: Severity) -> Severity {
    if severity_rank(s) <= severity_rank(max) {
        s
    } else {
        max
    }
}

impl Severity {
    /// The less serious of `self` and `max`.
    pub fn at_most(self, max: Severity) -> (r: Severity)
        ensures
            r == capped(self, max),
            r == (if severity_rank(self) <= severity_rank(max) {
                self
            } else {
                max
            }),
    {
        let a: u8 = match self {
            Severity::Tips => 0,
            Severity::Untidy => 1,
            Severity::Warning => 2,
            Severity::Error => 3,
            Severity::Fatal => 4,
        };
        let b: u8 = match max {
            Severity::Tips => 0,
            Severity::Untidy => 1,
            Severity::Warning => 2,
            Severity::Error => 3,
            Severity::Fatal => 4,
        };
        if a <= b {
            self
        } else {
            max
        }
    }
}

/// One report.
#[derive(Clone, Debug)]
pub struct Report {
    pub key: ErrorKey,
    pub severity: Severity,
    pub msg: String,
    pub info: Option<String>,
    pub loc: Loc,
    /// A second place the report points to, with what is said there.
    pub also: Option<(Loc, String)>,
    /// Whether the report is made with strong confidence.
    pub strong: bool,
}

/// A report as plain values.
pub struct ReportView {
    pub key: ErrorKey,
    pub severity: Severity,
    pub msg: Seq<char>,
    pub info: Option<Seq<char>>,
    pub loc: Loc,
    pub also: Option<(Loc, Seq<char>)>,
    pub strong: bool,
}

impl View for Report {
    type V = ReportView;

    open spec fn view(&self) -> ReportView {
        ReportView {
            key: self.key,
            severity: self.severity,
            msg: self.msg@,
            info: match self.info {
                Some(i) => Some(i@),
                None => None,
            },
            loc: self.loc,
            also: match self.also {
                Some((l, m)) => Some((l, m@)),
                None => None,
            },
            strong: self.strong,
        }
    }
}

/// The views of a sequence of reports.
pub open spec fn views(v: Seq<Report>) -> Seq<ReportView> {
    v.map_values(|r: Report| r@)
}

/// A report without extra information.
pub open spec fn rv(key: ErrorKey, severity: Severity, msg: Seq<char>, loc: Loc) -> ReportView {
    ReportView { key, severity, msg, info: None, loc, also: None, strong: false }
}

/// A report with extra information.
pub open spec fn rvi(
    key: ErrorKey,
    severity: Severity,
    msg: Seq<char>,
    info: Seq<char>,
    loc: Loc,
) -> ReportView {
    ReportView { key, severity, msg, info: Some(info), loc, also: None, strong: false }
}

/// Builds a report from message characters.
pub fn make_report(key: ErrorKey, severity: Severity, msg: &[char], loc: Loc) -> (r: Report)
    ensures
        r@ == rv(key, severity, msg@, loc),
{
    Report { key, severity, msg: string_from_chars(msg), info: None, loc, also: None, strong: false }
}

/// Builds a report from message and information characters.
pub fn make_report_info(
    key: ErrorKey,
    severity: Severity,
    msg: &[char],
    info: &[char],
    loc: Loc,
) -> (r: Report)
    ensures
        r@ == rvi(key, severity, msg@, info@, loc),
{
    Report {
        key,
        severity,
        msg: string_from_chars(msg),
        info: Some(string_from_chars(info)),
        loc,
        also: None,
        strong: false,
    }
}

/// Builds a report whose message is the string `msg`.
pub fn report_str(key: ErrorKey, severity: Severity, msg: &str, loc: Loc) -> (r: Report)
    ensures
        r@ == rv(key, severity, msg@, loc),
{
    Report { key, severity, msg: String::from_str(msg), info: None, loc, also: None, strong: false }
}

/// Builds a report whose message and information are the given strings.
pub fn report_str_info(key: ErrorKey, severity: Severity, msg: &str, info: &str, loc: Loc) -> (r:
    Report)
    ensures
        r@ == rvi(key, severity, msg@, info@, loc),
{
    Report {
        key,
        severity,
        msg: String::from_str(msg),
        info: Some(String::from_str(info)),
        loc,
        also: None,
        strong: false,
    }
}

/// The report `r`, made with strong confidence.
pub open spec fn strongly(r: ReportView) -> ReportView {
    ReportView { strong: true, ..r }
}

/// The report `r` pointing also to `loc`, where `msg` is said.
pub open spec fn with_also(r: ReportView, loc: Loc, msg: Seq<char>) -> ReportView {
    ReportView { also: Some((loc, msg)), ..r }
}

impl Report {
    /// This report, made with strong confidence.
    pub fn make_strong(self) -> (r: Report)
        ensures
            r@ == strongly(self@),
    {
        Report { strong: true, ..self }
    }

    /// This report, pointing also to `loc`, where `msg` is said.
    pub fn point_also(self, loc: Loc, msg: &str) -> (r: Report)
        ensures
            r@ == with_also(self@, loc, msg@),
    {
        Report { also: Some((loc, String::from_str(msg))), ..self }
    }
}

/// Appends `rep` to `out`.
pub fn push_report(out: &mut Vec<Report>, rep: Report)
    ensures
        views(final(out)@) == views(old(out)@).push(rep@),
{
    let ghost before = out@;
    out.push(rep);
    assert(views(out@) =~= views(before).push(rep@));
}

} // verus!
