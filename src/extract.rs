//! Reading one request chunk: it is matched against the field layouts in a
//! fixed order, and the first layout that matches gives the record's fields
//! and, with the request number's prefix, its kind.

use vstd::prelude::*;
use regex::Regex;
use crate::date::{date_of, parse_date};
use crate::patterns::{
    Patterns, Registry, captures, count_matches, regex_captures_of, regex_match_count_of,
    regex_replace_all_of, regex_source, replace_all,
};
use crate::record::{RequestKind, Solicitud, SolicitudView};
use crate::text::{
    has_prefix, parse_unsigned, parsed_unsigned, remove_whitespace, starts_with, strip_ws, trim,
    trimmed,
};

verus! {

pub const GRADUATE_COURSE_PREFIX: &'static str = "CEAP";
pub const COURSE_PREFIX: &'static str = "CEA";
pub const SEMESTER_PREFIX: &'static str = "CS";
pub const MINIMUM_LOAD_PREFIX: &'static str = "ACM";
pub const THESIS_PREFIX: &'static str = "RTG";

/// The field layouts of the report, in the order in which a chunk is tried
/// against them.
#[derive(Clone, Copy, Debug, PartialEq, Eq, Structural)]
pub enum Layout {
    /// Course cancellations, standard and graduate.
    Course,
    /// Semester cancellations; minimum-load requests share it.
    Semester,
    /// Minimum-load requests.
    MinimumLoad,
    /// Thesis registrations: no reasons, no subjects, no period.
    Thesis,
}

pub open spec fn layout_pattern(p: Patterns, l: Layout) -> Seq<char> {
    match l {
        Layout::Course => p.course,
        Layout::Semester => p.semester,
        Layout::MinimumLoad => p.minimum_load,
        Layout::Thesis => p.thesis,
    }
}

fn layout_regex(reg: &Registry, l: Layout) -> (r: &Regex)
    ensures
        regex_source(*r) == layout_pattern(reg@, l),
{
    match l {
        Layout::Course => reg.course(),
        Layout::Semester => reg.semester(),
        Layout::MinimumLoad => reg.minimum_load(),
        Layout::Thesis => reg.thesis(),
    }
}

/// The kind of a request read with layout `l` whose number is `n`; `None`
/// where the number's prefix does not belong to the layout.
pub open spec fn kind_for(l: Layout, n: Seq<char>) -> Option<RequestKind> {
    match l {
        Layout::Course => if has_prefix(n, GRADUATE_COURSE_PREFIX@) {
            Some(RequestKind::GraduateCourseCancellation)
        } else if has_prefix(n, COURSE_PREFIX@) {
            Some(RequestKind::CourseCancellation)
        } else {
            None
        },
        Layout::Semester => if has_prefix(n, SEMESTER_PREFIX@) {
            Some(RequestKind::SemesterCancellation)
        } else if has_prefix(n, MINIMUM_LOAD_PREFIX@) {
            Some(RequestKind::MinimumLoad)
        } else {
            None
        },
        Layout::MinimumLoad => if has_prefix(n, MINIMUM_LOAD_PREFIX@) {
            Some(RequestKind::MinimumLoad)
        } else {
            None
        },
        Layout::Thesis => if has_prefix(n, THESIS_PREFIX@) {
            Some(RequestKind::ThesisRegistration)
        } else {
            None
        },
    }
}

/// Tells the kind of a request from the layout it was read with and its
/// number.
pub fn classify(l: Layout, number: &str) -> (r: Option<RequestKind>)
    ensures
        r == kind_for(l, number@),
{
    match l {
        Layout::Course => if starts_with(number, GRADUATE_COURSE_PREFIX) {
            Some(RequestKind::GraduateCourseCancellation)
        } else if starts_with(number, COURSE_PREFIX) {
            Some(RequestKind::CourseCancellation)
        } else {
            None
        },
        Layout::Semester => if starts_with(number, SEMESTER_PREFIX) {
            Some(RequestKind::SemesterCancellation)
        } else if starts_with(number, MINIMUM_LOAD_PREFIX) {
            Some(RequestKind::MinimumLoad)
        } else {
            None
        },
        Layout::MinimumLoad => if starts_with(number, MINIMUM_LOAD_PREFIX) {
            Some(RequestKind::MinimumLoad)
        } else {
            None
        },
        Layout::Thesis => if starts_with(number, THESIS_PREFIX) {
            Some(RequestKind::ThesisRegistration)
        } else {
            None
        },
    }
}

/// A fatal error: it stops the whole document.
#[derive(Debug)]
pub enum ExtractError {
    /// The annotations separator is absent: the document is malformed.
    MissingAnnotations,
    /// A pattern of the registry did not compile.
    InvalidPattern,
    /// An identification number that is not a number, with its text.
    InvalidIdentification { text: String },
    /// A date in neither accepted format, with its text.
    InvalidDate { text: String },
}

/// An [`ExtractError`] as values.
pub enum Failure {
    MissingAnnotations,
    InvalidPattern,
    InvalidIdentification(Seq<char>),
    InvalidDate(Seq<char>),
}

impl View for ExtractError {
    type V = Failure;

    open spec fn view(&self) -> Failure {
        match self {
            ExtractError::MissingAnnotations => Failure::MissingAnnotations,
            ExtractError::InvalidPattern => Failure::InvalidPattern,
            ExtractError::InvalidIdentification { text } => Failure::InvalidIdentification(text@),
            ExtractError::InvalidDate { text } => Failure::InvalidDate(text@),
        }
    }
}

/// The identification number that `s` denotes once its whitespace is
/// removed.
pub open spec fn identification_of(s: Seq<char>) -> Option<nat> {
    parsed_unsigned(strip_ws(s))
}

/// Reads an identification number whose digits may be broken by whitespace.
pub fn parse_identification(s: &str) -> (r: Option<usize>)
    ensures
        match r {
            Some(v) => identification_of(s@) == Some(v as nat),
            None => identification_of(s@) is None,
        },
{
    parse_unsigned(remove_whitespace(s).as_str())
}

/// The text of group `i`, empty where the group is missing or took no part.
pub open spec fn group_text(g: Seq<Option<Seq<char>>>, i: int) -> Seq<char> {
    if 0 <= i < g.len() {
        match g[i] {
            Some(s) => s,
            None => Seq::empty(),
        }
    } else {
        Seq::empty()
    }
}

fn group(groups: &Vec<Option<String>>, i: usize) -> (r: String)
    ensures
        r@ == group_text(groups.deep_view(), i as int),
{
    if i < groups.len() {
        match &groups[i] {
            Some(s) => s.clone(),
            None => String::new(),
        }
    } else {
        String::new()
    }
}

/// The span whose attachment markers are counted: the last group of the
/// layout, trimmed but for thesis registrations.
pub open spec fn trailing_span(l: Layout, g: Seq<Option<Seq<char>>>) -> Seq<char> {
    match l {
        Layout::Thesis => group_text(g, 6),
        _ => trimmed(group_text(g, 8)),
    }
}

/// The request number: all its whitespace removed, or for thesis
/// registrations only the surrounding whitespace.
pub open spec fn number_text(l: Layout, g: Seq<Option<Seq<char>>>) -> Seq<char> {
    match l {
        Layout::Thesis => trimmed(group_text(g, 4)),
        _ => strip_ws(group_text(g, 4)),
    }
}

/// The record that the groups `g` of a match of layout `l` give, with its
/// kind; `Ok(None)` where the number's prefix does not fit the layout.
pub open spec fn record_of(p: Patterns, l: Layout, g: Seq<Option<Seq<char>>>) -> Result<
    Option<(RequestKind, SolicitudView)>,
    Failure,
> {
    let id_text = strip_ws(group_text(g, 2));
    let date_text = strip_ws(group_text(g, 5));
    match parsed_unsigned(id_text) {
        None => Err(Failure::InvalidIdentification(id_text)),
        Some(id) => match date_of(date_text) {
            None => Err(Failure::InvalidDate(date_text)),
            Some(d) => {
                let span = trailing_span(l, g);
                let rest = regex_replace_all_of(p.attachment, span, Seq::empty());
                let number = number_text(l, g);
                let rec = SolicitudView {
                    nombre_del_estudiante: trimmed(group_text(g, 1)),
                    plan_de_estudios: trimmed(group_text(g, 3)),
                    numero_solicitud: number,
                    fecha_de_solicitud: d,
                    identificacion: id as usize,
                    motivos: match l {
                        Layout::Thesis => None,
                        _ => Some(trimmed(group_text(g, 6))),
                    },
                    adjuntos: Some(regex_match_count_of(p.attachment, span) as usize),
                    materias: match l {
                        Layout::Course => Some(rest),
                        _ => None,
                    },
                    periodo: match l {
                        Layout::Semester | Layout::MinimumLoad => Some(rest),
                        _ => None,
                    },
                };
                match kind_for(l, number) {
                    Some(k) => Ok(Some((k, rec))),
                    None => Ok(None),
                }
            },
        },
    }
}

pub open spec fn record_result_view(r: Result<Option<(RequestKind, Solicitud)>, ExtractError>) -> Result<
    Option<(RequestKind, SolicitudView)>,
    Failure,
> {
    match r {
        Ok(Some((k, s))) => Ok(Some((k, s@))),
        Ok(None) => Ok(None),
        Err(e) => Err(e@),
    }
}

/// Reads one request from the groups of a match of layout `l`.
pub fn record_from_groups(reg: &Registry, l: Layout, groups: &Vec<Option<String>>) -> (r: Result<
    Option<(RequestKind, Solicitud)>,
    ExtractError,
>)
    ensures
        record_result_view(r) == record_of(reg@, l, groups.deep_view()),
{
    let ghost g = groups.deep_view();
    let id_text = remove_whitespace(group(groups, 2).as_str());
    let identificacion = match parse_unsigned(id_text.as_str()) {
        Some(v) => v,
        None => {
            return Err(ExtractError::InvalidIdentification { text: id_text });
        },
    };
    let date_text = remove_whitespace(group(groups, 5).as_str());
    let fecha_de_solicitud = match parse_date(date_text.as_str()) {
        Ok(d) => d,
        Err(_) => {
            return Err(ExtractError::InvalidDate { text: date_text });
        },
    };
    let nombre_del_estudiante = trim(group(groups, 1).as_str());
    let plan_de_estudios = trim(group(groups, 3).as_str());
    let numero_solicitud = match l {
        Layout::Thesis => trim(group(groups, 4).as_str()),
        _ => remove_whitespace(group(groups, 4).as_str()),
    };
    let span = match l {
        Layout::Thesis => group(groups, 6),
        _ => trim(group(groups, 8).as_str()),
    };
    let attachment_count = count_matches(reg.attachment(), span.as_str());
    let motivos = match l {
        Layout::Thesis => None,
        _ => Some(trim(group(groups, 6).as_str())),
    };
    let (materias, periodo) = match l {
        Layout::Course => {
            (Some(replace_all(reg.attachment(), span.as_str(), String::new().as_str())), None)
        },
        Layout::Semester | Layout::MinimumLoad => {
            (None, Some(replace_all(reg.attachment(), span.as_str(), String::new().as_str())))
        },
        Layout::Thesis => (None, None),
    };
    let kind = classify(l, numero_solicitud.as_str());
    let solicitud = Solicitud {
        nombre_del_estudiante,
        plan_de_estudios,
        numero_solicitud,
        fecha_de_solicitud,
        identificacion,
        motivos,
        adjuntos: Some(attachment_count),
        materias,
        periodo,
    };
    match kind {
        Some(k) => Ok(Some((k, solicitud))),
        None => Ok(None),
    }
}

/// What one chunk yields.
pub enum ChunkOutcome {
    /// A record, with its kind.
    Record(RequestKind, Solicitud),
    /// A layout matched but the number's prefix did not fit it: nothing is kept.
    Dropped,
    /// No layout matched: the chunk is reported as it is.
    Unhandled,
}

/// A [`ChunkOutcome`] as values.
pub enum OutcomeView {
    Record(RequestKind, SolicitudView),
    Dropped,
    Unhandled,
}

impl View for ChunkOutcome {
    type V = OutcomeView;

    open spec fn view(&self) -> OutcomeView {
        match self {
            ChunkOutcome::Record(k, s) => OutcomeView::Record(*k, s@),
            ChunkOutcome::Dropped => OutcomeView::Dropped,
            ChunkOutcome::Unhandled => OutcomeView::Unhandled,
        }
    }
}

pub open spec fn outcome_of_record(r: Result<Option<(RequestKind, SolicitudView)>, Failure>) -> Result<OutcomeView, Failure> {
    match r {
        Ok(Some((k, s))) => Ok(OutcomeView::Record(k, s)),
        Ok(None) => Ok(OutcomeView::Dropped),
        Err(e) => Err(e),
    }
}

/// What `chunk` yields: the first layout that matches it decides.
pub open spec fn chunk_outcome(p: Patterns, chunk: Seq<char>) -> Result<OutcomeView, Failure> {
    match regex_captures_of(p.course, chunk) {
        Some(g) => outcome_of_record(record_of(p, Layout::Course, g)),
        None => match regex_captures_of(p.semester, chunk) {
            Some(g) => outcome_of_record(record_of(p, Layout::Semester, g)),
            None => match regex_captures_of(p.minimum_load, chunk) {
                Some(g) => outcome_of_record(record_of(p, Layout::MinimumLoad, g)),
                None => match regex_captures_of(p.thesis, chunk) {
                    Some(g) => outcome_of_record(record_of(p, Layout::Thesis, g)),
                    None => Ok(OutcomeView::Unhandled),
                },
            },
        },
    }
}

pub open spec fn outcome_result_view(r: Result<ChunkOutcome, ExtractError>) -> Result<OutcomeView, Failure> {
    match r {
        Ok(o) => Ok(o@),
        Err(e) => Err(e@),
    }
}

fn outcome_from(r: Result<Option<(RequestKind, Solicitud)>, ExtractError>) -> (o: Result<ChunkOutcome, ExtractError>)
    ensures
        outcome_result_view(o) == outcome_of_record(record_result_view(r)),
{
    match r {
        Ok(Some((k, s))) => Ok(ChunkOutcome::Record(k, s)),
        Ok(None) => Ok(ChunkOutcome::Dropped),
        Err(e) => Err(e),
    }
}

/// Reads one chunk against the layouts in order.
pub fn extract_chunk(reg: &Registry, chunk: &str) -> (r: Result<ChunkOutcome, ExtractError>)
    ensures
        outcome_result_view(r) == chunk_outcome(reg@, chunk@),
{
    if let Some(g) = captures(layout_regex(reg, Layout::Course), chunk) {
        return outcome_from(record_from_groups(reg, Layout::Course, &g));
    }
    if let Some(g) = captures(layout_regex(reg, Layout::Semester), chunk) {
        return outcome_from(record_from_groups(reg, Layout::Semester, &g));
    }
    if let Some(g) = captures(layout_regex(reg, Layout::MinimumLoad), chunk) {
        return outcome_from(record_from_groups(reg, Layout::MinimumLoad, &g));
    }
    if let Some(g) = captures(layout_regex(reg, Layout::Thesis), chunk) {
        return outcome_from(record_from_groups(reg, Layout::Thesis, &g));
    }
    Ok(ChunkOutcome::Unhandled)
}

} // verus!
