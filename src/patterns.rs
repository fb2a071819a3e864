//! The regular expressions that recognise the report's structure, held
//! compiled in a [`Registry`], and the calls into the `regex` crate that the
//! extraction makes.

use vstd::prelude::*;
use regex::Regex;

verus! {

/// Separates the requests from the free-text annotations block.
pub const ANNOTATIONS_SEPARATOR: &'static str = "ID |ESPACIO PARA ANOTACIONES";

/// A pair of recurring header bands, between two sections of requests.
pub const SECTION_BANDS: &'static str = "ID\\s+\\|[A-ZÁÉÍÓÚÜ\\s]+\n\nID\\s+\\|[A-ZÁÉÍÓÚÜ\\s]+";

/// The marker that opens each request.
pub const REQUEST_START: &'static str = "\\d+\\.\\s*\\|\\s*SOLICITUD ESTUDIANTE\\s*";

/// The phrase that each physically attached document leaves in the text.
pub const ATTACHMENT_MARKER: &'static str = "(\\s*documento\\s+anexo\\s+Documento\\s*)";

/// Field layout of the course-cancellation requests.
pub const COURSE_LAYOUT: &'static str = "(?s)nombre del estudiante\\s*(.+)\\s*identificación\\s*(\\d[\\d\\s]*\\d|\\d)\\s*plan de estudios\\s*(.+?)\\s*número y fecha de la solicitud\\s*([A-Z\\d\\s-]+)\\s+(\\d\\s*\\d/\\d{2}/\\d{4}|\\d{2}/\\d{2}/\\d{2})\\s*(?:motivos\\s*(.*))(?:anexar otros documentos físicos\\s*(.*))(?:materias relacionadas a la solicitud\\s*(?:asignatura grp nombre)?(.*))";

/// Field layout of the semester-cancellation requests, which minimum-load
/// requests can share.
pub const SEMESTER_LAYOUT: &'static str = "(?s)nombre del estudiante\\s*(.+?)\\s*identificación\\s*(\\d[\\d\\s]*\\d|\\d)\\s*plan de estudios\\s*(.+?)\\s*número y fecha de la solicitud\\s*([A-Z\\d\\s-]+)\\s+(\\d\\s*\\d/\\d{2}/\\d{4}|\\d{2}/\\d{2}/\\d{2})\\s*(?:motivos\\s*(.*))(?:anexar otros documentos físicos\\s*(.*))(?:periodo para el que solicita cancelación de semestre\\s*(.*))";

/// Field layout of the minimum-load requests.
pub const MINIMUM_LOAD_LAYOUT: &'static str = "(?s)nombre del estudiante\\s*(.+?)\\s*identificación\\s*(\\d[\\d\\s]*\\d|\\d)\\s*plan de estudios\\s*(.+?)\\s*número y fecha de la solicitud\\s*([A-Z\\d\\s-]+)\\s+(\\d\\s*\\d/\\d{2}/\\d{4}|\\d{2}/\\d{2}/\\d{2})\\s*(?:motivos\\s*(.*))(?:anexar otros documentos físicos\\s*(.*))(?:periodo para el que solicita carga mínima\\s*(.*))";

/// Field layout of the thesis-registration requests.
pub const THESIS_LAYOUT: &'static str = "(?s)nombre del estudiante\\s*(.+?)\\s*identificación\\s*(\\d[\\d\\s]*\\d|\\d)\\s*plan de estudios\\s*(.+?)\\s*número y fecha de la solicitud\\s*([^ ]+)\\s+(\\d\\s*\\d/\\d{2}/\\d{4}|\\d{2}/\\d{2}/\\d{2})\\s*(?:anexar otros documentos físicos\\s*(.*))";

/// `regex::Regex`, a compiled regular expression, held opaque.
#[verifier::external_type_specification]
#[verifier::external_body]
pub struct ExRegex(regex::Regex);

/// `regex::Error`, the reason a pattern did not compile, held opaque.
#[verifier::external_type_specification]
#[verifier::external_body]
pub struct ExRegexError(regex::Error);

/// The pattern text that a compiled regular expression was built from.
pub uninterp spec fn regex_source(re: Regex) -> Seq<char>;

/// The groups of the leftmost-first match of `pattern` in `text`, group 0
/// being the whole match and `None` standing for a group that took no part;
/// `None` when nothing matches.
pub uninterp spec fn regex_captures_of(pattern: Seq<char>, text: Seq<char>) -> Option<Seq<Option<Seq<char>>>>;

/// The pieces of `text` between successive matches of `pattern`.
pub uninterp spec fn regex_split_of(pattern: Seq<char>, text: Seq<char>) -> Seq<Seq<char>>;

/// The number of successive non-overlapping matches of `pattern` in `text`.
pub uninterp spec fn regex_match_count_of(pattern: Seq<char>, text: Seq<char>) -> nat;

/// `text` with every non-overlapping match of `pattern` replaced by `rep`.
pub uninterp spec fn regex_replace_all_of(pattern: Seq<char>, text: Seq<char>, rep: Seq<char>) -> Seq<char>;

/// Whether `regex::Regex::new` accepts `pattern`: it is well formed and its
/// compiled form stays within the default size limit.
pub uninterp spec fn regex_compiles(pattern: Seq<char>) -> bool;

/// Relies on `regex::Regex::new`: it succeeds or fails on the pattern text
/// alone, and a compiled regex keeps the pattern text it was built from (the
/// text that `Regex::as_str` gives back).
#[verifier::external_body]
fn compile(pattern: &str) -> (r: Result<Regex, regex::Error>)
    ensures
        r is Ok <==> regex_compiles(pattern@),
        r matches Ok(re) ==> regex_source(re) == pattern@,
{
    Regex::new(pattern)
}

/// Relies on `regex::Regex::captures`: the text of each group of the first
/// match, in group order.
#[verifier::external_body]
pub(crate) fn captures(re: &Regex, text: &str) -> (r: Option<Vec<Option<String>>>)
    ensures
        match r {
            Some(groups) => regex_captures_of(regex_source(*re), text@) == Some(groups.deep_view()),
            None => regex_captures_of(regex_source(*re), text@) is None,
        },
{
    re.captures(text).map(|c| c.iter().map(|m| m.map(|m| m.as_str().to_string())).collect())
}

/// Relies on `regex::Regex::split`: the pieces between the matches, in order.
#[verifier::external_body]
pub(crate) fn split(re: &Regex, text: &str) -> (r: Vec<String>)
    ensures
        r.deep_view() == regex_split_of(regex_source(*re), text@),
{
    re.split(text).map(|piece| piece.to_string()).collect()
}

/// Relies on `regex::Regex::find_iter`: the number of matches it yields.
#[verifier::external_body]
pub(crate) fn count_matches(re: &Regex, text: &str) -> (r: usize)
    ensures
        r as nat == regex_match_count_of(regex_source(*re), text@),
{
    re.find_iter(text).count()
}

/// Relies on `regex::Regex::replace_all`: the text with each match replaced.
#[verifier::external_body]
pub(crate) fn replace_all(re: &Regex, text: &str, rep: &str) -> (r: String)
    ensures
        r@ == regex_replace_all_of(regex_source(*re), text@, rep@),
{
    re.replace_all(text, rep).into_owned()
}

/// The pattern texts of a registry.
pub struct Patterns {
    pub sections: Seq<char>,
    pub request_start: Seq<char>,
    pub attachment: Seq<char>,
    pub course: Seq<char>,
    pub semester: Seq<char>,
    pub minimum_load: Seq<char>,
    pub thesis: Seq<char>,
}

/// The patterns of the report layout that this library reads.
pub open spec fn standard_patterns() -> Patterns {
    Patterns {
        sections: SECTION_BANDS@,
        request_start: REQUEST_START@,
        attachment: ATTACHMENT_MARKER@,
        course: COURSE_LAYOUT@,
        semester: SEMESTER_LAYOUT@,
        minimum_load: MINIMUM_LOAD_LAYOUT@,
        thesis: THESIS_LAYOUT@,
    }
}

/// Every pattern of `p` compiles.
pub open spec fn all_compile(p: Patterns) -> bool {
    &&& regex_compiles(p.sections)
    &&& regex_compiles(p.request_start)
    &&& regex_compiles(p.attachment)
    &&& regex_compiles(p.course)
    &&& regex_compiles(p.semester)
    &&& regex_compiles(p.minimum_load)
    &&& regex_compiles(p.thesis)
}

/// The compiled patterns, built once and shared read-only by every run.
/// Each regex comes from `Regex::new` on the pattern text that the view
/// records.
pub struct Registry {
    sections: Regex,
    request_start: Regex,
    attachment: Regex,
    course: Regex,
    semester: Regex,
    minimum_load: Regex,
    thesis: Regex,
}

impl View for Registry {
    type V = Patterns;

    closed spec fn view(&self) -> Patterns {
        Patterns {
            sections: regex_source(self.sections),
            request_start: regex_source(self.request_start),
            attachment: regex_source(self.attachment),
            course: regex_source(self.course),
            semester: regex_source(self.semester),
            minimum_load: regex_source(self.minimum_load),
            thesis: regex_source(self.thesis),
        }
    }
}

/// A pattern that did not compile, with its text.
#[derive(Debug)]
pub struct PatternError {
    pub pattern: String,
}

fn compile_checked(pattern: &str) -> (r: Result<Regex, PatternError>)
    ensures
        r is Ok <==> regex_compiles(pattern@),
        match r {
            Ok(re) => regex_source(re) == pattern@,
            Err(e) => e.pattern@ == pattern@,
        },
{
    match compile(pattern) {
        Ok(re) => Ok(re),
        Err(_) => Err(PatternError { pattern: pattern.to_owned() }),
    }
}

impl Registry {
    /// Compiles the patterns of the standard report layout; fails exactly
    /// when one of them does not compile.
    pub fn new() -> (r: Result<Registry, PatternError>)
        ensures
            r is Ok <==> all_compile(standard_patterns()),
            r matches Ok(reg) ==> reg@ == standard_patterns(),
    {
        let sections = match compile_checked(SECTION_BANDS) {
            Ok(re) => re,
            Err(e) => return Err(e),
        };
        let request_start = match compile_checked(REQUEST_START) {
            Ok(re) => re,
            Err(e) => return Err(e),
        };
        let attachment = match compile_checked(ATTACHMENT_MARKER) {
            Ok(re) => re,
            Err(e) => return Err(e),
        };
        let course = match compile_checked(COURSE_LAYOUT) {
            Ok(re) => re,
            Err(e) => return Err(e),
        };
        let semester = match compile_checked(SEMESTER_LAYOUT) {
            Ok(re) => re,
            Err(e) => return Err(e),
        };
        let minimum_load = match compile_checked(MINIMUM_LOAD_LAYOUT) {
            Ok(re) => re,
            Err(e) => return Err(e),
        };
        let thesis = match compile_checked(THESIS_LAYOUT) {
            Ok(re) => re,
            Err(e) => return Err(e),
        };
        Ok(Registry { sections, request_start, attachment, course, semester, minimum_load, thesis })
    }

    pub fn sections(&self) -> (r: &Regex)
        ensures
            regex_source(*r) == self@.sections,
    {
        &self.sections
    }

    pub fn request_start(&self) -> (r: &Regex)
        ensures
            regex_source(*r) == self@.request_start,
    {
        &self.request_start
    }

    pub fn attachment(&self) -> (r: &Regex)
        ensures
            regex_source(*r) == self@.attachment,
    {
        &self.attachment
    }

    pub fn course(&self) -> (r: &Regex)
        ensures
            regex_source(*r) == self@.course,
    {
        &self.course
    }

    pub fn semester(&self) -> (r: &Regex)
        ensures
            regex_source(*r) == self@.semester,
    {
        &self.semester
    }

    pub fn minimum_load(&self) -> (r: &Regex)
        ensures
            regex_source(*r) == self@.minimum_load,
    {
        &self.minimum_load
    }

    pub fn thesis(&self) -> (r: &Regex)
        ensures
            regex_source(*r) == self@.thesis,
    {
        &self.thesis
    }
}

} // verus!
