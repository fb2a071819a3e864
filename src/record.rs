//! The request record, the categories records are grouped under, and the
//! cells and column headers of a record's row in the exported table.

use vstd::prelude::*;
use crate::date::{Date, date_text, format_date};
use crate::text::{decimal, decimal_string};

verus! {

pub const ANNOTATIONS_NAME: &'static str = "ANOTACIONES";
pub const MINIMUM_LOAD_NAME: &'static str = "AUTORIZACIÓN CARGA MÍNIMA";
pub const COURSE_CANCELLATION_NAME: &'static str = "CANCELACIÓN EXTEMP. ASIGNATURAS";
pub const SEMESTER_CANCELLATION_NAME: &'static str = "CANCELACIÓN SEMESTRE";
pub const THESIS_REGISTRATION_NAME: &'static str = "REGISTRO TRABAJO GRADO";

pub const NAME_HEADER: &'static str = "Nombre del estudiante";
pub const PLAN_HEADER: &'static str = "Plan de estudios";
pub const NUMBER_HEADER: &'static str = "Número de solicitud";
pub const DATE_HEADER: &'static str = "Fecha de solicitud";
pub const IDENTIFICATION_HEADER: &'static str = "Identificación";
pub const ATTACHMENTS_HEADER: &'static str = "Adjuntos";
pub const SUBJECTS_HEADER: &'static str = "Materias";
pub const PERIOD_HEADER: &'static str = "Periodo";
pub const REASONS_HEADER: &'static str = "Motivos";

/// One student request.
#[derive(Debug)]
pub struct Solicitud {
    pub nombre_del_estudiante: String,
    pub plan_de_estudios: String,
    pub numero_solicitud: String,
    pub fecha_de_solicitud: Date,
    pub identificacion: usize,
    pub motivos: Option<String>,
    pub adjuntos: Option<usize>,
    pub materias: Option<String>,
    pub periodo: Option<String>,
}

/// A request record as values.
pub struct SolicitudView {
    pub nombre_del_estudiante: Seq<char>,
    pub plan_de_estudios: Seq<char>,
    pub numero_solicitud: Seq<char>,
    pub fecha_de_solicitud: Date,
    pub identificacion: usize,
    pub motivos: Option<Seq<char>>,
    pub adjuntos: Option<usize>,
    pub materias: Option<Seq<char>>,
    pub periodo: Option<Seq<char>>,
}

impl View for Solicitud {
    type V = SolicitudView;

    open spec fn view(&self) -> SolicitudView {
        SolicitudView {
            nombre_del_estudiante: self.nombre_del_estudiante@,
            plan_de_estudios: self.plan_de_estudios@,
            numero_solicitud: self.numero_solicitud@,
            fecha_de_solicitud: self.fecha_de_solicitud,
            identificacion: self.identificacion,
            motivos: self.motivos.deep_view(),
            adjuntos: self.adjuntos,
            materias: self.materias.deep_view(),
            periodo: self.periodo.deep_view(),
        }
    }
}

/// The record that stands for the annotations block: its text as the
/// reasons, every other field empty.
pub open spec fn annotations_record(text: Seq<char>) -> SolicitudView {
    SolicitudView {
        nombre_del_estudiante: Seq::empty(),
        plan_de_estudios: Seq::empty(),
        numero_solicitud: Seq::empty(),
        fecha_de_solicitud: Date { year: 1970, month: 1, day: 1 },
        identificacion: 0,
        motivos: Some(text),
        adjuntos: None,
        materias: None,
        periodo: None,
    }
}

impl Solicitud {
    pub fn annotations(text: String) -> (r: Solicitud)
        ensures
            r@ == annotations_record(text@),
    {
        Solicitud {
            nombre_del_estudiante: String::new(),
            plan_de_estudios: String::new(),
            numero_solicitud: String::new(),
            fecha_de_solicitud: Date::unix_epoch(),
            identificacion: 0,
            motivos: Some(text),
            adjuntos: None,
            materias: None,
            periodo: None,
        }
    }
}

/// The five kinds of request that the report holds.
#[derive(Clone, Copy, Debug, PartialEq, Eq, Structural)]
pub enum RequestKind {
    CourseCancellation,
    GraduateCourseCancellation,
    SemesterCancellation,
    MinimumLoad,
    ThesisRegistration,
}

/// The groups that records are exported under, one table each, declared in
/// the order of their names.
#[derive(Clone, Copy, Debug, PartialEq, Eq, Structural)]
pub enum Category {
    Annotations,
    MinimumLoad,
    CourseCancellation,
    SemesterCancellation,
    ThesisRegistration,
}

impl RequestKind {
    /// The category a request of this kind is filed under: graduate course
    /// cancellations go with the other course cancellations.
    pub open spec fn spec_category(self) -> Category {
        match self {
            RequestKind::CourseCancellation => Category::CourseCancellation,
            RequestKind::GraduateCourseCancellation => Category::CourseCancellation,
            RequestKind::SemesterCancellation => Category::SemesterCancellation,
            RequestKind::MinimumLoad => Category::MinimumLoad,
            RequestKind::ThesisRegistration => Category::ThesisRegistration,
        }
    }

    #[verifier::when_used_as_spec(spec_category)]
    pub fn category(self) -> (r: Category)
        ensures
            r == self.spec_category(),
    {
        match self {
            RequestKind::CourseCancellation => Category::CourseCancellation,
            RequestKind::GraduateCourseCancellation => Category::CourseCancellation,
            RequestKind::SemesterCancellation => Category::SemesterCancellation,
            RequestKind::MinimumLoad => Category::MinimumLoad,
            RequestKind::ThesisRegistration => Category::ThesisRegistration,
        }
    }
}

impl Category {
    pub open spec fn spec_name(self) -> Seq<char> {
        match self {
            Category::Annotations => ANNOTATIONS_NAME@,
            Category::MinimumLoad => MINIMUM_LOAD_NAME@,
            Category::CourseCancellation => COURSE_CANCELLATION_NAME@,
            Category::SemesterCancellation => SEMESTER_CANCELLATION_NAME@,
            Category::ThesisRegistration => THESIS_REGISTRATION_NAME@,
        }
    }

    /// The category's name, which names its table.
    pub fn name(self) -> (r: &'static str)
        ensures
            r@ == self.spec_name(),
    {
        match self {
            Category::Annotations => ANNOTATIONS_NAME,
            Category::MinimumLoad => MINIMUM_LOAD_NAME,
            Category::CourseCancellation => COURSE_CANCELLATION_NAME,
            Category::SemesterCancellation => SEMESTER_CANCELLATION_NAME,
            Category::ThesisRegistration => THESIS_REGISTRATION_NAME,
        }
    }

    /// The position of the category in the order of the names.
    pub open spec fn rank(self) -> int {
        match self {
            Category::Annotations => 0,
            Category::MinimumLoad => 1,
            Category::CourseCancellation => 2,
            Category::SemesterCancellation => 3,
            Category::ThesisRegistration => 4,
        }
    }
}

/// Which optional fields a record of the category carries: exactly these
/// are present, all others absent.
pub open spec fn has_shape(r: SolicitudView, c: Category) -> bool {
    match c {
        Category::CourseCancellation => {
            &&& r.motivos is Some
            &&& r.adjuntos is Some
            &&& r.materias is Some
            &&& r.periodo is None
        },
        Category::SemesterCancellation | Category::MinimumLoad => {
            &&& r.motivos is Some
            &&& r.adjuntos is Some
            &&& r.materias is None
            &&& r.periodo is Some
        },
        Category::ThesisRegistration => {
            &&& r.motivos is None
            &&& r.adjuntos is Some
            &&& r.materias is None
            &&& r.periodo is None
        },
        Category::Annotations => {
            &&& r.motivos is Some
            &&& r.adjuntos is None
            &&& r.materias is None
            &&& r.periodo is None
        },
    }
}

pub open spec fn optional_cell(v: Option<Seq<char>>) -> Seq<Seq<char>> {
    match v {
        Some(s) => seq![s],
        None => seq![],
    }
}

pub open spec fn optional_count_cell(v: Option<usize>) -> Seq<Seq<char>> {
    match v {
        Some(n) => seq![decimal(n as nat)],
        None => seq![],
    }
}

/// The fields of a record as text: the five fixed fields, then
/// attachments, subjects, period and reasons where present.
pub open spec fn present_cells_of(r: SolicitudView) -> Seq<Seq<char>> {
    seq![
        r.nombre_del_estudiante,
        r.plan_de_estudios,
        r.numero_solicitud,
        date_text(r.fecha_de_solicitud),
        decimal(r.identificacion as nat),
    ] + optional_count_cell(r.adjuntos) + optional_cell(r.materias) + optional_cell(r.periodo)
        + optional_cell(r.motivos)
}

/// The column headers of a category's table.
pub open spec fn headers_of(c: Category) -> Seq<Seq<char>> {
    let fixed = seq![NAME_HEADER@, PLAN_HEADER@, NUMBER_HEADER@, DATE_HEADER@, IDENTIFICATION_HEADER@];
    let middle = match c {
        Category::CourseCancellation => seq![ATTACHMENTS_HEADER@, SUBJECTS_HEADER@],
        Category::SemesterCancellation | Category::MinimumLoad => seq![ATTACHMENTS_HEADER@, PERIOD_HEADER@],
        _ => seq![],
    };
    let last = match c {
        Category::ThesisRegistration => seq![],
        _ => seq![REASONS_HEADER@],
    };
    fixed + middle + last
}

/// The text of an optional field, empty where it is absent.
pub open spec fn cell_text(v: Option<Seq<char>>) -> Seq<char> {
    match v {
        Some(s) => s,
        None => Seq::empty(),
    }
}

/// The text of an optional count, empty where it is absent.
pub open spec fn count_text(v: Option<usize>) -> Seq<char> {
    match v {
        Some(n) => decimal(n as nat),
        None => Seq::empty(),
    }
}

/// The cells of a record's row in the table of category `c`, one under
/// each of that table's column headers.
pub open spec fn row_for(r: SolicitudView, c: Category) -> Seq<Seq<char>> {
    let fixed = seq![
        r.nombre_del_estudiante,
        r.plan_de_estudios,
        r.numero_solicitud,
        date_text(r.fecha_de_solicitud),
        decimal(r.identificacion as nat),
    ];
    let middle = match c {
        Category::CourseCancellation => seq![count_text(r.adjuntos), cell_text(r.materias)],
        Category::SemesterCancellation | Category::MinimumLoad => seq![count_text(r.adjuntos), cell_text(r.periodo)],
        _ => seq![],
    };
    let last = match c {
        Category::ThesisRegistration => seq![],
        _ => seq![cell_text(r.motivos)],
    };
    fixed + middle + last
}

fn text_or_empty(v: &Option<String>) -> (r: String)
    ensures
        r@ == cell_text(v.deep_view()),
{
    match v {
        Some(s) => s.clone(),
        None => String::new(),
    }
}

fn count_or_empty(v: Option<usize>) -> (r: String)
    ensures
        r@ == count_text(v),
{
    match v {
        Some(n) => decimal_string(n as u64),
        None => String::new(),
    }
}

fn push_optional(cells: &mut Vec<String>, v: &Option<String>)
    ensures
        final(cells).deep_view() == old(cells).deep_view() + optional_cell(v.deep_view()),
{
    match v {
        Some(s) => {
            cells.push(s.clone());
            assert(cells.deep_view() == old(cells).deep_view().push(s@));
        },
        None => {
            assert(cells.deep_view() == old(cells).deep_view());
        },
    }
}

/// The column headers of the table of category `c`.
pub fn column_headers(c: Category) -> (r: Vec<String>)
    ensures
        r.deep_view() == headers_of(c),
{
    let mut r: Vec<String> = Vec::new();
    r.push(NAME_HEADER.to_owned());
    r.push(PLAN_HEADER.to_owned());
    r.push(NUMBER_HEADER.to_owned());
    r.push(DATE_HEADER.to_owned());
    r.push(IDENTIFICATION_HEADER.to_owned());
    match c {
        Category::CourseCancellation => {
            r.push(ATTACHMENTS_HEADER.to_owned());
            r.push(SUBJECTS_HEADER.to_owned());
        },
        Category::SemesterCancellation | Category::MinimumLoad => {
            r.push(ATTACHMENTS_HEADER.to_owned());
            r.push(PERIOD_HEADER.to_owned());
        },
        _ => {},
    }
    match c {
        Category::ThesisRegistration => {},
        _ => {
            r.push(REASONS_HEADER.to_owned());
        },
    }
    assert(r.deep_view() == headers_of(c));
    r
}

impl Solicitud {
    /// The fields of this record as text, the absent optional ones left out.
    pub fn present_cells(&self) -> (r: Vec<String>)
        ensures
            r.deep_view() == present_cells_of(self@),
    {
        let mut r: Vec<String> = Vec::new();
        r.push(self.nombre_del_estudiante.clone());
        r.push(self.plan_de_estudios.clone());
        r.push(self.numero_solicitud.clone());
        r.push(format_date(&self.fecha_de_solicitud));
        r.push(decimal_string(self.identificacion as u64));
        let ghost fixed = r.deep_view();
        match self.adjuntos {
            Some(n) => {
                r.push(decimal_string(n as u64));
                assert(r.deep_view() == fixed.push(decimal(n as nat)));
            },
            None => {},
        }
        push_optional(&mut r, &self.materias);
        push_optional(&mut r, &self.periodo);
        push_optional(&mut r, &self.motivos);
        assert(r.deep_view() == present_cells_of(self@));
        r
    }

    /// The cells of this record's row in the table of category `c`, in the
    /// order of `column_headers(c)`.
    pub fn row(&self, c: Category) -> (r: Vec<String>)
        ensures
            r.deep_view() == row_for(self@, c),
    {
        let mut r: Vec<String> = Vec::new();
        r.push(self.nombre_del_estudiante.clone());
        r.push(self.plan_de_estudios.clone());
        r.push(self.numero_solicitud.clone());
        r.push(format_date(&self.fecha_de_solicitud));
        r.push(decimal_string(self.identificacion as u64));
        match c {
            Category::CourseCancellation => {
                r.push(count_or_empty(self.adjuntos));
                r.push(text_or_empty(&self.materias));
            },
            Category::SemesterCancellation | Category::MinimumLoad => {
                r.push(count_or_empty(self.adjuntos));
                r.push(text_or_empty(&self.periodo));
            },
            _ => {},
        }
        match c {
            Category::ThesisRegistration => {},
            _ => {
                r.push(text_or_empty(&self.motivos));
            },
        }
        assert(r.deep_view() == row_for(self@, c));
        r
    }

    /// The fields of this record as text, one at a time.
    pub fn iter(&self) -> (r: SolicitudIterator)
        ensures
            r.cells() == present_cells_of(self@),
            r.position() == 0,
    {
        SolicitudIterator { cells: self.present_cells(), index: 0 }
    }
}

/// Walks the fields of a record as text, the absent optional ones left out.
pub struct SolicitudIterator {
    cells: Vec<String>,
    index: usize,
}

impl SolicitudIterator {
    pub closed spec fn cells(&self) -> Seq<Seq<char>> {
        self.cells.deep_view()
    }

    pub closed spec fn position(&self) -> nat {
        self.index as nat
    }

    /// The next cell, or `None` once all have been given.
    pub fn next(&mut self) -> (r: Option<String>)
        ensures
            final(self).cells() == old(self).cells(),
            old(self).position() < old(self).cells().len() ==> {
                &&& r matches Some(c) && c@ == old(self).cells()[old(self).position() as int]
                &&& final(self).position() == old(self).position() + 1
            },
            old(self).position() >= old(self).cells().len() ==> {
                &&& r is None
                &&& final(self).position() == old(self).position()
            },
    {
        if self.index < self.cells.len() {
            let c = self.cells[self.index].clone();
            self.index = self.index + 1;
            Some(c)
        } else {
            None
        }
    }
}

} // verus!
