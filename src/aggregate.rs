//! Grouping the records of a document by category, in the order of the
//! categories' names.

use vstd::prelude::*;
use crate::record::{Category, RequestKind, Solicitud, SolicitudView, annotations_record};

verus! {

/// The records of a sequence of requests.
pub open spec fn views(v: Seq<Solicitud>) -> Seq<SolicitudView> {
    v.map_values(|s: Solicitud| s@)
}

/// The records read so far, one sequence per kind, and the chunks that no
/// layout matched.
pub struct Tally {
    pub course: Seq<SolicitudView>,
    pub graduate: Seq<SolicitudView>,
    pub semester: Seq<SolicitudView>,
    pub minimum_load: Seq<SolicitudView>,
    pub thesis: Seq<SolicitudView>,
    pub unhandled: Seq<Seq<char>>,
}

pub open spec fn empty_tally() -> Tally {
    Tally {
        course: Seq::empty(),
        graduate: Seq::empty(),
        semester: Seq::empty(),
        minimum_load: Seq::empty(),
        thesis: Seq::empty(),
        unhandled: Seq::empty(),
    }
}

/// The records of kind `k` in `t`.
pub open spec fn of_kind(t: Tally, k: RequestKind) -> Seq<SolicitudView> {
    match k {
        RequestKind::CourseCancellation => t.course,
        RequestKind::GraduateCourseCancellation => t.graduate,
        RequestKind::SemesterCancellation => t.semester,
        RequestKind::MinimumLoad => t.minimum_load,
        RequestKind::ThesisRegistration => t.thesis,
    }
}

/// `t` with the record `r` of kind `k` added at the end of its kind.
pub open spec fn file_record(t: Tally, k: RequestKind, r: SolicitudView) -> Tally {
    match k {
        RequestKind::CourseCancellation => Tally { course: t.course.push(r), ..t },
        RequestKind::GraduateCourseCancellation => Tally { graduate: t.graduate.push(r), ..t },
        RequestKind::SemesterCancellation => Tally { semester: t.semester.push(r), ..t },
        RequestKind::MinimumLoad => Tally { minimum_load: t.minimum_load.push(r), ..t },
        RequestKind::ThesisRegistration => Tally { thesis: t.thesis.push(r), ..t },
    }
}

/// A category with its records, present only where it has some.
pub open spec fn entry(c: Category, rs: Seq<SolicitudView>) -> Seq<(Category, Seq<SolicitudView>)> {
    if rs.len() > 0 {
        seq![(c, rs)]
    } else {
        Seq::empty()
    }
}

/// The categories with their records, in the order of their names: the
/// annotations block as a record of its own where it is not empty, and
/// graduate course cancellations after the other course cancellations.
pub open spec fn grouped(t: Tally, block: Seq<char>) -> Seq<(Category, Seq<SolicitudView>)> {
    let annotations = if block.len() > 0 { seq![annotations_record(block)] } else { Seq::empty() };
    entry(Category::Annotations, annotations) + entry(Category::MinimumLoad, t.minimum_load)
        + entry(Category::CourseCancellation, t.course + t.graduate)
        + entry(Category::SemesterCancellation, t.semester)
        + entry(Category::ThesisRegistration, t.thesis)
}

/// The records of a document grouped by category, and the chunks that no
/// layout matched.
#[derive(Debug)]
pub struct Extraction {
    pub solicitudes: Vec<(Category, Vec<Solicitud>)>,
    pub unhandled: Vec<String>,
}

/// An [`Extraction`] as values.
pub struct ExtractionView {
    pub solicitudes: Seq<(Category, Seq<SolicitudView>)>,
    pub unhandled: Seq<Seq<char>>,
}

pub open spec fn groups_view(v: Seq<(Category, Vec<Solicitud>)>) -> Seq<(Category, Seq<SolicitudView>)> {
    v.map_values(|e: (Category, Vec<Solicitud>)| (e.0, views(e.1@)))
}

impl View for Extraction {
    type V = ExtractionView;

    open spec fn view(&self) -> ExtractionView {
        ExtractionView { solicitudes: groups_view(self.solicitudes@), unhandled: self.unhandled.deep_view() }
    }
}

fn push_record(v: &mut Vec<Solicitud>, s: Solicitud)
    ensures
        views(final(v)@) == views(old(v)@).push(s@),
{
    v.push(s);
    assert(views(v@) =~= views(old(v)@).push(s@));
}

fn push_entry(out: &mut Vec<(Category, Vec<Solicitud>)>, c: Category, rs: Vec<Solicitud>)
    ensures
        groups_view(final(out)@) == groups_view(old(out)@) + entry(c, views(rs@)),
{
    if rs.len() > 0 {
        let ghost rv = views(rs@);
        out.push((c, rs));
        assert(groups_view(out@) =~= groups_view(old(out)@) + seq![(c, rv)]);
    } else {
        assert(groups_view(out@) =~= groups_view(old(out)@) + entry(c, views(rs@)));
    }
}

/// The records read so far, one list per kind, and the unhandled chunks.
pub struct Buckets {
    course: Vec<Solicitud>,
    graduate: Vec<Solicitud>,
    semester: Vec<Solicitud>,
    minimum_load: Vec<Solicitud>,
    thesis: Vec<Solicitud>,
    unhandled: Vec<String>,
}

impl View for Buckets {
    type V = Tally;

    closed spec fn view(&self) -> Tally {
        Tally {
            course: views(self.course@),
            graduate: views(self.graduate@),
            semester: views(self.semester@),
            minimum_load: views(self.minimum_load@),
            thesis: views(self.thesis@),
            unhandled: self.unhandled.deep_view(),
        }
    }
}

impl Buckets {
    pub fn new() -> (r: Buckets)
        ensures
            r@ == empty_tally(),
    {
        let r = Buckets {
            course: Vec::new(),
            graduate: Vec::new(),
            semester: Vec::new(),
            minimum_load: Vec::new(),
            thesis: Vec::new(),
            unhandled: Vec::new(),
        };
        assert(r@.course =~= Seq::empty());
        assert(r@.graduate =~= Seq::empty());
        assert(r@.semester =~= Seq::empty());
        assert(r@.minimum_load =~= Seq::empty());
        assert(r@.thesis =~= Seq::empty());
        assert(r@.unhandled =~= Seq::empty());
        r
    }

    /// Adds a record at the end of its kind.
    pub fn file(&mut self, k: RequestKind, s: Solicitud)
        ensures
            final(self)@ == file_record(old(self)@, k, s@),
    {
        match k {
            RequestKind::CourseCancellation => push_record(&mut self.course, s),
            RequestKind::GraduateCourseCancellation => push_record(&mut self.graduate, s),
            RequestKind::SemesterCancellation => push_record(&mut self.semester, s),
            RequestKind::MinimumLoad => push_record(&mut self.minimum_load, s),
            RequestKind::ThesisRegistration => push_record(&mut self.thesis, s),
        }
    }

    /// Adds a chunk that no layout matched.
    pub fn leave_unhandled(&mut self, chunk: String)
        ensures
            final(self)@ == (Tally { unhandled: old(self)@.unhandled.push(chunk@), ..old(self)@ }),
    {
        self.unhandled.push(chunk);
        assert(self.unhandled.deep_view() =~= old(self)@.unhandled.push(chunk@));
    }

    /// The categories with their records, in the order of their names, the
    /// annotations block `block` among them where it is not empty.
    pub fn into_extraction(self, block: String) -> (r: Extraction)
        ensures
            r@ == (ExtractionView { solicitudes: grouped(self@, block@), unhandled: self@.unhandled }),
    {
        let ghost t = self@;
        let Buckets { mut course, mut graduate, semester, minimum_load, thesis, unhandled } = self;
        let mut solicitudes: Vec<(Category, Vec<Solicitud>)> = Vec::new();
        let mut annotations: Vec<Solicitud> = Vec::new();
        let ghost block_view = block@;
        assert(groups_view(solicitudes@) =~= Seq::empty());
        assert(views(annotations@) =~= Seq::empty());
        if !block.as_str().is_empty() {
            push_record(&mut annotations, Solicitud::annotations(block));
        }
        assert(views(annotations@) =~= (if block_view.len() > 0 {
            seq![annotations_record(block_view)]
        } else {
            Seq::empty()
        }));
        push_entry(&mut solicitudes, Category::Annotations, annotations);
        push_entry(&mut solicitudes, Category::MinimumLoad, minimum_load);
        let ghost course_view = views(course@);
        let ghost graduate_view = views(graduate@);
        course.append(&mut graduate);
        assert(views(course@) =~= course_view + graduate_view);
        push_entry(&mut solicitudes, Category::CourseCancellation, course);
        push_entry(&mut solicitudes, Category::SemesterCancellation, semester);
        push_entry(&mut solicitudes, Category::ThesisRegistration, thesis);
        assert(groups_view(solicitudes@) =~= grouped(t, block_view));
        Extraction { solicitudes, unhandled }
    }
}

} // verus!
