//! Properties of the pipeline that hold of every document, proved from the
//! specifications of the modules above.

use vstd::prelude::*;
use crate::aggregate::{Extraction, ExtractionView, Tally, entry, file_record, grouped, of_kind};
use crate::extract::{
    GRADUATE_COURSE_PREFIX, COURSE_PREFIX, SEMESTER_PREFIX, MINIMUM_LOAD_PREFIX, THESIS_PREFIX,
    ExtractError, Failure, Layout, OutcomeView, chunk_outcome, group_text, identification_of,
    kind_for, number_text, record_of,
};
use crate::pipeline::{document_extraction, extraction_of, extraction_result_view, lemma_failure_persists, tally};
use crate::segment::{request_chunks, split_annotations};
use crate::patterns::{Patterns, regex_captures_of};
use crate::record::{
    DATE_HEADER, IDENTIFICATION_HEADER, NAME_HEADER, NUMBER_HEADER, PLAN_HEADER, Category, RequestKind, SolicitudView, annotations_record, has_shape, headers_of,
    present_cells_of, row_for,
};
use crate::date::{date_of, date_text};
use crate::text::{decimal, has_prefix, strip_ws};

verus! {

/// All records of `rs` carry the optional fields of category `c`.
pub open spec fn all_shaped(rs: Seq<SolicitudView>, c: Category) -> bool {
    forall|i: int| 0 <= i < rs.len() ==> has_shape(#[trigger] rs[i], c)
}

/// Every record of every entry carries the optional fields of the entry's
/// category.
pub open spec fn entries_shaped(s: Seq<(Category, Seq<SolicitudView>)>) -> bool {
    forall|j: int| 0 <= j < s.len() ==> all_shaped(#[trigger] s[j].1, s[j].0)
}

pub open spec fn tally_shaped(t: Tally) -> bool {
    &&& all_shaped(t.course, Category::CourseCancellation)
    &&& all_shaped(t.graduate, Category::CourseCancellation)
    &&& all_shaped(t.semester, Category::SemesterCancellation)
    &&& all_shaped(t.minimum_load, Category::MinimumLoad)
    &&& all_shaped(t.thesis, Category::ThesisRegistration)
}

proof fn lemma_record_shape(p: Patterns, l: Layout, g: Seq<Option<Seq<char>>>)
    ensures
        record_of(p, l, g) matches Ok(Some((k, r))) ==> has_shape(r, k.spec_category()),
{
}

proof fn lemma_chunk_shape(p: Patterns, chunk: Seq<char>)
    ensures
        chunk_outcome(p, chunk) matches Ok(OutcomeView::Record(k, r)) ==> has_shape(r, k.spec_category()),
{
    if let Some(g) = regex_captures_of(p.course, chunk) {
        lemma_record_shape(p, Layout::Course, g);
    } else if let Some(g) = regex_captures_of(p.semester, chunk) {
        lemma_record_shape(p, Layout::Semester, g);
    } else if let Some(g) = regex_captures_of(p.minimum_load, chunk) {
        lemma_record_shape(p, Layout::MinimumLoad, g);
    } else if let Some(g) = regex_captures_of(p.thesis, chunk) {
        lemma_record_shape(p, Layout::Thesis, g);
    }
}

proof fn lemma_push_shaped(rs: Seq<SolicitudView>, r: SolicitudView, c: Category)
    requires
        all_shaped(rs, c),
        has_shape(r, c),
    ensures
        all_shaped(rs.push(r), c),
{
    assert forall|i: int| 0 <= i < rs.push(r).len() implies has_shape(#[trigger] rs.push(r)[i], c) by {
        if i < rs.len() {
            assert(rs.push(r)[i] == rs[i]);
        }
    }
}

proof fn lemma_tally_shaped(p: Patterns, chunks: Seq<Seq<char>>)
    ensures
        tally(p, chunks) matches Ok(t) ==> tally_shaped(t),
    decreases chunks.len(),
{
    if chunks.len() > 0 {
        lemma_tally_shaped(p, chunks.drop_last());
        lemma_chunk_shape(p, chunks.last());
        if let Ok(t) = tally(p, chunks.drop_last()) {
            if let Ok(OutcomeView::Record(k, r)) = chunk_outcome(p, chunks.last()) {
                match k {
                    RequestKind::CourseCancellation => lemma_push_shaped(t.course, r, Category::CourseCancellation),
                    RequestKind::GraduateCourseCancellation => lemma_push_shaped(t.graduate, r, Category::CourseCancellation),
                    RequestKind::SemesterCancellation => lemma_push_shaped(t.semester, r, Category::SemesterCancellation),
                    RequestKind::MinimumLoad => lemma_push_shaped(t.minimum_load, r, Category::MinimumLoad),
                    RequestKind::ThesisRegistration => lemma_push_shaped(t.thesis, r, Category::ThesisRegistration),
                }
            }
        }
    }
}

proof fn lemma_entries_concat(a: Seq<(Category, Seq<SolicitudView>)>, b: Seq<(Category, Seq<SolicitudView>)>)
    requires
        entries_shaped(a),
        entries_shaped(b),
    ensures
        entries_shaped(a + b),
{
    assert forall|j: int| 0 <= j < (a + b).len() implies all_shaped(#[trigger] (a + b)[j].1, (a + b)[j].0) by {
        if j < a.len() {
            assert((a + b)[j] == a[j]);
        } else {
            assert((a + b)[j] == b[j - a.len()]);
        }
    }
}

proof fn lemma_entry_shaped(c: Category, rs: Seq<SolicitudView>)
    requires
        all_shaped(rs, c),
    ensures
        entries_shaped(entry(c, rs)),
{
}

proof fn lemma_concat_shaped(a: Seq<SolicitudView>, b: Seq<SolicitudView>, c: Category)
    requires
        all_shaped(a, c),
        all_shaped(b, c),
    ensures
        all_shaped(a + b, c),
{
    assert forall|i: int| 0 <= i < (a + b).len() implies has_shape(#[trigger] (a + b)[i], c) by {
        if i < a.len() {
            assert((a + b)[i] == a[i]);
        } else {
            assert((a + b)[i] == b[i - a.len()]);
        }
    }
}

/// Every record exported under a category has exactly the optional fields
/// of that category present and all others absent: attachments, subjects
/// and reasons for course cancellations; attachments, period and reasons
/// for semester cancellations and minimum-load requests; attachments alone
/// for thesis registrations; reasons alone for the annotations record.
pub proof fn lemma_records_fit_their_category(p: Patterns, text: Seq<char>)
    requires
        extraction_of(p, text) is Ok,
    ensures
        forall|j: int, m: int|
            0 <= j < extraction_of(p, text)->Ok_0.solicitudes.len()
                && 0 <= m < extraction_of(p, text)->Ok_0.solicitudes[j].1.len()
                ==> has_shape(
                #[trigger] extraction_of(p, text)->Ok_0.solicitudes[j].1[m],
                extraction_of(p, text)->Ok_0.solicitudes[j].0,
            ),
{
    let (body, block) = split_annotations(text)->Some_0;
    let chunks = request_chunks(p, body);
    lemma_tally_shaped(p, chunks);
    let t = tally(p, chunks)->Ok_0;
    let annotations = if block.len() > 0 { seq![annotations_record(block)] } else { Seq::empty() };
    assert(all_shaped(annotations, Category::Annotations));
    lemma_concat_shaped(t.course, t.graduate, Category::CourseCancellation);
    lemma_entry_shaped(Category::Annotations, annotations);
    lemma_entry_shaped(Category::MinimumLoad, t.minimum_load);
    lemma_entry_shaped(Category::CourseCancellation, t.course + t.graduate);
    lemma_entry_shaped(Category::SemesterCancellation, t.semester);
    lemma_entry_shaped(Category::ThesisRegistration, t.thesis);
    let e0 = entry(Category::Annotations, annotations);
    let e1 = e0 + entry(Category::MinimumLoad, t.minimum_load);
    let e2 = e1 + entry(Category::CourseCancellation, t.course + t.graduate);
    let e3 = e2 + entry(Category::SemesterCancellation, t.semester);
    lemma_entries_concat(e0, entry(Category::MinimumLoad, t.minimum_load));
    lemma_entries_concat(e1, entry(Category::CourseCancellation, t.course + t.graduate));
    lemma_entries_concat(e2, entry(Category::SemesterCancellation, t.semester));
    lemma_entries_concat(e3, entry(Category::ThesisRegistration, t.thesis));
    let s = extraction_of(p, text)->Ok_0.solicitudes;
    assert(s == grouped(t, block));
    assert forall|j: int, m: int| 0 <= j < s.len() && 0 <= m < s[j].1.len() implies has_shape(
        #[trigger] s[j].1[m],
        s[j].0,
    ) by {
        assert(all_shaped(s[j].1, s[j].0));
    }
}

/// The request chunks of the document `text`.
pub open spec fn document_chunks(p: Patterns, text: Seq<char>) -> Seq<Seq<char>> {
    match split_annotations(text) {
        Some((body, _)) => request_chunks(p, body),
        None => Seq::empty(),
    }
}

proof fn lemma_graduate_prefix_is_exclusive(n: Seq<char>)
    requires
        has_prefix(n, GRADUATE_COURSE_PREFIX@),
    ensures
        has_prefix(n, COURSE_PREFIX@),
        !has_prefix(n, SEMESTER_PREFIX@),
        !has_prefix(n, MINIMUM_LOAD_PREFIX@),
        !has_prefix(n, THESIS_PREFIX@),
{
    reveal_strlit("CEAP");
    reveal_strlit("CEA");
    reveal_strlit("CS");
    reveal_strlit("ACM");
    reveal_strlit("RTG");
    assert(n[0] == 'C' && n[1] == 'E' && n[2] == 'A') by {
        assert(n.subrange(0, 4)[0] == n[0]);
        assert(n.subrange(0, 4)[1] == n[1]);
        assert(n.subrange(0, 4)[2] == n[2]);
    }
    assert(n.subrange(0, 3) =~= COURSE_PREFIX@);
    if has_prefix(n, SEMESTER_PREFIX@) {
        assert(n.subrange(0, 2)[1] == n[1]);
    }
    if has_prefix(n, MINIMUM_LOAD_PREFIX@) {
        assert(n.subrange(0, 3)[0] == n[0]);
    }
    if has_prefix(n, THESIS_PREFIX@) {
        assert(n.subrange(0, 3)[0] == n[0]);
    }
}

proof fn lemma_record_graduate(p: Patterns, l: Layout, g: Seq<Option<Seq<char>>>, k: RequestKind, r: SolicitudView)
    requires
        record_of(p, l, g) == Ok::<Option<(RequestKind, SolicitudView)>, Failure>(Some((k, r))),
        has_prefix(r.numero_solicitud, GRADUATE_COURSE_PREFIX@),
    ensures
        k == RequestKind::GraduateCourseCancellation,
{
    assert(r.numero_solicitud == number_text(l, g));
    assert(Some(k) == kind_for(l, number_text(l, g)));
    lemma_graduate_prefix_is_exclusive(r.numero_solicitud);
}

proof fn lemma_chunk_graduate(p: Patterns, chunk: Seq<char>, k: RequestKind, r: SolicitudView)
    requires
        chunk_outcome(p, chunk) == Ok::<OutcomeView, Failure>(OutcomeView::Record(k, r)),
        has_prefix(r.numero_solicitud, GRADUATE_COURSE_PREFIX@),
    ensures
        k == RequestKind::GraduateCourseCancellation,
{
    if let Some(g) = regex_captures_of(p.course, chunk) {
        lemma_record_graduate(p, Layout::Course, g, k, r);
    } else if let Some(g) = regex_captures_of(p.semester, chunk) {
        lemma_record_graduate(p, Layout::Semester, g, k, r);
    } else if let Some(g) = regex_captures_of(p.minimum_load, chunk) {
        lemma_record_graduate(p, Layout::MinimumLoad, g, k, r);
    } else if let Some(g) = regex_captures_of(p.thesis, chunk) {
        lemma_record_graduate(p, Layout::Thesis, g, k, r);
    }
}

proof fn lemma_tally_holds_record(p: Patterns, chunks: Seq<Seq<char>>, i: int, k: RequestKind, r: SolicitudView)
    requires
        0 <= i < chunks.len(),
        tally(p, chunks) is Ok,
        chunk_outcome(p, chunks[i]) == Ok::<OutcomeView, Failure>(OutcomeView::Record(k, r)),
    ensures
        of_kind(tally(p, chunks)->Ok_0, k).contains(r),
    decreases chunks.len(),
{
    let t0 = tally(p, chunks.drop_last())->Ok_0;
    let t = tally(p, chunks)->Ok_0;
    if i == chunks.len() - 1 {
        assert(t == file_record(t0, k, r));
        assert(of_kind(t, k) == of_kind(t0, k).push(r));
        assert(of_kind(t, k)[of_kind(t0, k).len() as int] == r);
    } else {
        assert(chunks.drop_last()[i] == chunks[i]);
        lemma_tally_holds_record(p, chunks.drop_last(), i, k, r);
        let m = choose|m: int| 0 <= m < of_kind(t0, k).len() && of_kind(t0, k)[m] == r;
        match chunk_outcome(p, chunks.last()) {
            Ok(OutcomeView::Record(k2, r2)) => {
                assert(t == file_record(t0, k2, r2));
                assert(of_kind(t, k)[m] == r);
            },
            _ => {
                assert(of_kind(t, k)[m] == r);
            },
        }
    }
}

/// A request whose number starts with CEAP is a graduate course
/// cancellation and is exported with the other course cancellations: its
/// record is among those of the course-cancellation category, and no
/// category of its own exists for it.
pub proof fn lemma_graduate_requests_merged(p: Patterns, text: Seq<char>, i: int, k: RequestKind, r: SolicitudView)
    requires
        extraction_of(p, text) is Ok,
        0 <= i < document_chunks(p, text).len(),
        chunk_outcome(p, document_chunks(p, text)[i]) == Ok::<OutcomeView, Failure>(OutcomeView::Record(k, r)),
        has_prefix(r.numero_solicitud, GRADUATE_COURSE_PREFIX@),
    ensures
        k == RequestKind::GraduateCourseCancellation,
        k.spec_category() == Category::CourseCancellation,
        exists|j: int|
            0 <= j < extraction_of(p, text)->Ok_0.solicitudes.len()
                && (#[trigger] extraction_of(p, text)->Ok_0.solicitudes[j]).0 == Category::CourseCancellation
                && extraction_of(p, text)->Ok_0.solicitudes[j].1.contains(r),
{
    let (body, block) = split_annotations(text)->Some_0;
    let chunks = request_chunks(p, body);
    lemma_chunk_graduate(p, chunks[i], k, r);
    lemma_tally_holds_record(p, chunks, i, k, r);
    let t = tally(p, chunks)->Ok_0;
    let m = choose|m: int| 0 <= m < t.graduate.len() && t.graduate[m] == r;
    let merged = t.course + t.graduate;
    assert(merged[t.course.len() + m] == r);
    let annotations = if block.len() > 0 { seq![annotations_record(block)] } else { Seq::empty() };
    let front = entry(Category::Annotations, annotations) + entry(Category::MinimumLoad, t.minimum_load);
    let s = extraction_of(p, text)->Ok_0.solicitudes;
    assert(s == grouped(t, block));
    assert(s[front.len() as int] == (Category::CourseCancellation, merged));
}

/// Two runs on the same text give the same result: both fail with the
/// same error, or both give the same categories in the same order, the
/// same records in each, and the same unhandled chunks. `first` and
/// `second` are what two calls of `read_and_extract_data` returned.
pub proof fn lemma_runs_agree(
    text: Seq<char>,
    first: Result<Extraction, ExtractError>,
    second: Result<Extraction, ExtractError>,
)
    requires
        extraction_result_view(first) == document_extraction(text),
        extraction_result_view(second) == document_extraction(text),
    ensures
        extraction_result_view(first) == extraction_result_view(second),
        first is Ok <==> second is Ok,
{
}

/// A document without the annotations separator is malformed: the run
/// ends in that error and yields no category at all.
pub proof fn lemma_missing_separator_is_fatal(p: Patterns, text: Seq<char>)
    requires
        split_annotations(text) is None,
    ensures
        extraction_of(p, text) == Err::<ExtractionView, Failure>(Failure::MissingAnnotations),
{
}

/// A record's row in the table of any category has one cell under each of
/// that table's column headers. Where the record has the fields of the
/// category, and the table has a column for each of them (all but thesis
/// registrations, whose table shows no attachment count), the row is the
/// record's present fields in order.
pub proof fn lemma_row_fits_headers(r: SolicitudView, c: Category)
    ensures
        row_for(r, c).len() == headers_of(c).len(),
        has_shape(r, c) && c != Category::ThesisRegistration ==> row_for(r, c) == present_cells_of(r),
{
    let fixed = seq![
        r.nombre_del_estudiante,
        r.plan_de_estudios,
        r.numero_solicitud,
        date_text(r.fecha_de_solicitud),
        decimal(r.identificacion as nat),
    ];
    let hfixed = seq![NAME_HEADER@, PLAN_HEADER@, NUMBER_HEADER@, DATE_HEADER@, IDENTIFICATION_HEADER@];
    assert(fixed.len() == 5);
    assert(hfixed.len() == 5);
    if has_shape(r, c) && c != Category::ThesisRegistration {
        assert(row_for(r, c) =~= present_cells_of(r));
    }
}

/// `a` sorts before `b`: compared character by character, by code point,
/// a proper prefix first. This is the order of `str`'s `Ord`.
pub open spec fn lex_less(a: Seq<char>, b: Seq<char>) -> bool
    decreases a.len(),
{
    if b.len() == 0 {
        false
    } else if a.len() == 0 {
        true
    } else if a[0] != b[0] {
        (a[0] as u32) < (b[0] as u32)
    } else {
        lex_less(a.drop_first(), b.drop_first())
    }
}

/// The categories are declared in the order of their names.
pub proof fn lemma_category_names_ordered(a: Category, b: Category)
    requires
        a.rank() < b.rank(),
    ensures
        lex_less(a.spec_name(), b.spec_name()),
{
    reveal_strlit("ANOTACIONES");
    reveal_strlit("AUTORIZACIÓN CARGA MÍNIMA");
    reveal_strlit("CANCELACIÓN EXTEMP. ASIGNATURAS");
    reveal_strlit("CANCELACIÓN SEMESTRE");
    reveal_strlit("REGISTRO TRABAJO GRADO");
    reveal_with_fuel(lex_less, 14);
}

pub open spec fn ranks_increasing(s: Seq<(Category, Seq<SolicitudView>)>) -> bool {
    forall|i: int, j: int| 0 <= i < j < s.len() ==> (#[trigger] s[i]).0.rank() < (#[trigger] s[j]).0.rank()
}

pub open spec fn ranks_within(s: Seq<(Category, Seq<SolicitudView>)>, lo: int, hi: int) -> bool {
    forall|i: int| 0 <= i < s.len() ==> lo <= (#[trigger] s[i]).0.rank() < hi
}

proof fn lemma_append_entry(a: Seq<(Category, Seq<SolicitudView>)>, c: Category, rs: Seq<SolicitudView>)
    requires
        ranks_increasing(a),
        ranks_within(a, 0, c.rank()),
    ensures
        ranks_increasing(a + entry(c, rs)),
        ranks_within(a + entry(c, rs), 0, c.rank() + 1),
{
    let b = a + entry(c, rs);
    assert forall|i: int| 0 <= i < b.len() implies 0 <= (#[trigger] b[i]).0.rank() < c.rank() + 1 by {
        if i < a.len() {
            assert(b[i] == a[i]);
        }
    }
    assert forall|i: int, j: int| 0 <= i < j < b.len() implies (#[trigger] b[i]).0.rank() < (#[trigger] b[j]).0.rank() by {
        assert(b[i] == a[i]);
        if j < a.len() {
            assert(b[j] == a[j]);
        }
    }
}

/// The categories of a run come in the order of their names, each at
/// most once.
pub proof fn lemma_categories_in_name_order(p: Patterns, text: Seq<char>)
    requires
        extraction_of(p, text) is Ok,
    ensures
        forall|i: int, j: int|
            0 <= i < j < extraction_of(p, text)->Ok_0.solicitudes.len() ==> lex_less(
                (#[trigger] extraction_of(p, text)->Ok_0.solicitudes[i]).0.spec_name(),
                (#[trigger] extraction_of(p, text)->Ok_0.solicitudes[j]).0.spec_name(),
            ),
{
    let (body, block) = split_annotations(text)->Some_0;
    let t = tally(p, request_chunks(p, body))->Ok_0;
    let annotations = if block.len() > 0 { seq![annotations_record(block)] } else { Seq::empty() };
    let e0 = entry(Category::Annotations, annotations);
    let e1 = e0 + entry(Category::MinimumLoad, t.minimum_load);
    let e2 = e1 + entry(Category::CourseCancellation, t.course + t.graduate);
    let e3 = e2 + entry(Category::SemesterCancellation, t.semester);
    lemma_append_entry(Seq::empty(), Category::Annotations, annotations);
    assert(Seq::<(Category, Seq<SolicitudView>)>::empty() + e0 == e0);
    lemma_append_entry(e0, Category::MinimumLoad, t.minimum_load);
    lemma_append_entry(e1, Category::CourseCancellation, t.course + t.graduate);
    lemma_append_entry(e2, Category::SemesterCancellation, t.semester);
    lemma_append_entry(e3, Category::ThesisRegistration, t.thesis);
    let s = extraction_of(p, text)->Ok_0.solicitudes;
    assert(s == grouped(t, block));
    assert forall|i: int, j: int| 0 <= i < j < s.len() implies lex_less(
        (#[trigger] s[i]).0.spec_name(),
        (#[trigger] s[j]).0.spec_name(),
    ) by {
        lemma_category_names_ordered(s[i].0, s[j].0);
    }
}

/// The records of kind `k` that `chunks` give, in document order.
pub open spec fn records_of_kind(p: Patterns, chunks: Seq<Seq<char>>, k: RequestKind) -> Seq<SolicitudView>
    decreases chunks.len(),
{
    if chunks.len() == 0 {
        Seq::empty()
    } else {
        let before = records_of_kind(p, chunks.drop_last(), k);
        match chunk_outcome(p, chunks.last()) {
            Ok(OutcomeView::Record(k2, r)) => if k2 == k {
                before.push(r)
            } else {
                before
            },
            _ => before,
        }
    }
}

proof fn lemma_tally_kind(p: Patterns, chunks: Seq<Seq<char>>, k: RequestKind)
    ensures
        tally(p, chunks) matches Ok(t) ==> of_kind(t, k) == records_of_kind(p, chunks, k),
    decreases chunks.len(),
{
    if chunks.len() > 0 {
        lemma_tally_kind(p, chunks.drop_last(), k);
    }
}

proof fn lemma_chunk_kind_prefix(p: Patterns, chunk: Seq<char>)
    ensures
        chunk_outcome(p, chunk) matches Ok(OutcomeView::Record(k, r)) ==> {
            &&& k == RequestKind::CourseCancellation ==> has_prefix(r.numero_solicitud, COURSE_PREFIX@)
                && !has_prefix(r.numero_solicitud, GRADUATE_COURSE_PREFIX@)
            &&& k == RequestKind::GraduateCourseCancellation ==> has_prefix(
                r.numero_solicitud,
                GRADUATE_COURSE_PREFIX@,
            )
        },
{
}

proof fn lemma_records_of_kind_prefix(p: Patterns, chunks: Seq<Seq<char>>)
    ensures
        forall|i: int| 0 <= i < records_of_kind(p, chunks, RequestKind::CourseCancellation).len() ==> {
            let n = (#[trigger] records_of_kind(p, chunks, RequestKind::CourseCancellation)[i]).numero_solicitud;
            has_prefix(n, COURSE_PREFIX@) && !has_prefix(n, GRADUATE_COURSE_PREFIX@)
        },
        forall|i: int| 0 <= i < records_of_kind(p, chunks, RequestKind::GraduateCourseCancellation).len() ==> has_prefix(
            (#[trigger] records_of_kind(p, chunks, RequestKind::GraduateCourseCancellation)[i]).numero_solicitud,
            GRADUATE_COURSE_PREFIX@,
        ),
    decreases chunks.len(),
{
    if chunks.len() > 0 {
        lemma_records_of_kind_prefix(p, chunks.drop_last());
        lemma_chunk_kind_prefix(p, chunks.last());
        let c0 = records_of_kind(p, chunks.drop_last(), RequestKind::CourseCancellation);
        let g0 = records_of_kind(p, chunks.drop_last(), RequestKind::GraduateCourseCancellation);
        let c = records_of_kind(p, chunks, RequestKind::CourseCancellation);
        let g = records_of_kind(p, chunks, RequestKind::GraduateCourseCancellation);
        assert forall|i: int| 0 <= i < c.len() implies has_prefix((#[trigger] c[i]).numero_solicitud, COURSE_PREFIX@)
            && !has_prefix(c[i].numero_solicitud, GRADUATE_COURSE_PREFIX@) by {
            if i < c0.len() {
                assert(c[i] == c0[i]);
            }
        }
        assert forall|i: int| 0 <= i < g.len() implies has_prefix((#[trigger] g[i]).numero_solicitud, GRADUATE_COURSE_PREFIX@) by {
            if i < g0.len() {
                assert(g[i] == g0[i]);
            }
        }
    }
}

/// Course cancellations form one category, with no category of their own
/// for graduate ones: its records are those of the standard requests
/// (number starting with CEA but not CEAP), in document order, followed
/// by those of the graduate requests (number starting with CEAP), in
/// document order. The category is present exactly when it has records.
pub proof fn lemma_course_category_order(p: Patterns, text: Seq<char>)
    requires
        extraction_of(p, text) is Ok,
    ensures
        ({
            let s = extraction_of(p, text)->Ok_0.solicitudes;
            let standard = records_of_kind(p, document_chunks(p, text), RequestKind::CourseCancellation);
            let graduate = records_of_kind(p, document_chunks(p, text), RequestKind::GraduateCourseCancellation);
            &&& forall|j: int| 0 <= j < s.len() && (#[trigger] s[j]).0 == Category::CourseCancellation
                ==> s[j].1 == standard + graduate
            &&& (exists|j: int| 0 <= j < s.len() && (#[trigger] s[j]).0 == Category::CourseCancellation)
                <==> (standard + graduate).len() > 0
            &&& forall|i: int| 0 <= i < standard.len() ==> has_prefix((#[trigger] standard[i]).numero_solicitud, COURSE_PREFIX@)
                && !has_prefix(standard[i].numero_solicitud, GRADUATE_COURSE_PREFIX@)
            &&& forall|i: int| 0 <= i < graduate.len() ==> has_prefix((#[trigger] graduate[i]).numero_solicitud, GRADUATE_COURSE_PREFIX@)
        }),
{
    let (body, block) = split_annotations(text)->Some_0;
    let chunks = request_chunks(p, body);
    assert(chunks == document_chunks(p, text));
    let t = tally(p, chunks)->Ok_0;
    lemma_tally_kind(p, chunks, RequestKind::CourseCancellation);
    lemma_tally_kind(p, chunks, RequestKind::GraduateCourseCancellation);
    lemma_records_of_kind_prefix(p, chunks);
    let merged = t.course + t.graduate;
    let annotations = if block.len() > 0 { seq![annotations_record(block)] } else { Seq::empty() };
    let e0 = entry(Category::Annotations, annotations);
    let front = e0 + entry(Category::MinimumLoad, t.minimum_load);
    let mid = entry(Category::CourseCancellation, merged);
    let back = entry(Category::SemesterCancellation, t.semester) + entry(Category::ThesisRegistration, t.thesis);
    lemma_append_entry(Seq::empty(), Category::Annotations, annotations);
    assert(Seq::<(Category, Seq<SolicitudView>)>::empty() + e0 == e0);
    lemma_append_entry(e0, Category::MinimumLoad, t.minimum_load);
    assert forall|i: int| 0 <= i < back.len() implies 3 <= (#[trigger] back[i]).0.rank() < 5 by {
        let b0 = entry(Category::SemesterCancellation, t.semester);
        if i < b0.len() {
            assert(back[i] == b0[i]);
        } else {
            assert(back[i] == entry(Category::ThesisRegistration, t.thesis)[i - b0.len()]);
        }
    }
    let s = extraction_of(p, text)->Ok_0.solicitudes;
    assert(s == grouped(t, block));
    assert(s =~= front + mid + back);
    assert forall|j: int| 0 <= j < s.len() && (#[trigger] s[j]).0 == Category::CourseCancellation implies s[j].1 == merged by {
        if j < front.len() {
            assert(s[j] == front[j]);
        } else if j >= front.len() + mid.len() {
            assert(s[j] == back[j - front.len() - mid.len()]);
        } else {
            assert(s[j] == mid[j - front.len()]);
        }
    }
    if merged.len() > 0 {
        assert(s[front.len() as int] == (Category::CourseCancellation, merged));
    }
    if exists|j: int| 0 <= j < s.len() && (#[trigger] s[j]).0 == Category::CourseCancellation {
        let j = choose|j: int| 0 <= j < s.len() && (#[trigger] s[j]).0 == Category::CourseCancellation;
        if j < front.len() {
            assert(s[j] == front[j]);
        } else if j >= front.len() + mid.len() {
            assert(s[j] == back[j - front.len() - mid.len()]);
        }
    }
}

/// A layout match whose identification number reads but whose date text,
/// its whitespace removed, reads in neither format is a fatal error that
/// names that date text.
pub proof fn lemma_unreadable_date_is_fatal(p: Patterns, l: Layout, g: Seq<Option<Seq<char>>>)
    requires
        identification_of(group_text(g, 2)) is Some,
        date_of(strip_ws(group_text(g, 5))) is None,
    ensures
        record_of(p, l, g) == Err::<Option<(RequestKind, SolicitudView)>, Failure>(
            Failure::InvalidDate(strip_ws(group_text(g, 5))),
        ),
{
}

proof fn lemma_tally_ok(p: Patterns, chunks: Seq<Seq<char>>)
    requires
        forall|j: int| 0 <= j < chunks.len() ==> (#[trigger] chunk_outcome(p, chunks[j])) is Ok,
    ensures
        tally(p, chunks) is Ok,
    decreases chunks.len(),
{
    if chunks.len() > 0 {
        let init = chunks.drop_last();
        assert forall|j: int| 0 <= j < init.len() implies (#[trigger] chunk_outcome(p, init[j])) is Ok by {
            assert(init[j] == chunks[j]);
        }
        lemma_tally_ok(p, init);
        assert(chunk_outcome(p, chunks[chunks.len() - 1]) is Ok);
    }
}

/// The first chunk whose reading fails stops the run: the run gives that
/// error and no categories or unhandled chunks, whatever the chunks after
/// it hold.
pub proof fn lemma_first_failure_stops_run(p: Patterns, text: Seq<char>, i: int)
    requires
        split_annotations(text) is Some,
        0 <= i < document_chunks(p, text).len(),
        chunk_outcome(p, document_chunks(p, text)[i]) is Err,
        forall|j: int| 0 <= j < i ==> (#[trigger] chunk_outcome(p, document_chunks(p, text)[j])) is Ok,
    ensures
        extraction_of(p, text) == Err::<ExtractionView, Failure>(
            chunk_outcome(p, document_chunks(p, text)[i])->Err_0,
        ),
{
    let chunks = document_chunks(p, text);
    let init = chunks.take(i);
    assert forall|j: int| 0 <= j < init.len() implies (#[trigger] chunk_outcome(p, init[j])) is Ok by {
        assert(init[j] == chunks[j]);
    }
    lemma_tally_ok(p, init);
    assert(chunks.take(i + 1).drop_last() == init);
    assert(chunks.take(i + 1).last() == chunks[i]);
    lemma_failure_persists(p, chunks, i + 1);
}

} // verus!
