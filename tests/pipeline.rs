use agenda_report::date::{format_date, parse_date, Date};
use agenda_report::aggregate::Buckets;
use agenda_report::extract::{
    classify, extract_chunk, parse_identification, record_from_groups, ChunkOutcome, ExtractError,
    Layout,
};
use agenda_report::pipeline::{extract, read_and_extract_data};
use agenda_report::segment::{chunks_from_pieces, segment, separate_annotations};
use agenda_report::patterns::Registry;
use agenda_report::record::{column_headers, Category, RequestKind, Solicitud};

const PREAMBLE: &str = "REPORTE DE AGENDA\nFacultad de Ingeniería\n";

fn course_request(number_and_date: &str, subjects: &str) -> String {
    format!(
        "1. | SOLICITUD ESTUDIANTE\nnombre del estudiante Juan Pérez\nidentificación 12 345 678\n\
         plan de estudios Ingeniería de Sistemas\nnúmero y fecha de la solicitud {}\n\
         motivos Problemas de salud\nanexar otros documentos físicos\n\
         materias relacionadas a la solicitud asignatura grp nombre {}\n",
        number_and_date, subjects
    )
}

fn semester_request(number: &str) -> String {
    format!(
        "3. | SOLICITUD ESTUDIANTE\nnombre del estudiante Luisa Díaz\nidentificación 555\n\
         plan de estudios Física\nnúmero y fecha de la solicitud {} 07/03/24\n\
         motivos Trabajo\nanexar otros documentos físicos\n\
         periodo para el que solicita cancelación de semestre 2024-1S documento anexo Documento\n",
        number
    )
}

fn thesis_request(number_and_date: &str) -> String {
    format!(
        "2. | SOLICITUD ESTUDIANTE\nnombre del estudiante Ana Gómez\nidentificación 87654321\n\
         plan de estudios Maestría en Ingeniería\nnúmero y fecha de la solicitud {}\n\
         anexar otros documentos físicos documento anexo Documento\n",
        number_and_date
    )
}

fn document(requests: &[String], annotations: &str) -> String {
    let mut text = String::from(PREAMBLE);
    for r in requests {
        text.push_str(r);
    }
    text.push_str("ID |ESPACIO PARA ANOTACIONES");
    text.push_str(annotations);
    text
}

fn category<'a>(cats: &'a [(Category, Vec<Solicitud>)], c: Category) -> Option<&'a Vec<Solicitud>> {
    cats.iter().find(|(k, _)| *k == c).map(|(_, v)| v)
}

#[test]
fn two_request_document() {
    let text = document(
        &[
            course_request("CEA-001 05/03/2024", "1000 1 Cálculo documento anexo Documento"),
            thesis_request("RTG-010 06/03/2024"),
        ],
        "",
    );
    let x = read_and_extract_data(&text).unwrap();
    assert_eq!(x.solicitudes.len(), 2);
    assert!(x.unhandled.is_empty());
    let course = category(&x.solicitudes, Category::CourseCancellation).unwrap();
    assert_eq!(course.len(), 1);
    let c = &course[0];
    assert_eq!(c.nombre_del_estudiante, "Juan Pérez");
    assert_eq!(c.plan_de_estudios, "Ingeniería de Sistemas");
    assert_eq!(c.numero_solicitud, "CEA-001");
    assert_eq!(c.fecha_de_solicitud, Date { year: 2024, month: 3, day: 5 });
    assert_eq!(c.identificacion, 12345678);
    assert_eq!(c.motivos.as_deref(), Some("Problemas de salud"));
    assert_eq!(c.adjuntos, Some(1));
    assert_eq!(c.materias.as_deref(), Some("1000 1 Cálculo"));
    assert_eq!(c.periodo, None);
    let thesis = category(&x.solicitudes, Category::ThesisRegistration).unwrap();
    assert_eq!(thesis.len(), 1);
    let t = &thesis[0];
    assert_eq!(t.numero_solicitud, "RTG-010");
    assert_eq!(t.fecha_de_solicitud, Date { year: 2024, month: 3, day: 6 });
    assert_eq!(t.identificacion, 87654321);
    assert_eq!(t.motivos, None);
    assert_eq!(t.materias, None);
    assert_eq!(t.periodo, None);
    assert_eq!(t.adjuntos, Some(1));
}

#[test]
fn missing_separator_is_fatal() {
    let text = format!("{}{}", PREAMBLE, course_request("CEA-001 05/03/2024", "Cálculo"));
    assert!(matches!(read_and_extract_data(&text), Err(ExtractError::MissingAnnotations)));
}

#[test]
fn both_date_formats_give_the_same_date() {
    let long = parse_date("05/03/2024").unwrap();
    let short = parse_date("05/03/24").unwrap();
    assert_eq!(long, short);
    assert_eq!(long, Date { year: 2024, month: 3, day: 5 });
}

#[test]
fn iso_date_is_rejected() {
    let e = parse_date("2024-03-05").unwrap_err();
    assert_eq!(e.text, "2024-03-05");
    let text = document(&[course_request("CEA-001 05/03/24", "Cálculo")], "")
        .replace("05/03/24", "2024-03-05");
    let x = read_and_extract_data(&text).unwrap();
    // No layout reads such a date, so the chunk is left unhandled.
    assert_eq!(x.unhandled.len(), 1);
    assert!(x.solicitudes.is_empty());
}

#[test]
fn unreadable_date_in_a_matched_chunk_is_fatal() {
    let text = document(&[course_request("CEA-001 31/02/2024", "Cálculo")], "");
    match read_and_extract_data(&text) {
        Err(ExtractError::InvalidDate { text }) => assert_eq!(text, "31/02/2024"),
        other => panic!("unexpected {:?}", other),
    }
}

#[test]
fn identification_with_spaces_is_read_as_one_number() {
    let text = document(&[course_request("CEA-001 05/03/2024", "Cálculo")], "");
    let x = read_and_extract_data(&text).unwrap();
    let course = category(&x.solicitudes, Category::CourseCancellation).unwrap();
    assert_eq!(course[0].identificacion, 12345678);
}

#[test]
fn identification_whitespace_is_removed() {
    assert_eq!(parse_identification("12 345 678"), Some(12345678));
    assert_eq!(parse_identification(" 7 "), Some(7));
    assert_eq!(parse_identification("+42"), Some(42));
    assert_eq!(parse_identification(""), None);
    assert_eq!(parse_identification("1-2"), None);
    assert_eq!(parse_identification("18446744073709551616"), None);
    assert_eq!(parse_identification("18446744073709551615"), Some(18446744073709551615));
}

#[test]
fn identification_too_large_is_fatal() {
    let text = document(&[course_request("CEA-001 05/03/2024", "Cálculo")], "")
        .replace("12 345 678", "99999999999 999999999999");
    match read_and_extract_data(&text) {
        Err(ExtractError::InvalidIdentification { text }) => {
            assert_eq!(text, "99999999999999999999999")
        }
        other => panic!("unexpected {:?}", other),
    }
}

#[test]
fn three_attachment_markers_are_counted_and_removed() {
    let subjects = "1000 1 Cálculo documento anexo Documento documento anexo Documento\n\
                    2000 2 Física documento anexo Documento";
    let text = document(&[course_request("CEA-002 05/03/2024", subjects)], "");
    let x = read_and_extract_data(&text).unwrap();
    let course = category(&x.solicitudes, Category::CourseCancellation).unwrap();
    assert_eq!(course[0].adjuntos, Some(3));
    let m = course[0].materias.as_deref().unwrap();
    assert!(!m.contains("documento anexo"));
    assert_eq!(m, "1000 1 Cálculo2000 2 Física");
}

#[test]
fn graduate_course_cancellations_join_the_course_category() {
    let text = document(
        &[
            course_request("CEAP-7 05/03/2024", "Cálculo"),
            course_request("CEA-8 05/03/2024", "Física"),
        ],
        "",
    );
    let x = read_and_extract_data(&text).unwrap();
    assert_eq!(x.solicitudes.len(), 1);
    let course = category(&x.solicitudes, Category::CourseCancellation).unwrap();
    assert_eq!(course.len(), 2);
    assert_eq!(course[0].numero_solicitud, "CEA-8");
    assert_eq!(course[1].numero_solicitud, "CEAP-7");
}

#[test]
fn semester_request_carries_period() {
    let text = document(&[semester_request("CS-5")], "");
    let x = read_and_extract_data(&text).unwrap();
    let s = category(&x.solicitudes, Category::SemesterCancellation).unwrap();
    assert_eq!(s[0].periodo.as_deref(), Some("2024-1S"));
    assert_eq!(s[0].adjuntos, Some(1));
    assert_eq!(s[0].materias, None);
    assert_eq!(s[0].motivos.as_deref(), Some("Trabajo"));
    assert_eq!(s[0].fecha_de_solicitud, Date { year: 2024, month: 3, day: 7 });
}

#[test]
fn minimum_load_through_the_semester_layout() {
    let text = document(&[semester_request("ACM-9")], "");
    let x = read_and_extract_data(&text).unwrap();
    assert_eq!(x.solicitudes.len(), 1);
    let s = category(&x.solicitudes, Category::MinimumLoad).unwrap();
    assert_eq!(s[0].numero_solicitud, "ACM-9");
    assert_eq!(s[0].periodo.as_deref(), Some("2024-1S"));
}

#[test]
fn prefix_mismatch_is_dropped_silently() {
    let text = document(&[semester_request("XX-1")], "");
    let x = read_and_extract_data(&text).unwrap();
    assert!(x.solicitudes.is_empty());
    assert!(x.unhandled.is_empty());
}

#[test]
fn unmatched_chunk_is_reported() {
    let odd = "4. | SOLICITUD ESTUDIANTE\nsin formato conocido\n".to_string();
    let text = document(&[odd, thesis_request("RTG-1 01/02/2023")], "");
    let x = read_and_extract_data(&text).unwrap();
    assert_eq!(x.unhandled, vec!["sin formato conocido\n".to_string()]);
    assert_eq!(x.solicitudes.len(), 1);
}

#[test]
fn annotations_become_their_own_category_first() {
    let text = document(&[thesis_request("RTG-1 01/02/2023")], "\nRevisar casos pendientes\n");
    let x = read_and_extract_data(&text).unwrap();
    assert_eq!(x.solicitudes.len(), 2);
    assert_eq!(x.solicitudes[0].0, Category::Annotations);
    let a = &x.solicitudes[0].1[0];
    assert_eq!(a.motivos.as_deref(), Some("\nRevisar casos pendientes\n"));
    assert_eq!(a.nombre_del_estudiante, "");
    assert_eq!(a.identificacion, 0);
    assert_eq!(a.adjuntos, None);
    assert_eq!(x.solicitudes[1].0, Category::ThesisRegistration);
}

#[test]
fn categories_come_in_name_order() {
    let text = document(
        &[
            thesis_request("RTG-1 01/02/2023"),
            semester_request("CS-2"),
            course_request("CEA-3 05/03/2024", "Cálculo"),
            semester_request("ACM-4"),
        ],
        "notas",
    );
    let x = read_and_extract_data(&text).unwrap();
    let names: Vec<&str> = x.solicitudes.iter().map(|(c, _)| c.name()).collect();
    let mut sorted = names.clone();
    sorted.sort();
    assert_eq!(names, sorted);
    assert_eq!(names.len(), 5);
}

#[test]
fn rerun_gives_identical_output() {
    let text = document(
        &[
            course_request("CEA-3 05/03/2024", "Cálculo documento anexo Documento"),
            "9. | SOLICITUD ESTUDIANTE\nbasura\n".to_string(),
        ],
        "x",
    );
    let a = read_and_extract_data(&text).unwrap();
    let b = read_and_extract_data(&text).unwrap();
    assert_eq!(format!("{:?}", a), format!("{:?}", b));
}

#[test]
fn sections_and_preamble_are_cut_away() {
    let reg = Registry::new().unwrap();
    let body = format!(
        "{}{}ID   |DATOS DEL ESTUDIANTE\n\nID   |SOLICITUDES ÚNICAS\n{}",
        PREAMBLE,
        thesis_request("RTG-1 01/02/2023"),
        thesis_request("RTG-2 01/02/2023")
    );
    let chunks = segment(&reg, &body);
    assert_eq!(chunks.len(), 2);
    assert!(chunks[0].starts_with("nombre del estudiante Ana Gómez"));
    assert!(chunks[1].contains("RTG-2"));
}

#[test]
fn annotations_block_stops_at_a_second_separator() {
    let (body, block) = separate_annotations("abc ID |ESPACIO PARA ANOTACIONESxyz ID |ESPACIO PARA ANOTACIONES tail").unwrap();
    assert_eq!(body, "abc ");
    assert_eq!(block, "xyz ");
    assert!(separate_annotations("no separator").is_none());
}

#[test]
fn classification_by_prefix() {
    assert_eq!(classify(Layout::Course, "CEAP-1"), Some(RequestKind::GraduateCourseCancellation));
    assert_eq!(classify(Layout::Course, "CEA-1"), Some(RequestKind::CourseCancellation));
    assert_eq!(classify(Layout::Course, "CS-1"), None);
    assert_eq!(classify(Layout::Semester, "CS-1"), Some(RequestKind::SemesterCancellation));
    assert_eq!(classify(Layout::Semester, "ACM-1"), Some(RequestKind::MinimumLoad));
    assert_eq!(classify(Layout::MinimumLoad, "CS-1"), None);
    assert_eq!(classify(Layout::Thesis, "RTG-1"), Some(RequestKind::ThesisRegistration));
    assert_eq!(classify(Layout::Thesis, "RT"), None);
}

#[test]
fn record_from_groups_reads_each_field() {
    let reg = Registry::new().unwrap();
    let g = |s: &str| Some(s.to_string());
    let groups = vec![
        g("whole"),
        g("  Ana  "),
        g("1 2 3"),
        g(" Plan "),
        g("C S - 4"),
        g("0 7/03/2024"),
        g(" motivo "),
        g("anexos"),
        g(" documento anexo Documento 2024-2S "),
    ];
    let (k, s) = record_from_groups(&reg, Layout::Semester, &groups).unwrap().unwrap();
    assert_eq!(k, RequestKind::SemesterCancellation);
    assert_eq!(s.nombre_del_estudiante, "Ana");
    assert_eq!(s.identificacion, 123);
    assert_eq!(s.numero_solicitud, "CS-4");
    assert_eq!(s.fecha_de_solicitud, Date { year: 2024, month: 3, day: 7 });
    assert_eq!(s.periodo.as_deref(), Some("2024-2S"));
    assert_eq!(s.adjuntos, Some(1));
    assert_eq!(s.motivos.as_deref(), Some("motivo"));
}

#[test]
fn record_from_groups_rejects_a_bad_identification() {
    let reg = Registry::new().unwrap();
    let groups = vec![None, None, Some("12a".to_string())];
    match record_from_groups(&reg, Layout::Course, &groups) {
        Err(ExtractError::InvalidIdentification { text }) => assert_eq!(text, "12a"),
        other => panic!("unexpected {:?}", other),
    }
}

#[test]
fn chunk_without_layout_is_unhandled() {
    let reg = Registry::new().unwrap();
    assert!(matches!(extract_chunk(&reg, "nada"), Ok(ChunkOutcome::Unhandled)));
}

#[test]
fn extract_with_explicit_registry() {
    let reg = Registry::new().unwrap();
    let text = document(&[thesis_request("RTG-1 01/02/2023")], "");
    let x = extract(&reg, &text).unwrap();
    assert_eq!(x.solicitudes[0].0, Category::ThesisRegistration);
}

#[test]
fn row_follows_the_headers() {
    let text = document(&[course_request("CEA-001 05/03/2024", "Cálculo documento anexo Documento")], "");
    let x = read_and_extract_data(&text).unwrap();
    let (cat, recs) = &x.solicitudes[0];
    let headers = column_headers(*cat);
    let row = recs[0].row(*cat);
    assert_eq!(headers.len(), row.len());
    assert_eq!(
        row,
        vec!["Juan Pérez", "Ingeniería de Sistemas", "CEA-001", "05/03/2024", "12345678", "1", "Cálculo", "Problemas de salud"]
    );
    let mut it = recs[0].iter();
    let mut walked = Vec::new();
    while let Some(cell) = it.next() {
        walked.push(cell);
    }
    assert_eq!(walked, recs[0].present_cells());
    assert_eq!(walked, row);
}

#[test]
fn headers_per_category() {
    assert_eq!(
        column_headers(Category::CourseCancellation),
        vec!["Nombre del estudiante", "Plan de estudios", "Número de solicitud", "Fecha de solicitud", "Identificación", "Adjuntos", "Materias", "Motivos"]
    );
    assert_eq!(column_headers(Category::MinimumLoad)[6], "Periodo");
    assert_eq!(column_headers(Category::ThesisRegistration).len(), 5);
    assert_eq!(column_headers(Category::Annotations).len(), 6);
}

#[test]
fn dates_are_written_day_month_year() {
    assert_eq!(format_date(&Date { year: 2024, month: 3, day: 5 }), "05/03/2024");
    assert_eq!(format_date(&Date { year: 987, month: 12, day: 31 }), "31/12/0987");
    assert_eq!(format_date(&Date { year: 12345, month: 1, day: 1 }), "01/01/+12345");
    assert_eq!(format_date(&Date { year: -5, month: 1, day: 1 }), "01/01/-0005");
}

#[test]
fn preamble_and_empty_pieces_are_dropped() {
    let pieces: Vec<String> = vec!["preámbulo".into(), "".into(), "a".into(), "".into(), "b".into()];
    assert_eq!(chunks_from_pieces(&pieces), vec!["a".to_string(), "b".to_string()]);
    assert!(chunks_from_pieces(&Vec::new()).is_empty());
    assert!(chunks_from_pieces(&vec!["solo".to_string()]).is_empty());
}

fn bare_record(number: &str) -> Solicitud {
    Solicitud {
        nombre_del_estudiante: "N".into(),
        plan_de_estudios: "P".into(),
        numero_solicitud: number.into(),
        fecha_de_solicitud: Date { year: 2024, month: 1, day: 2 },
        identificacion: 1,
        motivos: Some("m".into()),
        adjuntos: Some(0),
        materias: Some("x".into()),
        periodo: None,
    }
}

#[test]
fn buckets_group_graduate_after_standard() {
    let mut b = Buckets::new();
    b.file(RequestKind::GraduateCourseCancellation, bare_record("CEAP-1"));
    b.file(RequestKind::CourseCancellation, bare_record("CEA-2"));
    b.leave_unhandled("raro".to_string());
    let x = b.into_extraction(String::new());
    assert_eq!(x.solicitudes.len(), 1);
    assert_eq!(x.solicitudes[0].0, Category::CourseCancellation);
    let numbers: Vec<&str> = x.solicitudes[0].1.iter().map(|s| s.numero_solicitud.as_str()).collect();
    assert_eq!(numbers, vec!["CEA-2", "CEAP-1"]);
    assert_eq!(x.unhandled, vec!["raro".to_string()]);
}

#[test]
fn empty_buckets_with_annotations_only() {
    let x = Buckets::new().into_extraction("nota".to_string());
    assert_eq!(x.solicitudes.len(), 1);
    assert_eq!(x.solicitudes[0].0, Category::Annotations);
    assert_eq!(x.solicitudes[0].1[0].row(Category::Annotations), vec!["", "", "", "01/01/1970", "0", "nota"]);
    assert!(Buckets::new().into_extraction(String::new()).solicitudes.is_empty());
}

#[test]
fn thesis_row_follows_its_headers() {
    let text = document(&[thesis_request("RTG-010 06/03/2024")], "");
    let x = read_and_extract_data(&text).unwrap();
    let (cat, recs) = &x.solicitudes[0];
    assert_eq!(*cat, Category::ThesisRegistration);
    let row = recs[0].row(*cat);
    assert_eq!(row.len(), column_headers(*cat).len());
    assert_eq!(row, vec!["Ana Gómez", "Maestría en Ingeniería", "RTG-010", "06/03/2024", "87654321"]);
    // The record itself still carries its attachment count.
    assert_eq!(recs[0].present_cells().len(), 6);
}

#[test]
fn row_of_a_record_missing_a_field_keeps_the_columns() {
    let mut r = bare_record("CS-1");
    r.materias = None;
    let row = r.row(Category::SemesterCancellation);
    assert_eq!(row.len(), column_headers(Category::SemesterCancellation).len());
    assert_eq!(row[6], "");
    assert_eq!(row[5], "0");
}

#[test]
fn scenario_course_and_thesis_requests() {
    let text = document(
        &[
            course_request("CEA-001 05/03/2024", "documento anexo Documento MAT"),
            thesis_request("RTG-010 06/03/2024"),
        ],
        "",
    );
    let x = read_and_extract_data(&text).unwrap();
    assert!(x.unhandled.is_empty());
    assert_eq!(x.solicitudes.len(), 2);
    let course = category(&x.solicitudes, Category::CourseCancellation).unwrap();
    assert_eq!(course.len(), 1);
    assert_eq!(course[0].numero_solicitud, "CEA-001");
    assert_eq!(course[0].adjuntos, Some(1));
    assert_eq!(course[0].materias.as_deref(), Some("MAT"));
    let thesis = category(&x.solicitudes, Category::ThesisRegistration).unwrap();
    assert_eq!(thesis.len(), 1);
    assert_eq!(thesis[0].fecha_de_solicitud, Date { year: 2024, month: 3, day: 6 });
    assert!(thesis[0].motivos.is_none());
    assert!(thesis[0].materias.is_none());
    assert!(thesis[0].periodo.is_none());
}

#[test]
fn unreadable_date_stops_the_run_even_after_valid_chunks() {
    let text = document(
        &[
            thesis_request("RTG-1 01/02/2023"),
            course_request("CEA-001 31/02/2024", "Cálculo"),
            thesis_request("RTG-2 01/02/2023"),
        ],
        "notas",
    );
    match read_and_extract_data(&text) {
        Err(ExtractError::InvalidDate { text }) => assert_eq!(text, "31/02/2024"),
        other => panic!("unexpected {:?}", other),
    }
}

#[test]
fn long_and_short_years_agree_this_century() {
    for yy in 0..=68 {
        for mo in 1..=12u32 {
            for d in [1u32, 15, 28, 29, 30, 31] {
                let valid = chrono::NaiveDate::from_ymd_opt(2000 + yy, mo, d).is_some();
                let long = parse_date(&format!("{:02}/{:02}/{:04}", d, mo, 2000 + yy));
                let short = parse_date(&format!("{:02}/{:02}/{:02}", d, mo, yy));
                if valid {
                    let expected = Date { year: 2000 + yy, month: mo, day: d };
                    assert_eq!(long.unwrap(), expected);
                    assert_eq!(short.unwrap(), expected);
                } else {
                    assert!(long.is_err());
                    assert!(short.is_err());
                }
            }
        }
    }
}

#[test]
fn registry_compiles() {
    assert!(Registry::new().is_ok());
}
