//! The whole run on one document: segmentation, extraction of every
//! chunk in document order, grouping of the records.

use vstd::prelude::*;
use crate::aggregate::{Buckets, Extraction, ExtractionView, Tally, empty_tally, file_record, grouped};
use crate::extract::{ChunkOutcome, ExtractError, Failure, OutcomeView, chunk_outcome, extract_chunk};
use crate::patterns::{Patterns, Registry, all_compile, standard_patterns};
use crate::segment::{request_chunks, segment, separate_annotations, split_annotations};

verus! {

/// The outcome of reading `chunks` in order: the first fatal error, or
/// what they all yield.
pub open spec fn tally(p: Patterns, chunks: Seq<Seq<char>>) -> Result<Tally, Failure>
    decreases chunks.len(),
{
    if chunks.len() == 0 {
        Ok(empty_tally())
    } else {
        match tally(p, chunks.drop_last()) {
            Err(e) => Err(e),
            Ok(t) => match chunk_outcome(p, chunks.last()) {
                Err(e) => Err(e),
                Ok(OutcomeView::Record(k, r)) => Ok(file_record(t, k, r)),
                Ok(OutcomeView::Dropped) => Ok(t),
                Ok(OutcomeView::Unhandled) => Ok(Tally { unhandled: t.unhandled.push(chunks.last()), ..t }),
            },
        }
    }
}

pub(crate) proof fn lemma_failure_persists(p: Patterns, chunks: Seq<Seq<char>>, k: int)
    requires
        0 <= k <= chunks.len(),
        tally(p, chunks.take(k)) is Err,
    ensures
        tally(p, chunks) == tally(p, chunks.take(k)),
    decreases chunks.len() - k,
{
    if k < chunks.len() {
        assert(chunks.take(k + 1).drop_last() == chunks.take(k));
        lemma_failure_persists(p, chunks, k + 1);
    } else {
        assert(chunks.take(k) == chunks);
    }
}

/// What the pipeline gives for the document `text`.
pub open spec fn extraction_of(p: Patterns, text: Seq<char>) -> Result<ExtractionView, Failure> {
    match split_annotations(text) {
        None => Err(Failure::MissingAnnotations),
        Some((body, block)) => match tally(p, request_chunks(p, body)) {
            Err(e) => Err(e),
            Ok(t) => Ok(ExtractionView { solicitudes: grouped(t, block), unhandled: t.unhandled }),
        },
    }
}

pub open spec fn extraction_result_view(r: Result<Extraction, ExtractError>) -> Result<ExtractionView, Failure> {
    match r {
        Ok(x) => Ok(x@),
        Err(e) => Err(e@),
    }
}

/// Runs the pipeline on the document `text` with the patterns of `reg`.
pub fn extract(reg: &Registry, text: &str) -> (r: Result<Extraction, ExtractError>)
    ensures
        extraction_result_view(r) == extraction_of(reg@, text@),
{
    let (body, block) = match separate_annotations(text) {
        Some(parts) => parts,
        None => {
            return Err(ExtractError::MissingAnnotations);
        },
    };
    let chunks = segment(reg, body.as_str());
    let ghost cv = chunks.deep_view();
    let mut buckets = Buckets::new();
    let mut i: usize = 0;
    assert(cv.take(0) == Seq::<Seq<char>>::empty());
    while i < chunks.len()
        invariant
            i <= chunks.len(),
            cv == chunks.deep_view(),
            cv == request_chunks(reg@, body@),
            split_annotations(text@) == Some((body@, block@)),
            tally(reg@, cv.take(i as int)) == Ok::<Tally, Failure>(buckets@),
        decreases chunks.len() - i,
    {
        assert(cv.take(i + 1).drop_last() == cv.take(i as int));
        assert(cv.take(i + 1).last() == cv[i as int]);
        assert(chunks@[i as int]@ == cv[i as int]);
        match extract_chunk(reg, chunks[i].as_str()) {
            Err(e) => {
                assert(tally(reg@, cv.take(i + 1)) == Err::<Tally, Failure>(e@));
                proof {
                    lemma_failure_persists(reg@, cv, i + 1);
                }
                return Err(e);
            },
            Ok(ChunkOutcome::Record(k, s)) => buckets.file(k, s),
            Ok(ChunkOutcome::Dropped) => {},
            Ok(ChunkOutcome::Unhandled) => buckets.leave_unhandled(chunks[i].clone()),
        }
        i = i + 1;
    }
    assert(cv.take(i as int) == cv);
    Ok(buckets.into_extraction(block))
}

/// What a run with the patterns of the standard report layout gives for
/// the document `text`: `InvalidPattern` exactly where one of those
/// patterns does not compile.
pub open spec fn document_extraction(text: Seq<char>) -> Result<ExtractionView, Failure> {
    if all_compile(standard_patterns()) {
        extraction_of(standard_patterns(), text)
    } else {
        Err(Failure::InvalidPattern)
    }
}

/// Runs the pipeline on the document `pdf_contents` with the patterns of
/// the standard report layout. A document without the annotations
/// separator is rejected.
pub fn read_and_extract_data(pdf_contents: &str) -> (r: Result<Extraction, ExtractError>)
    ensures
        extraction_result_view(r) == document_extraction(pdf_contents@),
        split_annotations(pdf_contents@) is None ==> r is Err,
{
    match Registry::new() {
        Ok(reg) => extract(&reg, pdf_contents),
        Err(_) => Err(ExtractError::InvalidPattern),
    }
}

} // verus!
