//! Cutting a document into request chunks: the annotations block is split
//! off at its separator, the rest is split at the section bands and then at
//! each request-start marker.

use vstd::prelude::*;
use crate::patterns::{ANNOTATIONS_SEPARATOR, Patterns, Registry, regex_split_of, split};
use crate::text::{chars_of, find_from, find_literal, lemma_find_from_bounds, string_of};

verus! {

/// The text before the first annotations separator and the annotations
/// block after it (up to a second separator, if any); `None` where the
/// separator is absent.
pub open spec fn split_annotations(t: Seq<char>) -> Option<(Seq<char>, Seq<char>)> {
    let sep = ANNOTATIONS_SEPARATOR@;
    match find_from(t, sep, 0) {
        None => None,
        Some(i) => {
            let rest = t.subrange(i + sep.len(), t.len() as int);
            let block = match find_from(rest, sep, 0) {
                Some(j) => rest.subrange(0, j),
                None => rest,
            };
            Some((t.subrange(0, i), block))
        },
    }
}

/// Cuts the document at the annotations separator.
pub fn separate_annotations(text: &str) -> (r: Option<(String, String)>)
    ensures
        match r {
            Some((body, block)) => split_annotations(text@) == Some((body@, block@)),
            None => split_annotations(text@) is None,
        },
{
    let cs = chars_of(text);
    let sep = chars_of(ANNOTATIONS_SEPARATOR);
    match find_literal(&cs, &sep) {
        None => None,
        Some(i) => {
            let ghost t = text@;
            assert(i + sep.len() <= cs.len()) by {
                lemma_find_from_bounds(t, sep@, 0);
            }
            let body = string_of(vstd::slice::slice_subrange(cs.as_slice(), 0, i));
            let rest = vstd::slice::slice_to_vec(
                vstd::slice::slice_subrange(cs.as_slice(), i + sep.len(), cs.len()),
            );
            let block = match find_literal(&rest, &sep) {
                Some(j) => {
                    proof {
                        lemma_find_from_bounds(rest@, sep@, 0);
                    }
                    string_of(vstd::slice::slice_subrange(rest.as_slice(), 0, j))
                },
                None => string_of(rest.as_slice()),
            };
            Some((body, block))
        },
    }
}

/// The pieces of all `sections`, each split at the request-start marker,
/// in order.
pub open spec fn split_all(pat: Seq<char>, sections: Seq<Seq<char>>) -> Seq<Seq<char>>
    decreases sections.len(),
{
    if sections.len() == 0 {
        Seq::empty()
    } else {
        split_all(pat, sections.drop_last()) + regex_split_of(pat, sections.last())
    }
}

/// The non-empty texts of `s`, in order.
pub open spec fn non_empty(s: Seq<Seq<char>>) -> Seq<Seq<char>>
    decreases s.len(),
{
    if s.len() == 0 {
        Seq::empty()
    } else if s.last().len() == 0 {
        non_empty(s.drop_last())
    } else {
        non_empty(s.drop_last()).push(s.last())
    }
}

/// The request chunks of the document body: split at the section bands,
/// then at the request-start marker, the preamble piece dropped and empty
/// pieces left out.
pub open spec fn request_chunks(p: Patterns, body: Seq<char>) -> Seq<Seq<char>> {
    chunks_of_pieces(split_all(p.request_start, regex_split_of(p.sections, body)))
}

/// Cuts the document body into request chunks, in document order.
pub fn segment(reg: &Registry, body: &str) -> (r: Vec<String>)
    ensures
        r.deep_view() == request_chunks(reg@, body@),
{
    let sections = split(reg.sections(), body);
    let mut pieces: Vec<String> = Vec::new();
    let mut i: usize = 0;
    while i < sections.len()
        invariant
            i <= sections.len(),
            sections.deep_view() == regex_split_of(reg@.sections, body@),
            pieces.deep_view() == split_all(reg@.request_start, sections.deep_view().take(i as int)),
        decreases sections.len() - i,
    {
        let ghost before = pieces.deep_view();
        let mut m = split(reg.request_start(), sections[i].as_str());
        let ghost added = m.deep_view();
        pieces.append(&mut m);
        assert(sections.deep_view().take(i + 1).drop_last() == sections.deep_view().take(i as int));
        assert(pieces.deep_view() == before + added);
        i = i + 1;
    }
    assert(sections.deep_view().take(i as int) == sections.deep_view());
    chunks_from_pieces(&pieces)
}

/// The chunks that the pieces of the split document give: the first
/// piece, the preamble, dropped and empty pieces left out.
pub open spec fn chunks_of_pieces(pieces: Seq<Seq<char>>) -> Seq<Seq<char>> {
    if pieces.len() == 0 {
        Seq::empty()
    } else {
        non_empty(pieces.drop_first())
    }
}

/// Drops the preamble piece and the empty pieces, keeping the order.
pub fn chunks_from_pieces(pieces: &Vec<String>) -> (r: Vec<String>)
    ensures
        r.deep_view() == chunks_of_pieces(pieces.deep_view()),
{
    let mut out: Vec<String> = Vec::new();
    if pieces.len() == 0 {
        return out;
    }
    let mut j: usize = 1;
    while j < pieces.len()
        invariant
            1 <= j <= pieces.len(),
            out.deep_view() == non_empty(pieces.deep_view().subrange(1, j as int)),
        decreases pieces.len() - j,
    {
        assert(pieces.deep_view().subrange(1, j + 1).drop_last() == pieces.deep_view().subrange(1, j as int));
        if !pieces[j].as_str().is_empty() {
            out.push(pieces[j].clone());
        }
        j = j + 1;
    }
    assert(pieces.deep_view().subrange(1, j as int) == pieces.deep_view().drop_first());
    out
}

} // verus!
