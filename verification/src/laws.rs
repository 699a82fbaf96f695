//! What holds of every layout, every blob and every registry.

use vstd::prelude::*;
use std::sync::Arc;
use crate::builder::{
    built_with, excluded, expected_image, has_image, image_after, image_bytes,
    lemma_recorded_within_required, lemma_required_range, lemma_round_up, required_after,
    required_size, round_up, ImageError,
};
use crate::layout::{ModuleLayout, MAX_MEMFD_IMAGE_SIZE};
use crate::registry::{after_claim, claimed};

verus! {

/// An image has the length it was asked to have, whatever is written into it.
pub proof fn lemma_image_length(layout: &ModuleLayout, blob: Seq<u8>, d: int, len: int, n: int)
    requires
        len >= 0,
    ensures
        image_after(layout, blob, d, len, n).len() == len,
    decreases n,
{
    if n > 0 {
        lemma_image_length(layout, blob, d, len, n - 1);
    }
}

/// A byte that initializer `i` writes stands in the image after the first
/// `n` initializers, unless one of them that comes after `i` writes to the
/// same offset.
pub proof fn lemma_written_byte_stays(
    layout: &ModuleLayout,
    blob: Seq<u8>,
    d: int,
    len: int,
    n: int,
    i: int,
    j: int,
)
    requires
        layout.wf(),
        layout.data_within(blob.len() as int),
        0 <= i < n <= layout.entry_count(d),
        layout.records(d, i),
        0 <= j < layout.entry(d, i).len(),
        layout.entry(d, i).offset + j < len,
        forall|k: int|
            i < k < n && #[trigger] layout.records(d, k) ==> !layout.entry(d, k).covers(
                layout.entry(d, i).offset + j,
            ),
    ensures
        image_after(layout, blob, d, len, n)[layout.entry(d, i).offset + j] == blob[layout.entry(
            d,
            i,
        ).data_start + j],
    decreases n,
{
    lemma_image_length(layout, blob, d, len, n - 1);
    if i < n - 1 {
        lemma_written_byte_stays(layout, blob, d, len, n - 1, i, j);
        if layout.records(d, n - 1) {
            assert(!layout.entry(d, n - 1).covers(layout.entry(d, i).offset + j));
        }
    }
}

/// Round trip: a byte that the builder writes into an image is read back
/// from the same offset, unless a later initializer wrote over it. Where no
/// two initializers overlap, that is every byte of every initializer.
pub proof fn lemma_written_bytes_read_back(
    layout: &ModuleLayout,
    blob: Seq<u8>,
    d: int,
    len: int,
    i: int,
    j: int,
)
    requires
        layout.wf(),
        layout.data_within(blob.len() as int),
        required_size(layout, d) <= len,
        0 <= i < layout.entry_count(d),
        layout.records(d, i),
        0 <= j < layout.entry(d, i).len(),
        forall|k: int|
            i < k < layout.entry_count(d) && #[trigger] layout.records(d, k) ==> !layout.entry(
                d,
                k,
            ).covers(layout.entry(d, i).offset + j),
    ensures
        layout.entry(d, i).offset + j < len,
        image_bytes(layout, blob, d, len)[layout.entry(d, i).offset + j] == blob[layout.entry(
            d,
            i,
        ).data_start + j],
{
    lemma_recorded_within_required(layout, d, layout.entry_count(d), i);
    lemma_written_byte_stays(layout, blob, d, len, layout.entry_count(d), i, j);
}

/// A byte of the image that no recorded initializer writes to is zero.
pub proof fn lemma_unwritten_bytes_are_zero(
    layout: &ModuleLayout,
    blob: Seq<u8>,
    d: int,
    len: int,
    n: int,
    k: int,
)
    requires
        layout.wf(),
        layout.data_within(blob.len() as int),
        n <= layout.entry_count(d),
        0 <= k < len,
        forall|i: int| 0 <= i < n && #[trigger] layout.records(d, i) ==> !layout.entry(d, i).covers(k),
    ensures
        image_after(layout, blob, d, len, n)[k] == 0,
    decreases n,
{
    if n > 0 {
        lemma_image_length(layout, blob, d, len, n - 1);
        lemma_unwritten_bytes_are_zero(layout, blob, d, len, n - 1, k);
        if layout.records(d, n - 1) {
            assert(!layout.entry(d, n - 1).covers(k));
        }
    }
}

/// The required size is the end of some recorded initializer, or zero.
pub proof fn lemma_required_is_attained(layout: &ModuleLayout, d: int, n: int)
    ensures
        required_after(layout, d, n) == 0 || exists|i: int|
            0 <= i < n && #[trigger] layout.records(d, i) && layout.entry(d, i).top()
                == required_after(layout, d, n),
    decreases n,
{
    if n > 0 {
        lemma_required_is_attained(layout, d, n - 1);
    }
}

/// An image is never empty: its length is a multiple of the page size, at
/// least the required size, less than a page more, and not zero.
pub proof fn lemma_image_spans_whole_pages(layout: &ModuleLayout, blob: Seq<u8>, page: int, d: int)
    requires
        layout.wf(),
        page > 0,
        has_image(layout, d),
    ensures
        expected_image(layout, blob, page, d) matches Some(image) && image.len() > 0
            && (image.len() as int) % page == 0 && required_size(layout, d) <= image.len() < required_size(
            layout,
            d,
        ) + page,
{
    lemma_required_range(layout, d, layout.entry_count(d));
    lemma_round_up(required_size(layout, d), page);
    lemma_image_length(
        layout,
        blob,
        d,
        round_up(required_size(layout, d), page),
        layout.entry_count(d),
    );
}

/// Whatever the host's page size, a build that succeeds gives one slot for
/// each defined memory and an image for exactly the memories that have one;
/// each image is whole pages long, holds every recorded initializer, and its
/// bytes are those that its length determines.
pub proof fn lemma_built_set_shape(
    layout: &ModuleLayout,
    blob: Seq<u8>,
    page: int,
    set: Seq<Option<Seq<u8>>>,
    d: int,
)
    requires
        layout.wf(),
        built_with(layout, blob, page, Ok(set)),
        0 <= d < layout.defined_memories(),
    ensures
        set.len() == layout.defined_memories(),
        set[d].is_some() == has_image(layout, d),
        set[d] matches Some(image) ==> page > 0 && (image.len() as int) % page == 0 && image.len()
            >= required_size(layout, d) > 0 && image == image_bytes(
            layout,
            blob,
            d,
            image.len() as int,
        ),
{
    if has_image(layout, d) {
        lemma_image_spans_whole_pages(layout, blob, page, d);
        lemma_image_length(
            layout,
            blob,
            d,
            round_up(required_size(layout, d), page),
            layout.entry_count(d),
        );
    }
}

/// A memory that no initializer targets gets no image, on any host.
pub proof fn lemma_untargeted_memory_has_no_image(
    layout: &ModuleLayout,
    blob: Seq<u8>,
    page: int,
    d: int,
)
    requires
        forall|i: int| 0 <= i < layout.entry_count(d) ==> !(#[trigger] layout.entry(d, i)).targets,
    ensures
        !has_image(layout, d),
        expected_image(layout, blob, page, d).is_none(),
{
    lemma_required_is_attained(layout, d, layout.entry_count(d));
    if required_size(layout, d) != 0 {
        let i = choose|i: int|
            0 <= i < layout.entry_count(d) && #[trigger] layout.records(d, i) && layout.entry(
                d,
                i,
            ).top() == required_size(layout, d);
        assert(layout.entry(d, i).targets);
    }
}

/// The minimum size of a memory is an inclusive limit for its segments: one
/// that ends exactly there is recorded, one that ends a byte later rules the
/// memory out.
pub proof fn lemma_minimum_size_is_inclusive(layout: &ModuleLayout, d: int, i: int)
    requires
        layout.initialization is Segmented,
        0 <= i < layout.entry_count(d),
        layout.entry(d, i).targets,
        !layout.entry(d, i).dynamic,
    ensures
        layout.entry(d, i).top() == layout.minimum_bytes(d) && layout.minimum_bytes(d)
            <= MAX_MEMFD_IMAGE_SIZE ==> layout.records(d, i),
        layout.entry(d, i).top() == layout.minimum_bytes(d) + 1 ==> layout.rejects(d, i)
            && excluded(layout, d) && !has_image(layout, d),
{
}

/// The hard cap is an inclusive limit: an initializer that ends exactly at
/// the cap is recorded where the memory's minimum size allows it, and makes
/// for an image of exactly that size unless another initializer rules the
/// memory out; one that ends a byte later rules the memory out.
pub proof fn lemma_hard_cap_is_inclusive(layout: &ModuleLayout, d: int, i: int)
    requires
        layout.wf(),
        0 <= i < layout.entry_count(d),
        layout.entry(d, i).targets,
        !layout.entry(d, i).dynamic,
    ensures
        layout.entry(d, i).top() == MAX_MEMFD_IMAGE_SIZE && (layout.initialization is Segmented
            ==> layout.minimum_bytes(d) >= MAX_MEMFD_IMAGE_SIZE) ==> layout.records(d, i) && (
        !excluded(layout, d) ==> has_image(layout, d) && required_size(layout, d)
            == MAX_MEMFD_IMAGE_SIZE),
        layout.entry(d, i).top() == MAX_MEMFD_IMAGE_SIZE + 1 ==> layout.rejects(d, i) && excluded(
            layout,
            d,
        ) && !has_image(layout, d),
        required_size(layout, d) <= MAX_MEMFD_IMAGE_SIZE,
{
    lemma_required_range(layout, d, layout.entry_count(d));
    if layout.records(d, i) {
        lemma_recorded_within_required(layout, d, layout.entry_count(d), i);
    }
}

/// A memory is ruled out exactly if one of the initializers that target it
/// has a dynamic base, ends past the end of the address range, ends past the
/// memory's minimum size (segments only) or ends past the hard cap.
pub proof fn lemma_exclusion_rule(layout: &ModuleLayout, d: int)
    ensures
        excluded(layout, d) <==> exists|i: int|
            0 <= i < layout.entry_count(d) && (#[trigger] layout.entry(d, i)).targets && (
            layout.entry(d, i).dynamic || layout.entry(d, i).top() > u64::MAX || (
            layout.initialization is Segmented && layout.entry(d, i).top() > layout.minimum_bytes(
                d,
            )) || layout.entry(d, i).top() > MAX_MEMFD_IMAGE_SIZE),
{
    if excluded(layout, d) {
        let i = choose|i: int| 0 <= i < layout.entry_count(d) && #[trigger] layout.rejects(d, i);
        assert(layout.entry(d, i).targets);
    }
    if exists|i: int|
        0 <= i < layout.entry_count(d) && (#[trigger] layout.entry(d, i)).targets && (layout.entry(
            d,
            i,
        ).dynamic || layout.entry(d, i).top() > u64::MAX || (layout.initialization is Segmented
            && layout.entry(d, i).top() > layout.minimum_bytes(d)) || layout.entry(d, i).top()
            > MAX_MEMFD_IMAGE_SIZE) {
        let i = choose|i: int|
            0 <= i < layout.entry_count(d) && (#[trigger] layout.entry(d, i)).targets && (
            layout.entry(d, i).dynamic || layout.entry(d, i).top() > u64::MAX || (
            layout.initialization is Segmented && layout.entry(d, i).top() > layout.minimum_bytes(
                d,
            )) || layout.entry(d, i).top() > MAX_MEMFD_IMAGE_SIZE);
        assert(layout.rejects(d, i));
    }
}

/// Two builds of one module from one blob on one host give the same
/// contents, and either both succeed or both fail.
pub proof fn lemma_builds_agree(
    layout: &ModuleLayout,
    blob: Seq<u8>,
    page: int,
    first: Result<Seq<Option<Seq<u8>>>, ImageError>,
    second: Result<Seq<Option<Seq<u8>>>, ImageError>,
)
    requires
        built_with(layout, blob, page, first),
        built_with(layout, blob, page, second),
    ensures
        first == second,
{
    match (first, second) {
        (Err(a), Err(b)) => {
            assert(a is PageSize && b is PageSize);
        },
        _ => {},
    }
}

/// At most one image set per module: once a set is held for `id`, every
/// later caller gets that set, whatever it built itself, and the registry
/// stays as it is.
pub proof fn lemma_first_claim_wins<T>(
    held: Map<u64, Arc<T>>,
    id: u64,
    first: Arc<T>,
    second: Arc<T>,
)
    ensures
        after_claim(held, id, first).contains_key(id),
        claimed(after_claim(held, id, first), id, second) == claimed(held, id, first),
        after_claim(after_claim(held, id, first), id, second) == after_claim(held, id, first),
{
}

/// A claim for one module changes nothing for any other.
pub proof fn lemma_claim_leaves_others<T>(held: Map<u64, Arc<T>>, id: u64, built: Arc<T>, other: u64)
    requires
        other != id,
    ensures
        after_claim(held, id, built).contains_key(other) == held.contains_key(other),
        held.contains_key(other) ==> after_claim(held, id, built)[other] == held[other],
{
}

} // verus!
