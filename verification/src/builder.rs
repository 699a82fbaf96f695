//! The image builder: which defined memories get an image, how long each
//! image is and what bytes it holds.

use vstd::prelude::*;
use std::sync::Arc;
use crate::host::host_page_size;
use crate::image::{MemoryMemFd, ModuleMemFds};
use crate::layout::{Initializer, ModuleLayout, MAX_MEMFD_IMAGE_SIZE};

verus! {

/// Why a build failed.
#[derive(Clone, Copy, Debug, PartialEq, Eq)]
pub enum ImageError {
    /// The host's page size is zero, or an image rounded up to it is longer
    /// than a buffer can be.
    PageSize,
}

/// Some initializer rules out an image for defined memory `d`.
pub open spec fn excluded(layout: &ModuleLayout, d: int) -> bool {
    exists|i: int| 0 <= i < layout.entry_count(d) && #[trigger] layout.rejects(d, i)
}

/// The largest end offset among the recorded ones of the first `n`
/// initializers of defined memory `d`; 0 if there is none.
pub open spec fn required_after(layout: &ModuleLayout, d: int, n: int) -> int
    decreases n,
{
    if n <= 0 {
        0
    } else {
        let before = required_after(layout, d, n - 1);
        if layout.records(d, n - 1) && layout.entry(d, n - 1).top() > before {
            layout.entry(d, n - 1).top()
        } else {
            before
        }
    }
}

/// The number of bytes that the image of defined memory `d` has to hold.
pub open spec fn required_size(layout: &ModuleLayout, d: int) -> int {
    required_after(layout, d, layout.entry_count(d))
}

/// Defined memory `d` gets an image: nothing rules it out and there is
/// something to put in it.
pub open spec fn has_image(layout: &ModuleLayout, d: int) -> bool {
    !excluded(layout, d) && required_size(layout, d) > 0
}

/// `size` rounded up to the next multiple of `page`.
pub open spec fn round_up(size: int, page: int) -> int
    recommends
        size >= 0,
        page > 0,
{
    if size % page == 0 {
        size
    } else {
        size - size % page + page
    }
}

/// An image of `size` bytes can be rounded up to the page size `page`: the
/// page size is not zero and the rounded size is one that a buffer can have.
pub open spec fn page_fits(size: int, page: int) -> bool {
    page > 0 && round_up(size, page) <= isize::MAX
}

/// `image` with `data` written over it from byte offset `offset` on.
pub open spec fn overlay(image: Seq<u8>, offset: int, data: Seq<u8>) -> Seq<u8> {
    Seq::new(
        image.len(),
        |k: int|
            if offset <= k < offset + data.len() {
                data[k - offset]
            } else {
                image[k]
            },
    )
}

/// An image of `len` bytes for defined memory `d` after the first `n`
/// initializers: zeros, with the recorded ones written over them in order.
pub open spec fn image_after(layout: &ModuleLayout, blob: Seq<u8>, d: int, len: int, n: int) -> Seq<
    u8,
>
    decreases n,
{
    if n <= 0 {
        Seq::new(len as nat, |k: int| 0u8)
    } else {
        let before = image_after(layout, blob, d, len, n - 1);
        let e = layout.entry(d, n - 1);
        if layout.records(d, n - 1) {
            overlay(before, e.offset as int, blob.subrange(e.data_start as int, e.data_end as int))
        } else {
            before
        }
    }
}

/// The bytes of an image of `len` bytes for defined memory `d`.
pub open spec fn image_bytes(layout: &ModuleLayout, blob: Seq<u8>, d: int, len: int) -> Seq<u8> {
    image_after(layout, blob, d, len, layout.entry_count(d))
}

/// What the image set holds for defined memory `d` on a host with page size
/// `page`.
pub open spec fn expected_image(layout: &ModuleLayout, blob: Seq<u8>, page: int, d: int) -> Option<
    Seq<u8>,
> {
    if has_image(layout, d) {
        Some(image_bytes(layout, blob, d, round_up(required_size(layout, d), page)))
    } else {
        None
    }
}

/// The whole image set on a host with page size `page`.
pub open spec fn expected_images(layout: &ModuleLayout, blob: Seq<u8>, page: int) -> Seq<
    Option<Seq<u8>>,
> {
    Seq::new(layout.defined_memories() as nat, |d: int| expected_image(layout, blob, page, d))
}

/// Every image of the module can be rounded up to the page size `page`.
pub open spec fn buildable(layout: &ModuleLayout, page: int) -> bool {
    forall|d: int|
        0 <= d < layout.defined_memories() && #[trigger] has_image(layout, d) ==> page_fits(
            required_size(layout, d),
            page,
        )
}

/// `images` is what a build on a host with page size `page` gives.
pub open spec fn built_with(
    layout: &ModuleLayout,
    blob: Seq<u8>,
    page: int,
    images: Result<Seq<Option<Seq<u8>>>, ImageError>,
) -> bool {
    match images {
        Ok(set) => buildable(layout, page) && set == expected_images(layout, blob, page),
        Err(_) => !buildable(layout, page),
    }
}

/// The contents of a build's result.
pub open spec fn result_view(res: Result<Arc<ModuleMemFds>, ImageError>) -> Result<
    Seq<Option<Seq<u8>>>,
    ImageError,
> {
    match res {
        Ok(set) => Ok(set@),
        Err(e) => Err(e),
    }
}

/// The required size never passes the hard cap and is never negative.
pub proof fn lemma_required_range(layout: &ModuleLayout, d: int, n: int)
    requires
        layout.wf(),
    ensures
        0 <= required_after(layout, d, n) <= MAX_MEMFD_IMAGE_SIZE,
    decreases n,
{
    if n > 0 {
        lemma_required_range(layout, d, n - 1);
    }
}

/// Every recorded initializer ends within the required size.
pub proof fn lemma_recorded_within_required(layout: &ModuleLayout, d: int, n: int, i: int)
    requires
        0 <= i < n,
        layout.records(d, i),
    ensures
        layout.entry(d, i).top() <= required_after(layout, d, n),
    decreases n,
{
    if i < n - 1 {
        lemma_recorded_within_required(layout, d, n - 1, i);
    }
}

/// Rounding up gives the least multiple of the page size that is not below
/// the size.
pub proof fn lemma_round_up(size: int, page: int)
    requires
        size >= 0,
        page > 0,
    ensures
        round_up(size, page) % page == 0,
        size <= round_up(size, page) < size + page,
{
    assert(0 <= size % page < page) by (nonlinear_arith)
        requires
            page > 0,
    ;
    assert((size - size % page + page) % page == 0) by (nonlinear_arith)
        requires
            page > 0,
    ;
}

/// Rounds `size` up to the next multiple of `page_size`.
pub fn round_up_to_page(size: u64, page_size: usize) -> (rounded: Option<usize>)
    ensures
        rounded == if page_fits(size as int, page_size as int) {
            Some(round_up(size as int, page_size as int) as usize)
        } else {
            None::<usize>
        },
{
    if page_size == 0 {
        return None;
    }
    let page: u64 = page_size as u64;
    let rest: u64 = size % page;
    proof {
        vstd::arithmetic::div_mod::lemma_mod_decreases(size as nat, page as nat);
    }
    let whole: Option<u64> = if rest == 0 {
        Some(size)
    } else {
        (size - rest).checked_add(page)
    };
    match whole {
        Some(w) => if w <= isize::MAX as u64 {
            Some(w as usize)
        } else {
            None
        },
        None => None,
    }
}

/// The end offset of an initializer, if it lies within `limit`.
pub fn top_within(e: &Initializer, limit: u64) -> (top: Option<u64>)
    requires
        e.data_start <= e.data_end,
    ensures
        top == if e.top() <= limit {
            Some(e.top() as u64)
        } else {
            None::<u64>
        },
{
    let len: u64 = (e.data_end - e.data_start) as u64;
    match e.offset.checked_add(len) {
        Some(top) => if top <= limit {
            Some(top)
        } else {
            None
        },
        None => None,
    }
}

/// The size that the image of defined memory `d` has to have, or `None`
/// where the memory gets no image.
pub fn image_size(layout: &ModuleLayout, d: usize) -> (size: Option<u64>)
    requires
        layout.wf(),
        d < layout.defined_memories(),
    ensures
        size == if has_image(layout, d as int) {
            Some(required_size(layout, d as int) as u64)
        } else {
            None::<u64>
        },
        size matches Some(s) ==> s == required_size(layout, d as int) && 0 < s
            <= MAX_MEMFD_IMAGE_SIZE,
{
    let n: usize = layout.num_entries(d);
    let limit: u64 = layout.limit_of(d);
    let mut size: u64 = 0;
    let mut ruled_out: bool = false;
    let mut i: usize = 0;
    while i < n
        invariant
            layout.wf(),
            d < layout.defined_memories(),
            n == layout.entry_count(d as int),
            limit == layout.size_limit(d as int),
            limit <= MAX_MEMFD_IMAGE_SIZE,
            0 <= i <= n,
            size == required_after(layout, d as int, i as int),
            size <= MAX_MEMFD_IMAGE_SIZE,
            ruled_out == (exists|j: int| 0 <= j < i && #[trigger] layout.rejects(d as int, j)),
        decreases n - i,
    {
        let e = layout.initializer(d, i);
        if e.targets {
            if e.dynamic {
                ruled_out = true;
            } else {
                match top_within(&e, limit) {
                    Some(top) => {
                        if top > size {
                            size = top;
                        }
                    },
                    None => {
                        ruled_out = true;
                    },
                }
            }
        }
        proof {
            if layout.rejects(d as int, i as int) {
                assert(ruled_out);
            }
        }
        i += 1;
    }
    if ruled_out || size == 0 {
        None
    } else {
        Some(size)
    }
}

/// Writes `blob[start..end]` into `image` from byte offset `offset` on.
pub fn write_at(image: &mut Vec<u8>, offset: usize, blob: &[u8], start: usize, end: usize)
    requires
        start <= end <= blob@.len(),
        offset + (end - start) <= old(image)@.len(),
    ensures
        final(image)@ == overlay(old(image)@, offset as int, blob@.subrange(start as int, end as int)),
{
    let count: usize = end - start;
    let total: usize = image.len();
    let mut j: usize = 0;
    while j < count
        invariant
            start <= end <= blob@.len(),
            count == end - start,
            offset + count <= total,
            total == image@.len(),
            image@.len() == old(image)@.len(),
            0 <= j <= count,
            forall|k: int|
                0 <= k < image@.len() ==> #[trigger] image@[k] == if offset <= k < offset + j {
                    blob@[start + k - offset]
                } else {
                    old(image)@[k]
                },
        decreases count - j,
    {
        let byte: u8 = blob[start + j];
        image.set(offset + j, byte);
        j += 1;
    }
    assert(image@ =~= overlay(
        old(image)@,
        offset as int,
        blob@.subrange(start as int, end as int),
    ));
}

/// Builds the bytes of an image of `len` bytes for defined memory `d`: zeros,
/// with every recorded initializer written over them in order.
pub fn render_image(layout: &ModuleLayout, blob: &[u8], d: usize, len: usize) -> (bytes: Vec<u8>)
    requires
        layout.wf(),
        layout.data_within(blob@.len() as int),
        d < layout.defined_memories(),
        required_size(layout, d as int) <= len,
    ensures
        bytes@ == image_bytes(layout, blob@, d as int, len as int),
{
    let n: usize = layout.num_entries(d);
    let limit: u64 = layout.limit_of(d);
    let mut bytes: Vec<u8> = vec![0u8; len];
    assert(bytes@ =~= image_after(layout, blob@, d as int, len as int, 0));
    let mut i: usize = 0;
    while i < n
        invariant
            layout.wf(),
            layout.data_within(blob@.len() as int),
            d < layout.defined_memories(),
            n == layout.entry_count(d as int),
            required_after(layout, d as int, n as int) <= len,
            limit == layout.size_limit(d as int),
            0 <= i <= n,
            bytes@.len() == len,
            bytes@ == image_after(layout, blob@, d as int, len as int, i as int),
        decreases n - i,
    {
        let e = layout.initializer(d, i);
        if e.targets && !e.dynamic {
            match top_within(&e, limit) {
                Some(top) => {
                    proof {
                        lemma_recorded_within_required(layout, d as int, n as int, i as int);
                    }
                    write_at(
                        &mut bytes,
                        e.offset as usize,
                        blob,
                        e.data_start as usize,
                        e.data_end as usize,
                    );
                },
                None => {},
            }
        }
        i += 1;
    }
    bytes
}

/// Builds the image set of a module on a host whose page size is
/// `page_size`. It fails only where an image cannot be rounded up to the
/// page size.
pub fn build_images(layout: &ModuleLayout, blob: &[u8], page_size: usize) -> (res: Result<
    ModuleMemFds,
    ImageError,
>)
    requires
        layout.wf(),
        layout.data_within(blob@.len() as int),
    ensures
        match res {
            Ok(set) => built_with(layout, blob@, page_size as int, Ok(set@)),
            Err(e) => built_with(layout, blob@, page_size as int, Err(e)),
        },
{
    let n: usize = layout.num_defined_memories();
    let mut memories: Vec<Option<Arc<MemoryMemFd>>> = Vec::new();
    let mut d: usize = 0;
    while d < n
        invariant
            layout.wf(),
            layout.data_within(blob@.len() as int),
            n == layout.defined_memories(),
            0 <= d <= n,
            memories@.len() == d,
            forall|k: int|
                0 <= k < d ==> crate::image::slot_view(#[trigger] memories@[k]) == expected_image(
                    layout,
                    blob@,
                    page_size as int,
                    k,
                ),
            forall|k: int|
                0 <= k < d && #[trigger] has_image(layout, k) ==> page_fits(
                    required_size(layout, k),
                    page_size as int,
                ),
        decreases n - d,
    {
        match image_size(layout, d) {
            None => {
                memories.push(None);
            },
            Some(size) => {
                match round_up_to_page(size, page_size) {
                    None => {
                        return Err(ImageError::PageSize);
                    },
                    Some(len) => {
                        proof {
                            lemma_round_up(size as int, page_size as int);
                        }
                        let data = render_image(layout, blob, d, len);
                        memories.push(Some(Arc::new(MemoryMemFd::sealed(data))));
                    },
                }
            },
        }
        d += 1;
    }
    let set = ModuleMemFds::from_slots(memories);
    assert(set@ =~= expected_images(layout, blob@, page_size as int));
    Ok(set)
}

/// Builds the image set of a module for this host. The page size is the
/// host's to say, so the result is stated for whatever page size it names.
pub fn build_memfds(layout: &ModuleLayout, blob: &[u8]) -> (res: Result<
    Arc<ModuleMemFds>,
    ImageError,
>)
    requires
        layout.wf(),
        layout.data_within(blob@.len() as int),
    ensures
        exists|page: usize| #[trigger] built_with(layout, blob@, page as int, result_view(res)),
{
    let page_size: usize = host_page_size();
    match build_images(layout, blob, page_size) {
        Ok(set) => {
            let shared = Arc::new(set);
            assert(built_with(layout, blob@, page_size as int, result_view(Ok(shared))));
            Ok(shared)
        },
        Err(e) => {
            assert(built_with(layout, blob@, page_size as int, result_view(Err(e))));
            Err(e)
        },
    }
}

} // verus!
