use memory_images::builder::{
    build_images, build_memfds, image_size, render_image, round_up_to_page, top_within, write_at,
};
use memory_images::layout::{
    Initializer, MemoryInit, MemorySegment, ModuleLayout, PageEntry, MAX_MEMFD_IMAGE_SIZE,
    WASM_PAGE_BYTES,
};
use memory_images::ImageError;

const GIB: u64 = 1024 * 1024 * 1024;

fn segment(memory_index: usize, offset: u64, data_start: u32, data_end: u32) -> MemorySegment {
    MemorySegment { memory_index, dynamic_base: false, offset, data_start, data_end }
}

fn dynamic(memory_index: usize) -> MemorySegment {
    MemorySegment { memory_index, dynamic_base: true, offset: 0, data_start: 0, data_end: 0 }
}

fn segmented(imported: usize, minimum_pages: Vec<u64>, segments: Vec<MemorySegment>) -> ModuleLayout {
    ModuleLayout {
        num_imported_memories: imported,
        minimum_pages,
        initialization: MemoryInit::Segmented(segments),
    }
}

fn paged(minimum_pages: Vec<u64>, pages: Vec<Vec<PageEntry>>) -> ModuleLayout {
    ModuleLayout {
        num_imported_memories: 0,
        minimum_pages,
        initialization: MemoryInit::Paged(pages),
    }
}

fn blob(len: usize) -> Vec<u8> {
    (0..len).map(|i| (i % 251) as u8 + 1).collect()
}

#[test]
fn constants_have_their_values() {
    assert_eq!(MAX_MEMFD_IMAGE_SIZE, GIB);
    assert_eq!(WASM_PAGE_BYTES, 65536);
}

#[test]
fn scenario_two_memories_one_dynamic() {
    let data = blob(4096);
    let layout = segmented(0, vec![1, 1], vec![segment(0, 0, 0, 4096), dynamic(1)]);
    let set = build_memfds(&layout, &data).unwrap();
    assert_eq!(set.len(), 2);
    let page = region::page::size();
    let image = set.get_memory_image(0).unwrap();
    assert_eq!(image.len() % page, 0);
    assert!(image.len() >= 4096 && image.len() < 4096 + page);
    assert_eq!(image.len(), image.as_bytes().len());
    assert_eq!(&image.as_bytes()[..4096], &data[..]);
    assert!(image.as_bytes()[4096..].iter().all(|b| *b == 0));
    assert!(set.get_memory_image(1).is_none());
}

#[test]
fn scenario_two_memories_on_a_large_page() {
    let data = blob(4096);
    let layout = segmented(0, vec![1, 1], vec![segment(0, 0, 0, 4096), dynamic(1)]);
    let set = build_images(&layout, &data, 16384).unwrap();
    let image = set.get_memory_image(0).unwrap();
    assert_eq!(image.len(), 16384);
    assert_eq!(&image.as_bytes()[..4096], &data[..]);
    assert!(image.as_bytes()[4096..].iter().all(|b| *b == 0));
    assert!(set.get_memory_image(1).is_none());
}

#[test]
fn written_bytes_are_read_back_at_their_offsets() {
    let data = blob(64);
    let layout = segmented(
        0,
        vec![1],
        vec![segment(0, 100, 0, 10), segment(0, 5000, 10, 64), segment(0, 200, 3, 3)],
    );
    let set = build_images(&layout, &data, 4096).unwrap();
    let image = set.get_memory_image(0).unwrap();
    assert_eq!(image.len(), 8192);
    let bytes = image.as_bytes();
    for k in 0..8192usize {
        let want = if (100..110).contains(&k) {
            data[k - 100]
        } else if (5000..5054).contains(&k) {
            data[10 + k - 5000]
        } else {
            0
        };
        assert_eq!(bytes[k], want, "offset {}", k);
    }
}

#[test]
fn a_later_segment_writes_over_an_earlier_one() {
    let data = blob(16);
    let layout = segmented(0, vec![1], vec![segment(0, 0, 0, 8), segment(0, 4, 8, 16)]);
    let set = build_images(&layout, &data, 16).unwrap();
    let image = set.get_memory_image(0).unwrap();
    assert_eq!(image.len(), 16);
    assert_eq!(&image.as_bytes()[0..4], &data[0..4]);
    assert_eq!(&image.as_bytes()[4..12], &data[8..16]);
    assert_eq!(&image.as_bytes()[12..16], &[0u8; 4]);
}

#[test]
fn segment_ending_at_the_minimum_size_is_included() {
    let data = blob(16);
    let layout = segmented(0, vec![1], vec![segment(0, 65536 - 16, 0, 16)]);
    assert_eq!(image_size(&layout, 0), Some(65536));
    let set = build_images(&layout, &data, 4096).unwrap();
    let image = set.get_memory_image(0).unwrap();
    assert_eq!(image.len(), 65536);
    assert_eq!(&image.as_bytes()[65520..], &data[..]);
}

#[test]
fn segment_ending_past_the_minimum_size_excludes() {
    let data = blob(16);
    let layout = segmented(0, vec![1], vec![segment(0, 65536 - 15, 0, 16)]);
    assert_eq!(image_size(&layout, 0), None);
    let set = build_images(&layout, &data, 4096).unwrap();
    assert!(set.get_memory_image(0).is_none());
}

#[test]
fn one_bad_segment_excludes_the_memory_with_its_good_ones() {
    let data = blob(16);
    let layout = segmented(
        0,
        vec![1, 1],
        vec![segment(0, 0, 0, 8), segment(0, 65536, 0, 1), segment(1, 8, 8, 16)],
    );
    assert_eq!(image_size(&layout, 0), None);
    assert_eq!(image_size(&layout, 1), Some(16));
    let set = build_images(&layout, &data, 4096).unwrap();
    assert!(set.get_memory_image(0).is_none());
    assert_eq!(&set.get_memory_image(1).unwrap().as_bytes()[8..16], &data[8..16]);
}

#[test]
fn required_size_at_the_cap_is_included() {
    let layout = segmented(0, vec![20000], vec![segment(0, GIB - 4, 0, 4)]);
    assert_eq!(image_size(&layout, 0), Some(GIB));
    let at_cap = segmented(0, vec![16384], vec![segment(0, GIB - 4, 0, 4)]);
    assert_eq!(image_size(&at_cap, 0), Some(GIB));
}

#[test]
fn required_size_past_the_cap_excludes() {
    let layout = segmented(0, vec![20000], vec![segment(0, GIB - 3, 0, 4)]);
    assert_eq!(image_size(&layout, 0), None);
    let huge = segmented(0, vec![u64::MAX], vec![segment(0, GIB - 3, 0, 4)]);
    assert_eq!(image_size(&huge, 0), None);
    let pages = paged(vec![20000], vec![vec![PageEntry { base: GIB, data_start: 0, data_end: 1 }]]);
    assert_eq!(image_size(&pages, 0), None);
}

#[test]
fn huge_minimum_size_does_not_overflow() {
    let layout = segmented(0, vec![u64::MAX], vec![segment(0, GIB - 4, 0, 4)]);
    assert_eq!(layout.limit_of(0), GIB);
    assert_eq!(image_size(&layout, 0), Some(GIB));
    let small = segmented(0, vec![3], vec![]);
    assert_eq!(small.limit_of(0), 3 * 65536);
}

#[test]
fn segment_end_past_the_address_range_excludes() {
    let data = blob(16);
    let layout = segmented(0, vec![1], vec![segment(0, u64::MAX, 0, 1)]);
    assert_eq!(image_size(&layout, 0), None);
    let set = build_images(&layout, &data, 4096).unwrap();
    assert!(set.get_memory_image(0).is_none());
}

#[test]
fn memory_without_segments_has_no_image() {
    let data = blob(16);
    let layout = segmented(0, vec![1, 1], vec![segment(1, 0, 0, 16)]);
    let set = build_images(&layout, &data, 4096).unwrap();
    assert!(set.get_memory_image(0).is_none());
    assert!(set.get_memory_image(1).is_some());
}

#[test]
fn memory_with_only_empty_segments_has_no_image() {
    let data = blob(16);
    let layout = segmented(0, vec![1], vec![segment(0, 0, 4, 4)]);
    assert_eq!(image_size(&layout, 0), None);
    let set = build_images(&layout, &data, 4096).unwrap();
    assert!(set.get_memory_image(0).is_none());
}

#[test]
fn segments_of_imported_memories_are_skipped() {
    let data = blob(16);
    let layout = segmented(1, vec![1, 1], vec![dynamic(0), segment(0, 0, 0, 16), segment(1, 32, 0, 16)]);
    assert_eq!(layout.num_defined_memories(), 1);
    let set = build_images(&layout, &data, 64).unwrap();
    assert_eq!(set.len(), 1);
    let image = set.get_memory_image(0).unwrap();
    assert_eq!(image.len(), 64);
    assert_eq!(&image.as_bytes()[..32], &[0u8; 32]);
    assert_eq!(&image.as_bytes()[32..48], &data[..]);
}

#[test]
fn module_without_defined_memories_gives_an_empty_set() {
    let layout = segmented(2, vec![1, 1], vec![segment(0, 0, 0, 4)]);
    let set = build_images(&layout, &blob(4), 4096).unwrap();
    assert_eq!(set.len(), 0);
    let none = segmented(0, vec![], vec![]);
    assert_eq!(build_memfds(&none, &[]).unwrap().len(), 0);
}

#[test]
fn module_with_every_memory_excluded_gives_only_none() {
    let layout = segmented(0, vec![1, 1], vec![dynamic(0), dynamic(1)]);
    let set = build_memfds(&layout, &[]).unwrap();
    assert_eq!(set.len(), 2);
    assert!(set.get_memory_image(0).is_none());
    assert!(set.get_memory_image(1).is_none());
}

#[test]
fn paged_memory_takes_the_largest_end() {
    let data = blob(32);
    let layout = paged(
        vec![4, 4, 4],
        vec![
            vec![
                PageEntry { base: 65536, data_start: 0, data_end: 16 },
                PageEntry { base: 0, data_start: 16, data_end: 32 },
            ],
            vec![],
        ],
    );
    assert_eq!(layout.num_entries(0), 2);
    assert_eq!(layout.num_entries(1), 0);
    assert_eq!(layout.num_entries(2), 0);
    assert_eq!(image_size(&layout, 0), Some(65552));
    let set = build_images(&layout, &data, 4096).unwrap();
    assert_eq!(set.len(), 3);
    let image = set.get_memory_image(0).unwrap();
    assert_eq!(image.len(), 69632);
    assert_eq!(&image.as_bytes()[..16], &data[16..32]);
    assert_eq!(&image.as_bytes()[65536..65552], &data[..16]);
    assert!(image.as_bytes()[16..65536].iter().all(|b| *b == 0));
    assert!(set.get_memory_image(1).is_none());
    assert!(set.get_memory_image(2).is_none());
}

#[test]
fn paged_memory_is_not_held_to_its_minimum_size() {
    let data = blob(8);
    let layout = paged(vec![1], vec![vec![PageEntry { base: 65536, data_start: 0, data_end: 8 }]]);
    assert_eq!(layout.limit_of(0), GIB);
    assert_eq!(image_size(&layout, 0), Some(65544));
}

#[test]
fn rounding_up_to_a_page() {
    assert_eq!(round_up_to_page(0, 4096), Some(0));
    assert_eq!(round_up_to_page(1, 4096), Some(4096));
    assert_eq!(round_up_to_page(4096, 4096), Some(4096));
    assert_eq!(round_up_to_page(4097, 4096), Some(8192));
    assert_eq!(round_up_to_page(5, 3), Some(6));
    assert_eq!(round_up_to_page(GIB, 65536), Some(GIB as usize));
}

#[test]
fn rounding_up_fails_without_a_page_or_room() {
    assert_eq!(round_up_to_page(5, 0), None);
    assert_eq!(round_up_to_page(5, usize::MAX), None);
    assert_eq!(round_up_to_page(5, isize::MAX as usize), Some(isize::MAX as usize));
    assert_eq!(round_up_to_page(u64::MAX, 4096), None);
}

#[test]
fn build_fails_on_a_page_size_of_zero() {
    let layout = segmented(0, vec![1], vec![segment(0, 0, 0, 4)]);
    assert_eq!(build_images(&layout, &blob(4), 0).err(), Some(ImageError::PageSize));
    assert_eq!(build_images(&layout, &blob(4), usize::MAX).err(), Some(ImageError::PageSize));
}

#[test]
fn build_without_images_needs_no_page_size() {
    let layout = segmented(0, vec![1], vec![dynamic(0)]);
    let set = build_images(&layout, &[], 0).unwrap();
    assert!(set.get_memory_image(0).is_none());
}

#[test]
fn top_of_an_initializer() {
    let e = Initializer { targets: true, dynamic: false, offset: 10, data_start: 2, data_end: 7 };
    assert_eq!(top_within(&e, 15), Some(15));
    assert_eq!(top_within(&e, 14), None);
    let far = Initializer { targets: true, dynamic: false, offset: u64::MAX, data_start: 0, data_end: 1 };
    assert_eq!(top_within(&far, u64::MAX), None);
}

#[test]
fn initializers_seen_from_each_memory() {
    let layout = segmented(1, vec![1, 1, 1], vec![segment(2, 7, 1, 3), dynamic(0)]);
    let e = layout.initializer(1, 0);
    assert!(e.targets && !e.dynamic);
    assert_eq!((e.offset, e.data_start, e.data_end), (7, 1, 3));
    assert!(!layout.initializer(0, 0).targets);
    assert!(!layout.initializer(0, 1).targets);
    assert!(layout.initializer(0, 1).dynamic);
}

#[test]
fn writing_into_a_buffer() {
    let mut image = vec![9u8; 6];
    write_at(&mut image, 2, &[1, 2, 3, 4, 5], 1, 4);
    assert_eq!(image, vec![9, 9, 2, 3, 4, 9]);
    write_at(&mut image, 6, &[1, 2, 3], 3, 3);
    assert_eq!(image, vec![9, 9, 2, 3, 4, 9]);
}

#[test]
fn rendering_a_longer_image_than_required() {
    let data = blob(4);
    let layout = segmented(0, vec![1], vec![segment(0, 2, 0, 4), dynamic(0)]);
    let bytes = render_image(&layout, &data, 0, 10);
    assert_eq!(bytes, vec![0, 0, data[0], data[1], data[2], data[3], 0, 0, 0, 0]);
}
