use lazer_refraction_renderer::align::{align_to, workgroup_count, WORKGROUP_SIZE};
use lazer_refraction_renderer::buffers::{
    buffer_sizes, chunk_bytes, elements_per_buffer, outline_vertex_count, padded_allocation,
    plan_chunks, BufferSizes,
};

#[test]
fn align_to_rounds_up_to_power_of_two() {
    assert_eq!(align_to(0, 4), 0);
    assert_eq!(align_to(1, 4), 4);
    assert_eq!(align_to(4, 4), 4);
    assert_eq!(align_to(5, 4), 8);
    assert_eq!(align_to(257, 256), 512);
    assert_eq!(align_to(100, 1), 100);
    assert_eq!(align_to(u32::MAX - 255, 256), u32::MAX - 255);
}

#[test]
fn align_to_mask_with_other_alignments() {
    // With an alignment that is not a power of two the mask trick is kept as is.
    assert_eq!(align_to(5, 3), (5 + 3 - 1) & !(3 - 1));
    assert_eq!(align_to(10, 6), (10 + 6 - 1) & !(6 - 1));
}

#[test]
fn align_to_is_idempotent() {
    for size in 0..2000u32 {
        let once = align_to(size, 64);
        assert_eq!(align_to(once, 64), once);
        assert!(once >= size && once < size + 64 && once % 64 == 0);
    }
}

#[test]
fn workgroups_cover_all_rays() {
    assert_eq!(WORKGROUP_SIZE, 256);
    assert_eq!(workgroup_count(0), 0);
    assert_eq!(workgroup_count(1), 1);
    assert_eq!(workgroup_count(256), 1);
    assert_eq!(workgroup_count(257), 2);
    assert_eq!(workgroup_count(50_000), 196);
    assert_eq!(workgroup_count(u32::MAX), 16_777_216);
}

#[test]
fn buffer_sizes_record_counts() {
    assert_eq!(buffer_sizes(10, 8), BufferSizes { size_elements: 10, size_bytes: 80 });
    assert_eq!(buffer_sizes(50_000, 32), BufferSizes { size_elements: 50_000, size_bytes: 1_600_000 });
    assert_eq!(buffer_sizes(0, 48), BufferSizes { size_elements: 0, size_bytes: 0 });
}

#[test]
fn padded_allocation_is_multiple_of_four() {
    assert_eq!(padded_allocation(3, 1), 4);
    assert_eq!(padded_allocation(4, 1), 4);
    assert_eq!(padded_allocation(5, 2), 12);
    assert_eq!(padded_allocation(7, 8), 56);
    assert_eq!(padded_allocation(0, 8), 0);
}

#[test]
fn chunk_plan_splits_into_full_buffers_and_rest() {
    assert_eq!(plan_chunks(10, 4), vec![(0, 4), (4, 4), (8, 2)]);
    assert_eq!(plan_chunks(8, 4), vec![(0, 4), (4, 4)]);
    assert_eq!(plan_chunks(3, 4), vec![(0, 3)]);
    assert_eq!(plan_chunks(0, 4), vec![]);
}

#[test]
fn chunk_plan_partitions_elements() {
    for len in 0..200usize {
        for per in 1..20usize {
            let chunks = plan_chunks(len, per);
            let mut next = 0;
            for (i, &(start, count)) in chunks.iter().enumerate() {
                assert_eq!(start, next);
                assert!(count >= 1 && count <= per);
                if i + 1 < chunks.len() {
                    assert_eq!(count, per);
                }
                next = start + count;
            }
            assert_eq!(next, len);
        }
    }
}

#[test]
fn elements_per_buffer_divides_limit() {
    assert_eq!(elements_per_buffer(256 * 1024 * 1024, 48), 5_592_405);
    assert_eq!(elements_per_buffer(100, 48), 2);
    assert_eq!(elements_per_buffer(10, 48), 0);
}

#[test]
fn chunk_bytes_is_count_times_size() {
    assert_eq!(chunk_bytes(5_592_405, 48), 268_435_440);
    assert_eq!(chunk_bytes(0, 48), 0);
}

#[test]
fn outline_closes_polygon() {
    assert_eq!(outline_vertex_count(35), 36);
    assert_eq!(outline_vertex_count(0), 1);
}
