use rocode::tui::session_render::{
    collect_visible_chunk_ranges, format_number, SessionRenderBuffer, VisibleChunkRange,
};

#[test]
fn numbers_get_thousands_separators() {
    assert_eq!(format_number(0), "0");
    assert_eq!(format_number(999), "999");
    assert_eq!(format_number(1000), "1,000");
    assert_eq!(format_number(1234567), "1,234,567");
    assert_eq!(format_number(u64::MAX), "18,446,744,073,709,551,615");
}

#[test]
fn visible_ranges_cover_the_viewport() {
    let mut b: SessionRenderBuffer<u8> = SessionRenderBuffer::new();
    b.record_message_start("m1");
    b.append_message("m1", vec![1, 2, 3]);
    b.append_non_message(vec![0]);
    b.record_message_start("m2");
    b.record_message_start("m2");
    b.append_message("m2", vec![4, 5, 6, 7]);
    assert_eq!(b.line_count(), 8);
    assert_eq!(b.message_first_lines, vec![("m1".to_string(), 0), ("m2".to_string(), 4)]);
    let r = collect_visible_chunk_ranges(&b.chunks, 2, 3);
    assert_eq!(
        r,
        vec![
            VisibleChunkRange { chunk_index: 0, start_in_chunk: 2, end_in_chunk: 3 },
            VisibleChunkRange { chunk_index: 1, start_in_chunk: 0, end_in_chunk: 1 },
            VisibleChunkRange { chunk_index: 2, start_in_chunk: 0, end_in_chunk: 1 },
        ]
    );
    assert!(collect_visible_chunk_ranges(&b.chunks, 2, 0).is_empty());
    let tail = collect_visible_chunk_ranges(&b.chunks, 7, 10);
    assert_eq!(tail, vec![VisibleChunkRange { chunk_index: 2, start_in_chunk: 3, end_in_chunk: 4 }]);
    assert!(collect_visible_chunk_ranges(&b.chunks, 8, 10).is_empty());
}
