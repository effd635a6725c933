use wallgallery::rowpack::{pack, pack_rows, scaled_width};

#[test]
fn three_images_of_150_in_400_make_two_rows() {
    let widths = vec![150u32, 150, 150];
    let rows = pack_rows(&widths, 400, 4);
    assert_eq!(rows.len(), 2);

    assert_eq!(rows[0].start, 0);
    assert_eq!(rows[0].images.len(), 2);
    assert_eq!(rows[0].total_width, 304); // 150 + 4 + 150
    assert_eq!(rows[0].left_padding, 48); // (400 - 304) / 2
    assert_eq!(rows[0].images[0].x, 0);
    assert_eq!(rows[0].images[1].x, 154);

    assert_eq!(rows[1].start, 2);
    assert_eq!(rows[1].images.len(), 1);
    assert_eq!(rows[1].total_width, 150);
    assert_eq!(rows[1].left_padding, 125); // (400 - 150) / 2
}

#[test]
fn zero_images_produce_zero_rows() {
    let widths: Vec<u32> = Vec::new();
    let rows = pack_rows(&widths, 400, 4);
    assert_eq!(rows.len(), 0);
}

#[test]
fn an_oversized_image_forms_its_own_row_without_padding() {
    let widths = vec![500u32];
    let rows = pack_rows(&widths, 400, 4);
    assert_eq!(rows.len(), 1);
    assert_eq!(rows[0].images.len(), 1);
    assert_eq!(rows[0].total_width, 500);
    assert_eq!(rows[0].left_padding, 0);
}

#[test]
fn an_oversized_first_image_is_never_rejected() {
    let widths = vec![500u32, 100];
    let rows = pack_rows(&widths, 400, 4);
    assert_eq!(rows.len(), 2);
    assert_eq!(rows[0].images.len(), 1);
    assert_eq!(rows[0].images[0].index, 0);
    assert_eq!(rows[1].images.len(), 1);
    assert_eq!(rows[1].images[0].index, 1);
    assert_eq!(rows[1].left_padding, 150);
}

#[test]
fn rows_respect_the_width_invariant() {
    let widths = vec![90u32, 120, 60, 300, 45, 45, 45, 700, 10];
    let available = 320u32;
    let padding = 5u32;
    let rows = pack_rows(&widths, available, padding);
    let mut seen: usize = 0;
    for row in &rows {
        assert!(!row.images.is_empty());
        assert_eq!(row.start, seen);
        let n = row.images.len() as u64;
        let sum: u64 = row.images.iter().map(|p| p.width as u64).sum();
        assert_eq!(row.total_width, sum + (padding as u64) * (n - 1));
        if row.images.len() > 1 {
            assert!(row.total_width <= available as u64);
        }
        if row.total_width <= available as u64 {
            assert_eq!(row.left_padding, (available as u64 - row.total_width) / 2);
            assert!(2 * row.left_padding + row.total_width <= available as u64);
            assert!(available as u64 - (2 * row.left_padding + row.total_width) <= 1);
        } else {
            assert_eq!(row.left_padding, 0);
        }
        seen += row.images.len();
        if seen < widths.len() {
            // The break is forced: the next image would have overflowed.
            assert!(row.total_width + padding as u64 + widths[seen] as u64 > available as u64);
        }
    }
    assert_eq!(seen, widths.len());
}

#[test]
fn scaled_width_follows_the_aspect_ratio() {
    assert_eq!(scaled_width(200, 100, 128), 256);
    assert_eq!(scaled_width(100, 200, 128), 64);
    assert_eq!(scaled_width(333, 333, 128), 128);
}

#[test]
fn scaled_width_saturates() {
    assert_eq!(scaled_width(u32::MAX, 1, u32::MAX), u32::MAX);
}

#[test]
fn pack_scales_then_packs() {
    let dims = vec![(200u32, 100u32), (300, 150)];
    let rows = pack(&dims, 128, 520, 4);
    assert_eq!(rows.len(), 1);
    assert_eq!(rows[0].images.len(), 2);
    assert_eq!(rows[0].images[0].width, 256);
    assert_eq!(rows[0].images[1].width, 256);
    assert_eq!(rows[0].total_width, 516);
    assert_eq!(rows[0].left_padding, 2);
}
