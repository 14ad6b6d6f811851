use xcap::pixels::normalize_bgra_frame;

#[test]
fn swaps_red_and_blue() {
    let data = vec![1, 2, 3, 4, 5, 6, 7, 8];
    let out = normalize_bgra_frame(&data, 2, 1, 8).unwrap();
    assert_eq!(out, vec![3, 2, 1, 4, 7, 6, 5, 8]);
}

#[test]
fn drops_row_padding() {
    let data = vec![
        1, 2, 3, 4, 99, 99, // first row: one pixel, two padding bytes
        5, 6, 7, 8, 99, 99, // second row
    ];
    let out = normalize_bgra_frame(&data, 1, 2, 6).unwrap();
    assert_eq!(out, vec![3, 2, 1, 4, 7, 6, 5, 8]);
}

#[test]
fn rejects_short_buffer() {
    let data = vec![1, 2, 3, 4];
    assert_eq!(normalize_bgra_frame(&data, 2, 1, 8), None);
}

#[test]
fn rejects_narrow_rows() {
    let data = vec![0; 64];
    assert_eq!(normalize_bgra_frame(&data, 4, 2, 8), None);
}

#[test]
fn empty_frame() {
    let data: Vec<u8> = Vec::new();
    assert_eq!(normalize_bgra_frame(&data, 0, 0, 0), Some(Vec::new()));
}

#[test]
fn two_by_two_with_padding() {
    let mut data = Vec::new();
    for row in 0..2u8 {
        for col in 0..2u8 {
            let base = 40 * row + 10 * col;
            data.extend_from_slice(&[base, base + 1, base + 2, base + 3]);
        }
        data.extend_from_slice(&[0xAA, 0xBB, 0xCC, 0xDD]); // padding
    }
    let out = normalize_bgra_frame(&data, 2, 2, 12).unwrap();
    assert_eq!(
        out,
        vec![
            2, 1, 0, 3, 12, 11, 10, 13, // first row
            42, 41, 40, 43, 52, 51, 50, 53, // second row
        ]
    );
}
