use termimg::bitmap::Bitmap;
use termimg::color::{ColorMode, Rgb};
use termimg::render::{cell_at, count_lines, encode_cell, render, render_line, Cell};

fn text(bytes: Vec<u8>) -> String {
    String::from_utf8(bytes).unwrap()
}

fn solid(width: u32, height: u32, color: Rgb) -> Bitmap {
    let mut data = Vec::new();
    for _ in 0..(width as usize * height as usize) {
        data.push(color.r);
        data.push(color.g);
        data.push(color.b);
    }
    Bitmap::from_raw(width, height, data).unwrap()
}

#[test]
fn truecolor_cell_passes_the_pixels_through() {
    let cell = Cell {
        background: Rgb { r: 255, g: 0, b: 9 },
        foreground: Rgb { r: 10, g: 99, b: 100 },
    };
    assert_eq!(
        text(encode_cell(cell, ColorMode::Truecolor)),
        "\x1b[48;2;255;0;9m\x1b[38;2;10;99;100m\u{2584}"
    );
}

#[test]
fn palette_cell_writes_cube_indices() {
    let cell = Cell {
        background: Rgb { r: 255, g: 0, b: 0 },
        foreground: Rgb { r: 255, g: 255, b: 255 },
    };
    assert_eq!(
        text(encode_cell(cell, ColorMode::Palette256)),
        "\x1b[48;5;196m\x1b[38;5;231m\u{2584}"
    );
}

#[test]
fn glyph_is_the_lower_half_block_in_utf8() {
    let black = Rgb { r: 0, g: 0, b: 0 };
    let bytes = encode_cell(Cell { background: black, foreground: black }, ColorMode::Palette256);
    assert_eq!(&bytes[bytes.len() - 3..], &[0xe2, 0x96, 0x84]);
}

#[test]
fn red_square_is_one_line_of_red_cells() {
    let bitmap = solid(2, 2, Rgb { r: 255, g: 0, b: 0 });
    let out = text(render(&bitmap, ColorMode::Truecolor));
    let cell = "\x1b[48;2;255;0;0m\x1b[38;2;255;0;0m\u{2584}";
    assert_eq!(out, format!("{cell}{cell}\x1b[0m\n"));
    assert_eq!(out.lines().count(), 1);
}

#[test]
fn single_black_pixel_is_index_16_twice() {
    let bitmap = solid(1, 1, Rgb { r: 0, g: 0, b: 0 });
    let out = text(render(&bitmap, ColorMode::Palette256));
    assert_eq!(out, "\x1b[48;5;16m\x1b[38;5;16m\u{2584}\x1b[0m\n");
}

#[test]
fn upper_pixel_is_background_and_lower_is_foreground() {
    // One column, two rows: (1,2,3) over (4,5,6).
    let bitmap = Bitmap::from_raw(1, 2, vec![1, 2, 3, 4, 5, 6]).unwrap();
    let cell = cell_at(&bitmap, 0, 0);
    assert_eq!(cell.background, Rgb { r: 1, g: 2, b: 3 });
    assert_eq!(cell.foreground, Rgb { r: 4, g: 5, b: 6 });
    assert_eq!(
        text(render(&bitmap, ColorMode::Truecolor)),
        "\x1b[48;2;1;2;3m\x1b[38;2;4;5;6m\u{2584}\x1b[0m\n"
    );
}

#[test]
fn last_row_of_an_odd_image_pairs_with_itself() {
    // One column, three rows.
    let bitmap = Bitmap::from_raw(1, 3, vec![10, 0, 0, 20, 0, 0, 30, 0, 0]).unwrap();
    assert_eq!(count_lines(&bitmap), 2);
    let first = cell_at(&bitmap, 0, 0);
    assert_eq!(first.background, Rgb { r: 10, g: 0, b: 0 });
    assert_eq!(first.foreground, Rgb { r: 20, g: 0, b: 0 });
    let last = cell_at(&bitmap, 0, 1);
    assert_eq!(last.background, Rgb { r: 30, g: 0, b: 0 });
    assert_eq!(last.foreground, Rgb { r: 30, g: 0, b: 0 });
    assert_eq!(
        text(render_line(&bitmap, 1, ColorMode::Truecolor)),
        "\x1b[48;2;30;0;0m\x1b[38;2;30;0;0m\u{2584}\x1b[0m\n"
    );
}

#[test]
fn lines_come_from_top_to_bottom_and_cells_from_left_to_right() {
    // Two columns, four rows; the red channel numbers the pixels.
    let mut data = Vec::new();
    for i in 0..8u8 {
        data.extend_from_slice(&[i, 0, 0]);
    }
    let bitmap = Bitmap::from_raw(2, 4, data).unwrap();
    assert_eq!(count_lines(&bitmap), 2);
    let expected = "\x1b[48;2;0;0;0m\x1b[38;2;2;0;0m\u{2584}\
                    \x1b[48;2;1;0;0m\x1b[38;2;3;0;0m\u{2584}\x1b[0m\n\
                    \x1b[48;2;4;0;0m\x1b[38;2;6;0;0m\u{2584}\
                    \x1b[48;2;5;0;0m\x1b[38;2;7;0;0m\u{2584}\x1b[0m\n";
    assert_eq!(text(render(&bitmap, ColorMode::Truecolor)), expected);
    let mut joined = render_line(&bitmap, 0, ColorMode::Truecolor);
    joined.extend(render_line(&bitmap, 1, ColorMode::Truecolor));
    assert_eq!(text(joined), expected);
}

#[test]
fn image_without_rows_draws_nothing() {
    let bitmap = Bitmap::from_raw(3, 0, Vec::new()).unwrap();
    assert_eq!(count_lines(&bitmap), 0);
    assert!(render(&bitmap, ColorMode::Truecolor).is_empty());
}

#[test]
fn image_without_columns_draws_empty_lines() {
    let bitmap = Bitmap::from_raw(0, 4, Vec::new()).unwrap();
    assert_eq!(text(render(&bitmap, ColorMode::Palette256)), "\x1b[0m\n\x1b[0m\n");
}

#[test]
fn numbers_have_no_leading_zeros() {
    for v in [0u8, 9, 10, 99, 100, 101, 255] {
        let c = Rgb { r: v, g: v, b: v };
        let out = text(encode_cell(Cell { background: c, foreground: c }, ColorMode::Truecolor));
        assert_eq!(out, format!("\x1b[48;2;{v};{v};{v}m\x1b[38;2;{v};{v};{v}m\u{2584}"));
    }
}

#[test]
fn bitmap_wants_three_bytes_a_pixel() {
    assert!(Bitmap::from_raw(2, 2, vec![0; 12]).is_some());
    assert!(Bitmap::from_raw(2, 2, vec![0; 11]).is_none());
    assert!(Bitmap::from_raw(2, 2, vec![0; 13]).is_none());
    assert!(Bitmap::from_raw(0, 0, Vec::new()).is_some());
    assert!(Bitmap::from_raw(u32::MAX, u32::MAX, vec![0; 3]).is_none());
}

#[test]
fn bitmap_reads_pixels_row_by_row() {
    let data: Vec<u8> = (0..18).collect();
    let bitmap = Bitmap::from_raw(3, 2, data.clone()).unwrap();
    assert_eq!(bitmap.width(), 3);
    assert_eq!(bitmap.height(), 2);
    assert_eq!(bitmap.as_raw(), &data);
    assert_eq!(bitmap.pixel(0, 0), Rgb { r: 0, g: 1, b: 2 });
    assert_eq!(bitmap.pixel(2, 0), Rgb { r: 6, g: 7, b: 8 });
    assert_eq!(bitmap.pixel(0, 1), Rgb { r: 9, g: 10, b: 11 });
    assert_eq!(bitmap.pixel(2, 1), Rgb { r: 15, g: 16, b: 17 });
}
