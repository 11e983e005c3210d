use ratatui::buffer::Buffer;
use ratatui::layout::Rect as TermRect;
use ratatui::style::{Color, Modifier};

use render3d::color::Rgb;
use render3d::framebuffer::{Framebuffer, Tone};
use render3d::rect::Rect;
use render3d::render_mode::{ascii_cell, braille_cell, half_block_cell, RenderMode};

fn area(x: u16, y: u16, width: u16, height: u16) -> Rect {
    Rect { x, y, width, height }
}

fn dark(n: usize) -> Vec<Tone> {
    vec![Tone { lit: false, ramp: 0 }; n]
}

#[test]
fn pixel_size_half_block_doubles_rows() {
    assert_eq!(RenderMode::HalfBlock.pixel_size(area(3, 4, 80, 25)), (80, 50));
}

#[test]
fn pixel_size_braille_is_two_by_four() {
    assert_eq!(RenderMode::Braille.pixel_size(area(0, 0, 80, 25)), (160, 100));
}

#[test]
fn pixel_size_ascii_is_one_to_one() {
    assert_eq!(RenderMode::Ascii.pixel_size(area(7, 1, 80, 25)), (80, 25));
}

#[test]
fn pixel_size_of_largest_area() {
    assert_eq!(
        RenderMode::Braille.pixel_size(area(0, 0, u16::MAX, u16::MAX)),
        (131070, 262140)
    );
}

#[test]
fn default_mode_is_half_block() {
    assert_eq!(RenderMode::default(), RenderMode::HalfBlock);
}

#[test]
fn half_block_cell_takes_upper_and_lower_pixels() {
    // 1 x 3 grid: rows red, green, blue.
    let fb = Framebuffer::from_colors(
        1,
        3,
        vec![Rgb(255, 0, 0), Rgb(0, 255, 0), Rgb(0, 0, 255)],
    )
    .unwrap();
    let c0 = half_block_cell(&fb, 0, 0);
    assert_eq!(c0.symbol, '\u{2580}');
    assert_eq!(c0.fg, Rgb(255, 0, 0));
    assert_eq!(c0.bg, Rgb(0, 255, 0));
    // Second row: upper pixel is blue, lower lies outside the grid.
    let c1 = half_block_cell(&fb, 0, 1);
    assert_eq!(c1.fg, Rgb(0, 0, 255));
    assert_eq!(c1.bg, Rgb(0, 0, 0));
    // Outside the grid entirely.
    let c2 = half_block_cell(&fb, 5, 0);
    assert_eq!(c2.fg, Rgb(0, 0, 0));
    assert_eq!(c2.bg, Rgb(0, 0, 0));
}

#[test]
fn braille_cell_with_no_lit_dot_is_blank_black() {
    let fb = Framebuffer::new(2, 4);
    let c = braille_cell(&fb, &dark(8), 0, 0);
    assert_eq!(c.symbol, '\u{2800}');
    assert_eq!(c.fg, Rgb(0, 0, 0));
    assert_eq!(c.bg, Rgb(0, 0, 0));
}

#[test]
fn braille_cell_sets_dot_bits_and_averages_colors() {
    // 2 x 4 grid, row-major; light the top-left (dot 1, bit 0x01) and the
    // bottom-right (dot 8, bit 0x80) pixels.
    let mut colors = vec![Rgb(0, 0, 0); 8];
    colors[0] = Rgb(200, 10, 0);
    colors[7] = Rgb(100, 31, 255);
    let fb = Framebuffer::from_colors(2, 4, colors).unwrap();
    let mut tones = dark(8);
    tones[0].lit = true;
    tones[7].lit = true;
    let c = braille_cell(&fb, &tones, 0, 0);
    assert_eq!(c.symbol as u32, 0x2800 + 0x81);
    assert_eq!(c.fg, Rgb(150, 20, 127));
    assert_eq!(c.bg, Rgb(0, 0, 0));
}

#[test]
fn braille_cell_all_dots_is_full_block() {
    let fb = Framebuffer::from_colors(2, 4, vec![Rgb(9, 9, 9); 8]).unwrap();
    let tones = vec![Tone { lit: true, ramp: 3 }; 8];
    let c = braille_cell(&fb, &tones, 0, 0);
    assert_eq!(c.symbol, '\u{28FF}');
    assert_eq!(c.fg, Rgb(9, 9, 9));
}

#[test]
fn braille_dot_bits_follow_unicode_numbering() {
    // Left column top to bottom: 0x01, 0x02, 0x04, 0x40;
    // right column: 0x08, 0x10, 0x20, 0x80.
    let expected = [
        [0x01u32, 0x02, 0x04, 0x40],
        [0x08u32, 0x10, 0x20, 0x80],
    ];
    for dx in 0..2usize {
        for dy in 0..4usize {
            let fb = Framebuffer::new(2, 4);
            let mut tones = dark(8);
            tones[dy * 2 + dx].lit = true;
            let c = braille_cell(&fb, &tones, 0, 0);
            assert_eq!(c.symbol as u32, 0x2800 + expected[dx][dy]);
        }
    }
}

#[test]
fn braille_lit_pixels_outside_the_cell_do_not_count() {
    // 4 x 4 grid: the second cell (col 1) has one lit pixel.
    let fb = Framebuffer::from_colors(4, 4, vec![Rgb(40, 40, 40); 16]).unwrap();
    let mut tones = dark(16);
    tones[2].lit = true; // pixel (2, 0): cell 1, dot (0, 0)
    assert_eq!(braille_cell(&fb, &tones, 0, 0).symbol, '\u{2800}');
    assert_eq!(braille_cell(&fb, &tones, 1, 0).symbol, '\u{2801}');
    assert_eq!(braille_cell(&fb, &tones, 1, 0).fg, Rgb(40, 40, 40));
}

#[test]
fn ascii_cell_uses_ramp_and_clamps() {
    let fb = Framebuffer::from_colors(3, 1, vec![Rgb(1, 2, 3), Rgb(4, 5, 6), Rgb(7, 8, 9)]).unwrap();
    let tones = vec![
        Tone { lit: false, ramp: 0 },
        Tone { lit: true, ramp: 4 },
        Tone { lit: true, ramp: 42 },
    ];
    let c0 = ascii_cell(&fb, &tones, 0, 0);
    assert_eq!(c0.symbol, ' ');
    assert_eq!(c0.fg, Rgb(1, 2, 3));
    assert_eq!(c0.bg, Rgb(0, 0, 0));
    assert_eq!(ascii_cell(&fb, &tones, 1, 0).symbol, '=');
    let c2 = ascii_cell(&fb, &tones, 2, 0);
    assert_eq!(c2.symbol, '@');
    assert_eq!(c2.fg, Rgb(7, 8, 9));
    // Outside the grid: black, start of the ramp.
    let c3 = ascii_cell(&fb, &tones, 3, 0);
    assert_eq!(c3.symbol, ' ');
    assert_eq!(c3.fg, Rgb(0, 0, 0));
}

#[test]
fn ascii_ramp_runs_dark_to_bright() {
    let fb = Framebuffer::from_colors(10, 1, vec![Rgb(1, 1, 1); 10]).unwrap();
    let tones: Vec<Tone> = (0..10).map(|i| Tone { lit: true, ramp: i }).collect();
    let s: String = (0..10u16).map(|c| ascii_cell(&fb, &tones, c, 0).symbol).collect();
    assert_eq!(s, " .:-=+*#%@");
}

#[test]
fn blit_half_block_writes_area_only() {
    let fb = Framebuffer::from_colors(2, 2, vec![Rgb(10, 0, 0), Rgb(20, 0, 0), Rgb(30, 0, 0), Rgb(40, 0, 0)])
        .unwrap();
    let tones = dark(4);
    let mut buf = Buffer::empty(TermRect::new(0, 0, 5, 3));
    RenderMode::HalfBlock.blit(&fb, &tones, area(1, 1, 3, 1), &mut buf);
    let cell = &buf[(1u16, 1u16)];
    assert_eq!(cell.symbol(), "\u{2580}");
    assert_eq!(cell.fg, Color::Rgb(10, 0, 0));
    assert_eq!(cell.bg, Color::Rgb(30, 0, 0));
    let cell = &buf[(2u16, 1u16)];
    assert_eq!(cell.fg, Color::Rgb(20, 0, 0));
    assert_eq!(cell.bg, Color::Rgb(40, 0, 0));
    // Column 2 of the area lies outside the framebuffer: black.
    let cell = &buf[(3u16, 1u16)];
    assert_eq!(cell.symbol(), "\u{2580}");
    assert_eq!(cell.fg, Color::Rgb(0, 0, 0));
    assert_eq!(cell.bg, Color::Rgb(0, 0, 0));
    // Cells outside the area keep their content.
    for (x, y) in [(0u16, 0u16), (0, 1), (4, 1), (2, 0), (2, 2)] {
        assert_eq!(buf[(x, y)].symbol(), " ");
        assert_eq!(buf[(x, y)].fg, Color::Reset);
    }
}

#[test]
fn blit_braille_draws_dots() {
    let fb = Framebuffer::from_colors(2, 4, vec![Rgb(50, 60, 70); 8]).unwrap();
    let mut tones = dark(8);
    tones[0].lit = true;
    let mut buf = Buffer::empty(TermRect::new(0, 0, 2, 1));
    RenderMode::Braille.blit(&fb, &tones, area(0, 0, 2, 1), &mut buf);
    assert_eq!(buf[(0u16, 0u16)].symbol(), "\u{2801}");
    assert_eq!(buf[(0u16, 0u16)].fg, Color::Rgb(50, 60, 70));
    assert_eq!(buf[(0u16, 0u16)].bg, Color::Rgb(0, 0, 0));
    assert_eq!(buf[(1u16, 0u16)].symbol(), "\u{2800}");
    assert_eq!(buf[(1u16, 0u16)].fg, Color::Rgb(0, 0, 0));
}

#[test]
fn blit_ascii_draws_ramp_characters() {
    let fb = Framebuffer::from_colors(2, 1, vec![Rgb(1, 1, 1), Rgb(250, 250, 250)]).unwrap();
    let tones = vec![Tone { lit: false, ramp: 1 }, Tone { lit: true, ramp: 9 }];
    let mut buf = Buffer::empty(TermRect::new(10, 20, 4, 4));
    RenderMode::Ascii.blit(&fb, &tones, area(11, 21, 2, 1), &mut buf);
    assert_eq!(buf[(11u16, 21u16)].symbol(), ".");
    assert_eq!(buf[(11u16, 21u16)].fg, Color::Rgb(1, 1, 1));
    assert_eq!(buf[(12u16, 21u16)].symbol(), "@");
    assert_eq!(buf[(12u16, 21u16)].fg, Color::Rgb(250, 250, 250));
    assert_eq!(buf[(12u16, 21u16)].bg, Color::Rgb(0, 0, 0));
    assert_eq!(buf[(13u16, 21u16)].symbol(), " ");
}

#[test]
fn try_blit_refuses_area_outside_buffer() {
    let fb = Framebuffer::new(4, 4);
    let tones = dark(16);
    let mut buf = Buffer::empty(TermRect::new(0, 0, 3, 3));
    let before = buf.clone();
    assert!(!RenderMode::Ascii.try_blit(&fb, &tones, area(1, 1, 3, 1), &mut buf));
    assert_eq!(buf, before);
    assert!(!RenderMode::Ascii.try_blit(&fb, &tones, area(0, 5, 1, 1), &mut buf));
    assert_eq!(buf, before);
}

#[test]
fn try_blit_draws_when_area_fits() {
    let fb = Framebuffer::from_colors(1, 1, vec![Rgb(5, 6, 7)]).unwrap();
    let tones = vec![Tone { lit: true, ramp: 5 }];
    let mut buf = Buffer::empty(TermRect::new(2, 2, 3, 3));
    assert!(RenderMode::Ascii.try_blit(&fb, &tones, area(2, 2, 3, 3), &mut buf));
    assert_eq!(buf[(2u16, 2u16)].symbol(), "+");
    assert_eq!(buf[(2u16, 2u16)].fg, Color::Rgb(5, 6, 7));
    assert_eq!(buf[(4u16, 4u16)].symbol(), " ");
    assert_eq!(buf[(4u16, 4u16)].fg, Color::Rgb(0, 0, 0));
}

#[test]
fn try_blit_refuses_buffer_with_short_content() {
    let fb = Framebuffer::new(1, 1);
    let tones = dark(1);
    let mut buf = Buffer::empty(TermRect::new(0, 0, 2, 2));
    buf.content.truncate(3);
    let before = buf.clone();
    assert!(!RenderMode::HalfBlock.try_blit(&fb, &tones, area(0, 0, 2, 2), &mut buf));
    assert_eq!(buf, before);
    assert!(RenderMode::HalfBlock.try_blit(&fb, &tones, area(0, 0, 2, 1), &mut buf));
}

#[test]
fn try_blit_empty_area_changes_nothing() {
    let fb = Framebuffer::new(1, 1);
    let tones = dark(1);
    let mut buf = Buffer::empty(TermRect::new(0, 0, 2, 2));
    let before = buf.clone();
    assert!(RenderMode::Braille.try_blit(&fb, &tones, area(50, 50, 0, 3), &mut buf));
    assert_eq!(buf, before);
}

#[test]
fn pixel_size_covers_exactly_the_sampled_pixels() {
    // Every pixel of the reported resolution is drawn by some cell: light
    // each pixel alone and find the one braille cell that changes.
    let a = area(0, 0, 2, 1);
    let (w, h) = RenderMode::Braille.pixel_size(a);
    let fb = Framebuffer::new(w, h);
    for py in 0..h {
        for px in 0..w {
            let mut tones = dark((w * h) as usize);
            tones[(py * w + px) as usize].lit = true;
            let mut lit_cells = 0;
            for col in 0..a.width {
                for row in 0..a.height {
                    if braille_cell(&fb, &tones, col, row).symbol != '\u{2800}' {
                        lit_cells += 1;
                        assert_eq!((col as u32, row as u32), (px / 2, py / 4));
                    }
                }
            }
            assert_eq!(lit_cells, 1);
        }
    }
}

#[test]
fn blit_keeps_modifiers_skip_and_area() {
    let fb = Framebuffer::from_colors(1, 1, vec![Rgb(9, 8, 7)]).unwrap();
    let tones = vec![Tone { lit: true, ramp: 2 }];
    let mut buf = Buffer::empty(TermRect::new(0, 0, 3, 2));
    buf[(0u16, 0u16)].modifier = Modifier::BOLD | Modifier::ITALIC;
    buf[(0u16, 0u16)].skip = true;
    buf[(2u16, 1u16)].modifier = Modifier::UNDERLINED;
    buf[(2u16, 1u16)].fg = Color::Indexed(5);
    let before = buf.clone();
    RenderMode::Ascii.blit(&fb, &tones, area(0, 0, 2, 1), &mut buf);
    assert_eq!(buf.area, before.area);
    let cell = &buf[(0u16, 0u16)];
    assert_eq!(cell.symbol(), ":");
    assert_eq!(cell.fg, Color::Rgb(9, 8, 7));
    assert_eq!(cell.bg, Color::Rgb(0, 0, 0));
    assert_eq!(cell.modifier, Modifier::BOLD | Modifier::ITALIC);
    assert!(cell.skip);
    // Outside the area every field is as it was.
    assert_eq!(buf[(2u16, 1u16)], before[(2u16, 1u16)]);
    assert_eq!(buf[(0u16, 1u16)], before[(0u16, 1u16)]);
}

#[test]
fn ascii_brighter_pixel_never_gets_darker_character() {
    let ramp = " .:-=+*#%@";
    let fb = Framebuffer::from_colors(20, 1, vec![Rgb(3, 3, 3); 20]).unwrap();
    let tones: Vec<Tone> = (0..20).map(|i| Tone { lit: i > 1, ramp: i }).collect();
    let rank = |c: char| ramp.find(c).unwrap();
    for a in 0..20u16 {
        for b in a..20u16 {
            assert!(rank(ascii_cell(&fb, &tones, a, 0).symbol) <= rank(ascii_cell(&fb, &tones, b, 0).symbol));
        }
    }
}
