use chip8::display::{pixel_rect, surface_size, PIXEL_SIZE};
use chip8::{Chip8, Color, Display, EdgeMode, Keyboard, Opcode};

fn lit_pixels(d: &Display) -> Vec<(u8, u8)> {
    let mut out = Vec::new();
    for y in 0..32u8 {
        for x in 0..64u8 {
            if d.pixel(x, y) == Color::White {
                out.push((x, y));
            }
        }
    }
    out
}

fn sprite_machine(sprite: &[u8], edges: EdgeMode) -> Chip8 {
    let mut m = Chip8::new().with_edges(edges);
    for (k, b) in sprite.iter().enumerate() {
        m.memory.set(0x300 + k as u16, *b);
    }
    m.cpu.i = 0x300;
    m
}

#[test]
fn color_toggles() {
    assert_eq!(Color::White.not(), Color::Black);
    assert_eq!(Color::Black.not(), Color::White);
    assert_eq!(Color::default(), Color::Black);
    assert!(Color::White.is_lit());
    assert!(!Color::Black.is_lit());
}

#[test]
fn color_components() {
    assert_eq!(Color::White.rgb(), (255, 255, 255));
    assert_eq!(Color::Black.rgb(), (0, 0, 0));
}

#[test]
fn a_new_display_is_blank_and_clean() {
    let d = Display::new();
    assert!(lit_pixels(&d).is_empty());
    assert!(!d.dirty);
    assert_eq!(d, Display::default());
    assert_eq!(Display::SURW, 64);
    assert_eq!(Display::SURH, 32);
}

#[test]
fn set_pixel_toggles_and_reports_unsetting() {
    let mut d = Display::new();
    assert!(!d.set_pixel(10, 20));
    assert_eq!(d.pixel(10, 20), Color::White);
    assert_eq!(lit_pixels(&d), vec![(10, 20)]);
    assert!(d.set_pixel(10, 20));
    assert_eq!(d.pixel(10, 20), Color::Black);
    assert!(lit_pixels(&d).is_empty());
}

#[test]
fn set_pixel_reaches_the_corners() {
    let mut d = Display::new();
    for (x, y) in [(0, 0), (63, 0), (0, 31), (63, 31)] {
        assert!(!d.set_pixel(x, y));
    }
    assert_eq!(lit_pixels(&d), vec![(0, 0), (63, 0), (0, 31), (63, 31)]);
}

#[test]
fn clear_unsets_everything_and_marks_dirty() {
    let mut d = Display::new();
    d.set_pixel(1, 2);
    d.set_pixel(3, 4);
    assert!(d.update_screen().is_some());
    d.clear();
    assert!(lit_pixels(&d).is_empty());
    assert!(d.dirty);
}

#[test]
fn update_screen_hands_out_a_changed_frame_once() {
    let mut d = Display::new();
    assert_eq!(d.update_screen(), None);
    d.set_pixel(5, 6);
    let frame = d.update_screen().unwrap();
    assert_eq!(frame[5][6], Color::White);
    assert_eq!(frame[6][5], Color::Black);
    assert_eq!(frame, d.pixels);
    assert_eq!(d.update_screen(), None);
    assert_eq!(d.pixel(5, 6), Color::White);
}

#[test]
fn draw_row_puts_the_high_bit_leftmost() {
    let mut d = Display::new();
    assert!(!d.draw_row(8, 3, 0b1000_0001, EdgeMode::Clip));
    assert_eq!(lit_pixels(&d), vec![(8, 3), (15, 3)]);
    assert!(d.dirty);
}

#[test]
fn draw_row_reports_an_erased_pixel() {
    let mut d = Display::new();
    d.set_pixel(9, 3);
    assert!(d.draw_row(8, 3, 0b1100_0000, EdgeMode::Wrap));
    assert_eq!(lit_pixels(&d), vec![(8, 3)]);
    assert!(!d.draw_row(10, 3, 0b1000_0000, EdgeMode::Wrap));
}

#[test]
fn draw_row_wraps_or_clips_at_the_right_edge() {
    let mut d = Display::new();
    d.draw_row(60, 0, 0xFF, EdgeMode::Wrap);
    assert_eq!(
        lit_pixels(&d),
        vec![(0, 0), (1, 0), (2, 0), (3, 0), (60, 0), (61, 0), (62, 0), (63, 0)]
    );
    let mut d = Display::new();
    d.draw_row(60, 0, 0xFF, EdgeMode::Clip);
    assert_eq!(lit_pixels(&d), vec![(60, 0), (61, 0), (62, 0), (63, 0)]);
}

#[test]
fn draw_row_with_a_start_beyond_the_display() {
    let mut d = Display::new();
    d.draw_row(200, 1, 0b1010_0000, EdgeMode::Wrap);
    assert_eq!(lit_pixels(&d), vec![(8, 1), (10, 1)]);
    let mut d = Display::new();
    d.draw_row(200, 1, 0b1010_0000, EdgeMode::Clip);
    assert!(lit_pixels(&d).is_empty());
    assert!(d.dirty);
}

#[test]
fn draw_sprite_draws_rows_downwards() {
    let mut m = sprite_machine(&[0x80, 0x40, 0x20], EdgeMode::Wrap);
    m.cpu.v.set(0xF, 9);
    m.draw_sprite(4, 5, 3);
    assert_eq!(lit_pixels(&m.display), vec![(4, 5), (5, 6), (6, 7)]);
    assert_eq!(m.cpu.v.get(0xF), 0);
    assert_eq!(m.cpu.i, 0x300);
    assert!(m.display.dirty);
}

#[test]
fn draw_sprite_of_no_rows_resets_the_flag() {
    let mut m = sprite_machine(&[0xFF], EdgeMode::Wrap);
    m.cpu.v.set(0xF, 1);
    m.draw_sprite(0, 0, 0);
    assert!(lit_pixels(&m.display).is_empty());
    assert_eq!(m.cpu.v.get(0xF), 0);
}

#[test]
fn draw_sprite_sets_the_flag_on_collision() {
    let mut m = sprite_machine(&[0xF0, 0x0F], EdgeMode::Wrap);
    m.display.set_pixel(7, 1);
    m.draw_sprite(0, 0, 2);
    assert_eq!(m.cpu.v.get(0xF), 1);
    assert_eq!(
        lit_pixels(&m.display),
        vec![(0, 0), (1, 0), (2, 0), (3, 0), (4, 1), (5, 1), (6, 1)]
    );
}

#[test]
fn drawing_twice_restores_the_display() {
    for edges in [EdgeMode::Wrap, EdgeMode::Clip] {
        let mut m = sprite_machine(&[0xF0, 0x90, 0x90, 0x90, 0xF0, 0xAA, 0x55], edges);
        m.display.set_pixel(60, 30);
        m.display.set_pixel(0, 0);
        m.display.set_pixel(20, 12);
        let before = m.display.pixels;
        m.draw_sprite(60, 29, 7);
        assert_ne!(m.display.pixels, before);
        let first = m.cpu.v.get(0xF);
        m.draw_sprite(60, 29, 7);
        assert_eq!(m.display.pixels, before);
        assert_eq!(first, 1);
        assert_eq!(m.cpu.v.get(0xF), 1);
        assert_eq!(m.cpu.i, 0x300);
    }
}

#[test]
fn the_second_draw_on_a_blank_display_collides() {
    let mut m = sprite_machine(&[0xFF], EdgeMode::Wrap);
    m.draw_sprite(0, 0, 1);
    assert_eq!(m.cpu.v.get(0xF), 0);
    m.draw_sprite(0, 0, 1);
    assert_eq!(m.cpu.v.get(0xF), 1);
    assert!(lit_pixels(&m.display).is_empty());
}

#[test]
fn draw_sprite_wraps_around_both_edges() {
    let mut m = sprite_machine(&[0xC0, 0xC0], EdgeMode::Wrap);
    m.draw_sprite(63, 31, 2);
    assert_eq!(lit_pixels(&m.display), vec![(0, 0), (63, 0), (0, 31), (63, 31)]);
    assert_eq!(m.cpu.v.get(0xF), 0);
}

#[test]
fn draw_sprite_clips_at_both_edges() {
    let mut m = sprite_machine(&[0xC0, 0xC0], EdgeMode::Clip);
    m.draw_sprite(63, 31, 2);
    assert_eq!(lit_pixels(&m.display), vec![(63, 31)]);
    let mut m = sprite_machine(&[0xC0, 0xC0], EdgeMode::Clip);
    m.draw_sprite(64, 0, 2);
    assert!(lit_pixels(&m.display).is_empty());
    let mut m = sprite_machine(&[0xC0, 0xC0], EdgeMode::Clip);
    m.draw_sprite(0, 32, 2);
    assert!(lit_pixels(&m.display).is_empty());
}

#[test]
fn draw_sprite_wraps_its_start_coordinates() {
    let mut m = sprite_machine(&[0x80], EdgeMode::Wrap);
    m.draw_sprite(64 + 3, 32 + 4, 1);
    assert_eq!(lit_pixels(&m.display), vec![(3, 4)]);
    let mut m = sprite_machine(&[0x80], EdgeMode::Wrap);
    m.draw_sprite(255, 255, 1);
    assert_eq!(lit_pixels(&m.display), vec![(63, 31)]);
}

#[test]
fn draw_reads_the_sprite_around_the_end_of_memory() {
    let mut m = Chip8::new();
    m.memory.set(0xFFF, 0x80);
    m.memory.set(0x000, 0x40);
    m.cpu.i = 0xFFF;
    m.draw_sprite(0, 0, 2);
    assert_eq!(lit_pixels(&m.display), vec![(0, 0), (1, 1)]);
    assert_eq!(m.cpu.i, 0xFFF);
}

#[test]
fn draw_uses_the_low_twelve_bits_of_the_address_register() {
    let mut m = Chip8::new();
    m.cpu.i = 0xF000;
    m.draw_sprite(0, 0, 5);
    let mut n = Chip8::new();
    n.cpu.i = 0x0000;
    n.draw_sprite(0, 0, 5);
    assert_eq!(m.display, n.display);
    assert_eq!(lit_pixels(&m.display).len(), 14);
}

#[test]
fn draw_instruction_takes_its_place_from_the_registers() {
    // V1 = 10, V2 = 3, I = glyph of 1, draw 5 rows at (V1, V2)
    let mut m = Chip8::from_game(vec![0x61, 0x0A, 0x62, 0x03, 0xA0, 0x05, 0xD1, 0x25]).unwrap();
    let kbd = Keyboard::released();
    m.run(&kbd, 3).unwrap();
    assert_eq!(m.step(&kbd), Ok(Opcode::Draw { x: 1, y: 2, n: 5 }));
    // rows of the glyph of 1: 0x20 0x60 0x20 0x20 0x70
    assert_eq!(
        lit_pixels(&m.display),
        vec![(12, 3), (11, 4), (12, 4), (12, 5), (12, 6), (11, 7), (12, 7), (13, 7)]
    );
    assert_eq!(m.cpu.v.get(0xF), 0);
    assert_eq!(m.cpu.i, 0x005);
    assert_eq!(m.cpu.pc, 0x208);
}

#[test]
fn clear_instruction_blanks_the_display() {
    let mut m = Chip8::from_game(vec![0x00, 0xE0]).unwrap();
    m.display.set_pixel(1, 1);
    m.display.update_screen();
    assert_eq!(m.step(&Keyboard::released()), Ok(Opcode::Clear));
    assert!(lit_pixels(&m.display).is_empty());
    assert!(m.display.dirty);
    assert_eq!(m.cpu.pc, 0x202);
}

#[test]
fn clear_then_index_then_draw_shows_the_glyph_of_zero() {
    let mut m = Chip8::from_game(vec![0x00, 0xE0, 0xA0, 0x00, 0xD0, 0x05]).unwrap();
    let kbd = Keyboard::released();
    assert_eq!(m.step(&kbd), Ok(Opcode::Clear));
    assert_eq!(m.step(&kbd), Ok(Opcode::Index { addr: 0x000 }));
    assert_eq!(m.step(&kbd), Ok(Opcode::Draw { x: 0, y: 0, n: 5 }));
    let glyph = ["####", "#  #", "#  #", "#  #", "####"];
    for y in 0..32u8 {
        for x in 0..64u8 {
            let want = (y as usize) < 5
                && (x as usize) < 4
                && glyph[y as usize].as_bytes()[x as usize] == b'#';
            assert_eq!(m.display.pixel(x, y) == Color::White, want, "pixel ({}, {})", x, y);
        }
    }
    assert_eq!(m.cpu.v.get(0xF), 0);
    assert_eq!(m.cpu.i, 0x000);
    assert_eq!(m.cpu.pc, 0x206);
    assert!(m.display.dirty);
}

#[test]
fn the_glyph_of_zero_by_its_bits() {
    let mut m = Chip8::from_game(vec![0x00, 0xE0, 0xA0, 0x00, 0xD0, 0x05]).unwrap();
    m.run(&Keyboard::released(), 3).unwrap();
    let rows = [0xF0u8, 0x90, 0x90, 0x90, 0xF0];
    for y in 0..32u8 {
        for x in 0..64u8 {
            let want = x < 8 && y < 5 && (rows[y as usize] >> (7 - x)) & 1 == 1;
            assert_eq!(m.display.pixel(x, y) == Color::White, want);
        }
    }
    assert_eq!(m.cpu.v.get(0xF), 0);
}

#[test]
fn drawing_from_empty_memory_draws_nothing() {
    let mut m = Chip8::from_game(vec![0x00, 0xE0, 0xA3, 0x00, 0xD0, 0x05]).unwrap();
    m.run(&Keyboard::released(), 3).unwrap();
    assert!(lit_pixels(&m.display).is_empty());
    assert_eq!(m.cpu.v.get(0xF), 0);
}

#[test]
fn host_geometry() {
    assert_eq!(PIXEL_SIZE, 16);
    assert_eq!(surface_size(64, 32), Some((1024, 512)));
    assert_eq!(surface_size(0, 0), Some((0, 0)));
    assert_eq!(surface_size(0x1000_0000, 1), None);
    assert_eq!(surface_size(1, 0x1000_0000), None);
    assert_eq!(surface_size(0x0FFF_FFFF, 1), Some((0xFFFF_FFF0, 16)));
    assert_eq!(pixel_rect(0, 0), (0, 0, 16));
    assert_eq!(pixel_rect(63, 31), (1008, 496, 16));
    assert_eq!(pixel_rect(255, 255), (4080, 4080, 16));
}

#[test]
fn a_sprite_as_tall_as_the_display_draws_and_undraws() {
    for edges in [EdgeMode::Wrap, EdgeMode::Clip] {
        let rows: Vec<u8> = (0..32u8).map(|k| k.wrapping_mul(37) | 1).collect();
        let mut m = sprite_machine(&rows, edges);
        m.display.set_pixel(7, 0);
        m.display.set_pixel(30, 9);
        let before = m.display.pixels;
        m.draw_sprite(0, 0, 32);
        assert_eq!(m.cpu.v.get(0xF), 1);
        for y in 0..32u8 {
            assert_eq!(m.display.pixel(7, y) == Color::White, y != 0);
        }
        m.draw_sprite(0, 0, 32);
        assert_eq!(m.display.pixels, before);
    }
}
