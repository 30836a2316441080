use sensehat::{convert_from_pixel, convert_to_pixel, Display, Orientation, Pixel, SenseHatError};

const ALL: [Orientation; 4] =
    [Orientation::Deg0, Orientation::Deg90, Orientation::Deg180, Orientation::Deg270];

fn turned(o: Orientation) -> Display {
    let mut d = Display::new();
    assert_eq!(d.set_rotation(o, false), None);
    d
}

fn sample_grid() -> [Pixel; 64] {
    let mut grid = [(0u8, 0u8, 0u8); 64];
    for (i, p) in grid.iter_mut().enumerate() {
        *p = ((i as u8) * 4, 255 - (i as u8) * 3, (i as u8) * 2 + 1);
    }
    grid
}

fn word(frame: &[u8; 128], cell: usize) -> u16 {
    frame[2 * cell] as u16 | (frame[2 * cell + 1] as u16) << 8
}

#[test]
fn new_display_is_blank_and_upright() {
    let d = Display::new();
    assert_eq!(d.get_pixels(), [(0, 0, 0); 64]);
    assert_eq!(d.draw(), [0u8; 128]);
    assert_eq!(d.map_position(1, 0), 2);
    assert_eq!(d.rotation(), Orientation::Deg0);
}

#[test]
fn rotation_is_what_was_set() {
    for o in ALL {
        assert_eq!(turned(o).rotation(), o);
        let mut d = Display::new();
        d.set_rotation(o, true);
        assert_eq!(d.rotation(), o);
    }
}

#[test]
fn map_position_per_orientation() {
    assert_eq!(turned(Orientation::Deg0).map_position(2, 3), 2 * (2 + 8 * 3));
    assert_eq!(turned(Orientation::Deg90).map_position(2, 3), 2 * (4 + 8 * 2));
    assert_eq!(turned(Orientation::Deg180).map_position(2, 3), 2 * (63 - 26));
    assert_eq!(turned(Orientation::Deg270).map_position(2, 3), 2 * (3 + 8 * 5));
    assert_eq!(turned(Orientation::Deg0).map_position(0, 0), 0);
    assert_eq!(turned(Orientation::Deg90).map_position(0, 0), 14);
    assert_eq!(turned(Orientation::Deg180).map_position(0, 0), 126);
    assert_eq!(turned(Orientation::Deg270).map_position(0, 0), 112);
    assert_eq!(turned(Orientation::Deg0).map_position(7, 7), 126);
    assert_eq!(turned(Orientation::Deg90).map_position(7, 7), 112);
    assert_eq!(turned(Orientation::Deg180).map_position(7, 7), 0);
    assert_eq!(turned(Orientation::Deg270).map_position(7, 7), 14);
}

#[test]
fn map_position_is_a_bijection() {
    for o in ALL {
        let d = turned(o);
        let mut seen = [false; 64];
        for y in 0..8 {
            for x in 0..8 {
                let pos = d.map_position(x, y);
                assert_eq!(pos % 2, 0);
                assert!(pos / 2 < 64);
                assert!(!seen[pos / 2]);
                seen[pos / 2] = true;
            }
        }
        assert!(seen.iter().all(|&s| s));
    }
}

#[test]
fn clear_none_blanks_every_pixel() {
    let mut d = Display::new();
    d.set_pixels(&sample_grid());
    let sent = d.clear(None);
    assert_eq!(sent, [0u8; 128]);
    assert_eq!(d.get_pixels(), [(0, 0, 0); 64]);
}

#[test]
fn clear_red_then_get_pixel() {
    let mut d = Display::new();
    let sent = d.clear(Some((255, 0, 0)));
    for cell in 0..64 {
        assert_eq!(sent[2 * cell], 0x00);
        assert_eq!(sent[2 * cell + 1], 0xF8);
    }
    assert_eq!(d.get_pixel(3, 3), Ok((248, 0, 0)));
    assert_eq!(d.get_pixel(3, 3), Ok(convert_to_pixel(convert_from_pixel((255, 0, 0)))));
    assert_eq!(d.get_pixels(), [(248, 0, 0); 64]);
}

#[test]
fn clear_sends_the_buffer_unturned() {
    let mut d = turned(Orientation::Deg90);
    d.set_pixel(0, 0, (255, 255, 255)).unwrap();
    d.set_rotation(Orientation::Deg180, false);
    let sent = d.clear(Some((0, 0, 255)));
    for cell in 0..64 {
        assert_eq!(word(&sent, cell), 0x001F);
    }
    assert_eq!(d.draw(), sent);
}

#[test]
fn set_pixel_turned_quarter_then_get_pixel() {
    let mut d = turned(Orientation::Deg90);
    let sent = d.set_pixel(0, 0, (255, 255, 255)).unwrap();
    // The logical cell 0 is shown in the physical cell 7.
    for cell in 0..64 {
        assert_eq!(word(&sent, cell), if cell == 7 { 0xFFFF } else { 0 });
    }
    // Read through the orientation, (0, 7) is the logical cell 0.
    assert_eq!(d.get_pixel(0, 7), Ok((248, 224, 248)));
    assert_eq!(d.get_pixel(0, 0), Ok((0, 0, 0)));
    // Read as a whole, the grid is not turned.
    let grid = d.get_pixels();
    assert_eq!(grid[0], (248, 224, 248));
    assert_eq!(grid[56], (0, 0, 0));
}

#[test]
fn set_pixel_writes_low_byte_first() {
    let mut d = Display::new();
    let sent = d.set_pixel(2, 1, (0x12, 0x34, 0x56)).unwrap();
    let w = convert_from_pixel((0x12, 0x34, 0x56));
    assert_eq!(w, 0x11AA);
    assert_eq!(sent[20], 0xAA);
    assert_eq!(sent[21], 0x11);
    assert_eq!(sent.iter().filter(|&&b| b != 0).count(), 2);
    assert_eq!(d.get_pixel(2, 1), Ok(convert_to_pixel(w)));
}

#[test]
fn pixel_out_of_bounds_is_refused() {
    let mut d = Display::new();
    d.set_pixels(&sample_grid());
    let before = d.get_pixels();
    assert_eq!(d.set_pixel(8, 0, (1, 2, 3)), Err(SenseHatError::OutOfBounds));
    assert_eq!(d.set_pixel(0, 8, (1, 2, 3)), Err(SenseHatError::OutOfBounds));
    assert_eq!(d.set_pixel(usize::MAX, usize::MAX, (1, 2, 3)), Err(SenseHatError::OutOfBounds));
    assert_eq!(d.get_pixel(8, 7), Err(SenseHatError::OutOfBounds));
    assert_eq!(d.get_pixel(7, 8), Err(SenseHatError::OutOfBounds));
    assert_eq!(d.get_pixels(), before);
    assert!(d.set_pixel(7, 7, (1, 2, 3)).is_ok());
    assert!(d.get_pixel(7, 7).is_ok());
}

#[test]
fn set_pixels_then_get_pixels() {
    let grid = sample_grid();
    for o in ALL {
        let mut d = turned(o);
        d.set_pixels(&grid);
        let back = d.get_pixels();
        for i in 0..64 {
            assert_eq!(back[i], convert_to_pixel(convert_from_pixel(grid[i])));
        }
    }
}

#[test]
fn set_pixels_upright_sends_packed_words_in_order() {
    let grid = sample_grid();
    let mut d = Display::new();
    let sent = d.set_pixels(&grid);
    for i in 0..64 {
        assert_eq!(word(&sent, i), convert_from_pixel(grid[i]));
    }
}

#[test]
fn draw_moves_each_cell_to_its_physical_place() {
    let grid = sample_grid();
    for o in ALL {
        let mut d = turned(o);
        let sent = d.set_pixels(&grid);
        assert_eq!(d.draw(), sent);
        for y in 0..8 {
            for x in 0..8 {
                let pos = d.map_position(x, y);
                assert_eq!(word(&sent, pos / 2), convert_from_pixel(grid[x + 8 * y]));
            }
        }
    }
}

#[test]
fn draw_half_turn_reverses_the_cells() {
    let grid = sample_grid();
    let mut d = turned(Orientation::Deg180);
    let sent = d.set_pixels(&grid);
    for i in 0..64 {
        assert_eq!(word(&sent, 63 - i), convert_from_pixel(grid[i]));
    }
}

#[test]
fn get_pixel_reads_through_the_orientation() {
    let grid = sample_grid();
    let mut d = Display::new();
    d.set_pixels(&grid);
    let stored = d.get_pixels();
    d.set_rotation(Orientation::Deg270, false);
    // (x, y) = (1, 2) maps to the cell 2 + 8 * 6.
    assert_eq!(d.get_pixel(1, 2), Ok(stored[50]));
    d.set_rotation(Orientation::Deg180, false);
    assert_eq!(d.get_pixel(1, 2), Ok(stored[63 - 17]));
    d.set_rotation(Orientation::Deg0, false);
    assert_eq!(d.get_pixel(1, 2), Ok(stored[17]));
}

#[test]
fn set_rotation_redraws_only_on_request() {
    let grid = sample_grid();
    let mut d = Display::new();
    let upright = d.set_pixels(&grid);
    assert_eq!(d.set_rotation(Orientation::Deg90, false), None);
    let sent = d.set_rotation(Orientation::Deg90, true).unwrap();
    assert_ne!(sent, upright);
    assert_eq!(word(&sent, 7), convert_from_pixel(grid[0]));
    assert_eq!(d.set_rotation(Orientation::Deg0, true), Some(upright));
    // The buffer itself never turned.
    for i in 0..64 {
        assert_eq!(d.get_pixels()[i], convert_to_pixel(convert_from_pixel(grid[i])));
    }
}

#[test]
fn flip_h_reverses_rows() {
    let mut d = Display::new();
    d.set_pixels(&sample_grid());
    let before = d.get_pixels();
    let (flipped, sent) = d.flip_h(true);
    assert!(sent.is_some());
    for y in 0..8 {
        for x in 0..8 {
            assert_eq!(flipped[x + 8 * y], before[(7 - x) + 8 * y]);
        }
    }
    assert_eq!(d.get_pixels(), flipped);
    assert_eq!(sent.unwrap(), d.draw());
}

#[test]
fn flip_v_exchanges_rows() {
    let mut d = Display::new();
    d.set_pixels(&sample_grid());
    let before = d.get_pixels();
    let (flipped, sent) = d.flip_v(true);
    assert!(sent.is_some());
    for y in 0..8 {
        for x in 0..8 {
            assert_eq!(flipped[x + 8 * y], before[x + 8 * (7 - y)]);
        }
    }
    assert_eq!(d.get_pixels(), flipped);
    assert_eq!(sent.unwrap(), d.draw());
}

#[test]
fn flip_without_redraw_leaves_the_buffer() {
    let mut d = Display::new();
    d.set_pixels(&sample_grid());
    let before = d.get_pixels();
    let (flipped, sent) = d.flip_h(false);
    assert_eq!(sent, None);
    assert_ne!(flipped, before);
    assert_eq!(d.get_pixels(), before);
    let (flipped, sent) = d.flip_v(false);
    assert_eq!(sent, None);
    assert_ne!(flipped, before);
    assert_eq!(d.get_pixels(), before);
}

#[test]
fn flip_twice_restores_the_grid() {
    for o in ALL {
        let mut d = turned(o);
        d.set_pixels(&sample_grid());
        let before = d.get_pixels();
        d.flip_h(true);
        let (again, _) = d.flip_h(true);
        assert_eq!(again, before);
        assert_eq!(d.get_pixels(), before);
        d.flip_v(true);
        let (again, _) = d.flip_v(true);
        assert_eq!(again, before);
        assert_eq!(d.get_pixels(), before);
    }
}
