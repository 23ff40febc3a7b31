use gameboy::ppu::Color;

#[test]
fn test_from_int() {
    // Ensures 6 higher bits are not taken into account
    assert!(matches!(Color::from_int(0b1111_1111), Color::Black));
    assert!(matches!(Color::from_int(0b1010_1010), Color::DGray));
    assert!(matches!(Color::from_int(0b0101_0101), Color::LGray));
    assert!(matches!(Color::from_int(0b1001_1000), Color::White));
}

use gameboy::ppu::shade;
use gameboy::ppu::tile_pixel;
use gameboy::ppu::weight_of_column;
use gameboy::ppu::Ppu;
use gameboy::ppu::PPU_STAT_INTERRUPT;
use gameboy::ppu::PPU_VBLANK_INTERRUPT;

fn mode_of(ppu: &Ppu) -> u8 {
    ppu.read_status() & 0x03
}

fn set_tile_row(ppu: &mut Ppu, vram_at: u16, low: u8, high: u8) {
    ppu.write_vram(0x8000 + vram_at, low);
    ppu.write_vram(0x8000 + vram_at + 1, high);
}

fn set_sprite(ppu: &mut Ppu, n: u16, y: u8, x: u8, tile: u8, flags: u8) {
    ppu.write_oam(0xFE00 + 4 * n, y);
    ppu.write_oam(0xFE00 + 4 * n + 1, x);
    ppu.write_oam(0xFE00 + 4 * n + 2, tile);
    ppu.write_oam(0xFE00 + 4 * n + 3, flags);
}

#[test]
fn ppu_starts_with_the_display_off() {
    let ppu: Ppu = Default::default();
    assert_eq!(ppu.read_control(), 0);
    assert_eq!(ppu.read_ly(), 0);
    assert_eq!(ppu.read_lyc(), 0);
    assert_eq!(ppu.read_scx(), 0);
    assert_eq!(ppu.read_scy(), 0);
    assert_eq!(ppu.read_wx(), 0);
    assert_eq!(ppu.read_wy(), 0);
    assert_eq!(ppu.read_bgp(), 0xE4);
    assert_eq!(ppu.interrupt(), 0);
    assert_eq!(mode_of(&ppu), 2);
}

#[test]
fn cycle_does_nothing_while_the_display_is_off() {
    let mut ppu: Ppu = Default::default();
    ppu.cycle(100_000);
    assert_eq!(ppu.read_ly(), 0);
    assert_eq!(ppu.ticks, 0);
    assert_eq!(ppu.interrupt(), 0);
    assert_eq!(mode_of(&ppu), 2);
}

#[test]
fn modes_follow_the_dot_budget() {
    let mut ppu: Ppu = Default::default();
    ppu.write_control(0x80);
    ppu.cycle(79);
    assert_eq!(mode_of(&ppu), 2);
    ppu.cycle(1);
    assert_eq!(mode_of(&ppu), 3);
    ppu.cycle(171);
    assert_eq!(mode_of(&ppu), 3);
    ppu.cycle(1);
    assert_eq!(mode_of(&ppu), 0);
    ppu.cycle(203);
    assert_eq!(mode_of(&ppu), 0);
    assert_eq!(ppu.read_ly(), 0);
    ppu.cycle(1);
    assert_eq!(mode_of(&ppu), 2);
    assert_eq!(ppu.read_ly(), 1);
    assert_eq!(ppu.ticks, 0);
}

#[test]
fn vblank_lasts_ten_lines() {
    let mut ppu: Ppu = Default::default();
    ppu.write_control(0x80);
    ppu.cycle(456 * 144 - 1);
    assert_eq!(ppu.read_ly(), 143);
    assert_eq!(mode_of(&ppu), 0);
    ppu.cycle(1);
    assert_eq!(ppu.read_ly(), 144);
    assert_eq!(mode_of(&ppu), 1);
    ppu.cycle(456 * 10 - 1);
    assert_eq!(ppu.read_ly(), 153);
    assert_eq!(mode_of(&ppu), 1);
    ppu.cycle(1);
    assert_eq!(ppu.read_ly(), 0);
    assert_eq!(mode_of(&ppu), 2);
}

#[test]
fn a_frame_raises_vblank_once_and_brings_ly_back() {
    for lead in [0u32, 1, 455, 456, 12_345, 65_663, 65_664, 70_223] {
        let mut ppu: Ppu = Default::default();
        ppu.write_control(0x80);
        ppu.cycle(lead);
        ppu.ack();
        let ly = ppu.read_ly();
        let ticks = ppu.ticks;
        let mut raised = 0;
        for _ in 0..70_224 {
            ppu.cycle(1);
            if ppu.interrupt() & PPU_VBLANK_INTERRUPT != 0 {
                raised += 1;
                ppu.ack();
            }
        }
        assert_eq!(raised, 1);
        assert_eq!(ppu.read_ly(), ly);
        assert_eq!(ppu.ticks, ticks);
    }
}

#[test]
fn a_frame_in_one_call_is_a_frame_in_many() {
    let mut whole: Ppu = Default::default();
    let mut parts: Ppu = Default::default();
    whole.write_control(0x80);
    parts.write_control(0x80);
    whole.cycle(70_224);
    for _ in 0..(70_224 / 4) {
        parts.cycle(4);
    }
    assert_eq!(whole.read_ly(), parts.read_ly());
    assert_eq!(whole.ticks, parts.ticks);
    assert_eq!(whole.read_status(), parts.read_status());
    assert_eq!(whole.interrupt(), PPU_VBLANK_INTERRUPT);
    assert_eq!(parts.interrupt(), PPU_VBLANK_INTERRUPT);
}

#[test]
fn vblank_line_is_raised_when_ly_reaches_144() {
    let mut ppu: Ppu = Default::default();
    ppu.write_control(0x80);
    let mut transitions = 0;
    while transitions == 0 {
        let before = ppu.read_ly();
        assert_eq!(ppu.interrupt() & PPU_VBLANK_INTERRUPT, 0);
        assert!(!ppu.frame_ready);
        ppu.cycle(4);
        if before != 144 && ppu.read_ly() == 144 {
            transitions += 1;
        }
    }
    assert_eq!(ppu.interrupt() & PPU_VBLANK_INTERRUPT, PPU_VBLANK_INTERRUPT);
    assert!(ppu.take_frame());
    assert!(!ppu.take_frame());
    ppu.ack();
    // no second time during the rest of the vertical blank
    for _ in 0..(456 * 10 / 4 - 1) {
        ppu.cycle(4);
        assert_eq!(ppu.interrupt(), 0);
    }
    assert_eq!(ppu.read_ly(), 153);
}

#[test]
fn stat_line_follows_the_selected_modes() {
    let mut ppu: Ppu = Default::default();
    ppu.write_control(0x80);
    ppu.write_lyc(0xFF);
    ppu.write_status(0x08);
    ppu.cycle(251);
    assert_eq!(ppu.interrupt(), 0);
    ppu.cycle(1);
    assert_eq!(ppu.interrupt(), PPU_STAT_INTERRUPT);
    ppu.ack();
    ppu.cycle(204);
    assert_eq!(ppu.interrupt(), 0);

    ppu.write_status(0x20);
    ppu.cycle(455);
    assert_eq!(ppu.interrupt(), 0);
    ppu.cycle(1);
    assert_eq!(ppu.interrupt(), PPU_STAT_INTERRUPT);
    ppu.ack();

    ppu.write_status(0x10);
    ppu.cycle(456 * 142 - 1);
    assert_eq!(ppu.interrupt(), 0);
    ppu.cycle(1);
    assert_eq!(ppu.read_ly(), 144);
    assert_eq!(ppu.interrupt(), PPU_STAT_INTERRUPT | PPU_VBLANK_INTERRUPT);
}

#[test]
fn stat_line_follows_lyc() {
    let mut ppu: Ppu = Default::default();
    ppu.write_control(0x80);
    ppu.write_lyc(5);
    ppu.write_status(0x40);
    ppu.cycle(456 * 5 - 1);
    assert_eq!(ppu.interrupt(), 0);
    assert_eq!(ppu.read_status() & 0x04, 0);
    ppu.cycle(1);
    assert_eq!(ppu.read_ly(), 5);
    assert_eq!(ppu.interrupt(), PPU_STAT_INTERRUPT);
    assert_eq!(ppu.read_status() & 0x04, 0x04);
    ppu.ack();
    ppu.cycle(456);
    assert_eq!(ppu.interrupt(), 0);
}

#[test]
fn lyc_without_selection_raises_nothing() {
    let mut ppu: Ppu = Default::default();
    ppu.write_control(0x80);
    ppu.write_lyc(5);
    ppu.cycle(456 * 6);
    assert_eq!(ppu.interrupt(), 0);
}

#[test]
fn switching_the_display_off_resets_the_line() {
    let mut ppu: Ppu = Default::default();
    ppu.write_control(0x80);
    ppu.cycle(456 * 10 + 100);
    assert_eq!(ppu.read_ly(), 10);
    ppu.write_control(0x00);
    assert_eq!(ppu.read_ly(), 0);
    assert_eq!(ppu.ly, 0);
    assert_eq!(ppu.ticks, 0);
    assert_eq!(mode_of(&ppu), 0);
    ppu.cycle(5000);
    assert_eq!(ppu.ticks, 0);
    assert_eq!(ppu.read_ly(), 0);
    // switched on again, the unit stays in HBlank until the line ends
    ppu.write_control(0x80);
    ppu.cycle(455);
    assert_eq!(mode_of(&ppu), 0);
    ppu.cycle(1);
    assert_eq!(ppu.read_ly(), 1);
    assert_eq!(mode_of(&ppu), 2);
}

#[test]
fn writing_control_while_off_resets_nothing() {
    let mut ppu: Ppu = Default::default();
    ppu.write_control(0x13);
    assert_eq!(ppu.read_control(), 0x13);
    assert_eq!(mode_of(&ppu), 2);
}

#[test]
fn status_shows_mode_and_coincidence() {
    let mut ppu: Ppu = Default::default();
    assert_eq!(ppu.read_status(), 0x86);
    ppu.write_status(0xFF);
    assert_eq!(ppu.read_status(), 0xFE);
    ppu.write_status(0x07);
    assert_eq!(ppu.read_status(), 0x86);
    ppu.write_status(0x28);
    assert_eq!(ppu.read_status(), 0xAE);
    ppu.write_lyc(9);
    assert_eq!(ppu.read_status(), 0xAA);
}

#[test]
fn object_palettes_drop_colour_zero() {
    let mut ppu: Ppu = Default::default();
    ppu.write_obp0(0xFF);
    ppu.write_obp1(0x1B);
    ppu.write_bgp(0x1B);
    assert_eq!(ppu.read_obp0(), 0xFC);
    assert_eq!(ppu.read_obp1(), 0x18);
    assert_eq!(ppu.read_bgp(), 0x1B);
}

#[test]
fn video_ram_uses_the_low_13_bits() {
    let mut ppu: Ppu = Default::default();
    ppu.write_vram(0x8000, 0x12);
    ppu.write_vram(0x9FFF, 0x34);
    assert_eq!(ppu.read_vram(0x8000), 0x12);
    assert_eq!(ppu.read_vram(0x0000), 0x12);
    assert_eq!(ppu.read_vram(0x9FFF), 0x34);
    assert_eq!(ppu.vram[0x1FFF], 0x34);
}

#[test]
fn tile_pixels_take_one_bit_of_each_byte() {
    let expected = [0u8, 1, 2, 3, 0, 1, 2, 3];
    for col in 0..8u8 {
        assert_eq!(tile_pixel(0x55, 0x33, weight_of_column(col)), expected[col as usize]);
    }
    assert_eq!(weight_of_column(0), 0x80);
    assert_eq!(weight_of_column(7), 0x01);
}

#[test]
fn palettes_hold_four_two_bit_shades() {
    assert_eq!(shade(0xE4, 0), 0);
    assert_eq!(shade(0xE4, 1), 1);
    assert_eq!(shade(0xE4, 2), 2);
    assert_eq!(shade(0xE4, 3), 3);
    assert_eq!(shade(0x1B, 0), 3);
    assert_eq!(shade(0x1B, 1), 2);
    assert_eq!(shade(0x1B, 2), 1);
    assert_eq!(shade(0x1B, 3), 0);
    for palette in 0..=255u8 {
        for index in 0..4u8 {
            assert_eq!(shade(palette, index), (palette >> (index * 2)) & 0x03);
        }
    }
}

#[test]
fn background_is_drawn_through_the_palette() {
    let mut ppu: Ppu = Default::default();
    ppu.write_control(0x91);
    set_tile_row(&mut ppu, 0, 0x55, 0x33);
    ppu.draw();
    for x in 0..160u8 {
        assert_eq!(ppu.pixel(x, 0), x % 4);
    }
    ppu.write_bgp(0x1B);
    ppu.draw();
    for x in 0..160u8 {
        assert_eq!(ppu.pixel(x, 0), 3 - x % 4);
    }
    // other lines are not touched
    assert_eq!(ppu.pixel(1, 1), 0);
}

#[test]
fn background_scrolls_and_wraps() {
    let mut ppu: Ppu = Default::default();
    ppu.write_control(0x91);
    // tile 0: row 0 in colours 0 1 2 3 0 1 2 3, row 1 all colour 1
    set_tile_row(&mut ppu, 0, 0x55, 0x33);
    set_tile_row(&mut ppu, 2, 0xFF, 0x00);
    // tile 1: row 0 all colour 3
    set_tile_row(&mut ppu, 16, 0xFF, 0xFF);
    // the last tile of the first map row is tile 1
    ppu.write_vram(0x9800 + 31, 1);
    ppu.write_scx(2);
    ppu.draw();
    assert_eq!(ppu.pixel(0, 0), 2);
    assert_eq!(ppu.pixel(1, 0), 3);
    assert_eq!(ppu.pixel(2, 0), 0);
    ppu.write_scx(250);
    ppu.draw();
    // columns 250..255 of the picture, then column 0 again
    assert_eq!(ppu.pixel(0, 0), 3);
    assert_eq!(ppu.pixel(5, 0), 3);
    assert_eq!(ppu.pixel(6, 0), 0);
    assert_eq!(ppu.pixel(7, 0), 1);
    ppu.write_scx(0);
    ppu.write_scy(1);
    ppu.draw();
    assert_eq!(ppu.pixel(0, 0), 1);
    assert_eq!(ppu.pixel(100, 0), 1);
    // 255 + 1 wraps to row 0 of the picture
    ppu.write_scy(255);
    ppu.ly = 1;
    ppu.draw();
    assert_eq!(ppu.pixel(1, 1), 1);
    assert_eq!(ppu.pixel(3, 1), 3);
}

#[test]
fn background_tiles_by_signed_index() {
    let mut ppu: Ppu = Default::default();
    ppu.write_control(0x81);
    // tile 0 at 0x9000, tile -128 at 0x8800, tile -1 at 0x8FF0
    set_tile_row(&mut ppu, 0x1000, 0xFF, 0xFF);
    set_tile_row(&mut ppu, 0x0800, 0xFF, 0x00);
    set_tile_row(&mut ppu, 0x0FF0, 0x00, 0xFF);
    ppu.write_vram(0x9800, 0x00);
    ppu.write_vram(0x9801, 0x80);
    ppu.write_vram(0x9802, 0xFF);
    ppu.write_vram(0x9803, 0x7F);
    set_tile_row(&mut ppu, 0x17F0, 0xFF, 0x00);
    ppu.draw();
    assert_eq!(ppu.pixel(0, 0), 3);
    assert_eq!(ppu.pixel(7, 0), 3);
    assert_eq!(ppu.pixel(8, 0), 1);
    assert_eq!(ppu.pixel(15, 0), 1);
    assert_eq!(ppu.pixel(16, 0), 2);
    assert_eq!(ppu.pixel(23, 0), 2);
    assert_eq!(ppu.pixel(24, 0), 1);
}

#[test]
fn background_map_is_selected_by_bit_three() {
    let mut ppu: Ppu = Default::default();
    set_tile_row(&mut ppu, 16, 0xFF, 0x00);
    ppu.write_vram(0x9C00, 1);
    ppu.write_control(0x91);
    ppu.draw();
    assert_eq!(ppu.pixel(0, 0), 0);
    ppu.write_control(0x99);
    ppu.draw();
    assert_eq!(ppu.pixel(0, 0), 1);
    assert_eq!(ppu.pixel(8, 0), 0);
}

#[test]
fn background_rows_come_from_the_map_row() {
    let mut ppu: Ppu = Default::default();
    ppu.write_control(0x91);
    // tile 1, row 3: all colour 2
    set_tile_row(&mut ppu, 16 + 6, 0x00, 0xFF);
    // map row 2 (lines 16..23), column 4
    ppu.write_vram(0x9800 + 2 * 32 + 4, 1);
    ppu.ly = 19;
    ppu.draw();
    assert_eq!(ppu.pixel(31, 19), 0);
    assert_eq!(ppu.pixel(32, 19), 2);
    assert_eq!(ppu.pixel(39, 19), 2);
    assert_eq!(ppu.pixel(40, 19), 0);
}

#[test]
fn nothing_is_drawn_with_background_and_sprites_off() {
    let mut ppu: Ppu = Default::default();
    ppu.write_control(0x80);
    set_tile_row(&mut ppu, 0, 0xFF, 0xFF);
    ppu.data[5] = 2;
    ppu.draw();
    assert_eq!(ppu.pixel(5, 0), 2);
    assert_eq!(ppu.pixel(6, 0), 0);
}

#[test]
fn window_covers_the_background_from_wx_minus_seven() {
    let mut ppu: Ppu = Default::default();
    // window on, window map at 0x9C00
    ppu.write_control(0xF1);
    set_tile_row(&mut ppu, 16, 0xFF, 0xFF);
    set_tile_row(&mut ppu, 16 + 4, 0xFF, 0x00);
    for i in 0..32u16 {
        ppu.write_vram(0x9C00 + i, 1);
    }
    ppu.write_wx(87);
    ppu.write_wy(10);
    ppu.ly = 9;
    ppu.draw();
    assert_eq!(ppu.pixel(80, 9), 0);
    ppu.ly = 10;
    ppu.draw();
    assert_eq!(ppu.pixel(79, 10), 0);
    assert_eq!(ppu.pixel(80, 10), 3);
    assert_eq!(ppu.pixel(159, 10), 3);
    // two lines down the window shows its row 2
    ppu.ly = 12;
    ppu.draw();
    assert_eq!(ppu.pixel(79, 12), 0);
    assert_eq!(ppu.pixel(80, 12), 1);
}

#[test]
fn window_left_of_the_screen_starts_inside_its_picture() {
    let mut ppu: Ppu = Default::default();
    ppu.write_control(0xB1);
    // tile 0 row 0: colours 0 1 2 3 0 1 2 3
    set_tile_row(&mut ppu, 0, 0x55, 0x33);
    ppu.write_wx(5);
    ppu.write_scx(1);
    ppu.draw();
    // screen column 0 is window column 2
    assert_eq!(ppu.pixel(0, 0), 2);
    assert_eq!(ppu.pixel(1, 0), 3);
    assert_eq!(ppu.pixel(2, 0), 0);
}

#[test]
fn oam_search_keeps_the_first_ten_on_the_line() {
    let mut ppu: Ppu = Default::default();
    ppu.ly = 20;
    set_sprite(&mut ppu, 0, 20, 1, 0, 0);
    set_sprite(&mut ppu, 1, 21, 2, 0, 0);
    set_sprite(&mut ppu, 2, 13, 3, 0, 0);
    set_sprite(&mut ppu, 3, 12, 4, 0, 0);
    for n in 4..16u16 {
        set_sprite(&mut ppu, n, 16, n as u8, n as u8, 0x80);
    }
    ppu.oam_search();
    assert_eq!(ppu.sprite_count, 10);
    let picked: Vec<u8> = ppu.sprites.iter().map(|s| s.index).collect();
    assert_eq!(picked, vec![0, 8, 16, 20, 24, 28, 32, 36, 40, 44]);
    assert_eq!(ppu.sprites[1].y, 13);
    assert_eq!(ppu.sprites[1].x, 3);
    assert_eq!(ppu.sprites[9].x, 11);
    assert_eq!(ppu.sprites[9].tile, 11);
    assert_eq!(ppu.sprites[9].flags, 0x80);
}

#[test]
fn oam_search_counts_sixteen_lines_for_tall_sprites() {
    let mut ppu: Ppu = Default::default();
    ppu.ly = 30;
    set_sprite(&mut ppu, 5, 15, 0, 0, 0);
    set_sprite(&mut ppu, 6, 14, 0, 0, 0);
    set_sprite(&mut ppu, 7, 250, 0, 0, 0);
    ppu.oam_search();
    // sprites at y = 0 cover lines 0..7 only
    assert_eq!(ppu.sprite_count, 0);
    ppu.write_control(0x04);
    ppu.oam_search();
    assert_eq!(ppu.sprite_count, 1);
    assert_eq!(ppu.sprites[0].index, 20);
}

#[test]
fn oam_search_runs_at_the_start_of_a_line() {
    let mut ppu: Ppu = Default::default();
    ppu.write_control(0x82);
    set_sprite(&mut ppu, 3, 8, 40, 0, 0);
    // line 0 of the first frame was never searched
    ppu.cycle(455);
    assert_eq!(ppu.sprite_count, 0);
    // the other 39 sprites sit at y = 0 and cover lines 0..7
    ppu.cycle(1);
    assert_eq!(ppu.sprite_count, 10);
    ppu.cycle(456 * 7);
    assert_eq!(ppu.read_ly(), 8);
    assert_eq!(ppu.sprite_count, 1);
    assert_eq!(ppu.sprites[0].index, 12);
    assert_eq!(ppu.sprites[0].x, 40);
}

#[test]
fn sprite_is_drawn_over_the_background() {
    let mut ppu: Ppu = Default::default();
    ppu.write_control(0x93);
    // tile 2, row 0: colour 1 in columns 0..3, transparent in 4..7
    set_tile_row(&mut ppu, 32, 0xF0, 0x00);
    set_sprite(&mut ppu, 0, 2, 10, 2, 0);
    ppu.ly = 2;
    ppu.oam_search();
    ppu.draw();
    assert_eq!(ppu.pixel(9, 2), 0);
    for x in 10..14u8 {
        assert_eq!(ppu.pixel(x, 2), 1);
    }
    for x in 14..18u8 {
        assert_eq!(ppu.pixel(x, 2), 0);
    }
}

#[test]
fn sprite_flips_and_palettes() {
    let mut ppu: Ppu = Default::default();
    ppu.write_control(0x93);
    ppu.write_obp0(0xE4);
    ppu.write_obp1(0x1B);
    // tile 2: row 0 colour 1 in columns 0..3; row 7 colour 3 in column 7
    set_tile_row(&mut ppu, 32, 0xF0, 0x00);
    set_tile_row(&mut ppu, 32 + 14, 0x01, 0x01);
    ppu.ly = 2;

    set_sprite(&mut ppu, 0, 2, 10, 2, 0x20);
    ppu.oam_search();
    ppu.draw();
    assert_eq!(ppu.pixel(10, 2), 0);
    assert_eq!(ppu.pixel(13, 2), 0);
    assert_eq!(ppu.pixel(14, 2), 1);
    assert_eq!(ppu.pixel(17, 2), 1);

    set_sprite(&mut ppu, 0, 2, 10, 2, 0x40);
    ppu.oam_search();
    ppu.draw();
    assert_eq!(ppu.pixel(10, 2), 0);
    assert_eq!(ppu.pixel(16, 2), 0);
    assert_eq!(ppu.pixel(17, 2), 3);

    set_sprite(&mut ppu, 0, 2, 10, 2, 0x60);
    ppu.oam_search();
    ppu.draw();
    assert_eq!(ppu.pixel(10, 2), 3);
    assert_eq!(ppu.pixel(11, 2), 0);

    set_sprite(&mut ppu, 0, 2, 10, 2, 0x10);
    ppu.oam_search();
    ppu.draw();
    // colour 1 through OBP1 = 0x18: shade 2
    assert_eq!(ppu.pixel(10, 2), 2);
}

#[test]
fn sprite_with_priority_hides_behind_the_background() {
    let mut ppu: Ppu = Default::default();
    ppu.write_control(0x93);
    // background: tile 0 row 0 colours 0 1 2 3 0 1 2 3
    set_tile_row(&mut ppu, 0, 0x55, 0x33);
    // sprite tile 2 row 0: colour 3 everywhere
    set_tile_row(&mut ppu, 32, 0xFF, 0xFF);
    ppu.write_bgp(0x24);
    set_sprite(&mut ppu, 0, 0, 8, 2, 0x80);
    ppu.oam_search();
    ppu.draw();
    // behind colours 1 2 3, in front of colour 0
    assert_eq!(ppu.pixel(8, 0), 3);
    assert_eq!(ppu.pixel(9, 0), 1);
    assert_eq!(ppu.pixel(10, 0), 2);
    assert_eq!(ppu.pixel(11, 0), 0);
    assert_eq!(ppu.pixel(12, 0), 3);
    // without the priority bit the sprite covers everything
    set_sprite(&mut ppu, 0, 0, 8, 2, 0x00);
    ppu.oam_search();
    ppu.draw();
    for x in 8..16u8 {
        assert_eq!(ppu.pixel(x, 0), 3);
    }
    // with the background off, priority hides nothing
    ppu.write_control(0x92);
    set_sprite(&mut ppu, 0, 0, 8, 2, 0x80);
    ppu.oam_search();
    ppu.draw();
    for x in 8..16u8 {
        assert_eq!(ppu.pixel(x, 0), 3);
    }
}

#[test]
fn tall_sprite_uses_two_tiles() {
    let mut ppu: Ppu = Default::default();
    ppu.write_control(0x97);
    // tile 2 row 0: colour 1; tile 3 row 0: colour 2; tile 3 row 7: colour 3
    set_tile_row(&mut ppu, 32, 0xFF, 0x00);
    set_tile_row(&mut ppu, 48, 0x00, 0xFF);
    set_tile_row(&mut ppu, 48 + 14, 0xFF, 0xFF);
    set_sprite(&mut ppu, 0, 40, 0, 3, 0);
    ppu.ly = 40;
    ppu.oam_search();
    ppu.draw();
    assert_eq!(ppu.pixel(0, 40), 1);
    ppu.ly = 48;
    ppu.oam_search();
    ppu.draw();
    assert_eq!(ppu.pixel(0, 48), 2);
    ppu.ly = 55;
    ppu.oam_search();
    ppu.draw();
    assert_eq!(ppu.pixel(0, 55), 3);
    // flipped, the last row comes first
    set_sprite(&mut ppu, 0, 40, 0, 3, 0x40);
    ppu.ly = 40;
    ppu.oam_search();
    ppu.draw();
    assert_eq!(ppu.pixel(0, 40), 3);
}

#[test]
fn lower_x_wins_between_sprites() {
    let mut ppu: Ppu = Default::default();
    ppu.write_control(0x92);
    set_tile_row(&mut ppu, 16, 0xFF, 0x00);
    set_tile_row(&mut ppu, 32, 0x00, 0xFF);
    set_tile_row(&mut ppu, 48, 0xFF, 0xFF);
    set_sprite(&mut ppu, 0, 0, 12, 1, 0);
    set_sprite(&mut ppu, 1, 0, 10, 2, 0);
    set_sprite(&mut ppu, 2, 0, 12, 3, 0);
    ppu.oam_search();
    ppu.draw();
    assert_eq!(ppu.pixel(10, 0), 2);
    assert_eq!(ppu.pixel(12, 0), 2);
    assert_eq!(ppu.pixel(17, 0), 2);
    // where only the two sprites at 12 reach, the first of them wins
    assert_eq!(ppu.pixel(18, 0), 1);
    assert_eq!(ppu.pixel(19, 0), 1);
    assert_eq!(ppu.pixel(20, 0), 0);
}

#[test]
fn transparent_pixels_let_the_next_sprite_show() {
    let mut ppu: Ppu = Default::default();
    ppu.write_control(0x92);
    // tile 1: colour 1 in columns 0..3 only; tile 2: colour 2 everywhere
    set_tile_row(&mut ppu, 16, 0xF0, 0x00);
    set_tile_row(&mut ppu, 32, 0x00, 0xFF);
    set_sprite(&mut ppu, 0, 0, 10, 1, 0);
    set_sprite(&mut ppu, 1, 0, 12, 2, 0);
    ppu.oam_search();
    ppu.draw();
    assert_eq!(ppu.pixel(10, 0), 1);
    assert_eq!(ppu.pixel(13, 0), 1);
    assert_eq!(ppu.pixel(14, 0), 2);
    assert_eq!(ppu.pixel(19, 0), 2);
}

#[test]
fn sprites_are_not_drawn_when_switched_off() {
    let mut ppu: Ppu = Default::default();
    ppu.write_control(0x91);
    set_tile_row(&mut ppu, 32, 0xFF, 0xFF);
    set_sprite(&mut ppu, 0, 0, 0, 2, 0);
    ppu.oam_search();
    ppu.draw();
    assert_eq!(ppu.pixel(0, 0), 0);
}

#[test]
fn a_line_is_rendered_when_the_transfer_starts() {
    let mut ppu: Ppu = Default::default();
    ppu.write_control(0x91);
    set_tile_row(&mut ppu, 0, 0xFF, 0xFF);
    ppu.cycle(79);
    assert_eq!(ppu.pixel(0, 0), 0);
    ppu.cycle(1);
    assert_eq!(ppu.pixel(0, 0), 3);
    assert_eq!(ppu.pixel(159, 0), 3);
    assert_eq!(ppu.pixel(0, 1), 0);
}

#[test]
fn frame_pixels_have_a_colour() {
    let mut ppu: Ppu = Default::default();
    ppu.write_control(0x91);
    set_tile_row(&mut ppu, 0, 0x55, 0x33);
    ppu.draw();
    assert!(matches!(ppu.color_at(0, 0), Color::White));
    assert!(matches!(ppu.color_at(1, 0), Color::LGray));
    assert!(matches!(ppu.color_at(2, 0), Color::DGray));
    assert!(matches!(ppu.color_at(3, 0), Color::Black));
}
