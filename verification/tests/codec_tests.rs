use epd_gfx::codec::{
    draw_pixel, get_pixel, join_bytes, set_all, split_byte, to_landscape, FB_LEN,
};

fn blank_buffer() -> Vec<u8> {
    vec![0x00u8; FB_LEN]
}

fn white_buffer() -> Vec<u8> {
    vec![0xFFu8; FB_LEN]
}

#[test]
fn split_then_join_restores_every_byte() {
    for b in 0..=255u8 {
        let (high, low) = split_byte(b);
        assert!(high <= 15 && low <= 15);
        assert_eq!(join_bytes(high, low), b);
    }
}

#[test]
fn join_then_split_restores_every_shade_pair() {
    for h in 0..16u8 {
        for l in 0..16u8 {
            assert_eq!(split_byte(join_bytes(h, l)), (h, l));
        }
    }
}

#[test]
fn join_masks_to_low_nibbles() {
    assert_eq!(split_byte(join_bytes(0xAB, 0xCD)), (0x0B, 0x0D));
    assert_eq!(join_bytes(0xF, 0xF), 0xFF);
    assert_eq!(join_bytes(0x8, 0xF), 0x8F);
    assert_eq!(join_bytes(0xF, 0x0), 0xF0);
    assert_eq!(join_bytes(0x0, 0x0), 0x00);
}

#[test]
fn split_byte_examples() {
    assert_eq!(split_byte(0xFF), (0xF, 0xF));
    assert_eq!(split_byte(0x8F), (0x8, 0xF));
    assert_eq!(split_byte(0xF0), (0xF, 0x0));
    assert_eq!(split_byte(0x00), (0x0, 0x0));
}

#[test]
fn to_landscape_examples() {
    assert_eq!(to_landscape(50, 100), Some((859, 50)));
    assert_eq!(to_landscape(0, 0), Some((959, 0)));
    assert_eq!(to_landscape(539, 959), Some((0, 539)));
}

#[test]
fn to_landscape_rejects_points_off_screen() {
    assert_eq!(to_landscape(-1, 0), None);
    assert_eq!(to_landscape(540, 0), None);
    assert_eq!(to_landscape(0, -1), None);
    assert_eq!(to_landscape(0, 960), None);
    assert_eq!(to_landscape(540, 960), None);
}

#[test]
fn write_then_read_returns_the_shade() {
    let mut fb = white_buffer();
    draw_pixel(&mut fb, 50, 100, 0x7);
    assert_eq!(get_pixel(&fb, 50, 100), Some(0x7));
}

#[test]
fn write_changes_one_byte_in_one_nibble() {
    let fb_before = white_buffer();
    let mut fb = white_buffer();
    draw_pixel(&mut fb, 123, 456, 0x3);
    let mut changed = Vec::new();
    for i in 0..FB_LEN {
        if fb[i] != fb_before[i] {
            changed.push(i);
        }
    }
    assert_eq!(changed.len(), 1);
    let i = changed[0];
    let diff = fb[i] ^ fb_before[i];
    // Exactly one nibble of the byte differs.
    assert!(diff & 0xF0 == 0 || diff & 0x0F == 0);
}

#[test]
fn write_keeps_the_paired_nibble() {
    let mut fb = blank_buffer();
    set_all(&mut fb, 0x5);
    draw_pixel(&mut fb, 200, 300, 0xA);
    assert_eq!(get_pixel(&fb, 200, 300), Some(0xA));
    // The pixels sharing rows and columns, including the one sharing the
    // byte, keep their shade.
    assert_eq!(get_pixel(&fb, 200, 299), Some(0x5));
    assert_eq!(get_pixel(&fb, 200, 301), Some(0x5));
    assert_eq!(get_pixel(&fb, 199, 300), Some(0x5));
    assert_eq!(get_pixel(&fb, 201, 300), Some(0x5));
}

#[test]
fn off_screen_write_is_dropped() {
    let fb_before = white_buffer();
    let mut fb = white_buffer();
    draw_pixel(&mut fb, -5, 100, 0x0);
    draw_pixel(&mut fb, 540, 0, 0x0);
    draw_pixel(&mut fb, 0, 960, 0x0);
    assert_eq!(fb, fb_before);
}

#[test]
fn set_all_writes_the_shade_into_both_nibbles() {
    let mut fb = blank_buffer();
    set_all(&mut fb, 0xF);
    assert!(fb.iter().all(|&b| b == 0xFF));
    assert_eq!(get_pixel(&fb, 0, 0), Some(0xF));
    set_all(&mut fb, 0x9);
    assert!(fb.iter().all(|&b| b == 0x99));
    assert_eq!(get_pixel(&fb, 539, 959), Some(0x9));
}

#[test]
fn get_pixel_off_screen_is_none() {
    let fb = white_buffer();
    assert_eq!(get_pixel(&fb, -1, 0), None);
    assert_eq!(get_pixel(&fb, 0, -1), None);
    assert_eq!(get_pixel(&fb, 540, 0), None);
    assert_eq!(get_pixel(&fb, 0, 960), None);
}
