use picoo_desktop::qr_display::{rasterize_qr, render_modules_ascii, render_qr_ascii, render_qr_rgba, QrModules};

#[test]
fn renders_non_empty_ascii_qr() {
    let art = render_qr_ascii("{\"v\":1}").expect("qr");
    assert!(art.contains('█') || art.contains('#'));
    assert!(art.lines().count() > 5);
}

#[test]
fn renders_rgba_bitmap_with_dark_modules() {
    let (w, h, rgba) = render_qr_rgba("{\"v\":1,\"host\":\"1.2.3.4\"}", 4).expect("rgba");
    assert_eq!(w, h);
    assert!(w >= 64);
    assert_eq!(rgba.len(), (w as usize) * (h as usize) * 4);
    let dark_pixels = rgba
        .chunks_exact(4)
        .filter(|p| p[0] == 0 && p[3] == 255)
        .count();
    let light_pixels = rgba
        .chunks_exact(4)
        .filter(|p| p[0] == 255 && p[3] == 255)
        .count();
    assert!(dark_pixels > 100);
    assert!(light_pixels > dark_pixels);
}

#[test]
fn ascii_art_has_a_quiet_zone_and_one_character_per_module() {
    let art = render_qr_ascii("picoo").expect("qr");
    let rows: Vec<&str> = art.split('\n').collect();
    let side = rows.len();
    assert!(side >= 21 + 8);
    assert!(rows.iter().all(|row| row.chars().count() == side));
    assert!(rows[..4].iter().all(|row| row.chars().all(|c| c == ' ')));
    assert!(rows[4].starts_with("    █"));
    assert!(!art.ends_with('\n'));
}

#[test]
fn bitmap_side_counts_the_quiet_zone() {
    let (w, _, rgba) = render_qr_rgba("picoo", 1).expect("rgba");
    assert_eq!(w, 29);
    assert_eq!(&rgba[..4], &[255, 255, 255, 255]);
    let corner = ((4 * 29 + 4) * 4) as usize;
    assert_eq!(&rgba[corner..corner + 4], &[0, 0, 0, 255]);
}

#[test]
fn bitmap_errors_are_reported() {
    assert_eq!(render_qr_rgba("x", 0), Err("module_px must be > 0".to_string()));
    assert_eq!(render_qr_rgba("x", u32::MAX), Err("QR bitmap too large".to_string()));
    let too_long = "x".repeat(8000);
    assert_eq!(render_qr_ascii(&too_long), Err("data too long".to_string()));
    assert_eq!(render_qr_rgba(&too_long, 2), Err("data too long".to_string()));
}

#[test]
fn rasterizing_given_modules_scales_each_module() {
    let mut dark = vec![false; 21 * 21];
    dark[0] = true;
    let modules = QrModules { width: 21, dark };
    let (w, h, rgba) = rasterize_qr(&modules, 2).expect("bitmap");
    assert_eq!((w, h), (58, 58));
    let pixel = |x: usize, y: usize| &rgba[(y * 58 + x) * 4..(y * 58 + x) * 4 + 4];
    assert_eq!(pixel(8, 8), &[0, 0, 0, 255]);
    assert_eq!(pixel(9, 9), &[0, 0, 0, 255]);
    assert_eq!(pixel(10, 8), &[255, 255, 255, 255]);
    assert_eq!(pixel(7, 8), &[255, 255, 255, 255]);
    let art = render_modules_ascii(&modules);
    assert_eq!(art.split('\n').nth(4).unwrap().chars().nth(4), Some('█'));
    assert_eq!(art.split('\n').nth(4).unwrap().chars().nth(5), Some(' '));
}
