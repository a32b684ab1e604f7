use dear_imgui_ash::pixels::{
    apply_rgba_rect, clamp_rect, texture_data_to_rgba_full, texture_data_to_rgba_subrect,
    texture_upload_to_rgba, TextureDataView, TextureFormat, TextureRect,
};

fn texture(format: TextureFormat, width: u32, height: u32, pixels: &[u8]) -> TextureDataView {
    TextureDataView {
        format,
        width,
        height,
        pixels: Some(pixels.to_vec()),
    }
}

#[test]
fn texture_subrect_rgba32() {
    let pixels: [u8; 16] = [
        10, 20, 30, 40, // (0,0)
        50, 60, 70, 80, // (1,0)
        90, 100, 110, 120, // (0,1)
        130, 140, 150, 160, // (1,1)
    ];
    let tex = texture(TextureFormat::RGBA32, 2, 2, &pixels);

    let out = texture_data_to_rgba_subrect(&tex, 1, 0, 1, 1).unwrap();
    assert_eq!(out, vec![50, 60, 70, 80]);
}

#[test]
fn texture_subrect_alpha8() {
    let alphas: [u8; 4] = [0, 64, 128, 255];
    let tex = texture(TextureFormat::Alpha8, 2, 2, &alphas);

    let out = texture_data_to_rgba_subrect(&tex, 0, 1, 2, 1).unwrap();
    assert_eq!(
        out,
        vec![
            255, 255, 255, 128, //
            255, 255, 255, 255,
        ]
    );
}

#[test]
fn request_upload_rgba32_honors_row_pitch() {
    let pixels = [
        10, 20, 30, 40, 50, 60, 70, 80, 1, 2, 3, 4, // row 0 plus padding
        90, 100, 110, 120, 130, 140, 150, 160, 5, 6, 7, 8, // row 1 plus padding
    ];

    let out = texture_upload_to_rgba(TextureFormat::RGBA32, 2, 2, 12, &pixels).unwrap();
    assert_eq!(
        out,
        vec![
            10, 20, 30, 40, 50, 60, 70, 80, 90, 100, 110, 120, 130, 140, 150, 160,
        ]
    );
}

#[test]
fn request_upload_alpha8_honors_row_pitch() {
    let pixels = [10, 20, 99, 30, 40, 88];

    let out = texture_upload_to_rgba(TextureFormat::Alpha8, 2, 2, 3, &pixels).unwrap();
    assert_eq!(
        out,
        vec![
            255, 255, 255, 10, 255, 255, 255, 20, 255, 255, 255, 30, 255, 255, 255, 40,
        ]
    );
}

#[test]
fn upload_rejects_short_pitch_short_buffer_and_empty_size() {
    assert_eq!(texture_upload_to_rgba(TextureFormat::RGBA32, 2, 2, 7, &[0; 16]), None);
    assert_eq!(texture_upload_to_rgba(TextureFormat::RGBA32, 2, 2, 8, &[0; 15]), None);
    assert_eq!(texture_upload_to_rgba(TextureFormat::Alpha8, 0, 2, 1, &[0; 4]), None);
    assert_eq!(texture_upload_to_rgba(TextureFormat::Alpha8, 2, 0, 2, &[0; 4]), None);
    // The last row needs only its packed bytes, not a whole pitch.
    assert_eq!(
        texture_upload_to_rgba(TextureFormat::Alpha8, 1, 2, 3, &[7, 0, 0, 9]),
        Some(vec![255, 255, 255, 7, 255, 255, 255, 9])
    );
}

#[test]
fn subrect_is_clipped_and_rejects_outside_origins() {
    let tex = texture(TextureFormat::Alpha8, 2, 2, &[1, 2, 3, 4]);
    assert_eq!(
        texture_data_to_rgba_subrect(&tex, 1, 1, 5, 5),
        Some(vec![255, 255, 255, 4])
    );
    assert_eq!(texture_data_to_rgba_subrect(&tex, 2, 0, 1, 1), None);
    assert_eq!(texture_data_to_rgba_subrect(&tex, 0, 0, 0, 1), None);
    let missing = TextureDataView {
        format: TextureFormat::RGBA32,
        width: 1,
        height: 1,
        pixels: None,
    };
    assert_eq!(texture_data_to_rgba_subrect(&missing, 0, 0, 1, 1), None);
    assert_eq!(
        texture_data_to_rgba_full(&tex),
        Some(vec![255, 255, 255, 1, 255, 255, 255, 2, 255, 255, 255, 3, 255, 255, 255, 4])
    );
}

#[test]
fn rgba_rect_is_copied_into_place() {
    let mut destination = vec![0_u8; 3 * 2 * 4];
    let source = [1, 2, 3, 4, 5, 6, 7, 8];
    assert!(apply_rgba_rect(&mut destination, 3, 2, 1, 1, 2, 1, &source));
    assert_eq!(
        destination,
        vec![
            0, 0, 0, 0, 0, 0, 0, 0, 0, 0, 0, 0, //
            0, 0, 0, 0, 1, 2, 3, 4, 5, 6, 7, 8,
        ]
    );
}

#[test]
fn rgba_rect_rejects_out_of_bounds_and_mismatched_lengths() {
    let mut destination = vec![9_u8; 2 * 2 * 4];
    assert!(!apply_rgba_rect(&mut destination, 2, 2, 1, 0, 2, 1, &[0; 8]));
    assert!(!apply_rgba_rect(&mut destination, 2, 2, 0, 0, 1, 1, &[0; 3]));
    assert!(!apply_rgba_rect(&mut destination, 3, 2, 0, 0, 1, 1, &[0; 4]));
    assert_eq!(destination, vec![9_u8; 16]);
}

#[test]
fn clamp_rect_clips_to_the_texture() {
    let rect = TextureRect { x: 3, y: 1, w: 10, h: 2 };
    assert_eq!(clamp_rect(rect, 5, 4), (3, 1, 2, 2));
    let outside = TextureRect { x: 9, y: 0, w: 1, h: 1 };
    assert_eq!(clamp_rect(outside, 5, 4), (5, 0, 0, 0));
    let empty = TextureRect { x: 1, y: 1, w: 0, h: 3 };
    assert_eq!(clamp_rect(empty, 5, 4), (1, 1, 0, 0));
}
