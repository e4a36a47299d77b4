use desktop_pet::dashboard::{dashboard_lines, make_progress_bar};
use desktop_pet::dialogue::{dialogue_or_fallback, ollama_prompt, ollama_reply_text};
use desktop_pet::git::configured_watch_roots;
use desktop_pet::sprite::{
    bubble_width, create_sprite_sheet, frame_count_for, frame_index, glyph_pixel_active,
    sprite_strip_pixels, strip_color, SpriteAnimator, SpriteSheet,
};
use desktop_pet::types::{PetState, RenderFrameState, VitalsVector};

#[test]
fn test_make_progress_bar() {
    let bar = make_progress_bar(50_000_000);
    assert!(bar.contains("=========="));
    assert!(bar.contains("50.0%"));
}

#[test]
fn progress_bar_exact_text() {
    assert_eq!(make_progress_bar(50_000_000), "[==========          ]  50.0%");
    assert_eq!(make_progress_bar(100_000_000), "[====================] 100.0%");
    assert_eq!(make_progress_bar(-3), "[                    ]   0.0%");
    assert_eq!(make_progress_bar(500_000_000), "[====================] 100.0%");
    assert_eq!(make_progress_bar(2_500_000), "[=                   ]   2.5%");
    assert_eq!(make_progress_bar(2_449_999), "[                    ]   2.4%");
    assert_eq!(make_progress_bar(99_950_000), "[====================] 100.0%");
    assert_eq!(make_progress_bar(12_345_678), "[==                  ]  12.3%");
}

#[test]
fn dashboard_shows_state_and_vitals() {
    let frame = RenderFrameState {
        state: PetState::Working,
        vitals: VitalsVector::default(),
        dialogue: None,
        timestamp_ms: 1234,
    };
    let lines = dashboard_lines(&frame);
    assert_eq!(lines.len(), 12);
    assert_eq!(lines[0], "=== DESKTOP PET STATUS DASHBOARD ===");
    assert_eq!(lines[1], "State    : Working");
    assert_eq!(lines[2], "Dialogue : None");
    assert_eq!(lines[3], "Timestamp: 1234 ms");
    assert_eq!(lines[6], "  Energy   : [====================] 100.0%");
    assert_eq!(lines[9], "  Affection: [================    ]  80.0%");
}

#[test]
fn test_generate_dialogue_fallback() {
    let res = dialogue_or_fallback(None, PetState::Distressed, "HighCPU");
    assert_eq!(res, "Fans are screaming! What are we compiling?");
}

#[test]
fn model_reply_and_prompt() {
    assert_eq!(
        dialogue_or_fallback(Some("Meow.".to_string()), PetState::Idle, "x"),
        "Meow."
    );
    assert_eq!(ollama_reply_text("  Nice commit!\n"), Some("Nice commit!".to_string()));
    assert_eq!(ollama_reply_text(" \n\t"), None);
    assert_eq!(
        ollama_prompt(PetState::Celebrating, "DevCommit"),
        "Context: DevCommit, State: Celebrating. Give a one-line comment."
    );
}

#[test]
fn watch_roots_from_json() {
    assert_eq!(
        configured_watch_roots(r#"["/home/u/a", "/srv/b"]"#),
        Some(vec!["/home/u/a".to_string(), "/srv/b".to_string()])
    );
    assert_eq!(configured_watch_roots("{\"a\": 1}"), None);
    assert_eq!(configured_watch_roots("not json"), None);
}

#[test]
fn sprite_sheet_frames() {
    let png = create_sprite_sheet(256, 64, (100, 200, 100, 255)).unwrap();
    let sheet = SpriteSheet::from_png_bytes(&png, 4);
    assert_eq!((sheet.frame_count, sheet.frame_width, sheet.frame_height), (4, 64, 64));
    let frame = sheet.get_frame(5);
    assert_eq!((frame.width(), frame.height()), (64, 64));
    // Frame 5 wraps to frame 1: columns 64..128. Its left column is inner
    // field colour, not border.
    let data = frame.data();
    let row = 10usize;
    assert_eq!(&data[(row * 64) * 4..(row * 64) * 4 + 4], &[100, 200, 100, 255]);
    assert!(SpriteSheet::try_from_png_bytes(b"not a png", 4).is_none());
    assert!(SpriteSheet::try_from_png_bytes(&png, 0).is_none());
}

#[test]
fn sprite_strip_has_border() {
    let px = sprite_strip_pixels(4, 5, (1, 2, 3, 4));
    assert_eq!(px.len(), 4 * 4 * 5);
    // every pixel of a 4 pixel wide strip is border
    assert!(px.chunks(4).all(|p| p == [0, 0, 0, 255]));
    let px = sprite_strip_pixels(5, 5, (1, 2, 3, 4));
    let centre = (2 * 5 + 2) * 4;
    assert_eq!(&px[centre..centre + 4], &[1, 2, 3, 4]);
}

#[test]
fn animator_holds_every_state() {
    let order = [
        PetState::Idle,
        PetState::Walking,
        PetState::Working,
        PetState::Sleeping,
        PetState::Distressed,
        PetState::Celebrating,
    ];
    let assets: Vec<Vec<u8>> = order
        .iter()
        .map(|s| create_sprite_sheet(64 * frame_count_for(*s), 64, strip_color(*s)).unwrap())
        .collect();
    let animator = SpriteAnimator::new(&assets).unwrap();
    assert_eq!(animator.sheet(PetState::Walking).frame_count, 6);
    assert_eq!(animator.sheet(PetState::Sleeping).frame_count, 4);
    assert!(SpriteAnimator::new(&assets[..5].to_vec()).is_none());
}

#[test]
fn render_geometry() {
    assert_eq!(frame_index(0), 0);
    assert_eq!(frame_index(15), 1);
    assert_eq!(frame_index(u64::MAX), ((u64::MAX / 10) % (1 << 32)) as u32);
    assert_eq!(bubble_width(0), 40);
    assert_eq!(bubble_width("Hello World!".len()), 96);
    assert_eq!(bubble_width(1000), 200);
    assert!(!glyph_pixel_active(b'A', 0, 0));
    assert!(glyph_pixel_active(b'A', 0, 1));
    assert!(glyph_pixel_active(b'A', 1, 1));
}

#[test]
fn hand_built_sheet_clips_frames_to_the_image() {
    let mut pixmap = tiny_skia::Pixmap::new(100, 10).unwrap();
    pixmap.data_mut()[4 * 99] = 7;
    let sheet = SpriteSheet { pixmap, frame_count: 4, frame_width: 40, frame_height: 20 };
    // Frame 2 starts at column 80: only 20 columns and the 10 rows exist.
    let frame = sheet.get_frame(2);
    assert_eq!((frame.width(), frame.height()), (20, 10));
    assert_eq!(frame.data()[4 * 19], 7);
    let first = sheet.get_frame(4);
    assert_eq!((first.width(), first.height()), (40, 10));
}

#[test]
fn one_pixel_strips_are_all_border() {
    assert_eq!(sprite_strip_pixels(1, 1, (1, 2, 3, 4)), vec![0, 0, 0, 255]);
    assert_eq!(sprite_strip_pixels(3, 1, (1, 2, 3, 4)).len(), 12);
    assert!(sprite_strip_pixels(0, 5, (1, 2, 3, 4)).is_empty());
    let png = create_sprite_sheet(1, 1, (1, 2, 3, 4)).unwrap();
    assert!(SpriteSheet::try_from_png_bytes(&png, 1).is_some());
}
