use game_flow::button::{Edges, Hsla};
use game_flow::default_font::{set_default_font, setup_default_font, DefaultFont};
use game_flow::music::update_music_speed;
use game_flow::scene::{setup, setup_mute_button, white_at_opacity, ScoreText};

#[test]
fn game_starts_with_music_camera_and_hidden_score() {
    let scene = setup();
    assert_eq!(scene.music.source, "music.ogg");
    assert!(scene.music.looped);
    assert_eq!(scene.music.volume, 360);
    assert_eq!(scene.camera_height, 720);
    assert_eq!(
        scene.score_text,
        ScoreText {
            score: 0,
            font_size: 64,
            color: Hsla { hue_millidegrees: 0, saturation: 0, lightness: 1000, alpha: 1000 },
            top_margin: 20,
            visible: false,
        }
    );
}

#[test]
fn mute_button_layout() {
    let button = setup_mute_button();
    assert_eq!(button.right, 8);
    assert_eq!(button.top, 10);
    assert_eq!(button.padding, 7);
    assert_eq!(button.border, Edges { left: 1, right: 1, top: 1, bottom: 4 });
    assert_eq!(
        button.border_color,
        Hsla { hue_millidegrees: 0, saturation: 0, lightness: 0, alpha: 500 }
    );
    assert_eq!(
        button.background_color,
        Hsla { hue_millidegrees: 0, saturation: 0, lightness: 0, alpha: 0 }
    );
    assert_eq!(button.icon.image, "volume.png");
    assert_eq!(button.icon.width, 24);
    assert_eq!(button.icon.height, 24);
    assert_eq!(button.icon.color, white_at_opacity(700));
    assert_eq!(
        white_at_opacity(700),
        Hsla { hue_millidegrees: 0, saturation: 0, lightness: 1000, alpha: 700 }
    );
}

#[test]
fn font_is_installed_in_the_first_tick_it_is_loaded() {
    let mut font = DefaultFont::default();
    assert_eq!(font, DefaultFont::Unset);
    // Nothing was asked for: nothing to install, loaded or not.
    assert!(!set_default_font(&mut font, true));
    assert_eq!(font, DefaultFont::Unset);

    setup_default_font(&mut font);
    assert_eq!(font, DefaultFont::Pending);
    let loaded = [false, false, true, true, false, true];
    let mut installed_at = Vec::new();
    for (tick, loaded) in loaded.iter().enumerate() {
        if set_default_font(&mut font, *loaded) {
            installed_at.push(tick);
        }
    }
    assert_eq!(installed_at, vec![2]);
    assert_eq!(font, DefaultFont::Installed);
}

#[test]
fn font_that_never_loads_stays_pending() {
    let mut font = DefaultFont::Pending;
    for _ in 0..100 {
        assert!(!set_default_font(&mut font, false));
    }
    assert_eq!(font, DefaultFont::Pending);
}

#[test]
fn music_keeps_normal_speed_outside_a_round() {
    assert_eq!(update_music_speed(1_000_000, None, 16_000), 1_000_000);
}

#[test]
fn music_speeds_up_with_the_round() {
    // Ten seconds in: aimed at 1.15; a frame of 16 ms covers 0.128 of the way.
    assert_eq!(update_music_speed(1_000_000, Some(10_000_000), 16_000), 1_019_200);
    // A minute in: aimed at 1.9; a frame of 20 ms covers 0.16 of the way.
    assert_eq!(update_music_speed(1_000_000, Some(60_000_000), 20_000), 1_144_000);
    // At the start of a round the aim is normal speed.
    assert_eq!(update_music_speed(4_000_000, Some(0), 100_000), 1_600_000);
}

#[test]
fn frame_of_an_eighth_of_a_second_reaches_the_aim() {
    assert_eq!(update_music_speed(0, None, 125_000), 1_000_000);
    assert_eq!(update_music_speed(3_000_000, None, 125_000), 1_000_000);
}

#[test]
fn music_speed_is_held_in_range() {
    // A long frame overshoots below standstill.
    assert_eq!(update_music_speed(5_000_000, None, 250_000), 0);
    assert_eq!(update_music_speed(3_000_000, None, 500_000), 0);
    // The largest inputs aim far above the highest speed.
    assert_eq!(update_music_speed(1_000_000, Some(u64::MAX), u32::MAX), 5_000_000);
    assert_eq!(update_music_speed(u32::MAX, Some(u64::MAX), 1), 5_000_000);
}
