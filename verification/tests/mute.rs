use game_flow::button::Interaction;
use game_flow::mute::{
    apply_mute, interact_mute_button, AudioSource, Mixer, MutePress, Muted, VolumeChange,
};

#[test]
fn sound_is_on_at_first() {
    assert_eq!(Muted::default(), Muted(false));
}

#[test]
fn effective_volume_is_base_or_nothing() {
    assert_eq!(apply_mute(360, Muted(false)), 360);
    assert_eq!(apply_mute(360, Muted(true)), 0);
    assert_eq!(apply_mute(0, Muted(false)), 0);
    assert_eq!(apply_mute(u32::MAX, Muted(false)), u32::MAX);
    assert_eq!(apply_mute(u32::MAX, Muted(true)), 0);
}

#[test]
fn press_mutes_and_dims_the_icon() {
    let mut muted = Muted(false);
    let press = interact_mute_button(&[Interaction::Pressed], 1, &mut muted);
    assert_eq!(muted, Muted(true));
    assert_eq!(press, Some(MutePress { global_volume: 0, icon_opacity: 200 }));
}

#[test]
fn second_press_unmutes_and_restores_the_icon() {
    let mut muted = Muted(true);
    let press = interact_mute_button(&[Interaction::Pressed], 1, &mut muted);
    assert_eq!(muted, Muted(false));
    assert_eq!(press, Some(MutePress { global_volume: 1000, icon_opacity: 700 }));
}

#[test]
fn mute_button_ignores_what_is_no_press() {
    let cases: [(&[Interaction], usize); 6] = [
        (&[], 1),
        (&[Interaction::Hovered], 1),
        (&[Interaction::Idle], 1),
        (&[Interaction::Hovered, Interaction::Pressed], 1),
        (&[Interaction::Pressed], 0),
        (&[Interaction::Pressed], 2),
    ];
    for flag in [false, true] {
        for (changed, icons) in cases {
            let mut muted = Muted(flag);
            assert_eq!(interact_mute_button(changed, icons, &mut muted), None);
            assert_eq!(muted, Muted(flag));
        }
    }
}

#[test]
fn mute_round_trip_restores_the_base_volume() {
    let mut mixer = Mixer::new();
    assert!(mixer.assign_base_volume(7, 360));
    assert!(mixer.assign_base_volume(9, 1000));
    let mut muted = Muted::default();
    assert_eq!(
        mixer.on_muted_changed(muted),
        vec![VolumeChange { id: 7, volume: 360 }, VolumeChange { id: 9, volume: 1000 }]
    );

    interact_mute_button(&[Interaction::Pressed], 1, &mut muted);
    assert_eq!(
        mixer.on_muted_changed(muted),
        vec![VolumeChange { id: 7, volume: 0 }, VolumeChange { id: 9, volume: 0 }]
    );
    assert_eq!(mixer.base_volume(7), Some(360));
    assert_eq!(mixer.base_volume(9), Some(1000));

    interact_mute_button(&[Interaction::Pressed], 1, &mut muted);
    assert_eq!(
        mixer.on_muted_changed(muted),
        vec![VolumeChange { id: 7, volume: 360 }, VolumeChange { id: 9, volume: 1000 }]
    );
}

#[test]
fn base_volume_is_taken_at_first_sight_only() {
    let mut mixer = Mixer::new();
    assert_eq!(mixer.base_volume(3), None);
    assert_eq!(mixer.position(3), None);
    assert!(mixer.assign_base_volume(3, 360));
    // The source is seen again while muted, at volume zero: the base stays.
    assert!(!mixer.assign_base_volume(3, 0));
    assert_eq!(mixer.base_volume(3), Some(360));
    assert_eq!(mixer.position(3), Some(0));
    assert_eq!(mixer.on_muted_changed(Muted(false)), vec![VolumeChange { id: 3, volume: 360 }]);
}

#[test]
fn source_added_later_is_ducked_too() {
    let mut mixer = Mixer::new();
    mixer.assign_base_volume(1, 360);
    let muted = Muted(true);
    mixer.assign_base_volume(2, 800);
    assert_eq!(
        mixer.on_muted_changed(muted),
        vec![VolumeChange { id: 1, volume: 0 }, VolumeChange { id: 2, volume: 0 }]
    );
    assert_eq!(
        mixer.on_muted_changed(Muted(false)),
        vec![VolumeChange { id: 1, volume: 360 }, VolumeChange { id: 2, volume: 800 }]
    );
}

#[test]
fn retune_sets_a_new_base_volume() {
    let mut mixer = Mixer::new();
    mixer.assign_base_volume(1, 360);
    mixer.assign_base_volume(2, 500);
    assert_eq!(mixer.retune(1, 660, Muted(false)), VolumeChange { id: 1, volume: 660 });
    assert_eq!(mixer.base_volume(1), Some(660));
    assert_eq!(mixer.base_volume(2), Some(500));
    assert_eq!(mixer.position(1), Some(0));
    assert_eq!(
        mixer.on_muted_changed(Muted(false)),
        vec![VolumeChange { id: 1, volume: 660 }, VolumeChange { id: 2, volume: 500 }]
    );
}

#[test]
fn retune_takes_in_a_source_not_seen_before() {
    let mut mixer = Mixer::new();
    mixer.assign_base_volume(1, 360);
    assert_eq!(mixer.retune(5, 660, Muted(false)), VolumeChange { id: 5, volume: 660 });
    assert_eq!(mixer.base_volume(5), Some(660));
    assert_eq!(mixer.position(5), Some(1));
    assert_eq!(mixer.base_volume(1), Some(360));
}

#[test]
fn retune_while_muted_stays_silent_until_unmuted() {
    let mut mixer = Mixer::new();
    mixer.assign_base_volume(1, 360);
    let mut muted = Muted(true);
    assert_eq!(mixer.retune(1, 660, muted), VolumeChange { id: 1, volume: 0 });
    assert_eq!(mixer.base_volume(1), Some(660));
    assert_eq!(mixer.on_muted_changed(muted), vec![VolumeChange { id: 1, volume: 0 }]);

    interact_mute_button(&[Interaction::Pressed], 1, &mut muted);
    assert_eq!(muted, Muted(false));
    assert_eq!(mixer.on_muted_changed(muted), vec![VolumeChange { id: 1, volume: 660 }]);
}

#[test]
fn empty_mixer_has_nothing_to_duck() {
    let mixer = Mixer::new();
    assert!(mixer.on_muted_changed(Muted(true)).is_empty());
    let source = AudioSource { id: 1, base_volume: 2 };
    assert_eq!(source, AudioSource { id: 1, base_volume: 2 });
}
