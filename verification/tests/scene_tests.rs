use playfield::animated_sprites;
use playfield::color_modulation::{lower, raise, Tint};
use playfield::event::{Event, Key};
use playfield::geometry_rendering::{dotted_line, filled_rect, horizontal_line, outlined_rect};
use playfield::key_presses::{key_press, KeyPress};
use playfield::key_states::{current_image, ArrowKeys, Image};
use playfield::layout::{centered, centered_signed};
use playfield::rect::{Point, Rect};
use playfield::rotation_and_flipping::{rotation_step, Flip};
use playfield::screen::{SCREEN_HEIGHT, SCREEN_WIDTH};
use playfield::sound_effects::{sound_action, toggle_music, Effect, MusicAction, SoundAction};
use playfield::sprite_sheet;
use playfield::text_input::{handle_event, prepare_for_render, ClipboardAction, Edit};
use playfield::texture::{Blit, LTexture};
use playfield::viewport::{bottom_viewport, top_left_viewport, top_right_viewport};

fn down(key: Key) -> Event {
    Event::KeyDown { key: Some(key), repeat: false, left_ctrl_only: false }
}

fn ctrl(key: Key) -> Event {
    Event::KeyDown { key: Some(key), repeat: false, left_ctrl_only: true }
}

#[test]
fn the_window_is_640_by_480() {
    assert_eq!(SCREEN_WIDTH, 640);
    assert_eq!(SCREEN_HEIGHT, 480);
}

#[test]
fn centered_halves_the_space_left() {
    assert_eq!(centered(640, 64), 288);
    assert_eq!(centered(480, 205), 137);
    assert_eq!(centered(640, 640), 0);
    assert_eq!(centered(640, 639), 0);
    assert_eq!(centered(640, 0), 320);
    assert_eq!(centered(u32::MAX, 0), 2_147_483_647);
}

#[test]
fn centered_signed_rounds_towards_zero() {
    assert_eq!(centered_signed(640, 64), 288);
    assert_eq!(centered_signed(640, 641), 0);
    assert_eq!(centered_signed(640, 642), -1);
    assert_eq!(centered_signed(640, 643), -1);
    assert_eq!(centered_signed(640, 645), -2);
    assert_eq!(centered_signed(i32::MAX, i32::MIN), i32::MAX);
    assert_eq!(centered_signed(i32::MIN, i32::MAX), -i32::MAX);
}

#[test]
fn raise_and_lower_change_a_colour_by_32() {
    assert_eq!(raise(31), 63);
    assert_eq!(raise(223), 255);
    assert_eq!(raise(0), 32);
    assert_eq!(lower(255), 223);
    assert_eq!(lower(63), 31);
    assert_eq!(lower(33), 1);
}

#[test]
fn raise_and_lower_stop_at_the_ends() {
    assert_eq!(raise(224), 224);
    assert_eq!(raise(255), 255);
    assert_eq!(lower(32), 32);
    assert_eq!(lower(31), 31);
    assert_eq!(lower(0), 0);
}

#[test]
fn tint_follows_the_keys() {
    let mut tint = Tint::new();
    assert_eq!(tint, Tint { red: 255, green: 255, blue: 255 });
    tint.handle_key(Key::A);
    assert_eq!(tint, Tint { red: 223, green: 255, blue: 255 });
    tint.handle_key(Key::S);
    tint.handle_key(Key::S);
    assert_eq!(tint, Tint { red: 223, green: 191, blue: 255 });
    tint.handle_key(Key::D);
    assert_eq!(tint, Tint { red: 223, green: 191, blue: 223 });
    tint.handle_key(Key::Q);
    tint.handle_key(Key::W);
    tint.handle_key(Key::E);
    assert_eq!(tint, Tint { red: 255, green: 223, blue: 255 });
    tint.handle_key(Key::Q);
    tint.handle_key(Key::Up);
    tint.handle_key(Key::Other);
    assert_eq!(tint, Tint { red: 255, green: 223, blue: 255 });
}

#[test]
fn tint_never_goes_below_31() {
    let mut tint = Tint::new();
    for _ in 0..20 {
        tint.handle_key(Key::A);
    }
    assert_eq!(tint.red, 31);
}

#[test]
fn key_presses_ask_for_their_image() {
    assert_eq!(key_press(&down(Key::Up)), KeyPress::Up);
    assert_eq!(key_press(&down(Key::Down)), KeyPress::Down);
    assert_eq!(key_press(&down(Key::Left)), KeyPress::Left);
    assert_eq!(key_press(&down(Key::Right)), KeyPress::Right);
}

#[test]
fn key_presses_that_end_the_program() {
    assert_eq!(key_press(&Event::Quit), KeyPress::Quit);
    assert_eq!(key_press(&down(Key::Escape)), KeyPress::Quit);
    assert_eq!(key_press(&down(Key::Q)), KeyPress::Quit);
    let no_code = Event::KeyDown { key: None, repeat: false, left_ctrl_only: false };
    assert_eq!(key_press(&no_code), KeyPress::Quit);
}

#[test]
fn key_presses_that_ask_for_nothing() {
    assert_eq!(key_press(&down(Key::A)), KeyPress::Invalid);
    assert_eq!(key_press(&down(Key::Other)), KeyPress::Invalid);
    assert_eq!(key_press(&Event::KeyUp { key: Some(Key::Up), repeat: false }), KeyPress::Invalid);
    assert_eq!(key_press(&Event::Other), KeyPress::Invalid);
    assert_eq!(key_press(&Event::TextInput { text: "q".to_string() }), KeyPress::Invalid);
}

#[test]
fn held_keys_choose_the_image() {
    let none = ArrowKeys { up: false, down: false, left: false, right: false };
    assert_eq!(current_image(Image::Press, &none), Image::Press);
    assert_eq!(current_image(Image::Left, &none), Image::Left);
    assert_eq!(current_image(Image::Press, &ArrowKeys { up: true, ..none }), Image::Up);
    assert_eq!(current_image(Image::Press, &ArrowKeys { down: true, ..none }), Image::Down);
    assert_eq!(current_image(Image::Press, &ArrowKeys { left: true, ..none }), Image::Left);
    assert_eq!(current_image(Image::Press, &ArrowKeys { right: true, ..none }), Image::Right);
}

#[test]
fn of_several_held_keys_the_last_asked_wins() {
    let all = ArrowKeys { up: true, down: true, left: true, right: true };
    assert_eq!(current_image(Image::Press, &all), Image::Left);
    assert_eq!(current_image(Image::Press, &ArrowKeys { left: false, ..all }), Image::Right);
    assert_eq!(
        current_image(Image::Press, &ArrowKeys { left: false, right: false, ..all }),
        Image::Down
    );
}

#[test]
fn number_keys_play_sounds() {
    assert_eq!(sound_action(&down(Key::Num1)), SoundAction::Play(Effect::High));
    assert_eq!(sound_action(&down(Key::Num2)), SoundAction::Play(Effect::Medium));
    assert_eq!(sound_action(&down(Key::Num3)), SoundAction::Play(Effect::Low));
    assert_eq!(sound_action(&down(Key::Num4)), SoundAction::Play(Effect::Scratch));
    assert_eq!(sound_action(&down(Key::Num9)), SoundAction::ToggleMusic);
    assert_eq!(sound_action(&down(Key::Num0)), SoundAction::HaltMusic);
    assert_eq!(sound_action(&down(Key::Escape)), SoundAction::Quit);
}

#[test]
fn other_events_play_nothing() {
    assert_eq!(sound_action(&down(Key::A)), SoundAction::Nothing);
    assert_eq!(sound_action(&Event::Quit), SoundAction::Nothing);
    assert_eq!(sound_action(&Event::KeyUp { key: Some(Key::Num1), repeat: false }), SoundAction::Nothing);
    let no_code = Event::KeyDown { key: None, repeat: false, left_ctrl_only: false };
    assert_eq!(sound_action(&no_code), SoundAction::Nothing);
}

#[test]
fn effects_and_halting_end_the_polling() {
    assert!(SoundAction::Play(Effect::High).ends_polling());
    assert!(SoundAction::HaltMusic.ends_polling());
    assert!(!SoundAction::ToggleMusic.ends_polling());
    assert!(!SoundAction::Quit.ends_polling());
    assert!(!SoundAction::Nothing.ends_polling());
}

#[test]
fn toggling_the_music() {
    assert_eq!(toggle_music(false, false), MusicAction::Play);
    assert_eq!(toggle_music(false, true), MusicAction::Play);
    assert_eq!(toggle_music(true, true), MusicAction::Resume);
    assert_eq!(toggle_music(true, false), MusicAction::Pause);
}

#[test]
fn shapes_of_the_test_picture() {
    assert_eq!(filled_rect(), Rect { x: 160, y: 120, w: 320, h: 240 });
    assert_eq!(outlined_rect(), Rect { x: 106, y: 80, w: 426, h: 320 });
    assert_eq!(horizontal_line(), (Point { x: 0, y: 240 }, Point { x: 640, y: 240 }));
}

#[test]
fn dotted_line_has_a_dot_every_four_pixels() {
    let dots = dotted_line();
    assert_eq!(dots.len(), 120);
    assert_eq!(dots[0], Point { x: 320, y: 0 });
    assert_eq!(dots[1], Point { x: 320, y: 4 });
    assert_eq!(dots[119], Point { x: 320, y: 476 });
    for (k, dot) in dots.iter().enumerate() {
        assert_eq!(*dot, Point { x: 320, y: 4 * k as i32 });
    }
}

#[test]
fn viewports_share_the_window() {
    assert_eq!(top_left_viewport(), Rect { x: 0, y: 0, w: 320, h: 240 });
    assert_eq!(top_right_viewport(), Rect { x: 320, y: 0, w: 320, h: 240 });
    assert_eq!(bottom_viewport(), Rect { x: 0, y: 240, w: 640, h: 240 });
}

#[test]
fn sprite_sheet_has_two_rows_of_two() {
    assert_eq!(
        sprite_sheet::sprite_clips(),
        [
            Rect { x: 0, y: 0, w: 100, h: 100 },
            Rect { x: 100, y: 0, w: 100, h: 100 },
            Rect { x: 0, y: 100, w: 100, h: 100 },
            Rect { x: 100, y: 100, w: 100, h: 100 },
        ]
    );
}

#[test]
fn sprites_are_drawn_into_the_corners() {
    let texture = LTexture::new(200, 200);
    let clips = sprite_sheet::sprite_clips();
    let dest = |corner: usize| sprite_sheet::corner_blit(&texture, corner, clips[corner]).dest;
    assert_eq!(dest(0), Rect { x: 0, y: 0, w: 100, h: 100 });
    assert_eq!(dest(1), Rect { x: 540, y: 0, w: 100, h: 100 });
    assert_eq!(dest(2), Rect { x: 0, y: 380, w: 100, h: 100 });
    assert_eq!(dest(3), Rect { x: 540, y: 380, w: 100, h: 100 });
    assert_eq!(sprite_sheet::corner_blit(&texture, 3, clips[3]).clip, Some(clips[3]));
}

#[test]
fn walking_frames_on_the_sheet() {
    assert_eq!(
        animated_sprites::sprite_clips(),
        [
            Rect { x: 0, y: 0, w: 64, h: 205 },
            Rect { x: 64, y: 0, w: 64, h: 205 },
            Rect { x: 128, y: 0, w: 64, h: 205 },
            Rect { x: 196, y: 0, w: 64, h: 205 },
        ]
    );
}

#[test]
fn frames_follow_each_other_in_a_circle() {
    assert_eq!(animated_sprites::next_frame(0), 1);
    assert_eq!(animated_sprites::next_frame(1), 2);
    assert_eq!(animated_sprites::next_frame(2), 3);
    assert_eq!(animated_sprites::next_frame(3), 0);
}

#[test]
fn a_frame_is_drawn_in_the_middle_of_the_window() {
    let texture = LTexture::new(256, 205);
    let clips = animated_sprites::sprite_clips();
    assert_eq!(
        animated_sprites::frame_blit(&texture, &clips, 2),
        Blit {
            clip: Some(Rect { x: 128, y: 0, w: 64, h: 205 }),
            dest: Rect { x: 288, y: 137, w: 64, h: 205 },
        }
    );
    assert_eq!(
        animated_sprites::frame_blit(&texture, &clips, 7).clip,
        Some(Rect { x: 196, y: 0, w: 64, h: 205 })
    );
}

#[test]
fn a_and_d_turn_the_arrow() {
    assert_eq!(rotation_step(Key::A), -60);
    assert_eq!(rotation_step(Key::D), 60);
    assert_eq!(rotation_step(Key::Q), 0);
    assert_eq!(rotation_step(Key::Other), 0);
}

#[test]
fn q_w_and_e_mirror_the_arrow() {
    let mut flip = Flip::new();
    assert_eq!(flip, Flip { horizontal: false, vertical: false });
    flip.handle_key(Key::Q);
    assert_eq!(flip, Flip { horizontal: true, vertical: false });
    flip.handle_key(Key::E);
    assert_eq!(flip, Flip { horizontal: true, vertical: true });
    flip.handle_key(Key::Q);
    assert_eq!(flip, Flip { horizontal: false, vertical: true });
    flip.handle_key(Key::E);
    flip.handle_key(Key::E);
    flip.handle_key(Key::Q);
    flip.handle_key(Key::A);
    assert_eq!(flip, Flip { horizontal: true, vertical: true });
    flip.handle_key(Key::W);
    assert_eq!(flip, Flip { horizontal: false, vertical: false });
}

#[test]
fn typed_text_is_added_at_the_end() {
    let mut text = "Some Text".to_string();
    let edit = handle_event(&mut text, &Event::TextInput { text: "!?".to_string() });
    assert_eq!(text, "Some Text!?");
    assert_eq!(edit, Edit { rendered_text: true, clipboard: ClipboardAction::Nothing });
}

#[test]
fn backspace_takes_the_last_character() {
    let mut text = "abc".to_string();
    let edit = handle_event(&mut text, &down(Key::Backspace));
    assert_eq!(text, "ab");
    assert_eq!(edit, Edit { rendered_text: true, clipboard: ClipboardAction::Nothing });
}

#[test]
fn backspace_takes_a_whole_character_of_several_bytes() {
    let mut text = "na\u{ef}ve\u{1f600}".to_string();
    let edit = handle_event(&mut text, &down(Key::Backspace));
    assert_eq!(text, "na\u{ef}ve");
    assert!(edit.rendered_text);
}

#[test]
fn backspace_on_an_empty_text_changes_nothing() {
    let mut text = String::new();
    let edit = handle_event(&mut text, &down(Key::Backspace));
    assert_eq!(text, "");
    assert_eq!(edit, Edit { rendered_text: false, clipboard: ClipboardAction::Nothing });
}

#[test]
fn control_c_and_v_ask_for_the_clipboard() {
    let mut text = "abc".to_string();
    let edit = handle_event(&mut text, &ctrl(Key::C));
    assert_eq!(edit, Edit { rendered_text: false, clipboard: ClipboardAction::Copy });
    let edit = handle_event(&mut text, &ctrl(Key::V));
    assert_eq!(edit, Edit { rendered_text: false, clipboard: ClipboardAction::Paste });
    assert_eq!(text, "abc");
}

#[test]
fn c_and_v_without_control_do_nothing() {
    let mut text = "abc".to_string();
    for key in [Key::C, Key::V, Key::A, Key::Other] {
        let edit = handle_event(&mut text, &down(key));
        assert_eq!(edit, Edit { rendered_text: false, clipboard: ClipboardAction::Nothing });
    }
    assert_eq!(text, "abc");
}

#[test]
fn control_with_backspace_still_erases() {
    let mut text = "abc".to_string();
    let edit = handle_event(&mut text, &ctrl(Key::Backspace));
    assert_eq!(text, "ab");
    assert_eq!(edit, Edit { rendered_text: true, clipboard: ClipboardAction::Nothing });
}

#[test]
fn other_events_leave_the_text() {
    let mut text = "abc".to_string();
    for event in [Event::Quit, Event::Other, Event::KeyUp { key: Some(Key::Backspace), repeat: false }] {
        let edit = handle_event(&mut text, &event);
        assert_eq!(edit, Edit { rendered_text: false, clipboard: ClipboardAction::Nothing });
    }
    assert_eq!(text, "abc");
}

#[test]
fn an_empty_text_is_drawn_as_a_space() {
    let mut text = String::new();
    prepare_for_render(&mut text);
    assert_eq!(text, " ");
    let mut text = "abc".to_string();
    prepare_for_render(&mut text);
    assert_eq!(text, "abc");
}

#[test]
fn a_tinted_texture_is_cut_where_it_is_drawn() {
    let texture = LTexture::new(640, 480);
    assert_eq!(
        playfield::color_modulation::render(&texture, 0, 0, None),
        Blit {
            clip: Some(Rect { x: 0, y: 0, w: 640, h: 480 }),
            dest: Rect { x: 0, y: 0, w: 640, h: 480 },
        }
    );
    let clip = Rect { x: 5, y: 6, w: 7, h: 8 };
    assert_eq!(
        playfield::color_modulation::render(&texture, 10, 20, Some(clip)),
        Blit {
            clip: Some(Rect { x: 10, y: 20, w: 7, h: 8 }),
            dest: Rect { x: 10, y: 20, w: 7, h: 8 },
        }
    );
}

#[test]
fn next_frame_counts_on_past_the_animation() {
    assert_eq!(animated_sprites::next_frame(4), 5);
    assert_eq!(animated_sprites::next_frame(100), 101);
}
