use playfield::rect::{
    clamp_position, clamp_position_wide, clamp_size, Point, Rect, MAX_INT_VALUE, MIN_INT_VALUE,
};
use playfield::texture::{Blit, LTexture};

#[test]
fn limits_are_half_of_the_i32_range() {
    assert_eq!(MAX_INT_VALUE, i32::MAX as u32 / 2);
    assert_eq!(MIN_INT_VALUE, i32::MIN / 2);
}

#[test]
fn clamp_position_keeps_what_is_in_range() {
    assert_eq!(clamp_position(0), 0);
    assert_eq!(clamp_position(-17), -17);
    assert_eq!(clamp_position(1_073_741_823), 1_073_741_823);
    assert_eq!(clamp_position(-1_073_741_824), -1_073_741_824);
}

#[test]
fn clamp_position_pulls_in_what_is_out_of_range() {
    assert_eq!(clamp_position(1_073_741_824), 1_073_741_823);
    assert_eq!(clamp_position(i32::MAX), 1_073_741_823);
    assert_eq!(clamp_position(-1_073_741_825), -1_073_741_824);
    assert_eq!(clamp_position(i32::MIN), -1_073_741_824);
}

#[test]
fn clamp_position_wide_agrees_with_clamp_position() {
    assert_eq!(clamp_position_wide(5), 5);
    assert_eq!(clamp_position_wide(i64::from(i32::MAX) + 10), 1_073_741_823);
    assert_eq!(clamp_position_wide(i64::from(i32::MIN) - 10), -1_073_741_824);
    assert_eq!(clamp_position_wide(-1_073_741_824), -1_073_741_824);
}

#[test]
fn clamp_size_makes_empty_sides_one_pixel() {
    assert_eq!(clamp_size(0), 1);
    assert_eq!(clamp_size(1), 1);
    assert_eq!(clamp_size(640), 640);
    assert_eq!(clamp_size(1_073_741_823), 1_073_741_823);
    assert_eq!(clamp_size(1_073_741_824), 1_073_741_823);
    assert_eq!(clamp_size(u32::MAX), 1_073_741_823);
}

#[test]
fn rect_new_keeps_ordinary_values() {
    let r = Rect::new(300, 40, 40, 400);
    assert_eq!(r, Rect { x: 300, y: 40, w: 40, h: 400 });
    assert_eq!(r.width(), 40);
    assert_eq!(r.height(), 400);
}

#[test]
fn rect_new_is_never_empty() {
    let r = Rect::new(0, 0, 0, 0);
    assert_eq!(r, Rect { x: 0, y: 0, w: 1, h: 1 });
}

#[test]
fn rect_new_clamps_corner_and_size() {
    let r = Rect::new(i32::MAX, i32::MIN, u32::MAX, 2_000_000_000);
    assert_eq!(
        r,
        Rect { x: 1_073_741_823, y: -1_073_741_824, w: 1_073_741_823, h: 1_073_741_823 }
    );
}

#[test]
fn width_of_a_negative_side_wraps() {
    let r = Rect { x: 0, y: 0, w: -1, h: -2 };
    assert_eq!(r.width(), u32::MAX);
    assert_eq!(r.height(), u32::MAX - 1);
}

#[test]
fn point_new_clamps() {
    assert_eq!(Point::new(3, -4), Point { x: 3, y: -4 });
    assert_eq!(Point::new(i32::MAX, i32::MIN), Point { x: 1_073_741_823, y: -1_073_741_824 });
    let p = Point::new(340, 280);
    assert_eq!(p.x(), 340);
    assert_eq!(p.y(), 280);
}

#[test]
fn texture_keeps_its_size() {
    let t = LTexture::new(20, 30);
    assert_eq!(t.width, 20);
    assert_eq!(t.height, 30);
}

#[test]
fn render_without_clip_draws_the_whole_texture() {
    let t = LTexture::new(20, 30);
    let blit = t.render(100, 50, None);
    assert_eq!(blit, Blit { clip: None, dest: Rect { x: 100, y: 50, w: 20, h: 30 } });
}

#[test]
fn render_with_clip_draws_the_clip_size() {
    let t = LTexture::new(200, 200);
    let clip = Rect::new(100, 0, 100, 100);
    let blit = t.render(540, 0, Some(clip));
    assert_eq!(blit.clip, Some(Rect { x: 100, y: 0, w: 100, h: 100 }));
    assert_eq!(blit.dest, Rect { x: 540, y: 0, w: 100, h: 100 });
}

#[test]
fn render_of_an_empty_texture_draws_one_pixel() {
    let t = LTexture::new(0, 0);
    let blit = t.render(-5, 7, None);
    assert_eq!(blit.dest, Rect { x: -5, y: 7, w: 1, h: 1 });
}
