use pic::options::Options;
use pic::previewer::blocks::{
    display_frame, display_gif, display_image, end_animation, preview, scale, write_cell,
    write_color_block, Animation, Event,
};
use pic::result::{Action, Error};
use pic::utils::{convert_to_image_buffer, AnimationFrame, Delay, Frame, TermSize};

const RED: [u8; 4] = [255, 0, 0, 255];
const GREEN: [u8; 4] = [0, 255, 0, 255];
const BLUE: [u8; 4] = [0, 0, 255, 255];
const CLEAR: [u8; 4] = [0, 0, 0, 0];

fn blocks_frame(width: u32, height: u32, pixels: Vec<[u8; 4]>) -> Frame {
    Frame { width, height, pixels }
}

fn blocks_png(frame: &Frame) -> Vec<u8> {
    convert_to_image_buffer(frame, frame.width, frame.height).unwrap()
}

fn blocks_gif(frames: &[(u32, Frame)]) -> Vec<u8> {
    let mut buffer = Vec::new();
    {
        let mut encoder = image::codecs::gif::GifEncoder::new(&mut buffer);
        for (delay, frame) in frames {
            let raw: Vec<u8> = frame.pixels.concat();
            let rgba = image::RgbaImage::from_raw(frame.width, frame.height, raw).unwrap();
            let delay = image::Delay::from_numer_denom_ms(*delay, 1);
            encoder.encode_frame(image::Frame::from_parts(rgba, 0, 0, delay)).unwrap();
        }
    }
    buffer
}

fn blocks_options() -> Options {
    Options::new(vec![std::path::PathBuf::from("image")])
}

// cells of one pixel by two pixels: a cell shows the pixels that it covers
fn blocks_terminal() -> TermSize {
    TermSize::new(24, 80, 80, 48)
}

#[test]
fn colour_block_is_followed_by_a_reset() {
    let mut out = String::from(">");
    write_color_block(&mut out, "\u{2584}", "BG", "FG");
    assert_eq!(out, ">BGFG\u{2584}\x1b[m");
}

#[test]
fn two_transparent_pixels_are_a_space() {
    let mut out = String::new();
    write_cell(&mut out, CLEAR, CLEAR, true);
    assert_eq!(out, " \x1b[m");
}

#[test]
fn upper_pixel_alone_is_an_upper_half_block() {
    let mut out = String::new();
    write_cell(&mut out, RED, CLEAR, true);
    assert_eq!(out, "\x1b[38;2;255;0;0m\u{2580}\x1b[m");
}

#[test]
fn lower_pixel_alone_is_a_lower_half_block() {
    let mut out = String::new();
    write_cell(&mut out, CLEAR, GREEN, true);
    assert_eq!(out, "\x1b[38;2;0;255;0m\u{2584}\x1b[m");
}

#[test]
fn two_pixels_are_a_lower_half_block_on_a_background() {
    let mut out = String::new();
    write_cell(&mut out, RED, GREEN, true);
    assert_eq!(out, "\x1b[48;2;255;0;0m\x1b[38;2;0;255;0m\u{2584}\x1b[m");
}

#[test]
fn cell_uses_the_palette_without_truecolor() {
    let mut out = String::new();
    write_cell(&mut out, [95, 135, 175, 255], [255, 255, 255, 255], false);
    assert_eq!(out, "\x1b[48;5;67m\x1b[38;5;231m\u{2584}\x1b[m");
}

#[test]
fn frame_is_shown_line_by_line() {
    let frame = blocks_frame(2, 4, vec![RED, CLEAR, CLEAR, GREEN, CLEAR, CLEAR, BLUE, RED]);
    let mut out = String::new();
    display_frame(&mut out, &frame, &blocks_options(), &blocks_terminal(), true);
    assert_eq!(
        out,
        "\x1b[38;2;255;0;0m\u{2580}\x1b[m\x1b[38;2;0;255;0m\u{2584}\x1b[m\n\
         \x1b[38;2;0;0;255m\u{2584}\x1b[m\x1b[38;2;255;0;0m\u{2584}\x1b[m\n"
    );
}

#[test]
fn frame_is_put_at_its_column() {
    let frame = blocks_frame(1, 4, vec![RED, GREEN, CLEAR, CLEAR]);
    let mut options = blocks_options();
    options.set_position(Some(4), None);
    let mut out = String::new();
    display_frame(&mut out, &frame, &options, &blocks_terminal(), true);
    assert_eq!(
        out,
        "\x1b[5G\x1b[5G\x1b[48;2;255;0;0m\x1b[38;2;0;255;0m\u{2584}\x1b[m\n\x1b[5G \x1b[m\n"
    );
}

#[test]
fn frame_is_put_at_its_row_line_by_line() {
    let frame = blocks_frame(1, 4, vec![CLEAR, CLEAR, CLEAR, CLEAR]);
    let mut options = blocks_options();
    options.set_position(Some(4), Some(2));
    let mut out = String::new();
    display_frame(&mut out, &frame, &options, &blocks_terminal(), true);
    assert_eq!(out, "\x1b[3;5H\x1b[3;5H \x1b[m\n\x1b[4;5H \x1b[m\n");
    options.set_position(None, Some(2));
    let mut out = String::new();
    display_frame(&mut out, &frame, &options, &blocks_terminal(), true);
    assert_eq!(out, "\x1b[3d\x1b[3d \x1b[m\n\x1b[4d \x1b[m\n");
}

#[test]
fn columns_beyond_the_terminal_are_left_out() {
    let frame = blocks_frame(3, 2, vec![CLEAR, CLEAR, CLEAR, RED, GREEN, BLUE]);
    let term = TermSize::new(24, 4, 4, 24);
    let mut options = blocks_options();
    options.set_position(Some(2), None);
    let mut out = String::new();
    display_frame(&mut out, &frame, &options, &term, true);
    assert_eq!(
        out,
        "\x1b[3G\x1b[3G\x1b[38;2;255;0;0m\u{2584}\x1b[m\x1b[38;2;0;255;0m\u{2584}\x1b[m\n"
    );
    let term = TermSize::new(24, 2, 2, 24);
    let mut out = String::new();
    display_frame(&mut out, &frame, &options, &term, true);
    assert_eq!(out, "\x1b[3G\x1b[3G\n");
}

#[test]
fn last_row_without_lower_pixels_has_no_cells() {
    let frame = blocks_frame(1, 3, vec![RED, GREEN, BLUE]);
    let mut options = blocks_options();
    options.set_position(Some(0), None);
    let mut out = String::new();
    display_frame(&mut out, &frame, &options, &blocks_terminal(), true);
    assert_eq!(
        out,
        "\x1b[1G\x1b[1G\x1b[48;2;255;0;0m\x1b[38;2;0;255;0m\u{2584}\x1b[m\n\x1b[1G"
    );
}

#[test]
fn empty_frame_moves_the_cursor_only() {
    let frame = blocks_frame(0, 0, Vec::new());
    let mut options = blocks_options();
    options.set_position(Some(1), Some(1));
    let mut out = String::new();
    display_frame(&mut out, &frame, &options, &blocks_terminal(), true);
    assert_eq!(out, "\x1b[2;2H");
}

#[test]
fn scale_resizes_to_two_pixels_a_row() {
    let frame = blocks_frame(4, 4, vec![BLUE; 16]);
    let mut options = blocks_options();
    options.set_size(Some(2), Some(1));
    // bound box 2 by 2 pixels: the width binds, the fit is 2 by 1 cells
    let scaled = scale(&frame, &options, &blocks_terminal()).unwrap();
    assert_eq!((scaled.width, scaled.height), (2, 2));
    assert_eq!(scaled.pixels, vec![BLUE; 4]);
}

#[test]
fn scale_mixes_neighbouring_pixels() {
    let black = [0, 0, 0, 255];
    let white = [255, 255, 255, 255];
    let frame = blocks_frame(2, 2, vec![black, white, black, white]);
    let mut options = blocks_options();
    options.set_size(Some(1), Some(1));
    options.upscale();
    // bound box 1 by 2 pixels: the width binds, the fit is 1 by 1 cells
    let scaled = scale(&frame, &options, &blocks_terminal()).unwrap();
    assert_eq!((scaled.width, scaled.height), (1, 2));
    for pixel in &scaled.pixels {
        assert!(pixel[0] > 100 && pixel[0] < 155 && pixel[0] == pixel[1] && pixel[1] == pixel[2]);
        assert_eq!(pixel[3], 255);
    }
}

#[test]
fn scale_fails_for_an_image_without_pixels() {
    let frame = blocks_frame(0, 0, Vec::new());
    assert!(matches!(scale(&frame, &blocks_options(), &blocks_terminal()), Err(Error::Geometry)));
}

#[test]
fn scale_fails_for_a_terminal_without_rows() {
    let frame = blocks_frame(1, 1, vec![RED]);
    let term = TermSize::new(0, 80, 80, 48);
    assert!(matches!(scale(&frame, &blocks_options(), &term), Err(Error::Geometry)));
}

#[test]
fn scale_fails_for_more_rows_than_can_be_counted() {
    let frame = blocks_frame(1, 4, vec![RED; 4]);
    let mut options = blocks_options();
    options.set_size(Some(u32::MAX), Some(u32::MAX));
    options.upscale();
    assert!(matches!(scale(&frame, &options, &blocks_terminal()), Err(Error::TooLarge)));
}

#[test]
fn scale_fails_for_more_pixels_than_can_be_held() {
    let frame = blocks_frame(1, 4, vec![RED; 4]);
    let mut options = blocks_options();
    options.set_size(Some(u32::MAX), Some(u32::MAX / 2));
    options.upscale();
    assert!(matches!(scale(&frame, &options, &blocks_terminal()), Err(Error::TooLarge)));
}

#[test]
fn image_is_decoded_resized_and_shown() {
    let frame = blocks_frame(2, 2, vec![RED, CLEAR, CLEAR, GREEN]);
    let mut options = blocks_options();
    options.set_size(Some(2), Some(1));
    options.upscale();
    let mut out = String::new();
    display_image(&mut out, &blocks_png(&frame), &options, &blocks_terminal(), true).unwrap();
    assert_eq!(
        out,
        "\x1b[38;2;255;0;0m\u{2580}\x1b[m\x1b[38;2;0;255;0m\u{2584}\x1b[m\n"
    );
}

#[test]
fn image_that_cannot_be_decoded_appends_nothing() {
    let mut out = String::from("kept");
    let result = display_image(&mut out, b"\x89PNG\r\n\x1a\nnothing", &blocks_options(), &blocks_terminal(), true);
    assert!(matches!(result, Err(Error::Image(_))));
    assert_eq!(out, "kept");
}

#[test]
fn preview_refuses_what_only_kitty_can_do() {
    let frame = blocks_frame(1, 2, vec![RED, GREEN]);
    let buffer = blocks_png(&frame);
    let mut out = String::new();
    let mut options = blocks_options();
    options.load = Some(1);
    let result = preview(&mut out, &buffer, &options, &blocks_terminal(), true);
    assert!(matches!(result, Err(Error::ActionUnsupported(Action::Load))));
    options.display = Some(1);
    let result = preview(&mut out, &buffer, &options, &blocks_terminal(), true);
    assert!(matches!(result, Err(Error::ActionUnsupported(Action::LoadAndDisplay))));
    options.clear = Some(0);
    let result = preview(&mut out, &buffer, &options, &blocks_terminal(), true);
    assert!(matches!(result, Err(Error::ActionUnsupported(Action::Clear))));
    assert_eq!(out, "");
}

#[test]
fn preview_shows_an_image_once() {
    let frame = blocks_frame(1, 2, vec![RED, GREEN]);
    let mut out = String::new();
    let mut options = blocks_options();
    options.display = Some(4);
    let animation = preview(&mut out, &blocks_png(&frame), &options, &blocks_terminal(), true).unwrap();
    assert!(animation.is_none());
    assert_eq!(out, "\x1b[48;2;255;0;0m\x1b[38;2;0;255;0m\u{2584}\x1b[m\n");
}

#[test]
fn preview_of_an_unknown_format_fails() {
    let mut out = String::new();
    let result = preview(&mut out, b"no image at all", &blocks_options(), &blocks_terminal(), true);
    assert!(matches!(result, Err(Error::Image(_))));
    assert_eq!(out, "");
}

#[test]
fn static_gif_shows_its_first_frame() {
    let first = blocks_frame(1, 2, vec![RED, RED]);
    let second = blocks_frame(1, 2, vec![BLUE, BLUE]);
    let gif = blocks_gif(&[(100, first), (200, second)]);
    let mut options = blocks_options();
    options.set_static();
    let mut out = String::new();
    let animation = preview(&mut out, &gif, &options, &blocks_terminal(), true).unwrap();
    assert!(animation.is_none());
    assert_eq!(out, "\x1b[48;2;255;0;0m\x1b[38;2;255;0;0m\u{2584}\x1b[m\n");
}

#[test]
fn gif_is_prepared_as_an_animation() {
    let first = blocks_frame(1, 2, vec![RED, RED]);
    let second = blocks_frame(1, 2, vec![BLUE, BLUE]);
    let gif = blocks_gif(&[(100, first), (200, second)]);
    let mut options = blocks_options();
    options.set_loop();
    let mut out = String::new();
    let animation = display_gif(&mut out, &gif, &options, &blocks_terminal(), true).unwrap().unwrap();
    assert_eq!(out, "\x1b[?25l");
    assert_eq!(animation.frames.len(), 2);
    assert_eq!(animation.frames[0].delay, Delay { numer: 100, denom: 1 });
    assert_eq!(animation.frames[1].delay, Delay { numer: 200, denom: 1 });
    assert_eq!(animation.frames[0].image.pixels, vec![RED, RED]);
    assert_eq!(animation.frames[1].image.pixels, vec![BLUE, BLUE]);
    assert_eq!(animation.next, 0);
    assert!(animation.first_frame && animation.gif_loop && !animation.cancelled);
}

#[test]
fn gif_that_cannot_be_resized_appends_nothing() {
    let first = blocks_frame(1, 2, vec![RED, RED]);
    let gif = blocks_gif(&[(100, first)]);
    let term = TermSize::new(0, 80, 80, 48);
    let mut out = String::new();
    let result = display_gif(&mut out, &gif, &blocks_options(), &term, true);
    assert!(matches!(result, Err(Error::Geometry)));
    assert_eq!(out, "");
}

fn blocks_animation(gif_loop: bool) -> Animation {
    let frames = vec![
        AnimationFrame { delay: Delay { numer: 10, denom: 1 }, image: blocks_frame(1, 2, vec![RED, RED]) },
        AnimationFrame { delay: Delay { numer: 20, denom: 1 }, image: blocks_frame(1, 2, vec![GREEN, GREEN]) },
        AnimationFrame { delay: Delay { numer: 30, denom: 1 }, image: blocks_frame(1, 2, vec![BLUE, BLUE]) },
    ];
    Animation::new(frames, gif_loop)
}

const FIRST: &str = "\x1b[48;2;255;0;0m\x1b[38;2;255;0;0m\u{2584}\x1b[m\n";
const SECOND: &str = "\x1b[48;2;0;255;0m\x1b[38;2;0;255;0m\u{2584}\x1b[m\n";
const THIRD: &str = "\x1b[48;2;0;0;255m\x1b[38;2;0;0;255m\u{2584}\x1b[m\n";

#[test]
fn animation_interrupted_during_its_second_frame_shows_two_frames() {
    let options = blocks_options();
    let term = blocks_terminal();
    let mut animation = blocks_animation(false);
    let mut out = String::new();
    assert_eq!(animation.next_delay(), Some(Delay { numer: 10, denom: 1 }));
    animation.step(Event::Elapsed, &mut out, &options, &term, true);
    assert_eq!(animation.next_delay(), Some(Delay { numer: 20, denom: 1 }));
    animation.step(Event::Elapsed, &mut out, &options, &term, true);
    assert_eq!(animation.next_delay(), Some(Delay { numer: 30, denom: 1 }));
    animation.step(Event::Cancelled, &mut out, &options, &term, true);
    assert!(animation.finished());
    assert_eq!(animation.next_delay(), None);
    assert_eq!(out, format!("{FIRST}\x1b[1A{SECOND}"));
    // an animation that is over stays as it is
    animation.step(Event::Elapsed, &mut out, &options, &term, true);
    assert!(animation.finished());
    assert_eq!(animation.next, 2);
    assert_eq!(out, format!("{FIRST}\x1b[1A{SECOND}"));
}

#[test]
fn animation_without_loop_ends_after_its_last_frame() {
    let options = blocks_options();
    let term = blocks_terminal();
    let mut animation = blocks_animation(false);
    let mut out = String::new();
    let mut shown = 0;
    while !animation.finished() {
        animation.step(Event::Elapsed, &mut out, &options, &term, true);
        shown += 1;
    }
    assert_eq!(shown, 3);
    assert_eq!(out, format!("{FIRST}\x1b[1A{SECOND}\x1b[1A{THIRD}"));
    end_animation(&mut out);
    assert!(out.ends_with("\n\x1b[?25h"));
}

#[test]
fn animation_with_loop_starts_again() {
    let options = blocks_options();
    let term = blocks_terminal();
    let mut animation = blocks_animation(true);
    let mut out = String::new();
    for _ in 0..4 {
        assert!(!animation.finished());
        animation.step(Event::Elapsed, &mut out, &options, &term, true);
    }
    assert_eq!(animation.next, 1);
    assert_eq!(animation.next_delay(), Some(Delay { numer: 20, denom: 1 }));
    assert_eq!(out, format!("{FIRST}\x1b[1A{SECOND}\x1b[1A{THIRD}\x1b[1A{FIRST}"));
    animation.step(Event::Cancelled, &mut out, &options, &term, true);
    assert!(animation.finished());
}

#[test]
fn animation_without_frames_is_over() {
    let animation = Animation::new(Vec::new(), true);
    assert!(animation.finished());
    assert_eq!(animation.next_delay(), None);
}

#[test]
fn animation_moves_up_over_the_lines_of_a_frame() {
    let frames = vec![
        AnimationFrame { delay: Delay { numer: 10, denom: 1 }, image: blocks_frame(1, 6, vec![CLEAR; 6]) },
    ];
    let mut animation = Animation::new(frames, true);
    let mut out = String::new();
    animation.step(Event::Elapsed, &mut out, &blocks_options(), &blocks_terminal(), true);
    animation.step(Event::Elapsed, &mut out, &blocks_options(), &blocks_terminal(), true);
    assert_eq!(out, " \x1b[m\n \x1b[m\n \x1b[m\n\x1b[3A \x1b[m\n \x1b[m\n \x1b[m\n");
}
