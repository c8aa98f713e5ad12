use crate::options::Options;
use crate::previewer::{spec_unsupported_action, unsupported_action};
use crate::result::{appended, failed_as, Error, Failure};
use crate::utils::{
    ansi_color, color_text, cursor_text, cursor_text_below, cursor_up_text, decode, decode_frames,
    decoded_frames, decoded_image, fit_in_bounds_defined, fit_in_term, format_is_known, guess_gif,
    hide_cursor, is_gif, move_cursor, move_cursor_below, move_cursor_up, pixel_is_transparent,
    resizable, resize, resized_pixels, show_cursor, spec_pixel_is_transparent,
    try_fit_in_bounds, AnimationFrame, Delay, Frame, FrameView, TermSize,
};
use vstd::prelude::*;
use vstd::string::StringExecFns;

verus! {

/// A glyph with the colours that it is shown in, and the sequence that
/// resets the colours after it.
pub open spec fn block_text(block: Seq<char>, ansi_bg: Seq<char>, ansi_fg: Seq<char>) -> Seq<char> {
    ansi_bg + ansi_fg + block + "\x1b[m"@
}

/// Appends a glyph with the colours that it is shown in.
pub fn write_color_block(out: &mut String, block: &str, ansi_bg: &str, ansi_fg: &str)
    ensures
        final(out)@ == old(out)@ + block_text(block@, ansi_bg@, ansi_fg@),
{
    out.append(ansi_bg);
    out.append(ansi_fg);
    out.append(block);
    out.append("\x1b[m");
    assert(out@ =~= old(out)@ + block_text(block@, ansi_bg@, ansi_fg@));
}

/// The text of one character cell, which shows two pixels, one above the
/// other.
///
/// Where both are transparent the cell is a space. Where one is, the cell is
/// the half block on the side of the other, in that pixel's colour. Where
/// none is, the cell is the lower half block in the lower pixel's colour, on
/// a background of the upper pixel's colour.
pub open spec fn cell_text(top: [u8; 4], bottom: [u8; 4], truecolor: bool) -> Seq<char> {
    if spec_pixel_is_transparent(top) && spec_pixel_is_transparent(bottom) {
        block_text(" "@, Seq::empty(), Seq::empty())
    } else if spec_pixel_is_transparent(bottom) {
        block_text("\u{2580}"@, Seq::empty(), color_text(top, false, truecolor))
    } else if spec_pixel_is_transparent(top) {
        block_text("\u{2584}"@, Seq::empty(), color_text(bottom, false, truecolor))
    } else {
        block_text(
            "\u{2584}"@,
            color_text(top, true, truecolor),
            color_text(bottom, false, truecolor),
        )
    }
}

/// Appends the text of one character cell for the two pixels that it shows.
pub fn write_cell(out: &mut String, top: [u8; 4], bottom: [u8; 4], truecolor: bool)
    ensures
        final(out)@ == old(out)@ + cell_text(top, bottom, truecolor),
{
    let empty = "";
    proof {
        reveal_strlit("");
        assert(empty@ =~= Seq::<char>::empty());
    }
    match (pixel_is_transparent(bottom), pixel_is_transparent(top)) {
        (true, true) => write_color_block(out, " ", empty, empty),
        (true, false) => {
            let ansi_fg = ansi_color(top, false, truecolor);
            write_color_block(out, "\u{2580}", empty, ansi_fg.as_str());
        },
        (false, true) => {
            let ansi_fg = ansi_color(bottom, false, truecolor);
            write_color_block(out, "\u{2584}", empty, ansi_fg.as_str());
        },
        (false, false) => {
            let ansi_bg = ansi_color(top, true, truecolor);
            let ansi_fg = ansi_color(bottom, false, truecolor);
            write_color_block(out, "\u{2584}", ansi_bg.as_str(), ansi_fg.as_str());
        },
    }
}

/// Whether a column of the image lies beyond the terminal's last column, the
/// image standing at the column `x`.
pub open spec fn column_overflows(col: int, x: Option<u32>, term_cols: u32) -> bool {
    col + (match x {
        Some(x) => x as int,
        None => 0,
    }) >= term_cols
}

/// The cells of the first `cols` columns of the line `line` of an image,
/// without those that overflow the terminal.
pub open spec fn cells_text(
    image: FrameView,
    line: int,
    cols: int,
    x: Option<u32>,
    term_cols: u32,
    truecolor: bool,
) -> Seq<char>
    decreases cols,
{
    if cols <= 0 {
        Seq::empty()
    } else {
        cells_text(image, line, cols - 1, x, term_cols, truecolor) + (if column_overflows(
            cols - 1,
            x,
            term_cols,
        ) {
            Seq::empty()
        } else {
            cell_text(
                image.pixel(cols - 1, 2 * line),
                image.pixel(cols - 1, 2 * line + 1),
                truecolor,
            )
        })
    }
}

/// The text of the line `line` of an image: the cursor is put at the start of
/// the line, then come the line's cells and a line feed. A last line of which
/// the image has only the upper pixels has no cells.
pub open spec fn line_text(
    image: FrameView,
    line: int,
    x: Option<u32>,
    y: Option<u32>,
    term_cols: u32,
    truecolor: bool,
) -> Seq<char> {
    cursor_text_below(x, y, line as nat) + (if 2 * line + 1 < image.height {
        cells_text(image, line, image.width as int, x, term_cols, truecolor) + "\n"@
    } else {
        Seq::empty()
    })
}

/// The text of the first `lines` lines of an image.
pub open spec fn lines_text(
    image: FrameView,
    lines: int,
    x: Option<u32>,
    y: Option<u32>,
    term_cols: u32,
    truecolor: bool,
) -> Seq<char>
    decreases lines,
{
    if lines <= 0 {
        Seq::empty()
    } else {
        lines_text(image, lines - 1, x, y, term_cols, truecolor) + line_text(
            image,
            lines - 1,
            x,
            y,
            term_cols,
            truecolor,
        )
    }
}

/// The text that shows an image in half blocks, two rows of pixels to a line
/// of the terminal: the cursor is put at the image's place, then come the
/// lines from the top.
pub open spec fn frame_text(
    image: FrameView,
    x: Option<u32>,
    y: Option<u32>,
    term_cols: u32,
    truecolor: bool,
) -> Seq<char> {
    cursor_text(x, y) + lines_text(image, (image.height + 1) / 2, x, y, term_cols, truecolor)
}

/// Appends the text that shows an image in half blocks.
///
/// this function should only print a 'ready to display' frame
pub fn display_frame(
    out: &mut String,
    image: &Frame,
    options: &Options,
    term_size: &TermSize,
    truecolor: bool,
)
    requires
        image.wf(),
    ensures
        final(out)@ == old(out)@ + frame_text(
            image@,
            options.x,
            options.y,
            term_size.cols,
            truecolor,
        ),
{
    move_cursor(out, options.x, options.y);
    let x: Option<u32> = options.x;
    let y: Option<u32> = options.y;
    let term_cols: u32 = term_size.cols;
    let offset: u64 = match x {
        Some(x) => x as u64,
        None => 0,
    };
    let lines: u32 = image.height / 2 + image.height % 2;
    let mut line: u32 = 0;
    while line < lines
        invariant
            image.wf(),
            line <= lines,
            lines == (image.height + 1) / 2,
            offset == match x {
                Some(x) => x as int,
                None => 0,
            },
            out@ == old(out)@ + cursor_text(x, y) + lines_text(
                image@,
                line as int,
                x,
                y,
                term_cols,
                truecolor,
            ),
        decreases lines - line,
    {
        let ghost before = out@;
        move_cursor_below(out, x, y, line);
        if line < image.height / 2 {
            let ghost start = out@;
            let mut col: u32 = 0;
            while col < image.width
                invariant
                    image.wf(),
                    col <= image.width,
                    2 * line + 1 < image.height,
                    offset == match x {
                        Some(x) => x as int,
                        None => 0,
                    },
                    out@ == start + cells_text(
                        image@,
                        line as int,
                        col as int,
                        x,
                        term_cols,
                        truecolor,
                    ),
                decreases image.width - col,
            {
                let ghost cells = out@;
                if col as u64 + offset < term_cols as u64 {
                    let top = image.pixel(col, 2 * line);
                    let bottom = image.pixel(col, 2 * line + 1);
                    write_cell(out, top, bottom, truecolor);
                }
                col += 1;
                assert(out@ =~= start + cells_text(
                    image@,
                    line as int,
                    col as int,
                    x,
                    term_cols,
                    truecolor,
                ));
            }
            out.append("\n");
        }
        line += 1;
        assert(out@ =~= old(out)@ + cursor_text(x, y) + lines_text(
            image@,
            line as int,
            x,
            y,
            term_cols,
            truecolor,
        ));
    }
    assert(out@ =~= old(out)@ + frame_text(image@, x, y, term_cols, truecolor));
}

/// The size in pixels that an image is resized to before it is shown in half
/// blocks: one pixel a column and two a row of its fit into the terminal.
pub open spec fn scaled_size(width: u32, height: u32, options: Options, term_size: TermSize) -> (
    nat,
    nat,
) {
    let plan = fit_in_term(width, height, options.cols, options.rows, options.upscale, term_size);
    (plan.0, 2 * plan.1)
}

/// Why an image of `width` by `height` pixels cannot be resized for the
/// terminal, if it cannot: it has no pixels or no fit, or a buffer of the
/// resizing would be too large.
pub open spec fn scaling_failure(width: u32, height: u32, options: Options, term_size: TermSize)
    -> Option<Failure> {
    let size = scaled_size(width, height, options, term_size);
    if width == 0 || height == 0 || !fit_in_bounds_defined(
        width,
        height,
        options.cols,
        options.rows,
        options.upscale,
        term_size,
    ) {
        Some(Failure::Geometry)
    } else if size.1 > u32::MAX || !resizable(width, height, size.0 as u32, size.1 as u32) {
        Some(Failure::TooLarge)
    } else {
        None
    }
}

/// An image resized for the terminal.
pub open spec fn scaled_image(image: FrameView, options: Options, term_size: TermSize)
    -> FrameView {
    let size = scaled_size(image.width, image.height, options, term_size);
    FrameView {
        width: size.0 as u32,
        height: size.1 as u32,
        pixels: resized_pixels(
            image.pixels,
            image.width,
            image.height,
            size.0 as u32,
            size.1 as u32,
        ),
    }
}

/// Resizes an image to one pixel a column and two a row of its fit into the
/// terminal.
pub fn scale(image: &Frame, options: &Options, term_size: &TermSize) -> (scaled: Result<
    Frame,
    Error,
>)
    requires
        image.wf(),
    ensures
        failed_as(scaled, scaling_failure(image.width, image.height, *options, *term_size)),
        scaled matches Ok(frame) ==> frame.wf() && frame@ == scaled_image(
            image@,
            *options,
            *term_size,
        ),
{
    if image.width == 0 || image.height == 0 {
        return Err(Error::Geometry);
    }
    let plan = try_fit_in_bounds(
        image.width,
        image.height,
        options.cols,
        options.rows,
        options.upscale,
        term_size,
    );
    let (cols, rows) = match plan {
        Some(plan) => plan,
        None => {
            return Err(Error::Geometry);
        },
    };
    if rows > u32::MAX / 2 {
        return Err(Error::TooLarge);
    }
    let height: u32 = rows * 2;
    assert(16 * (image.width as nat) * (height as nat) <= 0x10_0000_0000_0000_0000 && 4 * (
    cols as nat) * (height as nat) <= 0x10_0000_0000_0000_0000) by (nonlinear_arith)
        requires
            image.width <= u32::MAX,
            cols <= u32::MAX,
            height <= u32::MAX,
    ;
    let held_between: u128 = 16 * (image.width as u128) * (height as u128);
    let held_after: u128 = 4 * (cols as u128) * (height as u128);
    if held_between > isize::MAX as u128 || held_after > isize::MAX as u128 {
        return Err(Error::TooLarge);
    }
    Ok(resize(image, cols, height))
}

/// The text that shows an image's file in half blocks: the image is decoded
/// and resized for the terminal.
pub open spec fn image_text(
    buffer: Seq<u8>,
    options: Options,
    term_size: TermSize,
    truecolor: bool,
) -> Result<Seq<char>, Failure> {
    match decoded_image(buffer) {
        None => Err(Failure::Image),
        Some(image) => match scaling_failure(image.width, image.height, options, term_size) {
            Some(failure) => Err(failure),
            None => Ok(
                frame_text(
                    scaled_image(image, options, term_size),
                    options.x,
                    options.y,
                    term_size.cols,
                    truecolor,
                ),
            ),
        },
    }
}

/// Decodes an image, resizes it for the terminal and appends the text that
/// shows it in half blocks. Nothing is appended where that fails.
pub fn display_image(
    out: &mut String,
    buffer: &[u8],
    options: &Options,
    term_size: &TermSize,
    truecolor: bool,
) -> (result: Result<(), Error>)
    ensures
        appended(
            old(out)@,
            final(out)@,
            result,
            image_text(buffer@, *options, *term_size, truecolor),
        ),
{
    let image = match decode(buffer) {
        Ok(image) => image,
        Err(error) => {
            return Err(Error::Image(error));
        },
    };
    let scaled = match scale(&image, options, term_size) {
        Ok(scaled) => scaled,
        Err(error) => {
            return Err(error);
        },
    };
    display_frame(out, &scaled, options, term_size, truecolor);
    Ok(())
}

/// The first `count` frames of an animation, each resized for the terminal,
/// or the reason why the first one that cannot be resized cannot.
pub open spec fn scaled_frames(
    frames: Seq<(Delay, FrameView)>,
    count: int,
    options: Options,
    term_size: TermSize,
) -> Result<Seq<(Delay, FrameView)>, Failure>
    decreases count,
{
    if count <= 0 {
        Ok(Seq::empty())
    } else {
        match scaled_frames(frames, count - 1, options, term_size) {
            Err(failure) => Err(failure),
            Ok(scaled) => {
                let (delay, image) = frames[count - 1];
                match scaling_failure(image.width, image.height, options, term_size) {
                    Some(failure) => Err(failure),
                    None => Ok(scaled.push((delay, scaled_image(image, options, term_size)))),
                }
            },
        }
    }
}

/// The frames of a GIF file, decoded and resized for the terminal.
pub open spec fn animation_frames(buffer: Seq<u8>, options: Options, term_size: TermSize)
    -> Result<Seq<(Delay, FrameView)>, Failure> {
    match decoded_frames(buffer) {
        None => Err(Failure::Image),
        Some(frames) => scaled_frames(frames, frames.len() as int, options, term_size),
    }
}

/// What becomes of a playing animation.
#[derive(Clone, Copy, Debug, PartialEq, Eq, Structural)]
pub enum Event {
    /// The delay of the next frame has passed.
    Elapsed,
    /// The user has interrupted the animation.
    Cancelled,
}

/// An animation that is being played: its frames, resized for the terminal,
/// and how far it has come.
#[derive(Debug)]
pub struct Animation {
    /// the frames in the order in which they are shown
    pub frames: Vec<AnimationFrame>,
    /// the index of the frame that is shown next
    pub next: usize,
    /// whether no frame has been shown yet
    pub first_frame: bool,
    /// whether the animation starts again after its last frame
    pub gif_loop: bool,
    /// whether the animation was interrupted
    pub cancelled: bool,
}

impl Animation {
    /// Each frame holds its pixels, and the next frame is one of them unless
    /// the animation has come to its end.
    pub open spec fn wf(&self) -> bool {
        &&& self.next <= self.frames@.len()
        &&& self.gif_loop && self.frames@.len() > 0 ==> self.next < self.frames@.len()
        &&& forall|i: int| 0 <= i < self.frames@.len() ==> (#[trigger] self.frames@[i]).image.wf()
    }

    /// Whether the animation is at its beginning, with the frames that are
    /// given.
    pub open spec fn begins(&self, frames: Seq<(Delay, FrameView)>, gif_loop: bool) -> bool {
        &&& self.wf()
        &&& self.frames@.map_values(|f: AnimationFrame| f@) == frames
        &&& self.next == 0
        &&& self.first_frame
        &&& self.gif_loop == gif_loop
        &&& !self.cancelled
    }

    /// An animation is over once it was interrupted or has shown its last
    /// frame without starting again.
    pub open spec fn spec_finished(&self) -> bool {
        self.cancelled || self.next >= self.frames@.len()
    }

    /// The text that shows the next frame: but for the first frame, the cursor
    /// is first moved up over the lines of the frame before.
    pub open spec fn next_text(&self, options: Options, term_size: TermSize, truecolor: bool)
        -> Seq<char> {
        let image = self.frames@[self.next as int].image@;
        (if self.first_frame || image.height / 2 == 0 {
            Seq::empty()
        } else {
            cursor_up_text((image.height / 2) as nat)
        }) + frame_text(image, options.x, options.y, term_size.cols, truecolor)
    }

    /// The index of the frame that follows the next one.
    pub open spec fn spec_following(&self) -> usize {
        if self.gif_loop && self.next + 1 == self.frames@.len() {
            0
        } else {
            (self.next + 1) as usize
        }
    }

    /// A new animation, which begins with its first frame.
    pub fn new(frames: Vec<AnimationFrame>, gif_loop: bool) -> (animation: Self)
        requires
            forall|i: int| 0 <= i < frames@.len() ==> (#[trigger] frames@[i]).image.wf(),
        ensures
            animation.begins(frames@.map_values(|f: AnimationFrame| f@), gif_loop),
            animation.frames == frames,
    {
        Animation { frames, next: 0, first_frame: true, gif_loop, cancelled: false }
    }

    /// Tells whether the animation is over.
    pub fn finished(&self) -> (finished: bool)
        ensures
            finished == self.spec_finished(),
    {
        self.cancelled || self.next >= self.frames.len()
    }

    /// The delay to wait for before the next frame is shown, if the animation
    /// is not over.
    pub fn next_delay(&self) -> (delay: Option<Delay>)
        ensures
            delay == if self.spec_finished() {
                None
            } else {
                Some(self.frames@[self.next as int].delay)
            },
    {
        if self.finished() {
            None
        } else {
            Some(self.frames[self.next].delay)
        }
    }

    /// Takes the animation one step on. When the delay has passed, the next
    /// frame's text is appended and the frame after it comes next, which is
    /// the first one again where the animation loops. When the user has
    /// interrupted, the animation is over, whatever frames are left. An
    /// animation that is over stays as it is.
    pub fn step(
        &mut self,
        event: Event,
        out: &mut String,
        options: &Options,
        term_size: &TermSize,
        truecolor: bool,
    )
        requires
            old(self).wf(),
        ensures
            final(self).wf(),
            final(self).frames == old(self).frames,
            final(self).gif_loop == old(self).gif_loop,
            old(self).spec_finished() ==> *final(self) == *old(self) && final(out)@ == old(out)@,
            !old(self).spec_finished() && event == Event::Cancelled ==> {
                &&& final(self).cancelled
                &&& final(self).next == old(self).next
                &&& final(self).first_frame == old(self).first_frame
                &&& final(out)@ == old(out)@
            },
            !old(self).spec_finished() && event == Event::Elapsed ==> {
                &&& !final(self).cancelled
                &&& final(self).next == old(self).spec_following()
                &&& !final(self).first_frame
                &&& final(out)@ == old(out)@ + old(self).next_text(*options, *term_size, truecolor)
            },
    {
        if self.finished() {
            return ;
        }
        match event {
            Event::Cancelled => {
                self.cancelled = true;
            },
            Event::Elapsed => {
                let count: usize = self.frames.len();
                let next: usize = self.next;
                let lines: u32 = self.frames[next].image.height / 2;
                if !self.first_frame && lines > 0 {
                    move_cursor_up(out, lines - 1);
                }
                display_frame(out, &self.frames[next].image, options, term_size, truecolor);
                self.first_frame = false;
                self.next = if self.gif_loop && next + 1 == count {
                    0
                } else {
                    next + 1
                };
                assert(out@ =~= old(out)@ + old(self).next_text(*options, *term_size, truecolor));
            },
        }
    }
}

/// Appends what ends an animation: the sequence that shows the cursor again.
pub fn end_animation(out: &mut String)
    ensures
        final(out)@ == old(out)@ + "\x1b[?25h"@,
{
    show_cursor(out);
}

/// The text that showing a GIF file appends: that of its first frame where
/// the options ask for a static image; else the sequence that hides the
/// cursor, once all frames are decoded and resized.
pub open spec fn gif_text(buffer: Seq<u8>, options: Options, term_size: TermSize, truecolor: bool)
    -> Result<Seq<char>, Failure> {
    if options.gif_static {
        image_text(buffer, options, term_size, truecolor)
    } else {
        match animation_frames(buffer, options, term_size) {
            Err(failure) => Err(failure),
            Ok(_) => Ok("\x1b[?25l"@),
        }
    }
}

/// Whether what was handed back for a GIF file is as expected: nothing for a
/// static image, else the animation at its beginning.
pub open spec fn gif_animation(
    buffer: Seq<u8>,
    options: Options,
    term_size: TermSize,
    animation: Option<Animation>,
) -> bool {
    if options.gif_static {
        animation is None
    } else {
        &&& animation matches Some(animation)
        &&& animation_frames(buffer, options, term_size) matches Ok(frames)
        &&& animation.begins(frames, options.gif_loop)
    }
}

/// Shows a GIF file: its first frame alone where the options ask for a
/// static image, else its frames one after the other. For the latter the
/// frames are decoded and resized, the cursor is hidden, and the animation is
/// handed back for its steps to be taken as time passes. Nothing is appended
/// where that fails.
pub fn display_gif(
    out: &mut String,
    buffer: &[u8],
    options: &Options,
    term_size: &TermSize,
    truecolor: bool,
) -> (result: Result<Option<Animation>, Error>)
    ensures
        appended(
            old(out)@,
            final(out)@,
            result,
            gif_text(buffer@, *options, *term_size, truecolor),
        ),
        result matches Ok(animation) ==> gif_animation(buffer@, *options, *term_size, animation),
{
    if options.gif_static {
        return match display_image(out, buffer, options, term_size, truecolor) {
            Ok(()) => Ok(None),
            Err(error) => Err(error),
        };
    }
    let decoded = match decode_frames(buffer) {
        Ok(decoded) => decoded,
        Err(error) => {
            return Err(Error::Image(error));
        },
    };
    let ghost frames = decoded@.map_values(|f: AnimationFrame| f@);
    let mut scaled: Vec<AnimationFrame> = Vec::new();
    let mut i: usize = 0;
    assert(scaled@.map_values(|f: AnimationFrame| f@) =~= Seq::empty());
    while i < decoded.len()
        invariant
            i <= decoded@.len(),
            frames == decoded@.map_values(|f: AnimationFrame| f@),
            decoded_frames(buffer@) == Some(frames),
            !options.gif_static,
            forall|j: int| 0 <= j < decoded@.len() ==> (#[trigger] decoded@[j]).image.wf(),
            forall|j: int| 0 <= j < scaled@.len() ==> (#[trigger] scaled@[j]).image.wf(),
            scaled_frames(frames, i as int, *options, *term_size) == Ok::<
                Seq<(Delay, FrameView)>,
                Failure,
            >(scaled@.map_values(|f: AnimationFrame| f@)),
            out@ == old(out)@,
        decreases decoded@.len() - i,
    {
        let ghost done = scaled@.map_values(|f: AnimationFrame| f@);
        assert(frames[i as int] == decoded@[i as int]@);
        match scale(&decoded[i].image, options, term_size) {
            Ok(image) => {
                scaled.push(AnimationFrame { delay: decoded[i].delay, image });
            },
            Err(error) => {
                proof {
                    assert(scaled_frames(frames, i as int + 1, *options, *term_size) == Err::<
                        Seq<(Delay, FrameView)>,
                        Failure,
                    >(error.spec_failure()));
                    lemma_scaled_frames_fail(
                        frames,
                        i as int + 1,
                        frames.len() as int,
                        *options,
                        *term_size,
                    );
                }
                return Err(error);
            },
        }
        assert(scaled@.map_values(|f: AnimationFrame| f@) =~= done.push(
            (decoded@[i as int].delay, scaled_image(decoded@[i as int].image@, *options, *term_size)),
        ));
        i += 1;
    }
    hide_cursor(out);
    Ok(Some(Animation::new(scaled, options.gif_loop)))
}

/// Once a frame cannot be resized, no longer run of frames can.
proof fn lemma_scaled_frames_fail(
    frames: Seq<(Delay, FrameView)>,
    failed: int,
    count: int,
    options: Options,
    term_size: TermSize,
)
    requires
        failed <= count,
        scaled_frames(frames, failed, options, term_size) is Err,
    ensures
        scaled_frames(frames, count, options, term_size) == scaled_frames(
            frames,
            failed,
            options,
            term_size,
        ),
    decreases count - failed,
{
    if failed < count {
        lemma_scaled_frames_fail(frames, failed, count - 1, options, term_size);
    }
}

/// The text that a preview appends. Only a display can be asked for, and the
/// file's format must be known. A GIF file is shown as `display_gif` shows
/// it, any other file as one image.
pub open spec fn preview_text(
    buffer: Seq<u8>,
    options: Options,
    term_size: TermSize,
    truecolor: bool,
) -> Result<Seq<char>, Failure> {
    match spec_unsupported_action(options) {
        Some(action) => Err(Failure::ActionUnsupported(action)),
        None => if !format_is_known(buffer) {
            Err(Failure::Image)
        } else if is_gif(buffer) {
            gif_text(buffer, options, term_size, truecolor)
        } else {
            image_text(buffer, options, term_size, truecolor)
        },
    }
}

/// Previews an image in half blocks of the terminal's character grid. A GIF
/// file is shown frame by frame unless the options ask for a static image:
/// its animation is handed back. Any other file is shown once. Nothing is
/// appended where the preview fails.
pub fn preview(
    out: &mut String,
    buffer: &[u8],
    options: &Options,
    term_size: &TermSize,
    truecolor: bool,
) -> (result: Result<Option<Animation>, Error>)
    ensures
        appended(
            old(out)@,
            final(out)@,
            result,
            preview_text(buffer@, *options, *term_size, truecolor),
        ),
        result matches Ok(animation) ==> if is_gif(buffer@) {
            gif_animation(buffer@, *options, *term_size, animation)
        } else {
            animation is None
        },
{
    if let Some(action) = unsupported_action(options) {
        return Err(Error::ActionUnsupported(action));
    }
    match guess_gif(buffer) {
        Err(error) => Err(Error::Image(error)),
        Ok(true) => display_gif(out, buffer, options, term_size, truecolor),
        Ok(false) => match display_image(out, buffer, options, term_size, truecolor) {
            Ok(()) => Ok(None),
            Err(error) => Err(error),
        },
    }
}

} // verus!
