use crate::options::Options;
use crate::previewer::blocks::Animation;
use crate::previewer::sixel::Encoding;
use crate::result::{failed_as, Action, Error, Failure};
use crate::support::Protocol;
use crate::utils::{handle_spacing, is_gif, probed_size, spacing_text, Frame, TermSize};
use vstd::prelude::*;

/// Half blocks of the terminal's own character grid
pub mod blocks;
/// The inline images of iTerm
pub mod iterm;
/// The graphics protocol of the Kitty terminal
pub mod kitty;
/// Sixels
pub mod sixel;

verus! {

/// What the options ask for that only the Kitty renderer can do, if
/// anything: to clear, or to load under an id, alone or before a display.
pub open spec fn spec_unsupported_action(options: Options) -> Option<Action> {
    if options.clear is Some {
        Some(Action::Clear)
    } else if options.load is Some && options.display is Some {
        Some(Action::LoadAndDisplay)
    } else if options.load is Some {
        Some(Action::Load)
    } else {
        None
    }
}

/// Tells what the options ask for that only the Kitty renderer can do.
pub fn unsupported_action(options: &Options) -> (action: Option<Action>)
    ensures
        action == spec_unsupported_action(*options),
{
    if options.clear.is_some() {
        Some(Action::Clear)
    } else if options.load.is_some() && options.display.is_some() {
        Some(Action::LoadAndDisplay)
    } else if options.load.is_some() {
        Some(Action::Load)
    } else {
        None
    }
}

/// What is left to do for an image once its text is made.
#[derive(Debug)]
pub enum Followup {
    /// Nothing: the text shows the image.
    Nothing,
    /// The pixels are to be written to the temporary file that the text names,
    /// before the text reaches the terminal.
    Persist(Frame),
    /// The sixel encoder is to write the picture, after the text has reached
    /// the terminal.
    Encode(Encoding),
    /// The animation is to be played, after the text has reached the terminal.
    Animate(Animation),
}

/// The options that an image is previewed with: where more than one path is
/// given, a row is no longer asked for, since each image would cover the one
/// before.
pub open spec fn effective_options(options: Options) -> Options {
    if options.y is Some && options.path@.len() > 1 {
        Options { y: None, ..options }
    } else {
        options
    }
}

/// The blank lines that set an image apart from the one before: those that
/// the options ask for, where more than one path is given and the image is
/// not the first that is shown.
pub open spec fn separation_text(options: Options, position: usize) -> Seq<char> {
    if position > 0 && options.path@.len() > 1 {
        spacing_text(options.spacing)
    } else {
        Seq::empty()
    }
}

/// A text that is appended whole or not at all, as a text with the failure
/// that it may end in.
pub open spec fn whole(text: Result<Seq<char>, Failure>) -> (Seq<char>, Option<Failure>) {
    match text {
        Ok(text) => (text, None),
        Err(failure) => (Seq::empty(), Some(failure)),
    }
}

/// The text that the renderer of a protocol appends for an image, and why it
/// fails if it does.
pub open spec fn rendered_text(
    protocol: Protocol,
    buffer: Seq<u8>,
    temp_path: Option<&str>,
    options: Options,
    term_size: TermSize,
    truecolor: bool,
) -> (Seq<char>, Option<Failure>) {
    match protocol {
        Protocol::Kitty => kitty::preview_text(buffer, temp_path, options, term_size),
        Protocol::Iterm => whole(iterm::preview_text(buffer, options, term_size)),
        Protocol::Sixel => whole(sixel::preview_text(buffer, options, term_size)),
        Protocol::Blocks => whole(blocks::preview_text(buffer, options, term_size, truecolor)),
    }
}

/// Whether what is left to do for an image is what the renderer of the
/// protocol leaves: pixels to write where the Kitty renderer hands some over,
/// a picture to encode for sixels, an animation to play for a GIF file in
/// half blocks that is not shown as a static image, and nothing otherwise.
pub open spec fn left_to_do(
    followup: Followup,
    protocol: Protocol,
    buffer: Seq<u8>,
    options: Options,
    term_size: TermSize,
) -> bool {
    match protocol {
        Protocol::Kitty => if kitty::spec_needs_temp_file(options) {
            followup matches Followup::Persist(frame) && kitty::pixels_of(frame, buffer)
        } else {
            followup is Nothing
        },
        Protocol::Iterm => followup is Nothing,
        Protocol::Sixel => {
            &&& followup matches Followup::Encode(job)
            &&& probed_size(buffer) matches Some(size)
            &&& job == sixel::encoding(size.0 as u32, size.1 as u32, options, term_size)
        },
        Protocol::Blocks => if is_gif(buffer) && !options.gif_static {
            followup matches Followup::Animate(animation) && blocks::gif_animation(
                buffer,
                options,
                term_size,
                Some(animation),
            )
        } else {
            followup is Nothing
        },
    }
}

/// Previews one of the images that the options name, with the protocol that
/// was chosen. `position` tells how many images were shown before this one.
///
/// Where more than one path is given, the options no longer ask for a row,
/// and every image but the first is set apart by the blank lines that the
/// options ask for. Then the renderer of the protocol appends its text. What
/// was appended before a failure stays.
pub fn preview(
    out: &mut String,
    options: &mut Options,
    protocol: Protocol,
    position: usize,
    buffer: &[u8],
    temp_path: Option<&str>,
    term_size: &TermSize,
    truecolor: bool,
) -> (result: Result<Followup, Error>)
    ensures
        *final(options) == effective_options(*old(options)),
        final(out)@ == old(out)@ + separation_text(*old(options), position) + rendered_text(
            protocol,
            buffer@,
            temp_path,
            *final(options),
            *term_size,
            truecolor,
        ).0,
        failed_as(
            result,
            rendered_text(protocol, buffer@, temp_path, *final(options), *term_size, truecolor).1,
        ),
        result matches Ok(followup) ==> left_to_do(
            followup,
            protocol,
            buffer@,
            *final(options),
            *term_size,
        ),
{
    // If there is more than one path, render `-y` flag useless
    if options.y.is_some() && options.path.len() > 1 {
        options.y = None;
    }
    if position > 0 && options.path.len() > 1 {
        handle_spacing(out, options.spacing);
    }
    assert(out@ =~= old(out)@ + separation_text(*old(options), position));
    let ghost separated = out@;
    let result = match protocol {
        Protocol::Kitty => match kitty::preview(out, buffer, temp_path, options, term_size) {
            Ok(Some(frame)) => Ok(Followup::Persist(frame)),
            Ok(None) => Ok(Followup::Nothing),
            Err(error) => Err(error),
        },
        Protocol::Iterm => match iterm::preview(out, buffer, options, term_size) {
            Ok(()) => Ok(Followup::Nothing),
            Err(error) => Err(error),
        },
        Protocol::Sixel => match sixel::preview(out, buffer, options, term_size) {
            Ok(job) => Ok(Followup::Encode(job)),
            Err(error) => Err(error),
        },
        Protocol::Blocks => match blocks::preview(out, buffer, options, term_size, truecolor) {
            Ok(Some(animation)) => Ok(Followup::Animate(animation)),
            Ok(None) => Ok(Followup::Nothing),
            Err(error) => Err(error),
        },
    };
    assert(out@ =~= old(out)@ + separation_text(*old(options), position) + rendered_text(
        protocol,
        buffer@,
        temp_path,
        *options,
        *term_size,
        truecolor,
    ).0);
    result
}

} // verus!
