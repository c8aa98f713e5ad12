use crate::options::Options;
use crate::previewer::{spec_unsupported_action, unsupported_action};
use crate::result::{appended, Error, Failure};
use crate::text::{decimal, push_decimal};
use crate::utils::{
    base64_encodable, base64_fits, base64_standard, convert_to_image_buffer, cursor_text, decode,
    decoded_image, encode_base64, fit_in_bounds_defined, fit_in_term, format_is_known, guess_gif,
    is_gif, move_cursor, png_encoded, probe_size, probed_size, try_fit_in_bounds, TermSize,
};
use vstd::prelude::*;
use vstd::string::StringExecFns;

verus! {

/// The command that shows an image inline, in a box of cells: the size of the
/// box, then the image's file in base64.
pub open spec fn inline_image_text(cols: nat, rows: nat, data: Seq<char>) -> Seq<char> {
    "\x1b]1337;File=width="@ + decimal(cols) + ";height="@ + decimal(rows) + ";inline=1;:"@ + data
        + "\x07\r"@
}

/// The file that is sent to the terminal: the image's own bytes, or, for a
/// GIF file of which a static image is asked, its first frame as a PNG file.
/// The first frame must have the size that the file's header gives.
pub open spec fn payload(buffer: Seq<u8>, gif_static: bool, width: u32, height: u32) -> Result<
    Seq<u8>,
    Failure,
> {
    if !format_is_known(buffer) {
        Err(Failure::Image)
    } else if is_gif(buffer) && gif_static {
        match decoded_image(buffer) {
            None => Err(Failure::Image),
            Some(image) => if image.width != width || image.height != height {
                Err(Failure::Geometry)
            } else {
                match png_encoded(image.pixels, width, height) {
                    None => Err(Failure::Image),
                    Some(png) => Ok(png),
                }
            },
        }
    } else {
        Ok(buffer)
    }
}

/// The text that shows an image: the sequence that moves the cursor to the
/// image's place, then the command that shows the image inline in the box of
/// its fit into the terminal. The image's size is read from its header.
pub open spec fn display_text(buffer: Seq<u8>, options: Options, term_size: TermSize) -> Result<
    Seq<char>,
    Failure,
> {
    match probed_size(buffer) {
        None => Err(Failure::ImageSize),
        Some(size) => {
            let width = size.0 as u32;
            let height = size.1 as u32;
            let plan = fit_in_term(
                width,
                height,
                options.cols,
                options.rows,
                options.upscale,
                term_size,
            );
            if !fit_in_bounds_defined(
                width,
                height,
                options.cols,
                options.rows,
                options.upscale,
                term_size,
            ) {
                Err(Failure::Geometry)
            } else {
                match payload(buffer, options.gif_static, width, height) {
                    Err(failure) => Err(failure),
                    Ok(data) => if !base64_fits(data.len()) {
                        Err(Failure::TooLarge)
                    } else {
                        Ok(
                            cursor_text(options.x, options.y) + inline_image_text(
                                plan.0,
                                plan.1,
                                base64_standard(data),
                            ),
                        )
                    },
                }
            }
        },
    }
}

/// Encodes the file that is sent to the terminal.
fn encode_payload(buffer: &[u8], gif_static: bool, width: u32, height: u32) -> (data: Result<
    String,
    Error,
>)
    ensures
        match payload(buffer@, gif_static, width, height) {
            Err(failure) => data matches Err(error) && error.spec_failure() == failure,
            Ok(bytes) => if base64_fits(bytes.len()) {
                data matches Ok(text) && text@ == base64_standard(bytes)
            } else {
                data matches Err(Error::TooLarge)
            },
        },
{
    let gif = match guess_gif(buffer) {
        Ok(gif) => gif,
        Err(error) => {
            return Err(Error::Image(error));
        },
    };
    if gif && gif_static {
        let image = match decode(buffer) {
            Ok(image) => image,
            Err(error) => {
                return Err(Error::Image(error));
            },
        };
        if image.width != width || image.height != height {
            return Err(Error::Geometry);
        }
        let png = match convert_to_image_buffer(&image, width, height) {
            Ok(png) => png,
            Err(error) => {
                return Err(Error::Image(error));
            },
        };
        if !base64_encodable(png.len()) {
            return Err(Error::TooLarge);
        }
        Ok(encode_base64(png.as_slice()))
    } else {
        if !base64_encodable(buffer.len()) {
            return Err(Error::TooLarge);
        }
        Ok(encode_base64(buffer))
    }
}

/// Appends the text that shows an image inline. Nothing is appended where
/// that fails.
pub fn display(out: &mut String, buffer: &[u8], options: &Options, term_size: &TermSize) -> (result:
    Result<(), Error>)
    ensures
        appended(old(out)@, final(out)@, result, display_text(buffer@, *options, *term_size)),
{
    let size = match probe_size(buffer) {
        Ok(size) => size,
        Err(error) => {
            return Err(Error::ImageSize(error));
        },
    };
    let width: u32 = #[verifier::truncate] (size.0 as u32);
    let height: u32 = #[verifier::truncate] (size.1 as u32);
    let (cols, rows) = match try_fit_in_bounds(
        width,
        height,
        options.cols,
        options.rows,
        options.upscale,
        term_size,
    ) {
        Some(plan) => plan,
        None => {
            return Err(Error::Geometry);
        },
    };
    let data = match encode_payload(buffer, options.gif_static, width, height) {
        Ok(data) => data,
        Err(error) => {
            return Err(error);
        },
    };
    move_cursor(out, options.x, options.y);
    out.append("\x1b]1337;File=width=");
    push_decimal(out, cols as u64);
    out.append(";height=");
    push_decimal(out, rows as u64);
    out.append(";inline=1;:");
    out.append(data.as_str());
    out.append("\x07\r");
    assert(out@ =~= old(out)@ + (cursor_text(options.x, options.y) + inline_image_text(
        cols as nat,
        rows as nat,
        data@,
    )));
    Ok(())
}

/// The text that a preview appends: that of a display, which is all that can
/// be asked for.
pub open spec fn preview_text(buffer: Seq<u8>, options: Options, term_size: TermSize) -> Result<
    Seq<char>,
    Failure,
> {
    match spec_unsupported_action(options) {
        Some(action) => Err(Failure::ActionUnsupported(action)),
        None => display_text(buffer, options, term_size),
    }
}

/// Previews an image with the inline images of iTerm. Nothing is appended
/// where that fails.
pub fn preview(out: &mut String, buffer: &[u8], options: &Options, term_size: &TermSize) -> (result:
    Result<(), Error>)
    ensures
        appended(old(out)@, final(out)@, result, preview_text(buffer@, *options, *term_size)),
{
    if let Some(action) = unsupported_action(options) {
        return Err(Error::ActionUnsupported(action));
    }
    display(out, buffer, options, term_size)
}

} // verus!
