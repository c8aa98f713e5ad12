use crate::options::Options;
use crate::previewer::{spec_unsupported_action, unsupported_action};
use crate::result::{appended, Error, Failure};
use crate::utils::{
    cursor_text, fit_in_bounds_defined, fit_in_term, move_cursor, probe_size, probed_size,
    try_fit_in_bounds, TermSize,
};
use vstd::prelude::*;

verus! {

/// How the encoder resamples an image that it resizes.
#[derive(Clone, Copy, Debug, PartialEq, Eq, Structural)]
pub enum ResampleMethod {
    Nearest,
    Gaussian,
    Hanning,
    Hamming,
    Bilinear,
    Welsh,
    Bicubic,
    Lanczos2,
    Lanczos3,
    Lanczos4,
}

/// What the encoder aims for.
#[derive(Clone, Copy, Debug, PartialEq, Eq, Structural)]
pub enum EncodePolicy {
    Auto,
    Fast,
    Size,
}

/// What the sixel encoder is asked to do with an image's file.
#[derive(Clone, Copy, Debug, PartialEq, Eq, Structural)]
pub struct Encoding {
    /// the width of the picture, in pixels
    pub width: u64,
    /// the height of the picture, in pixels
    pub height: u64,
    /// how the image is resampled
    pub resampling: ResampleMethod,
    /// what the encoder aims for
    pub policy: EncodePolicy,
    /// whether only the first frame of an animation is encoded
    pub use_static: bool,
}

/// What the encoder is asked to do with an image of `width` by `height`
/// pixels: a picture that covers the cells of the image's fit into the
/// terminal, resampled to the nearest pixel and encoded fast.
pub open spec fn encoding(width: u32, height: u32, options: Options, term_size: TermSize)
    -> Encoding {
    let plan = fit_in_term(width, height, options.cols, options.rows, options.upscale, term_size);
    let cell = term_size.spec_cell_size_or_default();
    Encoding {
        width: (plan.0 * cell.0) as u64,
        height: (plan.1 * cell.1) as u64,
        resampling: ResampleMethod::Nearest,
        policy: EncodePolicy::Fast,
        use_static: options.gif_static,
    }
}

/// The text that a display appends before the encoder writes the picture:
/// the sequence that moves the cursor to the image's place. The image's size
/// is read from its header.
pub open spec fn display_text(buffer: Seq<u8>, options: Options, term_size: TermSize) -> Result<
    Seq<char>,
    Failure,
> {
    match probed_size(buffer) {
        None => Err(Failure::ImageSize),
        Some(size) => if !fit_in_bounds_defined(
            size.0 as u32,
            size.1 as u32,
            options.cols,
            options.rows,
            options.upscale,
            term_size,
        ) {
            Err(Failure::Geometry)
        } else {
            Ok(cursor_text(options.x, options.y))
        },
    }
}

/// Prepares the display of an image as sixels: appends the sequence that
/// moves the cursor to the image's place, and hands back what the encoder is
/// to do after that text has reached the terminal. Nothing is appended where
/// that fails.
pub fn display(out: &mut String, buffer: &[u8], options: &Options, term_size: &TermSize) -> (result:
    Result<Encoding, Error>)
    ensures
        appended(old(out)@, final(out)@, result, display_text(buffer@, *options, *term_size)),
        result matches Ok(job) ==> probed_size(buffer@) matches Some(size) && job == encoding(
            size.0 as u32,
            size.1 as u32,
            *options,
            *term_size,
        ),
{
    let size = match probe_size(buffer) {
        Ok(size) => size,
        Err(error) => {
            return Err(Error::ImageSize(error));
        },
    };
    let width: u32 = #[verifier::truncate] (size.0 as u32);
    let height: u32 = #[verifier::truncate] (size.1 as u32);
    let (cols, rows) = match try_fit_in_bounds(
        width,
        height,
        options.cols,
        options.rows,
        options.upscale,
        term_size,
    ) {
        Some(plan) => plan,
        None => {
            return Err(Error::Geometry);
        },
    };
    let (col_size, row_size) = term_size.cell_size_or_default();
    assert((cols as nat) * (col_size as nat) <= u64::MAX && (rows as nat) * (row_size as nat)
        <= u64::MAX) by (nonlinear_arith)
        requires
            cols <= u32::MAX,
            rows <= u32::MAX,
            col_size <= u32::MAX,
            row_size <= u32::MAX,
    ;
    let job = Encoding {
        width: cols as u64 * col_size as u64,
        height: rows as u64 * row_size as u64,
        resampling: ResampleMethod::Nearest,
        policy: EncodePolicy::Fast,
        use_static: options.gif_static,
    };
    move_cursor(out, options.x, options.y);
    Ok(job)
}

/// The text that a preview appends: that of a display, which is all that can
/// be asked for.
pub open spec fn preview_text(buffer: Seq<u8>, options: Options, term_size: TermSize) -> Result<
    Seq<char>,
    Failure,
> {
    match spec_unsupported_action(options) {
        Some(action) => Err(Failure::ActionUnsupported(action)),
        None => display_text(buffer, options, term_size),
    }
}

/// Prepares the preview of an image as sixels. Nothing is appended where that
/// fails.
pub fn preview(out: &mut String, buffer: &[u8], options: &Options, term_size: &TermSize) -> (result:
    Result<Encoding, Error>)
    ensures
        appended(old(out)@, final(out)@, result, preview_text(buffer@, *options, *term_size)),
        result matches Ok(job) ==> probed_size(buffer@) matches Some(size) && job == encoding(
            size.0 as u32,
            size.1 as u32,
            *options,
            *term_size,
        ),
{
    if let Some(action) = unsupported_action(options) {
        return Err(Error::ActionUnsupported(action));
    }
    display(out, buffer, options, term_size)
}

} // verus!
