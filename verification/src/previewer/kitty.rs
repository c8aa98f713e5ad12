use crate::options::Options;
use crate::result::{appended, failed_as, Error, Failure};
use crate::text::{decimal, push_decimal};
use crate::utils::{
    base64_encodable, base64_fits, base64_standard, cursor_text, decode, decoded_image,
    encode_base64, fit_in_bounds_defined, fit_in_term, move_cursor, probe_size, probed_size,
    try_fit_in_bounds, Frame, TermSize,
};
use vstd::prelude::*;
use vstd::string::StringExecFns;
use vstd::string::StringSliceAdditionalSpecFns;

verus! {

/// The bytes that a command carries as its payload: those of the text that is
/// given, or none.
pub open spec fn payload_bytes(payload: Option<&str>) -> Seq<u8> {
    match payload {
        Some(text) => text.spec_bytes(),
        None => Seq::empty(),
    }
}

/// A command of the graphics protocol: the start marker, the control fields,
/// a semicolon, the payload in base64, the end marker and a line feed. A
/// command without payload keeps the semicolon.
pub open spec fn graphics_command_text(command: Seq<char>, payload: Seq<u8>) -> Seq<char> {
    "\x1b_G"@ + command + ";"@ + base64_standard(payload) + "\x1b\\"@ + "\n"@
}

/// The control fields that clear all images, for the id 0, or the image of
/// another id.
pub open spec fn clear_fields(id: u32) -> Seq<char> {
    if id == 0 {
        "a=d,d=a"@
    } else {
        "a=d,d=i,i="@ + decimal(id as nat)
    }
}

/// The control fields that transmit an image of RGBA pixels through a
/// temporary file, under an id and without showing it.
pub open spec fn load_fields(width: u32, height: u32, id: u32) -> Seq<char> {
    "a=t,t=t,f=32,s="@ + decimal(width as nat) + ",v="@ + decimal(height as nat) + ",i="@
        + decimal(id as nat) + ",q=2"@
}

/// The control fields that show an image that was transmitted under an id, in
/// a box of cells.
pub open spec fn put_fields(cols: nat, rows: nat, id: u32) -> Seq<char> {
    "a=p,c="@ + decimal(cols) + ",r="@ + decimal(rows) + ",i="@ + decimal(id as nat) + ",q=2"@
}

/// The control fields that transmit an image of RGBA pixels through a
/// temporary file and show it at once, in a box of cells.
pub open spec fn show_fields(width: u32, height: u32, cols: nat, rows: nat) -> Seq<char> {
    "a=T,t=t,I=13,f=32,s="@ + decimal(width as nat) + ",v="@ + decimal(height as nat) + ",c="@
        + decimal(cols) + ",r="@ + decimal(rows) + ",q=2"@
}

/// The text of a command, unless its payload is too long to be encoded.
pub open spec fn command_text(command: Seq<char>, payload: Option<&str>) -> Result<
    Seq<char>,
    Failure,
> {
    if base64_fits(payload_bytes(payload).len()) {
        Ok(graphics_command_text(command, payload_bytes(payload)))
    } else {
        Err(Failure::TooLarge)
    }
}

/// Builds a command of the graphics protocol, unless its payload is too long
/// to be encoded.
fn graphics_command(command: &str, payload: Option<&str>) -> (text: Result<String, Error>)
    ensures
        failed_as(text, command_text(command@, payload).err()),
        text matches Ok(text) ==> Ok::<Seq<char>, Failure>(text@) == command_text(
            command@,
            payload,
        ),
{
    let none: [u8; 0] = [];
    let bytes: &[u8] = match payload {
        Some(text) => text.as_bytes(),
        None => none.as_slice(),
    };
    assert(bytes@ =~= payload_bytes(payload));
    if !base64_encodable(bytes.len()) {
        return Err(Error::TooLarge);
    }
    let data = encode_base64(bytes);
    let mut text = String::from_str("\x1b_G");
    text.append(command);
    text.append(";");
    text.append(data.as_str());
    text.append("\x1b\\");
    text.append("\n");
    assert(text@ =~= graphics_command_text(command@, payload_bytes(payload)));
    Ok(text)
}

/// Appends a command of the graphics protocol. Nothing is appended where the
/// payload is too long to be encoded.
pub fn send_graphics_command(out: &mut String, command: &str, payload: Option<&str>) -> (result:
    Result<(), Error>)
    ensures
        appended(old(out)@, final(out)@, result, command_text(command@, payload)),
{
    match graphics_command(command, payload) {
        Ok(text) => {
            out.append(text.as_str());
            Ok(())
        },
        Err(error) => Err(error),
    }
}

/// The command that clears all images, for the id 0, or the image of another
/// id.
pub open spec fn clear_text(id: u32) -> Seq<char> {
    graphics_command_text(clear_fields(id), Seq::empty())
}

/// Appends the command that clears all images, for the id 0, or the image of
/// another id.
pub fn clear(out: &mut String, id: u32)
    ensures
        final(out)@ == old(out)@ + clear_text(id),
{
    let sent = if id == 0 {
        send_graphics_command(out, "a=d,d=a", None)
    } else {
        let mut fields = String::from_str("a=d,d=i,i=");
        push_decimal(&mut fields, id as u64);
        send_graphics_command(out, fields.as_str(), None)
    };
    assert(sent is Ok);
}

/// The text that a load appends: the command that transmits the image, once
/// the image is decoded. A load needs an id, and a path of the temporary file
/// that can be encoded.
pub open spec fn load_text(id: Option<u32>, buffer: Seq<u8>, temp_path: Option<&str>) -> Result<
    Seq<char>,
    Failure,
> {
    match id {
        None => Err(Failure::MissingId),
        Some(id) => match decoded_image(buffer) {
            None => Err(Failure::Image),
            Some(image) => command_text(load_fields(image.width, image.height, id), temp_path),
        },
    }
}

/// Whether a frame holds the pixels that an image's file decodes to.
pub open spec fn pixels_of(frame: Frame, buffer: Seq<u8>) -> bool {
    frame.wf() && decoded_image(buffer) == Some(frame@)
}

/// Hands an image over to the terminal under an id, without showing it: the
/// command that transmits the image is appended, and the image's pixels are
/// handed back, to be written to the temporary file before the command
/// reaches the terminal. Nothing is appended where that fails.
pub fn load(out: &mut String, id: Option<u32>, buffer: &[u8], temp_path: Option<&str>) -> (result:
    Result<Frame, Error>)
    ensures
        appended(old(out)@, final(out)@, result, load_text(id, buffer@, temp_path)),
        result matches Ok(frame) ==> pixels_of(frame, buffer@),
{
    let id: u32 = match id {
        Some(id) => id,
        None => {
            return Err(Error::MissingId);
        },
    };
    let image = match decode(buffer) {
        Ok(image) => image,
        Err(error) => {
            return Err(Error::Image(error));
        },
    };
    let mut fields = String::from_str("a=t,t=t,f=32,s=");
    push_decimal(&mut fields, image.width as u64);
    fields.append(",v=");
    push_decimal(&mut fields, image.height as u64);
    fields.append(",i=");
    push_decimal(&mut fields, id as u64);
    fields.append(",q=2");
    assert(fields@ =~= load_fields(image.width, image.height, id));
    match send_graphics_command(out, fields.as_str(), temp_path) {
        Ok(()) => Ok(image),
        Err(error) => Err(error),
    }
}

/// The text that a display appends: the sequence that moves the cursor to the
/// image's place, then a command.
///
/// With an id, the image was handed over before: its size is read from its
/// header, and the command that puts it on the screen has no payload. Without
/// an id, the image is decoded, and one command transmits and shows it.
/// Either way the image is fitted into the terminal.
pub open spec fn display_text(
    id: Option<u32>,
    buffer: Seq<u8>,
    temp_path: Option<&str>,
    options: Options,
    term_size: TermSize,
) -> Result<Seq<char>, Failure> {
    match id {
        Some(id) => match probed_size(buffer) {
            None => Err(Failure::ImageSize),
            Some(size) => {
                let width = size.0 as u32;
                let height = size.1 as u32;
                let plan = fit_in_term(
                    width,
                    height,
                    options.cols,
                    options.rows,
                    options.upscale,
                    term_size,
                );
                if !fit_in_bounds_defined(
                    width,
                    height,
                    options.cols,
                    options.rows,
                    options.upscale,
                    term_size,
                ) {
                    Err(Failure::Geometry)
                } else {
                    Ok(
                        cursor_text(options.x, options.y) + graphics_command_text(
                            put_fields(plan.0, plan.1, id),
                            Seq::empty(),
                        ),
                    )
                }
            },
        },
        None => match decoded_image(buffer) {
            None => Err(Failure::Image),
            Some(image) => {
                let plan = fit_in_term(
                    image.width,
                    image.height,
                    options.cols,
                    options.rows,
                    options.upscale,
                    term_size,
                );
                if !fit_in_bounds_defined(
                    image.width,
                    image.height,
                    options.cols,
                    options.rows,
                    options.upscale,
                    term_size,
                ) {
                    Err(Failure::Geometry)
                } else {
                    match command_text(
                        show_fields(image.width, image.height, plan.0, plan.1),
                        temp_path,
                    ) {
                        Err(failure) => Err(failure),
                        Ok(command) => Ok(cursor_text(options.x, options.y) + command),
                    }
                }
            },
        },
    }
}

/// Shows an image: one that was handed over under an id, or the image itself.
/// For the latter the image's pixels are handed back, to be written to the
/// temporary file before the command reaches the terminal. Nothing is
/// appended where that fails.
pub fn display(
    out: &mut String,
    id: Option<u32>,
    buffer: &[u8],
    temp_path: Option<&str>,
    options: &Options,
    term_size: &TermSize,
) -> (result: Result<Option<Frame>, Error>)
    ensures
        appended(
            old(out)@,
            final(out)@,
            result,
            display_text(id, buffer@, temp_path, *options, *term_size),
        ),
        result matches Ok(pixels) ==> if id is Some {
            pixels is None
        } else {
            pixels matches Some(frame) && pixels_of(frame, buffer@)
        },
{
    if let Some(id) = id {
        let size = match probe_size(buffer) {
            Ok(size) => size,
            Err(error) => {
                return Err(Error::ImageSize(error));
            },
        };
        let width: u32 = #[verifier::truncate] (size.0 as u32);
        let height: u32 = #[verifier::truncate] (size.1 as u32);
        let (cols, rows) = match try_fit_in_bounds(
            width,
            height,
            options.cols,
            options.rows,
            options.upscale,
            term_size,
        ) {
            Some(plan) => plan,
            None => {
                return Err(Error::Geometry);
            },
        };
        let mut fields = String::from_str("a=p,c=");
        push_decimal(&mut fields, cols as u64);
        fields.append(",r=");
        push_decimal(&mut fields, rows as u64);
        fields.append(",i=");
        push_decimal(&mut fields, id as u64);
        fields.append(",q=2");
        assert(fields@ =~= put_fields(cols as nat, rows as nat, id));
        let command = match graphics_command(fields.as_str(), None) {
            Ok(command) => command,
            Err(error) => {
                return Err(error);
            },
        };
        move_cursor(out, options.x, options.y);
        out.append(command.as_str());
        assert(out@ =~= old(out)@ + (cursor_text(options.x, options.y) + command@));
        Ok(None)
    } else {
        let image = match decode(buffer) {
            Ok(image) => image,
            Err(error) => {
                return Err(Error::Image(error));
            },
        };
        let (cols, rows) = match try_fit_in_bounds(
            image.width,
            image.height,
            options.cols,
            options.rows,
            options.upscale,
            term_size,
        ) {
            Some(plan) => plan,
            None => {
                return Err(Error::Geometry);
            },
        };
        let mut fields = String::from_str("a=T,t=t,I=13,f=32,s=");
        push_decimal(&mut fields, image.width as u64);
        fields.append(",v=");
        push_decimal(&mut fields, image.height as u64);
        fields.append(",c=");
        push_decimal(&mut fields, cols as u64);
        fields.append(",r=");
        push_decimal(&mut fields, rows as u64);
        fields.append(",q=2");
        assert(fields@ =~= show_fields(image.width, image.height, cols as nat, rows as nat));
        let command = match graphics_command(fields.as_str(), temp_path) {
            Ok(command) => command,
            Err(error) => {
                return Err(error);
            },
        };
        move_cursor(out, options.x, options.y);
        out.append(command.as_str());
        assert(out@ =~= old(out)@ + (cursor_text(options.x, options.y) + command@));
        Ok(Some(image))
    }
}

/// Whether a preview hands pixels over to the terminal, so that a temporary
/// file is needed for them: it does unless it only shows an image that was
/// handed over before.
pub open spec fn spec_needs_temp_file(options: Options) -> bool {
    options.load is Some || options.display is None
}

/// Tells whether a preview hands pixels over to the terminal.
pub fn needs_temp_file(options: &Options) -> (needed: bool)
    ensures
        needed == spec_needs_temp_file(*options),
{
    options.load.is_some() || options.display.is_none()
}

/// The text that a preview begins with: the command that clears, where the
/// options ask for it.
pub open spec fn cleared_text(options: Options) -> Seq<char> {
    match options.clear {
        Some(id) => clear_text(id),
        None => Seq::empty(),
    }
}

/// The text that a preview appends, and why it fails if it does. Images are
/// first cleared where the options ask for it. Then the image is loaded under
/// an id and shown by another, where both are given; loaded, where only that
/// id is given; shown, by the id that is given or by itself. What was
/// appended before a failure stays.
pub open spec fn preview_text(
    buffer: Seq<u8>,
    temp_path: Option<&str>,
    options: Options,
    term_size: TermSize,
) -> (Seq<char>, Option<Failure>) {
    let cleared = cleared_text(options);
    let shown = display_text(options.display, buffer, temp_path, options, term_size);
    match options.load {
        Some(id) => match load_text(Some(id), buffer, temp_path) {
            Err(failure) => (cleared, Some(failure)),
            Ok(loaded) => if options.display is None {
                (cleared + loaded, None)
            } else {
                match shown {
                    Err(failure) => (cleared + loaded, Some(failure)),
                    Ok(shown) => (cleared + loaded + shown, None),
                }
            },
        },
        None => match shown {
            Err(failure) => (cleared, Some(failure)),
            Ok(shown) => (cleared + shown, None),
        },
    }
}

/// Previews an image with the graphics protocol, as the options ask for it.
/// Where pixels are handed over to the terminal, they are handed back, to be
/// written to the temporary file before the text reaches the terminal; where
/// the display fails after a load, they are not.
pub fn preview(
    out: &mut String,
    buffer: &[u8],
    temp_path: Option<&str>,
    options: &Options,
    term_size: &TermSize,
) -> (result: Result<Option<Frame>, Error>)
    ensures
        final(out)@ == old(out)@ + preview_text(buffer@, temp_path, *options, *term_size).0,
        failed_as(result, preview_text(buffer@, temp_path, *options, *term_size).1),
        result matches Ok(pixels) ==> if spec_needs_temp_file(*options) {
            pixels matches Some(frame) && pixels_of(frame, buffer@)
        } else {
            pixels is None
        },
{
    if let Some(id) = options.clear {
        clear(out, id);
    } else {
        assert(out@ =~= old(out)@ + cleared_text(*options));
    }
    let ghost cleared = out@;
    match (options.load, options.display) {
        (Some(id_load), Some(id_display)) => {
            let frame = match load(out, Some(id_load), buffer, temp_path) {
                Ok(frame) => frame,
                Err(error) => {
                    return Err(error);
                },
            };
            let ghost loaded = out@;
            let shown = display(out, Some(id_display), buffer, temp_path, options, term_size);
            proof {
                let text = preview_text(buffer@, temp_path, *options, *term_size).0;
                assert(out@ =~= old(out)@ + text);
            }
            match shown {
                Ok(_) => Ok(Some(frame)),
                Err(error) => Err(error),
            }
        },
        (Some(id), None) => {
            let loaded = load(out, Some(id), buffer, temp_path);
            proof {
                let text = preview_text(buffer@, temp_path, *options, *term_size).0;
                assert(out@ =~= old(out)@ + text);
            }
            match loaded {
                Ok(frame) => Ok(Some(frame)),
                Err(error) => Err(error),
            }
        },
        (None, id) => {
            let shown = display(out, id, buffer, temp_path, options, term_size);
            proof {
                let text = preview_text(buffer@, temp_path, *options, *term_size).0;
                assert(out@ =~= old(out)@ + text);
            }
            shown
        },
    }
}

} // verus!
