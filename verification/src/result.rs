use crate::support::Protocol;
use vstd::prelude::*;
use vstd::string::StringExecFns;

verus! {

/// The error of the `image` crate's decoders and encoders.
#[verifier::external_type_specification]
#[verifier::external_body]
pub struct ExImageError(image::ImageError);

/// The error of the `imagesize` crate's size probe.
#[verifier::external_type_specification]
#[verifier::external_body]
pub struct ExImageSizeError(imagesize::ImageError);

/// What a renderer can be asked to do with an image.
#[derive(Clone, Copy, Debug, PartialEq, Eq, Structural)]
pub enum Action {
    /// Show the image.
    Display,
    /// Hand the image over to the terminal under an id, without showing it.
    Load,
    /// Remove what the terminal shows.
    Clear,
    /// Hand the image over under an id, then show it by that id.
    LoadAndDisplay,
}

impl Action {
    /// The name of the action, as an error message gives it.
    pub open spec fn spec_name(&self) -> Seq<char> {
        match *self {
            Action::Display => "display"@,
            Action::Load => "load"@,
            Action::Clear => "clear"@,
            Action::LoadAndDisplay => "load and display"@,
        }
    }

    /// The name of the action, as an error message gives it.
    pub fn name(&self) -> (name: &'static str)
        ensures
            name@ == self.spec_name(),
    {
        match self {
            Action::Display => "display",
            Action::Load => "load",
            Action::Clear => "clear",
            Action::LoadAndDisplay => "load and display",
        }
    }
}

/// Why a preview could not be made.
#[derive(Debug)]
pub enum Error {
    /// The image's bytes could not be decoded, or its pixels not encoded.
    Image(image::ImageError),
    /// The image's size could not be read from its header.
    ImageSize(imagesize::ImageError),
    /// The image cannot be fitted into the terminal: the terminal has no
    /// row for it, the image has no extent, or the sizes that its header and
    /// its pixels give do not agree.
    Geometry,
    /// The pixels or the text that the preview asks for are more than a
    /// buffer can hold.
    TooLarge,
    /// The terminal does not understand the protocol that was asked for.
    ProtocolUnsupported(Protocol),
    /// The renderer of this protocol cannot do what was asked of it.
    ActionUnsupported(Action),
    /// An image was to be loaded, and no id was given to load it under.
    MissingId,
}

/// Why a preview could not be made, without what an outside crate adds to it.
#[derive(Clone, Copy, Debug, PartialEq, Eq, Structural)]
pub enum Failure {
    Image,
    ImageSize,
    Geometry,
    TooLarge,
    ProtocolUnsupported(Protocol),
    ActionUnsupported(Action),
    MissingId,
}

impl Error {
    /// Why the preview could not be made, without what an outside crate adds
    /// to it.
    pub open spec fn spec_failure(&self) -> Failure {
        match *self {
            Error::Image(_) => Failure::Image,
            Error::ImageSize(_) => Failure::ImageSize,
            Error::Geometry => Failure::Geometry,
            Error::TooLarge => Failure::TooLarge,
            Error::ProtocolUnsupported(protocol) => Failure::ProtocolUnsupported(protocol),
            Error::ActionUnsupported(action) => Failure::ActionUnsupported(action),
            Error::MissingId => Failure::MissingId,
        }
    }

    /// Tells why the preview could not be made, without what an outside crate
    /// adds to it.
    pub fn failure(&self) -> (failure: Failure)
        ensures
            failure == self.spec_failure(),
    {
        match self {
            Error::Image(_) => Failure::Image,
            Error::ImageSize(_) => Failure::ImageSize,
            Error::Geometry => Failure::Geometry,
            Error::TooLarge => Failure::TooLarge,
            Error::ProtocolUnsupported(protocol) => Failure::ProtocolUnsupported(*protocol),
            Error::ActionUnsupported(action) => Failure::ActionUnsupported(*action),
            Error::MissingId => Failure::MissingId,
        }
    }
}

/// Whether a result is the failure that is expected, or a success where none
/// is.
pub open spec fn failed_as<T>(result: Result<T, Error>, expected: Option<Failure>) -> bool {
    match result {
        Ok(_) => expected is None,
        Err(error) => expected == Some(error.spec_failure()),
    }
}

/// Whether a function that appends text has done what is expected of it:
/// appended the text and succeeded, or failed as expected and appended
/// nothing.
pub open spec fn appended<T>(
    before: Seq<char>,
    after: Seq<char>,
    result: Result<T, Error>,
    expected: Result<Seq<char>, Failure>,
) -> bool {
    match expected {
        Ok(text) => result is Ok && after == before + text,
        Err(failure) => failed_as(result, Some(failure)) && after == before,
    }
}

/// Writes out an error of the `image` crate, as its `Display` does. Nothing
/// is claimed of the text.
#[verifier::external_body]
fn describe_image_error(error: &image::ImageError) -> (text: String) {
    format!("{error}")
}

/// Writes out an error of the `imagesize` crate, as its `Display` does.
/// Nothing is claimed of the text.
#[verifier::external_body]
fn describe_size_error(error: &imagesize::ImageError) -> (text: String) {
    format!("{error}")
}

impl Error {
    /// How the message of an error begins: with the kind of the error and,
    /// but for the errors of outside crates, with all that is said of it.
    pub open spec fn message_start(&self) -> Seq<char> {
        match *self {
            Error::Image(_) => "Image error: "@,
            Error::ImageSize(_) => "Image size error: "@,
            Error::Geometry => "Geometry error: the image cannot be fitted into the terminal"@,
            Error::TooLarge => "Size error: the preview is too large to be held"@,
            Error::ProtocolUnsupported(protocol) => "Protocol error: the terminal does not support "@
                + protocol.spec_name(),
            Error::ActionUnsupported(action) => "Action error: this protocol cannot "@
                + action.spec_name(),
            Error::MissingId => "Id error: no id was given to load the image under"@,
        }
    }

    /// The message of the error. For an error of an outside crate, the
    /// crate's own words follow the kind of the error.
    pub fn message(&self) -> (message: String)
        ensures
            self.message_start().is_prefix_of(message@),
            !(self is Image || self is ImageSize) ==> message@ == self.message_start(),
    {
        match self {
            Error::Image(error) => {
                let mut message = String::from_str("Image error: ");
                message.append(describe_image_error(error).as_str());
                message
            },
            Error::ImageSize(error) => {
                let mut message = String::from_str("Image size error: ");
                message.append(describe_size_error(error).as_str());
                message
            },
            Error::Geometry => String::from_str(
                "Geometry error: the image cannot be fitted into the terminal",
            ),
            Error::TooLarge => String::from_str("Size error: the preview is too large to be held"),
            Error::ProtocolUnsupported(protocol) => {
                let mut message = String::from_str("Protocol error: the terminal does not support ");
                message.append(protocol.name());
                message
            },
            Error::ActionUnsupported(action) => {
                let mut message = String::from_str("Action error: this protocol cannot ");
                message.append(action.name());
                message
            },
            Error::MissingId => String::from_str("Id error: no id was given to load the image under"),
        }
    }
}

} // verus!
