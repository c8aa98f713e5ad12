use crate::support::Protocol;
use std::path::PathBuf;
use vstd::prelude::*;

verus! {

/// A path of the file system. The library carries paths and never reads them.
#[verifier::external_type_specification]
#[verifier::external_body]
pub struct ExPathBuf(std::path::PathBuf);

/// Options for previewing an image in terminal
#[derive(Clone, Debug)]
pub struct Options {
    /// Image(s) to preview
    pub path: Vec<PathBuf>,
    /// Previewing protocol to use
    pub protocol: Option<Protocol>,
    /// Use the protocol that was asked for without asking the terminal
    pub force: bool,
    /// x position (0 is left)
    pub x: Option<u32>,
    /// y position (0 is top)
    pub y: Option<u32>,
    /// Number of cols to fit the preview in
    pub cols: Option<u32>,
    /// Number of rows to fit the preview in
    pub rows: Option<u32>,
    /// Spacing between images if more than one file is provided
    pub spacing: Option<u32>,
    /// Upscale image if needed
    pub upscale: bool,
    /// Only show first frame of GIFs
    pub gif_static: bool,
    /// Loop GIFs infinitely
    pub gif_loop: bool,
    /// Load image with the given id (kitty only)
    pub load: Option<u32>,
    /// Display image with the given id (kitty only)
    pub display: Option<u32>,
    /// Clear image with the given id (0 for all) (kitty only)
    pub clear: Option<u32>,
}

impl Options {
    /// New options for images
    pub fn new(path: Vec<PathBuf>) -> (options: Self)
        ensures
            options == (Options {
                path: path,
                protocol: None,
                force: false,
                x: None,
                y: None,
                cols: None,
                rows: None,
                spacing: None,
                upscale: false,
                gif_static: false,
                gif_loop: false,
                load: None,
                display: None,
                clear: None,
            }),
    {
        Self {
            path,
            protocol: None,
            force: false,
            x: None,
            y: None,
            cols: None,
            rows: None,
            spacing: None,
            upscale: false,
            gif_static: false,
            gif_loop: false,
            load: None,
            display: None,
            clear: None,
        }
    }

    /// Set position of images in the terminal
    pub fn set_position(&mut self, x: Option<u32>, y: Option<u32>)
        ensures
            *final(self) == (Options { x: x, y: y, ..*old(self) }),
    {
        self.x = x;
        self.y = y;
    }

    /// Set size of images in the terminal
    pub fn set_size(&mut self, cols: Option<u32>, rows: Option<u32>)
        ensures
            *final(self) == (Options { cols: cols, rows: rows, ..*old(self) }),
    {
        self.cols = cols;
        self.rows = rows;
    }

    /// Set spacing of images in the terminal
    pub fn set_spacing(&mut self, spacing: Option<u32>)
        ensures
            *final(self) == (Options { spacing: spacing, ..*old(self) }),
    {
        self.spacing = spacing;
    }

    /// Upscale images
    pub fn upscale(&mut self)
        ensures
            *final(self) == (Options { upscale: true, ..*old(self) }),
    {
        self.upscale = true;
    }

    /// Set GIFs to be static
    pub fn set_static(&mut self)
        ensures
            *final(self) == (Options { gif_static: true, gif_loop: false, ..*old(self) }),
    {
        self.gif_static = true;
        self.gif_loop = false;
    }

    /// Set GIFs to loop
    pub fn set_loop(&mut self)
        ensures
            *final(self) == (Options { gif_static: false, gif_loop: true, ..*old(self) }),
    {
        self.gif_static = false;
        self.gif_loop = true;
    }

    /// Set options for kitty
    pub fn set_kitty(&mut self, load: Option<u32>, display: Option<u32>, clear: Option<u32>)
        ensures
            old(self).protocol == Some(Protocol::Kitty) ==> *final(self) == (Options {
                load: load,
                display: display,
                clear: clear,
                ..*old(self)
            }),
            old(self).protocol != Some(Protocol::Kitty) ==> *final(self) == *old(self),
    {
        if let Some(Protocol::Kitty) = self.protocol {
            self.load = load;
            self.display = display;
            self.clear = clear;
        }
    }
}

} // verus!
