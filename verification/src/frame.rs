//! Frames: owned RGB pixel buffers, three bytes per pixel, row-major.

use vstd::prelude::*;

verus! {

/// What a frame is, mathematically: its size and its bytes.
pub struct FrameData {
    pub width: u32,
    pub height: u32,
    pub pixels: Seq<u8>,
}

impl FrameData {
    /// The number of bytes that a frame of this size holds.
    pub open spec fn byte_len(self) -> nat {
        (self.width * self.height * 3) as nat
    }

    /// A frame holds exactly three bytes for each of its pixels.
    pub open spec fn well_formed(self) -> bool {
        self.pixels.len() == self.byte_len()
    }

    /// A frame without a single pixel.
    pub open spec fn is_empty(self) -> bool {
        self.width == 0 || self.height == 0
    }
}

/// One still image sampled from a capture device.
#[derive(Debug)]
pub struct Frame {
    width: u32,
    height: u32,
    pixels: Vec<u8>,
}

impl View for Frame {
    type V = FrameData;

    closed spec fn view(&self) -> FrameData {
        FrameData { width: self.width, height: self.height, pixels: self.pixels@ }
    }
}

impl Clone for Frame {
    fn clone(&self) -> (copy: Self)
        ensures
            copy@ == self@,
    {
        proof {
            use_type_invariant(self);
        }
        let pixels = self.pixels.clone();
        assert(pixels@ =~= self.pixels@);
        Frame { width: self.width, height: self.height, pixels }
    }
}

impl Frame {
    #[verifier::type_invariant]
    spec fn buffer_matches_size(self) -> bool {
        self@.well_formed()
    }

    /// Takes a buffer as a frame of the given size. The buffer is accepted
    /// exactly when it holds three bytes per pixel, no more and no less.
    pub fn new(width: u32, height: u32, pixels: Vec<u8>) -> (frame: Option<Frame>)
        ensures
            frame is Some <==> pixels@.len() == width * height * 3,
            frame matches Some(f) ==> f@ == (FrameData { width, height, pixels: pixels@ }),
    {
        assert(width * height <= 0xffff_ffff * 0xffff_ffff) by (nonlinear_arith)
            requires
                0 <= width <= 0xffff_ffff,
                0 <= height <= 0xffff_ffff,
        ;
        let expected: u128 = (width as u128) * (height as u128) * 3;
        if pixels.len() as u128 == expected {
            Some(Frame { width, height, pixels })
        } else {
            None
        }
    }

    pub fn width(&self) -> (width: u32)
        ensures
            width == self@.width,
    {
        self.width
    }

    pub fn height(&self) -> (height: u32)
        ensures
            height == self@.height,
    {
        self.height
    }

    /// The bytes of the frame, row by row, red, green and blue of each pixel.
    pub fn pixels(&self) -> (pixels: &Vec<u8>)
        ensures
            pixels@ == self@.pixels,
            self@.well_formed(),
    {
        proof {
            use_type_invariant(self);
        }
        &self.pixels
    }

    /// Gives up the frame for its buffer.
    pub fn into_raw(self) -> (pixels: Vec<u8>)
        ensures
            pixels@ == self@.pixels,
            self@.well_formed(),
    {
        proof {
            use_type_invariant(&self);
        }
        self.pixels
    }
}

} // verus!
