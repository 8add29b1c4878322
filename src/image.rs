use vstd::prelude::*;

verus! {

/// A borrowed 8-bit grayscale image: `width` by `height` pixels, one byte each,
/// row after row, in a buffer the image does not own.
pub struct ImageU8<T> {
    width: u32,
    height: u32,
    data: T,
}

/// The same image kind, under its shorter name.
pub type Image<T> = ImageU8<T>;

impl<T> ImageU8<T> {
    /// The width in pixels.
    pub closed spec fn spec_width(&self) -> u32 {
        self.width
    }

    /// The height in pixels.
    pub closed spec fn spec_height(&self) -> u32 {
        self.height
    }

    /// The pixel buffer.
    pub closed spec fn spec_data(&self) -> T {
        self.data
    }

    /// An image of the given size over `data`.
    pub fn new(width: u32, height: u32, data: T) -> (r: ImageU8<T>)
        ensures
            r.spec_width() == width,
            r.spec_height() == height,
            r.spec_data() == data,
    {
        ImageU8 { width, height, data }
    }

    /// The width in pixels.
    pub fn width(&self) -> (r: u32)
        ensures
            r == self.spec_width(),
    {
        self.width
    }

    /// The height in pixels.
    pub fn height(&self) -> (r: u32)
        ensures
            r == self.spec_height(),
    {
        self.height
    }

    /// The number of bytes from the start of one row to the start of the next: rows
    /// are packed, so it is the width.
    pub fn stride(&self) -> (r: u32)
        ensures
            r == self.spec_width(),
    {
        self.width
    }

    /// The pixel buffer.
    pub fn data(&self) -> (r: &T)
        ensures
            *r == self.spec_data(),
    {
        &self.data
    }
}

} // verus!
