//! A developed image or thumbnail held in memory (LibRaw's
//! `libraw_processed_image_t`, copied out of LibRaw's allocation).
use vstd::prelude::*;

verus! {

/// LibRaw's number for a JPEG image (`LIBRAW_IMAGE_JPEG`).
pub const LIBRAW_IMAGE_JPEG: i32 = 1i32;

/// The kind of data an in-memory image holds.
#[derive(Debug, Clone, Copy, PartialEq, Eq, Structural)]
pub enum ImageType {
    Jpeg,
    Bitmap,
}

/// An in-memory image: LibRaw's format number, dimensions, sample layout and data.
pub struct ProcessedImage {
    /// LibRaw's image format number (`type`).
    pub format: i32,
    pub height: u16,
    pub width: u16,
    pub colors: u16,
    pub bits: u16,
    /// The image bytes (`data_size` of them).
    pub data: Vec<u8>,
}

impl ProcessedImage {
    /// JPEG when LibRaw marked the data as JPEG, a bitmap otherwise.
    pub fn image_type(&self) -> (t: ImageType)
        ensures
            t == (if self.format == LIBRAW_IMAGE_JPEG {
                ImageType::Jpeg
            } else {
                ImageType::Bitmap
            }),
    {
        if self.format == LIBRAW_IMAGE_JPEG {
            ImageType::Jpeg
        } else {
            ImageType::Bitmap
        }
    }

    pub fn data(&self) -> (d: &[u8])
        ensures
            d@ == self.data@,
    {
        self.data.as_slice()
    }

    pub fn width(&self) -> (r: u16)
        ensures
            r == self.width,
    {
        self.width
    }

    pub fn height(&self) -> (r: u16)
        ensures
            r == self.height,
    {
        self.height
    }

    pub fn colors(&self) -> (r: u16)
        ensures
            r == self.colors,
    {
        self.colors
    }

    pub fn bits(&self) -> (r: u16)
        ensures
            r == self.bits,
    {
        self.bits
    }
}

} // verus!
