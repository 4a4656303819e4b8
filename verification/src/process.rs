//! The decisions around LibRaw's processing calls: turning the result of
//! `libraw_dcraw_make_mem_image` / `libraw_dcraw_make_mem_thumb` into a
//! result, and reading the thumbnail format and float-data presence.
use vstd::prelude::*;
use vstd::string::StringExecFns;
use crate::error::{is_error_for_code, Error, Result};
use crate::image::ProcessedImage;

verus! {

/// LibRaw's number for a JPEG thumbnail (`LIBRAW_THUMBNAIL_JPEG`).
pub const LIBRAW_THUMBNAIL_JPEG: i32 = 1i32;

/// What a `make_mem_*` call yields: the image when LibRaw produced one;
/// otherwise the error for the code LibRaw reported (`err_msg` being LibRaw's
/// description of it), or, when it reported none, an unknown error with code
/// -1 and the text `null_text`.
pub open spec fn is_mem_result(
    r: Result<ProcessedImage>,
    image: Option<ProcessedImage>,
    err: i32,
    err_msg: Seq<char>,
    null_text: Seq<char>,
) -> bool {
    match image {
        Some(img) => r == Ok::<ProcessedImage, Error>(img),
        None => match r {
            Ok(_) => false,
            Err(e) => if err != 0 {
                is_error_for_code(e, err, err_msg)
            } else {
                e matches Error::Unknown { code, msg } && code == -1 && msg@ == null_text
            },
        },
    }
}

fn mem_result(image: Option<ProcessedImage>, err: i32, err_msg: String, null_text: &str) -> (r:
    Result<ProcessedImage>)
    ensures
        is_mem_result(r, image, err, err_msg@, null_text@),
{
    match image {
        Some(img) => Ok(img),
        None => {
            if err != 0 {
                Err(Error::from_raw(err, err_msg))
            } else {
                Err(Error::Unknown { code: -1, msg: String::from_str(null_text) })
            }
        },
    }
}

/// The result of `libraw_dcraw_make_mem_image`: `image` is the developed image
/// when LibRaw returned one, `err` the code it reported.
pub fn mem_image_result(image: Option<ProcessedImage>, err: i32, err_msg: String) -> (r: Result<
    ProcessedImage,
>)
    ensures
        is_mem_result(r, image, err, err_msg@, "make_mem_image returned null"@),
{
    mem_result(image, err, err_msg, "make_mem_image returned null")
}

/// The result of `libraw_dcraw_make_mem_thumb`: `image` is the thumbnail
/// when LibRaw returned one, `err` the code it reported.
pub fn mem_thumb_result(image: Option<ProcessedImage>, err: i32, err_msg: String) -> (r: Result<
    ProcessedImage,
>)
    ensures
        is_mem_result(r, image, err, err_msg@, "make_mem_thumb returned null"@),
{
    mem_result(image, err, err_msg, "make_mem_thumb returned null")
}

/// Whether the thumbnail format LibRaw found is JPEG.
pub fn thumbnail_is_jpeg(tformat: i32) -> (r: bool)
    ensures
        r == (tformat == LIBRAW_THUMBNAIL_JPEG),
{
    tformat == LIBRAW_THUMBNAIL_JPEG
}

/// Whether the raw data holds floating-point samples: any of LibRaw's
/// one-, three- or four-channel float buffers is present.
pub fn float_data_present(float_image: bool, float3_image: bool, float4_image: bool) -> (r: bool)
    ensures
        r == (float_image || float3_image || float4_image),
{
    float_image || float3_image || float4_image
}

} // verus!
