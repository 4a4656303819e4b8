//! Metadata records read from an opened RAW file: identification, lens,
//! shooting data and sizes. Each record holds the values of LibRaw's C
//! structure of the same role; text fields hold the raw bytes of LibRaw's
//! fixed-size, NUL-terminated character arrays, and floating-point fields hold
//! the IEEE-754 bit pattern of the value.
use vstd::prelude::*;
use vstd::string::StringSliceAdditionalSpecFns;
use vstd::utf8::{decode_utf8, valid_utf8};

verus! {

/// Number of bytes before the first NUL byte of `bytes` (all of them when there is none).
pub open spec fn text_len(bytes: Seq<u8>) -> nat
    decreases bytes.len(),
{
    if bytes.len() == 0 || bytes[0] == 0 {
        0
    } else {
        1 + text_len(bytes.drop_first())
    }
}

/// The text of a C character array: the bytes before the first NUL, decoded
/// as UTF-8, or the empty text when those bytes are not valid UTF-8.
pub open spec fn cstr_text(bytes: Seq<u8>) -> Seq<char> {
    let t = bytes.take(text_len(bytes) as int);
    if valid_utf8(t) {
        decode_utf8(t)
    } else {
        Seq::empty()
    }
}

/// A position `end` that is preceded only by nonzero bytes and is either the
/// end of `bytes` or a NUL byte is where the text stops.
pub proof fn lemma_text_len(bytes: Seq<u8>, end: int)
    requires
        0 <= end <= bytes.len(),
        forall|j: int| 0 <= j < end ==> bytes[j] != 0,
        end == bytes.len() || bytes[end] == 0,
    ensures
        text_len(bytes) == end,
    decreases end,
{
    if end > 0 {
        let rest = bytes.drop_first();
        assert forall|j: int| 0 <= j < end - 1 implies rest[j] != 0 by {
            assert(rest[j] == bytes[j + 1]);
        }
        if end < bytes.len() {
            assert(rest[end - 1] == bytes[end]);
        }
        lemma_text_len(rest, end - 1);
    }
}

/// ASCII bytes are valid UTF-8 and decode to the characters of the same codes.
proof fn lemma_ascii_utf8(bytes: Seq<u8>)
    requires
        forall|i: int| 0 <= i < bytes.len() ==> bytes[i] < 0x80,
    ensures
        valid_utf8(bytes),
        decode_utf8(bytes) == bytes.map_values(|b: u8| b as char),
    decreases bytes.len(),
{
    if bytes.len() > 0 {
        let b = bytes[0];
        assert(b & 0x7f == b) by (bit_vector)
            requires
                b < 0x80u8,
        ;
        let rest = bytes.drop_first();
        assert(vstd::utf8::pop_first_scalar(bytes) =~= rest);
        lemma_ascii_utf8(rest);
        assert(decode_utf8(bytes) =~= bytes.map_values(|b: u8| b as char));
    } else {
        assert(decode_utf8(bytes) =~= bytes.map_values(|b: u8| b as char));
    }
}

/// A C character array that holds a plain ASCII text (no NUL among it),
/// then a NUL, then anything at all, reads as exactly that text: what follows
/// the NUL never shows.
pub proof fn lemma_cstr_ascii(text: Seq<u8>, rest: Seq<u8>)
    requires
        forall|i: int| 0 <= i < text.len() ==> 0 < #[trigger] text[i] < 0x80,
    ensures
        cstr_text(text + seq![0u8] + rest) == text.map_values(|b: u8| b as char),
{
    let bytes = text + seq![0u8] + rest;
    assert forall|j: int| 0 <= j < text.len() implies bytes[j] != 0 by {
        assert(bytes[j] == text[j]);
    }
    assert(bytes[text.len() as int] == 0);
    lemma_text_len(bytes, text.len() as int);
    assert(bytes.take(text.len() as int) =~= text);
    lemma_ascii_utf8(text);
}

/// A C character array with no NUL byte: all of it is the text.
pub proof fn lemma_cstr_unterminated(bytes: Seq<u8>)
    requires
        forall|i: int| 0 <= i < bytes.len() ==> 0 < #[trigger] bytes[i] < 0x80,
    ensures
        cstr_text(bytes) == bytes.map_values(|b: u8| b as char),
{
    lemma_text_len(bytes, bytes.len() as int);
    assert(bytes.take(bytes.len() as int) =~= bytes);
    lemma_ascii_utf8(bytes);
}

/// `std::str::from_utf8`: the bytes read as text when they are valid UTF-8
/// (the text's bytes are then exactly the input), nothing otherwise.
#[verifier::external_body]
pub(crate) fn str_from_utf8(bytes: &[u8]) -> (s: Option<&str>)
    ensures
        s is Some <==> valid_utf8(bytes@),
        s matches Some(t) ==> t.spec_bytes() == bytes@,
{
    std::str::from_utf8(bytes).ok()
}

/// The bytes read as text when they are valid UTF-8.
pub(crate) fn decode_or<'a>(bytes: &'a [u8], fallback: &'a str) -> (s: &'a str)
    ensures
        valid_utf8(bytes@) ==> s@ == decode_utf8(bytes@),
        !valid_utf8(bytes@) ==> s@ == fallback@,
{
    match str_from_utf8(bytes) {
        Some(t) => {
            assert(t@ == decode_utf8(bytes@)) by {
                vstd::utf8::encode_utf8_decode_utf8(t@);
            }
            t
        },
        None => fallback,
    }
}

/// The text held in a C character array: the bytes up to the first NUL (or
/// all of them), or the empty text when they are not valid UTF-8.
pub fn cstr_to_str(bytes: &[u8]) -> (s: &str)
    ensures
        s@ == cstr_text(bytes@),
{
    let mut end: usize = 0;
    while end < bytes.len() && bytes[end] != 0
        invariant
            end <= bytes@.len(),
            forall|j: int| 0 <= j < end ==> bytes@[j] != 0,
        decreases bytes@.len() - end,
    {
        end = end + 1;
    }
    proof {
        lemma_text_len(bytes@, end as int);
        reveal_strlit("");
    }
    let prefix = &bytes[0..end];
    assert(prefix@ =~= bytes@.take(end as int));
    let s = decode_or(prefix, "");
    assert(s@ =~= cstr_text(bytes@));
    s
}

/// Identification of the camera that made the file.
pub struct ImageInfo {
    pub make: Vec<u8>,
    pub model: Vec<u8>,
    pub software: Vec<u8>,
    pub normalized_make: Vec<u8>,
    pub normalized_model: Vec<u8>,
    pub maker_index: u32,
    pub raw_count: u32,
    pub dng_version: u32,
    pub is_foveon: u32,
    pub colors: i32,
    pub filters: u32,
    pub cdesc: Vec<u8>,
}

impl ImageInfo {
    pub fn make(&self) -> (s: &str)
        ensures
            s@ == cstr_text(self.make@),
    {
        cstr_to_str(self.make.as_slice())
    }

    pub fn model(&self) -> (s: &str)
        ensures
            s@ == cstr_text(self.model@),
    {
        cstr_to_str(self.model.as_slice())
    }

    pub fn software(&self) -> (s: &str)
        ensures
            s@ == cstr_text(self.software@),
    {
        cstr_to_str(self.software.as_slice())
    }

    pub fn normalized_make(&self) -> (s: &str)
        ensures
            s@ == cstr_text(self.normalized_make@),
    {
        cstr_to_str(self.normalized_make.as_slice())
    }

    pub fn normalized_model(&self) -> (s: &str)
        ensures
            s@ == cstr_text(self.normalized_model@),
    {
        cstr_to_str(self.normalized_model.as_slice())
    }

    pub fn maker_index(&self) -> (r: u32)
        ensures
            r == self.maker_index,
    {
        self.maker_index
    }

    pub fn raw_count(&self) -> (r: u32)
        ensures
            r == self.raw_count,
    {
        self.raw_count
    }

    pub fn dng_version(&self) -> (r: u32)
        ensures
            r == self.dng_version,
    {
        self.dng_version
    }

    /// Whether the sensor is a Foveon one (LibRaw's flag is nonzero).
    pub fn is_foveon(&self) -> (r: bool)
        ensures
            r == (self.is_foveon != 0),
    {
        self.is_foveon != 0
    }

    pub fn colors(&self) -> (r: i32)
        ensures
            r == self.colors,
    {
        self.colors
    }

    pub fn filters(&self) -> (r: u32)
        ensures
            r == self.filters,
    {
        self.filters
    }

    /// The color description, such as "RGBG".
    pub fn cdesc(&self) -> (s: &str)
        ensures
            s@ == cstr_text(self.cdesc@),
    {
        cstr_to_str(self.cdesc.as_slice())
    }
}

/// Lens metadata. The focal lengths and apertures are the bit patterns of
/// LibRaw's `float` values.
pub struct LensInfo {
    pub min_focal: u32,
    pub max_focal: u32,
    pub max_ap4_min_focal: u32,
    pub max_ap4_max_focal: u32,
    pub exif_max_ap: u32,
    pub lens_make: Vec<u8>,
    pub lens: Vec<u8>,
    pub lens_serial: Vec<u8>,
    pub focal_length_in_35mm_format: u16,
}

impl LensInfo {
    pub fn make(&self) -> (s: &str)
        ensures
            s@ == cstr_text(self.lens_make@),
    {
        cstr_to_str(self.lens_make.as_slice())
    }

    pub fn model(&self) -> (s: &str)
        ensures
            s@ == cstr_text(self.lens@),
    {
        cstr_to_str(self.lens.as_slice())
    }

    pub fn serial(&self) -> (s: &str)
        ensures
            s@ == cstr_text(self.lens_serial@),
    {
        cstr_to_str(self.lens_serial.as_slice())
    }

    pub fn focal_length_in_35mm(&self) -> (r: u16)
        ensures
            r == self.focal_length_in_35mm_format,
    {
        self.focal_length_in_35mm_format
    }
}

/// Shooting metadata. ISO, shutter time, aperture and focal length are the bit
/// patterns of LibRaw's `float` values.
pub struct ImageOther {
    pub iso_speed: u32,
    pub shutter: u32,
    pub aperture: u32,
    pub focal_len: u32,
    pub timestamp: i64,
    pub shot_order: u32,
    pub desc: Vec<u8>,
    pub artist: Vec<u8>,
}

impl ImageOther {
    /// Seconds since the Unix epoch.
    pub fn timestamp(&self) -> (r: i64)
        ensures
            r == self.timestamp,
    {
        self.timestamp
    }

    pub fn shot_order(&self) -> (r: u32)
        ensures
            r == self.shot_order,
    {
        self.shot_order
    }

    pub fn desc(&self) -> (s: &str)
        ensures
            s@ == cstr_text(self.desc@),
    {
        cstr_to_str(self.desc.as_slice())
    }

    pub fn artist(&self) -> (s: &str)
        ensures
            s@ == cstr_text(self.artist@),
    {
        cstr_to_str(self.artist.as_slice())
    }
}

/// Image dimensions. `pixel_aspect` is the bit pattern of LibRaw's `double`.
pub struct ImageSizes {
    pub raw_width: u16,
    pub raw_height: u16,
    pub width: u16,
    pub height: u16,
    pub top_margin: u16,
    pub left_margin: u16,
    pub iwidth: u16,
    pub iheight: u16,
    pub pixel_aspect: u64,
    pub flip: i32,
}

impl ImageSizes {
    pub fn raw_width(&self) -> (r: u16)
        ensures
            r == self.raw_width,
    {
        self.raw_width
    }

    pub fn raw_height(&self) -> (r: u16)
        ensures
            r == self.raw_height,
    {
        self.raw_height
    }

    pub fn width(&self) -> (r: u16)
        ensures
            r == self.width,
    {
        self.width
    }

    pub fn height(&self) -> (r: u16)
        ensures
            r == self.height,
    {
        self.height
    }

    pub fn top_margin(&self) -> (r: u16)
        ensures
            r == self.top_margin,
    {
        self.top_margin
    }

    pub fn left_margin(&self) -> (r: u16)
        ensures
            r == self.left_margin,
    {
        self.left_margin
    }

    pub fn iwidth(&self) -> (r: u16)
        ensures
            r == self.iwidth,
    {
        self.iwidth
    }

    pub fn iheight(&self) -> (r: u16)
        ensures
            r == self.iheight,
    {
        self.iheight
    }

    pub fn flip(&self) -> (r: i32)
        ensures
            r == self.flip,
    {
        self.flip
    }
}

} // verus!
