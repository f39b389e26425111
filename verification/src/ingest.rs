//! The ingestion pipeline behind the generate command. The front end walks
//! the class directory tree, reads files and decodes nothing itself; every
//! decision — skipping hidden names, bounding the class count, validating a
//! decoded image's dimensions and bit depth, fixing the header from the
//! first validated image, and pushing payloads into the dataset — is made
//! here. Image decoding calls into the image crate through one trusted
//! wrapper whose contract names the decode result; everything after the
//! decode is verified against those names.

use vstd::prelude::*;
use crate::dataset::{Dataset, DatasetModel, Header, Version, empty_model, spec_push};
use crate::text::{is_hidden_name, spec_is_hidden};

verus! {

/// The most class directories one dataset may hold: the class index must
/// fit the format's class-identifier width.
pub const MAX_CLASSES: u64 = 65536;

/// Why a generate run aborts. Every variant is fatal to the whole run.
#[derive(Debug, Clone, Copy, PartialEq, Eq, Structural)]
pub enum IngestError {
    /// The file's bytes cannot be decoded as an image.
    CannotDecode,
    /// Width or height exceeds 65535, or the bit depth exceeds 255.
    DimensionsTooBig,
    /// The bit depth is not one of 8, 24 or 32.
    UnsupportedBitDepth(u8),
    /// The builder rejected an image that does not match the header.
    HeaderMismatch,
    /// No image was ever successfully validated, so there is no header.
    NoImages,
}

/// What to do with one entry of the input directory.
#[derive(Debug, Clone, Copy, PartialEq, Eq, Structural)]
pub enum ClassDecision {
    /// The name is hidden: the entry never becomes a class.
    Skip,
    /// Admitting the entry would exceed the class-count bound: fatal.
    TooManyClasses,
    /// Ingest the entry's files as one class.
    Ingest,
}

/// The state of one generate run: the dataset under construction, absent
/// until the first image passes validation, and the number of class
/// directories admitted so far.
pub struct Ingestion {
    pub dataset: Option<Dataset>,
    pub class_count: u64,
}

/// The mathematical shape of the ingestion state.
#[verifier::ext_equal]
pub struct IngestionModel {
    pub dataset: Option<DatasetModel>,
    pub class_count: nat,
}

impl View for Ingestion {
    type V = IngestionModel;

    open spec fn view(&self) -> IngestionModel {
        IngestionModel {
            dataset: match self.dataset {
                Option::None => Option::None,
                Option::Some(d) => Option::Some(d@),
            },
            class_count: self.class_count as nat,
        }
    }
}

/// One decoded-image step of the pipeline: the state after ingesting an
/// image with the given dimensions, bit depth and payload under the given
/// class label, and the step's result. Validation failures and builder
/// rejections leave the state unchanged; the first validated image creates
/// the dataset with the header taken from that image.
pub open spec fn spec_ingest_decoded(
    s: IngestionModel,
    width: u32,
    height: u32,
    bits_per_pixel: u32,
    pixels: Seq<u8>,
    label: Seq<char>,
) -> (IngestionModel, Result<(), IngestError>) {
    if width > 65535 || height > 65535 || bits_per_pixel > 255 {
        (s, Err(IngestError::DimensionsTooBig))
    } else if bits_per_pixel != 8 && bits_per_pixel != 24 && bits_per_pixel != 32 {
        (s, Err(IngestError::UnsupportedBitDepth(bits_per_pixel as u8)))
    } else {
        match s.dataset {
            Option::None => (
                IngestionModel {
                    dataset: Option::Some(
                        spec_push(
                            empty_model(
                                Version::V0,
                                width as u16,
                                height as u16,
                                bits_per_pixel as u8,
                            ),
                            pixels,
                            label,
                        ),
                    ),
                    ..s
                },
                Ok(()),
            ),
            Option::Some(d) => {
                if width as u16 != d.image_width || height as u16 != d.image_height
                    || bits_per_pixel as u8 != d.bit_depth {
                    (s, Err(IngestError::HeaderMismatch))
                } else {
                    (
                        IngestionModel { dataset: Option::Some(spec_push(d, pixels, label)), ..s },
                        Ok(()),
                    )
                }
            },
        }
    }
}

impl Ingestion {
    pub open spec fn wf(self) -> bool {
        match self.dataset {
            Option::Some(d) => d.wf(),
            Option::None => true,
        }
    }

    /// Start a generate run: no dataset yet, no classes admitted.
    pub fn new() -> (r: Ingestion)
        ensures
            r.wf(),
            r@.dataset is None,
            r@.class_count == 0,
    {
        Ingestion { dataset: Option::None, class_count: 0 }
    }

    /// Decide what to do with one entry of the input directory. Hidden
    /// names are skipped and never become classes; past the class-count
    /// bound a new class is fatal; otherwise the entry is admitted as one
    /// class.
    pub fn begin_class(&mut self, name: &String) -> (r: ClassDecision)
        requires
            old(self).wf(),
        ensures
            final(self).wf(),
            spec_is_hidden(name@) ==> r == ClassDecision::Skip && final(self)@ == old(self)@,
            !spec_is_hidden(name@) && old(self).class_count >= MAX_CLASSES ==> r
                == ClassDecision::TooManyClasses && final(self)@ == old(self)@,
            !spec_is_hidden(name@) && old(self).class_count < MAX_CLASSES ==> r
                == ClassDecision::Ingest && final(self)@.class_count == old(self)@.class_count + 1
                && final(self)@.dataset == old(self)@.dataset,
    {
        if is_hidden_name(name.as_str()) {
            ClassDecision::Skip
        } else if self.class_count >= MAX_CLASSES {
            ClassDecision::TooManyClasses
        } else {
            self.class_count = self.class_count + 1;
            ClassDecision::Ingest
        }
    }

    /// Ingest one decoded image under a class label: validate its
    /// dimensions and bit depth, create the dataset from the first
    /// validated image, and push the payload.
    pub fn ingest_decoded(
        &mut self,
        width: u32,
        height: u32,
        bits_per_pixel: u32,
        pixels: Vec<u8>,
        class_name: &String,
    ) -> (r: Result<(), IngestError>)
        requires
            old(self).wf(),
        ensures
            final(self).wf(),
            final(self)@ == spec_ingest_decoded(
                old(self)@,
                width,
                height,
                bits_per_pixel,
                pixels@,
                class_name@,
            ).0,
            r == spec_ingest_decoded(
                old(self)@,
                width,
                height,
                bits_per_pixel,
                pixels@,
                class_name@,
            ).1,
    {
        if width > 65535 || height > 65535 || bits_per_pixel > 255 {
            return Err(IngestError::DimensionsTooBig);
        }
        let w = width as u16;
        let h = height as u16;
        let d = bits_per_pixel as u8;
        if !(d == 8 || d == 24 || d == 32) {
            return Err(IngestError::UnsupportedBitDepth(d));
        }
        match self.dataset.take() {
            Option::None => {
                let header = Header {
                    version: Version::V0,
                    image_width: w,
                    image_height: h,
                    bit_depth: d,
                    image_count: 0,
                    classes: Vec::new(),
                };
                let mut ds = Dataset::with_header(header);
                let res = ds.push(pixels, w, h, d, class_name);
                proof {
                    assert(res is Ok);
                }
                self.dataset = Option::Some(ds);
                Ok(())
            },
            Option::Some(mut ds) => {
                let res = ds.push(pixels, w, h, d, class_name);
                self.dataset = Option::Some(ds);
                match res {
                    Ok(_) => Ok(()),
                    Err(_) => Err(IngestError::HeaderMismatch),
                }
            },
        }
    }

    /// Decode one image file's bytes and ingest the result under a class
    /// label. Bytes that do not decode are fatal and leave the state
    /// unchanged; bytes that decode advance the state by exactly one
    /// decoded-image step on the decoded image's width, height, bit depth
    /// and pixel bytes.
    pub fn ingest_image(&mut self, bytes: &Vec<u8>, class_name: &String) -> (r: Result<
        (),
        IngestError,
    >)
        requires
            old(self).wf(),
        ensures
            final(self).wf(),
            !spec_decodes(bytes@) ==> r == Err::<(), IngestError>(IngestError::CannotDecode)
                && final(self)@ == old(self)@,
            spec_decodes(bytes@) ==> final(self)@ == spec_ingest_decoded(
                old(self)@,
                spec_decoded_width(bytes@),
                spec_decoded_height(bytes@),
                spec_decoded_bpp(bytes@) as u32,
                spec_decoded_pixels(bytes@),
                class_name@,
            ).0 && r == spec_ingest_decoded(
                old(self)@,
                spec_decoded_width(bytes@),
                spec_decoded_height(bytes@),
                spec_decoded_bpp(bytes@) as u32,
                spec_decoded_pixels(bytes@),
                class_name@,
            ).1,
    {
        match decode_from_bytes(bytes) {
            Option::None => Err(IngestError::CannotDecode),
            Option::Some((width, height, bpp, pixels)) => self.ingest_decoded(
                width,
                height,
                bpp as u32,
                pixels,
                class_name,
            ),
        }
    }

    /// Finish the run: the completed dataset, or `NoImages` when no image
    /// was ever successfully validated and so no header exists.
    pub fn finish(self) -> (r: Result<Dataset, IngestError>)
        requires
            self.wf(),
        ensures
            match r {
                Ok(d) => d.wf() && self@.dataset == Option::Some(d@),
                Err(e) => e == IngestError::NoImages && self@.dataset is None,
            },
    {
        match self.dataset {
            Option::Some(d) => Ok(d),
            Option::None => Err(IngestError::NoImages),
        }
    }
}

/// From an empty state, a successful decoded-image step fixes the header:
/// the dataset exists afterwards and its width, height and bit depth are
/// exactly the first validated image's.
pub proof fn lemma_first_image_fixes_header(
    s: IngestionModel,
    w: u32,
    h: u32,
    b: u32,
    px: Seq<u8>,
    label: Seq<char>,
)
    requires
        s.dataset is None,
        spec_ingest_decoded(s, w, h, b, px, label).1 is Ok,
    ensures
        (spec_ingest_decoded(s, w, h, b, px, label).0.dataset matches Some(d) && d.image_width
            == w as u16 && d.image_height == h as u16 && d.bit_depth == b as u8),
{
}

/// Once the dataset exists, no decoded-image step ever changes the
/// header's width, height or bit depth, whether the step succeeds or is
/// rejected.
pub proof fn lemma_header_never_changes(
    s: IngestionModel,
    d0: DatasetModel,
    w: u32,
    h: u32,
    b: u32,
    px: Seq<u8>,
    label: Seq<char>,
)
    requires
        s.dataset == Option::Some(d0),
    ensures
        (spec_ingest_decoded(s, w, h, b, px, label).0.dataset matches Some(d1) && d1.image_width
            == d0.image_width && d1.image_height == d0.image_height && d1.bit_depth
            == d0.bit_depth),
{
}

/// Whether the image crate decodes these bytes at all. Decoding depends on
/// the bytes alone.
pub uninterp spec fn spec_decodes(bytes: Seq<u8>) -> bool;

/// The width in pixels of the image decoded from these bytes.
pub uninterp spec fn spec_decoded_width(bytes: Seq<u8>) -> u32;

/// The height in pixels of the image decoded from these bytes.
pub uninterp spec fn spec_decoded_height(bytes: Seq<u8>) -> u32;

/// The bits per pixel of the image decoded from these bytes.
pub uninterp spec fn spec_decoded_bpp(bytes: Seq<u8>) -> u16;

/// The raw pixel bytes of the image decoded from these bytes.
pub uninterp spec fn spec_decoded_pixels(bytes: Seq<u8>) -> Seq<u8>;

/// Relies on image::load_from_memory and the DynamicImage accessors width,
/// height, color (through ColorType::bits_per_pixel) and as_bytes: whether
/// the bytes decode, and the decoded image's width, height, bit depth and
/// pixel bytes, are functions of the bytes alone, here given names.
#[verifier::external_body]
fn decode_from_bytes(bytes: &Vec<u8>) -> (r: Option<(u32, u32, u16, Vec<u8>)>)
    ensures
        match r {
            Some(d) => spec_decodes(bytes@) && d.0 == spec_decoded_width(bytes@) && d.1
                == spec_decoded_height(bytes@) && d.2 == spec_decoded_bpp(bytes@) && d.3@
                == spec_decoded_pixels(bytes@),
            None => !spec_decodes(bytes@),
        },
{
    match image::load_from_memory(bytes.as_slice()) {
        Ok(img) => Some((
            img.width(),
            img.height(),
            img.color().bits_per_pixel(),
            img.as_bytes().to_vec(),
        )),
        Err(_) => None,
    }
}

} // verus!
