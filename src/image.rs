use vstd::prelude::*;
use crate::output::no_separator;
use crate::text::same_text;

verus! {

/// How an image is to be encoded.
#[derive(PartialEq, Eq, Structural, Clone, Copy, Debug)]
pub enum ImageEncoding {
    /// JPEG through the JPEG encoder, at this quality.
    Jpeg { quality: u8 },
    Png,
    WebP,
    Avif,
    Bmp,
    Ico,
    Tiff,
    /// JPEG at the library's default settings, for unknown format names.
    FallbackJpeg,
}

/// How an image is to be resized.
#[derive(PartialEq, Eq, Structural, Clone, Copy, Debug)]
pub enum ResizePlan {
    /// To exactly this size.
    Exact { width: u32, height: u32 },
    /// To this width, keeping the aspect ratio.
    FitWidth(u32),
    /// To this height, keeping the aspect ratio.
    FitHeight(u32),
    Keep,
}

/// The extension of the output file for a format name; `jpg` for `jpeg` and
/// for unknown names.
pub open spec fn image_extension_of(name: Seq<char>) -> Seq<char> {
    if name == "avif"@ || name == "webp"@ || name == "png"@ || name == "bmp"@ || name == "ico"@
        || name == "tiff"@ {
        name
    } else {
        "jpg"@
    }
}

/// The encoding for a format name; JPEG quality is 90 unless given.
pub open spec fn image_encoding_of(name: Seq<char>, quality: Option<u8>) -> ImageEncoding {
    if name == "jpg"@ || name == "jpeg"@ {
        ImageEncoding::Jpeg {
            quality: match quality {
                Some(q) => q,
                None => 90,
            },
        }
    } else if name == "png"@ {
        ImageEncoding::Png
    } else if name == "webp"@ {
        ImageEncoding::WebP
    } else if name == "avif"@ {
        ImageEncoding::Avif
    } else if name == "bmp"@ {
        ImageEncoding::Bmp
    } else if name == "ico"@ {
        ImageEncoding::Ico
    } else if name == "tiff"@ {
        ImageEncoding::Tiff
    } else {
        ImageEncoding::FallbackJpeg
    }
}

/// The output extension for an image format name.
pub fn image_extension(name: &str) -> (r: &'static str)
    ensures
        r@ == image_extension_of(name@),
        no_separator(r@),
{
    proof {
        reveal_strlit("avif");
        reveal_strlit("webp");
        reveal_strlit("png");
        reveal_strlit("bmp");
        reveal_strlit("ico");
        reveal_strlit("tiff");
        reveal_strlit("jpg");
    }
    if same_text(name, "avif") {
        "avif"
    } else if same_text(name, "webp") {
        "webp"
    } else if same_text(name, "png") {
        "png"
    } else if same_text(name, "bmp") {
        "bmp"
    } else if same_text(name, "ico") {
        "ico"
    } else if same_text(name, "tiff") {
        "tiff"
    } else {
        "jpg"
    }
}

/// The encoding for an image format name and requested quality.
pub fn image_encoding(name: &str, quality: Option<u8>) -> (r: ImageEncoding)
    ensures
        r == image_encoding_of(name@, quality),
{
    if same_text(name, "jpg") || same_text(name, "jpeg") {
        ImageEncoding::Jpeg {
            quality: match quality {
                Some(q) => q,
                None => 90,
            },
        }
    } else if same_text(name, "png") {
        ImageEncoding::Png
    } else if same_text(name, "webp") {
        ImageEncoding::WebP
    } else if same_text(name, "avif") {
        ImageEncoding::Avif
    } else if same_text(name, "bmp") {
        ImageEncoding::Bmp
    } else if same_text(name, "ico") {
        ImageEncoding::Ico
    } else if same_text(name, "tiff") {
        ImageEncoding::Tiff
    } else {
        ImageEncoding::FallbackJpeg
    }
}

/// The resize for the sides given: both fix the size, one keeps the aspect
/// ratio, none keeps the image as it is.
pub fn resize_plan(width: Option<u32>, height: Option<u32>) -> (r: ResizePlan)
    ensures
        r == match (width, height) {
            (Some(w), Some(h)) => ResizePlan::Exact { width: w, height: h },
            (Some(w), None) => ResizePlan::FitWidth(w),
            (None, Some(h)) => ResizePlan::FitHeight(h),
            (None, None) => ResizePlan::Keep,
        },
{
    match (width, height) {
        (Some(w), Some(h)) => ResizePlan::Exact { width: w, height: h },
        (Some(w), None) => ResizePlan::FitWidth(w),
        (None, Some(h)) => ResizePlan::FitHeight(h),
        (None, None) => ResizePlan::Keep,
    }
}

} // verus!
