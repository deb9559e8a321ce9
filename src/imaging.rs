//! Resizing raster images and making the repository's icons, through the
//! `image` codecs. Animated images are left to an external tool.
use vstd::prelude::*;
use crate::catalog::{gif, jpg, png};

verus! {

#[verifier::external_type_specification]
#[verifier::external_body]
pub struct ExDynamicImage(image::DynamicImage);

#[verifier::external_type_specification]
#[verifier::external_body]
pub struct ExImageError(image::ImageError);

#[verifier::external_type_specification]
#[verifier::external_body]
pub struct ExImageFormat(image::ImageFormat);

pub open spec fn ico() -> Seq<char> {
    seq!['i', 'c', 'o']
}

/// Why an image could not be resized.
#[derive(Debug)]
pub enum ResizeError {
    /// The extension names no format that the codecs write.
    UnsupportedFormat,
    /// The bytes do not decode as an image.
    Undecodable(image::ImageError),
    /// The codecs failed to write the image.
    Image(image::ImageError),
}

/// The two icons of a repository, encoded.
#[derive(Debug)]
pub struct RepoIcons {
    /// `RepoImage.png`.
    pub png: Vec<u8>,
    /// `favicon.ico`.
    pub ico: Vec<u8>,
}

/// The image in `data` decodes: `image::load_from_memory` accepts it.
pub uninterp spec fn decodable(data: Seq<u8>) -> bool;

/// What the codecs make of `data` when they decode it, scale it to fit a
/// `size` by `size` box and encode it in the format that `extension` names;
/// `None` when any step fails.
pub uninterp spec fn resized_bytes(data: Seq<u8>, extension: Seq<char>, size: u32) -> Option<Seq<u8>>;

/// What the codecs make of `data` when they decode it and encode it again,
/// unchanged, in the format that `extension` names; `None` when either step
/// fails.
pub uninterp spec fn reencoded_bytes(data: Seq<u8>, extension: Seq<char>) -> Option<Seq<u8>>;

/// Relies on `image::ImageFormat::from_extension`, `image::load_from_memory`
/// (the format guessed from the first bytes), `DynamicImage::resize` with
/// the Lanczos3 filter (the aspect ratio kept) and `DynamicImage::write_to`
/// into memory. The outcome depends on the arguments alone; `from_extension`
/// knows (among others) png, jpg and gif, and for them the error tells
/// whether decoding failed.
#[verifier::external_body]
fn codec_resize(data: &[u8], extension: &str, size: u32) -> (r: Result<Vec<u8>, ResizeError>)
    ensures
        r matches Err(ResizeError::UnsupportedFormat) ==> !(extension@ == png() || extension@ == jpg()
            || extension@ == gif()),
        (extension@ == png() || extension@ == jpg() || extension@ == gif()) ==> (r matches Err(
            ResizeError::Undecodable(_),
        ) <==> !decodable(data@)),
        r is Ok <==> resized_bytes(data@, extension@, size) is Some,
        r is Ok ==> r->Ok_0@ == resized_bytes(data@, extension@, size)->Some_0,
{
    let format = match image::ImageFormat::from_extension(extension) {
        Some(f) => f,
        None => return Err(ResizeError::UnsupportedFormat),
    };
    let img = image::load_from_memory(data).map_err(ResizeError::Undecodable)?;
    let small = img.resize(size, size, image::imageops::FilterType::Lanczos3);
    let mut out = std::io::Cursor::new(Vec::new());
    small.write_to(&mut out, format).map_err(ResizeError::Image)?;
    Ok(out.into_inner())
}

/// Relies on `image::ImageFormat::from_extension`, `image::load_from_memory`
/// (the format guessed from the first bytes) and `DynamicImage::write_to`
/// into memory. The outcome depends on the arguments alone; `from_extension`
/// knows (among others) png and ico, and for them the error tells whether
/// decoding failed.
#[verifier::external_body]
fn codec_reencode(data: &[u8], extension: &str) -> (r: Result<Vec<u8>, ResizeError>)
    ensures
        r is Ok <==> reencoded_bytes(data@, extension@) is Some,
        r is Ok ==> r->Ok_0@ == reencoded_bytes(data@, extension@)->Some_0,
        (extension@ == png() || extension@ == ico()) ==> (r matches Err(ResizeError::Undecodable(_))
            <==> !decodable(data@)),
{
    let format = match image::ImageFormat::from_extension(extension) {
        Some(f) => f,
        None => return Err(ResizeError::UnsupportedFormat),
    };
    let img = image::load_from_memory(data).map_err(ResizeError::Undecodable)?;
    let mut out = std::io::Cursor::new(Vec::new());
    img.write_to(&mut out, format).map_err(ResizeError::Image)?;
    Ok(out.into_inner())
}

/// Images of this extension are animated and resized by an external tool.
pub fn is_animated(extension: &str) -> (r: bool)
    ensures
        r == (extension@ == gif()),
{
    let g = "gif";
    proof {
        reveal_strlit("gif");
        assert(g@ =~= gif());
    }
    String::from_str(extension) == String::from_str(g)
}

/// Resizes the still image held in `data` to fit a `size` by `size` box
/// and encodes it in the format that `extension` names. The result is what
/// the codecs make of the bytes: for the extensions of a catalog never an
/// unknown format, and `Undecodable` exactly when the bytes do not decode.
/// The codecs keep one frame only: images for which `is_animated` holds go
/// to an external tool instead.
pub fn resize(data: &[u8], extension: &str, size: u32) -> (r: Result<Vec<u8>, ResizeError>)
    ensures
        r matches Err(ResizeError::UnsupportedFormat) ==> !(extension@ == png() || extension@ == jpg() || extension@ == gif()),
        r is Ok <==> resized_bytes(data@, extension@, size) is Some,
        r is Ok ==> r->Ok_0@ == resized_bytes(data@, extension@, size)->Some_0,
        (extension@ == png() || extension@ == jpg() || extension@ == gif()) ==> (r matches Err(
            ResizeError::Undecodable(_),
        ) <==> !decodable(data@)),
{
    codec_resize(data, extension, size)
}

/// Makes the repository's icons from an image of any format the codecs
/// read: the same picture encoded as PNG and as ICO. The error is
/// `Undecodable` exactly when the image does not decode.
pub fn make_repo_icons(icon: &[u8]) -> (r: Result<RepoIcons, ResizeError>)
    ensures
        r is Ok <==> reencoded_bytes(icon@, png()) is Some && reencoded_bytes(icon@, ico()) is Some,
        r is Ok ==> r->Ok_0.png@ == reencoded_bytes(icon@, png())->Some_0 && r->Ok_0.ico@
            == reencoded_bytes(icon@, ico())->Some_0,
        r matches Err(ResizeError::Undecodable(_)) <==> !decodable(icon@),
{
    let p = "png";
    let i = "ico";
    proof {
        reveal_strlit("png");
        reveal_strlit("ico");
        assert(p@ =~= png());
        assert(i@ =~= ico());
    }
    let png = match codec_reencode(icon, p) {
        Ok(bytes) => bytes,
        Err(e) => return Err(e),
    };
    let ico = match codec_reencode(icon, i) {
        Ok(bytes) => bytes,
        Err(e) => return Err(e),
    };
    Ok(RepoIcons { png, ico })
}

} // verus!
