//! Wallet icons: static image bytes with their MIME kind, rendered as
//! base64 data URIs.

use vstd::prelude::*;

use base64ct::{Base64, Encoding};

verus! {

/// The base64 rendering of a byte string, standard alphabet with padding.
pub uninterp spec fn base64_of(bytes: Seq<u8>) -> Seq<char>;

/// Relies on `base64ct::Base64::encode_string`: the padded standard-alphabet
/// base64 text of the bytes, a function of the bytes alone.
#[verifier::external_body]
fn encode_base64(bytes: &[u8]) -> (r: String)
    ensures
        r@ == base64_of(bytes@),
{
    Base64::encode_string(bytes)
}

/// The MIME kind of a wallet icon image.
#[derive(Debug, PartialEq, Eq, PartialOrd, Ord, Hash, Clone, Copy, Structural)]
pub enum WalletStandardIconMime {
    /// An SVG image.
    Svg,
    /// A PNG image.
    Png,
    /// A WebP image.
    Webp,
    /// A GIF image.
    Gif,
    /// A JPEG image.
    Jpeg,
}

impl WalletStandardIconMime {
    /// What [`Self::mime_str`] returns.
    pub open spec fn mime_str_spec(&self) -> Seq<char> {
        match self {
            WalletStandardIconMime::Svg => "svg+xml"@,
            WalletStandardIconMime::Gif => "gif"@,
            WalletStandardIconMime::Png => "png"@,
            WalletStandardIconMime::Webp => "webp"@,
            WalletStandardIconMime::Jpeg => "jpeg"@,
        }
    }

    /// The MIME subtype under `image/`.
    pub fn mime_str(&self) -> (r: &'static str)
        ensures
            r@ == self.mime_str_spec(),
    {
        match self {
            WalletStandardIconMime::Svg => "svg+xml",
            WalletStandardIconMime::Gif => "gif",
            WalletStandardIconMime::Png => "png",
            WalletStandardIconMime::Webp => "webp",
            WalletStandardIconMime::Jpeg => "jpeg",
        }
    }
}

/// A wallet icon: static image bytes and their MIME kind.
#[derive(Debug, PartialEq, Eq, PartialOrd, Ord, Hash, Clone, Copy)]
pub struct WalletStandardIcon {
    /// The raw image bytes.
    pub bytes: &'static [u8],
    /// The MIME kind of the image.
    pub mime: WalletStandardIconMime,
}

impl WalletStandardIcon {
    /// An icon from raw bytes and their MIME kind.
    pub fn new(bytes: &'static [u8], mime: WalletStandardIconMime) -> (r: Self)
        ensures
            r.bytes@ == bytes@,
            r.mime == mime,
    {
        WalletStandardIcon { bytes, mime }
    }

    /// An SVG icon.
    pub fn new_svg(bytes: &'static [u8]) -> (r: Self)
        ensures
            r.bytes@ == bytes@,
            r.mime == WalletStandardIconMime::Svg,
    {
        Self::new(bytes, WalletStandardIconMime::Svg)
    }

    /// A GIF icon.
    pub fn new_gif(bytes: &'static [u8]) -> (r: Self)
        ensures
            r.bytes@ == bytes@,
            r.mime == WalletStandardIconMime::Gif,
    {
        Self::new(bytes, WalletStandardIconMime::Gif)
    }

    /// A WebP icon.
    pub fn new_webp(bytes: &'static [u8]) -> (r: Self)
        ensures
            r.bytes@ == bytes@,
            r.mime == WalletStandardIconMime::Webp,
    {
        Self::new(bytes, WalletStandardIconMime::Webp)
    }

    /// A PNG icon.
    pub fn new_png(bytes: &'static [u8]) -> (r: Self)
        ensures
            r.bytes@ == bytes@,
            r.mime == WalletStandardIconMime::Png,
    {
        Self::new(bytes, WalletStandardIconMime::Png)
    }

    /// A JPEG icon.
    pub fn new_jpeg(bytes: &'static [u8]) -> (r: Self)
        ensures
            r.bytes@ == bytes@,
            r.mime == WalletStandardIconMime::Jpeg,
    {
        Self::new(bytes, WalletStandardIconMime::Jpeg)
    }

    /// The icon as a base64 data URI:
    /// `data:image/{mime};base64,{image bytes base64-encoded}`.
    pub fn base64(&self) -> (r: String)
        ensures
            r@ == "data:image/"@ + self.mime.mime_str_spec() + ";base64,"@ + base64_of(
                self.bytes@,
            ),
    {
        let encoded = encode_base64(self.bytes);
        let mut out = "data:image/".to_owned();
        out.append(self.mime.mime_str());
        out.append(";base64,");
        out.append(encoded.as_str());
        proof {
            assert(out@ =~= "data:image/"@ + self.mime.mime_str_spec() + ";base64,"@ + base64_of(
                self.bytes@,
            ));
        }
        out
    }
}

/// A wallet icon already rendered as a data URI, of the form
/// `data:image/{svg+xml | webp | png | gif};base64,{data}`.
#[derive(Debug, Clone, PartialEq, Eq, PartialOrd, Ord, Hash)]
pub struct WalletIcon(pub String);

} // verus!
