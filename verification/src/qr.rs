//! QR tags: their short codes, their public address and their images.

use vstd::prelude::*;
use qrcode::render::svg;
use qrcode::render::unicode::Dense1x2;
use rand::Rng;
use crate::lookup::Lookup;
use crate::responses::{detailed_error, detailed_reply, error_reply, internal_error, internal_error_view, plain_error, ApiError};

verus! {

/// The image formats a QR tag can be generated in.
#[derive(Debug, Clone, Copy, PartialEq, Eq, Structural)]
pub enum QRFormat {
    Svg,
    Png,
    Both,
}

impl Default for QRFormat {
    fn default() -> (r: QRFormat)
        ensures
            r == QRFormat::Both,
    {
        QRFormat::Both
    }
}

/// Whether `format` asks for an SVG image.
pub open spec fn wants_svg(format: QRFormat) -> bool {
    format == QRFormat::Svg || format == QRFormat::Both
}

/// Whether `format` asks for a PNG image.
pub open spec fn wants_png(format: QRFormat) -> bool {
    format == QRFormat::Png || format == QRFormat::Both
}

/// The format of a new tag: the one requested, or both formats.
pub fn requested_format(requested: Option<QRFormat>) -> (r: QRFormat)
    ensures
        r == match requested {
            Some(f) => f,
            None => QRFormat::Both,
        },
{
    match requested {
        Some(f) => f,
        None => QRFormat::Both,
    }
}

/// The characters a short code is made of: digits and letters, without `I`, `L`, `O`,
/// `i`, `l` and `o`.
pub const SLUG_CHARS: &'static str = "0123456789ABCDEFGHJKMNPQRSTUVWXYZabcdefghjkmnpqrstuvwxyz";

/// The length of the short codes given to new tags.
pub const DEFAULT_SLUG_LENGTH: usize = 6;

/// Calls `rand::thread_rng().gen_range(0..bound)`. Claimed: the result is below `bound`;
/// it is random, so nothing else is claimed.
#[verifier::external_body]
fn random_below(bound: usize) -> (r: usize)
    requires
        bound > 0,
    ensures
        r < bound,
{
    rand::thread_rng().gen_range(0..bound)
}

/// A random short code of `length` characters taken from `SLUG_CHARS`.
pub fn generate_slug(length: usize) -> (r: String)
    ensures
        r@.len() == length,
        forall|i: int| 0 <= i < length ==> SLUG_CHARS@.contains(#[trigger] r@[i]),
{
    proof {
        reveal_strlit("0123456789ABCDEFGHJKMNPQRSTUVWXYZabcdefghjkmnpqrstuvwxyz");
    }
    let alphabet_len = SLUG_CHARS.unicode_len();
    let mut chars: Vec<char> = Vec::new();
    let mut i: usize = 0;
    while i < length
        invariant
            i <= length,
            alphabet_len == SLUG_CHARS@.len(),
            alphabet_len > 0,
            chars@.len() == i,
            forall|k: int| 0 <= k < i ==> SLUG_CHARS@.contains(#[trigger] chars@[k]),
        decreases length - i,
    {
        let index = random_below(alphabet_len);
        let c = SLUG_CHARS.get_char(index);
        chars.push(c);
        assert(SLUG_CHARS@[index as int] == c);
        i = i + 1;
    }
    crate::text::string_of(&chars)
}

/// A random short code of the default length.
pub fn generate_unique_slug() -> (r: String)
    ensures
        r@.len() == DEFAULT_SLUG_LENGTH,
        forall|i: int| 0 <= i < DEFAULT_SLUG_LENGTH ==> SLUG_CHARS@.contains(#[trigger] r@[i]),
{
    generate_slug(DEFAULT_SLUG_LENGTH)
}

/// The public address of the tag `slug` under `base_url`.
pub open spec fn tag_url(base_url: Seq<char>, slug: Seq<char>) -> Seq<char> {
    base_url + "/t/"@ + slug
}

/// The public address that a new tag with code `slug` encodes.
pub fn short_url(base_url: &str, slug: &str) -> (r: String)
    ensures
        r@ == tag_url(base_url@, slug@),
{
    let mut url = String::from_str(base_url);
    url.append("/t/");
    url.append(slug);
    url
}

/// The start of the SVG placeholder, up to the encoded address.
pub const PLACEHOLDER_SVG_HEAD: &'static str = r#"<svg xmlns="http://www.w3.org/2000/svg" width="200" height="200" viewBox="0 0 200 200">
                    <rect width="200" height="200" fill="white"/>
                    <rect x="10" y="10" width="180" height="180" fill="black"/>
                    <rect x="20" y="20" width="160" height="160" fill="white"/>
                    <text x="100" y="80" text-anchor="middle" font-family="Arial" font-size="8" fill="black">
                        QR CODE ERROR
                    </text>
                    <text x="100" y="100" text-anchor="middle" font-family="Arial" font-size="7" fill="black">
                        "#;

/// The end of the SVG placeholder, after the encoded address.
pub const PLACEHOLDER_SVG_TAIL: &'static str = r#"
                    </text>
                    <text x="100" y="120" text-anchor="middle" font-family="Arial" font-size="6" fill="black">
                        (Fallback placeholder)
                    </text>
                </svg>"#;

/// The SVG shown in place of a QR code for `url` that could not be generated.
pub open spec fn placeholder_svg(url: Seq<char>) -> Seq<char> {
    PLACEHOLDER_SVG_HEAD@ + url + PLACEHOLDER_SVG_TAIL@
}

/// The bytes stored in place of a PNG image that could not be generated: the PNG signature.
pub open spec fn png_signature() -> Seq<u8> {
    seq![0x89u8, 0x50u8, 0x4Eu8, 0x47u8, 0x0Du8, 0x0Au8, 0x1Au8, 0x0Au8]
}

/// The characters of an optional string, and the bytes of an optional byte vector.
pub open spec fn images_view(images: (Option<String>, Option<Vec<u8>>)) -> (
    Option<Seq<char>>,
    Option<Seq<u8>>,
) {
    (
        match images.0 {
            Some(s) => Some(s@),
            None => None,
        },
        match images.1 {
            Some(v) => Some(v@),
            None => None,
        },
    )
}

/// The placeholder images for `url` in `format`.
pub open spec fn placeholder_images(url: Seq<char>, format: QRFormat) -> (
    Option<Seq<char>>,
    Option<Seq<u8>>,
) {
    (
        if wants_svg(format) {
            Some(placeholder_svg(url))
        } else {
            None
        },
        if wants_png(format) {
            Some(png_signature())
        } else {
            None
        },
    )
}

/// Placeholder images in `format` for a QR code of `url` that could not be generated.
pub fn generate_qr_placeholders(url: &str, format: &QRFormat) -> (r: (Option<String>, Option<Vec<u8>>))
    ensures
        images_view(r) == placeholder_images(url@, *format),
{
    let svg = match format {
        QRFormat::Svg | QRFormat::Both => {
            let mut s = String::from_str(PLACEHOLDER_SVG_HEAD);
            s.append(url);
            s.append(PLACEHOLDER_SVG_TAIL);
            Some(s)
        },
        QRFormat::Png => None,
    };
    let png = match format {
        QRFormat::Png | QRFormat::Both => {
            let mut v: Vec<u8> = Vec::new();
            v.push(0x89);
            v.push(0x50);
            v.push(0x4E);
            v.push(0x47);
            v.push(0x0D);
            v.push(0x0A);
            v.push(0x1A);
            v.push(0x0A);
            assert(v@ =~= png_signature());
            Some(v)
        },
        QRFormat::Svg => None,
    };
    (svg, png)
}

/// Whether qrcode's `QrCode::new` accepts `data` (it refuses data too long for any QR
/// version).
pub uninterp spec fn qr_encodable(data: Seq<char>) -> bool;

/// What qrcode renders as a 200-pixel black-on-white SVG for the QR code of `data`.
pub uninterp spec fn qr_svg_image(data: Seq<char>) -> Seq<char>;

/// What qrcode renders, as the UTF-8 bytes of its inverted `Dense1x2` text picture, for
/// the QR code of `data`.
pub uninterp spec fn qr_dense_image(data: Seq<char>) -> Seq<u8>;

/// Calls qrcode's `QrCode::new(data)` and renders the code as a 200-pixel SVG in black on
/// white. Claimed: there is an image exactly when `QrCode::new` accepts `data`, and the
/// image is a function of `data` alone.
#[verifier::external_body]
fn qr_svg(data: &str) -> (r: Option<String>)
    ensures
        r is Some <==> qr_encodable(data@),
        r matches Some(s) ==> s@ == qr_svg_image(data@),
{
    match qrcode::QrCode::new(data) {
        Ok(code) => Some(
            code.render::<svg::Color>().min_dimensions(200, 200).dark_color(svg::Color("#000000"))
                .light_color(svg::Color("#FFFFFF")).build(),
        ),
        Err(_) => None,
    }
}

/// Calls qrcode's `QrCode::new(data)` and renders the code as `Dense1x2` text with the
/// colours swapped, returned as bytes. Claimed: there is a picture exactly when
/// `QrCode::new` accepts `data`, and the picture is a function of `data` alone.
#[verifier::external_body]
fn qr_dense(data: &str) -> (r: Option<Vec<u8>>)
    ensures
        r is Some <==> qr_encodable(data@),
        r matches Some(v) ==> v@ == qr_dense_image(data@),
{
    match qrcode::QrCode::new(data) {
        Ok(code) => Some(
            code.render::<Dense1x2>().dark_color(Dense1x2::Light).light_color(Dense1x2::Dark)
                .build().into_bytes(),
        ),
        Err(_) => None,
    }
}

/// The images of a tag encoding `url` in `format`: the QR code's images when `url` can be
/// encoded, the placeholders otherwise.
pub open spec fn tag_images(url: Seq<char>, format: QRFormat) -> (
    Option<Seq<char>>,
    Option<Seq<u8>>,
) {
    if qr_encodable(url) {
        (
            if wants_svg(format) {
                Some(qr_svg_image(url))
            } else {
                None
            },
            if wants_png(format) {
                Some(qr_dense_image(url))
            } else {
                None
            },
        )
    } else {
        placeholder_images(url, format)
    }
}

/// The images of a new tag encoding `url`, in `format`.
pub fn generate_qr_codes(url: &str, format: &QRFormat) -> (r: (Option<String>, Option<Vec<u8>>))
    ensures
        images_view(r) == tag_images(url@, *format),
{
    let svg = match qr_svg(url) {
        Some(svg) => svg,
        None => return generate_qr_placeholders(url, format),
    };
    let svg_image = match format {
        QRFormat::Svg | QRFormat::Both => Some(svg),
        QRFormat::Png => None,
    };
    let png_image = match format {
        QRFormat::Png | QRFormat::Both => qr_dense(url),
        QRFormat::Svg => None,
    };
    (svg_image, png_image)
}

/// The images of a tag carry exactly the formats asked for, whether the address could be
/// encoded or placeholders stand in for the code.
pub proof fn law_images_follow_the_format(url: Seq<char>, format: QRFormat)
    ensures
        tag_images(url, format).0 is Some <==> wants_svg(format),
        tag_images(url, format).1 is Some <==> wants_png(format),
        placeholder_images(url, format).0 is Some <==> wants_svg(format),
        placeholder_images(url, format).1 is Some <==> wants_png(format),
        wants_svg(format) || wants_png(format),
{
}

/// What a new tag is stored with.
#[derive(Debug, Clone)]
pub struct NewQrTag {
    pub slug: String,
    pub short_url: String,
    pub svg: Option<String>,
    pub png: Option<Vec<u8>>,
}

/// Prepares a new tag: a fresh short code, the public address under `base_url` that it
/// encodes, and its images in the requested format (both when none is requested).
pub fn prepare_qr_tag(base_url: &str, format: Option<QRFormat>) -> (r: NewQrTag)
    ensures
        r.slug@.len() == DEFAULT_SLUG_LENGTH,
        forall|i: int| 0 <= i < DEFAULT_SLUG_LENGTH ==> SLUG_CHARS@.contains(#[trigger] r.slug@[i]),
        r.short_url@ == tag_url(base_url@, r.slug@),
        images_view((r.svg, r.png)) == tag_images(
            r.short_url@,
            match format {
                Some(f) => f,
                None => QRFormat::Both,
            },
        ),
{
    let slug = generate_unique_slug();
    let url = short_url(base_url, slug.as_str());
    let chosen = requested_format(format);
    let (svg, png) = generate_qr_codes(url.as_str(), &chosen);
    NewQrTag { slug, short_url: url, svg, png }
}

/// A scan of a tag, as the scanning client reports it.
#[derive(Debug, Clone)]
pub struct RecordScanRequest {
    pub ip_address: Option<String>,
    pub user_agent: Option<String>,
    pub referer: Option<String>,
}

/// A visit of a public traceability page, as the visiting client reports it.
#[derive(Debug, Clone)]
pub struct RecordVisitRequest {
    pub ip_address: Option<String>,
    pub user_agent: Option<String>,
    pub referer: Option<String>,
}

/// The scans of a tag from one country.
#[derive(Debug, Clone)]
pub struct CountryStats {
    pub country: String,
    pub count: i32,
}

/// The scans of a tag on one day, written `YYYY-MM-DD`.
#[derive(Debug, Clone)]
pub struct DailyScanStats {
    pub date: String,
    pub count: i32,
}

/// The active tag a scan is recorded for, given what looking up its code `slug` gave.
pub fn scanned_tag<T>(slug: &str, outcome: Lookup<T>) -> (r: Result<T, ApiError>)
    ensures
        match outcome {
            Lookup::Found(t) => r matches Ok(u) && u == t,
            Lookup::Missing => r matches Err(e) && e@ == detailed_error(
                404,
                "QR code non trouvé ou inactif"@,
                "slug"@,
                slug@,
            ),
            Lookup::Failed(_) => r matches Err(e) && e@ == detailed_error(
                500,
                "Erreur lors de la recherche du QR code"@,
                "details"@,
                "Erreur interne"@,
            ),
        },
{
    match outcome {
        Lookup::Found(t) => Ok(t),
        Lookup::Missing => Err(detailed_reply(404, "QR code non trouvé ou inactif", "slug", slug)),
        Lookup::Failed(_) => Err(
            detailed_reply(500, "Erreur lors de la recherche du QR code", "details", "Erreur interne"),
        ),
    }
}

/// The answer when a scan cannot be stored.
pub fn scan_failure() -> (r: ApiError)
    ensures
        r@ == detailed_error(500, "Erreur lors de l'enregistrement du scan"@, "details"@, "Erreur interne"@),
{
    detailed_reply(500, "Erreur lors de l'enregistrement du scan", "details", "Erreur interne")
}

/// The tag a page visit is recorded for, given what reading the page's data gave; a failure
/// while reading or storing the visit is answered with a neutral internal error.
pub fn visited_tag<T>(outcome: Lookup<T>) -> (r: Result<T, ApiError>)
    ensures
        match outcome {
            Lookup::Found(t) => r matches Ok(u) && u == t,
            Lookup::Missing => r matches Err(e) && e@ == plain_error(404, "QR code non trouvé"@),
            Lookup::Failed(_) => r matches Err(e) && e@ == internal_error_view("Erreur lors de l'enregistrement de la visite"@),
        },
{
    match outcome {
        Lookup::Found(t) => Ok(t),
        Lookup::Missing => Err(error_reply(404, "QR code non trouvé")),
        Lookup::Failed(_) => Err(
            internal_error("Erreur lors de l'enregistrement de la visite"),
        ),
    }
}

/// The message of the public data of a code `slug`, found or not.
pub fn traceability_message(found: bool, slug: &str) -> (r: String)
    ensures
        found ==> r@ == "Informations de traçabilité trouvées"@,
        !found ==> r@ == "Aucune information trouvée pour le code "@ + slug@,
{
    if found {
        String::from_str("Informations de traçabilité trouvées")
    } else {
        let mut m = String::from_str("Aucune information trouvée pour le code ");
        m.append(slug);
        m
    }
}

/// The status of the public data of a code: 200 when found, 404 otherwise.
pub fn traceability_status(found: bool) -> (r: u16)
    ensures
        r == if found { 200u16 } else { 404u16 },
{
    if found {
        200
    } else {
        404
    }
}

/// The answer when the public data of a code cannot be read.
pub fn traceability_failure() -> (r: ApiError)
    ensures
        r@ == internal_error_view("Erreur lors de la récupération des données"@),
{
    internal_error("Erreur lors de la récupération des données")
}

} // verus!
