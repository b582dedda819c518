//! Screenshots: where they go, in which format and at which size, and how they are encoded.

use std::time::SystemTime;
use std::time::UNIX_EPOCH;

use vstd::prelude::*;

use crate::preview::fit_within;
use crate::preview::fitted;
use crate::preview::law_preview_is_never_larger;
use crate::preview::law_preview_keeps_what_fits;
use crate::preview::law_preview_stays_in_the_box;
use crate::preview::lemma_fitted_size;
use crate::response::ScreenshotFormat;
use crate::text::as_text;
use crate::text::cat4;
use crate::text::decimal;
use crate::text::decimal_text;
use crate::text::holds;
use crate::text::lemma_decimal_digits;
use crate::text::lower;
use crate::text::lower_char;
use crate::text::opt_string;
use crate::text::opt_text;
use crate::text::same_text;
use crate::text::to_lower;

verus! {

/// The format that an extension stands for; JPEG where it stands for none.
pub open spec fn format_for(extension: Option<Seq<char>>) -> ScreenshotFormat {
    match extension {
        Some(extension) => if lower(extension) == "png"@ {
            ScreenshotFormat::Png
        } else {
            ScreenshotFormat::Jpeg
        },
        None => ScreenshotFormat::Jpeg,
    }
}

/// The format that an extension stands for, whatever the case of its letters.
pub fn format_for_extension(extension: Option<&str>) -> (format: ScreenshotFormat)
    ensures
        format == format_for(opt_text(extension)),
{
    match extension {
        Some(extension) => if same_text(to_lower(extension).as_str(), "png") {
            ScreenshotFormat::Png
        } else {
            ScreenshotFormat::Jpeg
        },
        None => ScreenshotFormat::Jpeg,
    }
}

/// Whether a character is a separator of path components, on one system or another.
pub open spec fn separates(c: char) -> bool {
    c == '/' || c == '\\'
}

/// Whether a character parts the components of a path on one system or another.
pub open spec fn parts_path(c: char) -> bool {
    separates(c) || c == ':'
}

/// Whether a path begins with two separators: it may name a share.
pub open spec fn begins_apart(path: Seq<char>) -> bool {
    path.len() >= 2 && separates(path[0]) && separates(path[1])
}

/// Whether a path begins with two separators and a question mark: it may be taken as it stands, its
/// slashes being no separators.
pub open spec fn verbatim(path: Seq<char>) -> bool {
    begins_apart(path) && path.len() >= 3 && path[2] == '?'
}

/// A path without the slashes at its end, and without the lone dots behind slashes there.
pub open spec fn without_trail(path: Seq<char>) -> Seq<char>
    decreases path.len(),
{
    let n = path.len();
    if n > 0 && path[n - 1] == '/' {
        without_trail(path.drop_last())
    } else if n > 1 && path[n - 1] == '.' && path[n - 2] == '/' {
        without_trail(path.drop_last())
    } else {
        path
    }
}

/// The position behind the last `c` among the first `n` characters, zero where there is none.
pub open spec fn behind_last(s: Seq<char>, c: char, n: int) -> int
    decreases n,
{
    if 0 < n <= s.len() && s[n - 1] != c {
        behind_last(s, c, n - 1)
    } else {
        n
    }
}

/// Whether every system takes a path apart in the same way: at its slashes.
pub open spec fn portable(path: Seq<char>) -> bool {
    !path.contains('\\') && !path.contains(':') && !begins_apart(path)
}

/// The last component of a path whose components are parted by slashes.
pub open spec fn last_component(path: Seq<char>) -> Seq<char> {
    let named = without_trail(path);
    named.skip(behind_last(named, '/', named.len() as int))
}

/// The extension of a file name: what follows its last dot, unless nothing stands before that.
/// The name of the directory above is no file name.
pub open spec fn name_extension(name: Seq<char>) -> Option<Seq<char>> {
    let at = behind_last(name, '.', name.len() as int);
    if at <= 1 || name == seq!['.', '.'] {
        None
    } else {
        Some(name.skip(at))
    }
}

/// Whether the dot stands behind a server and its share, in a path that begins with two
/// separators.
pub open spec fn behind_share(path: Seq<char>, dot: int) -> bool {
    exists|i: int, j: int| #[trigger] names_share(path, i, j) && j < dot
}

/// Whether a path begins with two separators, a server that ends at `i` and a share that ends at
/// `j`.
pub open spec fn names_share(path: Seq<char>, i: int, j: int) -> bool {
    &&& begins_apart(path)
    &&& !verbatim(path)
    &&& 2 < i && i + 1 < j && j < path.len()
    &&& separates(path[i]) && separates(path[j])
    &&& forall|k: int| 2 <= k < j && k != i ==> !separates(#[trigger] path[k])
}

/// Whether `e` follows the last dot of a file name in the path, whatever the system: it is not
/// empty, it has no dot and nothing that parts components, and the dot has part of the name before
/// it. Slashes behind the name do not matter. A path that begins with two separators has a file
/// name behind a share only.
pub open spec fn plainly_extends(path: Seq<char>, e: Seq<char>) -> bool {
    let named = without_trail(path);
    let dot = named.len() - e.len() - 1;
    &&& 0 < e.len()
    &&& 0 < dot
    &&& named.skip(dot) == seq!['.'] + e
    &&& !parts_path(named[dot - 1])
    &&& forall|i: int| 0 <= i < e.len() ==> #[trigger] e[i] != '.' && !parts_path(e[i])
    &&& begins_apart(path) ==> behind_share(path, dot)
}

/// Whether a system may drop what a path holds from `end` on: separators, and lone dots between
/// them.
pub open spec fn may_drop(path: Seq<char>, end: int) -> bool {
    forall|i: int|
        end <= i < path.len() ==> separates(#[trigger] path[i]) || (path[i] == '.' && separates(
            path[i - 1],
        ) && (i + 1 < path.len() ==> separates(path[i + 1])))
}

/// Whether a file name in the path may end with the dot at `dot` and `e`, on one system or another:
/// part of the name stands before the dot, there is no slash in `e`, and behind it only what a
/// system may drop.
pub open spec fn may_end_name(path: Seq<char>, e: Seq<char>, dot: int) -> bool {
    let end = dot + 1 + e.len();
    &&& 0 < dot
    &&& end <= path.len()
    &&& path[dot - 1] != '/'
    &&& path.subrange(dot, end) == seq!['.'] + e
    &&& !e.contains('/')
    &&& may_drop(path, end)
}

/// Whether a path may be told to have an extension. Where every system takes the path apart in the
/// same way, it is that of the last component. Elsewhere it is the plain one, if the path has one;
/// it has no dot; and it stands in the path behind a dot, where a file name may end on one system
/// or another.
pub open spec fn may_extend(path: Seq<char>, extension: Option<Seq<char>>) -> bool {
    &&& portable(path) ==> extension == name_extension(last_component(path))
    &&& forall|e: Seq<char>| #[trigger] plainly_extends(path, e) ==> extension == Some(e)
    &&& extension matches Some(e) ==> {
        &&& holds(path, seq!['.'] + e)
        &&& !e.contains('.')
        &&& !verbatim(path) ==> exists|dot: int| may_end_name(path, e, dot)
    }
}

/// The extension of a path, as `std::path::Path::extension` tells it: what follows the last dot
/// of the file name, unless nothing stands before that dot. The file name is the last component,
/// slashes and lone dots at the end of the path aside, and `..` is none. Which other characters
/// part components, and how a path may begin, differs between systems. Where none of these stands
/// in the path, the extension is said exactly. Elsewhere only what holds on each system is said:
/// the extension follows a dot and has none in it, part of the file name stands before that dot and
/// nothing of it behind the extension, and it is what follows the last dot where that is in the
/// file name anywhere.
#[verifier::external_body]
fn path_extension(path: &str) -> (extension: Option<String>)
    ensures
        may_extend(path@, opt_string(extension)),
{
    std::path::Path::new(path).extension().and_then(|e| e.to_str()).map(|e| e.to_string())
}

/// Whether a screenshot is written in a format: in the one that is asked for, else in the one that
/// the extension of the path stands for, else in JPEG.
pub open spec fn format_chosen(
    path: Option<Seq<char>>,
    requested: Option<ScreenshotFormat>,
    format: ScreenshotFormat,
) -> bool {
    &&& requested matches Some(asked) ==> format == asked
    &&& requested is None && path is None ==> format == ScreenshotFormat::Jpeg
    &&& requested is None && path is Some ==> exists|e: Option<Seq<char>>| #[trigger]
        may_extend(path->0, e) && format == format_for(e)
}

/// The format of a screenshot: the one that is asked for, else the one that the extension of the
/// path stands for, else JPEG.
pub fn resolve_screenshot_format(path: Option<&str>, requested: Option<ScreenshotFormat>) -> (format:
    ScreenshotFormat)
    ensures
        format_chosen(opt_text(path), requested, format),
{
    if let Some(asked) = requested {
        return asked;
    }
    match path {
        Some(path) => {
            let extension = path_extension(path);
            let format = format_for_extension(as_text(&extension));
            let ghost told = Some(path@);
            assert(may_extend(told->0, opt_string(extension)));
            format
        },
        None => ScreenshotFormat::Jpeg,
    }
}

/// The format that is asked for goes before the path. Else a screenshot is written in PNG just
/// where the path is told to have the extension `png`, whatever the case of its letters, and in
/// JPEG in every other case. What is told is fixed where every system takes the path apart alike.
pub proof fn law_format_goes_by_the_extension(
    path: Option<Seq<char>>,
    requested: Option<ScreenshotFormat>,
    format: ScreenshotFormat,
)
    requires
        format_chosen(path, requested, format),
    ensures
        requested is Some ==> requested == Some(format),
        requested is None && path is None ==> format == ScreenshotFormat::Jpeg,
        requested is None && path is Some ==> exists|told: Option<Seq<char>>| #[trigger]
            may_extend(path->0, told) && (format == ScreenshotFormat::Png <==> told is Some
                && lower(told->0) == "png"@),
        requested is None && path is Some && portable(path->0) ==> (format == ScreenshotFormat::Png
            <==> name_extension(last_component(path->0)) is Some && lower(
            name_extension(last_component(path->0))->0,
        ) == "png"@),
{
}

/// A path with a plain extension is written in the format that the extension stands for, unless
/// another is asked for.
pub proof fn law_plain_extension_decides(path: Seq<char>, e: Seq<char>, format: ScreenshotFormat)
    requires
        plainly_extends(path, e),
        format_chosen(Some(path), None, format),
    ensures
        format == format_for(Some(e)),
{
}

/// A path in which no system sees a PNG extension, such as a name that is nothing but a dot and
/// `png`, is written in JPEG, unless PNG is asked for.
pub proof fn law_other_paths_are_jpeg(path: Seq<char>, format: ScreenshotFormat)
    requires
        !verbatim(path),
        forall|e: Seq<char>, dot: int| #[trigger]
            may_end_name(path, e, dot) ==> e.contains('.') || lower(e) != "png"@,
        format_chosen(Some(path), None, format),
    ensures
        format == ScreenshotFormat::Jpeg,
{
}

/// The seconds that `SystemTime::now` is past the Unix epoch, none where the clock stands before
/// it. What the clock says is not stated.
#[verifier::external_body]
fn clock_seconds() -> (seconds: Option<u64>)
{
    SystemTime::now().duration_since(UNIX_EPOCH).ok().map(|d| d.as_secs())
}

/// The time that a reading of the clock stands for: a clock before the Unix epoch is at zero.
pub fn time_from_clock(seconds: Option<u64>) -> (now: u64)
    ensures
        now == match seconds {
            Some(s) => s,
            None => 0u64,
        },
{
    match seconds {
        Some(s) => s,
        None => 0,
    }
}

/// The current time, in seconds since the Unix epoch.
pub fn unix_now() -> (now: u64)
{
    time_from_clock(clock_seconds())
}

/// The extension for a format.
pub open spec fn extension_of(format: ScreenshotFormat) -> Seq<char> {
    match format {
        ScreenshotFormat::Jpeg => "jpg"@,
        ScreenshotFormat::Png => "png"@,
    }
}

/// The path of a screenshot taken at that time, where none is asked for.
pub open spec fn screenshot_name(now: u64, format: ScreenshotFormat) -> Seq<char> {
    "screenshot-"@ + decimal(now as nat) + "."@ + extension_of(format)
}

/// The path of a screenshot taken at that time, where none is asked for.
pub fn screenshot_path_at(now: u64, format: ScreenshotFormat) -> (path: String)
    ensures
        path@ == screenshot_name(now, format),
{
    let extension: &str = match format {
        ScreenshotFormat::Jpeg => "jpg",
        ScreenshotFormat::Png => "png",
    };
    cat4("screenshot-", decimal_text(now).as_str(), ".", extension)
}

/// The path of a screenshot taken now, where none is asked for.
pub fn default_screenshot_path(format: ScreenshotFormat) -> (path: String)
    ensures
        exists|now: u64| path@ == #[trigger] screenshot_name(now, format),
{
    screenshot_path_at(unix_now(), format)
}

/// A default path is written in the format that it was made for: its extension stands for it, and
/// the format that is chosen for the path is the same again.
pub proof fn law_default_path_keeps_the_format(
    now: u64,
    format: ScreenshotFormat,
    chosen: ScreenshotFormat,
)
    ensures
        plainly_extends(screenshot_name(now, format), extension_of(format)),
        format_for(Some(extension_of(format))) == format,
        format_chosen(Some(screenshot_name(now, format)), None, chosen) ==> chosen == format,
{
    reveal_strlit("screenshot-");
    reveal_strlit(".");
    reveal_strlit("jpg");
    reveal_strlit("png");
    let e = extension_of(format);
    let path = screenshot_name(now, format);
    let digits = decimal(now as nat);
    lemma_decimal_digits(now as nat);
    assert(path.skip(path.len() - 4) =~= seq!['.'] + e);
    assert(path[path.len() - 5] == digits.last());
    assert(lower(e)[0] == e[0]);
    assert(format == ScreenshotFormat::Png ==> lower(e) =~= "png"@);
    assert(plainly_extends(path, e));
    if format_chosen(Some(path), None, chosen) {
        law_plain_extension_decides(path, e, chosen);
    }
}

/// The size at which a screenshot is written: as it is, or fitted into the box.
pub open spec fn shown_size(
    original: (u32, u32),
    max_width: u32,
    max_height: u32,
    full: bool,
) -> (nat, nat) {
    if full {
        (original.0 as nat, original.1 as nat)
    } else {
        fitted(original.0 as nat, original.1 as nat, max_width as nat, max_height as nat)
    }
}

/// Computes `shown_size`.
pub fn preview_size(original: (u32, u32), max_width: u32, max_height: u32, full: bool) -> (size: (
    u32,
    u32,
))
    ensures
        (size.0 as nat, size.1 as nat) == shown_size(original, max_width, max_height, full),
{
    if full {
        original
    } else {
        fit_within(original.0, original.1, max_width, max_height)
    }
}

/// `image::DynamicImage`, a decoded image.
#[verifier::external_type_specification]
#[verifier::external_body]
pub struct ExDynamicImage(image::DynamicImage);

/// `image::ImageError`, carried through unread.
#[verifier::external_type_specification]
#[verifier::external_body]
pub struct ExImageError(image::ImageError);

/// What a `DynamicImage` holds: its size, the kind of its samples and the samples.
pub uninterp spec fn image_content(image: image::DynamicImage) -> Seq<u8>;

/// The width and the height of an image that holds `content`.
pub uninterp spec fn content_size(content: Seq<u8>) -> (u32, u32);

/// Whether `image::load_from_memory` decodes the file, on one machine or another, to an image that
/// holds `content`, or fails where that is nothing.
pub uninterp spec fn decodes_to(file: Seq<u8>, content: Option<Seq<u8>>) -> bool;

/// Whether `DynamicImage::resize_exact` with the Lanczos filter makes an image that holds
/// `resized`, on one machine or another, out of one that holds `content`.
pub uninterp spec fn resizes_to(content: Seq<u8>, width: u32, height: u32, resized: Seq<u8>) -> bool;

/// What an image holds once `DynamicImage::to_rgb8` has reduced it to 8-bit colours.
pub uninterp spec fn rgb_content(content: Seq<u8>) -> Seq<u8>;

/// The file that `JpegEncoder` encodes an image to; nothing where it fails.
pub uninterp spec fn jpeg_file(content: Seq<u8>, quality: u8) -> Option<Seq<u8>>;

/// The file that `DynamicImage::write_to` encodes an image to as PNG; nothing where it fails.
pub uninterp spec fn png_file(content: Seq<u8>) -> Option<Seq<u8>>;

/// Decodes an image with `image::load_from_memory`. The samples of a JPEG may differ between
/// machines, so what it holds is one of the outcomes that `decodes_to` admits.
#[verifier::external_body]
fn load_image(file: &Vec<u8>) -> (loaded: Result<image::DynamicImage, image::ImageError>)
    ensures
        match loaded {
            Ok(image) => decodes_to(file@, Some(image_content(image))),
            Err(_) => decodes_to(file@, None),
        },
{
    image::load_from_memory(file)
}

/// The width and the height of an image, as its `dimensions` tells them.
#[verifier::external_body]
fn image_size(image: &image::DynamicImage) -> (size: (u32, u32))
    ensures
        size == content_size(image_content(*image)),
{
    (image.width(), image.height())
}

/// Scales an image with `DynamicImage::resize_exact` and the Lanczos filter. The result has the
/// size that is asked for. Its samples are computed with the floating point sine of the machine,
/// so what it holds is one of the outcomes that `resizes_to` admits.
#[verifier::external_body]
fn resize_image(image: &image::DynamicImage, width: u32, height: u32) -> (resized:
    image::DynamicImage)
    requires
        1 <= width,
        1 <= height,
        width <= content_size(image_content(*image)).0 || width == 1,
        height <= content_size(image_content(*image)).1 || height == 1,
    ensures
        content_size(image_content(resized)) == (width, height),
        resizes_to(image_content(*image), width, height, image_content(resized)),
{
    image.resize_exact(width, height, image::imageops::FilterType::Lanczos3)
}

/// Reduces an image to 8-bit colours with `DynamicImage::to_rgb8`: what it then holds is
/// `rgb_content` of what it held, and its size is the same.
#[verifier::external_body]
fn reduce_to_rgb(image: &image::DynamicImage) -> (reduced: image::DynamicImage)
    ensures
        image_content(reduced) == rgb_content(image_content(*image)),
        content_size(image_content(reduced)) == content_size(image_content(*image)),
{
    image::DynamicImage::ImageRgb8(image.to_rgb8())
}

/// Encodes an image with `JpegEncoder::encode_image`: the file is `jpeg_file` of what the image
/// holds and of the quality.
#[verifier::external_body]
fn encode_jpeg(image: &image::DynamicImage, quality: u8) -> (file: Result<
    Vec<u8>,
    image::ImageError,
>)
    ensures
        match file {
            Ok(file) => jpeg_file(image_content(*image), quality) == Some(file@),
            Err(_) => jpeg_file(image_content(*image), quality) is None,
        },
{
    let mut file: Vec<u8> = Vec::new();
    image::codecs::jpeg::JpegEncoder::new_with_quality(&mut file, quality).encode_image(image)?;
    Ok(file)
}

/// Encodes an image as PNG with `DynamicImage::write_to`: the file is `png_file` of what the image
/// holds.
#[verifier::external_body]
fn encode_png(image: &image::DynamicImage) -> (file: Result<Vec<u8>, image::ImageError>)
    ensures
        match file {
            Ok(file) => png_file(image_content(*image)) == Some(file@),
            Err(_) => png_file(image_content(*image)) is None,
        },
{
    let mut file = std::io::Cursor::new(Vec::new());
    image.write_to(&mut file, image::ImageFormat::Png)?;
    Ok(file.into_inner())
}

/// A screenshot at the size at which it is written.
#[derive(Debug)]
pub struct Preview {
    pub image: image::DynamicImage,
    pub original_width: u32,
    pub original_height: u32,
    pub output_width: u32,
    pub output_height: u32,
}

/// Whether a preview is one of the image that holds `content`: it has the right sizes, and holds
/// what the image does where it has the same size, else what resizing makes of it.
pub open spec fn previews(
    preview: Preview,
    content: Seq<u8>,
    max_width: u32,
    max_height: u32,
    full: bool,
) -> bool {
    let original = content_size(content);
    let shown = (preview.output_width, preview.output_height);
    let held = image_content(preview.image);
    &&& (preview.original_width, preview.original_height) == original
    &&& (shown.0 as nat, shown.1 as nat) == shown_size(original, max_width, max_height, full)
    &&& content_size(held) == shown
    &&& shown == original ==> held == content
    &&& shown != original ==> resizes_to(content, shown.0, shown.1, held)
}

/// Brings a decoded screenshot to the size at which it is written.
pub fn preview_of(image: image::DynamicImage, max_width: u32, max_height: u32, full: bool) -> (made:
    Preview)
    ensures
        previews(made, image_content(image), max_width, max_height, full),
{
    let original: (u32, u32) = image_size(&image);
    let shown: (u32, u32) = preview_size(original, max_width, max_height, full);
    proof {
        lemma_fitted_size(original.0, original.1, max_width, max_height);
    }
    let processed = if shown.0 == original.0 && shown.1 == original.1 {
        image
    } else {
        resize_image(&image, shown.0, shown.1)
    };
    Preview {
        image: processed,
        original_width: original.0,
        original_height: original.1,
        output_width: shown.0,
        output_height: shown.1,
    }
}

/// Whether a preview, or nothing, may come of a screenshot: the outcome of decoding decides.
pub open spec fn preview_outcome(
    file: Seq<u8>,
    made: Option<Preview>,
    max_width: u32,
    max_height: u32,
    full: bool,
) -> bool {
    match made {
        Some(preview) => exists|content: Seq<u8>|
            #[trigger] decodes_to(file, Some(content)) && previews(
                preview,
                content,
                max_width,
                max_height,
                full,
            ),
        None => decodes_to(file, None),
    }
}

/// Decodes a screenshot and brings it to the size at which it is written; nothing where it cannot
/// be decoded.
pub fn make_preview(file: &Vec<u8>, max_width: u32, max_height: u32, full: bool) -> (made: Option<
    Preview,
>)
    ensures
        preview_outcome(file@, made, max_width, max_height, full),
{
    match load_image(file) {
        Ok(image) => {
            let ghost content = image_content(image);
            let made = preview_of(image, max_width, max_height, full);
            assert(decodes_to(file@, Some(content)));
            Some(made)
        },
        Err(_) => None,
    }
}

/// What is encoded of an image: JPEG has 8-bit colours only.
pub open spec fn encoded_content(content: Seq<u8>, format: ScreenshotFormat) -> Seq<u8> {
    match format {
        ScreenshotFormat::Jpeg => rgb_content(content),
        ScreenshotFormat::Png => content,
    }
}

/// The file that an image is written to; nothing where the encoder fails.
pub open spec fn encoded(content: Seq<u8>, format: ScreenshotFormat, quality: u8) -> Option<
    Seq<u8>,
> {
    match format {
        ScreenshotFormat::Jpeg => jpeg_file(encoded_content(content, format), quality),
        ScreenshotFormat::Png => png_file(encoded_content(content, format)),
    }
}

/// Encodes a preview at its size; nothing where the encoder fails.
pub fn encode_preview(preview: &Preview, format: ScreenshotFormat, quality: u8) -> (file: Option<
    Vec<u8>,
>)
    ensures
        match file {
            Some(file) => encoded(image_content(preview.image), format, quality) == Some(file@),
            None => encoded(image_content(preview.image), format, quality) is None,
        },
        content_size(encoded_content(image_content(preview.image), format)) == content_size(
            image_content(preview.image),
        ),
{
    let result = match format {
        ScreenshotFormat::Jpeg => encode_jpeg(&reduce_to_rgb(&preview.image), quality),
        ScreenshotFormat::Png => encode_png(&preview.image),
    };
    match result {
        Ok(file) => Some(file),
        Err(_) => None,
    }
}

/// A preview of a screenshot keeps to what was asked for: in full it has the size and the samples
/// of the screenshot; else it is no wider and no higher than the box, nor than the screenshot, and
/// keeps the samples where it has its size.
pub proof fn law_previews_keep_to_the_box(
    file: Seq<u8>,
    preview: Preview,
    max_width: u32,
    max_height: u32,
    full: bool,
)
    requires
        preview_outcome(file, Some(preview), max_width, max_height, full),
        1 <= max_width,
        1 <= max_height,
    ensures
        exists|content: Seq<u8>|
            {
                &&& #[trigger] decodes_to(file, Some(content))
                &&& content_size(content) == (preview.original_width, preview.original_height)
                &&& content_size(image_content(preview.image)) == (
                    preview.output_width,
                    preview.output_height,
                )
                &&& full ==> image_content(preview.image) == content
                &&& !full ==> 1 <= preview.output_width <= max_width && 1 <= preview.output_height
                    <= max_height
                &&& !full && 1 <= preview.original_width && 1 <= preview.original_height
                    ==> preview.output_width <= preview.original_width && preview.output_height
                    <= preview.original_height
                &&& 1 <= preview.original_width <= max_width && 1 <= preview.original_height
                    <= max_height ==> image_content(preview.image) == content
                &&& content_size(content) != content_size(image_content(preview.image))
                    ==> resizes_to(
                    content,
                    preview.output_width,
                    preview.output_height,
                    image_content(preview.image),
                )
            },
{
    let content = choose|content: Seq<u8>|
        #[trigger] decodes_to(file, Some(content)) && previews(
            preview,
            content,
            max_width,
            max_height,
            full,
        );
    let (w, h) = (preview.original_width, preview.original_height);
    law_preview_stays_in_the_box(w, h, max_width, max_height);
    if 1 <= w && 1 <= h {
        law_preview_is_never_larger(w, h, max_width, max_height);
        if w <= max_width && h <= max_height {
            law_preview_keeps_what_fits(w, h, max_width, max_height);
        }
    }
    assert(decodes_to(file, Some(content)));
}

/// An image is encoded as it stands in PNG, and reduced to 8-bit colours, at the quality that is
/// asked for, in JPEG.
pub proof fn law_the_format_decides_the_encoder(content: Seq<u8>, quality: u8)
    ensures
        encoded(content, ScreenshotFormat::Png, quality) == png_file(content),
        encoded(content, ScreenshotFormat::Jpeg, quality) == jpeg_file(
            rgb_content(content),
            quality,
        ),
{
}

/// A default name is made of the time and the extension of its format: `jpg` or `png`.
pub proof fn law_default_names_tell_time_and_format(now: u64)
    ensures
        screenshot_name(now, ScreenshotFormat::Jpeg) == "screenshot-"@ + decimal(now as nat)
            + ".jpg"@,
        screenshot_name(now, ScreenshotFormat::Png) == "screenshot-"@ + decimal(now as nat)
            + ".png"@,
{
    reveal_strlit(".");
    reveal_strlit("jpg");
    reveal_strlit("png");
    reveal_strlit(".jpg");
    reveal_strlit(".png");
    assert(screenshot_name(now, ScreenshotFormat::Jpeg) =~= "screenshot-"@ + decimal(now as nat)
        + ".jpg"@);
    assert(screenshot_name(now, ScreenshotFormat::Png) =~= "screenshot-"@ + decimal(now as nat)
        + ".png"@);
}

/// There is no preview only of a file that cannot be decoded.
pub proof fn law_decoded_files_have_a_preview(
    file: Seq<u8>,
    made: Option<Preview>,
    max_width: u32,
    max_height: u32,
    full: bool,
)
    requires
        preview_outcome(file, made, max_width, max_height, full),
    ensures
        made is None ==> decodes_to(file, None),
        made is Some ==> exists|content: Seq<u8>| #[trigger] decodes_to(file, Some(content)),
{
}

/// The extension `png` stands for PNG, in capitals or not; every other, and none, for JPEG.
pub proof fn law_png_is_told_in_any_case(extension: Seq<char>)
    ensures
        format_for(Some(extension)) == ScreenshotFormat::Png <==> {
            &&& extension.len() == 3
            &&& extension[0] == 'p' || extension[0] == 'P'
            &&& extension[1] == 'n' || extension[1] == 'N'
            &&& extension[2] == 'g' || extension[2] == 'G'
        },
        format_for(Some(extension)) == ScreenshotFormat::Png || format_for(Some(extension))
            == ScreenshotFormat::Jpeg,
        format_for(None) == ScreenshotFormat::Jpeg,
{
    reveal_strlit("png");
    let told = lower(extension);
    assert(told.len() == extension.len());
    if told == "png"@ {
        assert(told[0] == 'p' && told[1] == 'n' && told[2] == 'g');
        assert(lower_char(extension[0]) == 'p');
        assert(lower_char(extension[1]) == 'n');
        assert(lower_char(extension[2]) == 'g');
    } else if extension.len() == 3 && (extension[0] == 'p' || extension[0] == 'P') && (extension[1]
        == 'n' || extension[1] == 'N') && (extension[2] == 'g' || extension[2] == 'G') {
        assert(told =~= "png"@);
    }
}

} // verus!
