//! Preparing images of model input: remote URLs and unsupported detail levels
//! become placeholder text, data URLs are resized within the limits of their
//! detail level, and each prepared image is recorded.

use vstd::prelude::*;
use crate::text::{chars_of, string_of};

verus! {

/// Placeholder for an image that could not be processed.
pub open spec fn processing_error_placeholder() -> Seq<char> {
    "image content omitted because it could not be processed"@
}

/// Placeholder for an image over the size limit.
pub open spec fn too_large_placeholder() -> Seq<char> {
    "image content omitted because it exceeded the supported size limit; use a smaller image"@
}

/// Placeholder for an image with detail `low`.
pub open spec fn low_detail_placeholder() -> Seq<char> {
    "image content omitted because detail 'low' is not supported; use 'high', 'original', or 'auto'"@
}

/// Placeholder for an image given by a remote URL.
pub open spec fn remote_url_placeholder() -> Seq<char> {
    "image content omitted because remote image URLs are not supported"@
}

/// The detail level requested for an image.
#[derive(Clone, Copy, Debug, PartialEq, Eq, Structural)]
pub enum ImageDetail {
    Auto,
    Low,
    High,
    Original,
}

/// The detail level an image is prepared at.
#[derive(Clone, Copy, Debug, PartialEq, Eq, Structural)]
pub enum ImageDetailSetting {
    High,
    Original,
}

/// Bounds on a resized image.
#[derive(Clone, Copy, Debug, PartialEq, Eq, Structural)]
pub struct PromptImageResizeLimits {
    pub max_dimension: u32,
    pub max_patches: u32,
}

/// Why loading an image failed.
#[derive(Clone, Copy, Debug, PartialEq, Eq, Structural)]
pub enum ImageProcessingError {
    /// The image exceeds the supported size.
    ImageTooLarge,
    /// Any other failure to decode or resize.
    Failed,
}

/// Why an image was left out.
#[derive(Clone, Copy, Debug, PartialEq, Eq, Structural)]
pub enum ImagePreparationError {
    RemoteUrlUnsupported,
    UnsupportedLowDetail,
    Processing(ImageProcessingError),
}

/// The placeholder text that replaces an image left out for `e`.
pub open spec fn placeholder_text(e: ImagePreparationError) -> Seq<char> {
    match e {
        ImagePreparationError::RemoteUrlUnsupported => remote_url_placeholder(),
        ImagePreparationError::UnsupportedLowDetail => low_detail_placeholder(),
        ImagePreparationError::Processing(ImageProcessingError::ImageTooLarge) => too_large_placeholder(),
        ImagePreparationError::Processing(_) => processing_error_placeholder(),
    }
}

impl ImagePreparationError {
    /// The placeholder text for this error.
    pub fn placeholder(&self) -> (r: &'static str)
        ensures
            r@ == placeholder_text(*self),
    {
        match self {
            ImagePreparationError::RemoteUrlUnsupported => "image content omitted because remote image URLs are not supported",
            ImagePreparationError::UnsupportedLowDetail => "image content omitted because detail 'low' is not supported; use 'high', 'original', or 'auto'",
            ImagePreparationError::Processing(ImageProcessingError::ImageTooLarge) =>
                "image content omitted because it exceeded the supported size limit; use a smaller image",
            ImagePreparationError::Processing(_) => "image content omitted because it could not be processed",
        }
    }
}

/// The code of `c` with ASCII upper case mapped to lower case.
pub open spec fn ascii_lower_code(c: char) -> int {
    if 'A' <= c && c <= 'Z' { (c as u32) + 32 } else { c as u32 as int }
}

/// `a` and `b` are equal when ASCII case is ignored.
pub open spec fn eq_ignore_ascii_case(a: Seq<char>, b: Seq<char>) -> bool {
    a.len() == b.len() && forall|i: int| 0 <= i < a.len() ==> #[trigger] ascii_lower_code(a[i]) == ascii_lower_code(b[i])
}

/// Index of the first `c` in `s`, or `-1` when there is none.
pub open spec fn first_index_of(s: Seq<char>, c: char) -> int
    decreases s.len(),
{
    if s.len() == 0 {
        -1
    } else if s[0] == c {
        0
    } else {
        let k = first_index_of(s.drop_first(), c);
        if k < 0 { -1 } else { k + 1 }
    }
}

proof fn lemma_first_index_of_is(s: Seq<char>, c: char, k: int)
    requires
        -1 <= k <= s.len(),
        0 <= k < s.len() ==> s[k] == c,
        k == -1 ==> forall|j: int| 0 <= j < s.len() ==> s[j] != c,
        k >= 0 ==> k < s.len() && forall|j: int| 0 <= j < k ==> s[j] != c,
    ensures
        first_index_of(s, c) == k,
    decreases s.len(),
{
    if s.len() > 0 && s[0] != c {
        let t = s.drop_first();
        if k == -1 {
            assert forall|j: int| 0 <= j < t.len() implies t[j] != c by { assert(t[j] == s[j + 1]); }
            lemma_first_index_of_is(t, c, -1);
        } else {
            assert forall|j: int| 0 <= j < k - 1 implies t[j] != c by { assert(t[j] == s[j + 1]); }
            assert(t[k - 1] == s[k]);
            lemma_first_index_of_is(t, c, k - 1);
        }
    }
}

/// The URL's scheme (up to its first `:`) is `http` or `https`, in any case.
pub open spec fn is_remote_url(url: Seq<char>) -> bool {
    let colon = first_index_of(url, ':');
    colon >= 0 && (eq_ignore_ascii_case(url.take(colon), "http"@) || eq_ignore_ascii_case(url.take(colon), "https"@))
}

/// The URL starts with `data:`, in any case.
pub open spec fn is_data(url: Seq<char>) -> bool {
    url.len() >= 5 && eq_ignore_ascii_case(url.take(5), "data:"@)
}

fn lower_code(c: char) -> (r: u32)
    ensures
        r == ascii_lower_code(c),
{
    if 'A' <= c && c <= 'Z' { (c as u32) + 32 } else { c as u32 }
}

pub(crate) fn chars_eq_ignore_ascii_case(a: &Vec<char>, from: usize, to: usize, b: &str) -> (r: bool)
    requires
        from <= to <= a.len(),
    ensures
        r == eq_ignore_ascii_case(a@.subrange(from as int, to as int), b@),
{
    let bv = chars_of(b);
    if to - from != bv.len() {
        return false;
    }
    let mut i: usize = 0;
    while i < bv.len()
        invariant
            from <= to <= a@.len(),
            to - from == bv@.len(),
            bv@ == b@,
            i <= bv@.len(),
            forall|j: int| 0 <= j < i ==> #[trigger] ascii_lower_code(a@.subrange(from as int, to as int)[j]) == ascii_lower_code(b@[j]),
        decreases bv@.len() - i,
    {
        if lower_code(a[from + i]) != lower_code(bv[i]) {
            assert(a@.subrange(from as int, to as int)[i as int] == a@[from + i]);
            return false;
        }
        assert(a@.subrange(from as int, to as int)[i as int] == a@[from + i]);
        i = i + 1;
    }
    true
}

/// Whether the URL names a remote image (`http:` or `https:`, in any case).
pub fn is_remote_image_url(image_url: &str) -> (r: bool)
    ensures
        r == is_remote_url(image_url@),
{
    let v = chars_of(image_url);
    let mut i: usize = 0;
    while i < v.len()
        invariant
            v@ == image_url@,
            i <= v@.len(),
            forall|j: int| 0 <= j < i ==> v@[j] != ':',
        decreases v@.len() - i,
    {
        if v[i] == ':' {
            proof {
                lemma_first_index_of_is(v@, ':', i as int);
                assert(v@.take(i as int) =~= v@.subrange(0, i as int));
            }
            return chars_eq_ignore_ascii_case(&v, 0, i, "http") || chars_eq_ignore_ascii_case(&v, 0, i, "https");
        }
        i = i + 1;
    }
    proof {
        lemma_first_index_of_is(v@, ':', -1);
    }
    false
}

/// Whether the URL is a data URL (`data:`, in any case).
pub fn is_data_url(image_url: &str) -> (r: bool)
    ensures
        r == is_data(image_url@),
{
    let v = chars_of(image_url);
    if v.len() < 5 {
        return false;
    }
    proof {
        assert(v@.take(5) =~= v@.subrange(0, 5));
    }
    chars_eq_ignore_ascii_case(&v, 0, 5, "data:")
}

/// What preparing an image at `url` with `detail` starts with.
pub enum ImagePlan {
    /// Not a data URL: left as it is.
    Keep,
    /// Left out for this reason.
    Fail(ImagePreparationError),
    /// Loaded and resized within `limits`.
    Load { effective_detail: ImageDetailSetting, limits: PromptImageResizeLimits },
}

/// Limits for high detail.
pub open spec fn high_detail_limits() -> PromptImageResizeLimits {
    PromptImageResizeLimits { max_dimension: 2048, max_patches: 2500 }
}

/// Limits for original detail.
pub open spec fn original_detail_limits() -> PromptImageResizeLimits {
    PromptImageResizeLimits { max_dimension: 6000, max_patches: 10000 }
}

/// Remote URLs are refused, other non-data URLs kept; data URLs load at high
/// detail (also for no detail or `auto`) or original detail, and `low` is refused.
pub open spec fn image_plan(url: Seq<char>, detail: Option<ImageDetail>) -> ImagePlan {
    if is_remote_url(url) {
        ImagePlan::Fail(ImagePreparationError::RemoteUrlUnsupported)
    } else if !is_data(url) {
        ImagePlan::Keep
    } else {
        match detail {
            None | Some(ImageDetail::Auto) | Some(ImageDetail::High) =>
                ImagePlan::Load { effective_detail: ImageDetailSetting::High, limits: high_detail_limits() },
            Some(ImageDetail::Original) =>
                ImagePlan::Load { effective_detail: ImageDetailSetting::Original, limits: original_detail_limits() },
            Some(ImageDetail::Low) => ImagePlan::Fail(ImagePreparationError::UnsupportedLowDetail),
        }
    }
}

/// Decides how an image is prepared.
pub fn plan_image(image_url: &str, detail: Option<ImageDetail>) -> (r: ImagePlan)
    ensures
        r == image_plan(image_url@, detail),
{
    if is_remote_image_url(image_url) {
        return ImagePlan::Fail(ImagePreparationError::RemoteUrlUnsupported);
    }
    if !is_data_url(image_url) {
        return ImagePlan::Keep;
    }
    match detail {
        None | Some(ImageDetail::Auto) | Some(ImageDetail::High) => ImagePlan::Load {
            effective_detail: ImageDetailSetting::High,
            limits: PromptImageResizeLimits { max_dimension: 2048, max_patches: 2500 },
        },
        Some(ImageDetail::Original) => ImagePlan::Load {
            effective_detail: ImageDetailSetting::Original,
            limits: PromptImageResizeLimits { max_dimension: 6000, max_patches: 10000 },
        },
        Some(ImageDetail::Low) => ImagePlan::Fail(ImagePreparationError::UnsupportedLowDetail),
    }
}

/// An image loaded for the prompt: its sizes before and after resizing, and
/// the data URL of the prepared image.
#[derive(Debug)]
pub struct LoadedImage {
    pub source_width: u32,
    pub source_height: u32,
    pub width: u32,
    pub height: u32,
    pub data_url: String,
}

/// What is recorded for each prepared image.
#[derive(Debug)]
pub struct ImagePreparationMetadata {
    pub message_role: Option<String>,
    pub item_id: Option<String>,
    pub effective_detail: ImageDetailSetting,
    pub source_width: u32,
    pub source_height: u32,
    pub prepared_width: u32,
    pub prepared_height: u32,
}

/// The content of an [`ImagePreparationMetadata`].
pub struct MetadataView {
    pub message_role: Option<Seq<char>>,
    pub item_id: Option<Seq<char>>,
    pub effective_detail: ImageDetailSetting,
    pub source_width: u32,
    pub source_height: u32,
    pub prepared_width: u32,
    pub prepared_height: u32,
}

impl View for ImagePreparationMetadata {
    type V = MetadataView;

    open spec fn view(&self) -> MetadataView {
        MetadataView {
            message_role: crate::text::opt_view(self.message_role),
            item_id: crate::text::opt_view(self.item_id),
            effective_detail: self.effective_detail,
            source_width: self.source_width,
            source_height: self.source_height,
            prepared_width: self.prepared_width,
            prepared_height: self.prepared_height,
        }
    }
}

/// The views of a list of records.
pub open spec fn metadata_views(v: Seq<ImagePreparationMetadata>) -> Seq<MetadataView> {
    Seq::new(v.len(), |i: int| v[i]@)
}

/// Where an image comes from: the role of its message, or the id of its tool call.
#[derive(Clone, Copy, Debug)]
pub struct ImageOrigin<'a> {
    pub message_role: Option<&'a str>,
    pub item_id: Option<&'a str>,
}

/// The content of an [`ImageOrigin`].
pub struct OriginView {
    pub message_role: Option<Seq<char>>,
    pub item_id: Option<Seq<char>>,
}

/// The view of an optional string slice.
pub open spec fn opt_str_view(o: Option<&str>) -> Option<Seq<char>> {
    match o {
        Some(s) => Some(s@),
        None => None,
    }
}

/// The content of an origin.
pub open spec fn origin_view(o: ImageOrigin) -> OriginView {
    OriginView { message_role: opt_str_view(o.message_role), item_id: opt_str_view(o.item_id) }
}

/// The record of an image of `origin` loaded at `effective_detail`: its sizes
/// before and after resizing.
pub open spec fn record_of(origin: OriginView, effective_detail: ImageDetailSetting, image: LoadedImage) -> MetadataView {
    MetadataView {
        message_role: origin.message_role,
        item_id: origin.item_id,
        effective_detail,
        source_width: image.source_width,
        source_height: image.source_height,
        prepared_width: image.width,
        prepared_height: image.height,
    }
}

/// `load` may give `out` for an image at `url` resized within `limits`.
pub open spec fn load_gives<F: Fn(&str, PromptImageResizeLimits) -> Result<LoadedImage, ImageProcessingError>>(
    load: F,
    url: Seq<char>,
    limits: PromptImageResizeLimits,
    out: Result<LoadedImage, ImageProcessingError>,
) -> bool {
    exists|u: &str| u@ == url && #[trigger] load.ensures((u, limits), out)
}

fn opt_str_to_string(o: Option<&str>) -> (r: Option<String>)
    ensures
        crate::text::opt_view(r) == opt_str_view(o),
{
    match o {
        Some(s) => Some(string_of(s)),
        None => None,
    }
}

/// Prepares one image: keeps, refuses, or loads it with `load` (which
/// resizes a data URL within the given limits). A loaded image replaces the
/// URL and is recorded; an image that fails to load is refused.
pub fn prepare_image<F: Fn(&str, PromptImageResizeLimits) -> Result<LoadedImage, ImageProcessingError>>(
    image_url: &mut String,
    detail: Option<ImageDetail>,
    origin: ImageOrigin,
    metadata: &mut Vec<ImagePreparationMetadata>,
    load: &F,
) -> (r: Result<(), ImagePreparationError>)
    requires
        forall|u: &str, l: PromptImageResizeLimits| load.requires((u, l)),
    ensures
        match image_plan(old(image_url)@, detail) {
            ImagePlan::Keep => r is Ok && final(image_url)@ == old(image_url)@ && final(metadata)@ == old(metadata)@,
            ImagePlan::Fail(e) => r == Err::<(), ImagePreparationError>(e) && final(image_url)@ == old(image_url)@
                && final(metadata)@ == old(metadata)@,
            ImagePlan::Load { effective_detail, limits } => exists|out: Result<LoadedImage, ImageProcessingError>|
                #[trigger] load_gives(*load, old(image_url)@, limits, out) && match out {
                    Ok(image) => r is Ok && final(image_url)@ == image.data_url@
                        && metadata_views(final(metadata)@)
                            == metadata_views(old(metadata)@).push(record_of(origin_view(origin), effective_detail, image)),
                    Err(e) => r == Err::<(), ImagePreparationError>(ImagePreparationError::Processing(e))
                        && final(image_url)@ == old(image_url)@ && final(metadata)@ == old(metadata)@,
                },
        },
{
    match plan_image(image_url.as_str(), detail) {
        ImagePlan::Keep => Ok(()),
        ImagePlan::Fail(e) => Err(e),
        ImagePlan::Load { effective_detail, limits } => {
            let ghost url0 = image_url@;
            let s = image_url.as_str();
            let loaded = load(s, limits);
            let ghost out = loaded;
            assert(load_gives(*load, url0, limits, out));
            match loaded {
                Err(e) => Err(ImagePreparationError::Processing(e)),
                Ok(image) => {
                    let ghost before = metadata@;
                    let ghost record = record_of(origin_view(origin), effective_detail, image);
                    metadata.push(ImagePreparationMetadata {
                        message_role: opt_str_to_string(origin.message_role),
                        item_id: opt_str_to_string(origin.item_id),
                        effective_detail,
                        source_width: image.source_width,
                        source_height: image.source_height,
                        prepared_width: image.width,
                        prepared_height: image.height,
                    });
                    assert(metadata_views(metadata@) =~= metadata_views(before).push(record));
                    *image_url = image.data_url;
                    Ok(())
                },
            }
        },
    }
}

/// An item of message content.
#[derive(Debug)]
pub enum ContentItem {
    InputText { text: String },
    InputImage { image_url: String, detail: Option<ImageDetail> },
    OutputText { text: String },
}

/// An item of a tool call's output.
#[derive(Debug)]
pub enum FunctionCallOutputContentItem {
    InputText { text: String },
    InputImage { image_url: String, detail: Option<ImageDetail> },
}

/// The content of a [`ContentItem`] or a [`FunctionCallOutputContentItem`].
pub enum ContentView {
    InputText(Seq<char>),
    InputImage(Seq<char>, Option<ImageDetail>),
    OutputText(Seq<char>),
}

impl View for ContentItem {
    type V = ContentView;

    open spec fn view(&self) -> ContentView {
        match self {
            ContentItem::InputText { text } => ContentView::InputText(text@),
            ContentItem::InputImage { image_url, detail } => ContentView::InputImage(image_url@, *detail),
            ContentItem::OutputText { text } => ContentView::OutputText(text@),
        }
    }
}

impl View for FunctionCallOutputContentItem {
    type V = ContentView;

    open spec fn view(&self) -> ContentView {
        match self {
            FunctionCallOutputContentItem::InputText { text } => ContentView::InputText(text@),
            FunctionCallOutputContentItem::InputImage { image_url, detail } => ContentView::InputImage(image_url@, *detail),
        }
    }
}


/// What preparing one content item does, and the record it adds, if any:
/// images that are kept stay, refused ones become their placeholder, and
/// loaded ones take the loaded URL and are recorded, or become the
/// placeholder of the load's failure; other items stay.
pub open spec fn content_step<F: Fn(&str, PromptImageResizeLimits) -> Result<LoadedImage, ImageProcessingError>>(
    load: F,
    origin: OriginView,
    before: ContentView,
    after: ContentView,
    record: Option<MetadataView>,
) -> bool {
    match before {
        ContentView::InputImage(url, detail) => match image_plan(url, detail) {
            ImagePlan::Keep => after == before && record is None,
            ImagePlan::Fail(e) => after == ContentView::InputText(placeholder_text(e)) && record is None,
            ImagePlan::Load { effective_detail, limits } => exists|out: Result<LoadedImage, ImageProcessingError>|
                #[trigger] load_gives(load, url, limits, out) && match out {
                    Ok(image) => after == ContentView::InputImage(image.data_url@, detail)
                        && record == Some(record_of(origin, effective_detail, image)),
                    Err(e) => after == ContentView::InputText(placeholder_text(ImagePreparationError::Processing(e)))
                        && record is None,
                },
        },
        _ => after == before && record is None,
    }
}

/// The records among `records`, in order.
pub open spec fn records_made(records: Seq<Option<MetadataView>>) -> Seq<MetadataView>
    decreases records.len(),
{
    if records.len() == 0 {
        Seq::empty()
    } else {
        records_made(records.drop_last()) + match records.last() {
            Some(m) => seq![m],
            None => Seq::empty(),
        }
    }
}

/// `after` is `before` with every item prepared, and `added` the records
/// made on the way, in item order.
pub open spec fn contents_step<F: Fn(&str, PromptImageResizeLimits) -> Result<LoadedImage, ImageProcessingError>>(
    load: F,
    origin: OriginView,
    before: Seq<ContentView>,
    after: Seq<ContentView>,
    added: Seq<MetadataView>,
) -> bool {
    exists|records: Seq<Option<MetadataView>>| {
        &&& records.len() == before.len()
        &&& after.len() == before.len()
        &&& forall|i: int| 0 <= i < before.len() ==> #[trigger] content_step(load, origin, before[i], after[i], records[i])
        &&& added == records_made(records)
    }
}

/// The content views of message items.
pub open spec fn content_views(v: Seq<ContentItem>) -> Seq<ContentView> {
    Seq::new(v.len(), |i: int| v[i]@)
}

/// The content views of tool-output items.
pub open spec fn output_views(v: Seq<FunctionCallOutputContentItem>) -> Seq<ContentView> {
    Seq::new(v.len(), |i: int| v[i]@)
}

/// `after` is `before` followed by more.
pub open spec fn extends(before: Seq<MetadataView>, after: Seq<MetadataView>) -> bool {
    before.len() <= after.len() && after == before + after.skip(before.len() as int)
}

proof fn lemma_records_push(records: Seq<Option<MetadataView>>, record: Option<MetadataView>)
    ensures
        records_made(records.push(record)) == records_made(records) + match record {
            Some(m) => seq![m],
            None => Seq::<MetadataView>::empty(),
        },
{
    assert(records.push(record).drop_last() =~= records);
}

proof fn lemma_contents_step_intro<F: Fn(&str, PromptImageResizeLimits) -> Result<LoadedImage, ImageProcessingError>>(
    load: F,
    origin: OriginView,
    before: Seq<ContentView>,
    after: Seq<ContentView>,
    records: Seq<Option<MetadataView>>,
)
    requires
        records.len() == before.len(),
        after.len() == before.len(),
        forall|i: int| 0 <= i < before.len() ==> #[trigger] content_step(load, origin, before[i], after[i], records[i]),
    ensures
        contents_step(load, origin, before, after, records_made(records)),
{
}

/// One content item prepared in place: an image is prepared and replaced by
/// its outcome; the record it adds, if any, is returned in ghost form.
fn prepare_content_image<F: Fn(&str, PromptImageResizeLimits) -> Result<LoadedImage, ImageProcessingError>>(
    image_url: &String,
    detail: Option<ImageDetail>,
    origin: ImageOrigin,
    metadata: &mut Vec<ImagePreparationMetadata>,
    load: &F,
) -> (r: (Result<String, String>, Ghost<Option<MetadataView>>))
    requires
        forall|u: &str, l: PromptImageResizeLimits| load.requires((u, l)),
    ensures
        content_step(
            *load,
            origin_view(origin),
            ContentView::InputImage(image_url@, detail),
            match r.0 {
                Ok(url) => ContentView::InputImage(url@, detail),
                Err(text) => ContentView::InputText(text@),
            },
            r.1@,
        ),
        metadata_views(final(metadata)@) == metadata_views(old(metadata)@) + match r.1@ {
            Some(m) => seq![m],
            None => Seq::<MetadataView>::empty(),
        },
{
    let mut url = image_url.clone();
    let ghost before = metadata_views(metadata@);
    let outcome = prepare_image(&mut url, detail, origin, metadata, load);
    let ghost grew = metadata@.len() > before.len();
    let ghost record: Option<MetadataView> = if grew { Some(metadata_views(metadata@).last()) } else { None };
    let result = match outcome {
        Ok(()) => Ok(url),
        Err(e) => Err(string_of(e.placeholder())),
    };
    proof {
        match image_plan(image_url@, detail) {
            ImagePlan::Load { effective_detail, limits } => {
                let out = choose|out: Result<LoadedImage, ImageProcessingError>|
                    #[trigger] load_gives(*load, image_url@, limits, out) && match out {
                        Ok(image) => outcome is Ok && url@ == image.data_url@
                            && metadata_views(metadata@)
                                == before.push(record_of(origin_view(origin), effective_detail, image)),
                        Err(e) => outcome == Err::<(), ImagePreparationError>(ImagePreparationError::Processing(e))
                            && url@ == image_url@ && metadata_views(metadata@) == before,
                    };
                match out {
                    Ok(image) => {
                        assert(metadata_views(metadata@).len() == before.len() + 1);
                        assert(before + seq![record_of(origin_view(origin), effective_detail, image)]
                            =~= before.push(record_of(origin_view(origin), effective_detail, image)));
                    },
                    Err(e) => {
                        assert(before + Seq::<MetadataView>::empty() =~= before);
                    },
                }
            },
            _ => {
                assert(metadata_views(metadata@) + Seq::<MetadataView>::empty() =~= metadata_views(metadata@));
            },
        }
    }
    (result, Ghost(record))
}

/// Prepares the images of a message's content; the records of the loaded
/// images are appended to `metadata`, in item order.
pub fn prepare_message_content<F: Fn(&str, PromptImageResizeLimits) -> Result<LoadedImage, ImageProcessingError>>(
    items: &mut Vec<ContentItem>,
    origin: ImageOrigin,
    metadata: &mut Vec<ImagePreparationMetadata>,
    load: &F,
)
    requires
        forall|u: &str, l: PromptImageResizeLimits| load.requires((u, l)),
    ensures
        extends(metadata_views(old(metadata)@), metadata_views(final(metadata)@)),
        contents_step(
            *load,
            origin_view(origin),
            content_views(old(items)@),
            content_views(final(items)@),
            metadata_views(final(metadata)@).skip(old(metadata)@.len() as int),
        ),
{
    let ghost before = content_views(items@);
    let ghost meta0 = metadata_views(metadata@);
    let ghost mut records: Seq<Option<MetadataView>> = Seq::empty();
    let n = items.len();
    let mut i: usize = 0;
    while i < n
        invariant
            n == items@.len(),
            before.len() == n,
            i <= n,
            records.len() == i,
            forall|u: &str, l: PromptImageResizeLimits| load.requires((u, l)),
            forall|j: int| 0 <= j < i ==> #[trigger] content_step(*load, origin_view(origin), before[j], content_views(items@)[j], records[j]),
            forall|j: int| i <= j < n ==> #[trigger] content_views(items@)[j] == before[j],
            metadata_views(metadata@) == meta0 + records_made(records),
        decreases n - i,
    {
        let ghost items_before = items@;
        let ghost meta_before = metadata_views(metadata@);
        assert(content_views(items_before)[i as int] == before[i as int]);
        let step: Option<(Result<String, String>, Ghost<Option<MetadataView>>, Option<ImageDetail>)> = match &items[i] {
            ContentItem::InputImage { image_url, detail } => {
                let (r, g) = prepare_content_image(image_url, *detail, origin, metadata, load);
                Some((r, g, *detail))
            },
            _ => None,
        };
        let ghost record: Option<MetadataView> = match step {
            Some((_, g, _)) => g@,
            None => None,
        };
        match step {
            Some((Ok(url), _, d)) => items.set(i, ContentItem::InputImage { image_url: url, detail: d }),
            Some((Err(text), _, _)) => items.set(i, ContentItem::InputText { text }),
            None => {},
        }
        proof {
            lemma_records_push(records, record);
            if record is None {
                assert(meta_before + Seq::<MetadataView>::empty() =~= meta_before);
            }
            assert(metadata_views(metadata@) =~= meta0 + records_made(records.push(record)));
            assert forall|j: int| 0 <= j < n && j != i implies #[trigger] content_views(items@)[j] == content_views(items_before)[j] by {}
            records = records.push(record);
            assert(content_step(*load, origin_view(origin), before[i as int], content_views(items@)[i as int], records[i as int]));
        }
        i = i + 1;
    }
    proof {
        let meta = metadata_views(metadata@);
        assert(meta.skip(meta0.len() as int) =~= records_made(records));
        assert(meta =~= meta0 + meta.skip(meta0.len() as int));
        assert(metadata_views(old(metadata)@) == meta0);
        assert(metadata_views(metadata@).skip(old(metadata)@.len() as int) == records_made(records));
        lemma_contents_step_intro(*load, origin_view(origin), before, content_views(items@), records);
    }
}

/// Prepares the images of a tool call's output; the records of the loaded
/// images are appended to `metadata`, in item order.
pub fn prepare_tool_output_content<F: Fn(&str, PromptImageResizeLimits) -> Result<LoadedImage, ImageProcessingError>>(
    items: &mut Vec<FunctionCallOutputContentItem>,
    origin: ImageOrigin,
    metadata: &mut Vec<ImagePreparationMetadata>,
    load: &F,
)
    requires
        forall|u: &str, l: PromptImageResizeLimits| load.requires((u, l)),
    ensures
        extends(metadata_views(old(metadata)@), metadata_views(final(metadata)@)),
        contents_step(
            *load,
            origin_view(origin),
            output_views(old(items)@),
            output_views(final(items)@),
            metadata_views(final(metadata)@).skip(old(metadata)@.len() as int),
        ),
{
    let ghost before = output_views(items@);
    let ghost meta0 = metadata_views(metadata@);
    let ghost mut records: Seq<Option<MetadataView>> = Seq::empty();
    let n = items.len();
    let mut i: usize = 0;
    while i < n
        invariant
            n == items@.len(),
            before.len() == n,
            i <= n,
            records.len() == i,
            forall|u: &str, l: PromptImageResizeLimits| load.requires((u, l)),
            forall|j: int| 0 <= j < i ==> #[trigger] content_step(*load, origin_view(origin), before[j], output_views(items@)[j], records[j]),
            forall|j: int| i <= j < n ==> #[trigger] output_views(items@)[j] == before[j],
            metadata_views(metadata@) == meta0 + records_made(records),
        decreases n - i,
    {
        let ghost items_before = items@;
        let ghost meta_before = metadata_views(metadata@);
        assert(output_views(items_before)[i as int] == before[i as int]);
        let step: Option<(Result<String, String>, Ghost<Option<MetadataView>>, Option<ImageDetail>)> = match &items[i] {
            FunctionCallOutputContentItem::InputImage { image_url, detail } => {
                let (r, g) = prepare_content_image(image_url, *detail, origin, metadata, load);
                Some((r, g, *detail))
            },
            _ => None,
        };
        let ghost record: Option<MetadataView> = match step {
            Some((_, g, _)) => g@,
            None => None,
        };
        match step {
            Some((Ok(url), _, d)) => items.set(i, FunctionCallOutputContentItem::InputImage { image_url: url, detail: d }),
            Some((Err(text), _, _)) => items.set(i, FunctionCallOutputContentItem::InputText { text }),
            None => {},
        }
        proof {
            lemma_records_push(records, record);
            if record is None {
                assert(meta_before + Seq::<MetadataView>::empty() =~= meta_before);
            }
            assert(metadata_views(metadata@) =~= meta0 + records_made(records.push(record)));
            assert forall|j: int| 0 <= j < n && j != i implies #[trigger] output_views(items@)[j] == output_views(items_before)[j] by {}
            records = records.push(record);
            assert(content_step(*load, origin_view(origin), before[i as int], output_views(items@)[i as int], records[i as int]));
        }
        i = i + 1;
    }
    proof {
        let meta = metadata_views(metadata@);
        assert(meta.skip(meta0.len() as int) =~= records_made(records));
        assert(meta =~= meta0 + meta.skip(meta0.len() as int));
        assert(metadata_views(old(metadata)@) == meta0);
        assert(metadata_views(metadata@).skip(old(metadata)@.len() as int) == records_made(records));
        lemma_contents_step_intro(*load, origin_view(origin), before, output_views(items@), records);
    }
}

/// An item of model input, as far as image preparation reads it.
#[derive(Debug)]
pub enum ResponseItem {
    Message { role: String, content: Vec<ContentItem> },
    FunctionCallOutput { call_id: String, output: Option<Vec<FunctionCallOutputContentItem>> },
    CustomToolCallOutput { call_id: String, output: Option<Vec<FunctionCallOutputContentItem>> },
    /// Any other kind of item; it holds no images.
    Other,
}

/// What preparing a tool call's output does: content, when there is any, is
/// prepared item by item with the call's id as the records' origin.
pub open spec fn output_step<F: Fn(&str, PromptImageResizeLimits) -> Result<LoadedImage, ImageProcessingError>>(
    load: F,
    call_id: Seq<char>,
    before: Option<Vec<FunctionCallOutputContentItem>>,
    after: Option<Vec<FunctionCallOutputContentItem>>,
    added: Seq<MetadataView>,
) -> bool {
    match before {
        None => after is None && added.len() == 0,
        Some(b) => after matches Some(a) && contents_step(
            load,
            OriginView { message_role: None, item_id: Some(call_id) },
            output_views(b@),
            output_views(a@),
            added,
        ),
    }
}

/// What preparing one input item does, with `added` the records made for
/// it: message content is prepared item by item with the message's role as
/// the records' origin, tool output content with the call's id; all else stays.
pub open spec fn response_item_step<F: Fn(&str, PromptImageResizeLimits) -> Result<LoadedImage, ImageProcessingError>>(
    load: F,
    before: ResponseItem,
    after: ResponseItem,
    added: Seq<MetadataView>,
) -> bool {
    match before {
        ResponseItem::Message { role, content } => after matches ResponseItem::Message { role: r2, content: c2 }
            && r2@ == role@ && contents_step(
                load,
                OriginView { message_role: Some(role@), item_id: None },
                content_views(content@),
                content_views(c2@),
                added,
            ),
        ResponseItem::FunctionCallOutput { call_id, output } => after matches ResponseItem::FunctionCallOutput { call_id: id2, output: o2 }
            && id2@ == call_id@ && output_step(load, call_id@, output, o2, added),
        ResponseItem::CustomToolCallOutput { call_id, output } => after matches ResponseItem::CustomToolCallOutput { call_id: id2, output: o2 }
            && id2@ == call_id@ && output_step(load, call_id@, output, o2, added),
        ResponseItem::Other => after is Other && added.len() == 0,
    }
}

/// The concatenation of `parts`, in order.
pub open spec fn concat_records(parts: Seq<Seq<MetadataView>>) -> Seq<MetadataView>
    decreases parts.len(),
{
    if parts.len() == 0 {
        Seq::empty()
    } else {
        concat_records(parts.drop_last()) + parts.last()
    }
}

fn prepare_output_of_call<F: Fn(&str, PromptImageResizeLimits) -> Result<LoadedImage, ImageProcessingError>>(
    call_id: &String,
    output: &mut Option<Vec<FunctionCallOutputContentItem>>,
    metadata: &mut Vec<ImagePreparationMetadata>,
    load: &F,
)
    requires
        forall|u: &str, l: PromptImageResizeLimits| load.requires((u, l)),
    ensures
        extends(metadata_views(old(metadata)@), metadata_views(final(metadata)@)),
        output_step(*load, call_id@, *old(output), *final(output), metadata_views(final(metadata)@).skip(old(metadata)@.len() as int)),
{
    let origin = ImageOrigin { message_role: None, item_id: Some(call_id.as_str()) };
    let ghost m0 = metadata_views(metadata@);
    match output {
        Some(content) => {
            prepare_tool_output_content(content, origin, metadata, load);
        },
        None => {
            assert(m0.skip(m0.len() as int) =~= Seq::<MetadataView>::empty());
            assert(m0 =~= m0 + m0.skip(m0.len() as int));
        },
    }
}

fn prepare_one_item<F: Fn(&str, PromptImageResizeLimits) -> Result<LoadedImage, ImageProcessingError>>(
    item: &mut ResponseItem,
    metadata: &mut Vec<ImagePreparationMetadata>,
    load: &F,
)
    requires
        forall|u: &str, l: PromptImageResizeLimits| load.requires((u, l)),
    ensures
        extends(metadata_views(old(metadata)@), metadata_views(final(metadata)@)),
        response_item_step(*load, *old(item), *final(item), metadata_views(final(metadata)@).skip(old(metadata)@.len() as int)),
{
    let ghost m0 = metadata_views(metadata@);
    match item {
        ResponseItem::Message { role, content } => {
            let origin = ImageOrigin { message_role: Some(role.as_str()), item_id: None };
            prepare_message_content(content, origin, metadata, load);
        },
        ResponseItem::FunctionCallOutput { call_id, output } => {
            prepare_output_of_call(call_id, output, metadata, load);
        },
        ResponseItem::CustomToolCallOutput { call_id, output } => {
            prepare_output_of_call(call_id, output, metadata, load);
        },
        ResponseItem::Other => {
            assert(m0.skip(m0.len() as int) =~= Seq::<MetadataView>::empty());
            assert(m0 =~= m0 + m0.skip(m0.len() as int));
        },
    }
}

proof fn lemma_response_items_intro<F: Fn(&str, PromptImageResizeLimits) -> Result<LoadedImage, ImageProcessingError>>(
    load: F,
    before: Seq<ResponseItem>,
    after: Seq<ResponseItem>,
    parts: Seq<Seq<MetadataView>>,
)
    requires
        parts.len() == before.len(),
        forall|i: int| 0 <= i < parts.len() ==> #[trigger] response_item_step(load, before[i], after[i], parts[i]),
    ensures
        exists|p: Seq<Seq<MetadataView>>| {
            &&& p.len() == before.len()
            &&& forall|i: int| 0 <= i < p.len() ==> #[trigger] response_item_step(load, before[i], after[i], p[i])
            &&& concat_records(p) == concat_records(parts)
        },
{
}

/// Prepares the images of all input items, in order; returns the records of
/// the loaded images, in the order they were loaded.
pub fn prepare_response_items<F: Fn(&str, PromptImageResizeLimits) -> Result<LoadedImage, ImageProcessingError>>(
    items: &mut Vec<ResponseItem>,
    load: &F,
) -> (metadata: Vec<ImagePreparationMetadata>)
    requires
        forall|u: &str, l: PromptImageResizeLimits| load.requires((u, l)),
    ensures
        final(items)@.len() == old(items)@.len(),
        exists|parts: Seq<Seq<MetadataView>>| {
            &&& parts.len() == old(items)@.len()
            &&& forall|i: int| 0 <= i < parts.len() ==> #[trigger] response_item_step(*load, old(items)@[i], final(items)@[i], parts[i])
            &&& metadata_views(metadata@) == concat_records(parts)
        },
{
    let ghost before = items@;
    let ghost mut parts: Seq<Seq<MetadataView>> = Seq::empty();
    let mut metadata: Vec<ImagePreparationMetadata> = Vec::new();
    let n = items.len();
    let mut i: usize = 0;
    assert(metadata_views(metadata@) =~= concat_records(parts));
    while i < n
        invariant
            n == items@.len(),
            before.len() == n,
            i <= n,
            parts.len() == i,
            forall|u: &str, l: PromptImageResizeLimits| load.requires((u, l)),
            forall|j: int| 0 <= j < i ==> #[trigger] response_item_step(*load, before[j], items@[j], parts[j]),
            forall|j: int| i <= j < n ==> items@[j] == before[j],
            metadata_views(metadata@) == concat_records(parts),
        decreases n - i,
    {
        let ghost meta_before = metadata_views(metadata@);
        let ghost items_before = items@;
        let mut item = items.remove(i);
        assert(item == before[i as int]);
        prepare_one_item(&mut item, &mut metadata, load);
        items.insert(i, item);
        proof {
            let added = metadata_views(metadata@).skip(meta_before.len() as int);
            assert(parts.push(added).drop_last() =~= parts);
            assert(concat_records(parts.push(added)) == concat_records(parts) + added);
            assert forall|j: int| 0 <= j < n && j != i implies items@[j] == items_before[j] by {}
            assert forall|j: int| 0 <= j < i implies #[trigger] response_item_step(*load, before[j], items@[j], parts.push(added)[j]) by {
                assert(items@[j] == items_before[j]);
                assert(parts.push(added)[j] == parts[j]);
            }
            parts = parts.push(added);
            assert(response_item_step(*load, before[i as int], items@[i as int], parts[i as int]));
        }
        i = i + 1;
    }
    assert(before == old(items)@);
    proof {
        lemma_response_items_intro(*load, before, items@, parts);
    }
    metadata
}


/// A local data URL is loaded at the high setting within 2048 pixels and
/// 2500 patches when no detail, `auto` or `high` is asked for, at the
/// original setting within 6000 pixels and 10000 patches for `original`,
/// and is refused for `low`; the three requests of the high setting are
/// planned alike.
pub proof fn lemma_detail_levels_of_data_urls(url: Seq<char>)
    requires
        is_data(url),
        !is_remote_url(url),
    ensures
        image_plan(url, Some(ImageDetail::High)) == image_plan(url, None),
        image_plan(url, Some(ImageDetail::Auto)) == image_plan(url, None),
        image_plan(url, None) == (ImagePlan::Load {
            effective_detail: ImageDetailSetting::High,
            limits: PromptImageResizeLimits { max_dimension: 2048, max_patches: 2500 },
        }),
        image_plan(url, Some(ImageDetail::Original)) == (ImagePlan::Load {
            effective_detail: ImageDetailSetting::Original,
            limits: PromptImageResizeLimits { max_dimension: 6000, max_patches: 10000 },
        }),
        image_plan(url, Some(ImageDetail::Low)) == ImagePlan::Fail(ImagePreparationError::UnsupportedLowDetail),
{
}

} // verus!
