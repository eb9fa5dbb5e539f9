//! The adaptive input bar: what it shows for the active model, what it sends
//! and how it takes dropped or selected images.

use vstd::prelude::*;

use crate::text::{seq_starts_with, str_eq, str_starts_with, string_of, trim, trimmed};
use crate::components::toast::ToastLevel;
use crate::types::{BatchImageInput, InferenceInput, ModelType};

verus! {

/// The placeholder of the text area for the active model's type.
pub open spec fn placeholder_for(model: Option<ModelType>) -> Seq<char> {
    match model {
        None => "Select a model to begin..."@,
        Some(ModelType::Text) => "Type a message..."@,
        Some(ModelType::Vision) => "Drop an image or describe what you see..."@,
        Some(ModelType::Multimodal) => "Type or drop an image..."@,
        Some(ModelType::Audio) => "Audio models process audio files..."@,
        Some(ModelType::Unknown) => "Type a message..."@,
    }
}

/// The placeholder of the text area for the active model's type.
pub fn placeholder_text(model: Option<ModelType>) -> (r: &'static str)
    ensures
        r@ == placeholder_for(model),
{
    match model {
        None => "Select a model to begin...",
        Some(ModelType::Text) => "Type a message...",
        Some(ModelType::Vision) => "Drop an image or describe what you see...",
        Some(ModelType::Multimodal) => "Type or drop an image...",
        Some(ModelType::Audio) => "Audio models process audio files...",
        Some(ModelType::Unknown) => "Type a message...",
    }
}

/// An image that has been dropped or selected, ready to send.
#[derive(Clone, Debug)]
pub struct ImagePreview {
    /// The base64-encoded image data (without the data URL prefix).
    pub base64: String,
    /// The MIME type of the image (e.g. "image/png").
    pub mime_type: String,
    /// A full data URL for previewing the image.
    pub data_url: String,
}

/// The abstract content of an image preview.
pub struct ImagePreviewView {
    pub base64: Seq<char>,
    pub mime_type: Seq<char>,
    pub data_url: Seq<char>,
}

impl View for ImagePreview {
    type V = ImagePreviewView;

    open spec fn view(&self) -> ImagePreviewView {
        ImagePreviewView { base64: self.base64@, mime_type: self.mime_type@, data_url: self.data_url@ }
    }
}

/// The views of a list of previews.
pub open spec fn previews_view(v: Seq<ImagePreview>) -> Seq<ImagePreviewView> {
    v.map_values(|p: ImagePreview| p@)
}

/// The abstract content of an inference input.
pub enum InferenceInputView {
    Text(Seq<char>),
    Image(Seq<char>, Seq<char>, Option<Seq<char>>),
    BatchImages(Seq<(Seq<char>, Seq<char>)>, Option<Seq<char>>),
}

/// The view of an optional string.
pub open spec fn opt_text(s: Option<String>) -> Option<Seq<char>> {
    match s {
        Some(t) => Some(t@),
        None => None,
    }
}

impl View for InferenceInput {
    type V = InferenceInputView;

    open spec fn view(&self) -> InferenceInputView {
        match self {
            InferenceInput::Text(t) => InferenceInputView::Text(t@),
            InferenceInput::Image { data_base64, mime_type, prompt } => InferenceInputView::Image(
                data_base64@,
                mime_type@,
                opt_text(*prompt),
            ),
            InferenceInput::BatchImages { images, prompt } => InferenceInputView::BatchImages(
                images@.map_values(|b: BatchImageInput| (b.data_base64@, b.mime_type@)),
                opt_text(*prompt),
            ),
        }
    }
}

/// The prompt that goes with an image: none for empty text.
pub open spec fn prompt_of(text: Seq<char>) -> Option<Seq<char>> {
    if text.len() == 0 {
        None
    } else {
        Some(text)
    }
}

/// What the bar sends for the (trimmed) text, the single image and the batch:
/// a batch of two or more images first, then the single image, then
/// non-empty text; nothing otherwise.
pub open spec fn input_for(
    text: Seq<char>,
    image: Option<ImagePreviewView>,
    batch: Seq<ImagePreviewView>,
) -> Option<InferenceInputView> {
    if batch.len() >= 2 {
        Some(
            InferenceInputView::BatchImages(
                batch.map_values(|p: ImagePreviewView| (p.base64, p.mime_type)),
                prompt_of(text),
            ),
        )
    } else if image is Some {
        Some(InferenceInputView::Image(image->0.base64, image->0.mime_type, prompt_of(text)))
    } else if text.len() > 0 {
        Some(InferenceInputView::Text(text))
    } else {
        None
    }
}

/// What the bar sends always carries the user's text when there is any:
/// as the prompt of a batch of two or more images, else as the prompt of the
/// single image, else as the text itself; with no text, images go without a
/// prompt and nothing is sent without an image.
pub proof fn law_text_goes_with_the_images(
    text: Seq<char>,
    image: Option<ImagePreviewView>,
    batch: Seq<ImagePreviewView>,
)
    ensures
        batch.len() >= 2 ==> (input_for(text, image, batch) matches Some(InferenceInputView::BatchImages(items, prompt))
            && items.len() == batch.len() && (forall|i: int| 0 <= i < batch.len() ==> #[trigger] items[i] == (
        batch[i].base64, batch[i].mime_type)) && prompt == (if text.len() > 0 { Some(text) } else { None })),
        batch.len() < 2 && image is Some ==> input_for(text, image, batch) == Some(
            InferenceInputView::Image(
                image->0.base64,
                image->0.mime_type,
                if text.len() > 0 { Some(text) } else { None },
            ),
        ),
        batch.len() < 2 && image is None && text.len() > 0 ==> input_for(text, image, batch) == Some(
            InferenceInputView::Text(text),
        ),
        batch.len() < 2 && image is None && text.len() == 0 ==> input_for(text, image, batch) is None,
{
}

/// The view of an optional preview.
pub open spec fn opt_preview(p: Option<ImagePreview>) -> Option<ImagePreviewView> {
    match p {
        Some(q) => Some(q@),
        None => None,
    }
}

fn prompt_from(text: &str) -> (r: Option<String>)
    ensures
        opt_text(r) == prompt_of(text@),
{
    if text.is_empty() {
        None
    } else {
        Some(string_of(text))
    }
}

/// Builds what the bar sends from the trimmed text, the single image and the
/// batch.
pub fn build_input(text: &str, image: &Option<ImagePreview>, batch: &Vec<ImagePreview>) -> (r: Option<
    InferenceInput,
>)
    ensures
        match r {
            Some(i) => input_for(text@, opt_preview(*image), previews_view(batch@)) == Some(i@),
            None => input_for(text@, opt_preview(*image), previews_view(batch@)) is None,
        },
        batch@.len() >= 2 ==> (r matches Some(InferenceInput::BatchImages { images, prompt }) && images@.len()
            == batch@.len() && opt_text(prompt) == (if text@.len() > 0 { Some(text@) } else { None })),
        batch@.len() < 2 && image is Some ==> (r matches Some(InferenceInput::Image { data_base64, mime_type, prompt })
            && data_base64@ == image->0.base64@ && mime_type@ == image->0.mime_type@ && opt_text(prompt) == (if text@.len()
            > 0 { Some(text@) } else { None })),
        batch@.len() < 2 && image is None && text@.len() > 0 ==> (r matches Some(InferenceInput::Text(t)) && t@
            == text@),
        batch@.len() < 2 && image is None && text@.len() == 0 ==> r is None,
{
    proof {
        law_text_goes_with_the_images(text@, opt_preview(*image), previews_view(batch@));
    }
    if batch.len() >= 2 {
        let mut images: Vec<BatchImageInput> = Vec::new();
        let mut i: usize = 0;
        while i < batch.len()
            invariant
                i <= batch@.len(),
                images@.len() == i,
                forall|j: int|
                    0 <= j < i ==> (#[trigger] images@[j]).data_base64@ == batch@[j].base64@
                        && images@[j].mime_type@ == batch@[j].mime_type@,
            decreases batch.len() - i,
        {
            images.push(
                BatchImageInput {
                    data_base64: batch[i].base64.clone(),
                    mime_type: batch[i].mime_type.clone(),
                },
            );
            i = i + 1;
        }
        let r = InferenceInput::BatchImages { images, prompt: prompt_from(text) };
        assert(images@.map_values(|b: BatchImageInput| (b.data_base64@, b.mime_type@)) =~= previews_view(
            batch@,
        ).map_values(|p: ImagePreviewView| (p.base64, p.mime_type)));
        Some(r)
    } else if let Some(p) = image {
        Some(
            InferenceInput::Image {
                data_base64: p.base64.clone(),
                mime_type: p.mime_type.clone(),
                prompt: prompt_from(text),
            },
        )
    } else if !text.is_empty() {
        Some(InferenceInput::Text(string_of(text)))
    } else {
        None
    }
}

/// The state of the input bar.
pub struct InputBarState {
    pub input_text: String,
    pub sending: bool,
    pub image: Option<ImagePreview>,
    pub batch: Vec<ImagePreview>,
    pub drag_active: bool,
}

/// What to do with a set of dropped files.
#[derive(Clone, Copy, Debug, PartialEq, Eq, Structural)]
pub enum DropOutcome {
    /// Some file is not an image: nothing is taken and a warning is shown.
    Rejected,
    /// One image: it becomes the single image once read.
    Single,
    /// Several images: the queued images were cleared and each file joins
    /// the batch once read.
    Batch,
    /// No file.
    Nothing,
}

/// Every MIME type names an image.
pub open spec fn all_images(mimes: Seq<Seq<char>>) -> bool {
    forall|i: int| 0 <= i < mimes.len() ==> seq_starts_with(#[trigger] mimes[i], "image/"@)
}

/// The MIME types of a list of files.
pub open spec fn mimes_view(v: Seq<String>) -> Seq<Seq<char>> {
    v.map_values(|s: String| s@)
}

/// The warning shown when a drop holds a file that is not an image.
pub fn drop_rejected_toast() -> (r: (&'static str, ToastLevel))
    ensures
        r.0@ == "Only image files are supported"@,
        r.1 == ToastLevel::Warning,
{
    ("Only image files are supported", ToastLevel::Warning)
}

/// Whether a key press in the text area submits: Enter without Shift.
pub fn submits_on_key(key: &str, shift: bool) -> (r: bool)
    ensures
        r == (key@ == "Enter"@ && !shift),
{
    str_eq(key, "Enter") && !shift
}

/// Whether the image zone is shown: for models that take images, and during
/// a drag so that a warning can be shown for the others.
pub fn shows_image_zone(model_accepts_image: bool, dragging: bool) -> (r: bool)
    ensures
        r == (model_accepts_image || dragging),
{
    model_accepts_image || dragging
}

/// The classes of the drop zone.
pub fn drop_zone_state_class(dragging: bool, model_ok: bool) -> (r: &'static str)
    ensures
        r@ == (if dragging {
            if model_ok {
                "drop-zone-active border-amber-500/50 bg-amber-500/5"@
            } else {
                "drop-zone-active border-red-500/50 bg-red-500/5"@
            }
        } else {
            "border-zinc-700/40 hover:border-zinc-600/60 bg-zinc-800/20"@
        }),
{
    if dragging {
        if model_ok {
            "drop-zone-active border-amber-500/50 bg-amber-500/5"
        } else {
            "drop-zone-active border-red-500/50 bg-red-500/5"
        }
    } else {
        "border-zinc-700/40 hover:border-zinc-600/60 bg-zinc-800/20"
    }
}

/// The hint in the drop zone.
pub fn drop_zone_hint(dragging: bool, model_accepts_image: bool) -> (r: &'static str)
    ensures
        r@ == (if dragging && !model_accepts_image {
            "This model doesn't accept images"@
        } else {
            "Drop images or click to select"@
        }),
{
    if dragging && !model_accepts_image {
        "This model doesn't accept images"
    } else {
        "Drop images or click to select"
    }
}

/// Where to find the session for a new message.
#[derive(Debug)]
pub enum SessionPlan {
    /// Use the active session.
    Use(String),
    /// Create a session for this model first.
    Create(String),
    /// Neither a session nor a model: give up.
    Abort,
}

/// Uses the active session, else creates one for the active model, else gives up.
pub fn plan_session(active_session: Option<String>, model_id: Option<String>) -> (r: SessionPlan)
    ensures
        match r {
            SessionPlan::Use(id) => active_session == Some(id),
            SessionPlan::Create(m) => active_session is None && model_id == Some(m),
            SessionPlan::Abort => active_session is None && model_id is None,
        },
{
    match active_session {
        Some(id) => SessionPlan::Use(id),
        None => match model_id {
            Some(m) => SessionPlan::Create(m),
            None => SessionPlan::Abort,
        },
    }
}

fn all_image_mimes(mimes: &[String]) -> (r: bool)
    ensures
        r == all_images(mimes_view(mimes@)),
{
    let mut i: usize = 0;
    while i < mimes.len()
        invariant
            i <= mimes@.len(),
            forall|j: int| 0 <= j < i ==> seq_starts_with(#[trigger] mimes_view(mimes@)[j], "image/"@),
        decreases mimes.len() - i,
    {
        if !str_starts_with(mimes[i].as_str(), "image/") {
            assert(!seq_starts_with(mimes_view(mimes@)[i as int], "image/"@));
            return false;
        }
        i = i + 1;
    }
    true
}

/// The indices of the files that name an image, in order.
pub open spec fn image_indices(mimes: Seq<Seq<char>>, k: int) -> Seq<usize>
    decreases k,
{
    if k <= 0 {
        Seq::empty()
    } else if seq_starts_with(mimes[k - 1], "image/"@) {
        image_indices(mimes, k - 1).push((k - 1) as usize)
    } else {
        image_indices(mimes, k - 1)
    }
}

impl InputBarState {
    /// An empty bar.
    pub fn new() -> (r: InputBarState)
        ensures
            r.input_text@ == Seq::<char>::empty(),
            !r.sending,
            r.image is None,
            r.batch@.len() == 0,
            !r.drag_active,
    {
        InputBarState {
            input_text: String::new(),
            sending: false,
            image: None,
            batch: Vec::new(),
            drag_active: false,
        }
    }

    /// Whether an image is queued, single or in a batch.
    pub fn has_any_image(&self) -> (r: bool)
        ensures
            r == (self.image is Some || self.batch@.len() > 0),
    {
        self.image.is_some() || self.batch.len() > 0
    }

    /// Whether the send button is disabled.
    pub fn send_disabled(&self, model_missing: bool) -> (r: bool)
        ensures
            r == (model_missing || self.sending || (trimmed(self.input_text@).len() == 0 && !(
            self.image is Some || self.batch@.len() > 0))),
    {
        model_missing || self.sending || (trim(self.input_text.as_str()).is_empty()
            && !self.has_any_image())
    }

    /// Drops every queued image.
    pub fn clear_images(&mut self)
        ensures
            final(self).image is None,
            final(self).batch@.len() == 0,
            final(self).input_text == old(self).input_text,
            final(self).sending == old(self).sending,
            final(self).drag_active == old(self).drag_active,
    {
        self.image = None;
        self.batch = Vec::new();
    }

    /// Submits: unless a message is being sent or no model is loaded, builds
    /// the input from the trimmed text and the queued images; when there is
    /// something to send, marks the bar as sending and clears it.
    pub fn submit(&mut self, model_missing: bool) -> (r: Option<InferenceInput>)
        ensures
            (old(self).sending || model_missing) ==> r is None && *final(self) == *old(self),
            !(old(self).sending || model_missing) ==> match r {
                Some(i) => {
                    &&& input_for(
                        trimmed(old(self).input_text@),
                        opt_preview(old(self).image),
                        previews_view(old(self).batch@),
                    ) == Some(i@)
                    &&& final(self).sending
                    &&& final(self).input_text@ == Seq::<char>::empty()
                    &&& final(self).image is None
                    &&& final(self).batch@.len() == 0
                    &&& final(self).drag_active == old(self).drag_active
                },
                None => {
                    &&& input_for(
                        trimmed(old(self).input_text@),
                        opt_preview(old(self).image),
                        previews_view(old(self).batch@),
                    ) is None
                    &&& *final(self) == *old(self)
                },
            },
    {
        if self.sending || model_missing {
            return None;
        }
        let text = trim(self.input_text.as_str());
        let input = build_input(text, &self.image, &self.batch);
        match input {
            Some(i) => {
                self.sending = true;
                self.input_text = String::new();
                self.clear_images();
                Some(i)
            },
            None => None,
        }
    }

    /// The reply arrived (or failed): the bar takes input again.
    pub fn finish_sending(&mut self)
        ensures
            !final(self).sending,
            final(self).input_text == old(self).input_text,
            final(self).image == old(self).image,
            final(self).batch == old(self).batch,
            final(self).drag_active == old(self).drag_active,
    {
        self.sending = false;
    }

    /// Removes a batch image; when one image is left, it becomes the single
    /// image and the batch empties.
    pub fn remove_batch_image(&mut self, idx: usize)
        ensures
            ({
                let rest = if idx < old(self).batch@.len() {
                    old(self).batch@.remove(idx as int)
                } else {
                    old(self).batch@
                };
                if rest.len() == 1 {
                    &&& final(self).image == Some(rest[0])
                    &&& final(self).batch@.len() == 0
                } else {
                    &&& final(self).image == old(self).image
                    &&& final(self).batch@ == rest
                }
            }),
            final(self).input_text == old(self).input_text,
            final(self).sending == old(self).sending,
            final(self).drag_active == old(self).drag_active,
    {
        if idx < self.batch.len() {
            self.batch.remove(idx);
        }
        if self.batch.len() == 1 {
            let single = self.batch.remove(0);
            self.image = Some(single);
            self.batch = Vec::new();
        }
    }

    /// Takes dropped files by their MIME types (see `DropOutcome`).
    pub fn drop_files(&mut self, mimes: &[String]) -> (r: DropOutcome)
        ensures
            !final(self).drag_active,
            final(self).input_text == old(self).input_text,
            final(self).sending == old(self).sending,
            !all_images(mimes_view(mimes@)) ==> r == DropOutcome::Rejected && final(self).image
                == old(self).image && final(self).batch == old(self).batch,
            all_images(mimes_view(mimes@)) && mimes@.len() == 0 ==> r == DropOutcome::Nothing
                && final(self).image == old(self).image && final(self).batch == old(self).batch,
            all_images(mimes_view(mimes@)) && mimes@.len() == 1 ==> r == DropOutcome::Single
                && final(self).image == old(self).image && final(self).batch == old(self).batch,
            all_images(mimes_view(mimes@)) && mimes@.len() >= 2 ==> r == DropOutcome::Batch
                && final(self).image is None && final(self).batch@.len() == 0,
    {
        self.drag_active = false;
        if !all_image_mimes(mimes) {
            return DropOutcome::Rejected;
        }
        if mimes.len() == 1 {
            DropOutcome::Single
        } else if mimes.len() >= 2 {
            self.clear_images();
            DropOutcome::Batch
        } else {
            DropOutcome::Nothing
        }
    }

    /// A dropped or selected single image has been read.
    pub fn set_image(&mut self, p: ImagePreview)
        ensures
            final(self).image == Some(p),
            final(self).batch == old(self).batch,
            final(self).input_text == old(self).input_text,
            final(self).sending == old(self).sending,
            final(self).drag_active == old(self).drag_active,
    {
        self.image = Some(p);
    }

    /// An image of a batch has been read.
    pub fn push_batch_image(&mut self, p: ImagePreview)
        ensures
            final(self).batch@ == old(self).batch@.push(p),
            final(self).image == old(self).image,
            final(self).input_text == old(self).input_text,
            final(self).sending == old(self).sending,
            final(self).drag_active == old(self).drag_active,
    {
        self.batch.push(p);
    }
}

/// Which selected files to read: the only file when there is one, else the
/// indices of the image files, which join the batch.
pub fn files_to_read(mimes: &[String]) -> (r: Vec<usize>)
    ensures
        mimes@.len() == 1 ==> r@ == seq![0usize],
        mimes@.len() != 1 ==> r@ == image_indices(mimes_view(mimes@), mimes@.len() as int),
{
    let mut out: Vec<usize> = Vec::new();
    if mimes.len() == 1 {
        out.push(0);
        return out;
    }
    let mut i: usize = 0;
    while i < mimes.len()
        invariant
            i <= mimes@.len(),
            out@ == image_indices(mimes_view(mimes@), i as int),
        decreases mimes.len() - i,
    {
        if str_starts_with(mimes[i].as_str(), "image/") {
            out.push(i);
        }
        assert(mimes_view(mimes@)[i as int] == mimes@[i as int]@);
        i = i + 1;
    }
    out
}

} // verus!
