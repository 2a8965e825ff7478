//! Tool inputs and the request parts built from them. Each tool validates
//! its inputs in a fixed order — source image(s), free-text prompts, output
//! path, then the optional system prompt — before any transfer is attempted,
//! and assembles its parts in a fixed per-tool order that the builders'
//! contracts reproduce exactly.

use vstd::prelude::*;
use vstd::string::*;

use crate::error::{McpError, McpResult};
use crate::text::dec_nat;
use crate::text::u64_to_string;
use crate::validation::{
    image_source_failure, output_path_syntax_failure, parent_dir, prompt_failure,
    ImageSourceValidator, OutputPathValidator, PromptValidator,
};

verus! {

/// One segment of a request turn: a text segment or an inline base64 image.
#[derive(Debug)]
pub enum ContentPart {
    Text(String),
    InlineImage { mime_type: String, data: String },
}

/// The mathematical shape of a part: its text, or its MIME type and
/// base64 payload.
pub enum PartView {
    Text(Seq<char>),
    Image { mime: Seq<char>, data: Seq<char> },
}

impl View for ContentPart {
    type V = PartView;

    open spec fn view(&self) -> PartView {
        match self {
            ContentPart::Text(t) => PartView::Text(t@),
            ContentPart::InlineImage { mime_type, data } => PartView::Image {
                mime: mime_type@,
                data: data@,
            },
        }
    }
}

pub open spec fn parts_view(parts: Seq<ContentPart>) -> Seq<PartView> {
    parts.map_values(|p: ContentPart| p@)
}

/// The optional leading system-prompt part.
pub open spec fn system_view(system_prompt: Option<String>) -> Seq<PartView> {
    match system_prompt {
        Some(sp) => seq![PartView::Text(sp@)],
        None => Seq::empty(),
    }
}

/// The failure of the optional system prompt, checked last.
pub open spec fn system_prompt_failure(system_prompt: Option<String>) -> Option<Seq<char>> {
    match system_prompt {
        Some(sp) => prompt_failure(sp@),
        None => None,
    }
}

pub struct AnalyzeImageInput {
    /// Image source: a URL (http/https) or a local file path.
    pub image_source: String,
    /// Optional system prompt to guide the analysis.
    pub system_prompt: Option<String>,
    /// User prompt for analysis; defaults to "Caption this image."
    pub user_prompt: Option<String>,
}

pub struct GenerateImageInput {
    /// Optional system prompt to guide the generation.
    pub system_prompt: Option<String>,
    /// User prompt describing the image to generate.
    pub user_prompt: String,
    /// Output file path where the generated image will be saved.
    pub output_path: String,
}

pub struct EditImageInput {
    /// Input image source: a URL (http/https) or a local file path.
    pub image_source: String,
    /// Optional system prompt to guide the editing.
    pub system_prompt: Option<String>,
    /// User prompt describing the desired edits.
    pub user_prompt: String,
    /// Output file path where the edited image will be saved.
    pub output_path: String,
}

pub struct InpaintImageInput {
    /// Input image source: a URL (http/https) or a local file path.
    pub image_source: String,
    /// Optional system prompt to guide the inpainting.
    pub system_prompt: Option<String>,
    /// User prompt describing what to add or replace.
    pub user_prompt: String,
    /// Optional mask description for semantic masking.
    pub mask_description: Option<String>,
    /// Output file path where the inpainted image will be saved.
    pub output_path: String,
}

pub struct StyleTransferInput {
    /// Source image to apply style to: a URL or a local file path.
    pub source_image: String,
    /// Style reference image: a URL or a local file path.
    pub style_image: String,
    /// Optional system prompt to guide the style transfer.
    pub system_prompt: Option<String>,
    /// User prompt; defaults to "Apply the style of the second image to the
    /// first image".
    pub user_prompt: Option<String>,
    /// Output file path where the result will be saved.
    pub output_path: String,
}

pub struct ComposeImagesInput {
    /// Primary image source: a URL or a local file path.
    pub primary_image: String,
    /// Secondary images to compose with the primary image; may be empty.
    pub secondary_images: Vec<String>,
    /// Optional system prompt to guide the composition.
    pub system_prompt: Option<String>,
    /// User prompt describing how to compose the images.
    pub user_prompt: String,
    /// Output file path where the composed image will be saved.
    pub output_path: String,
}

pub struct RefineImageInput {
    /// Input image source: a URL or a local file path.
    pub image_source: String,
    /// Optional system prompt to guide the refinement.
    pub system_prompt: Option<String>,
    /// User prompt describing the refinements to make.
    pub user_prompt: String,
    /// Previous conversation context, replayed oldest first.
    pub conversation_history: Option<Vec<String>>,
    /// Output file path where the refined image will be saved.
    pub output_path: String,
}

/// The first failure among a list of image sources, in order.
pub open spec fn sources_failure(sources: Seq<String>) -> Option<Seq<char>>
    decreases sources.len(),
{
    if sources.len() == 0 {
        None
    } else if image_source_failure(sources[0]@) is Some {
        image_source_failure(sources[0]@)
    } else {
        sources_failure(sources.drop_first())
    }
}

proof fn lemma_sources_failure_skip(sources: Seq<String>, i: int)
    requires
        0 <= i <= sources.len(),
        forall|j: int| 0 <= j < i ==> image_source_failure(#[trigger] sources[j]@) is None,
    ensures
        sources_failure(sources) == sources_failure(sources.skip(i)),
    decreases i,
{
    if i > 0 {
        lemma_sources_failure_skip(sources.drop_first(), i - 1);
        assert(sources.drop_first().skip(i - 1) =~= sources.skip(i));
        assert(sources.skip(0) =~= sources);
    } else {
        assert(sources.skip(0) =~= sources);
    }
}

#[verifier::loop_isolation(false)]
fn check_sources(sources: &Vec<String>) -> (r: McpResult<()>)
    ensures
        match r {
            Ok(_) => sources_failure(sources@) is None,
            Err(e) => e matches McpError::InvalidInput(m) && Some(m@) == sources_failure(
                sources@,
            ),
        },
{
    let validator = ImageSourceValidator;
    let n: usize = sources.len();
    let mut i: usize = 0;
    while i < n
        invariant
            i <= n,
            n == sources@.len(),
            forall|j: int| 0 <= j < i ==> image_source_failure(#[trigger] sources@[j]@) is None,
        decreases n - i,
    {
        match validator.check(&sources[i]) {
            Ok(_) => {},
            Err(e) => {
                proof {
                    lemma_sources_failure_skip(sources@, i as int);
                    assert(sources@.skip(i as int)[0] == sources@[i as int]);
                }
                return Err(e);
            },
        }
        i = i + 1;
    }
    proof {
        lemma_sources_failure_skip(sources@, n as int);
        assert(sources@.skip(n as int).len() == 0);
    }
    Ok(())
}

/// The prompt the analyze tool sends when the caller gives none.
pub open spec fn analyze_prompt(input: AnalyzeImageInput) -> Seq<char> {
    match input.user_prompt {
        Some(p) => p@,
        None => "Caption this image."@,
    }
}

pub open spec fn analyze_validation_failure(input: AnalyzeImageInput) -> Option<Seq<char>> {
    if prompt_failure(analyze_prompt(input)) is Some {
        prompt_failure(analyze_prompt(input))
    } else {
        system_prompt_failure(input.system_prompt)
    }
}

/// Validates the analyze tool's prompts: the effective user prompt first,
/// then the optional system prompt. The image source is re-checked by the
/// fetch stage.
pub fn validate_analyze_input(input: &AnalyzeImageInput) -> (r: McpResult<()>)
    ensures
        match r {
            Ok(_) => analyze_validation_failure(*input) is None,
            Err(e) => e matches McpError::InvalidInput(m) && Some(m@)
                == analyze_validation_failure(*input),
        },
{
    let validator = PromptValidator;
    let user: String = match &input.user_prompt {
        Some(p) => p.clone(),
        None => "Caption this image.".to_owned(),
    };
    match validator.check(&user) {
        Ok(_) => {},
        Err(e) => {
            return Err(e);
        },
    }
    match &input.system_prompt {
        Some(sp) => validator.check(sp),
        None => Ok(()),
    }
}

/// The missing-parent failure message for an output path.
pub open spec fn parent_missing_message(path: Seq<char>) -> Seq<char> {
    "Parent directory does not exist: "@ + parent_dir(path)
}

/// Holds of an error result exactly when it reports the output path's
/// parent directory as missing while every earlier check passed.
pub open spec fn is_parent_missing_error(
    e: McpError,
    pre_path: Option<Seq<char>>,
    path: Seq<char>,
) -> bool {
    e matches McpError::FileSystemError(m) && pre_path is None && output_path_syntax_failure(path)
        is None && parent_dir(path).len() > 0 && m@ == parent_missing_message(path)
}

pub open spec fn generate_pre_path_failure(input: GenerateImageInput) -> Option<Seq<char>> {
    prompt_failure(input.user_prompt@)
}

pub open spec fn generate_validation_failure(input: GenerateImageInput) -> Option<Seq<char>> {
    if generate_pre_path_failure(input) is Some {
        generate_pre_path_failure(input)
    } else if output_path_syntax_failure(input.output_path@) is Some {
        output_path_syntax_failure(input.output_path@)
    } else {
        system_prompt_failure(input.system_prompt)
    }
}

/// Validates the generate tool's inputs: user prompt, output path, then the
/// optional system prompt.
pub fn validate_generate_input(input: &GenerateImageInput) -> (r: McpResult<()>)
    ensures
        match r {
            Ok(_) => generate_validation_failure(*input) is None,
            Err(e) => match e {
                McpError::InvalidInput(m) => Some(m@) == generate_validation_failure(*input),
                _ => is_parent_missing_error(
                    e,
                    generate_pre_path_failure(*input),
                    input.output_path@,
                ),
            },
        },
{
    let prompts = PromptValidator;
    let paths = OutputPathValidator;
    match prompts.check(&input.user_prompt) {
        Ok(_) => {},
        Err(e) => {
            return Err(e);
        },
    }
    match paths.check(&input.output_path) {
        Ok(_) => {},
        Err(e) => {
            return Err(e);
        },
    }
    match &input.system_prompt {
        Some(sp) => prompts.check(sp),
        None => Ok(()),
    }
}

pub open spec fn edit_pre_path_failure(input: EditImageInput) -> Option<Seq<char>> {
    if image_source_failure(input.image_source@) is Some {
        image_source_failure(input.image_source@)
    } else {
        prompt_failure(input.user_prompt@)
    }
}

pub open spec fn edit_validation_failure(input: EditImageInput) -> Option<Seq<char>> {
    if edit_pre_path_failure(input) is Some {
        edit_pre_path_failure(input)
    } else if output_path_syntax_failure(input.output_path@) is Some {
        output_path_syntax_failure(input.output_path@)
    } else {
        system_prompt_failure(input.system_prompt)
    }
}

/// Validates the edit tool's inputs: image source, user prompt, output
/// path, then the optional system prompt.
pub fn validate_edit_input(input: &EditImageInput) -> (r: McpResult<()>)
    ensures
        match r {
            Ok(_) => edit_validation_failure(*input) is None,
            Err(e) => match e {
                McpError::InvalidInput(m) => Some(m@) == edit_validation_failure(*input),
                _ => is_parent_missing_error(e, edit_pre_path_failure(*input), input.output_path@),
            },
        },
{
    let sources = ImageSourceValidator;
    let prompts = PromptValidator;
    let paths = OutputPathValidator;
    match sources.check(&input.image_source) {
        Ok(_) => {},
        Err(e) => {
            return Err(e);
        },
    }
    match prompts.check(&input.user_prompt) {
        Ok(_) => {},
        Err(e) => {
            return Err(e);
        },
    }
    match paths.check(&input.output_path) {
        Ok(_) => {},
        Err(e) => {
            return Err(e);
        },
    }
    match &input.system_prompt {
        Some(sp) => prompts.check(sp),
        None => Ok(()),
    }
}

pub open spec fn inpaint_pre_path_failure(input: InpaintImageInput) -> Option<Seq<char>> {
    if image_source_failure(input.image_source@) is Some {
        image_source_failure(input.image_source@)
    } else {
        prompt_failure(input.user_prompt@)
    }
}

pub open spec fn inpaint_validation_failure(input: InpaintImageInput) -> Option<Seq<char>> {
    if inpaint_pre_path_failure(input) is Some {
        inpaint_pre_path_failure(input)
    } else if output_path_syntax_failure(input.output_path@) is Some {
        output_path_syntax_failure(input.output_path@)
    } else {
        system_prompt_failure(input.system_prompt)
    }
}

/// Validates the inpaint tool's inputs: image source, user prompt, output
/// path, then the optional system prompt.
pub fn validate_inpaint_input(input: &InpaintImageInput) -> (r: McpResult<()>)
    ensures
        match r {
            Ok(_) => inpaint_validation_failure(*input) is None,
            Err(e) => match e {
                McpError::InvalidInput(m) => Some(m@) == inpaint_validation_failure(*input),
                _ => is_parent_missing_error(
                    e,
                    inpaint_pre_path_failure(*input),
                    input.output_path@,
                ),
            },
        },
{
    let sources = ImageSourceValidator;
    let prompts = PromptValidator;
    let paths = OutputPathValidator;
    match sources.check(&input.image_source) {
        Ok(_) => {},
        Err(e) => {
            return Err(e);
        },
    }
    match prompts.check(&input.user_prompt) {
        Ok(_) => {},
        Err(e) => {
            return Err(e);
        },
    }
    match paths.check(&input.output_path) {
        Ok(_) => {},
        Err(e) => {
            return Err(e);
        },
    }
    match &input.system_prompt {
        Some(sp) => prompts.check(sp),
        None => Ok(()),
    }
}

pub open spec fn style_transfer_pre_path_failure(input: StyleTransferInput) -> Option<Seq<char>> {
    if image_source_failure(input.source_image@) is Some {
        image_source_failure(input.source_image@)
    } else {
        image_source_failure(input.style_image@)
    }
}

pub open spec fn style_transfer_validation_failure(input: StyleTransferInput) -> Option<
    Seq<char>,
> {
    if style_transfer_pre_path_failure(input) is Some {
        style_transfer_pre_path_failure(input)
    } else if output_path_syntax_failure(input.output_path@) is Some {
        output_path_syntax_failure(input.output_path@)
    } else {
        system_prompt_failure(input.system_prompt)
    }
}

/// Validates the style-transfer tool's inputs: source image, style image,
/// output path, then the optional system prompt. The free-text prompt is
/// not length-checked, as a default is supplied when it is absent.
pub fn validate_style_transfer_input(input: &StyleTransferInput) -> (r: McpResult<()>)
    ensures
        match r {
            Ok(_) => style_transfer_validation_failure(*input) is None,
            Err(e) => match e {
                McpError::InvalidInput(m) => Some(m@) == style_transfer_validation_failure(
                    *input,
                ),
                _ => is_parent_missing_error(
                    e,
                    style_transfer_pre_path_failure(*input),
                    input.output_path@,
                ),
            },
        },
{
    let sources = ImageSourceValidator;
    let prompts = PromptValidator;
    let paths = OutputPathValidator;
    match sources.check(&input.source_image) {
        Ok(_) => {},
        Err(e) => {
            return Err(e);
        },
    }
    match sources.check(&input.style_image) {
        Ok(_) => {},
        Err(e) => {
            return Err(e);
        },
    }
    match paths.check(&input.output_path) {
        Ok(_) => {},
        Err(e) => {
            return Err(e);
        },
    }
    match &input.system_prompt {
        Some(sp) => prompts.check(sp),
        None => Ok(()),
    }
}

pub open spec fn compose_pre_path_failure(input: ComposeImagesInput) -> Option<Seq<char>> {
    if image_source_failure(input.primary_image@) is Some {
        image_source_failure(input.primary_image@)
    } else if sources_failure(input.secondary_images@) is Some {
        sources_failure(input.secondary_images@)
    } else {
        prompt_failure(input.user_prompt@)
    }
}

pub open spec fn compose_validation_failure(input: ComposeImagesInput) -> Option<Seq<char>> {
    if compose_pre_path_failure(input) is Some {
        compose_pre_path_failure(input)
    } else if output_path_syntax_failure(input.output_path@) is Some {
        output_path_syntax_failure(input.output_path@)
    } else {
        system_prompt_failure(input.system_prompt)
    }
}

/// Validates the compose tool's inputs: primary image, each secondary image
/// in order, user prompt, output path, then the optional system prompt. An
/// empty secondary list is valid.
pub fn validate_compose_input(input: &ComposeImagesInput) -> (r: McpResult<()>)
    ensures
        match r {
            Ok(_) => compose_validation_failure(*input) is None,
            Err(e) => match e {
                McpError::InvalidInput(m) => Some(m@) == compose_validation_failure(*input),
                _ => is_parent_missing_error(
                    e,
                    compose_pre_path_failure(*input),
                    input.output_path@,
                ),
            },
        },
{
    let sources = ImageSourceValidator;
    let prompts = PromptValidator;
    let paths = OutputPathValidator;
    match sources.check(&input.primary_image) {
        Ok(_) => {},
        Err(e) => {
            return Err(e);
        },
    }
    match check_sources(&input.secondary_images) {
        Ok(_) => {},
        Err(e) => {
            return Err(e);
        },
    }
    match prompts.check(&input.user_prompt) {
        Ok(_) => {},
        Err(e) => {
            return Err(e);
        },
    }
    match paths.check(&input.output_path) {
        Ok(_) => {},
        Err(e) => {
            return Err(e);
        },
    }
    match &input.system_prompt {
        Some(sp) => prompts.check(sp),
        None => Ok(()),
    }
}

pub open spec fn refine_pre_path_failure(input: RefineImageInput) -> Option<Seq<char>> {
    if image_source_failure(input.image_source@) is Some {
        image_source_failure(input.image_source@)
    } else {
        prompt_failure(input.user_prompt@)
    }
}

pub open spec fn refine_validation_failure(input: RefineImageInput) -> Option<Seq<char>> {
    if refine_pre_path_failure(input) is Some {
        refine_pre_path_failure(input)
    } else if output_path_syntax_failure(input.output_path@) is Some {
        output_path_syntax_failure(input.output_path@)
    } else {
        system_prompt_failure(input.system_prompt)
    }
}

/// Validates the refine tool's inputs: image source, user prompt, output
/// path, then the optional system prompt.
pub fn validate_refine_input(input: &RefineImageInput) -> (r: McpResult<()>)
    ensures
        match r {
            Ok(_) => refine_validation_failure(*input) is None,
            Err(e) => match e {
                McpError::InvalidInput(m) => Some(m@) == refine_validation_failure(*input),
                _ => is_parent_missing_error(
                    e,
                    refine_pre_path_failure(*input),
                    input.output_path@,
                ),
            },
        },
{
    let sources = ImageSourceValidator;
    let prompts = PromptValidator;
    let paths = OutputPathValidator;
    match sources.check(&input.image_source) {
        Ok(_) => {},
        Err(e) => {
            return Err(e);
        },
    }
    match prompts.check(&input.user_prompt) {
        Ok(_) => {},
        Err(e) => {
            return Err(e);
        },
    }
    match paths.check(&input.output_path) {
        Ok(_) => {},
        Err(e) => {
            return Err(e);
        },
    }
    match &input.system_prompt {
        Some(sp) => prompts.check(sp),
        None => Ok(()),
    }
}


/// The part sequence of the analyze tool: optional system prompt, the
/// image, then the user prompt (or its default).
pub open spec fn analyze_parts(input: AnalyzeImageInput, mime: Seq<char>, data: Seq<char>) -> Seq<
    PartView,
> {
    system_view(input.system_prompt) + seq![
        PartView::Image { mime, data },
        PartView::Text(analyze_prompt(input)),
    ]
}

pub fn build_analyze_parts(input: &AnalyzeImageInput, mime_type: String, data: String) -> (parts:
    Vec<ContentPart>)
    ensures
        parts_view(parts@) == analyze_parts(*input, mime_type@, data@),
{
    let mut parts: Vec<ContentPart> = Vec::new();
    match &input.system_prompt {
        Some(sp) => parts.push(ContentPart::Text(sp.clone())),
        None => {},
    }
    parts.push(ContentPart::InlineImage { mime_type, data });
    let user: String = match &input.user_prompt {
        Some(p) => p.clone(),
        None => "Caption this image.".to_owned(),
    };
    parts.push(ContentPart::Text(user));
    proof {
        assert(parts_view(parts@) =~= analyze_parts(*input, mime_type@, data@));
    }
    parts
}

/// The part sequence of the generate tool: optional system prompt, then the
/// user prompt; no image input.
pub open spec fn generate_parts(input: GenerateImageInput) -> Seq<PartView> {
    system_view(input.system_prompt) + seq![PartView::Text(input.user_prompt@)]
}

pub fn build_generate_parts(input: &GenerateImageInput) -> (parts: Vec<ContentPart>)
    ensures
        parts_view(parts@) == generate_parts(*input),
{
    let mut parts: Vec<ContentPart> = Vec::new();
    match &input.system_prompt {
        Some(sp) => parts.push(ContentPart::Text(sp.clone())),
        None => {},
    }
    parts.push(ContentPart::Text(input.user_prompt.clone()));
    proof {
        assert(parts_view(parts@) =~= generate_parts(*input));
    }
    parts
}

/// The part sequence of the edit tool: optional system prompt, the user
/// prompt, then the image.
pub open spec fn edit_parts(input: EditImageInput, mime: Seq<char>, data: Seq<char>) -> Seq<
    PartView,
> {
    system_view(input.system_prompt) + seq![
        PartView::Text(input.user_prompt@),
        PartView::Image { mime, data },
    ]
}

pub fn build_edit_parts(input: &EditImageInput, mime_type: String, data: String) -> (parts: Vec<
    ContentPart,
>)
    ensures
        parts_view(parts@) == edit_parts(*input, mime_type@, data@),
{
    let mut parts: Vec<ContentPart> = Vec::new();
    match &input.system_prompt {
        Some(sp) => parts.push(ContentPart::Text(sp.clone())),
        None => {},
    }
    parts.push(ContentPart::Text(input.user_prompt.clone()));
    parts.push(ContentPart::InlineImage { mime_type, data });
    proof {
        assert(parts_view(parts@) =~= edit_parts(*input, mime_type@, data@));
    }
    parts
}

/// The effective inpaint prompt: with a mask description the user prompt is
/// prefixed with the focus-region sentence, else it is sent verbatim.
pub open spec fn inpaint_prompt(input: InpaintImageInput) -> Seq<char> {
    match input.mask_description {
        Some(mask) => "Focus on the region containing '"@ + mask@ + "'. "@ + input.user_prompt@,
        None => input.user_prompt@,
    }
}

/// The part sequence of the inpaint tool: optional system prompt, the
/// combined prompt, then the image.
pub open spec fn inpaint_parts(input: InpaintImageInput, mime: Seq<char>, data: Seq<char>) -> Seq<
    PartView,
> {
    system_view(input.system_prompt) + seq![
        PartView::Text(inpaint_prompt(input)),
        PartView::Image { mime, data },
    ]
}

pub fn build_inpaint_parts(input: &InpaintImageInput, mime_type: String, data: String) -> (parts:
    Vec<ContentPart>)
    ensures
        parts_view(parts@) == inpaint_parts(*input, mime_type@, data@),
{
    let mut parts: Vec<ContentPart> = Vec::new();
    match &input.system_prompt {
        Some(sp) => parts.push(ContentPart::Text(sp.clone())),
        None => {},
    }
    let full_prompt: String = match &input.mask_description {
        Some(mask) => String::from_str("Focus on the region containing '").concat(
            mask.as_str(),
        ).concat("'. ").concat(input.user_prompt.as_str()),
        None => input.user_prompt.clone(),
    };
    parts.push(ContentPart::Text(full_prompt));
    parts.push(ContentPart::InlineImage { mime_type, data });
    proof {
        assert(parts_view(parts@) =~= inpaint_parts(*input, mime_type@, data@));
    }
    parts
}

/// The prompt the style-transfer tool sends when the caller gives none.
pub open spec fn style_transfer_prompt(input: StyleTransferInput) -> Seq<char> {
    match input.user_prompt {
        Some(p) => p@,
        None => "Apply the style of the second image to the first image"@,
    }
}

/// The part sequence of the style-transfer tool: optional system prompt,
/// the source image, the style image, then the prompt (or its default).
pub open spec fn style_transfer_parts(
    input: StyleTransferInput,
    source_mime: Seq<char>,
    source_data: Seq<char>,
    style_mime: Seq<char>,
    style_data: Seq<char>,
) -> Seq<PartView> {
    system_view(input.system_prompt) + seq![
        PartView::Image { mime: source_mime, data: source_data },
        PartView::Image { mime: style_mime, data: style_data },
        PartView::Text(style_transfer_prompt(input)),
    ]
}

pub fn build_style_transfer_parts(
    input: &StyleTransferInput,
    source_mime: String,
    source_data: String,
    style_mime: String,
    style_data: String,
) -> (parts: Vec<ContentPart>)
    ensures
        parts_view(parts@) == style_transfer_parts(
            *input,
            source_mime@,
            source_data@,
            style_mime@,
            style_data@,
        ),
{
    let mut parts: Vec<ContentPart> = Vec::new();
    match &input.system_prompt {
        Some(sp) => parts.push(ContentPart::Text(sp.clone())),
        None => {},
    }
    parts.push(ContentPart::InlineImage { mime_type: source_mime, data: source_data });
    parts.push(ContentPart::InlineImage { mime_type: style_mime, data: style_data });
    let prompt: String = match &input.user_prompt {
        Some(p) => p.clone(),
        None => "Apply the style of the second image to the first image".to_owned(),
    };
    parts.push(ContentPart::Text(prompt));
    proof {
        assert(parts_view(parts@) =~= style_transfer_parts(
            *input,
            source_mime@,
            source_data@,
            style_mime@,
            style_data@,
        ));
    }
    parts
}

/// One inline image part per fetched (MIME type, payload) pair, in order.
pub open spec fn image_views(images: Seq<(String, String)>) -> Seq<PartView> {
    Seq::new(
        images.len(),
        |i: int| PartView::Image { mime: images[i].0@, data: images[i].1@ },
    )
}

/// The part sequence of the compose tool: optional system prompt, the
/// primary image, each secondary image in order (none when the list is
/// empty), then the user prompt.
pub open spec fn compose_parts(
    input: ComposeImagesInput,
    primary_mime: Seq<char>,
    primary_data: Seq<char>,
    secondaries: Seq<(String, String)>,
) -> Seq<PartView> {
    system_view(input.system_prompt) + seq![
        PartView::Image { mime: primary_mime, data: primary_data },
    ] + image_views(secondaries) + seq![PartView::Text(input.user_prompt@)]
}

#[verifier::loop_isolation(false)]
pub fn build_compose_parts(
    input: &ComposeImagesInput,
    primary_mime: String,
    primary_data: String,
    secondaries: &Vec<(String, String)>,
) -> (parts: Vec<ContentPart>)
    ensures
        parts_view(parts@) == compose_parts(*input, primary_mime@, primary_data@, secondaries@),
{
    let mut parts: Vec<ContentPart> = Vec::new();
    match &input.system_prompt {
        Some(sp) => parts.push(ContentPart::Text(sp.clone())),
        None => {},
    }
    parts.push(ContentPart::InlineImage { mime_type: primary_mime, data: primary_data });
    let n: usize = secondaries.len();
    let mut i: usize = 0;
    while i < n
        invariant
            i <= n,
            parts_view(parts@) =~= system_view(input.system_prompt) + seq![
                PartView::Image { mime: primary_mime@, data: primary_data@ },
            ] + image_views(secondaries@.take(i as int)),
        decreases n - i,
    {
        let pair: &(String, String) = &secondaries[i];
        let ghost pre = parts@;
        parts.push(ContentPart::InlineImage { mime_type: pair.0.clone(), data: pair.1.clone() });
        proof {
            let img = PartView::Image {
                mime: secondaries@[i as int].0@,
                data: secondaries@[i as int].1@,
            };
            assert(parts_view(parts@) =~= parts_view(pre).push(img));
            assert(image_views(secondaries@.take(i + 1 as int)) =~= image_views(
                secondaries@.take(i as int),
            ).push(img));
            assert(parts_view(parts@) =~= system_view(input.system_prompt) + seq![
                PartView::Image { mime: primary_mime@, data: primary_data@ },
            ] + image_views(secondaries@.take(i + 1 as int)));
        }
        i = i + 1;
    }
    parts.push(ContentPart::Text(input.user_prompt.clone()));
    proof {
        assert(secondaries@.take(n as int) =~= secondaries@);
        assert(parts_view(parts@) =~= compose_parts(
            *input,
            primary_mime@,
            primary_data@,
            secondaries@,
        ));
    }
    parts
}

/// The label of one replayed history item, counted from one.
pub open spec fn history_text(i: int, text: Seq<char>) -> Seq<char> {
    "Previous iteration "@ + dec_nat((i + 1) as nat) + ": "@ + text
}

/// One labelled text part per history item, oldest first.
pub open spec fn history_views(history: Seq<String>) -> Seq<PartView> {
    Seq::new(history.len(), |i: int| PartView::Text(history_text(i, history[i]@)))
}

pub open spec fn refine_history(input: RefineImageInput) -> Seq<String> {
    match input.conversation_history {
        Some(h) => h@,
        None => Seq::empty(),
    }
}

/// The part sequence of the refine tool: optional system prompt, each
/// history item labelled and in order, the user prompt, then the image.
pub open spec fn refine_parts(input: RefineImageInput, mime: Seq<char>, data: Seq<char>) -> Seq<
    PartView,
> {
    system_view(input.system_prompt) + history_views(refine_history(input)) + seq![
        PartView::Text(input.user_prompt@),
        PartView::Image { mime, data },
    ]
}

#[verifier::loop_isolation(false)]
pub fn build_refine_parts(input: &RefineImageInput, mime_type: String, data: String) -> (parts:
    Vec<ContentPart>)
    ensures
        parts_view(parts@) == refine_parts(*input, mime_type@, data@),
{
    let mut parts: Vec<ContentPart> = Vec::new();
    match &input.system_prompt {
        Some(sp) => parts.push(ContentPart::Text(sp.clone())),
        None => {},
    }
    match &input.conversation_history {
        Some(history) => {
            let n: usize = history.len();
            let mut i: usize = 0;
            while i < n
                invariant
                    i <= n,
                    parts_view(parts@) =~= system_view(input.system_prompt) + history_views(
                        history@.take(i as int),
                    ),
                decreases n - i,
            {
                let item: &String = &history[i];
                let number: String = u64_to_string((i + 1) as u64);
                let label: String = String::from_str("Previous iteration ").concat(
                    number.as_str(),
                ).concat(": ").concat(item.as_str());
                let ghost pre = parts@;
                proof {
                    assert(label@ =~= history_text(i as int, history@[i as int]@));
                }
                parts.push(ContentPart::Text(label));
                proof {
                    let item_view = PartView::Text(history_text(i as int, history@[i as int]@));
                    assert(parts_view(parts@) =~= parts_view(pre).push(item_view));
                    assert(history_views(history@.take(i + 1 as int)) =~= history_views(
                        history@.take(i as int),
                    ).push(item_view));
                    assert(parts_view(parts@) =~= system_view(input.system_prompt) + history_views(
                        history@.take(i + 1 as int),
                    ));
                }
                i = i + 1;
            }
            proof {
                assert(history@.take(n as int) =~= history@);
            }
        },
        None => {},
    }
    parts.push(ContentPart::Text(input.user_prompt.clone()));
    parts.push(ContentPart::InlineImage { mime_type, data });
    proof {
        assert(parts_view(parts@) =~= refine_parts(*input, mime_type@, data@));
    }
    parts
}

} // verus!
