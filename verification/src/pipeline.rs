//! One file, from its content to its outcome.
//!
//! The pipeline touches neither files nor codecs. It is driven by its caller,
//! step by step: `begin` looks at what reading the source gave and asks for a
//! first decoding; `decoded` takes the decoder's answer and either asks for
//! the next decoding in the chain or magnifies the image and asks for it to
//! be saved; `saved` takes the writer's answer and gives the file's outcome.
//! Every answer of the caller is an argument, so every decision is stated for
//! every answer there can be.

use crate::codec::pixel_dimensions;
use crate::codec::pixel_layout;
use crate::codec::resize_fits;
use crate::decoder::asks;
use crate::decoder::lemma_next_applicable_is_first;
use crate::decoder::next_applicable;
use crate::decoder::next_request;
use crate::decoder::DecodeStrategy;
use crate::decoder::Decoding;
use crate::encoder::encoding_for;
use crate::encoder::format_for_name;
use crate::outcome::no_strategy_reason;
use crate::outcome::oversized_reason;
use crate::outcome::unknown_format_reason;
use crate::outcome::unnamed_reason;
use crate::outcome::ErrorKind;
use crate::outcome::PipelineError;
use crate::outcome::PipelineOutcome;
use crate::paths::file_name;
use crate::paths::final_component;
use crate::paths::is_jpeg_path;
use crate::paths::join;
use crate::paths::joined;
use crate::paths::lemma_output_is_named_like_source;
use crate::raster::can_resize_to;
use crate::raster::ImageBuffer;
use crate::sizing::magnified;
use crate::sizing::MagnificationFactor;
use image::DynamicImage;
use image::ImageFormat;
use vstd::prelude::*;
use vstd::string::*;

verus! {

/// A source path together with what reading it gave: the file's bytes, or the
/// reason why it could not be opened.
#[derive(Debug, PartialEq, Eq)]
pub struct SourceFile {
    pub path: String,
    pub content: Result<Vec<u8>, String>,
}

/// A decoding that the caller is asked to make of a source's bytes.
#[derive(Clone, Debug, PartialEq, Eq)]
pub struct DecodeRequest {
    /// The path the bytes were read from.
    pub source: String,
    /// The position in the chain of the strategy that asks.
    pub attempt: usize,
    /// What to do with the bytes.
    pub how: Decoding,
}

/// A magnified image that the caller is asked to save.
#[derive(Debug)]
pub struct SaveRequest {
    /// The path the image was read from.
    pub source: String,
    /// The path to save to; its suffix names the format.
    pub output: String,
    /// The magnified width in pixels.
    pub width: u32,
    /// The magnified height in pixels.
    pub height: u32,
    /// The magnified image.
    pub image: ImageBuffer,
}

/// What the caller does next for a file.
#[derive(Debug)]
pub enum FileStep {
    /// Decode the source's bytes as asked, then hand the answer to `decoded`.
    Decode(DecodeRequest),
    /// Save the image as asked, then hand the answer to `saved`.
    Save(SaveRequest),
    /// Nothing is left to do: the file has its outcome.
    Finished(PipelineOutcome),
}

/// How far a decoded image gets before it is handed out to be saved.
pub enum Progress {
    /// The magnified image would be too large to resample.
    Oversized,
    /// The path has no file name.
    Unnamed,
    /// The file name asks for no known format.
    UnknownFormat,
    /// An image of `width` by `height` is to be saved under `name`.
    Ready { name: Seq<char>, width: nat, height: nat },
}

/// The bytes that reading the source gave, if it could be read.
pub open spec fn readable_bytes(source: SourceFile) -> Option<Seq<u8>> {
    match source.content {
        Ok(bytes) => Some(bytes@),
        Err(_) => None,
    }
}

/// How far a decoded image gets, by its size, the path it came from, the
/// factor, and the format that the path's file name was found to ask for.
pub open spec fn rendering_given(
    image: DynamicImage,
    path: Seq<char>,
    factor: nat,
    format: Option<ImageFormat>,
) -> Progress {
    let width = magnified(pixel_dimensions(image).0 as nat, factor);
    let height = magnified(pixel_dimensions(image).1 as nat, factor);
    if !resize_fits(width, height) {
        Progress::Oversized
    } else {
        match final_component(path) {
            None => Progress::Unnamed,
            Some(name) => match format {
                None => Progress::UnknownFormat,
                Some(_) => Progress::Ready { name, width, height },
            },
        }
    }
}

/// The format that the file name of `path` asks for, if it has a name and the
/// name asks for one.
pub open spec fn format_of_path(path: Seq<char>) -> Option<ImageFormat> {
    match final_component(path) {
        Some(name) => encoding_for(name),
        None => None,
    }
}

/// How far a decoded image gets, by its size, the path it came from and the
/// factor alone.
pub open spec fn rendering(image: DynamicImage, path: Seq<char>, factor: nat) -> Progress {
    rendering_given(image, path, factor, format_of_path(path))
}

/// Whether `request` asks for the right image to be saved in the right place:
/// the magnification of `image`, in its channel layout, under `name`.
pub open spec fn asks_to_save(
    request: SaveRequest,
    image: DynamicImage,
    source: Seq<char>,
    directory: Seq<char>,
    name: Seq<char>,
    width: nat,
    height: nat,
) -> bool {
    &&& request.source@ == source
    &&& request.output@ == joined(directory, name)
    &&& request.width == width
    &&& request.height == height
    &&& request.image.width() == width
    &&& request.image.height() == height
    &&& request.image.layout() == pixel_layout(image)
}

/// Whether `outcome` is right for an image whose rendering gets as far as `reached`.
pub open spec fn render_matches(
    outcome: Result<SaveRequest, PipelineError>,
    image: DynamicImage,
    source: Seq<char>,
    directory: Seq<char>,
    reached: Progress,
) -> bool {
    match reached {
        Progress::Oversized => outcome matches Err(error) && error.kind == ErrorKind::Resample
            && error.detail@ == oversized_reason(),
        Progress::Unnamed => outcome matches Err(error) && error.kind == ErrorKind::Name
            && error.detail@ == unnamed_reason(),
        Progress::UnknownFormat => outcome matches Err(error) && error.kind == ErrorKind::Encode
            && error.detail@ == unknown_format_reason(),
        Progress::Ready { name, width, height } => outcome matches Ok(request) && asks_to_save(
            request,
            image,
            source,
            directory,
            name,
            width,
            height,
        ),
    }
}

/// Whether `step` is the failure of `source` with an error of `kind`.
pub open spec fn fails_with(step: FileStep, source: Seq<char>, kind: ErrorKind) -> bool {
    step matches FileStep::Finished(PipelineOutcome::Failure { source: reported, error })
        && reported@ == source && error.kind == kind
}

/// Whether `step` is the failure of `source` with an error of `kind` and the
/// cause `detail`.
pub open spec fn fails_because(
    step: FileStep,
    source: Seq<char>,
    kind: ErrorKind,
    detail: Seq<char>,
) -> bool {
    fails_with(step, source, kind) && step->Finished_0->error.detail@ == detail
}

/// Whether `step` is right for a decoded image: the request to save its
/// magnification, or the failure that its rendering ends in.
pub open spec fn render_step(
    step: FileStep,
    image: DynamicImage,
    source: Seq<char>,
    directory: Seq<char>,
    factor: nat,
) -> bool {
    match rendering(image, source, factor) {
        Progress::Oversized => fails_because(
            step,
            source,
            ErrorKind::Resample,
            oversized_reason(),
        ),
        Progress::Unnamed => fails_because(step, source, ErrorKind::Name, unnamed_reason()),
        Progress::UnknownFormat => fails_because(
            step,
            source,
            ErrorKind::Encode,
            unknown_format_reason(),
        ),
        Progress::Ready { name, width, height } => step matches FileStep::Save(request)
            && asks_to_save(request, image, source, directory, name, width, height),
    }
}

/// Whether `step` is right for a source whose attempts before `from` have all
/// failed, the last of them for `reason`: for an unreadable source, the
/// failure to open it with the reader's reason; else the request of the first
/// strategy left that applies; else, with the chain exhausted, the failure to
/// decode, with `reason` as its cause.
pub open spec fn attempt_step(
    step: FileStep,
    source: SourceFile,
    chain: Seq<DecodeStrategy>,
    from: int,
    reason: Seq<char>,
) -> bool {
    match readable_bytes(source) {
        None => fails_because(step, source.path@, ErrorKind::Open, source.content->Err_0@),
        Some(bytes) => match next_applicable(chain, bytes, from) {
            Some(position) => step matches FileStep::Decode(request) && request.source@
                == source.path@ && request.attempt == position && Some(request.how) == asks(
                chain[position],
                bytes,
            ),
            None => fails_because(step, source.path@, ErrorKind::Decode, reason),
        },
    }
}

/// The outcome of a save: one that went through is the file's success; one
/// that did not is a failure of kind `Encode` with the writer's reason.
pub open spec fn saved_outcome(request: SaveRequest, outcome: Result<(), String>) -> PipelineOutcome {
    match outcome {
        Ok(_) => PipelineOutcome::Success { source: request.source, output: request.output },
        Err(reason) => PipelineOutcome::Failure {
            source: request.source,
            error: PipelineError { kind: ErrorKind::Encode, detail: reason },
        },
    }
}

/// The path that a step is about.
pub open spec fn step_source(step: FileStep) -> Seq<char> {
    match step {
        FileStep::Decode(request) => request.source@,
        FileStep::Save(request) => request.source@,
        FileStep::Finished(outcome) => outcome.source(),
    }
}

/// The step for a source whose attempts before `from` have failed, the last
/// of them for `reason`.
fn attempt_from(source: &SourceFile, chain: &Vec<DecodeStrategy>, from: usize, reason: String) -> (step:
    FileStep)
    ensures
        attempt_step(step, *source, chain@, from as int, reason@),
{
    let path = source.path.clone();
    let bytes = match &source.content {
        Ok(bytes) => bytes,
        Err(unread) => {
            return FileStep::Finished(
                PipelineOutcome::failed(path, ErrorKind::Open, unread.clone()),
            );
        },
    };
    match next_request(chain, bytes.as_slice(), from) {
        Some((attempt, how)) => FileStep::Decode(DecodeRequest { source: path, attempt, how }),
        None => FileStep::Finished(PipelineOutcome::failed(path, ErrorKind::Decode, reason)),
    }
}

/// The first step for a source: the failure to open it, or the first decoding
/// that the chain asks for. A source that could not be read is never decoded.
pub fn begin(source: &SourceFile, chain: &Vec<DecodeStrategy>) -> (step: FileStep)
    ensures
        attempt_step(step, *source, chain@, 0, no_strategy_reason()),
{
    attempt_from(source, chain, 0, String::from_str("no decoding strategy applies to the content"))
}

/// A decoded image on its way out, given the format that the source's file
/// name was found to ask for: magnified by `factor`, in its own channel
/// layout, to be saved in `directory` under the source's own file name.
///
/// The order of the checks is: within what can be resampled, named, of a
/// known format.
pub fn render_given(
    image: &ImageBuffer,
    source: &str,
    directory: &str,
    factor: &MagnificationFactor,
    format: Option<ImageFormat>,
) -> (outcome: Result<SaveRequest, PipelineError>)
    ensures
        render_matches(
            outcome,
            image@,
            source@,
            directory@,
            rendering_given(image@, source@, factor@, format),
        ),
{
    let (width, height) = image.dimensions();
    let (target_width, target_height) = factor.target_dimensions(width, height);
    if !can_resize_to(target_width, target_height) {
        return Err(
            PipelineError::new(
                ErrorKind::Resample,
                String::from_str("the magnified image is too large to resample"),
            ),
        );
    }
    let name = match file_name(source) {
        Some(name) => name,
        None => {
            return Err(
                PipelineError::new(ErrorKind::Name, String::from_str("the path has no file name")),
            );
        },
    };
    if format.is_none() {
        return Err(
            PipelineError::new(
                ErrorKind::Encode,
                String::from_str("the file name has no suffix of a known image format"),
            ),
        );
    }
    let resized = image.resample(factor)?;
    Ok(
        SaveRequest {
            source: String::from_str(source),
            output: join(directory, name.as_str()),
            width: target_width,
            height: target_height,
            image: resized,
        },
    )
}

/// The format that the file name of `path` asks for, if it has a name and the
/// name asks for one. A path that a scan takes for a JPEG always asks for one.
pub fn format_for_path(path: &str) -> (format: Option<ImageFormat>)
    ensures
        format == format_of_path(path@),
        is_jpeg_path(path@) ==> format is Some,
{
    match file_name(path) {
        Some(name) => format_for_name(name.as_str()),
        None => None,
    }
}

/// A decoded image on its way out: magnified by `factor`, in its own channel
/// layout, to be saved in `directory` under the source's own file name. An
/// image from a path that a scan takes for a JPEG is always handed out,
/// unless it is too large to resample.
pub fn render(image: &ImageBuffer, source: &str, directory: &str, factor: &MagnificationFactor) -> (outcome:
    Result<SaveRequest, PipelineError>)
    ensures
        render_matches(outcome, image@, source@, directory@, rendering(image@, source@, factor@)),
        is_jpeg_path(source@) && image.can_magnify(factor@) ==> outcome is Ok,
{
    render_given(image, source, directory, factor, format_for_path(source))
}

/// The step that follows the decoder's answer to the attempt at position
/// `attempt`. An image is rendered. A refusal leads to the next strategy in
/// the chain that applies, and behind the last one to the failure to decode,
/// with the refusal as its cause.
pub fn decoded(
    source: &SourceFile,
    chain: &Vec<DecodeStrategy>,
    attempt: usize,
    answer: Result<ImageBuffer, String>,
    directory: &str,
    factor: &MagnificationFactor,
) -> (step: FileStep)
    ensures
        match answer {
            Ok(image) => render_step(step, image@, source.path@, directory@, factor@) && (
            is_jpeg_path(source.path@) && image.can_magnify(factor@) ==> step is Save),
            Err(reason) => attempt_step(step, *source, chain@, attempt + 1, reason@),
        },
{
    match answer {
        Ok(image) => match render(&image, source.path.as_str(), directory, factor) {
            Ok(request) => FileStep::Save(request),
            Err(error) => FileStep::Finished(
                PipelineOutcome::Failure { source: source.path.clone(), error },
            ),
        },
        Err(reason) => {
            if attempt < chain.len() {
                attempt_from(source, chain, attempt + 1, reason)
            } else {
                attempt_from(source, chain, attempt, reason)
            }
        },
    }
}

/// The outcome of a file whose image the caller has tried to save.
pub fn saved(request: SaveRequest, answer: Result<(), String>) -> (outcome: PipelineOutcome)
    ensures
        outcome == saved_outcome(request, answer),
{
    let SaveRequest { source, output, .. } = request;
    match answer {
        Ok(_) => PipelineOutcome::Success { source, output },
        Err(reason) => PipelineOutcome::failed(source, ErrorKind::Encode, reason),
    }
}

/// Each step is about the file it was made for, and so is the outcome of a save.
pub proof fn lemma_steps_name_their_source(
    step: FileStep,
    source: SourceFile,
    chain: Seq<DecodeStrategy>,
    from: int,
    reason: Seq<char>,
    image: DynamicImage,
    directory: Seq<char>,
    factor: nat,
    answer: Result<(), String>,
)
    requires
        attempt_step(step, source, chain, from, reason) || render_step(
            step,
            image,
            source.path@,
            directory,
            factor,
        ),
    ensures
        step_source(step) == source.path@,
        step is Finished ==> step->Finished_0 is Failure,
        step is Save ==> saved_outcome(step->Save_0, answer).source() == source.path@,
        step is Save ==> (saved_outcome(step->Save_0, answer) is Success <==> answer is Ok),
{
}

/// A refusal moves a file strictly on in the chain: the next request stands
/// behind the refused one, so a file is asked about at most once per strategy
/// and then has its outcome.
pub proof fn lemma_refusal_moves_on(
    step: FileStep,
    source: SourceFile,
    chain: Seq<DecodeStrategy>,
    attempt: int,
    reason: Seq<char>,
)
    requires
        0 <= attempt,
        attempt_step(step, source, chain, attempt + 1, reason),
    ensures
        step is Decode ==> attempt < step->Decode_0.attempt < chain.len(),
        !(step is Save),
        attempt + 1 >= chain.len() ==> step is Finished && step->Finished_0 is Failure,
{
    if readable_bytes(source) is Some {
        lemma_next_applicable_is_first(chain, readable_bytes(source)->0, attempt + 1);
    }
}

/// Content that no decoding makes an image of ends in a failure of kind
/// `Decode`: once the last strategy that applies has been refused, the step
/// is that failure, under every name, and it carries the last refusal.
pub proof fn lemma_undecodable_content_fails(
    step: FileStep,
    source: SourceFile,
    chain: Seq<DecodeStrategy>,
    from: int,
    reason: Seq<char>,
)
    requires
        readable_bytes(source) matches Some(bytes) && next_applicable(chain, bytes, from) is None,
        attempt_step(step, source, chain, from, reason),
    ensures
        fails_because(step, source.path@, ErrorKind::Decode, reason),
{
}

/// A file's name plays no part in reading its content: for two files of the
/// same content the same decodings are asked for, in the same order.
pub proof fn lemma_decoding_ignores_the_name(
    first: FileStep,
    second: FileStep,
    one: SourceFile,
    other: SourceFile,
    chain: Seq<DecodeStrategy>,
    from: int,
    reason: Seq<char>,
)
    requires
        readable_bytes(one) is Some,
        readable_bytes(one) == readable_bytes(other),
        attempt_step(first, one, chain, from, reason),
        attempt_step(second, other, chain, from, reason),
    ensures
        first is Decode <==> second is Decode,
        first is Decode ==> first->Decode_0.attempt == second->Decode_0.attempt
            && first->Decode_0.how == second->Decode_0.how,
        !(first is Decode) ==> fails_with(first, one.path@, ErrorKind::Decode) && fails_with(
            second,
            other.path@,
            ErrorKind::Decode,
        ),
{
}

/// The same image under two names is magnified to the same size: where both
/// names lead to a save, the two requests agree in width, height and layout.
pub proof fn lemma_magnification_ignores_the_name(
    first: FileStep,
    second: FileStep,
    image: DynamicImage,
    one: Seq<char>,
    other: Seq<char>,
    directory: Seq<char>,
    factor: nat,
)
    requires
        render_step(first, image, one, directory, factor),
        render_step(second, image, other, directory, factor),
    ensures
        fails_with(first, one, ErrorKind::Resample) <==> fails_with(
            second,
            other,
            ErrorKind::Resample,
        ),
        first is Save && second is Save ==> {
            &&& first->Save_0.width == second->Save_0.width
            &&& first->Save_0.height == second->Save_0.height
            &&& first->Save_0.image.layout() == second->Save_0.image.layout()
        },
{
}

/// An image under a name of a known format, whose magnification is not too
/// large to resample, is always handed out to be saved, and at its magnified size: each
/// side is the decoded side times the factor, as long as that fits in 32 bits.
pub proof fn lemma_saved_size_is_magnified(
    step: FileStep,
    image: DynamicImage,
    source: Seq<char>,
    directory: Seq<char>,
    factor: nat,
)
    requires
        render_step(step, image, source, directory, factor),
    ensures
        step is Save <==> rendering(image, source, factor) is Ready,
        step is Save ==> {
            let width = pixel_dimensions(image).0 as nat;
            let height = pixel_dimensions(image).1 as nat;
            &&& step->Save_0.width == magnified(width, factor)
            &&& step->Save_0.height == magnified(height, factor)
            &&& step->Save_0.image.width() == step->Save_0.width
            &&& step->Save_0.image.height() == step->Save_0.height
            &&& width * factor <= u32::MAX ==> step->Save_0.width == width * factor
            &&& height * factor <= u32::MAX ==> step->Save_0.height == height * factor
        },
{
}

/// Running a file again changes nothing that is decided here: two steps made
/// for the same source at the same point of the chain ask for the same
/// decoding or are the same kind of failure, and two steps made for the same
/// image ask for a save to the same path at the same size, or are the same
/// kind of failure. The pixels are not spoken of.
pub proof fn lemma_repeated_steps_agree(
    first: FileStep,
    second: FileStep,
    source: SourceFile,
    chain: Seq<DecodeStrategy>,
    from: int,
    reason: Seq<char>,
    image: DynamicImage,
    directory: Seq<char>,
    factor: nat,
)
    requires
        (attempt_step(first, source, chain, from, reason) && attempt_step(
            second,
            source,
            chain,
            from,
            reason,
        )) || (
        render_step(first, image, source.path@, directory, factor) && render_step(
            second,
            image,
            source.path@,
            directory,
            factor,
        )),
    ensures
        first is Decode <==> second is Decode,
        first is Save <==> second is Save,
        first is Decode ==> first->Decode_0.attempt == second->Decode_0.attempt
            && first->Decode_0.how == second->Decode_0.how,
        first is Save ==> {
            &&& first->Save_0.output@ == second->Save_0.output@
            &&& first->Save_0.width == second->Save_0.width
            &&& first->Save_0.height == second->Save_0.height
        },
        first is Finished ==> {
            &&& first->Finished_0 is Failure
            &&& second->Finished_0 is Failure
            &&& first->Finished_0->error.kind == second->Finished_0->error.kind
            &&& first->Finished_0->error.detail@ == second->Finished_0->error.detail@
        },
{
}

/// An image that is saved goes to the given directory under its source's own name.
pub proof fn lemma_saved_under_own_name(
    step: FileStep,
    image: DynamicImage,
    source: Seq<char>,
    directory: Seq<char>,
    factor: nat,
)
    requires
        render_step(step, image, source, directory, factor),
        step is Save,
    ensures
        final_component(source) matches Some(name) && step->Save_0.output@ == joined(
            directory,
            name,
        ),
        final_component(step->Save_0.output@) == final_component(source),
{
    lemma_output_is_named_like_source(directory, source);
}

/// Two sources that go by the same name are saved to the same path, from
/// whatever directories they come.
pub proof fn lemma_same_name_collides(
    first: FileStep,
    second: FileStep,
    one_image: DynamicImage,
    other_image: DynamicImage,
    one: Seq<char>,
    other: Seq<char>,
    directory: Seq<char>,
    factor: nat,
)
    requires
        final_component(one) == final_component(other),
        render_step(first, one_image, one, directory, factor),
        render_step(second, other_image, other, directory, factor),
        first is Save,
        second is Save,
    ensures
        first->Save_0.output@ == second->Save_0.output@,
{
}

} // verus!
