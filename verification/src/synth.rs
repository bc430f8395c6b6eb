//! What the model is asked for, and what its answers mean.

use crate::buffer;
use crate::proto::{TtsRequest, TtsRequestView};
use crate::text;
use bytes::Bytes;
use vstd::prelude::*;

verus! {

/// Why a request gave no audio.
#[derive(Debug)]
pub enum SynthError {
    Cancelled,
    Other(String),
}

/// Why a request gave no audio.
#[verifier::ext_equal]
pub enum SynthErrorView {
    Cancelled,
    Other(Seq<char>),
}

impl View for SynthError {
    type V = SynthErrorView;

    open spec fn view(&self) -> SynthErrorView {
        match self {
            SynthError::Cancelled => SynthErrorView::Cancelled,
            SynthError::Other(msg) => SynthErrorView::Other(msg@),
        }
    }
}

/// A reference clip.
#[derive(Debug)]
pub enum PromptAudio {
    /// An audio file's bytes.
    Encoded(Bytes),
    /// An audio file's path.
    Path(String),
}

/// A reference clip.
#[verifier::ext_equal]
pub enum PromptAudioView {
    Encoded(Seq<u8>),
    Path(Seq<char>),
}

impl View for PromptAudio {
    type V = PromptAudioView;

    open spec fn view(&self) -> PromptAudioView {
        match self {
            PromptAudio::Encoded(b) => PromptAudioView::Encoded(buffer::bytes_of(*b)),
            PromptAudio::Path(p) => PromptAudioView::Path(p@),
        }
    }
}

/// What the model is to imitate.
#[derive(Debug)]
pub enum Prompt {
    /// A clip.
    Reference { audio: PromptAudio },
    /// A clip, of which the transcript is known.
    Continuation { audio: PromptAudio, text: String },
}

/// What the model is to imitate.
#[verifier::ext_equal]
pub enum PromptView {
    Reference(PromptAudioView),
    Continuation(PromptAudioView, Seq<char>),
}

impl View for Prompt {
    type V = PromptView;

    open spec fn view(&self) -> PromptView {
        match self {
            Prompt::Reference { audio } => PromptView::Reference(audio@),
            Prompt::Continuation { audio, text } => PromptView::Continuation(audio@, text@),
        }
    }
}

/// The prompt of a request, if it has one, or what is missing. A transcript
/// without a clip is of no use.
pub open spec fn prompt_of(req: TtsRequestView, inline_audio: Option<Seq<u8>>) -> Result<
    Option<PromptView>,
    Seq<char>,
> {
    if req.inline_reference && inline_audio is None {
        Err("inline reference flagged but no audio bytes received"@)
    } else {
        let audio = if req.inline_reference {
            Some(PromptAudioView::Encoded(inline_audio->0))
        } else {
            match req.reference {
                Some(path) => Some(PromptAudioView::Path(path)),
                None => None,
            }
        };
        match (audio, req.continuation) {
            (None, _) => Ok(None),
            (Some(a), None) => Ok(Some(PromptView::Reference(a))),
            (Some(a), Some(t)) => Ok(Some(PromptView::Continuation(a, t))),
        }
    }
}

/// The contents of an optional prompt.
pub open spec fn opt_prompt(p: Option<Prompt>) -> Option<PromptView> {
    match p {
        Some(x) => Some(x@),
        None => None,
    }
}

/// The prompt of a request, if it has one.
pub fn build_prompt(req: &TtsRequest, inline_audio: Option<Bytes>) -> (r: Result<
    Option<Prompt>,
    String,
>)
    ensures
        match (r, prompt_of(req@, buffer::opt_bytes(inline_audio))) {
            (Ok(p), Ok(named)) => opt_prompt(p) == named,
            (Err(msg), Err(named)) => msg@ == named,
            _ => false,
        },
{
    let audio = if req.inline_reference {
        match inline_audio {
            Some(b) => Some(PromptAudio::Encoded(b)),
            None => {
                return Err("inline reference flagged but no audio bytes received".to_owned());
            },
        }
    } else {
        match &req.reference {
            Some(path) => Some(PromptAudio::Path(path.clone())),
            None => None,
        }
    };
    match (audio, &req.continuation) {
        (None, _) => Ok(None),
        (Some(audio), None) => Ok(Some(Prompt::Reference { audio })),
        (Some(audio), Some(t)) => Ok(Some(Prompt::Continuation { audio, text: t.clone() })),
    }
}

/// What the model is asked for.
#[derive(Debug)]
pub struct Generation {
    pub text: String,
    /// The guidance, a single-precision number, as its bits.
    pub cfg_bits: u32,
    pub timesteps: u32,
    pub prompt: Option<Prompt>,
}

/// What the model is asked for.
#[verifier::ext_equal]
pub struct GenerationView {
    pub text: Seq<char>,
    pub cfg_bits: u32,
    pub timesteps: u32,
    pub prompt: Option<PromptView>,
}

impl View for Generation {
    type V = GenerationView;

    open spec fn view(&self) -> GenerationView {
        GenerationView {
            text: self.text@,
            cfg_bits: self.cfg_bits,
            timesteps: self.timesteps,
            prompt: opt_prompt(self.prompt),
        }
    }
}

/// What the model is asked for by a request, or what is missing.
pub open spec fn generation_of(req: TtsRequestView, inline_audio: Option<Seq<u8>>) -> Result<
    GenerationView,
    SynthErrorView,
> {
    match prompt_of(req, inline_audio) {
        Ok(prompt) => Ok(
            GenerationView {
                text: req.text,
                cfg_bits: req.cfg_bits,
                timesteps: req.steps,
                prompt,
            },
        ),
        Err(msg) => Err(SynthErrorView::Other(msg)),
    }
}

/// What the model is asked for by a request.
pub fn prepare(req: TtsRequest, inline_audio: Option<Bytes>) -> (r: Result<Generation, SynthError>)
    ensures
        match (r, generation_of(req@, buffer::opt_bytes(inline_audio))) {
            (Ok(g), Ok(named)) => g@ == named,
            (Err(e), Err(named)) => e@ == named,
            _ => false,
        },
{
    match build_prompt(&req, inline_audio) {
        Ok(prompt) => Ok(
            Generation { text: req.text, cfg_bits: req.cfg_bits, timesteps: req.steps, prompt },
        ),
        Err(msg) => Err(SynthError::Other(msg)),
    }
}

/// How the model failed.
#[derive(Debug)]
pub enum ModelError {
    Cancelled,
    Other(String),
}

/// What a failure of the model, while it generates, means for the request.
pub fn generation_failed(e: ModelError) -> (r: SynthError)
    ensures
        r@ == match e {
            ModelError::Cancelled => SynthErrorView::Cancelled,
            ModelError::Other(reason) => SynthErrorView::Other("generation failed: "@ + reason@),
        },
{
    match e {
        ModelError::Cancelled => SynthError::Cancelled,
        ModelError::Other(reason) => SynthError::Other(
            text::join("generation failed: ", reason.as_str()),
        ),
    }
}

/// What it means for the request that no stream could be started.
pub fn stream_not_started(reason: &str) -> (r: SynthError)
    ensures
        r@ == SynthErrorView::Other("generation failed: "@ + reason@),
{
    SynthError::Other(text::join("generation failed: ", reason))
}

/// What the attempt to write the samples as a WAV file means for the request.
pub fn encoded(r: Result<Vec<u8>, String>) -> (out: Result<Bytes, SynthError>)
    ensures
        match (r, out) {
            (Ok(wav), Ok(payload)) => buffer::bytes_of(payload) == wav@,
            (Err(reason), Err(e)) => e@ == SynthErrorView::Other(
                "encoding wav failed: "@ + reason@,
            ),
            _ => false,
        },
{
    match r {
        Ok(wav) => Ok(buffer::from_vec(wav)),
        Err(reason) => Err(
            SynthError::Other(text::join("encoding wav failed: ", reason.as_str())),
        ),
    }
}

/// A prompt that is built without an error is there if and only if the request
/// names a clip or brings one along. Its clip is the one that came along if the
/// request says that one does, and else the file that it names. It has a
/// transcript if and only if the request has a continuation, and then that one.
pub proof fn prompts_hold_the_request(req: TtsRequestView, inline_audio: Option<Seq<u8>>)
    ensures
        prompt_of(req, inline_audio) matches Ok(prompt) ==> {
            &&& prompt is Some <==> req.inline_reference || req.reference is Some
            &&& prompt matches Some(PromptView::Reference(clip)) ==> req.continuation is None
                && (if req.inline_reference {
                clip is Encoded && inline_audio == Some(clip->Encoded_0)
            } else {
                clip is Path && req.reference == Some(clip->Path_0)
            })
            &&& prompt matches Some(PromptView::Continuation(clip, words)) ==> req.continuation
                == Some(words) && (if req.inline_reference {
                clip is Encoded && inline_audio == Some(clip->Encoded_0)
            } else {
                clip is Path && req.reference == Some(clip->Path_0)
            })
        },
{
}

/// There is an error if and only if the request says that a clip comes along
/// and none does.
pub proof fn prompts_need_the_clip(req: TtsRequestView, inline_audio: Option<Seq<u8>>)
    ensures
        prompt_of(req, inline_audio) is Err <==> req.inline_reference && inline_audio is None,
        prompt_of(req, inline_audio) matches Err(msg) ==> msg
            == "inline reference flagged but no audio bytes received"@,
{
}

/// The model is asked for the request's text, with its guidance and its steps
/// and with what there is to imitate: a clip if and only if the request clones
/// a voice, the clip that came along or else the file that is named, and the
/// continuation if there is one. What stops the prompt stops the request, with
/// the same message.
pub proof fn generations_hold_the_request(req: TtsRequestView, inline_audio: Option<Seq<u8>>)
    ensures
        generation_of(req, inline_audio) is Err <==> req.inline_reference && inline_audio is None,
        generation_of(req, inline_audio) matches Err(e) ==> e == SynthErrorView::Other(
            "inline reference flagged but no audio bytes received"@,
        ),
        generation_of(req, inline_audio) matches Ok(g) ==> {
            &&& g.text == req.text
            &&& g.cfg_bits == req.cfg_bits
            &&& g.timesteps == req.steps
            &&& Ok::<Option<PromptView>, Seq<char>>(g.prompt) == prompt_of(req, inline_audio)
            &&& g.prompt is Some <==> req.inline_reference || req.reference is Some
            &&& g.prompt matches Some(PromptView::Reference(clip)) ==> req.continuation is None
            &&& g.prompt matches Some(PromptView::Continuation(clip, words)) ==> req.continuation
                == Some(words)
        },
{
}

/// What the model is asked for is what the fields hold.
pub proof fn generations_hold_their_fields(
    g: Generation,
    prompt: Prompt,
    audio: PromptAudio,
    words: String,
    clip: Bytes,
)
    ensures
        g@.text == g.text@,
        g@.cfg_bits == g.cfg_bits,
        g@.timesteps == g.timesteps,
        g.prompt is None <==> g@.prompt is None,
        g.prompt == Some(prompt) ==> g@.prompt == Some(prompt@),
        (Prompt::Reference { audio })@ == PromptView::Reference(audio@),
        (Prompt::Continuation { audio, text: words })@ == PromptView::Continuation(audio@, words@),
        PromptAudio::Encoded(clip)@ == PromptAudioView::Encoded(buffer::bytes_of(clip)),
        PromptAudio::Path(words)@ == PromptAudioView::Path(words@),
        SynthError::Cancelled@ == SynthErrorView::Cancelled,
        SynthError::Other(words)@ == SynthErrorView::Other(words@),
{
}

/// The prompt that is built for a request, and what the model is asked for by
/// it, hold the request's own fields: there is a prompt if and only if there is
/// a clip, it has the clip that came along if the request says that one does
/// and else the file that is named, and it has a transcript if and only if the
/// request has a continuation, and then that one.
pub proof fn requests_reach_the_model(
    req: TtsRequest,
    inline_audio: Option<Bytes>,
    prompt: Result<Option<Prompt>, String>,
    asked: Result<Generation, SynthError>,
)
    requires
        call_ensures(build_prompt, (&req, inline_audio), prompt),
        call_ensures(prepare, (req, inline_audio), asked),
    ensures
        prompt is Ok <==> !req.inline_reference || inline_audio is Some,
        asked is Ok <==> prompt is Ok,
        prompt matches Ok(p) ==> prompt_keeps(p, req, inline_audio),
        asked matches Ok(g) ==> {
            &&& g.text@ == req.text@
            &&& g.cfg_bits == req.cfg_bits
            &&& g.timesteps == req.steps
            &&& prompt_keeps(g.prompt, req, inline_audio)
        },
{
}

/// Whether a clip is the one that comes with a request, or else the file that
/// it names.
pub open spec fn clip_keeps(
    clip: PromptAudio,
    req: TtsRequest,
    inline_audio: Option<Bytes>,
) -> bool {
    match clip {
        PromptAudio::Encoded(b) => req.inline_reference && inline_audio is Some
            && buffer::bytes_of(b) == buffer::bytes_of(inline_audio->0),
        PromptAudio::Path(p) => !req.inline_reference && req.reference is Some && p@
            == req.reference->0@,
    }
}

/// Whether a prompt has the clip and the transcript of a request.
pub open spec fn prompt_keeps(
    prompt: Option<Prompt>,
    req: TtsRequest,
    inline_audio: Option<Bytes>,
) -> bool {
    match prompt {
        None => !req.inline_reference && req.reference is None,
        Some(Prompt::Reference { audio }) => clip_keeps(audio, req, inline_audio)
            && req.continuation is None,
        Some(Prompt::Continuation { audio, text }) => clip_keeps(audio, req, inline_audio)
            && req.continuation is Some && text@ == req.continuation->0@,
    }
}

/// A failure of the model cancels the request if the model was cancelled, and
/// else is told with its reason; so is a file that could not be written. Audio
/// that could be written is handed on as it is.
pub proof fn failures_keep_their_reason(
    e: ModelError,
    failed: SynthError,
    reason: &str,
    not_started: SynthError,
    written: Result<Vec<u8>, String>,
    out: Result<Bytes, SynthError>,
)
    requires
        call_ensures(generation_failed, (e,), failed),
        call_ensures(stream_not_started, (reason,), not_started),
        call_ensures(encoded, (written,), out),
    ensures
        failed is Cancelled <==> e is Cancelled,
        e matches ModelError::Other(why) ==> (failed matches SynthError::Other(msg) && msg@
            == "generation failed: "@ + why@),
        not_started matches SynthError::Other(msg) && msg@ == "generation failed: "@ + reason@,
        out is Ok <==> written is Ok,
        written matches Ok(wav) ==> buffer::bytes_of(out->Ok_0) == wav@,
        written matches Err(why) ==> (out->Err_0 matches SynthError::Other(msg) && msg@
            == "encoding wav failed: "@ + why@),
{
}

} // verus!
