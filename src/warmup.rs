use crate::error::StartupError;
use vstd::prelude::*;
use candle_core::{Device, Tensor};
use candle_transformers::generation::LogitsProcessor;
use moshi::lm::LmModel;
use moshi::mimi::Mimi;
use moshi::StreamTensor;

verus! {

/// The steps of startup after device selection, in the order they run.
#[derive(Debug, Clone, Copy, PartialEq, Eq)]
pub enum Stage {
    /// Load the language model.
    LoadLm,
    /// Load the audio codec model.
    LoadCodec,
    /// Load the text tokenizer.
    LoadTokenizer,
    /// One language-model step with no prior input and every codebook empty.
    LmForward,
    /// One dependent sampling step from that output.
    LmSample,
    /// Encode one frame of silence with the codec.
    CodecEncode,
    /// Decode the codes that came out of the encode step.
    CodecDecode,
    /// Wait for the device to finish all pending work.
    Synchronize,
    /// Everything succeeded; the server may accept traffic.
    Ready,
}

/// What a step reported.
#[derive(Debug, Clone, Copy, PartialEq, Eq)]
pub enum Outcome {
    /// The step raised an error.
    Failed,
    /// The step returned and handed back a result.
    Produced,
    /// The step returned without error but handed back nothing. Only the codec
    /// decode step is held to producing something.
    Empty,
}

/// The stage after `stage` when it succeeds.
pub open spec fn successor(stage: Stage) -> Stage {
    match stage {
        Stage::LoadLm => Stage::LoadCodec,
        Stage::LoadCodec => Stage::LoadTokenizer,
        Stage::LoadTokenizer => Stage::LmForward,
        Stage::LmForward => Stage::LmSample,
        Stage::LmSample => Stage::CodecEncode,
        Stage::CodecEncode => Stage::CodecDecode,
        Stage::CodecDecode => Stage::Synchronize,
        Stage::Synchronize => Stage::Ready,
        Stage::Ready => Stage::Ready,
    }
}

/// The error that a failing step is reported as.
pub open spec fn failure_of(stage: Stage) -> StartupError {
    match stage {
        Stage::LoadLm | Stage::LoadCodec => StartupError::ModelLoad,
        Stage::LoadTokenizer => StartupError::TokenizerLoad,
        _ => StartupError::WarmupFailed,
    }
}

/// One transition: a failing step aborts with its error, a decode step that
/// yields nothing aborts with `EmptyOutput`, anything else moves on.
pub open spec fn step(stage: Stage, outcome: Outcome) -> Result<Stage, StartupError> {
    if stage == Stage::Ready {
        Ok(Stage::Ready)
    } else if outcome == Outcome::Failed {
        Err(failure_of(stage))
    } else if stage == Stage::CodecDecode && outcome == Outcome::Empty {
        Err(StartupError::EmptyOutput)
    } else {
        Ok(successor(stage))
    }
}

/// Where a startup that reports `outcomes` in turn from `stage` ends: at a
/// stage, or at the first error.
pub open spec fn run_from(stage: Stage, outcomes: Seq<Outcome>) -> Result<Stage, StartupError>
    decreases outcomes.len(),
{
    if outcomes.len() == 0 {
        Ok(stage)
    } else {
        match step(stage, outcomes[0]) {
            Ok(next) => run_from(next, outcomes.drop_first()),
            Err(e) => Err(e),
        }
    }
}

/// Where a startup that reports `outcomes` in turn ends.
pub open spec fn run(outcomes: Seq<Outcome>) -> Result<Stage, StartupError> {
    run_from(Stage::LoadLm, outcomes)
}

impl Stage {
    /// The first step.
    pub fn first() -> (r: Stage)
        ensures
            r == Stage::LoadLm,
    {
        Stage::LoadLm
    }

    /// Whether startup is complete.
    pub fn is_ready(&self) -> (r: bool)
        ensures
            r == (*self == Stage::Ready),
    {
        matches!(self, Stage::Ready)
    }

    /// The stage that follows this one given what its step reported, or the
    /// error that ends startup.
    pub fn advance(self, outcome: Outcome) -> (r: Result<Stage, StartupError>)
        ensures
            r == step(self, outcome),
    {
        match self {
            Stage::Ready => Ok(Stage::Ready),
            _ => {
                match outcome {
                    Outcome::Failed => Err(
                        match self {
                            Stage::LoadLm | Stage::LoadCodec => StartupError::ModelLoad,
                            Stage::LoadTokenizer => StartupError::TokenizerLoad,
                            _ => StartupError::WarmupFailed,
                        },
                    ),
                    Outcome::Empty if matches!(self, Stage::CodecDecode) => Err(
                        StartupError::EmptyOutput,
                    ),
                    _ => Ok(
                        match self {
                            Stage::LoadLm => Stage::LoadCodec,
                            Stage::LoadCodec => Stage::LoadTokenizer,
                            Stage::LoadTokenizer => Stage::LmForward,
                            Stage::LmForward => Stage::LmSample,
                            Stage::LmSample => Stage::CodecEncode,
                            Stage::CodecEncode => Stage::CodecDecode,
                            Stage::CodecDecode => Stage::Synchronize,
                            _ => Stage::Ready,
                        },
                    ),
                }
            },
        }
    }
}

/// `a / b` rounded up.
pub open spec fn ceil_div(a: int, b: int) -> int {
    if a % b == 0 {
        a / b
    } else {
        a / b + 1
    }
}

/// The number of samples in one codec frame, ceiling(sample rate / frame
/// rate), both rates in millihertz. A zero frame rate has no frame length and
/// fails the warm-up.
pub fn frame_length(sample_rate_mhz: u64, frame_rate_mhz: u64) -> (r: Result<u64, StartupError>)
    ensures
        frame_rate_mhz == 0 ==> r == Err::<u64, StartupError>(StartupError::WarmupFailed),
        frame_rate_mhz > 0 ==> (r matches Ok(v) && v == ceil_div(
            sample_rate_mhz as int,
            frame_rate_mhz as int,
        ) && v * frame_rate_mhz >= sample_rate_mhz && (v - 1) * frame_rate_mhz < sample_rate_mhz),
{
    if frame_rate_mhz == 0 {
        return Err(StartupError::WarmupFailed);
    }
    let q = sample_rate_mhz / frame_rate_mhz;
    let v = if sample_rate_mhz % frame_rate_mhz == 0 {
        q
    } else {
        assert(frame_rate_mhz != 1);
        assert(q < 0xffff_ffff_ffff_ffffu64) by (nonlinear_arith)
            requires
                frame_rate_mhz >= 2,
                q == sample_rate_mhz / frame_rate_mhz,
                sample_rate_mhz <= 0xffff_ffff_ffff_ffffu64,
        ;
        q + 1
    };
    proof {
        let a = sample_rate_mhz as int;
        let b = frame_rate_mhz as int;
        assert(a == (a / b) * b + a % b && 0 <= a % b < b) by (nonlinear_arith)
            requires
                b > 0,
                a >= 0,
        ;
        assert(v * b >= a && (v - 1) * b < a) by (nonlinear_arith)
            requires
                a == (a / b) * b + a % b,
                0 <= a % b < b,
                v == (if a % b == 0 { a / b } else { a / b + 1 }),
        ;
    }
    Ok(v)
}

#[verifier::external_type_specification]
#[verifier::external_body]
pub struct ExLmModel(moshi::lm::LmModel);

#[verifier::external_type_specification]
#[verifier::external_body]
pub struct ExMimi(moshi::mimi::Mimi);

#[verifier::external_type_specification]
#[verifier::external_body]
pub struct ExTensor(candle_core::Tensor);

#[verifier::external_type_specification]
#[verifier::external_body]
pub struct ExStreamTensor(moshi::StreamTensor);

#[verifier::external_type_specification]
#[verifier::external_body]
pub struct ExLogitsProcessor(candle_transformers::generation::LogitsProcessor);

/// Relies on the derived `Clone` of moshi::lm::LmModel: a copy whose runtime
/// state (caches) is its own, weights shared.
pub assume_specification[ <moshi::lm::LmModel as Clone>::clone ](m: &moshi::lm::LmModel) -> moshi::lm::LmModel;

/// Relies on the derived `Clone` of moshi::mimi::Mimi: a copy whose streaming
/// state is its own, weights shared.
pub assume_specification[ <moshi::mimi::Mimi as Clone>::clone ](m: &moshi::mimi::Mimi) -> moshi::mimi::Mimi;

/// Relies on moshi::StreamTensor::is_empty: whether a streaming step handed
/// back no tensor.
pub assume_specification[ moshi::StreamTensor::is_empty ](t: &moshi::StreamTensor) -> bool;

/// Relies on candle_core::Device::synchronize: waits for the device's pending
/// work, reporting a deferred error if there is one.
pub assume_specification[ candle_core::Device::synchronize ](d: &candle_core::Device) -> Result<
    (),
    candle_core::Error,
>;

/// Relies on moshi::lm::LmModel::forward, run with no text, every codebook
/// slot empty and no mask; hands back the hidden states (the second result).
#[verifier::external_body]
fn lm_forward(lm: &mut LmModel, num_codebooks: usize) -> Result<Tensor, candle_core::Error> {
    lm.forward(None, vec![None; num_codebooks], &moshi::StreamMask::empty()).map(|(_logits, ys)| ys)
}

/// Relies on candle_transformers::generation::LogitsProcessor::new with the
/// given seed, no temperature (greedy) and no top-p.
#[verifier::external_body]
fn greedy_sampler(seed: u64) -> LogitsProcessor {
    LogitsProcessor::new(seed, None, None)
}

/// Relies on moshi::lm::LmModel::depformer_sample, with no forced audio
/// token; the sampled tokens are dropped.
#[verifier::external_body]
fn lm_sample(
    lm: &mut LmModel,
    ys: &Tensor,
    text_token: u32,
    lp: &mut LogitsProcessor,
) -> Result<(), candle_core::Error> {
    lm.depformer_sample(ys, Some(text_token), &[], lp).map(|_tokens| ())
}

/// Relies on candle_core::Tensor::zeros: a float tensor of shape
/// (1, 1, `samples`) on `dev`, one channel of silence.
#[verifier::external_body]
fn silence(samples: usize, dev: &Device) -> Result<Tensor, candle_core::Error> {
    Tensor::zeros((1, 1, samples), candle_core::DType::F32, dev)
}

/// Relies on moshi::mimi::Mimi::encode_step, with no mask.
#[verifier::external_body]
fn codec_encode(codec: &mut Mimi, pcm: Tensor) -> Result<StreamTensor, candle_core::Error> {
    codec.encode_step(&StreamTensor::from_tensor(pcm), &moshi::StreamMask::empty())
}

/// Relies on moshi::mimi::Mimi::decode_step, with no mask.
#[verifier::external_body]
fn codec_decode(codec: &mut Mimi, codes: &StreamTensor) -> Result<StreamTensor, candle_core::Error> {
    codec.decode_step(codes, &moshi::StreamMask::empty())
}

/// The seed of the sampler used by the warm-up step.
pub const WARMUP_SEED: u64 = 123;

/// The text token fed to the warm-up sampling step.
pub const WARMUP_TEXT_TOKEN: u32 = 0;

/// The outcome of an outside step that hands back a value.
fn outcome_of<T>(r: &Result<T, candle_core::Error>) -> (o: Outcome)
    ensures
        o == (if r is Ok { Outcome::Produced } else { Outcome::Failed }),
{
    match r {
        Ok(_) => Outcome::Produced,
        Err(_) => Outcome::Failed,
    }
}

/// The warm-up pass over models that loaded: one language-model step and one
/// sampling step on a copy of `lm_model`, then one frame of silence encoded
/// and decoded by a copy of `codec_model`, then a wait for `device`. The frame
/// holds ceiling(sample rate / frame rate) samples, the rates in millihertz.
/// Each step's result goes through the stage machine, so an error of any step
/// is `WarmupFailed`, and a decode step that hands back nothing is
/// `EmptyOutput`.
pub fn warm_up(
    lm_model: &LmModel,
    codec_model: &Mimi,
    num_codebooks: usize,
    sample_rate_mhz: u64,
    frame_rate_mhz: u64,
    codec_device: &Device,
    device: &Device,
) -> (r: Result<(), StartupError>)
    ensures
        frame_rate_mhz == 0 ==> r == Err::<(), StartupError>(StartupError::WarmupFailed),
        r is Ok ==> frame_rate_mhz > 0,
        r matches Err(e) ==> e == StartupError::WarmupFailed || e == StartupError::EmptyOutput,
{
    let samples = frame_length(sample_rate_mhz, frame_rate_mhz)?;
    if samples > usize::MAX as u64 {
        return Err(StartupError::WarmupFailed);
    }
    let mut stage = Stage::LmForward;
    let mut lm = lm_model.clone();
    let ys = lm_forward(&mut lm, num_codebooks);
    stage = stage.advance(outcome_of(&ys))?;
    let ys = match ys {
        Ok(ys) => ys,
        Err(_) => return Err(StartupError::WarmupFailed),
    };
    let mut lp = greedy_sampler(WARMUP_SEED);
    let sampled = lm_sample(&mut lm, &ys, WARMUP_TEXT_TOKEN, &mut lp);
    stage = stage.advance(outcome_of(&sampled))?;
    let mut codec = codec_model.clone();
    let codes = match silence(samples as usize, codec_device) {
        Ok(pcm) => codec_encode(&mut codec, pcm),
        Err(e) => Err(e),
    };
    stage = stage.advance(outcome_of(&codes))?;
    let codes = match codes {
        Ok(codes) => codes,
        Err(_) => return Err(StartupError::WarmupFailed),
    };
    let decoded = codec_decode(&mut codec, &codes);
    let decode_outcome = match &decoded {
        Ok(out) => if out.is_empty() {
            Outcome::Empty
        } else {
            Outcome::Produced
        },
        Err(_) => Outcome::Failed,
    };
    stage = stage.advance(decode_outcome)?;
    let synced = device.synchronize();
    stage = stage.advance(outcome_of(&synced))?;
    if stage.is_ready() {
        Ok(())
    } else {
        Err(StartupError::WarmupFailed)
    }
}

/// A codec decode step that yields nothing fails startup with `EmptyOutput`,
/// even when every earlier step, the encode step included, succeeded; and
/// startup completes only when that step produced something.
pub proof fn lemma_empty_decode_fails(outcomes: Seq<Outcome>)
    ensures
        outcomes.len() >= 7 && (forall|i: int| 0 <= i < 6 ==> outcomes[i] != Outcome::Failed)
            && outcomes[6] == Outcome::Empty ==> run(outcomes) == Err::<Stage, StartupError>(
            StartupError::EmptyOutput,
        ),
        run(outcomes) == Ok::<Stage, StartupError>(Stage::Ready) ==> outcomes.len() >= 8
            && outcomes[6] == Outcome::Produced,
{
    reveal_with_fuel(run_from, 9);
}

/// A language-model step that raises an error fails startup with
/// `WarmupFailed`, even though every load succeeded.
pub proof fn lemma_lm_step_failure_fails(outcomes: Seq<Outcome>)
    ensures
        outcomes.len() >= 5 && (forall|i: int| 0 <= i < 3 ==> outcomes[i] != Outcome::Failed) && (
        outcomes[3] == Outcome::Failed || outcomes[4] == Outcome::Failed) ==> run(outcomes) == Err::<
            Stage,
            StartupError,
        >(StartupError::WarmupFailed),
{
    reveal_with_fuel(run_from, 6);
}

} // verus!
