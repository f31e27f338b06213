//! Command lines for the external converters, and the decisions taken on what they report.

use vstd::prelude::*;

use crate::blob::{bytes_of, Blob, Ext};
use crate::failure::Failure;

verus! {

/// Above this many bytes a lossless clip is encoded again, lossy.
pub const MAX_OUTPUT_WEBM_SIZE: usize = 256 * 1000;

/// A command line for an external converter, with the staged input file
/// standing between `before_input` and `after_input`.
#[derive(Clone, Debug)]
pub struct Invocation {
    pub program: &'static str,
    pub before_input: Vec<&'static str>,
    pub after_input: Vec<&'static str>,
}

/// The text of each argument.
pub open spec fn texts(v: Seq<&'static str>) -> Seq<Seq<char>> {
    v.map_values(|s: &'static str| s@)
}

pub open spec fn invocation_is(
    inv: Invocation,
    program: Seq<char>,
    before: Seq<Seq<char>>,
    after: Seq<Seq<char>>,
) -> bool {
    &&& inv.program@ == program
    &&& texts(inv.before_input@) == before
    &&& texts(inv.after_input@) == after
}

/// The arguments of a clip transcode after the input file: the lossless flag
/// on the first pass only, then scaling within 512 by 512, VP9 in webm, no audio,
/// written to standard output.
pub open spec fn clip_args_after(lossy: bool) -> Seq<Seq<char>> {
    let flag = if lossy {
        Seq::<Seq<char>>::empty()
    } else {
        seq!["-lossless"@, "1"@]
    };
    flag + seq![
        "-vf"@,
        "scale=w=512:h=512:force_original_aspect_ratio=decrease"@,
        "-c:v"@,
        "libvpx-vp9"@,
        "-f"@,
        "webm"@,
        "-an"@,
        "-"@,
    ]
}

/// The ffmpeg command for one pass over a clip, trimmed to its first 3 seconds.
pub fn clip_invocation(lossy: bool) -> (r: Invocation)
    ensures
        invocation_is(r, "ffmpeg"@, seq!["-hide_banner"@, "-t"@, "3"@, "-i"@], clip_args_after(lossy)),
{
    let before = vec!["-hide_banner", "-t", "3", "-i"];
    let mut after: Vec<&'static str> = Vec::new();
    if !lossy {
        after.push("-lossless");
        after.push("1");
    }
    after.push("-vf");
    after.push("scale=w=512:h=512:force_original_aspect_ratio=decrease");
    after.push("-c:v");
    after.push("libvpx-vp9");
    after.push("-f");
    after.push("webm");
    after.push("-an");
    after.push("-");
    let r = Invocation { program: "ffmpeg", before_input: before, after_input: after };
    assert(texts(r.before_input@) =~= seq!["-hide_banner"@, "-t"@, "3"@, "-i"@]);
    assert(texts(r.after_input@) =~= clip_args_after(lossy));
    r
}

/// The ffmpeg command that re-encodes a staged video sticker as gif.
pub fn video_to_gif_invocation() -> (r: Invocation)
    ensures
        invocation_is(
            r,
            "ffmpeg"@,
            seq!["-hide_banner"@, "-i"@],
            seq!["-c:v"@, "gif"@, "-f"@, "gif"@, "-"@],
        ),
{
    let r = Invocation {
        program: "ffmpeg",
        before_input: vec!["-hide_banner", "-i"],
        after_input: vec!["-c:v", "gif", "-f", "gif", "-"],
    };
    assert(texts(r.before_input@) =~= seq!["-hide_banner"@, "-i"@]);
    assert(texts(r.after_input@) =~= seq!["-c:v"@, "gif"@, "-f"@, "gif"@, "-"@]);
    r
}

/// The script command that renders a staged vector sticker as gif.
pub fn lottie_to_gif_invocation() -> (r: Invocation)
    ensures
        invocation_is(r, "lottie_to_gif.sh"@, Seq::empty(), seq!["--output"@, "-"@]),
{
    let r = Invocation {
        program: "lottie_to_gif.sh",
        before_input: Vec::new(),
        after_input: vec!["--output", "-"],
    };
    assert(texts(r.before_input@) =~= Seq::empty());
    assert(texts(r.after_input@) =~= seq!["--output"@, "-"@]);
    r
}

/// What to do after a clip transcode pass has finished.
#[derive(Debug)]
pub enum ClipStep {
    /// Run the transcoder again, this time without the lossless flag.
    RetryLossy,
    /// The pass produced the clip to send.
    Deliver(Blob),
    /// The transcoder failed; nothing more is tried.
    Fail(Failure),
}

/// Whether a pass asks for another one: only a successful lossless pass whose
/// output is over the limit does.
pub open spec fn clip_retries(lossy: bool, success: bool, len: nat) -> bool {
    success && !lossy && len > MAX_OUTPUT_WEBM_SIZE as nat
}

/// Decides what follows a clip pass from whether it was lossy, whether the
/// transcoder exited successfully, and what it wrote.
pub fn clip_step(lossy: bool, success: bool, stdout: Vec<u8>) -> (r: ClipStep)
    ensures
        !success ==> r == ClipStep::Fail(Failure::TranscodeFailed),
        clip_retries(lossy, success, stdout@.len()) <==> r is RetryLossy,
        success && !clip_retries(lossy, success, stdout@.len()) ==> (r matches ClipStep::Deliver(
            b,
        ) && b.ext == Ext::Webm && bytes_of(b.data) == stdout@),
{
    if !success {
        ClipStep::Fail(Failure::TranscodeFailed)
    } else if !lossy && stdout.len() > MAX_OUTPUT_WEBM_SIZE {
        ClipStep::RetryLossy
    } else {
        ClipStep::Deliver(Blob::from_vec(stdout, Ext::Webm))
    }
}

/// The number of passes the clip loop makes when its passes report, in turn,
/// the outcomes given (exit success and output length), starting lossless or lossy.
pub open spec fn passes_made(lossy: bool, outcomes: Seq<(bool, nat)>) -> nat
    decreases outcomes.len(),
{
    if outcomes.len() == 0 {
        0
    } else if clip_retries(lossy, outcomes[0].0, outcomes[0].1) {
        1 + passes_made(true, outcomes.drop_first())
    } else {
        1
    }
}

/// The clip loop runs the transcoder at most twice, whatever the passes report:
/// a lossy pass never asks for another, and a successful lossy pass is
/// delivered even when its output is still over the limit.
pub proof fn lemma_clip_passes_bounded(outcomes: Seq<(bool, nat)>)
    ensures
        passes_made(false, outcomes) <= 2,
        forall|len: nat| !clip_retries(true, true, len),
{
    if outcomes.len() > 0 && clip_retries(false, outcomes[0].0, outcomes[0].1) {
        let rest = outcomes.drop_first();
        assert(passes_made(true, rest) <= 1);
    }
}

/// The result of converting a sticker to gif, from whether the converter
/// exited successfully and what it wrote.
pub fn gif_result(success: bool, stdout: Vec<u8>) -> (r: Result<Blob, Failure>)
    ensures
        success ==> (r matches Ok(b) && b.ext == Ext::Gif && bytes_of(b.data) == stdout@),
        !success ==> r == Err::<Blob, Failure>(Failure::TranscodeFailed),
{
    if success {
        Ok(Blob::from_vec(stdout, Ext::Gif))
    } else {
        Err(Failure::TranscodeFailed)
    }
}

} // verus!
