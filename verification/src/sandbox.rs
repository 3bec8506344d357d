//! What is asked of the runner of decoders, and what its answer means.
//!
//! The runner starts a fresh, isolated machine for every request, bounded in
//! cycles and memory, runs the decoder's binary in it with the arguments of
//! the request, and answers with the decoder's exit status and what it wrote
//! to its standard output.

use crate::cache::{DecoderArtifact, DecoderArtifactModel};
use crate::error::Error;
use crate::hex::{encode_hex, hex_encoded};
use crate::pattern::{ExtractedTrait, ExtractedTraitModel, ExtractedTraits};
use crate::text::chars_of;
use vstd::prelude::*;

verus! {

/// One run of a decoder: the path of its binary, and its arguments.
#[derive(Debug, Clone, PartialEq, Eq)]
pub struct RunRequest {
    pub path: String,
    pub args: Vec<String>,
}

/// What a `RunRequest` stands for.
pub struct RunRequestModel {
    pub path: Seq<char>,
    pub args: Seq<Seq<char>>,
}

impl View for RunRequest {
    type V = RunRequestModel;

    open spec fn view(&self) -> RunRequestModel {
        RunRequestModel {
            path: self.path@,
            args: Seq::new(self.args@.len(), |i: int| self.args@[i]@),
        }
    }
}

/// The run that renders `traits` with the decoder `artifact`: its binary is
/// run with one argument for each slice, in their order.
pub open spec fn run_request_of(
    artifact: DecoderArtifactModel,
    traits: Seq<ExtractedTraitModel>,
) -> RunRequestModel {
    RunRequestModel {
        path: artifact.path,
        args: Seq::new(traits.len(), |i: int| argument_of(traits[i])),
    }
}

/// How a run of a decoder ended.
#[derive(Debug, Clone, PartialEq, Eq)]
pub enum RunOutcome {
    /// The runner could not start the decoder.
    LaunchFailed,
    /// The runner stopped the decoder, which had used up its cycles or its
    /// memory.
    BoundsExceeded,
    /// The decoder ran to its end.
    Exited { status: i32, stdout: String },
}

/// The argument that hands one slice of the DNA to the decoder: the slice in
/// lower-case hexadecimal, after the name of its transform and a `=` where
/// it has one.
pub open spec fn argument_of(slice: ExtractedTraitModel) -> Seq<char> {
    match slice.transform {
        Some(name) => name + seq!['='] + hex_encoded(slice.value),
        None => hex_encoded(slice.value),
    }
}

/// Whether `c` leaves a line empty: a blank, a tab, or the end of a line.
pub open spec fn is_blank(c: char) -> bool {
    c == ' ' || c == '\t' || c == '\n' || c == '\r'
}

/// Whether `text` holds a line that is not empty.
pub open spec fn holds_line(text: Seq<char>) -> bool {
    exists|i: int| 0 <= i < text.len() && !is_blank(#[trigger] text[i])
}

/// What `execute` answers: what the decoder rendered, or the failure.
pub open spec fn rendered(outcome: RunOutcome) -> Result<Seq<char>, Error> {
    match outcome {
        RunOutcome::LaunchFailed => Err(Error::DecoderExecutionError),
        RunOutcome::BoundsExceeded => Err(Error::DecoderExecutionError),
        RunOutcome::Exited { status, stdout } => if status != 0 {
            Err(Error::DecoderExecutionInternalError)
        } else if !holds_line(stdout@) {
            Err(Error::DecoderOutputInvalid)
        } else {
            Ok(stdout@)
        },
    }
}

/// The argument that hands `slice` to the decoder.
pub fn argument(slice: &ExtractedTrait) -> (text: String)
    ensures
        text@ == argument_of(slice@),
{
    let value = encode_hex(slice.value.as_slice());
    match &slice.transform {
        Some(name) => {
            proof {
                reveal_strlit("=");
            }
            let mut text = name.clone();
            text.append("=");
            text.append(value.as_str());
            assert("="@ =~= seq!['=']);
            text
        },
        None => value,
    }
}

/// The run that renders `traits` with the decoder `artifact`.
pub fn run_request(artifact: &DecoderArtifact, traits: &ExtractedTraits) -> (request: RunRequest)
    ensures
        request@ == run_request_of(artifact@, traits@),
{
    let mut args: Vec<String> = Vec::new();
    let mut i: usize = 0;
    while i < traits.traits.len()
        invariant
            i <= traits.traits.len(),
            args@.len() == i,
            forall|k: int| 0 <= k < i ==> (#[trigger] args@[k])@ == argument_of(traits@[k]),
        decreases traits.traits.len() - i,
    {
        args.push(argument(&traits.traits[i]));
        i += 1;
    }
    let request = RunRequest { path: artifact.path.clone(), args };
    assert(request@.args =~= run_request_of(artifact@, traits@).args);
    request
}

impl RunRequest {
    /// A second request for the same run.
    pub fn copy(&self) -> (copy: RunRequest)
        ensures
            copy@ == self@,
    {
        let mut args: Vec<String> = Vec::new();
        let mut i: usize = 0;
        while i < self.args.len()
            invariant
                i <= self.args.len(),
                args@.len() == i,
                forall|k: int| 0 <= k < i ==> (#[trigger] args@[k])@ == self.args@[k]@,
            decreases self.args.len() - i,
        {
            args.push(self.args[i].clone());
            i += 1;
        }
        let copy = RunRequest { path: self.path.clone(), args };
        assert(copy@.args =~= self@.args);
        copy
    }
}

/// Whether `text` holds a line that is not empty.
pub fn has_line(text: &str) -> (held: bool)
    ensures
        held == holds_line(text@),
{
    let chars = chars_of(text);
    let mut i: usize = 0;
    while i < chars.len()
        invariant
            chars@ == text@,
            i <= chars.len(),
            forall|k: int| 0 <= k < i ==> is_blank(#[trigger] text@[k]),
        decreases chars.len() - i,
    {
        let c = chars[i];
        if !(c == ' ' || c == '\t' || c == '\n' || c == '\r') {
            return true;
        }
        i += 1;
    }
    false
}

/// Reads the answer of the runner.
///
/// A run that could not be started, or that was stopped at its bounds, fails
/// with `DecoderExecutionError`. A decoder that ran and ended with another
/// status than 0 fails with `DecoderExecutionInternalError`. One that ended
/// with status 0 and wrote no line that is not empty fails with
/// `DecoderOutputInvalid`. Otherwise what the decoder wrote is the result.
pub fn execute(outcome: RunOutcome) -> (text: Result<String, Error>)
    ensures
        match text {
            Ok(text) => rendered(outcome) == Ok::<Seq<char>, Error>(text@),
            Err(error) => rendered(outcome) == Err::<Seq<char>, Error>(error),
        },
{
    match outcome {
        RunOutcome::LaunchFailed => Err(Error::DecoderExecutionError),
        RunOutcome::BoundsExceeded => Err(Error::DecoderExecutionError),
        RunOutcome::Exited { status, stdout } => {
            if status != 0 {
                Err(Error::DecoderExecutionInternalError)
            } else if !has_line(stdout.as_str()) {
                Err(Error::DecoderOutputInvalid)
            } else {
                Ok(stdout)
            }
        },
    }
}

} // verus!
