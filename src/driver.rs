use crate::bytes::Endian;
use crate::error::{ConvertError, Decoded};
use crate::history::{decode_history, history_file, HistoryRecord};
use crate::temperature::{decode_temperature, temperature_file, TemperatureRecord};
use crate::velocity::{decode_velocity, velocity_file, VelocityRecord};
use vstd::prelude::*;

verus! {

/// The contents of the three binary files of one time step.
pub struct StepInput {
    pub temperature: Vec<u8>,
    pub history: Vec<u8>,
    pub velocity: Vec<u8>,
}

/// What converting one time step gave. The files are decoded in a fixed
/// order and a failure stops the step: a file after a failed one is not
/// decoded (`None`).
pub struct StepOutput {
    pub temperature: Decoded<TemperatureRecord>,
    pub history: Option<Decoded<HistoryRecord>>,
    pub velocity: Option<Decoded<VelocityRecord>>,
    pub status: Result<(), ConvertError>,
}

/// What happens after a time step whose conversion failed.
#[derive(Clone, Copy, Debug, PartialEq, Eq, Structural)]
pub enum FailurePolicy {
    /// The run ends.
    Abort,
    /// The run goes on with the next time step.
    Continue,
}

/// The decision taken for one time step of a run.
pub enum Progress {
    /// The step's files are not there: the sequence of steps has ended.
    End,
    /// The step was converted; `next` is the step to convert after it, if any.
    Converted { output: StepOutput, next: Option<u32> },
}

/// A decoding result stated as records and status.
pub open spec fn decoded_is<R>(d: Decoded<R>, want: (Seq<R>, Result<(), ConvertError>)) -> bool {
    d.records@ == want.0 && d.status == want.1
}

/// `convert_files` states what it returns over the three file decoders.
pub open spec fn step_output_is(e: Endian, input: StepInput, file_step: u32, r: StepOutput) -> bool {
    let t = temperature_file(e, input.temperature@);
    let h = history_file(e, input.history@, file_step);
    let v = velocity_file(e, input.velocity@);
    &&& decoded_is(r.temperature, t)
    &&& (t.1 is Ok <==> r.history is Some)
    &&& (r.history is Some ==> decoded_is(r.history->Some_0, h))
    &&& (t.1 is Ok && h.1 is Ok <==> r.velocity is Some)
    &&& (r.velocity is Some ==> decoded_is(r.velocity->Some_0, v))
    &&& r.status == if t.1 is Err {
        t.1
    } else if h.1 is Err {
        h.1
    } else {
        v.1
    }
}

/// Converts the three files of time step `file_step`: temperature field,
/// time history, velocity, in that order, stopping at the first failure.
pub fn convert_files(e: Endian, input: &StepInput, file_step: u32) -> (r: StepOutput)
    ensures
        step_output_is(e, *input, file_step, r),
{
    let temperature = decode_temperature(e, input.temperature.as_slice());
    if let Err(x) = temperature.status {
        return StepOutput { temperature, history: None, velocity: None, status: Err(x) };
    }
    let history = decode_history(e, input.history.as_slice(), file_step);
    if let Err(x) = history.status {
        return StepOutput { temperature, history: Some(history), velocity: None, status: Err(x) };
    }
    let velocity = decode_velocity(e, input.velocity.as_slice());
    let status = velocity.status;
    StepOutput { temperature, history: Some(history), velocity: Some(velocity), status }
}

/// The step after `step`, if the run goes on after a step that ended with
/// `status`.
pub open spec fn next_step(step: u32, status: Result<(), ConvertError>, policy: FailurePolicy) -> Option<u32> {
    if (status is Ok || policy == FailurePolicy::Continue) && step < u32::MAX {
        Some((step + 1) as u32)
    } else {
        None
    }
}

/// Decides one time step of a run: with no input the run has ended;
/// otherwise the step is converted and the next step chosen by its outcome
/// and `policy`.
pub fn process_files(e: Endian, step: u32, input: Option<StepInput>, policy: FailurePolicy) -> (r: Progress)
    ensures
        input is None <==> r is End,
        input is Some ==> ({
            let output = r->output;
            &&& step_output_is(e, input->Some_0, step, output)
            &&& r->next == next_step(step, output.status, policy)
        }),
{
    match input {
        None => Progress::End,
        Some(files) => {
            let output = convert_files(e, &files, step);
            let go_on = match output.status {
                Ok(()) => true,
                Err(_) => match policy {
                    FailurePolicy::Abort => false,
                    FailurePolicy::Continue => true,
                },
            };
            let next = if go_on && step < u32::MAX {
                Some(step + 1)
            } else {
                None
            };
            Progress::Converted { output, next }
        },
    }
}

} // verus!
