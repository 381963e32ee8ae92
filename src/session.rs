use crate::engine::optimize;
use crate::path::decode_paths;
use crate::status::BridgeError;
use vstd::prelude::*;
use vstd::utf8::{decode_utf8, valid_utf8};

verus! {

/// Where an optimisation call stands.
#[derive(PartialEq, Eq, Structural, Clone, Copy, Debug)]
pub enum Stage {
    /// The input file is to be opened for reading.
    OpeningInput,
    /// The output file is to be created or truncated.
    CreatingOutput,
    /// The whole input file is to be read.
    ReadingInput,
    /// The optimised container is to be written to the output file.
    WritingOutput,
    /// The call has succeeded.
    Succeeded,
    /// The call has failed.
    Failed(BridgeError),
}

/// What the host must do next on behalf of a session.
pub enum Request {
    /// Open this path for reading.
    OpenInput(String),
    /// Create this path, truncating it if it exists.
    CreateOutput(String),
    /// Read the opened input file to its end.
    ReadInput,
    /// Write these bytes to the created output file.
    WriteOutput(Vec<u8>),
    /// Release both files and end the call with this outcome.
    Finish(Result<(), BridgeError>),
}

/// How the host's last piece of work went.
pub enum Event {
    /// The requested open, create or write succeeded.
    Completed,
    /// The requested work failed.
    Failed,
    /// The input file was read, and held these bytes.
    InputRead(Vec<u8>),
}

/// One optimisation call: the two decoded paths and the stage reached.
pub struct Session {
    stage: Stage,
    input_path: String,
    output_path: String,
}

/// What a session is, mathematically.
pub struct SessionView {
    pub stage: Stage,
    pub input_path: Seq<char>,
    pub output_path: Seq<char>,
}

impl View for Session {
    type V = SessionView;

    closed spec fn view(&self) -> SessionView {
        SessionView {
            stage: self.stage,
            input_path: self.input_path@,
            output_path: self.output_path@,
        }
    }
}

/// The stage that follows `stage` once its step has succeeded (`ok`) or
/// failed. A finished call stays as it is.
pub open spec fn next_stage(stage: Stage, ok: bool) -> Stage {
    match stage {
        Stage::OpeningInput => if ok {
            Stage::CreatingOutput
        } else {
            Stage::Failed(BridgeError::InputOpen)
        },
        Stage::CreatingOutput => if ok {
            Stage::ReadingInput
        } else {
            Stage::Failed(BridgeError::OutputOpen)
        },
        Stage::ReadingInput => if ok {
            Stage::WritingOutput
        } else {
            Stage::Failed(BridgeError::Remux)
        },
        Stage::WritingOutput => if ok {
            Stage::Succeeded
        } else {
            Stage::Failed(BridgeError::Remux)
        },
        _ => stage,
    }
}

/// The stage reached from `stage` when its steps go as `oks` says, in turn.
pub open spec fn run(stage: Stage, oks: Seq<bool>) -> Stage
    decreases oks.len(),
{
    if oks.len() == 0 {
        stage
    } else {
        run(next_stage(stage, oks[0]), oks.drop_first())
    }
}

/// Whether a stage ends the call.
pub open spec fn is_finished(stage: Stage) -> bool {
    stage is Succeeded || stage is Failed
}

/// Whether `event` reports that the step of `stage` went well, before the
/// engine has had its say on the bytes read.
pub open spec fn event_succeeded(stage: Stage, event: Event) -> bool {
    if stage is ReadingInput {
        event is InputRead
    } else {
        event is Completed
    }
}

/// `r` is the request that a session in state `v` makes of its host.
pub open spec fn requests(r: Request, v: SessionView) -> bool {
    match v.stage {
        Stage::OpeningInput => r matches Request::OpenInput(p) && p@ == v.input_path,
        Stage::CreatingOutput => r matches Request::CreateOutput(p) && p@ == v.output_path,
        Stage::ReadingInput => r is ReadInput,
        Stage::WritingOutput => r is WriteOutput,
        Stage::Succeeded => r == Request::Finish(Ok(())),
        Stage::Failed(e) => r == Request::Finish(Err(e)),
    }
}

/// A finished call stays finished, whatever the host reports afterwards.
pub proof fn lemma_finished_stays(stage: Stage, oks: Seq<bool>)
    requires
        is_finished(stage),
    ensures
        run(stage, oks) == stage,
    decreases oks.len(),
{
    if oks.len() > 0 {
        lemma_finished_stays(stage, oks.drop_first());
    }
}

/// How a call that starts on valid paths ends, step by step.
proof fn lemma_run_from_start(oks: Seq<bool>)
    ensures
        run(Stage::OpeningInput, oks) == Stage::Succeeded <==> (oks.len() >= 4 && oks[0] && oks[1]
            && oks[2] && oks[3]),
        (oks.len() >= 1 && !oks[0]) ==> run(Stage::OpeningInput, oks) == Stage::Failed(
            BridgeError::InputOpen,
        ),
        (oks.len() >= 2 && oks[0] && !oks[1]) ==> run(Stage::OpeningInput, oks) == Stage::Failed(
            BridgeError::OutputOpen,
        ),
        (oks.len() >= 3 && oks[0] && oks[1] && !oks[2]) ==> run(Stage::OpeningInput, oks)
            == Stage::Failed(BridgeError::Remux),
        (oks.len() >= 4 && oks[0] && oks[1] && oks[2] && !oks[3]) ==> run(Stage::OpeningInput, oks)
            == Stage::Failed(BridgeError::Remux),
{
    if oks.len() == 0 {
        return;
    }
    let s1 = next_stage(Stage::OpeningInput, oks[0]);
    let r1 = oks.drop_first();
    assert(run(Stage::OpeningInput, oks) == run(s1, r1));
    if !oks[0] {
        lemma_finished_stays(s1, r1);
        return;
    }
    if r1.len() == 0 {
        return;
    }
    let s2 = next_stage(s1, r1[0]);
    let r2 = r1.drop_first();
    assert(r1[0] == oks[1]);
    assert(run(s1, r1) == run(s2, r2));
    if !r1[0] {
        lemma_finished_stays(s2, r2);
        return;
    }
    if r2.len() == 0 {
        return;
    }
    let s3 = next_stage(s2, r2[0]);
    let r3 = r2.drop_first();
    assert(r2[0] == oks[2]);
    assert(run(s2, r2) == run(s3, r3));
    if !r2[0] {
        lemma_finished_stays(s3, r3);
        return;
    }
    if r3.len() == 0 {
        return;
    }
    let s4 = next_stage(s3, r3[0]);
    assert(r3[0] == oks[3]);
    assert(run(s3, r3) == run(s4, r3.drop_first()));
    lemma_finished_stays(s4, r3.drop_first());
}

/// A call that starts on valid paths succeeds exactly when its four steps
/// (open the input, create the output, read and remux, write) all succeed.
pub proof fn lemma_success_iff_every_step(oks: Seq<bool>)
    ensures
        run(Stage::OpeningInput, oks) == Stage::Succeeded <==> (oks.len() >= 4 && oks[0] && oks[1]
            && oks[2] && oks[3]),
{
    lemma_run_from_start(oks);
}

/// The error a call ends with is that of its first failing step: the input
/// could not be opened, else the output could not be created, else reading
/// or remuxing or writing failed.
pub proof fn lemma_first_failure_decides(oks: Seq<bool>)
    ensures
        (oks.len() >= 1 && !oks[0]) ==> run(Stage::OpeningInput, oks) == Stage::Failed(
            BridgeError::InputOpen,
        ),
        (oks.len() >= 2 && oks[0] && !oks[1]) ==> run(Stage::OpeningInput, oks) == Stage::Failed(
            BridgeError::OutputOpen,
        ),
        (oks.len() >= 3 && oks[0] && oks[1] && !oks[2]) ==> run(Stage::OpeningInput, oks)
            == Stage::Failed(BridgeError::Remux),
        (oks.len() >= 4 && oks[0] && oks[1] && oks[2] && !oks[3]) ==> run(Stage::OpeningInput, oks)
            == Stage::Failed(BridgeError::Remux),
{
    lemma_run_from_start(oks);
}

/// When the input cannot be opened, the call fails at once and never gets
/// as far as creating the output: after every later report it still stands
/// failed on the input.
pub proof fn lemma_input_failure_leaves_output(oks: Seq<bool>)
    requires
        oks.len() >= 1,
        !oks[0],
    ensures
        forall|k: int|
            1 <= k <= oks.len() ==> #[trigger] run(Stage::OpeningInput, oks.take(k))
                == Stage::Failed(BridgeError::InputOpen),
{
    assert forall|k: int| 1 <= k <= oks.len() implies #[trigger] run(
        Stage::OpeningInput,
        oks.take(k),
    ) == Stage::Failed(BridgeError::InputOpen) by {
        let t = oks.take(k);
        assert(t[0] == oks[0]);
        lemma_finished_stays(Stage::Failed(BridgeError::InputOpen), t.drop_first());
    }
}

/// A call whose path arguments are absent or not UTF-8 ends with that error
/// whatever follows, so it opens and creates no file.
pub proof fn lemma_bad_arguments_touch_nothing(e: BridgeError, oks: Seq<bool>)
    requires
        e == BridgeError::MissingArgument || e == BridgeError::InvalidEncoding,
    ensures
        run(Stage::Failed(e), oks) == Stage::Failed(e),
{
    lemma_finished_stays(Stage::Failed(e), oks);
}

impl Session {
    /// Starts a call on the raw input and output path arguments, where
    /// `None` stands for an absent argument. A call whose arguments are
    /// absent or not UTF-8 is finished at once and touches no file.
    pub fn start(input: Option<Vec<u8>>, output: Option<Vec<u8>>) -> (res: (Session, Request))
        ensures
            requests(res.1, res.0@),
            (input is None || output is None) ==> res.0@.stage == Stage::Failed(
                BridgeError::MissingArgument,
            ),
            (input is Some && output is Some && !(valid_utf8(input->0@) && valid_utf8(output->0@)))
                ==> res.0@.stage == Stage::Failed(BridgeError::InvalidEncoding),
            (input is Some && output is Some && valid_utf8(input->0@) && valid_utf8(output->0@))
                ==> res.0@.stage == Stage::OpeningInput && res.0@.input_path == decode_utf8(
                input->0@,
            ) && res.0@.output_path == decode_utf8(output->0@),
    {
        match decode_paths(input, output) {
            Ok((i, o)) => {
                let r = Request::OpenInput(i.clone());
                (Session { stage: Stage::OpeningInput, input_path: i, output_path: o }, r)
            },
            Err(e) => (
                Session { stage: Stage::Failed(e), input_path: String::new(), output_path: String::new() },
                Request::Finish(Err(e)),
            ),
        }
    }

    /// The stage this call has reached.
    pub fn stage(&self) -> (s: Stage)
        ensures
            s == self@.stage,
    {
        self.stage
    }

    /// Takes the outcome of remuxing the input that was read: on success the
    /// optimised bytes are to be written out, else the call fails.
    pub fn accept_remux(&mut self, res: Result<Vec<u8>, BridgeError>) -> (r: Request)
        requires
            old(self)@.stage == Stage::ReadingInput,
        ensures
            final(self)@.input_path == old(self)@.input_path,
            final(self)@.output_path == old(self)@.output_path,
            final(self)@.stage == next_stage(old(self)@.stage, res is Ok),
            requests(r, final(self)@),
            res matches Ok(b) ==> r matches Request::WriteOutput(w) && w@ == b@,
    {
        match res {
            Ok(b) => {
                self.stage = Stage::WritingOutput;
                Request::WriteOutput(b)
            },
            Err(_) => {
                self.stage = Stage::Failed(BridgeError::Remux);
                Request::Finish(Err(BridgeError::Remux))
            },
        }
    }

    /// Takes the host's report on the last request and says what to do next.
    /// The bytes read from the input are remuxed here; the engine may still
    /// reject them, and always rejects an empty input.
    pub fn advance(&mut self, event: Event) -> (r: Request)
        ensures
            final(self)@.input_path == old(self)@.input_path,
            final(self)@.output_path == old(self)@.output_path,
            requests(r, final(self)@),
            !(old(self)@.stage is ReadingInput && event is InputRead) ==> final(self)@.stage
                == next_stage(old(self)@.stage, event_succeeded(old(self)@.stage, event)),
            old(self)@.stage is ReadingInput && event is InputRead ==> (final(self)@.stage
                == next_stage(old(self)@.stage, true) || final(self)@.stage == next_stage(
                old(self)@.stage,
                false,
            )),
            (old(self)@.stage is ReadingInput && event is InputRead && event->InputRead_0@.len()
                == 0) ==> final(self)@.stage == Stage::Failed(BridgeError::Remux),
    {
        match self.stage {
            Stage::OpeningInput => match event {
                Event::Completed => {
                    self.stage = Stage::CreatingOutput;
                    Request::CreateOutput(self.output_path.clone())
                },
                _ => self.fail(BridgeError::InputOpen),
            },
            Stage::CreatingOutput => match event {
                Event::Completed => {
                    self.stage = Stage::ReadingInput;
                    Request::ReadInput
                },
                _ => self.fail(BridgeError::OutputOpen),
            },
            Stage::ReadingInput => match event {
                Event::InputRead(bytes) => {
                    let res = optimize(bytes.as_slice());
                    self.accept_remux(res)
                },
                _ => self.fail(BridgeError::Remux),
            },
            Stage::WritingOutput => match event {
                Event::Completed => {
                    self.stage = Stage::Succeeded;
                    Request::Finish(Ok(()))
                },
                _ => self.fail(BridgeError::Remux),
            },
            Stage::Succeeded => Request::Finish(Ok(())),
            Stage::Failed(e) => Request::Finish(Err(e)),
        }
    }

    fn fail(&mut self, e: BridgeError) -> (r: Request)
        ensures
            final(self)@.input_path == old(self)@.input_path,
            final(self)@.output_path == old(self)@.output_path,
            final(self)@.stage == Stage::Failed(e),
            r == Request::Finish(Err(e)),
    {
        self.stage = Stage::Failed(e);
        Request::Finish(Err(e))
    }
}

} // verus!
