//! One execution of a generator inside an ephemeral container.

use vstd::prelude::*;
use super::{container_name, ContainerSpec, Runner, CONTAINER_CPUS, CONTAINER_MEMORY_BYTES, UUID_TEXT_LEN};
use vstd::string::StringExecFns;
use vstd::utf8::{decode_utf8, valid_utf8};

verus! {

/// `u8::is_ascii_whitespace`: space, tab, line feed, form feed, carriage return.
pub open spec fn is_ascii_ws(b: u8) -> bool {
    b == 0x20 || b == 0x09 || b == 0x0a || b == 0x0c || b == 0x0d
}

/// Length of `s` once its trailing ASCII whitespace is cut off.
pub open spec fn trimmed_len(s: Seq<u8>) -> nat
    decreases s.len(),
{
    if s.len() == 0 {
        0
    } else if is_ascii_ws(s.last()) {
        trimmed_len(s.drop_last())
    } else {
        s.len()
    }
}

/// Index of the last line feed in `s`, or -1 when it holds none.
pub open spec fn last_newline(s: Seq<u8>) -> int
    decreases s.len(),
{
    if s.len() == 0 {
        -1
    } else if s.last() == 0x0a {
        s.len() - 1
    } else {
        last_newline(s.drop_last())
    }
}

/// The last line of `s` after trailing whitespace is trimmed: what follows the
/// last line feed, or the whole trimmed text when there is none.
pub open spec fn final_line(s: Seq<u8>) -> Seq<u8> {
    let t = s.subrange(0, trimmed_len(s) as int);
    t.subrange(last_newline(t) + 1, t.len() as int)
}

/// The final line of a generator's standard output, where it prints its cases.
pub fn final_line_of(out: &[u8]) -> (line: Vec<u8>)
    ensures
        line@ == final_line(out@),
{
    let mut end: usize = out.len();
    assert(out@.subrange(0, end as int) =~= out@);
    while end > 0 && (out[end - 1] == 0x20 || out[end - 1] == 0x09 || out[end - 1] == 0x0a
        || out[end - 1] == 0x0c || out[end - 1] == 0x0d)
        invariant
            end <= out@.len(),
            trimmed_len(out@) == trimmed_len(out@.subrange(0, end as int)),
        decreases end,
    {
        assert(out@.subrange(0, end as int).drop_last() =~= out@.subrange(0, end - 1));
        end = end - 1;
    }
    let ghost t = out@.subrange(0, end as int);
    assert(trimmed_len(out@) == end);
    let mut start: usize = end;
    while start > 0 && out[start - 1] != 0x0a
        invariant
            start <= end <= out@.len(),
            t == out@.subrange(0, end as int),
            last_newline(t) == last_newline(out@.subrange(0, start as int)),
        decreases start,
    {
        assert(out@.subrange(0, start as int).drop_last() =~= out@.subrange(0, start - 1));
        start = start - 1;
    }
    let mut line: Vec<u8> = Vec::new();
    let mut i: usize = start;
    while i < end
        invariant
            start <= i <= end <= out@.len(),
            line@ == out@.subrange(start as int, i as int),
        decreases end - i,
    {
        line.push(out[i]);
        i = i + 1;
        assert(line@ =~= out@.subrange(start as int, i as int));
    }
    assert(line@ =~= final_line(out@));
    line
}

/// The channel a chunk of container output was tagged with.
#[derive(Clone, Copy, Debug, PartialEq, Eq, Structural)]
pub enum Channel {
    StdIn,
    StdOut,
    StdErr,
}

/// One chunk of the container's attached output stream.
#[derive(Debug)]
pub struct OutputChunk {
    pub channel: Channel,
    pub data: Vec<u8>,
}

/// The bytes that `chunks` carry on `channel`, in stream order.
pub open spec fn channel_bytes(chunks: Seq<OutputChunk>, channel: Channel) -> Seq<u8>
    decreases chunks.len(),
{
    if chunks.len() == 0 {
        Seq::empty()
    } else {
        let rest = channel_bytes(chunks.drop_last(), channel);
        if chunks.last().channel == channel {
            rest + chunks.last().data@
        } else {
            rest
        }
    }
}

/// Output isolation: a chunk of one channel, wherever it is interleaved in the
/// stream, adds nothing to the bytes of any other channel.
pub proof fn lemma_output_isolation(
    before: Seq<OutputChunk>,
    chunk: OutputChunk,
    after: Seq<OutputChunk>,
    channel: Channel,
)
    requires
        chunk.channel != channel,
    ensures
        channel_bytes(before + seq![chunk] + after, channel) == channel_bytes(before + after, channel),
    decreases after.len(),
{
    if after.len() == 0 {
        assert(before + seq![chunk] + after =~= before.push(chunk));
        assert(before.push(chunk).drop_last() =~= before);
        assert(before + after =~= before);
    } else {
        let shorter = after.drop_last();
        lemma_output_isolation(before, chunk, shorter, channel);
        assert((before + seq![chunk] + after).drop_last() =~= before + seq![chunk] + shorter);
        assert((before + after).drop_last() =~= before + shorter);
    }
}

/// Standard output and standard error of a container, split by channel tag.
pub struct OutputCapture {
    pub stdout: Vec<u8>,
    pub stderr: Vec<u8>,
    pub chunks: Ghost<Seq<OutputChunk>>,
}

impl OutputCapture {
    /// Each buffer holds exactly the bytes of its channel, in stream order.
    pub open spec fn wf(&self) -> bool {
        &&& self.stdout@ == channel_bytes(self.chunks@, Channel::StdOut)
        &&& self.stderr@ == channel_bytes(self.chunks@, Channel::StdErr)
    }

    pub fn new() -> (r: OutputCapture)
        ensures
            r.wf(),
            r.chunks@ == Seq::<OutputChunk>::empty(),
            r.stdout@ == Seq::<u8>::empty(),
            r.stderr@ == Seq::<u8>::empty(),
    {
        OutputCapture { stdout: Vec::new(), stderr: Vec::new(), chunks: Ghost(Seq::empty()) }
    }

    /// Appends a chunk to the buffer of its channel; input-channel bytes are dropped.
    pub fn push(&mut self, chunk: OutputChunk)
        requires
            old(self).wf(),
        ensures
            final(self).wf(),
            final(self).chunks@ == old(self).chunks@.push(chunk),
    {
        let ghost all = self.chunks@.push(chunk);
        proof {
            assert(all.drop_last() =~= self.chunks@);
        }
        let OutputChunk { channel, data } = chunk;
        let mut data = data;
        match channel {
            Channel::StdIn => {},
            Channel::StdOut => {
                self.stdout.append(&mut data);
            },
            Channel::StdErr => {
                self.stderr.append(&mut data);
            },
        }
        self.chunks = Ghost(all);
    }
}

/// What `String::from_utf8_lossy` makes of a byte sequence.
pub uninterp spec fn utf8_lossy(bytes: Seq<u8>) -> Seq<char>;

/// Relies on `String::from_utf8_lossy`: a total decoding that depends on the
/// bytes alone and decodes valid UTF-8 as it is.
#[verifier::external_body]
fn lossy_text(bytes: &[u8]) -> (text: String)
    ensures
        text@ == utf8_lossy(bytes@),
        valid_utf8(bytes@) ==> text@ == decode_utf8(bytes@),
{
    String::from_utf8_lossy(bytes).into_owned()
}

/// A generator run that exited with a non-zero status.
#[derive(Debug)]
pub struct ExecutionError {
    pub exit_code: isize,
    pub stdout: String,
    pub stderr: String,
}

/// A generator run that exited cleanly: its cases are the JSON text of the
/// last line it printed.
#[derive(Debug)]
pub struct GeneratedOutput {
    pub cases_json: Vec<u8>,
    pub stdout: String,
    pub stderr: String,
}

/// The outcome of one execution: exactly one of success or failure.
#[derive(Debug)]
pub enum ExecutionOutcome {
    Success(GeneratedOutput),
    Failure(ExecutionError),
}

/// The exit code reported for a run, `-1` when the runtime gave none.
pub open spec fn effective_exit_code(status: Option<isize>) -> isize {
    match status {
        Some(code) => code,
        None => -1isize,
    }
}

/// Exactly what the classification of a run yields.
pub open spec fn classified(exit_code: isize, stdout: Seq<u8>, stderr: Seq<u8>, r: ExecutionOutcome) -> bool {
    if exit_code == 0 {
        &&& r matches ExecutionOutcome::Success(o)
        &&& o.cases_json@ == final_line(stdout)
        &&& o.stdout@ == utf8_lossy(stdout)
        &&& o.stderr@ == utf8_lossy(stderr)
    } else {
        &&& r matches ExecutionOutcome::Failure(e)
        &&& e.exit_code == exit_code
        &&& e.stdout@ == utf8_lossy(stdout)
        &&& e.stderr@ == utf8_lossy(stderr)
    }
}

/// Classifies a finished run by its exit code: zero is a success whose cases
/// are the final line of standard output, anything else a failure that keeps
/// both streams as they are.
pub fn classify(exit_code: isize, stdout: &[u8], stderr: &[u8]) -> (r: ExecutionOutcome)
    ensures
        classified(exit_code, stdout@, stderr@, r),
{
    if exit_code == 0 {
        let cases_json = final_line_of(stdout);
        ExecutionOutcome::Success(GeneratedOutput {
            cases_json,
            stdout: lossy_text(stdout),
            stderr: lossy_text(stderr),
        })
    } else {
        ExecutionOutcome::Failure(ExecutionError {
            exit_code,
            stdout: lossy_text(stdout),
            stderr: lossy_text(stderr),
        })
    }
}

/// Exactly one outcome: every exit status, reported or not, classifies as a
/// success precisely when it is zero and as a failure otherwise.
pub proof fn lemma_exactly_one_outcome(
    status: Option<isize>,
    stdout: Seq<u8>,
    stderr: Seq<u8>,
    r: ExecutionOutcome,
)
    requires
        classified(effective_exit_code(status), stdout, stderr, r),
    ensures
        (r is Success) != (r is Failure),
        r is Success <==> status == Some(0isize),
        r matches ExecutionOutcome::Failure(e) ==> e.exit_code == effective_exit_code(status),
{
}

/// The type of a generator input or output.
#[derive(Clone, Copy, Debug, PartialEq, Eq, Structural)]
pub enum Type {
    Int,
    Float,
    String,
}

/// What a harness is rendered from: the user's generator code, its type
/// signature and how many cases of each kind to produce.
#[derive(Debug)]
pub struct ExecConfig<'a> {
    pub content: &'a str,
    pub inputs: Vec<Type>,
    pub output: Type,
    pub hidden_cases: u16,
    pub visible_cases: u16,
    pub generate_cases: u16,
}

/// Where the rendered harness, the container's entry point, is placed.
pub open spec fn harness_path() -> Seq<char> {
    "/runner/main.py"@
}

/// Where the user's generator code, which the harness imports, is placed.
pub open spec fn code_path() -> Seq<char> {
    "/runner/gen.py"@
}

/// The step an execution is at: the one whose work is outstanding.
#[derive(Clone, Copy, Debug, PartialEq, Eq, Structural)]
pub enum Stage {
    Create,
    InjectHarness,
    InjectCode,
    Attach,
    Start,
    Drain,
    Wait,
    Inspect,
    Cleanup,
    Done,
}

/// The work an execution asks of the container runtime next.
#[derive(Debug)]
pub enum Action {
    CreateContainer(ContainerSpec),
    CopyFile { path: String, contents: String },
    /// Open the container's output stream; it must be open before the start.
    Attach,
    Start,
    /// Read the next chunk of the attached stream.
    ReadOutput,
    Wait,
    /// Read the container's exit status.
    Inspect,
    RemoveContainer,
    Finish,
}

/// What the container runtime reports back for the last action.
#[derive(Debug)]
pub enum Event {
    Completed,
    Output(OutputChunk),
    /// The attached stream is exhausted: the process has exited.
    OutputEnd,
    /// The exit status, when the runtime reported one.
    Exited(Option<isize>),
    /// The action failed, was cancelled or timed out.
    Failed(String),
}

/// An infrastructure failure that aborted an execution.
#[derive(Debug)]
pub struct PipelineError {
    /// The step whose work failed.
    pub stage: Stage,
    pub message: String,
}

/// The step an execution moves to when `event` answers the work of `stage`.
/// Each step follows the one before; a failure or an unexpected answer once
/// the container exists leads to its removal.
pub open spec fn next_stage(stage: Stage, event: Event) -> Stage {
    match stage {
        Stage::Create => if event is Completed {
            Stage::InjectHarness
        } else {
            Stage::Done
        },
        Stage::InjectHarness => if event is Completed {
            Stage::InjectCode
        } else {
            Stage::Cleanup
        },
        Stage::InjectCode => if event is Completed {
            Stage::Attach
        } else {
            Stage::Cleanup
        },
        Stage::Attach => if event is Completed {
            Stage::Start
        } else {
            Stage::Cleanup
        },
        Stage::Start => if event is Completed {
            Stage::Drain
        } else {
            Stage::Cleanup
        },
        Stage::Drain => if event is Output {
            Stage::Drain
        } else if event is OutputEnd {
            Stage::Wait
        } else {
            Stage::Cleanup
        },
        Stage::Wait => if event is Completed {
            Stage::Inspect
        } else {
            Stage::Cleanup
        },
        Stage::Inspect => Stage::Cleanup,
        Stage::Cleanup => Stage::Done,
        Stage::Done => Stage::Done,
    }
}

/// `action` is the work of `stage`, for an execution of `harness` and `code`.
pub open spec fn starts(stage: Stage, action: Action, harness: Seq<char>, code: Seq<char>) -> bool {
    match stage {
        Stage::Create => action is CreateContainer,
        Stage::InjectHarness => (action matches Action::CopyFile { path, contents } && path@
            == harness_path() && contents@ == harness),
        Stage::InjectCode => (action matches Action::CopyFile { path, contents } && path@
            == code_path() && contents@ == code),
        Stage::Attach => action is Attach,
        Stage::Start => action is Start,
        Stage::Drain => action is ReadOutput,
        Stage::Wait => action is Wait,
        Stage::Inspect => action is Inspect,
        Stage::Cleanup => action is RemoveContainer,
        Stage::Done => action is Finish,
    }
}

/// The result an execution settles on when `event` ends the work of `stage`:
/// the classified outcome once the exit status is in, an error naming the
/// failed step otherwise.
pub open spec fn settles(
    stage: Stage,
    event: Event,
    stdout: Seq<u8>,
    stderr: Seq<u8>,
    r: Result<ExecutionOutcome, PipelineError>,
) -> bool {
    if stage is Inspect && event is Exited {
        (event matches Event::Exited(status) && r matches Ok(o) && classified(
            effective_exit_code(status),
            stdout,
            stderr,
            o,
        ))
    } else {
        &&& r matches Err(e)
        &&& r->Err_0.stage == stage
        &&& event matches Event::Failed(m) ==> r->Err_0.message@ == m@
    }
}

/// One execution of a generator, from creating its container to removing it.
pub struct Execution {
    stage: Stage,
    harness: String,
    code: String,
    capture: OutputCapture,
    result: Option<Result<ExecutionOutcome, PipelineError>>,
    harness_text: Ghost<Seq<char>>,
    code_text: Ghost<Seq<char>>,
}

impl Execution {
    #[verifier::type_invariant]
    spec fn inv(self) -> bool {
        &&& self.capture.wf()
        &&& self.stage is Create ==> self.harness@ == self.harness_text@
        &&& (self.stage is Create || self.stage is InjectHarness) ==> self.code@ == self.code_text@
        &&& (self.stage is Cleanup || self.stage is Done) <==> self.result is Some
    }

    pub closed spec fn stage(self) -> Stage {
        self.stage
    }

    /// The rendered harness this execution runs.
    pub closed spec fn harness(self) -> Seq<char> {
        self.harness_text@
    }

    /// The user code this execution runs.
    pub closed spec fn code(self) -> Seq<char> {
        self.code_text@
    }

    /// The output chunks read so far.
    pub closed spec fn chunks(self) -> Seq<OutputChunk> {
        self.capture.chunks@
    }

    /// The result, once the execution has settled on one.
    pub closed spec fn result(self) -> Option<Result<ExecutionOutcome, PipelineError>> {
        self.result
    }

    /// Starts an execution of `harness` and `code` on `runner`'s image: the
    /// first action creates a freshly named container.
    pub fn begin(runner: &Runner, harness: &str, code: &str) -> (r: (Execution, Action))
        ensures
            r.0.stage() == Stage::Create,
            r.0.harness() == harness@,
            r.0.code() == code@,
            r.0.chunks() == Seq::<OutputChunk>::empty(),
            r.0.result() is None,
            r.1 matches Action::CreateContainer(spec) && {
                &&& spec.image@ == runner.image_id@
                &&& spec.network@ == runner.network_id@
                &&& spec.cpus == CONTAINER_CPUS
                &&& spec.memory_bytes == CONTAINER_MEMORY_BYTES
                &&& !spec.privileged
                &&& exists|suffix: Seq<char>|
                    suffix.len() == UUID_TEXT_LEN && spec.name@ == container_name(
                        runner.container_name_prefix@,
                        runner.lang.name@,
                        suffix,
                    )
            },
    {
        let spec = runner.new_container();
        let execution = Execution {
            stage: Stage::Create,
            harness: String::from_str(harness),
            code: String::from_str(code),
            capture: OutputCapture::new(),
            result: None,
            harness_text: Ghost(harness@),
            code_text: Ghost(code@),
        };
        (execution, Action::CreateContainer(spec))
    }

    /// Takes the runtime's answer to the last action and returns the
    /// execution's next step with the action it asks for.
    pub fn advance(self, event: Event) -> (r: (Execution, Action))
        requires
            self.stage() != Stage::Done,
        ensures
            r.0.stage() == next_stage(self.stage(), event),
            starts(r.0.stage(), r.1, self.harness(), self.code()),
            r.0.harness() == self.harness(),
            r.0.code() == self.code(),
            r.0.chunks() == if self.stage() is Drain && event is Output {
                self.chunks().push(event->Output_0)
            } else {
                self.chunks()
            },
            self.stage() is Cleanup ==> r.0.result() == self.result(),
            !(self.stage() is Cleanup) && (r.0.stage() is Cleanup || r.0.stage() is Done)
                ==> (r.0.result() matches Some(res) && settles(
                self.stage(),
                event,
                channel_bytes(self.chunks(), Channel::StdOut),
                channel_bytes(self.chunks(), Channel::StdErr),
                res,
            )),
    {
        proof {
            use_type_invariant(&self);
        }
        let Execution { stage, harness, code, capture, result, harness_text, code_text } = self;
        let mut capture = capture;
        match (stage, event) {
            (Stage::Create, Event::Completed) => {
                let action = Action::CopyFile { path: String::from_str("/runner/main.py"), contents: harness };
                let next = Execution {
                    stage: Stage::InjectHarness,
                    harness: String::new(),
                    code,
                    capture,
                    result,
                    harness_text,
                    code_text,
                };
                (next, action)
            },
            (Stage::InjectHarness, Event::Completed) => {
                let action = Action::CopyFile { path: String::from_str("/runner/gen.py"), contents: code };
                let next = Execution {
                    stage: Stage::InjectCode,
                    harness,
                    code: String::new(),
                    capture,
                    result,
                    harness_text,
                    code_text,
                };
                (next, action)
            },
            (Stage::InjectCode, Event::Completed) => {
                let next = Execution { stage: Stage::Attach, harness, code, capture, result, harness_text, code_text };
                (next, Action::Attach)
            },
            (Stage::Attach, Event::Completed) => {
                let next = Execution { stage: Stage::Start, harness, code, capture, result, harness_text, code_text };
                (next, Action::Start)
            },
            (Stage::Start, Event::Completed) => {
                let next = Execution { stage: Stage::Drain, harness, code, capture, result, harness_text, code_text };
                (next, Action::ReadOutput)
            },
            (Stage::Drain, Event::Output(chunk)) => {
                capture.push(chunk);
                let next = Execution { stage: Stage::Drain, harness, code, capture, result, harness_text, code_text };
                (next, Action::ReadOutput)
            },
            (Stage::Drain, Event::OutputEnd) => {
                let next = Execution { stage: Stage::Wait, harness, code, capture, result, harness_text, code_text };
                (next, Action::Wait)
            },
            (Stage::Wait, Event::Completed) => {
                let next = Execution { stage: Stage::Inspect, harness, code, capture, result, harness_text, code_text };
                (next, Action::Inspect)
            },
            (Stage::Inspect, Event::Exited(status)) => {
                let exit_code: isize = match status {
                    Some(code) => code,
                    None => -1,
                };
                let outcome = classify(exit_code, capture.stdout.as_slice(), capture.stderr.as_slice());
                let next = Execution {
                    stage: Stage::Cleanup,
                    harness,
                    code,
                    capture,
                    result: Some(Ok(outcome)),
                    harness_text,
                    code_text,
                };
                (next, Action::RemoveContainer)
            },
            (Stage::Cleanup, _) => {
                let next = Execution { stage: Stage::Done, harness, code, capture, result, harness_text, code_text };
                (next, Action::Finish)
            },
            (stage, event) => {
                let error = PipelineError { stage, message: failure_message(event) };
                if stage == Stage::Create {
                    let next = Execution {
                        stage: Stage::Done,
                        harness,
                        code,
                        capture,
                        result: Some(Err(error)),
                        harness_text,
                        code_text,
                    };
                    (next, Action::Finish)
                } else {
                    let next = Execution {
                        stage: Stage::Cleanup,
                        harness,
                        code,
                        capture,
                        result: Some(Err(error)),
                        harness_text,
                        code_text,
                    };
                    (next, Action::RemoveContainer)
                }
            },
        }
    }

    /// The result of a finished execution.
    pub fn finish(self) -> (r: Result<ExecutionOutcome, PipelineError>)
        requires
            self.stage() == Stage::Done,
        ensures
            self.result() == Some(r),
    {
        proof {
            use_type_invariant(&self);
        }
        match self.result {
            Some(r) => r,
            None => Err(PipelineError { stage: Stage::Done, message: String::new() }),
        }
    }
}

/// The message of a failed step: the runtime's own for a failure, a fixed one
/// for an answer that does not fit the step.
fn failure_message(event: Event) -> (m: String)
    ensures
        event matches Event::Failed(text) ==> m@ == text@,
{
    match event {
        Event::Failed(text) => text,
        _ => String::from_str("unexpected answer from the container runtime"),
    }
}

/// The step an execution is at after the runtime answered with `events`.
pub open spec fn stage_after(events: Seq<Event>) -> Stage
    decreases events.len(),
{
    if events.len() == 0 {
        Stage::Create
    } else {
        next_stage(stage_after(events.drop_last()), events.last())
    }
}

/// How many setup steps lie before `stage`, for the steps up to the start.
pub open spec fn setup_rank(stage: Stage) -> Option<nat> {
    match stage {
        Stage::Create => Some(0),
        Stage::InjectHarness => Some(1),
        Stage::InjectCode => Some(2),
        Stage::Attach => Some(3),
        Stage::Start => Some(4),
        _ => None,
    }
}

proof fn lemma_setup_prefix(events: Seq<Event>)
    ensures
        setup_rank(stage_after(events)) matches Some(k) ==> events.len() == k && forall|i: int|
            0 <= i < k ==> #[trigger] events[i] is Completed,
    decreases events.len(),
{
    if events.len() > 0 {
        let prefix = events.drop_last();
        lemma_setup_prefix(prefix);
        if setup_rank(stage_after(events)) is Some {
            assert forall|i: int| 0 <= i < events.len() implies #[trigger] events[i] is Completed by {
                if i < prefix.len() {
                    assert(events[i] == prefix[i]);
                }
            }
        }
    }
}

/// Ordering: the start is asked for only once the container was created, the
/// harness and the user code were injected and the output stream was opened,
/// each of them completed, in that order.
pub proof fn lemma_start_after_setup(events: Seq<Event>)
    requires
        stage_after(events) == Stage::Start,
    ensures
        events.len() == 4,
        forall|i: int| 0 <= i < 4 ==> #[trigger] events[i] is Completed,
{
    lemma_setup_prefix(events);
}

/// Cleanup: an execution whose container was created reaches its end only by
/// way of the container's removal, whatever failed on the way.
pub proof fn lemma_removed_before_finish(events: Seq<Event>)
    requires
        events.len() > 0,
        events[0] is Completed,
        stage_after(events) == Stage::Done,
        stage_after(events.drop_last()) != Stage::Done,
    ensures
        stage_after(events.drop_last()) == Stage::Cleanup,
{
    let prefix = events.drop_last();
    lemma_setup_prefix(prefix);
    if stage_after(prefix) == Stage::Create {
        assert(prefix.len() == 0);
        assert(events.last() == events[0]);
    }
}

} // verus!
