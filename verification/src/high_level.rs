//! The high-level operations (open a file or a buffer, develop with default or
//! given parameters, open-develop-save as TIFF) as plans of LibRaw calls, and
//! the machine that runs a plan: it hands out one call at a time and stops at
//! the first call that fails, whose error becomes the operation's result.
//!
//! The calls themselves are made by the caller, which reports each call's
//! outcome back to [`Pipeline::next`].
use vstd::prelude::*;
use crate::error::Result;
use crate::params::{is_default_params, lemma_default_params_unique, OutputParams};

verus! {

/// One LibRaw call of a plan.
#[derive(Debug, Clone, Copy)]
pub enum Step {
    /// Create a context with the given flags (`libraw_init`).
    Init(u32),
    /// Open the input file (`libraw_open_file`).
    OpenFile,
    /// Open the input buffer (`libraw_open_buffer`).
    OpenBuffer,
    /// Store the output parameters in the context; this cannot fail.
    SetParams(OutputParams),
    /// Decode the raw data (`libraw_unpack`).
    Unpack,
    /// Develop the image (`libraw_dcraw_process`).
    DcrawProcess,
    /// Write the developed image as TIFF (`libraw_dcraw_ppm_tiff_writer`).
    SaveTiff,
}

/// What the caller of [`Pipeline::next`] has to do.
#[derive(Debug)]
pub enum Action {
    /// Make this call and report its outcome.
    Perform(Step),
    /// The operation is over with this result.
    Finish(Result<()>),
}

/// A plan of LibRaw calls being run.
pub struct Pipeline {
    steps: Vec<Step>,
    performed: usize,
    finished: bool,
}

/// State of a run: the plan, the number of calls handed out, and whether the run is over.
pub type PipelineView = (Seq<Step>, nat, bool);

/// One transition of the machine: `outcome` is the outcome of the call handed
/// out last (success when none has been handed out yet).
pub open spec fn next_state(v: PipelineView, outcome: Result<()>) -> (PipelineView, Action) {
    if outcome is Err {
        ((v.0, v.1, true), Action::Finish(outcome))
    } else if v.1 < v.0.len() {
        ((v.0, v.1 + 1, false), Action::Perform(v.0[v.1 as int]))
    } else {
        ((v.0, v.1, true), Action::Finish(Ok(())))
    }
}

/// The actions that a machine in state `v` hands out when it is given the
/// outcomes `inputs` one after the other, until it finishes.
pub open spec fn drive(v: PipelineView, inputs: Seq<Result<()>>) -> Seq<Action>
    decreases inputs.len(),
{
    if inputs.len() == 0 || v.2 {
        Seq::empty()
    } else {
        let (v2, a) = next_state(v, inputs[0]);
        seq![a] + drive(v2, inputs.drop_first())
    }
}

/// Position of the first failed outcome among `inputs[p..=n]`, or `n + 1` when none failed.
pub open spec fn first_error(p: int, n: int, inputs: Seq<Result<()>>) -> int
    decreases n + 1 - p,
{
    if p > n {
        n + 1
    } else if inputs[p] is Err {
        p
    } else {
        first_error(p + 1, n, inputs)
    }
}

/// Number of calls of an `n`-call plan that are made, when `inputs[0]` is
/// success and `inputs[i + 1]` is the outcome of call `i`.
pub open spec fn calls_made(n: nat, inputs: Seq<Result<()>>) -> nat {
    let f = first_error(0, n as int, inputs);
    if f <= n {
        f as nat
    } else {
        n
    }
}

/// The result of such a run: the first failure, or success when every call succeeded.
pub open spec fn run_outcome(n: nat, inputs: Seq<Result<()>>) -> Result<()> {
    let f = first_error(0, n as int, inputs);
    if f <= n {
        inputs[f]
    } else {
        Ok(())
    }
}

/// The calls of opening a file: create a context, open the file.
pub open spec fn open_plan() -> Seq<Step> {
    seq![Step::Init(0), Step::OpenFile]
}

/// The calls of opening a buffer: create a context, open the buffer.
pub open spec fn open_buffer_plan() -> Seq<Step> {
    seq![Step::Init(0), Step::OpenBuffer]
}

/// The calls of developing with `params`: store them, unpack, process.
pub open spec fn process_plan(params: OutputParams) -> Seq<Step> {
    seq![Step::SetParams(params), Step::Unpack, Step::DcrawProcess]
}

impl View for Pipeline {
    type V = PipelineView;

    closed spec fn view(&self) -> PipelineView {
        (self.steps@, self.performed as nat, self.finished)
    }
}

impl Pipeline {
    #[verifier::type_invariant]
    spec fn well_formed(self) -> bool {
        self.performed <= self.steps.len()
    }

    fn start(steps: Vec<Step>) -> (p: Pipeline)
        ensures
            p@ == (steps@, 0nat, false),
    {
        Pipeline { steps, performed: 0, finished: false }
    }

    /// `LibRaw::open`: create a context, then open the file.
    pub fn open() -> (p: Pipeline)
        ensures
            p@ == (open_plan(), 0nat, false),
            p@.0 == seq![Step::Init(0), Step::OpenFile],
    {
        let p = Pipeline::start(vec![Step::Init(0), Step::OpenFile]);
        assert(p@.0 =~= open_plan());
        p
    }

    /// `LibRaw::open_from_buffer`: create a context, then open the buffer.
    pub fn open_from_buffer() -> (p: Pipeline)
        ensures
            p@ == (open_buffer_plan(), 0nat, false),
            p@.0 == seq![Step::Init(0), Step::OpenBuffer],
    {
        let p = Pipeline::start(vec![Step::Init(0), Step::OpenBuffer]);
        assert(p@.0 =~= open_buffer_plan());
        p
    }

    /// `LibRaw::process_with`: store `params`, unpack, process.
    pub fn process_with(params: &OutputParams) -> (p: Pipeline)
        ensures
            p@ == (process_plan(*params), 0nat, false),
            p@.0 == seq![Step::SetParams(*params), Step::Unpack, Step::DcrawProcess],
    {
        let p = Pipeline::start(vec![Step::SetParams(*params), Step::Unpack, Step::DcrawProcess]);
        assert(p@.0 =~= process_plan(*params));
        p
    }

    /// `LibRaw::process_default`: the same as `process_with` the default parameters.
    pub fn process_default() -> (p: Pipeline)
        ensures
            exists|d: OutputParams|
                is_default_params(d.inner) && p@ == (process_plan(d), 0nat, false),
    {
        let d = OutputParams::default();
        Pipeline::process_with(&d)
    }

    /// `LibRaw::convert_to_tiff`: open the input, develop it with the default
    /// parameters, write the TIFF: the calls of `open`, then those of
    /// `process_default`, then the write.
    pub fn convert_to_tiff() -> (p: Pipeline)
        ensures
            exists|d: OutputParams|
                is_default_params(d.inner) && p@ == (open_plan() + process_plan(d) + seq![
                    Step::SaveTiff,
                ], 0nat, false),
    {
        let d = OutputParams::default();
        let p = Pipeline::start(
            vec![
                Step::Init(0),
                Step::OpenFile,
                Step::SetParams(d),
                Step::Unpack,
                Step::DcrawProcess,
                Step::SaveTiff,
            ],
        );
        assert(p@.0 =~= open_plan() + process_plan(d) + seq![Step::SaveTiff]);
        p
    }

    /// Whether the run is over.
    pub fn is_finished(&self) -> (r: bool)
        ensures
            r == self@.2,
    {
        self.finished
    }

    /// Reports the outcome of the call handed out last (success before the
    /// first call) and returns what to do next: the next call, or the end of
    /// the run with its result. A failure ends the run with that failure.
    pub fn next(&mut self, outcome: Result<()>) -> (a: Action)
        requires
            !old(self)@.2,
        ensures
            (final(self)@, a) == next_state(old(self)@, outcome),
    {
        proof {
            use_type_invariant(&*self);
        }
        match outcome {
            Err(e) => {
                self.finished = true;
                Action::Finish(Err(e))
            },
            Ok(()) => {
                if self.performed < self.steps.len() {
                    let step = self.steps[self.performed];
                    self.performed = self.performed + 1;
                    Action::Perform(step)
                } else {
                    self.finished = true;
                    Action::Finish(Ok(()))
                }
            },
        }
    }
}

/// When every call succeeds, a run hands out each call of the plan once, in
/// order, and ends with success.
pub proof fn lemma_run_all_succeed(steps: Seq<Step>, inputs: Seq<Result<()>>)
    requires
        inputs.len() > steps.len(),
        forall|i: int| 0 <= i < inputs.len() ==> #[trigger] inputs[i] is Ok,
    ensures
        drive((steps, 0nat, false), inputs) == Seq::new(
            steps.len(),
            |i: int| Action::Perform(steps[i]),
        ) + seq![Action::Finish(Ok(()))],
{
    lemma_run(steps, inputs);
    lemma_first_error_bounds(0, steps.len() as int, inputs);
    assert(first_error(0, steps.len() as int, inputs) == steps.len() + 1);
}

/// Opening a buffer whose calls all succeed creates a context, opens the
/// buffer and ends with success: two calls, nothing decoded.
pub proof fn lemma_open_buffer_run(inputs: Seq<Result<()>>)
    requires
        inputs.len() > 2,
        forall|i: int| 0 <= i < inputs.len() ==> #[trigger] inputs[i] is Ok,
    ensures
        drive((open_buffer_plan(), 0nat, false), inputs) == seq![
            Action::Perform(Step::Init(0)),
            Action::Perform(Step::OpenBuffer),
            Action::Finish(Ok(())),
        ],
{
    lemma_run_all_succeed(open_buffer_plan(), inputs);
    assert(Seq::new(2, |i: int| Action::Perform(open_buffer_plan()[i])) + seq![
        Action::Finish(Ok(())),
    ] =~= seq![
        Action::Perform(Step::Init(0)),
        Action::Perform(Step::OpenBuffer),
        Action::Finish(Ok(())),
    ]);
}

/// Opening a file whose calls all succeed creates a context, opens the file
/// and ends with success.
pub proof fn lemma_open_run(inputs: Seq<Result<()>>)
    requires
        inputs.len() > 2,
        forall|i: int| 0 <= i < inputs.len() ==> #[trigger] inputs[i] is Ok,
    ensures
        drive((open_plan(), 0nat, false), inputs) == seq![
            Action::Perform(Step::Init(0)),
            Action::Perform(Step::OpenFile),
            Action::Finish(Ok(())),
        ],
{
    lemma_run_all_succeed(open_plan(), inputs);
    assert(Seq::new(2, |i: int| Action::Perform(open_plan()[i])) + seq![
        Action::Finish(Ok(())),
    ] =~= seq![
        Action::Perform(Step::Init(0)),
        Action::Perform(Step::OpenFile),
        Action::Finish(Ok(())),
    ]);
}

/// Developing stores exactly the parameters given, first, then unpacks and
/// processes; so different parameters make different plans.
pub proof fn lemma_process_plan_stores_params(a: OutputParams, b: OutputParams)
    ensures
        process_plan(a).len() == 3,
        process_plan(a)[0] == Step::SetParams(a),
        process_plan(a)[1] == Step::Unpack,
        process_plan(a)[2] == Step::DcrawProcess,
        process_plan(a) == process_plan(b) ==> a == b,
{
    if process_plan(a) == process_plan(b) {
        assert(process_plan(a)[0] == process_plan(b)[0]);
    }
}

/// Developing with the default parameters makes the same calls as developing
/// with the default parameters passed explicitly: `process_default` is
/// `process_with(&OutputParams::default())`.
pub proof fn lemma_process_default_is_process_with_default(a: OutputParams, b: OutputParams)
    requires
        is_default_params(a.inner),
        is_default_params(b.inner),
    ensures
        process_plan(a) == process_plan(b),
{
    lemma_default_params_unique(a.inner, b.inner);
}

/// Skipping outcomes that did not fail does not move the first failure.
proof fn lemma_first_error_skip(p: int, n: int, inputs: Seq<Result<()>>)
    requires
        0 <= p,
        forall|j: int| 0 <= j < p ==> inputs[j] is Ok,
    ensures
        first_error(0, n, inputs) == first_error(p, n, inputs),
    decreases p,
{
    if p > 0 {
        lemma_first_error_skip(p - 1, n, inputs);
        if p - 1 <= n {
            assert(inputs[p - 1] is Ok);
        }
    }
}

proof fn lemma_drive_from(steps: Seq<Step>, inputs: Seq<Result<()>>, p: int)
    requires
        0 <= p <= steps.len(),
        inputs.len() > steps.len(),
        forall|j: int| 0 <= j < p ==> inputs[j] is Ok,
    ensures
        calls_made(steps.len(), inputs) >= p,
        drive((steps, p as nat, false), inputs.skip(p)) == Seq::new(
            (calls_made(steps.len(), inputs) - p) as nat,
            |i: int| Action::Perform(steps[p + i]),
        ) + seq![Action::Finish(run_outcome(steps.len(), inputs))],
    decreases steps.len() - p,
{
    let n = steps.len() as int;
    let x = inputs.skip(p);
    lemma_first_error_skip(p, n, inputs);
    assert(x[0] == inputs[p]);
    let (v2, a) = next_state((steps, p as nat, false), x[0]);
    if inputs[p] is Err {
        assert(drive(v2, x.drop_first()) =~= Seq::empty());
        assert(drive((steps, p as nat, false), x) =~= Seq::new(
            (calls_made(steps.len(), inputs) - p) as nat,
            |i: int| Action::Perform(steps[p + i]),
        ) + seq![Action::Finish(run_outcome(steps.len(), inputs))]);
    } else if p < n {
        assert(x.drop_first() =~= inputs.skip(p + 1));
        lemma_drive_from(steps, inputs, p + 1);
        assert(drive((steps, p as nat, false), x) =~= Seq::new(
            (calls_made(steps.len(), inputs) - p) as nat,
            |i: int| Action::Perform(steps[p + i]),
        ) + seq![Action::Finish(run_outcome(steps.len(), inputs))]);
    } else {
        assert(first_error(p + 1, n, inputs) == n + 1);
        assert(drive(v2, x.drop_first()) =~= Seq::empty());
        assert(drive((steps, p as nat, false), x) =~= Seq::new(
            (calls_made(steps.len(), inputs) - p) as nat,
            |i: int| Action::Perform(steps[p + i]),
        ) + seq![Action::Finish(run_outcome(steps.len(), inputs))]);
    }
}

/// Running a plan. Given a success to start with and then the outcome of each
/// call it hands out, a fresh machine hands out the plan's calls in order up to
/// and including the first one that fails, makes no call after it, and ends
/// with that call's failure, or with success when every call of the plan
/// succeeded. (`inputs[0]` starts the run; `inputs[i + 1]` is the outcome of
/// call `i`.)
pub proof fn lemma_run(steps: Seq<Step>, inputs: Seq<Result<()>>)
    requires
        inputs.len() > steps.len(),
        inputs[0] is Ok,
    ensures
        calls_made(steps.len(), inputs) <= steps.len(),
        drive((steps, 0nat, false), inputs) == Seq::new(
            calls_made(steps.len(), inputs),
            |i: int| Action::Perform(steps[i]),
        ) + seq![Action::Finish(run_outcome(steps.len(), inputs))],
        run_outcome(steps.len(), inputs) is Err <==> exists|j: int|
            1 <= j <= steps.len() && inputs[j] is Err,
        run_outcome(steps.len(), inputs) matches Err(e) ==> inputs[calls_made(
            steps.len(),
            inputs,
        ) as int] == run_outcome(steps.len(), inputs),
{
    lemma_drive_from(steps, inputs, 0);
    assert(inputs.skip(0) =~= inputs);
    assert(Seq::new(calls_made(steps.len(), inputs), |i: int| Action::Perform(steps[0 + i]))
        =~= Seq::new(calls_made(steps.len(), inputs), |i: int| Action::Perform(steps[i])));
    lemma_first_error_bounds(0, steps.len() as int, inputs);
}

/// The first failure is a failure, and nothing before it failed.
proof fn lemma_first_error_bounds(p: int, n: int, inputs: Seq<Result<()>>)
    requires
        0 <= p <= n + 1,
    ensures
        p <= first_error(p, n, inputs) <= n + 1,
        first_error(p, n, inputs) <= n ==> inputs[first_error(p, n, inputs)] is Err,
        forall|j: int| p <= j < first_error(p, n, inputs) && j <= n ==> inputs[j] is Ok,
    decreases n + 1 - p,
{
    if p <= n && !(inputs[p] is Err) {
        lemma_first_error_bounds(p + 1, n, inputs);
    }
}

} // verus!
