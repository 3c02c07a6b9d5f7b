//! Following a simulation to its end.
//!
//! Starting a simulation answers with the address of a progress resource.
//! That resource is polled until it no longer asks to retry; its last body
//! tells whether the simulation failed and, for a single simulation, which
//! alpha it created, or, for a multi-simulation, the child simulations whose
//! own progress bodies name the created alphas.
//!
//! Each of the two procedures is a state machine: the caller performs the
//! step it is given (wait, request, run the callback) and hands back what
//! came of it.
use crate::response::{results_view, SimulationResult, SimulationResultView};
use crate::text::str_eq;
use vstd::prelude::*;

verus! {

/// Seconds to wait before polling again after a failed poll.
pub const RETRY_DELAY_SECS: u64 = 30;

/// Unsuccessful polls of a single simulation that are retried; the next one fails it.
pub const MAX_POLL_RETRIES: u32 = 2;

/// What looking up a key of a JSON object and reading it as a string gives.
pub enum JsonText {
    /// The key is not there.
    Absent,
    /// The key is there, but its value is not a string.
    NotText,
    /// The key holds this string.
    Text(String),
}

/// The string of a [`JsonText`], empty when there is none.
pub open spec fn json_text(t: JsonText) -> Seq<char> {
    match t {
        JsonText::Text(s) => s@,
        _ => Seq::empty(),
    }
}

/// What the procedures read of a progress body.
pub struct ProgressBody {
    /// The `status` key.
    pub status: JsonText,
    /// The `alpha` key.
    pub alpha: JsonText,
    /// The `regular` key.
    pub regular: JsonText,
    /// The `children` key when it holds an array: for each element, its
    /// string, if it is one.
    pub children: Option<Vec<Option<String>>>,
    /// A rendering of the whole body, for error messages.
    pub rendered: String,
}

/// The body reports a failed simulation: its status is "ERROR".
pub open spec fn reports_error(b: ProgressBody) -> bool {
    b.status matches JsonText::Text(s) && s@ == "ERROR"@
}

/// The body names the alpha that the simulation created.
pub open spec fn names_alpha(b: ProgressBody) -> bool {
    !(b.alpha is Absent)
}

/// The result that a body naming an alpha stands for.
pub open spec fn body_result(b: ProgressBody) -> SimulationResultView {
    SimulationResultView { alpha_id: json_text(b.alpha), regular: json_text(b.regular) }
}

/// The strings among the children of a body, in order.
pub open spec fn child_ids(children: Seq<Option<String>>) -> Seq<Seq<char>>
    decreases children.len(),
{
    if children.len() == 0 {
        Seq::empty()
    } else {
        let rest = child_ids(children.drop_last());
        match children.last() {
            Some(id) => rest.push(id@),
            None => rest,
        }
    }
}

/// The results of the child bodies that name an alpha, in order.
pub open spec fn collected(bodies: Seq<ProgressBody>) -> Seq<SimulationResultView>
    decreases bodies.len(),
{
    if bodies.len() == 0 {
        Seq::empty()
    } else {
        let rest = collected(bodies.drop_last());
        if names_alpha(bodies.last()) {
            rest.push(body_result(bodies.last()))
        } else {
            rest
        }
    }
}

/// The collected results are the results of the bodies that name an
/// alpha, in the order the bodies came.
pub proof fn lemma_collected_is_filtered(bodies: Seq<ProgressBody>)
    ensures
        collected(bodies) == bodies.filter(|b: ProgressBody| names_alpha(b)).map_values(
            |b: ProgressBody| body_result(b),
        ),
    decreases bodies.len(),
{
    let pred = |b: ProgressBody| names_alpha(b);
    let f = |b: ProgressBody| body_result(b);
    if bodies.len() == 0 {
        reveal(Seq::filter);
        assert(bodies.filter(pred).map_values(f) =~= Seq::<SimulationResultView>::empty());
    } else {
        let init = bodies.drop_last();
        lemma_collected_is_filtered(init);
        assert(bodies =~= init.push(bodies.last()));
        init.lemma_filter_push(bodies.last(), pred);
        if names_alpha(bodies.last()) {
            assert(init.filter(pred).push(bodies.last()).map_values(f) =~= init.filter(
                pred,
            ).map_values(f).push(body_result(bodies.last())));
        }
    }
}

/// The child ids followed are all the string elements of the `children`
/// array, every one of them, in order: the array with its non-string
/// elements left out.
pub proof fn lemma_child_ids_are_the_strings(children: Seq<Option<String>>)
    ensures
        child_ids(children) == children.filter(|o: Option<String>| o is Some).map_values(
            |o: Option<String>| o->0@,
        ),
    decreases children.len(),
{
    let pred = |o: Option<String>| o is Some;
    let f = |o: Option<String>| o->0@;
    if children.len() == 0 {
        reveal(Seq::filter);
        assert(children.filter(pred).map_values(f) =~= Seq::<Seq<char>>::empty());
    } else {
        let init = children.drop_last();
        lemma_child_ids_are_the_strings(init);
        assert(children =~= init.push(children.last()));
        init.lemma_filter_push(children.last(), pred);
        if children.last() is Some {
            assert(init.filter(pred).push(children.last()).map_values(f) =~= init.filter(
                pred,
            ).map_values(f).push(children.last()->0@));
        }
    }
}

/// The answer to the request that starts a simulation.
pub enum StartReply {
    /// The status was not a success; `text` is the body.
    Rejected { status: u16, text: String },
    /// The status was a success; `location` is its Location header.
    Accepted { location: Option<String> },
}

/// What came of one poll of the progress resource.
pub enum PollEvent {
    /// The request could not be sent.
    SendFailed,
    /// The answer's status was not a success.
    Unsuccessful { status: u16 },
    /// The answer's body could not be read as JSON.
    Unreadable { message: String },
    /// The answer's body, and whether its Retry-After header asks to poll again.
    Body { retry_pending: bool, body: ProgressBody },
}

/// Why a simulation gave no result.
pub enum SimulationError {
    /// Starting it was refused.
    Rejected { text: String, status: u16 },
    /// The start answer has no Location header.
    MissingLocation,
    /// Polling failed too often.
    PollFailed { url: String, status: u16 },
    /// The simulation failed; `body` renders its last progress body.
    Failed { body: String },
    /// The multi-simulation has no children; `body` renders its last progress body.
    MultiFailed { body: String },
    /// A request could not be sent or its answer could not be read.
    Transport { message: String },
}

/// The mathematical value of [`SimulationError`].
pub enum SimulationErrorView {
    Rejected { text: Seq<char>, status: u16 },
    MissingLocation,
    PollFailed { url: Seq<char>, status: u16 },
    Failed { body: Seq<char> },
    MultiFailed { body: Seq<char> },
    Transport { message: Seq<char> },
}

impl View for SimulationError {
    type V = SimulationErrorView;

    open spec fn view(&self) -> SimulationErrorView {
        match self {
            SimulationError::Rejected { text, status } => SimulationErrorView::Rejected {
                text: text@,
                status: *status,
            },
            SimulationError::MissingLocation => SimulationErrorView::MissingLocation,
            SimulationError::PollFailed { url, status } => SimulationErrorView::PollFailed {
                url: url@,
                status: *status,
            },
            SimulationError::Failed { body } => SimulationErrorView::Failed { body: body@ },
            SimulationError::MultiFailed { body } => SimulationErrorView::MultiFailed {
                body: body@,
            },
            SimulationError::Transport { message } => SimulationErrorView::Transport {
                message: message@,
            },
        }
    }
}

/// The progress address of a started simulation, or why there is none.
pub fn progress_location(reply: StartReply) -> (r: Result<String, SimulationError>)
    ensures
        match reply {
            StartReply::Rejected { status, text } => r matches Err(e) && e@
                == (SimulationErrorView::Rejected { text: text@, status }),
            StartReply::Accepted { location: None } => r matches Err(e) && e@
                == SimulationErrorView::MissingLocation,
            StartReply::Accepted { location: Some(url) } => r matches Ok(u) && u@ == url@,
        },
{
    match reply {
        StartReply::Rejected { status, text } => Err(SimulationError::Rejected { text, status }),
        StartReply::Accepted { location: None } => Err(SimulationError::MissingLocation),
        StartReply::Accepted { location: Some(url) } => Ok(url),
    }
}

fn is_error_status(status: &JsonText) -> (r: bool)
    ensures
        r == (*status matches JsonText::Text(s) && s@ == "ERROR"@),
{
    match status {
        JsonText::Text(s) => str_eq(s.as_str(), "ERROR"),
        _ => false,
    }
}

fn has_key(t: &JsonText) -> (r: bool)
    ensures
        r == !(*t is Absent),
{
    match t {
        JsonText::Absent => false,
        _ => true,
    }
}

fn take_text(t: JsonText) -> (r: String)
    ensures
        r@ == json_text(t),
{
    match t {
        JsonText::Text(s) => s,
        _ => String::new(),
    }
}

fn result_of(body: ProgressBody) -> (r: SimulationResult)
    ensures
        r@ == body_result(body),
{
    SimulationResult { alpha_id: take_text(body.alpha), regular: take_text(body.regular) }
}

// ---------------------------------------------------------------------------
// A single simulation
// ---------------------------------------------------------------------------
/// What the caller of [`SingleProgress`] does next.
pub enum SingleStep {
    /// Wait `delay_secs` seconds, then poll `url`.
    Poll { url: String, delay_secs: u64 },
    /// Wait `delay_secs` seconds, then end with `outcome`.
    Finish { delay_secs: u64, outcome: Result<SimulationResult, SimulationError> },
}

/// The mathematical value of [`SingleStep`].
pub enum SingleStepView {
    Poll { url: Seq<char>, delay_secs: u64 },
    Finish { delay_secs: u64, outcome: Result<SimulationResultView, SimulationErrorView> },
}

impl View for SingleStep {
    type V = SingleStepView;

    open spec fn view(&self) -> SingleStepView {
        match self {
            SingleStep::Poll { url, delay_secs } => SingleStepView::Poll {
                url: url@,
                delay_secs: *delay_secs,
            },
            SingleStep::Finish { delay_secs, outcome } => SingleStepView::Finish {
                delay_secs: *delay_secs,
                outcome: match outcome {
                    Ok(res) => Ok(res@),
                    Err(e) => Err(e@),
                },
            },
        }
    }
}

/// Whether a poll event is one that the progress of a single simulation
/// can take: a last body naming an alpha also has a `regular` key.
pub open spec fn single_event_ok(event: PollEvent) -> bool {
    event matches PollEvent::Body { retry_pending, body } ==> (!retry_pending && !reports_error(
        body,
    ) && names_alpha(body) ==> !(body.regular is Absent))
}

/// The progress of one simulation.
pub struct SingleProgress {
    url: String,
    failures: u32,
    finished: bool,
}

impl SingleProgress {
    /// The progress address polled.
    pub closed spec fn url(&self) -> Seq<char> {
        self.url@
    }

    /// How many polls were answered with a status that is not a success.
    pub closed spec fn failures(&self) -> nat {
        self.failures as nat
    }

    /// Whether the procedure has ended.
    pub closed spec fn is_finished(&self) -> bool {
        self.finished
    }

    /// A running procedure has retried at most [`MAX_POLL_RETRIES`] polls.
    pub closed spec fn wf(&self) -> bool {
        !self.finished ==> self.failures <= MAX_POLL_RETRIES
    }

    /// Begins following a simulation from the answer that started it.
    pub fn start(reply: StartReply) -> (r: (SingleProgress, SingleStep))
        ensures
            r.0.wf(),
            r.0.failures() == 0,
            match reply {
                StartReply::Rejected { status, text } => r.0.is_finished() && r.1@
                    == (SingleStepView::Finish {
                    delay_secs: 0,
                    outcome: Err(SimulationErrorView::Rejected { text: text@, status }),
                }),
                StartReply::Accepted { location: None } => r.0.is_finished() && r.1@
                    == (SingleStepView::Finish {
                    delay_secs: 0,
                    outcome: Err(SimulationErrorView::MissingLocation),
                }),
                StartReply::Accepted { location: Some(url) } => !r.0.is_finished() && r.0.url()
                    == url@ && r.1@ == (SingleStepView::Poll { url: url@, delay_secs: 0 }),
            },
    {
        match progress_location(reply) {
            Ok(url) => {
                let step = SingleStep::Poll { url: url.clone(), delay_secs: 0 };
                (SingleProgress { url, failures: 0, finished: false }, step)
            },
            Err(e) => (
                SingleProgress { url: String::new(), failures: 0, finished: true },
                SingleStep::Finish { delay_secs: 0, outcome: Err(e) },
            ),
        }
    }

    /// Takes what came of one poll.
    ///
    /// A poll that could not be sent is repeated after [`RETRY_DELAY_SECS`];
    /// so is one answered with a status that is not a success, up to
    /// [`MAX_POLL_RETRIES`] times, after which the simulation fails. A body
    /// that asks to retry is polled again at once. Otherwise the body ends
    /// the procedure: with its alpha, unless it reports an error or names
    /// none.
    pub fn on_poll(&mut self, event: PollEvent) -> (r: SingleStep)
        requires
            old(self).wf(),
            !old(self).is_finished(),
            single_event_ok(event),
        ensures
            final(self).wf(),
            final(self).url() == old(self).url(),
            match event {
                PollEvent::SendFailed => !final(self).is_finished() && final(self).failures()
                    == old(self).failures() && r@ == (SingleStepView::Poll {
                    url: old(self).url(),
                    delay_secs: RETRY_DELAY_SECS,
                }),
                PollEvent::Unsuccessful { status } => final(self).failures() == old(
                    self,
                ).failures() + 1 && if old(self).failures() < MAX_POLL_RETRIES {
                    !final(self).is_finished() && r@ == (SingleStepView::Poll {
                        url: old(self).url(),
                        delay_secs: RETRY_DELAY_SECS,
                    })
                } else {
                    final(self).is_finished() && r@ == (SingleStepView::Finish {
                        delay_secs: RETRY_DELAY_SECS,
                        outcome: Err(
                            SimulationErrorView::PollFailed { url: old(self).url(), status },
                        ),
                    })
                },
                PollEvent::Unreadable { message } => final(self).is_finished() && r@
                    == (SingleStepView::Finish {
                    delay_secs: 0,
                    outcome: Err(SimulationErrorView::Transport { message: message@ }),
                }),
                PollEvent::Body { retry_pending, body } => if retry_pending {
                    !final(self).is_finished() && final(self).failures() == old(self).failures()
                        && r@ == (SingleStepView::Poll { url: old(self).url(), delay_secs: 0 })
                } else {
                    final(self).is_finished() && r@ == (SingleStepView::Finish {
                        delay_secs: 0,
                        outcome: if !reports_error(body) && names_alpha(body) {
                            Ok(body_result(body))
                        } else {
                            Err(SimulationErrorView::Failed { body: body.rendered@ })
                        },
                    })
                },
            },
    {
        match event {
            PollEvent::SendFailed => SingleStep::Poll {
                url: self.url.clone(),
                delay_secs: RETRY_DELAY_SECS,
            },
            PollEvent::Unsuccessful { status } => {
                self.failures = self.failures + 1;
                if self.failures <= MAX_POLL_RETRIES {
                    SingleStep::Poll { url: self.url.clone(), delay_secs: RETRY_DELAY_SECS }
                } else {
                    self.finished = true;
                    SingleStep::Finish {
                        delay_secs: RETRY_DELAY_SECS,
                        outcome: Err(SimulationError::PollFailed { url: self.url.clone(), status }),
                    }
                }
            },
            PollEvent::Unreadable { message } => {
                self.finished = true;
                SingleStep::Finish {
                    delay_secs: 0,
                    outcome: Err(SimulationError::Transport { message }),
                }
            },
            PollEvent::Body { retry_pending, body } => {
                if retry_pending {
                    SingleStep::Poll { url: self.url.clone(), delay_secs: 0 }
                } else {
                    self.finished = true;
                    if !is_error_status(&body.status) && has_key(&body.alpha) {
                        SingleStep::Finish { delay_secs: 0, outcome: Ok(result_of(body)) }
                    } else {
                        SingleStep::Finish {
                            delay_secs: 0,
                            outcome: Err(SimulationError::Failed { body: body.rendered }),
                        }
                    }
                }
            },
        }
    }
}

// ---------------------------------------------------------------------------
// A multi-simulation
// ---------------------------------------------------------------------------
/// What came of fetching the progress of one child simulation.
pub enum ChildEvent {
    /// The request could not be sent.
    SendFailed { message: String },
    /// An answer came; its body was not read.
    Fetched,
    /// The answer's body could not be read as JSON.
    Unreadable { message: String },
    /// The answer's body.
    Body(ProgressBody),
}

/// What the caller of [`MultiProgress`] does next.
pub enum MultiStep {
    /// Wait `delay_secs` seconds, then poll `url`.
    Poll { url: String, delay_secs: u64 },
    /// Fetch the progress of the child simulation `id`, reading its body
    /// when `read_body` is set.
    FetchChild { id: String, read_body: bool },
    /// Run the callback on `result`, then resume.
    Deliver { result: SimulationResult },
    /// End with `outcome`.
    Finish { outcome: Result<Vec<SimulationResult>, SimulationError> },
}

/// The mathematical value of [`MultiStep`].
pub enum MultiStepView {
    Poll { url: Seq<char>, delay_secs: u64 },
    FetchChild { id: Seq<char>, read_body: bool },
    Deliver { result: SimulationResultView },
    Finish { outcome: Result<Seq<SimulationResultView>, SimulationErrorView> },
}

impl View for MultiStep {
    type V = MultiStepView;

    open spec fn view(&self) -> MultiStepView {
        match self {
            MultiStep::Poll { url, delay_secs } => MultiStepView::Poll {
                url: url@,
                delay_secs: *delay_secs,
            },
            MultiStep::FetchChild { id, read_body } => MultiStepView::FetchChild {
                id: id@,
                read_body: *read_body,
            },
            MultiStep::Deliver { result } => MultiStepView::Deliver { result: result@ },
            MultiStep::Finish { outcome } => MultiStepView::Finish {
                outcome: match outcome {
                    Ok(rs) => Ok(results_view(rs@)),
                    Err(e) => Err(e@),
                },
            },
        }
    }
}

/// The child ids of a last progress body (none without a `children` array).
pub open spec fn body_child_ids(b: ProgressBody) -> Seq<Seq<char>> {
    match b.children {
        Some(c) => child_ids(c@),
        None => Seq::empty(),
    }
}

/// The ids followed from a last progress body are the string elements of
/// its `children` array, all of them and in order; none without the array.
pub proof fn lemma_body_child_ids(b: ProgressBody)
    ensures
        body_child_ids(b) == match b.children {
            Some(c) => c@.filter(|o: Option<String>| o is Some).map_values(|o: Option<String>| o->0@),
            None => Seq::empty(),
        },
{
    if let Some(c) = b.children {
        lemma_child_ids_are_the_strings(c@);
    }
}

/// The body has a `children` array with at least one element.
pub open spec fn has_children(b: ProgressBody) -> bool {
    b.children matches Some(c) && c@.len() > 0
}

enum MultiPhase {
    Polling,
    Reporting,
    Collecting,
    Delivering,
    Finished,
}

/// The progress of a multi-simulation.
pub struct MultiProgress {
    url: String,
    phase: MultiPhase,
    children: Vec<String>,
    next: usize,
    results: Vec<SimulationResult>,
    final_body: String,
    received: Ghost<Seq<ProgressBody>>,
}

impl MultiProgress {
    /// The progress address polled.
    pub closed spec fn url(&self) -> Seq<char> {
        self.url@
    }

    /// The progress resource is being polled.
    pub closed spec fn is_polling(&self) -> bool {
        self.phase is Polling
    }

    /// The children of a failed multi-simulation are being fetched for the record.
    pub closed spec fn is_reporting(&self) -> bool {
        self.phase is Reporting
    }

    /// The children are being fetched for their results.
    pub closed spec fn is_collecting(&self) -> bool {
        self.phase is Collecting
    }

    /// A result waits for its callback to be run.
    pub closed spec fn is_delivering(&self) -> bool {
        self.phase is Delivering
    }

    /// The procedure has ended.
    pub closed spec fn is_finished(&self) -> bool {
        self.phase is Finished
    }

    /// The procedure is in exactly one of its phases.
    pub open spec fn in_one_phase(&self) -> bool {
        (if self.is_polling() { 1int } else { 0 }) + (if self.is_reporting() { 1int } else { 0 })
            + (if self.is_collecting() { 1int } else { 0 }) + (if self.is_delivering() { 1int } else { 0 })
            + (if self.is_finished() { 1int } else { 0 }) == 1
    }

    /// The phases exclude each other: every procedure is in exactly one.
    pub proof fn lemma_one_phase(&self)
        ensures
            self.in_one_phase(),
    {
    }

    /// The ids of the child simulations.
    pub closed spec fn children(&self) -> Seq<Seq<char>> {
        self.children.deep_view()
    }

    /// How many children have been fetched.
    pub closed spec fn fetched(&self) -> nat {
        self.next as nat
    }

    /// The child bodies read so far, in order.
    pub closed spec fn received(&self) -> Seq<ProgressBody> {
        self.received@
    }

    /// The rendering of the last progress body.
    pub closed spec fn final_body(&self) -> Seq<char> {
        self.final_body@
    }

    /// Internal consistency of the procedure.
    pub closed spec fn wf(&self) -> bool {
        &&& self.next <= self.children.len()
        &&& (self.phase is Reporting || self.phase is Collecting) ==> self.next
            < self.children.len()
        &&& (self.phase is Collecting || self.phase is Delivering) ==> {
            &&& self.received@.len() == self.next
            &&& results_view(self.results@) == collected(self.received@)
        }
    }

    /// Begins following a multi-simulation from the answer that started it.
    pub fn start(reply: StartReply) -> (r: (MultiProgress, MultiStep))
        ensures
            r.0.wf(),
            match reply {
                StartReply::Rejected { status, text } => r.0.is_finished() && r.1@
                    == (MultiStepView::Finish {
                    outcome: Err(SimulationErrorView::Rejected { text: text@, status }),
                }),
                StartReply::Accepted { location: None } => r.0.is_finished() && r.1@
                    == (MultiStepView::Finish {
                    outcome: Err(SimulationErrorView::MissingLocation),
                }),
                StartReply::Accepted { location: Some(url) } => r.0.is_polling() && r.0.url()
                    == url@ && r.1@ == (MultiStepView::Poll { url: url@, delay_secs: 0 }),
            },
    {
        match progress_location(reply) {
            Ok(url) => {
                let step = MultiStep::Poll { url: url.clone(), delay_secs: 0 };
                (MultiProgress::with_phase(url, MultiPhase::Polling), step)
            },
            Err(e) => (
                MultiProgress::with_phase(String::new(), MultiPhase::Finished),
                MultiStep::Finish { outcome: Err(e) },
            ),
        }
    }

    fn with_phase(url: String, phase: MultiPhase) -> (r: MultiProgress)
        requires
            !(phase is Reporting || phase is Collecting || phase is Delivering),
        ensures
            r.wf(),
            r.url == url,
            r.phase == phase,
    {
        MultiProgress {
            url,
            phase,
            children: Vec::new(),
            next: 0,
            results: Vec::new(),
            final_body: String::new(),
            received: Ghost(Seq::empty()),
        }
    }

    /// Takes what came of one poll.
    ///
    /// A poll that could not be sent, or that was answered with a status
    /// that is not a success, is repeated after [`RETRY_DELAY_SECS`]; a body
    /// that asks to retry is polled again at once. The last body decides:
    /// if it reports an error, its string children are fetched for the
    /// record and the multi-simulation fails; if it has no children, it
    /// fails; otherwise its string children are fetched for their results.
    pub fn on_poll(&mut self, event: PollEvent) -> (r: MultiStep)
        requires
            old(self).wf(),
            old(self).is_polling(),
        ensures
            final(self).wf(),
            final(self).url() == old(self).url(),
            match event {
                PollEvent::SendFailed => final(self).is_polling() && r@ == (MultiStepView::Poll {
                    url: old(self).url(),
                    delay_secs: RETRY_DELAY_SECS,
                }),
                PollEvent::Unsuccessful { .. } => final(self).is_polling() && r@
                    == (MultiStepView::Poll { url: old(self).url(), delay_secs: RETRY_DELAY_SECS }),
                PollEvent::Unreadable { message } => final(self).is_finished() && r@
                    == (MultiStepView::Finish {
                    outcome: Err(SimulationErrorView::Transport { message: message@ }),
                }),
                PollEvent::Body { retry_pending, body } => {
                    let ids = body_child_ids(body);
                    if retry_pending {
                        final(self).is_polling() && r@ == (MultiStepView::Poll {
                            url: old(self).url(),
                            delay_secs: 0,
                        })
                    } else if reports_error(body) && ids.len() == 0 {
                        final(self).is_finished() && r@ == (MultiStepView::Finish {
                            outcome: Err(SimulationErrorView::Failed { body: body.rendered@ }),
                        })
                    } else if reports_error(body) {
                        &&& final(self).is_reporting()
                        &&& final(self).children() == ids
                        &&& final(self).fetched() == 0
                        &&& final(self).final_body() == body.rendered@
                        &&& r@ == (MultiStepView::FetchChild { id: ids[0], read_body: false })
                    } else if !has_children(body) {
                        final(self).is_finished() && r@ == (MultiStepView::Finish {
                            outcome: Err(SimulationErrorView::MultiFailed { body: body.rendered@ }),
                        })
                    } else if ids.len() == 0 {
                        final(self).is_finished() && r@ == (MultiStepView::Finish {
                            outcome: Ok(Seq::empty()),
                        })
                    } else {
                        &&& final(self).is_collecting()
                        &&& final(self).children() == ids
                        &&& final(self).fetched() == 0
                        &&& final(self).received() == Seq::<ProgressBody>::empty()
                        &&& final(self).final_body() == body.rendered@
                        &&& r@ == (MultiStepView::FetchChild { id: ids[0], read_body: true })
                    }
                },
            },
    {
        match event {
            PollEvent::SendFailed => MultiStep::Poll {
                url: self.url.clone(),
                delay_secs: RETRY_DELAY_SECS,
            },
            PollEvent::Unsuccessful { .. } => MultiStep::Poll {
                url: self.url.clone(),
                delay_secs: RETRY_DELAY_SECS,
            },
            PollEvent::Unreadable { message } => {
                self.phase = MultiPhase::Finished;
                MultiStep::Finish { outcome: Err(SimulationError::Transport { message }) }
            },
            PollEvent::Body { retry_pending, body } => {
                if retry_pending {
                    return MultiStep::Poll { url: self.url.clone(), delay_secs: 0 };
                }
                let ghost b = body;
                let error = is_error_status(&body.status);
                let non_empty = match &body.children {
                    Some(c) => c.len() > 0,
                    None => false,
                };
                let ids = match &body.children {
                    Some(c) => string_children(c),
                    None => Vec::new(),
                };
                assert(ids.deep_view() == body_child_ids(b));
                if error && ids.len() == 0 {
                    self.phase = MultiPhase::Finished;
                    MultiStep::Finish { outcome: Err(SimulationError::Failed { body: body.rendered }) }
                } else if !error && !non_empty {
                    self.phase = MultiPhase::Finished;
                    MultiStep::Finish {
                        outcome: Err(SimulationError::MultiFailed { body: body.rendered }),
                    }
                } else if !error && ids.len() == 0 {
                    self.phase = MultiPhase::Finished;
                    let none: Vec<SimulationResult> = Vec::new();
                    assert(results_view(none@) =~= Seq::empty());
                    MultiStep::Finish { outcome: Ok(none) }
                } else {
                    let first = ids[0].clone();
                    self.children = ids;
                    self.next = 0;
                    self.final_body = body.rendered;
                    self.results = Vec::new();
                    self.received = Ghost(Seq::empty());
                    if error {
                        self.phase = MultiPhase::Reporting;
                        MultiStep::FetchChild { id: first, read_body: false }
                    } else {
                        self.phase = MultiPhase::Collecting;
                        assert(results_view(self.results@) =~= collected(self.received@));
                        MultiStep::FetchChild { id: first, read_body: true }
                    }
                }
            },
        }
    }

    /// Moves on to the next child, or ends with the results collected.
    fn advance(&mut self, read_body: bool) -> (r: MultiStep)
        requires
            old(self).next <= old(self).children.len(),
        ensures
            final(self).url == old(self).url,
            final(self).children == old(self).children,
            final(self).next == old(self).next,
            final(self).received == old(self).received,
            final(self).final_body == old(self).final_body,
            old(self).next == old(self).children.len() ==> final(self).phase is Finished && r@
                == (MultiStepView::Finish { outcome: Ok(results_view(old(self).results@)) }),
            old(self).next < old(self).children.len() ==> final(self).phase == old(self).phase
                && final(self).results == old(self).results && r@ == (MultiStepView::FetchChild {
                id: old(self).children.deep_view()[old(self).next as int],
                read_body,
            }),
    {
        if self.next == self.children.len() {
            self.phase = MultiPhase::Finished;
            let mut out: Vec<SimulationResult> = Vec::new();
            std::mem::swap(&mut out, &mut self.results);
            MultiStep::Finish { outcome: Ok(out) }
        } else {
            MultiStep::FetchChild { id: self.children[self.next].clone(), read_body }
        }
    }

    /// Whether a child event is one that the procedure can take now: an
    /// answer that was not read while reporting, a read one while
    /// collecting, and a body naming an alpha also has a string `regular`.
    pub open spec fn child_event_ok(&self, event: ChildEvent) -> bool {
        &&& self.is_reporting() ==> (event is SendFailed || event is Fetched)
        &&& self.is_collecting() ==> !(event is Fetched)
        &&& event matches ChildEvent::Body(b) ==> (names_alpha(b) ==> b.regular is Text)
    }

    /// Takes what came of fetching the next child.
    ///
    /// An error of the request or of reading the body ends the procedure.
    /// While reporting, the last child ends it with the failure of the
    /// multi-simulation. While collecting, a body that names an alpha gives
    /// a result that is handed to the callback.
    pub fn on_child(&mut self, event: ChildEvent) -> (r: MultiStep)
        requires
            old(self).wf(),
            old(self).is_reporting() || old(self).is_collecting(),
            old(self).child_event_ok(event),
        ensures
            final(self).wf(),
            final(self).url() == old(self).url(),
            final(self).children() == old(self).children(),
            final(self).final_body() == old(self).final_body(),
            match event {
                ChildEvent::SendFailed { message } => final(self).is_finished() && r@
                    == (MultiStepView::Finish {
                    outcome: Err(SimulationErrorView::Transport { message: message@ }),
                }),
                ChildEvent::Unreadable { message } => final(self).is_finished() && r@
                    == (MultiStepView::Finish {
                    outcome: Err(SimulationErrorView::Transport { message: message@ }),
                }),
                ChildEvent::Fetched => {
                    &&& final(self).fetched() == old(self).fetched() + 1
                    &&& if final(self).fetched() == old(self).children().len() {
                        final(self).is_finished() && r@ == (MultiStepView::Finish {
                            outcome: Err(SimulationErrorView::Failed { body: old(self).final_body() }),
                        })
                    } else {
                        final(self).is_reporting() && r@ == (MultiStepView::FetchChild {
                            id: old(self).children()[final(self).fetched() as int],
                            read_body: false,
                        })
                    }
                },
                ChildEvent::Body(b) => {
                    &&& final(self).fetched() == old(self).fetched() + 1
                    &&& final(self).received() == old(self).received().push(b)
                    &&& if names_alpha(b) {
                        final(self).is_delivering() && r@ == (MultiStepView::Deliver {
                            result: body_result(b),
                        })
                    } else if final(self).fetched() == old(self).children().len() {
                        final(self).is_finished() && r@ == (MultiStepView::Finish {
                            outcome: Ok(collected(final(self).received())),
                        })
                    } else {
                        final(self).is_collecting() && r@ == (MultiStepView::FetchChild {
                            id: old(self).children()[final(self).fetched() as int],
                            read_body: true,
                        })
                    }
                },
            },
    {
        match event {
            ChildEvent::SendFailed { message } => {
                self.phase = MultiPhase::Finished;
                MultiStep::Finish { outcome: Err(SimulationError::Transport { message }) }
            },
            ChildEvent::Unreadable { message } => {
                self.phase = MultiPhase::Finished;
                MultiStep::Finish { outcome: Err(SimulationError::Transport { message }) }
            },
            ChildEvent::Fetched => {
                self.next = self.next + 1;
                if self.next == self.children.len() {
                    self.phase = MultiPhase::Finished;
                    MultiStep::Finish {
                        outcome: Err(SimulationError::Failed { body: self.final_body.clone() }),
                    }
                } else {
                    MultiStep::FetchChild { id: self.children[self.next].clone(), read_body: false }
                }
            },
            ChildEvent::Body(body) => {
                let ghost b = body;
                let ghost before = self.received@;
                self.received = Ghost(self.received@.push(b));
                self.next = self.next + 1;
                assert(self.received@.drop_last() =~= before);
                if has_key(&body.alpha) {
                    let result = result_of(body);
                    let delivered = result.clone();
                    let ghost old_results = self.results@;
                    self.results.push(result);
                    assert(results_view(self.results@) =~= results_view(old_results).push(
                        body_result(b),
                    ));
                    self.phase = MultiPhase::Delivering;
                    MultiStep::Deliver { result: delivered }
                } else {
                    self.advance(true)
                }
            },
        }
    }

    /// Resumes collecting once the callback has run on the delivered result.
    pub fn resume(&mut self) -> (r: MultiStep)
        requires
            old(self).wf(),
            old(self).is_delivering(),
        ensures
            final(self).wf(),
            final(self).url() == old(self).url(),
            final(self).children() == old(self).children(),
            final(self).fetched() == old(self).fetched(),
            final(self).received() == old(self).received(),
            final(self).final_body() == old(self).final_body(),
            if old(self).fetched() == old(self).children().len() {
                final(self).is_finished() && r@ == (MultiStepView::Finish {
                    outcome: Ok(collected(old(self).received())),
                })
            } else {
                final(self).is_collecting() && r@ == (MultiStepView::FetchChild {
                    id: old(self).children()[old(self).fetched() as int],
                    read_body: true,
                })
            },
    {
        self.phase = MultiPhase::Collecting;
        self.advance(true)
    }
}

/// The strings among `children`, in order.
fn string_children(children: &Vec<Option<String>>) -> (r: Vec<String>)
    ensures
        r.deep_view() == child_ids(children@),
{
    let mut ids: Vec<String> = Vec::new();
    let mut i: usize = 0;
    while i < children.len()
        invariant
            i <= children.len(),
            ids.deep_view() == child_ids(children@.take(i as int)),
        decreases children.len() - i,
    {
        let ghost prefix = children@.take(i as int);
        assert(children@.take(i + 1).drop_last() =~= prefix);
        match &children[i] {
            Some(id) => {
                ids.push(id.clone());
                assert(ids.deep_view() =~= child_ids(prefix).push(id@));
            },
            None => {},
        }
        i = i + 1;
    }
    assert(children@.take(children.len() as int) =~= children@);
    ids
}

} // verus!
