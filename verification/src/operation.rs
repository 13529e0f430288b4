//! One clone from its first progress report to its end: what to write in
//! reply to each thing that happens, and whether the transfer should go on.

use crate::render::{RenderState, RenderView, Report};
use crate::snapshot::{CheckoutSnapshot, TransferSnapshot};
use vstd::prelude::*;
use vstd::string::StringExecFns;

verus! {

/// How far the clone has come.
#[derive(Clone, Copy, Debug, PartialEq, Eq, Structural)]
pub enum Status {
    /// Progress reports are expected.
    Running,
    /// The clone ended well.
    Succeeded,
    /// The clone ended with a failure.
    Failed,
}

/// What the display shows when the clone ended well: the line break that
/// leaves the last status line standing.
pub open spec fn success_text() -> Seq<char> {
    "\n"@
}

/// What the display shows when the clone failed: the description of the
/// failure on a line of its own.
pub open spec fn failure_text(description: Seq<char>) -> Seq<char> {
    "error: "@ + description + "\n"@
}

/// Something that happens during a clone, as mathematical values.
pub enum Event {
    /// A progress report arrived.
    Progress(Report),
    /// The clone ended well.
    Succeeded,
    /// The clone ended with the failure described.
    Failed(Seq<char>),
}

/// The end of a clone as an event.
pub open spec fn outcome_event(outcome: Result<(), String>) -> Event {
    match outcome {
        Ok(_) => Event::Succeeded,
        Err(description) => Event::Failed(description@),
    }
}

/// The reply to an event.
#[derive(Clone, Debug, PartialEq, Eq)]
pub struct Output {
    /// The characters to write to the display, at once and in full.
    pub text: String,
    /// Whether the transfer should go on.
    pub proceed: bool,
}

/// What an [`Output`] holds, as mathematical values.
pub struct OutputView {
    /// The characters to write to the display.
    pub text: Seq<char>,
    /// Whether the transfer should go on.
    pub proceed: bool,
}

impl View for Output {
    type V = OutputView;

    open spec fn view(&self) -> OutputView {
        OutputView { text: self.text@, proceed: self.proceed }
    }
}

/// What a [`CloneOperation`] holds, as mathematical values.
pub struct OperationView {
    /// The state of the display.
    pub renderer: RenderView,
    /// How far the clone has come.
    pub status: Status,
}

impl OperationView {
    /// A clone that is about to start.
    pub open spec fn initial() -> OperationView {
        OperationView { renderer: RenderView::initial(), status: Status::Running }
    }

    /// The reply to `event`. A running clone answers a report with the
    /// rendered frame and lets the transfer go on, and answers its end with
    /// the closing text. A clone that has ended answers nothing and asks
    /// for the transfer to stop.
    pub open spec fn output(self, event: Event) -> OutputView {
        if self.status != Status::Running {
            OutputView { text: Seq::empty(), proceed: false }
        } else {
            match event {
                Event::Progress(report) => OutputView {
                    text: self.renderer.reply(report).text(),
                    proceed: true,
                },
                Event::Succeeded => OutputView { text: success_text(), proceed: false },
                Event::Failed(description) => OutputView {
                    text: failure_text(description),
                    proceed: false,
                },
            }
        }
    }

    /// The clone after `event`. A clone that has ended stays as it is.
    pub open spec fn next(self, event: Event) -> OperationView {
        if self.status != Status::Running {
            self
        } else {
            match event {
                Event::Progress(report) => OperationView {
                    renderer: self.renderer.accept(report),
                    ..self
                },
                Event::Succeeded => OperationView { status: Status::Succeeded, ..self },
                Event::Failed(_) => OperationView { status: Status::Failed, ..self },
            }
        }
    }

    /// The clone after the events of `events`, in order.
    pub open spec fn after(self, events: Seq<Event>) -> OperationView
        decreases events.len(),
    {
        if events.len() == 0 {
            self
        } else {
            self.next(events.first()).after(events.drop_first())
        }
    }

    /// Everything written in reply to the events of `events`, in order.
    pub open spec fn transcript(self, events: Seq<Event>) -> Seq<char>
        decreases events.len(),
    {
        if events.len() == 0 {
            Seq::empty()
        } else {
            self.output(events.first()).text + self.next(events.first()).transcript(
                events.drop_first(),
            )
        }
    }
}

/// A clone and its display: the render state, and whether the clone is
/// still running.
#[derive(Clone, Debug, PartialEq, Eq)]
pub struct CloneOperation {
    /// The state of the display.
    pub renderer: RenderState,
    /// How far the clone has come.
    pub status: Status,
}

impl View for CloneOperation {
    type V = OperationView;

    open spec fn view(&self) -> OperationView {
        OperationView { renderer: self.renderer@, status: self.status }
    }
}

impl CloneOperation {
    /// A clone that is about to start.
    pub fn new() -> (operation: CloneOperation)
        ensures
            operation@ == OperationView::initial(),
    {
        CloneOperation { renderer: RenderState::new(), status: Status::Running }
    }

    /// Whether progress reports are still expected.
    pub fn is_running(&self) -> (running: bool)
        ensures
            running == (self.status == Status::Running),
    {
        match self.status {
            Status::Running => true,
            _ => false,
        }
    }

    /// Takes a transfer report. While the clone runs, the reply holds the
    /// rendered frame and lets the transfer go on.
    pub fn on_transfer(&mut self, snapshot: TransferSnapshot) -> (output: Output)
        ensures
            output@ == old(self)@.output(Event::Progress(Report::Transfer(snapshot))),
            final(self)@ == old(self)@.next(Event::Progress(Report::Transfer(snapshot))),
    {
        if !self.is_running() {
            return Output { text: String::new(), proceed: false };
        }
        let frame = self.renderer.on_transfer(snapshot);
        Output { text: frame.text(), proceed: true }
    }

    /// Takes a checkout report: the path being written, if any, the number
    /// of files written and the number of files to write. While the clone
    /// runs, the reply holds the rendered frame.
    pub fn on_checkout(&mut self, path: Option<String>, current: u64, total: u64) -> (output: Output)
        ensures
            output@ == old(self)@.output(
                Event::Progress(
                    Report::Checkout(CheckoutSnapshot::spec_new(path, current, total)@),
                ),
            ),
            final(self)@ == old(self)@.next(
                Event::Progress(
                    Report::Checkout(CheckoutSnapshot::spec_new(path, current, total)@),
                ),
            ),
    {
        if !self.is_running() {
            return Output { text: String::new(), proceed: false };
        }
        let frame = self.renderer.on_checkout(CheckoutSnapshot::new(path, current, total));
        Output { text: frame.text(), proceed: true }
    }

    /// Takes the end of the clone. A running clone ends: the reply holds the
    /// closing line break after success, the description of the failure
    /// after a failure, and nothing is rendered from then on.
    pub fn finish(&mut self, outcome: Result<(), String>) -> (output: Output)
        ensures
            output@ == old(self)@.output(outcome_event(outcome)),
            final(self)@ == old(self)@.next(outcome_event(outcome)),
    {
        if !self.is_running() {
            return Output { text: String::new(), proceed: false };
        }
        let mut text = String::new();
        match outcome {
            Ok(_) => {
                self.status = Status::Succeeded;
                text.append("\n");
                assert(text@ =~= success_text());
            },
            Err(description) => {
                self.status = Status::Failed;
                text.append("error: ");
                text.append(description.as_str());
                text.append("\n");
                assert(text@ =~= failure_text(description@));
            },
        }
        Output { text, proceed: false }
    }
}

/// A clone that has ended writes nothing more and does not change,
/// whatever happens.
pub proof fn lemma_silent_after_end(operation: OperationView, events: Seq<Event>)
    requires
        operation.status != Status::Running,
    ensures
        operation.transcript(events) == Seq::<char>::empty(),
        operation.after(events) == operation,
    decreases events.len(),
{
    if events.len() > 0 {
        lemma_silent_after_end(operation, events.drop_first());
        assert(operation.transcript(events) =~= Seq::<char>::empty());
    }
}

/// The end of a running clone is written once: the reply to it holds the
/// closing text, and the transcript of all that follows is empty.
pub proof fn lemma_end_is_final(
    operation: OperationView,
    outcome: Event,
    later: Seq<Event>,
)
    requires
        operation.status == Status::Running,
        outcome !is Progress,
    ensures
        operation.transcript(seq![outcome] + later) == operation.output(outcome).text,
        operation.after(seq![outcome] + later) == operation.next(outcome),
        operation.next(outcome).status != Status::Running,
        operation.next(outcome).renderer == operation.renderer,
{
    let events = seq![outcome] + later;
    assert(events.first() == outcome);
    assert(events.drop_first() =~= later);
    lemma_silent_after_end(operation.next(outcome), later);
    assert(operation.transcript(events) =~= operation.output(outcome).text);
}

/// The reports of `reports` as events, in the same order.
pub open spec fn report_events(reports: Seq<Report>) -> Seq<Event> {
    Seq::new(reports.len(), |i: int| Event::Progress(reports[i]))
}

/// What a running clone writes from here to its end: the replies of the
/// renderer to the reports, one after the other, and then the closing text
/// of the outcome, once. The renderer has then taken every report, and the
/// clone has the status of its outcome.
pub proof fn lemma_transcript_of_a_clone(
    operation: OperationView,
    reports: Seq<Report>,
    outcome: Event,
)
    requires
        operation.status == Status::Running,
        outcome !is Progress,
    ensures
        operation.transcript(report_events(reports).push(outcome)) == operation.renderer.transcript(
            reports,
        ) + operation.output(outcome).text,
        operation.after(report_events(reports).push(outcome)) == (OperationView {
            renderer: operation.renderer.after(reports),
            status: operation.next(outcome).status,
        }),
        operation.next(outcome).status != Status::Running,
    decreases reports.len(),
{
    let events = report_events(reports).push(outcome);
    if reports.len() == 0 {
        assert(events =~= seq![outcome] + Seq::<Event>::empty());
        lemma_end_is_final(operation, outcome, Seq::empty());
        assert(operation.renderer.transcript(reports) + operation.output(outcome).text
            =~= operation.output(outcome).text);
    } else {
        let first = Event::Progress(reports.first());
        let next = operation.next(first);
        assert(events.first() == first);
        assert(events.drop_first() =~= report_events(reports.drop_first()).push(outcome));
        lemma_transcript_of_a_clone(next, reports.drop_first(), outcome);
        assert(next.output(outcome).text == operation.output(outcome).text);
        assert(operation.transcript(events) =~= operation.renderer.transcript(reports)
            + operation.output(outcome).text);
    }
}

} // verus!
