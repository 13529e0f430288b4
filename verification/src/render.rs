//! The status line: what is shown for the latest readings, and when the
//! display moves on to a fresh line.

use crate::snapshot::{CheckoutSnapshot, CheckoutView, TransferSnapshot};
use crate::text::{decimal, field, push_decimal, push_field};
use vstd::prelude::*;
use vstd::string::StringExecFns;

verus! {

/// The line shown once every object has been received. It ends with a
/// carriage return, so that the next line overwrites it.
pub open spec fn resolving_line(transfer: TransferSnapshot) -> Seq<char> {
    "Resolving deltas "@ + decimal(transfer.indexed_deltas as nat) + "/"@ + decimal(
        transfer.total_deltas as nat,
    ) + "\r"@
}

/// The line shown while objects are still being received: network, index
/// and checkout figures in this order, then the path being checked out.
/// It ends with a carriage return, so that the next line overwrites it.
pub open spec fn composite_line(transfer: TransferSnapshot, checkout: CheckoutView) -> Seq<char> {
    "net "@ + field(transfer.spec_network_pct(), 3) + "% ("@ + field(transfer.spec_kbytes(), 4)
        + " kb, "@ + field(transfer.received_objects as nat, 5) + "/"@ + field(
        transfer.total_objects as nat,
        5,
    ) + ")  /  idx "@ + field(transfer.spec_index_pct(), 3) + "% ("@ + field(
        transfer.indexed_objects as nat,
        5,
    ) + "/"@ + field(transfer.total_objects as nat, 5) + ")  /  chk "@ + field(
        checkout.checkout_pct(),
        3,
    ) + "% ("@ + field(checkout.current_file_index, 4) + "/"@ + field(checkout.total_files, 4)
        + ") "@ + checkout.path_text() + "\r"@
}

/// The line for a pair of readings: the resolving line once the transfer is
/// complete, the composite line before that.
pub open spec fn status_line(transfer: TransferSnapshot, checkout: CheckoutView) -> Seq<char> {
    if transfer.complete() {
        resolving_line(transfer)
    } else {
        composite_line(transfer, checkout)
    }
}

/// What one rendering puts on the display.
#[derive(Clone, Debug, PartialEq, Eq)]
pub struct Frame {
    /// Whether a line break comes first, to leave the composite line standing
    /// above the resolving line.
    pub line_break: bool,
    /// The status line, ending with a carriage return.
    pub line: String,
}

/// What a [`Frame`] holds, as mathematical values.
pub struct FrameView {
    /// Whether a line break comes first.
    pub line_break: bool,
    /// The status line, ending with a carriage return.
    pub line: Seq<char>,
}

impl FrameView {
    /// The characters to write, in order.
    pub open spec fn text(self) -> Seq<char> {
        if self.line_break {
            "\n"@ + self.line
        } else {
            self.line
        }
    }
}

impl View for Frame {
    type V = FrameView;

    open spec fn view(&self) -> FrameView {
        FrameView { line_break: self.line_break, line: self.line@ }
    }
}

impl Frame {
    /// The characters to write, in order.
    pub fn text(&self) -> (text: String)
        ensures
            text@ == self@.text(),
    {
        let mut text = String::new();
        if self.line_break {
            text.append("\n");
        }
        text.append(self.line.as_str());
        assert(text@ =~= self@.text());
        text
    }
}

/// A progress report, as mathematical values: the new reading of one of
/// the two streams.
pub enum Report {
    /// A reading of the network transfer.
    Transfer(TransferSnapshot),
    /// A reading of the checkout.
    Checkout(CheckoutView),
}

/// What a [`RenderState`] holds, as mathematical values.
pub struct RenderView {
    /// The latest transfer reading, if there is one.
    pub transfer: Option<TransferSnapshot>,
    /// The latest checkout reading, if there is one.
    pub checkout: Option<CheckoutView>,
    /// Whether the line break that marks the end of the transfer was given.
    pub emitted_completion_newline: bool,
}

impl RenderView {
    /// The state before any report.
    pub open spec fn initial() -> RenderView {
        RenderView { transfer: None, checkout: None, emitted_completion_newline: false }
    }

    /// The latest transfer reading; all zero while there is none.
    pub open spec fn transfer_reading(self) -> TransferSnapshot {
        match self.transfer {
            Some(transfer) => transfer,
            None => TransferSnapshot::spec_zero(),
        }
    }

    /// The latest checkout reading; all zero and without a path while there
    /// is none.
    pub open spec fn checkout_reading(self) -> CheckoutView {
        match self.checkout {
            Some(checkout) => checkout,
            None => CheckoutView::zero(),
        }
    }

    /// Whether the transfer is known to be complete.
    pub open spec fn resolving(self) -> bool {
        self.transfer_reading().complete()
    }

    /// The frame that rendering this state gives: the status line of the
    /// latest readings, after a line break if the transfer is complete and
    /// no line break has marked that yet.
    pub open spec fn frame(self) -> FrameView {
        FrameView {
            line_break: self.resolving() && !self.emitted_completion_newline,
            line: status_line(self.transfer_reading(), self.checkout_reading()),
        }
    }

    /// The state after rendering: it remembers a line break that was given.
    pub open spec fn rendered(self) -> RenderView {
        RenderView {
            emitted_completion_newline: self.emitted_completion_newline || self.resolving(),
            ..self
        }
    }

    /// The state with `report` stored in place of the earlier reading of its
    /// kind.
    pub open spec fn store(self, report: Report) -> RenderView {
        match report {
            Report::Transfer(transfer) => RenderView { transfer: Some(transfer), ..self },
            Report::Checkout(checkout) => RenderView { checkout: Some(checkout), ..self },
        }
    }

    /// The frame given in reply to `report`.
    pub open spec fn reply(self, report: Report) -> FrameView {
        self.store(report).frame()
    }

    /// The state after `report` was stored and rendered.
    pub open spec fn accept(self, report: Report) -> RenderView {
        self.store(report).rendered()
    }

    /// The state after the reports of `reports` were accepted in order.
    pub open spec fn after(self, reports: Seq<Report>) -> RenderView
        decreases reports.len(),
    {
        if reports.len() == 0 {
            self
        } else {
            self.accept(reports.first()).after(reports.drop_first())
        }
    }

    /// Whether no line break is owed: if the transfer is known to be
    /// complete, the line break that marks it has been given.
    pub open spec fn settled(self) -> bool {
        self.resolving() ==> self.emitted_completion_newline
    }

    /// Everything written in reply to the reports of `reports`, accepted in
    /// order.
    pub open spec fn transcript(self, reports: Seq<Report>) -> Seq<char>
        decreases reports.len(),
    {
        if reports.len() == 0 {
            Seq::empty()
        } else {
            self.reply(reports.first()).text() + self.accept(reports.first()).transcript(
                reports.drop_first(),
            )
        }
    }

    /// How many of the frames given in reply to the reports of `reports`,
    /// accepted in order, start with a line break.
    pub open spec fn line_breaks(self, reports: Seq<Report>) -> nat
        decreases reports.len(),
    {
        if reports.len() == 0 {
            0
        } else {
            let here: nat = if self.reply(reports.first()).line_break {
                1
            } else {
                0
            };
            here + self.accept(reports.first()).line_breaks(reports.drop_first())
        }
    }
}

/// The latest reading of each stream, and whether the line break that marks
/// the end of the transfer has been given.
#[derive(Clone, Debug, PartialEq, Eq)]
pub struct RenderState {
    /// Absent before the first transfer report.
    pub transfer: Option<TransferSnapshot>,
    /// Absent before the first checkout report.
    pub checkout: Option<CheckoutSnapshot>,
    /// Set by the first rendering of a complete transfer, and never cleared.
    pub emitted_completion_newline: bool,
}

/// The reading that stands for `checkout`: its own, or all zero and without
/// a path while there is none.
pub open spec fn checkout_reading_of(checkout: Option<CheckoutSnapshot>) -> CheckoutView {
    match checkout {
        Some(snapshot) => snapshot@,
        None => CheckoutView::zero(),
    }
}

impl View for RenderState {
    type V = RenderView;

    open spec fn view(&self) -> RenderView {
        RenderView {
            transfer: self.transfer,
            checkout: match self.checkout {
                Some(checkout) => Some(checkout@),
                None => None,
            },
            emitted_completion_newline: self.emitted_completion_newline,
        }
    }
}

/// The resolving line of `transfer`.
fn resolving_text(transfer: &TransferSnapshot) -> (line: String)
    ensures
        line@ == resolving_line(*transfer),
{
    let mut line = String::new();
    line.append("Resolving deltas ");
    push_decimal(&mut line, transfer.indexed_deltas as u128);
    line.append("/");
    push_decimal(&mut line, transfer.total_deltas as u128);
    line.append("\r");
    assert(line@ =~= resolving_line(*transfer));
    line
}

/// The composite line of `transfer` and of the reading that stands for
/// `checkout`.
fn composite_text(transfer: &TransferSnapshot, checkout: &Option<CheckoutSnapshot>) -> (line:
    String)
    ensures
        line@ == composite_line(*transfer, checkout_reading_of(*checkout)),
{
    let ghost reading = checkout_reading_of(*checkout);
    let (checkout_pct, current_file_index, total_files): (u128, u64, u64) = match checkout {
        Some(snapshot) => (
            snapshot.checkout_pct(),
            snapshot.current_file_index,
            snapshot.total_files,
        ),
        None => (0, 0, 0),
    };
    let mut line = String::new();
    line.append("net ");
    push_field(&mut line, transfer.network_pct(), 3);
    line.append("% (");
    push_field(&mut line, transfer.kbytes() as u128, 4);
    line.append(" kb, ");
    push_field(&mut line, transfer.received_objects as u128, 5);
    line.append("/");
    push_field(&mut line, transfer.total_objects as u128, 5);
    line.append(")  /  idx ");
    push_field(&mut line, transfer.index_pct(), 3);
    line.append("% (");
    push_field(&mut line, transfer.indexed_objects as u128, 5);
    line.append("/");
    push_field(&mut line, transfer.total_objects as u128, 5);
    line.append(")  /  chk ");
    push_field(&mut line, checkout_pct, 3);
    line.append("% (");
    push_field(&mut line, current_file_index as u128, 4);
    line.append("/");
    push_field(&mut line, total_files as u128, 4);
    line.append(") ");
    let ghost before_path = line@;
    match checkout {
        Some(snapshot) => match &snapshot.current_path {
            Some(path) => {
                line.append(path.as_str());
            },
            None => {},
        },
        None => {},
    }
    assert(line@ =~= before_path + reading.path_text());
    line.append("\r");
    assert(line@ =~= composite_line(*transfer, reading));
    line
}

impl RenderState {
    /// The state before any report.
    pub fn new() -> (state: RenderState)
        ensures
            state@ == RenderView::initial(),
    {
        RenderState { transfer: None, checkout: None, emitted_completion_newline: false }
    }

    /// Renders the latest readings. The frame holds their status line; it
    /// starts with a line break the first time that a complete transfer is
    /// rendered, and the state remembers that.
    pub fn render(&mut self) -> (frame: Frame)
        ensures
            frame@ == old(self)@.frame(),
            final(self)@ == old(self)@.rendered(),
    {
        let transfer = match self.transfer {
            Some(transfer) => transfer,
            None => TransferSnapshot::zero(),
        };
        let mut line_break = false;
        let line = if transfer.is_complete() {
            if !self.emitted_completion_newline {
                line_break = true;
                self.emitted_completion_newline = true;
            }
            resolving_text(&transfer)
        } else {
            composite_text(&transfer, &self.checkout)
        };
        Frame { line_break, line }
    }

    /// Takes a transfer report: stores it in place of the one before, and
    /// renders.
    pub fn on_transfer(&mut self, snapshot: TransferSnapshot) -> (frame: Frame)
        ensures
            frame@ == old(self)@.reply(Report::Transfer(snapshot)),
            final(self)@ == old(self)@.accept(Report::Transfer(snapshot)),
    {
        self.transfer = Some(snapshot);
        self.render()
    }

    /// Takes a checkout report: stores it in place of the one before, and
    /// renders.
    pub fn on_checkout(&mut self, snapshot: CheckoutSnapshot) -> (frame: Frame)
        ensures
            frame@ == old(self)@.reply(Report::Checkout(snapshot@)),
            final(self)@ == old(self)@.accept(Report::Checkout(snapshot@)),
    {
        self.checkout = Some(snapshot);
        self.render()
    }
}

/// Every status line ends with a carriage return.
pub proof fn lemma_status_line_ends_with_return(transfer: TransferSnapshot, checkout: CheckoutView)
    ensures
        status_line(transfer, checkout).len() > 0,
        status_line(transfer, checkout).last() == '\r',
{
    reveal_strlit("\r");
}

/// Rendering changes nothing but the memory of the line break, and that
/// only from unset to set.
pub proof fn lemma_rendering_keeps_readings(state: RenderView, report: Report)
    ensures
        state.accept(report).transfer == state.store(report).transfer,
        state.accept(report).checkout == state.store(report).checkout,
        state.emitted_completion_newline ==> state.accept(report).emitted_completion_newline,
        state.reply(report).line_break ==> !state.emitted_completion_newline && state.accept(
            report,
        ).emitted_completion_newline,
{
}

/// The same report twice in a row: the second reply shows the same line as
/// the first, starts with no line break, and leaves the state as the first
/// left it.
pub proof fn lemma_repeated_report(state: RenderView, report: Report)
    ensures
        state.accept(report).reply(report).line == state.reply(report).line,
        !state.accept(report).reply(report).line_break,
        state.accept(report).accept(report) == state.accept(report),
{
    let once = state.accept(report);
    assert(once.store(report) == once);
}

/// Rendering leaves no line break owed, and neither does the state before
/// any report. Rendering a state that owes none shows its line without a
/// line break and leaves it as it is: rendering again changes nothing.
pub proof fn lemma_rendering_settles(state: RenderView, report: Report)
    ensures
        RenderView::initial().settled(),
        state.rendered().settled(),
        state.accept(report).settled(),
        state.rendered().frame().line == state.frame().line,
        state.settled() ==> !state.frame().line_break && state.rendered() == state,
{
}

/// Over any run of reports the replies start with a line break at most
/// once: exactly when the run sets the memory of the line break. Once set,
/// the memory stays set.
pub proof fn lemma_line_breaks_counted(state: RenderView, reports: Seq<Report>)
    ensures
        state.emitted_completion_newline ==> state.after(reports).emitted_completion_newline,
        state.line_breaks(reports) == if state.after(reports).emitted_completion_newline
            && !state.emitted_completion_newline {
            1nat
        } else {
            0nat
        },
    decreases reports.len(),
{
    if reports.len() > 0 {
        lemma_line_breaks_counted(state.accept(reports.first()), reports.drop_first());
    }
}

/// A run of reports that holds a complete transfer leaves the memory of the
/// line break set.
pub proof fn lemma_complete_transfer_is_remembered(
    state: RenderView,
    reports: Seq<Report>,
    at: int,
)
    requires
        0 <= at < reports.len(),
        reports[at] matches Report::Transfer(transfer) && transfer.complete(),
    ensures
        state.after(reports).emitted_completion_newline,
    decreases reports.len(),
{
    let next = state.accept(reports.first());
    let rest = reports.drop_first();
    if at == 0 {
        lemma_line_breaks_counted(next, rest);
    } else {
        assert(rest[at - 1] == reports[at]);
        lemma_complete_transfer_is_remembered(next, rest, at - 1);
    }
}

/// Once a complete transfer is among the reports, the line break that marks
/// it is given exactly once, whatever comes before and after it: once in the
/// replies to `reports` if it had not been given before them, and not at all
/// if it had.
pub proof fn lemma_line_break_exactly_once(state: RenderView, reports: Seq<Report>, at: int)
    requires
        0 <= at < reports.len(),
        reports[at] matches Report::Transfer(transfer) && transfer.complete(),
    ensures
        state.line_breaks(reports) == if state.emitted_completion_newline {
            0nat
        } else {
            1nat
        },
        RenderView::initial().line_breaks(reports) == 1,
{
    lemma_complete_transfer_is_remembered(state, reports, at);
    lemma_line_breaks_counted(state, reports);
    lemma_complete_transfer_is_remembered(RenderView::initial(), reports, at);
    lemma_line_breaks_counted(RenderView::initial(), reports);
}

/// While no complete transfer has been reported, no reply starts with a
/// line break.
pub proof fn lemma_no_line_break_before_completion(state: RenderView, reports: Seq<Report>)
    requires
        !state.resolving(),
        forall|i: int|
            0 <= i < reports.len() ==> (#[trigger] reports[i] matches Report::Transfer(
                transfer,
            ) ==> !transfer.complete()),
    ensures
        state.line_breaks(reports) == 0,
        !state.after(reports).resolving(),
    decreases reports.len(),
{
    if reports.len() > 0 {
        let next = state.accept(reports.first());
        let rest = reports.drop_first();
        assert(reports[0] == reports.first());
        assert forall|i: int| 0 <= i < rest.len() implies (#[trigger] rest[i] matches Report::Transfer(
            transfer,
        ) ==> !transfer.complete()) by {
            assert(rest[i] == reports[i + 1]);
        }
        lemma_no_line_break_before_completion(next, rest);
    }
}

} // verus!
