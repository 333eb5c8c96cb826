//! The per-iteration decision logic of the two device-facing actors. The
//! surrounding threads only perform reads and hand the result in as an
//! event; each step function says exactly which bytes must be written out,
//! echoed or kept buffered, and whether the actor's loop goes on.

use vstd::prelude::*;

verus! {

use crate::commands::trimmed;
use crate::commands::CommandTable;
use crate::commands::copy_bytes;
use crate::linebuf::LineAccum;
use crate::linebuf::NL;
use crate::linebuf::complete_lines;
use crate::linebuf::lemma_no_newline_no_lines;
use crate::linebuf::no_nl;
use crate::linebuf::partial_line;

/// How long an actor sleeps after a would-block poll before retrying, in
/// milliseconds: busy-wait with bounded cost, acceptable at interactive
/// traffic volumes.
pub const POLL_RETRY_MS: u64 = 10;

/// What one non-blocking read call produced.
pub enum IoEvent {
    /// The bytes that the read returned.
    Data(Vec<u8>),
    /// A zero-length read: the stream is closed.
    Eof,
    /// The descriptor had nothing available yet.
    WouldBlock,
    /// Any other read error.
    ReadError,
}

/// How an actor's loop proceeds after one step.
#[derive(Clone, Copy, PartialEq, Eq, Structural, Debug)]
pub enum StepOutcome {
    /// Keep looping: the event was handled.
    Proceed,
    /// Nothing available: sleep the retry interval, then poll again.
    SleepRetry,
    /// The stop flag was observed false: exit without further work.
    Halted,
    /// The stream ended; exit without error.
    EndOfStream,
    /// An unrecoverable error; exit after reporting it.
    Failed,
}

/// The auto-responses owed for a sequence of complete lines: one response,
/// newline-terminated, for each line whose trimmed form the table maps, in
/// line order; unrecognized lines contribute nothing.
pub open spec fn response_lines(lines: Seq<Seq<u8>>, table: Map<Seq<u8>, Seq<u8>>) -> Seq<Seq<u8>>
    decreases lines.len(),
{
    if lines.len() == 0 {
        Seq::empty()
    } else {
        let rest = response_lines(lines.drop_last(), table);
        let key = trimmed(lines.last());
        if table.contains_key(key) {
            rest.push(table[key].push(NL))
        } else {
            rest
        }
    }
}

/// What the writer sends for a sequence of complete lines: each recognized
/// line is replaced by its configured response plus newline, every other
/// line is forwarded raw, in order.
pub open spec fn forwarded_lines(lines: Seq<Seq<u8>>, table: Map<Seq<u8>, Seq<u8>>) -> Seq<Seq<u8>>
    decreases lines.len(),
{
    if lines.len() == 0 {
        Seq::empty()
    } else {
        let rest = forwarded_lines(lines.drop_last(), table);
        let key = trimmed(lines.last());
        if table.contains_key(key) {
            rest.push(table[key].push(NL))
        } else {
            rest.push(lines.last())
        }
    }
}

/// The responses the reader owes after a chunk `data` arrives on top of the
/// buffered partial line `pending`.
pub open spec fn reader_responses(
    pending: Seq<u8>,
    data: Seq<u8>,
    table: Map<Seq<u8>, Seq<u8>>,
) -> Seq<Seq<u8>> {
    response_lines(complete_lines(pending + data), table)
}

/// The device writes the writer owes after a chunk `data` arrives on top of
/// the buffered partial line `pending`.
pub open spec fn writer_sends(
    pending: Seq<u8>,
    data: Seq<u8>,
    table: Map<Seq<u8>, Seq<u8>>,
) -> Seq<Seq<u8>> {
    forwarded_lines(complete_lines(pending + data), table)
}

/// Before a newline arrives, nothing is recognized: a traffic prefix without
/// a newline owes no response and no forwarded line, whatever the table
/// holds and however the bytes match its triggers.
pub proof fn lemma_no_newline_no_response(
    pending: Seq<u8>,
    data: Seq<u8>,
    table: Map<Seq<u8>, Seq<u8>>,
)
    requires
        no_nl(pending + data),
    ensures
        reader_responses(pending, data, table) == Seq::<Seq<u8>>::empty(),
        writer_sends(pending, data, table) == Seq::<Seq<u8>>::empty(),
{
    lemma_no_newline_no_lines(pending + data);
}

/// Each complete line is matched once: it owes at most one response, and the
/// writer sends exactly one line for it.
pub proof fn lemma_one_match_per_line(lines: Seq<Seq<u8>>, table: Map<Seq<u8>, Seq<u8>>)
    ensures
        response_lines(lines, table).len() <= lines.len(),
        forwarded_lines(lines, table).len() == lines.len(),
    decreases lines.len(),
{
    if lines.len() == 0 {
    } else {
        lemma_one_match_per_line(lines.drop_last(), table);
    }
}

/// The reader actor's state: the partial line read from the device so far.
pub struct ReaderState {
    acc: LineAccum,
}

/// What one reader step requires of the surrounding thread: `echoed` goes
/// raw to the console and the log, each element of `responses` is written
/// back to the device and logged, and `outcome` steers the loop.
pub struct ReaderStep {
    /// The raw chunk to show on the console and append to the log.
    pub echoed: Option<Vec<u8>>,
    /// The newline-terminated auto-responses to write to the device.
    pub responses: Vec<Vec<u8>>,
    /// Whether the loop proceeds, sleeps or exits.
    pub outcome: StepOutcome,
}

impl View for ReaderState {
    type V = Seq<u8>;

    closed spec fn view(&self) -> Seq<u8> {
        self.acc@
    }
}

impl ReaderState {
    /// The buffered bytes hold no newline.
    pub open spec fn wf(&self) -> bool {
        no_nl(self@)
    }

    /// A reader that has seen no bytes yet.
    pub fn new() -> (r: ReaderState)
        ensures
            r@ == Seq::<u8>::empty(),
            r.wf(),
    {
        ReaderState { acc: LineAccum::new() }
    }

    /// One iteration of the reader loop, given the stop flag as last
    /// observed and the outcome of the read. After observing the flag false
    /// the step orders no write and no echo; end-of-stream and errors end
    /// the loop without touching the buffered bytes; data is echoed raw
    /// exactly once, and every line it completes is matched, in order.
    pub fn step(&mut self, running: bool, event: IoEvent, table: &CommandTable) -> (r: ReaderStep)
        requires
            old(self).wf(),
        ensures
            final(self).wf(),
            !running ==> r.outcome is Halted,
            running && event is Eof ==> r.outcome is EndOfStream,
            running && event is WouldBlock ==> r.outcome is SleepRetry,
            running && event is ReadError ==> r.outcome is Failed,
            !(running && event is Data) ==> r.responses@.len() == 0 && r.echoed is None
                && final(self)@ == old(self)@,
            running ==> (event matches IoEvent::Data(d) ==> r.outcome is Proceed && (
            r.echoed matches Some(e) && e@ == d@) && r.responses.deep_view() == reader_responses(
                old(self)@,
                d@,
                table@,
            ) && final(self)@ == partial_line(old(self)@ + d@)),
    {
        if !running {
            return ReaderStep { echoed: None, responses: Vec::new(), outcome: StepOutcome::Halted };
        }
        match event {
            IoEvent::Eof => ReaderStep {
                echoed: None,
                responses: Vec::new(),
                outcome: StepOutcome::EndOfStream,
            },
            IoEvent::WouldBlock => ReaderStep {
                echoed: None,
                responses: Vec::new(),
                outcome: StepOutcome::SleepRetry,
            },
            IoEvent::ReadError => ReaderStep {
                echoed: None,
                responses: Vec::new(),
                outcome: StepOutcome::Failed,
            },
            IoEvent::Data(d) => {
                let ghost pending = self.acc@;
                let lines = self.acc.push_and_split(&d);
                let ghost ls = lines.deep_view();
                let mut responses: Vec<Vec<u8>> = Vec::new();
                proof {
                    assert(ls.take(0) =~= Seq::<Seq<u8>>::empty());
                }
                let mut i: usize = 0;
                while i < lines.len()
                    invariant
                        i <= lines@.len(),
                        ls == lines.deep_view(),
                        ls.len() == lines@.len(),
                        responses.deep_view() == response_lines(ls.take(i as int), table@),
                    decreases lines@.len() - i,
                {
                    proof {
                        assert(ls[i as int] =~= lines@[i as int]@);
                        assert(ls.take(i + 1).drop_last() =~= ls.take(i as int));
                        assert(ls.take(i + 1).last() == ls[i as int]);
                    }
                    let resp = table.recognize(&lines[i]);
                    match resp {
                        Option::Some(found) => {
                            let mut out = found;
                            out.push(NL);
                            let ghost before = responses.deep_view();
                            responses.push(out);
                            proof {
                                assert(responses.deep_view() =~~= before.push(out@));
                            }
                        },
                        Option::None => {},
                    }
                    i = i + 1;
                }
                proof {
                    assert(ls.take(ls.len() as int) =~= ls);
                }
                ReaderStep { echoed: Some(d), responses, outcome: StepOutcome::Proceed }
            },
        }
    }
}

/// The writer actor's state: the partial console line gathered so far.
pub struct WriterState {
    acc: LineAccum,
}

/// What one writer step requires of the surrounding thread: each element of
/// `sends` is written to the device and logged, and `outcome` steers the
/// loop.
pub struct WriterStep {
    /// The lines to write to the device, recognized ones replaced by their
    /// response.
    pub sends: Vec<Vec<u8>>,
    /// Whether the loop proceeds, sleeps or exits.
    pub outcome: StepOutcome,
}

impl View for WriterState {
    type V = Seq<u8>;

    closed spec fn view(&self) -> Seq<u8> {
        self.acc@
    }
}

impl WriterState {
    /// The buffered bytes hold no newline.
    pub open spec fn wf(&self) -> bool {
        no_nl(self@)
    }

    /// A writer that has seen no console input yet.
    pub fn new() -> (r: WriterState)
        ensures
            r@ == Seq::<u8>::empty(),
            r.wf(),
    {
        WriterState { acc: LineAccum::new() }
    }

    /// One iteration of the writer loop, given the stop flag as last
    /// observed and the outcome of the console read. End-of-stream on the
    /// input ends the loop without error and without a further write; after
    /// observing the flag false nothing is written. Each complete input
    /// line goes to the device exactly once: replaced by its response if
    /// recognized, raw otherwise.
    pub fn step(&mut self, running: bool, event: IoEvent, table: &CommandTable) -> (r: WriterStep)
        requires
            old(self).wf(),
        ensures
            final(self).wf(),
            !running ==> r.outcome is Halted,
            running && event is Eof ==> r.outcome is EndOfStream,
            running && event is WouldBlock ==> r.outcome is SleepRetry,
            running && event is ReadError ==> r.outcome is Failed,
            !(running && event is Data) ==> r.sends@.len() == 0 && final(self)@ == old(self)@,
            running ==> (event matches IoEvent::Data(d) ==> r.outcome is Proceed
                && r.sends.deep_view() == writer_sends(old(self)@, d@, table@) && final(self)@
                == partial_line(old(self)@ + d@)),
    {
        if !running {
            return WriterStep { sends: Vec::new(), outcome: StepOutcome::Halted };
        }
        match event {
            IoEvent::Eof => WriterStep { sends: Vec::new(), outcome: StepOutcome::EndOfStream },
            IoEvent::WouldBlock => WriterStep {
                sends: Vec::new(),
                outcome: StepOutcome::SleepRetry,
            },
            IoEvent::ReadError => WriterStep { sends: Vec::new(), outcome: StepOutcome::Failed },
            IoEvent::Data(d) => {
                let lines = self.acc.push_and_split(&d);
                let ghost ls = lines.deep_view();
                let mut sends: Vec<Vec<u8>> = Vec::new();
                proof {
                    assert(ls.take(0) =~= Seq::<Seq<u8>>::empty());
                }
                let mut i: usize = 0;
                while i < lines.len()
                    invariant
                        i <= lines@.len(),
                        ls == lines.deep_view(),
                        ls.len() == lines@.len(),
                        sends.deep_view() == forwarded_lines(ls.take(i as int), table@),
                    decreases lines@.len() - i,
                {
                    proof {
                        assert(ls[i as int] =~= lines@[i as int]@);
                        assert(ls.take(i + 1).drop_last() =~= ls.take(i as int));
                        assert(ls.take(i + 1).last() == ls[i as int]);
                    }
                    let resp = table.recognize(&lines[i]);
                    let ghost before = sends.deep_view();
                    match resp {
                        Option::Some(found) => {
                            let mut out = found;
                            out.push(NL);
                            sends.push(out);
                            proof {
                                assert(sends.deep_view() =~~= before.push(out@));
                            }
                        },
                        Option::None => {
                            let raw = copy_bytes(&lines[i]);
                            sends.push(raw);
                            proof {
                                assert(sends.deep_view() =~~= before.push(raw@));
                            }
                        },
                    }
                    i = i + 1;
                }
                proof {
                    assert(ls.take(ls.len() as int) =~= ls);
                }
                WriterStep { sends, outcome: StepOutcome::Proceed }
            },
        }
    }
}

} // verus!
