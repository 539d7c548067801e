//! One request/reply exchange on a half-duplex serial line, as a state
//! machine.
//!
//! The machine does no input or output. It tells its host what to do next
//! (an `Action`), the host does it and reports back through one of
//! `advance`, `written`, `received` and `failed`.

use crate::frame::{announced_len, reply_frame_len, ModbusError, FRAME_CAPACITY, HEAD_LEN};
use vstd::prelude::*;

verus! {

/// What the host is to do next.
#[derive(Clone, Copy, Debug, PartialEq, Eq)]
pub enum Action {
    /// Drive the direction-enable line high and let it settle for 10 µs.
    EnableDriver,
    /// Write the request from byte `from` on, as much as the line takes.
    Write { from: usize },
    /// Wait until the transmitter has sent everything.
    Flush,
    /// Drive the direction-enable line low and let it settle for 10 µs.
    DisableDriver,
    /// Read up to `max` bytes of the reply.
    Read { max: usize },
    /// The reply is complete: its first `len` bytes are the frame.
    Complete { len: usize },
    /// The exchange has failed.
    Abort(ModbusError),
}

/// Where an exchange stands. Each stage but the last two names the action
/// that the host was last asked for.
#[derive(Clone, Copy, Debug, PartialEq, Eq)]
pub enum Stage {
    Enabling,
    Sending,
    Flushing,
    Disabling,
    /// Lowering the direction-enable line before giving up.
    Releasing(ModbusError),
    /// Reading the first `HEAD_LEN` bytes of the reply.
    Head,
    /// Reading the rest of the reply.
    Body,
    Done,
    Failed(ModbusError),
}

/// The state of an exchange as contracts see it.
pub struct ExchangeState {
    pub stage: Stage,
    /// Whether the host has a direction-enable line to drive.
    pub driver: bool,
    pub request_len: nat,
    /// Request bytes written so far.
    pub sent: nat,
    /// Reply bytes received so far.
    pub reply: Seq<u8>,
    /// Length of the reply frame, once its head has announced it.
    pub reply_len: nat,
}

impl ExchangeState {
    /// The direction-enable line is, or may be, high.
    pub open spec fn driven(self) -> bool {
        self.driver && (self.stage is Enabling || self.stage is Sending || self.stage is Flushing
            || self.stage is Disabling || self.stage is Releasing)
    }

    /// The exchange is over, with a reply or without.
    pub open spec fn finished(self) -> bool {
        self.stage is Done || self.stage is Failed
    }

    /// What holds of every exchange: no more was sent than the request has,
    /// the reply fits its buffer, and each stage has what the stages before
    /// it have left.
    pub open spec fn wf(self) -> bool {
        &&& self.sent <= self.request_len
        &&& self.reply.len() < FRAME_CAPACITY
        &&& match self.stage {
            Stage::Enabling => self.driver && self.sent == 0 && self.reply.len() == 0,
            Stage::Sending => self.sent < self.request_len && self.reply.len() == 0,
            Stage::Flushing => self.sent == self.request_len && self.reply.len() == 0,
            Stage::Disabling => self.driver && self.sent == self.request_len && self.reply.len()
                == 0,
            Stage::Releasing(_) => self.driver,
            Stage::Head => self.sent == self.request_len && self.reply.len() < HEAD_LEN,
            Stage::Body => {
                &&& self.sent == self.request_len
                &&& HEAD_LEN <= self.reply.len() < self.reply_len < FRAME_CAPACITY
                &&& announced_len(self.reply[1], self.reply[2]) == Some(self.reply_len as u8)
            },
            Stage::Done => {
                &&& self.sent == self.request_len
                &&& self.reply_len < FRAME_CAPACITY
                &&& announced_len(self.reply[1], self.reply[2]) == Some(self.reply_len as u8)
                &&& self.reply.len() == if self.reply_len > HEAD_LEN {
                    self.reply_len
                } else {
                    HEAD_LEN as nat
                }
            },
            Stage::Failed(_) => true,
        }
    }

    /// The reply frame of a finished exchange.
    pub open spec fn frame(self) -> Seq<u8> {
        self.reply.subrange(0, self.reply_len as int)
    }

    /// What is asked of the host once the line is ready for the request.
    pub open spec fn send(self) -> (Self, Action) {
        if self.sent < self.request_len {
            (Self { stage: Stage::Sending, ..self }, Action::Write { from: self.sent as usize })
        } else {
            (Self { stage: Stage::Flushing, ..self }, Action::Flush)
        }
    }

    /// Giving up with `error`, after lowering the line where it may be high.
    pub open spec fn fail(self, error: ModbusError) -> (Self, Action) {
        if self.driven() {
            (Self { stage: Stage::Releasing(error), ..self }, Action::DisableDriver)
        } else {
            (Self { stage: Stage::Failed(error), ..self }, Action::Abort(error))
        }
    }

    /// A finished exchange answers every report with its result.
    pub open spec fn rest(self) -> (Self, Action) {
        match self.stage {
            Stage::Done => (self, Action::Complete { len: self.reply_len as usize }),
            Stage::Failed(error) => (self, Action::Abort(error)),
            _ => self.fail(ModbusError::OutOfTurn),
        }
    }

    /// A new exchange and its first action: the line is raised where there
    /// is one, else the request is sent at once.
    pub open spec fn begin(request_len: nat, driver: bool) -> (Self, Action) {
        let fresh = Self {
            stage: Stage::Sending,
            driver,
            request_len,
            sent: 0,
            reply: Seq::empty(),
            reply_len: 0,
        };
        if driver {
            (Self { stage: Stage::Enabling, ..fresh }, Action::EnableDriver)
        } else {
            fresh.send()
        }
    }

    /// The host has done what `EnableDriver`, `Flush` or `DisableDriver`
    /// asked for.
    pub open spec fn advance(self) -> (Self, Action) {
        match self.stage {
            Stage::Enabling => self.send(),
            Stage::Flushing => if self.driver {
                (Self { stage: Stage::Disabling, ..self }, Action::DisableDriver)
            } else {
                (Self { stage: Stage::Head, ..self }, Action::Read { max: HEAD_LEN })
            },
            Stage::Disabling => (Self { stage: Stage::Head, ..self }, Action::Read { max: HEAD_LEN }),
            Stage::Releasing(error) => (
                Self { stage: Stage::Failed(error), ..self },
                Action::Abort(error),
            ),
            _ => self.rest(),
        }
    }

    /// The line took `n` bytes of what `Write` offered.
    pub open spec fn written(self, n: nat) -> (Self, Action) {
        if self.stage is Sending {
            if n <= self.request_len - self.sent {
                Self { sent: self.sent + n, ..self }.send()
            } else {
                self.fail(ModbusError::OutOfTurn)
            }
        } else {
            self.rest()
        }
    }

    /// Where the reply stands once it is `reply` and the head is complete.
    pub open spec fn settle(self, reply: Seq<u8>) -> (Self, Action) {
        match announced_len(reply[1], reply[2]) {
            Some(n) => if reply.len() < n {
                (
                    Self { stage: Stage::Body, reply, reply_len: n as nat, ..self },
                    Action::Read { max: (n - reply.len()) as usize },
                )
            } else {
                (
                    Self { stage: Stage::Done, reply, reply_len: n as nat, ..self },
                    Action::Complete { len: n as usize },
                )
            },
            None => Self { reply, ..self }.fail(ModbusError::Length),
        }
    }

    /// The bytes that are still to come before the reply can be judged
    /// again: the rest of the head, or the rest of the frame.
    pub open spec fn wanted(self) -> nat {
        if self.stage is Head {
            (HEAD_LEN - self.reply.len()) as nat
        } else if self.stage is Body {
            (self.reply_len - self.reply.len()) as nat
        } else {
            0
        }
    }
}

impl ExchangeState {
    /// The host has read `bytes` for the last `Read`.
    pub open spec fn received(self, bytes: Seq<u8>) -> (Self, Action) {
        if self.stage is Head || self.stage is Body {
            let reply = self.reply + bytes;
            if bytes.len() > self.wanted() {
                self.fail(ModbusError::OutOfTurn)
            } else if bytes.len() < self.wanted() {
                (
                    Self { reply, ..self },
                    Action::Read { max: (self.wanted() - bytes.len()) as usize },
                )
            } else if self.stage is Head {
                self.settle(reply)
            } else {
                (
                    Self { stage: Stage::Done, reply, ..self },
                    Action::Complete { len: self.reply_len as usize },
                )
            }
        } else {
            self.rest()
        }
    }

    /// The host could not do what it was last asked for.
    pub open spec fn failed(self) -> (Self, Action) {
        match self.stage {
            Stage::Disabling => (
                Self { stage: Stage::Failed(ModbusError::Timeout), ..self },
                Action::Abort(ModbusError::Timeout),
            ),
            Stage::Releasing(error) => (
                Self { stage: Stage::Failed(error), ..self },
                Action::Abort(error),
            ),
            Stage::Done | Stage::Failed(_) => self.rest(),
            _ => self.fail(ModbusError::Timeout),
        }
    }
}

/// What the host reports back. For contracts only: the host calls the
/// method of the same name.
pub enum Report {
    Advance,
    Written(nat),
    Received(Seq<u8>),
    Failed,
}

impl ExchangeState {
    /// The exchange after `report`, and the action that it hands out.
    pub open spec fn step(self, report: Report) -> (Self, Action) {
        match report {
            Report::Advance => self.advance(),
            Report::Written(n) => self.written(n),
            Report::Received(bytes) => self.received(bytes),
            Report::Failed => self.failed(),
        }
    }

    /// The action that an exchange in this state is waiting for.
    pub open spec fn pending(self) -> Action {
        match self.stage {
            Stage::Enabling => Action::EnableDriver,
            Stage::Sending => Action::Write { from: self.sent as usize },
            Stage::Flushing => Action::Flush,
            Stage::Disabling | Stage::Releasing(_) => Action::DisableDriver,
            Stage::Head | Stage::Body => Action::Read { max: self.wanted() as usize },
            Stage::Done => Action::Complete { len: self.reply_len as usize },
            Stage::Failed(error) => Action::Abort(error),
        }
    }

    /// `report` tells how the pending action went, and the action got
    /// somewhere: at least one byte was written or read.
    pub open spec fn answered_by(self, report: Report) -> bool {
        match report {
            Report::Advance => self.stage is Enabling || self.stage is Flushing
                || self.stage is Disabling || self.stage is Releasing,
            Report::Written(n) => self.stage is Sending && 0 < n <= self.request_len - self.sent,
            Report::Received(bytes) => (self.stage is Head || self.stage is Body) && 0
                < bytes.len() <= self.wanted(),
            Report::Failed => !self.finished(),
        }
    }

    /// An upper bound on the number of reports that an exchange in this
    /// state still takes.
    pub open spec fn effort(self) -> nat {
        let to_send = (self.request_len - self.sent) as nat;
        match self.stage {
            Stage::Enabling => 6 + to_send + FRAME_CAPACITY as nat,
            Stage::Sending => 5 + to_send + FRAME_CAPACITY as nat,
            Stage::Flushing => 4 + to_send + FRAME_CAPACITY as nat,
            Stage::Disabling => 3 + to_send + FRAME_CAPACITY as nat,
            Stage::Head => 2 + to_send + (FRAME_CAPACITY - self.reply.len()) as nat,
            Stage::Body => 1 + to_send + (self.reply_len - self.reply.len()) as nat,
            Stage::Releasing(_) => 1,
            Stage::Done | Stage::Failed(_) => 0,
        }
    }
}

/// Whatever the host reports, the exchange stays well formed, and the
/// action that it hands out is the one that its new state is waiting for:
/// a `Write` starts at the first byte not yet sent, a `Read` asks for no
/// more than what is missing, and a finished exchange repeats its result.
pub proof fn law_action_fits_state(state: ExchangeState, report: Report)
    requires
        state.wf(),
    ensures
        state.step(report).0.wf(),
        state.step(report).1 == state.step(report).0.pending(),
        state.step(report).0.driver == state.driver,
        state.step(report).0.request_len == state.request_len,
{
}

/// The direction-enable line is let go on every way out. A state in which
/// the line may be high is left only on a report about `DisableDriver`, so
/// an exchange that has raised the line does not finish before the host
/// was asked to lower it, also where it fails.
pub proof fn law_line_released(state: ExchangeState, report: Report)
    requires
        state.wf(),
        state.driven(),
        !state.step(report).0.driven(),
    ensures
        state.pending() == Action::DisableDriver,
        report is Advance || report is Failed,
        state.step(report).0.finished() || state.step(report).0.stage is Head,
{
}

/// An exchange ends. Every report that answers the pending action, with at
/// least one byte where bytes were to move, brings it strictly closer to its
/// end.
pub proof fn law_progress(state: ExchangeState, report: Report)
    requires
        state.wf(),
        state.answered_by(report),
    ensures
        state.step(report).0.effort() < state.effort(),
{
}

/// A complete reply is what the host handed in, in order: each report adds
/// its bytes at the end, or leaves the reply as it is.
pub proof fn law_reply_grows(state: ExchangeState, report: Report)
    requires
        state.wf(),
    ensures
        state.step(report).0.reply == match report {
            Report::Received(bytes) if state.answered_by(report) => state.reply + bytes,
            _ => state.reply,
        },
{
}

/// The sum of `counts`.
pub open spec fn total(counts: Seq<nat>) -> nat
    decreases counts.len(),
{
    if counts.len() == 0 {
        0
    } else {
        total(counts.drop_last()) + counts.last()
    }
}

impl ExchangeState {
    /// The exchange after the line has taken `counts` bytes, one write
    /// after the other.
    pub open spec fn write_all(self, counts: Seq<nat>) -> Self
        decreases counts.len(),
    {
        if counts.len() == 0 {
            self
        } else {
            self.write_all(counts.drop_last()).written(counts.last()).0
        }
    }
}

/// The request goes out whole, however the line cuts it up. While the
/// writes have taken fewer bytes than the request has, the exchange waits
/// for the next write, which by `law_action_fits_state` begins at the first
/// byte that was not taken; once they have taken all of it, and not before,
/// the exchange waits for the transmitter.
pub proof fn law_request_sent(state: ExchangeState, counts: Seq<nat>)
    requires
        state.wf(),
        state.stage is Sending,
        state.sent == 0,
        total(counts) <= state.request_len,
        counts.len() > 0 ==> total(counts.drop_last()) < state.request_len,
    ensures
        state.write_all(counts) == (ExchangeState {
            stage: if total(counts) < state.request_len {
                Stage::Sending
            } else {
                Stage::Flushing
            },
            sent: total(counts),
            ..state
        }),
    decreases counts.len(),
{
    if counts.len() > 0 {
        law_request_sent(state, counts.drop_last());
    }
}

/// The bytes of `chunks`, one chunk after the other.
pub open spec fn joined(chunks: Seq<Seq<u8>>) -> Seq<u8>
    decreases chunks.len(),
{
    if chunks.len() == 0 {
        Seq::empty()
    } else {
        joined(chunks.drop_last()) + chunks.last()
    }
}

impl ExchangeState {
    /// The exchange after the host has handed in `chunks`, one read after
    /// the other.
    pub open spec fn receive_all(self, chunks: Seq<Seq<u8>>) -> Self
        decreases chunks.len(),
    {
        if chunks.len() == 0 {
            self
        } else {
            self.receive_all(chunks.drop_last()).received(chunks.last()).0
        }
    }

    /// No read has brought more bytes than it was asked for.
    pub open spec fn within_asked(self, chunks: Seq<Seq<u8>>) -> bool
        decreases chunks.len(),
    {
        chunks.len() == 0 || (self.within_asked(chunks.drop_last()) && chunks.last().len()
            <= self.receive_all(chunks.drop_last()).wanted())
    }

    /// The exchange that waits for a reply of which `fed` has come in so
    /// far, where the whole reply is going to be `all`.
    pub open spec fn reading(self, fed: Seq<u8>, all: Seq<u8>) -> Self {
        let n = announced_len(all[1], all[2])->0 as nat;
        ExchangeState {
            stage: if fed.len() < HEAD_LEN {
                Stage::Head
            } else if fed.len() < all.len() {
                Stage::Body
            } else {
                Stage::Done
            },
            reply: fed,
            reply_len: if fed.len() < HEAD_LEN {
                self.reply_len
            } else {
                n
            },
            ..self
        }
    }
}

/// A reply as the unit sends it: a head that announces a length, and as
/// many bytes as announced, but no fewer than the head.
pub open spec fn whole_reply(all: Seq<u8>) -> bool {
    &&& all.len() >= HEAD_LEN
    &&& announced_len(all[1], all[2]) matches Some(n) && all.len() == if n > HEAD_LEN {
        n as nat
    } else {
        HEAD_LEN as nat
    }
}

proof fn lemma_receive_prefix(state: ExchangeState, chunks: Seq<Seq<u8>>, all: Seq<u8>)
    requires
        state.wf(),
        state.stage is Head,
        state.reply.len() == 0,
        whole_reply(all),
        state.within_asked(chunks),
        joined(chunks).len() <= all.len(),
        joined(chunks) == all.subrange(0, joined(chunks).len() as int),
    ensures
        state.receive_all(chunks) == state.reading(joined(chunks), all),
    decreases chunks.len(),
{
    if chunks.len() == 0 {
        assert(state.reply =~= Seq::<u8>::empty());
    } else {
        let before = chunks.drop_last();
        let fed = joined(before);
        let now = joined(chunks);
        assert(fed =~= now.subrange(0, fed.len() as int));
        assert(fed =~= all.subrange(0, fed.len() as int));
        lemma_receive_prefix(state, before, all);
        let at = state.receive_all(before);
        if now.len() >= HEAD_LEN {
            assert(now[1] == all[1] && now[2] == all[2]);
        }
        assert(at.received(chunks.last()).0 == state.reading(now, all));
    }
}

/// The reply arrives whole, however the line cuts it up. When the host
/// hands in the bytes of a reply in any number of reads, none of which
/// brings more than it was asked for, the exchange is complete exactly when
/// the last byte is in, and its frame is the reply up to the announced
/// length.
pub proof fn law_reply_delivered(state: ExchangeState, chunks: Seq<Seq<u8>>)
    requires
        state.wf(),
        state.stage is Head,
        state.reply.len() == 0,
        state.within_asked(chunks),
        whole_reply(joined(chunks)),
    ensures
        state.receive_all(chunks).stage is Done,
        state.receive_all(chunks).reply == joined(chunks),
        state.receive_all(chunks).frame() == joined(chunks).subrange(
            0,
            announced_len(joined(chunks)[1], joined(chunks)[2])->0 as int,
        ),
        forall|k: int|
            0 <= k < chunks.len() && joined(chunks.take(k)).len() < joined(chunks).len()
                ==> !state.receive_all(#[trigger] chunks.take(k)).finished(),
{
    let all = joined(chunks);
    assert(all =~= all.subrange(0, all.len() as int));
    lemma_receive_prefix(state, chunks, all);
    assert forall|k: int|
        0 <= k < chunks.len() && joined(chunks.take(k)).len() < all.len() implies !state.receive_all(
        #[trigger] chunks.take(k),
    ).finished() by {
        lemma_joined_prefix(chunks, k);
        lemma_within_prefix(state, chunks, k);
        lemma_receive_prefix(state, chunks.take(k), all);
    }
}

proof fn lemma_joined_prefix(chunks: Seq<Seq<u8>>, k: int)
    requires
        0 <= k <= chunks.len(),
    ensures
        joined(chunks.take(k)).len() <= joined(chunks).len(),
        joined(chunks.take(k)) == joined(chunks).subrange(0, joined(chunks.take(k)).len() as int),
    decreases chunks.len(),
{
    if k == chunks.len() {
        assert(chunks.take(k) =~= chunks);
        assert(joined(chunks) =~= joined(chunks).subrange(0, joined(chunks).len() as int));
    } else {
        assert(chunks.drop_last().take(k) =~= chunks.take(k));
        lemma_joined_prefix(chunks.drop_last(), k);
        assert(joined(chunks.take(k)) =~= joined(chunks).subrange(
            0,
            joined(chunks.take(k)).len() as int,
        ));
    }
}

proof fn lemma_within_prefix(state: ExchangeState, chunks: Seq<Seq<u8>>, k: int)
    requires
        0 <= k <= chunks.len(),
        state.within_asked(chunks),
    ensures
        state.within_asked(chunks.take(k)),
    decreases chunks.len(),
{
    if k == chunks.len() {
        assert(chunks.take(k) =~= chunks);
    } else {
        assert(chunks.drop_last().take(k) =~= chunks.take(k));
        lemma_within_prefix(state, chunks.drop_last(), k);
    }
}

/// One exchange in progress. It keeps the reply as it comes in.
pub struct Exchange {
    stage: Stage,
    driver: bool,
    request_len: usize,
    sent: usize,
    reply: Vec<u8>,
    reply_len: usize,
}

impl View for Exchange {
    type V = ExchangeState;

    closed spec fn view(&self) -> ExchangeState {
        ExchangeState {
            stage: self.stage,
            driver: self.driver,
            request_len: self.request_len as nat,
            sent: self.sent as nat,
            reply: self.reply@,
            reply_len: self.reply_len as nat,
        }
    }
}

impl Exchange {
    /// Starts the exchange of a request of `request_len` bytes. `driver`
    /// says whether the host has a direction-enable line.
    pub fn begin(request_len: usize, driver: bool) -> (r: (Exchange, Action))
        ensures
            (r.0@, r.1) == ExchangeState::begin(request_len as nat, driver),
            r.0@.wf(),
    {
        let stage = if driver {
            Stage::Enabling
        } else if request_len > 0 {
            Stage::Sending
        } else {
            Stage::Flushing
        };
        let action = if driver {
            Action::EnableDriver
        } else if request_len > 0 {
            Action::Write { from: 0 }
        } else {
            Action::Flush
        };
        (Exchange { stage, driver, request_len, sent: 0, reply: Vec::new(), reply_len: 0 }, action)
    }

    /// The action that the host is to perform next.
    pub fn pending(&self) -> (action: Action)
        requires
            self@.wf(),
        ensures
            action == self@.pending(),
    {
        match self.stage {
            Stage::Enabling => Action::EnableDriver,
            Stage::Sending => Action::Write { from: self.sent },
            Stage::Flushing => Action::Flush,
            Stage::Disabling | Stage::Releasing(_) => Action::DisableDriver,
            Stage::Head => Action::Read { max: HEAD_LEN - self.reply.len() },
            Stage::Body => Action::Read { max: self.reply_len - self.reply.len() },
            Stage::Done => Action::Complete { len: self.reply_len },
            Stage::Failed(error) => Action::Abort(error),
        }
    }

    /// The reply bytes received so far.
    pub fn reply(&self) -> (r: &Vec<u8>)
        ensures
            r@ == self@.reply,
    {
        &self.reply
    }

    /// The reply frame, once the exchange is complete.
    pub fn frame(&self) -> (r: Option<&[u8]>)
        requires
            self@.wf(),
        ensures
            match r {
                Some(f) => self@.stage is Done && f@ == self@.frame(),
                None => !(self@.stage is Done),
            },
    {
        match self.stage {
            Stage::Done => Some(
                vstd::slice::slice_subrange(self.reply.as_slice(), 0, self.reply_len),
            ),
            _ => None,
        }
    }

    fn send(&mut self) -> (action: Action)
        requires
            old(self)@.sent <= old(self)@.request_len,
        ensures
            (final(self)@, action) == old(self)@.send(),
    {
        if self.sent < self.request_len {
            self.stage = Stage::Sending;
            Action::Write { from: self.sent }
        } else {
            self.stage = Stage::Flushing;
            Action::Flush
        }
    }

    fn fail(&mut self, error: ModbusError) -> (action: Action)
        ensures
            (final(self)@, action) == old(self)@.fail(error),
    {
        let driven = self.driver && match self.stage {
            Stage::Enabling | Stage::Sending | Stage::Flushing | Stage::Disabling
            | Stage::Releasing(_) => true,
            _ => false,
        };
        if driven {
            self.stage = Stage::Releasing(error);
            Action::DisableDriver
        } else {
            self.stage = Stage::Failed(error);
            Action::Abort(error)
        }
    }

    fn rest(&mut self) -> (action: Action)
        ensures
            (final(self)@, action) == old(self)@.rest(),
    {
        match self.stage {
            Stage::Done => Action::Complete { len: self.reply_len },
            Stage::Failed(error) => Action::Abort(error),
            _ => self.fail(ModbusError::OutOfTurn),
        }
    }

    /// The host has done what `EnableDriver`, `Flush` or `DisableDriver`
    /// asked for.
    pub fn advance(&mut self) -> (action: Action)
        requires
            old(self)@.wf(),
        ensures
            (final(self)@, action) == old(self)@.advance(),
            final(self)@.wf(),
    {
        match self.stage {
            Stage::Enabling => self.send(),
            Stage::Flushing => if self.driver {
                self.stage = Stage::Disabling;
                Action::DisableDriver
            } else {
                self.stage = Stage::Head;
                Action::Read { max: HEAD_LEN }
            },
            Stage::Disabling => {
                self.stage = Stage::Head;
                Action::Read { max: HEAD_LEN }
            },
            Stage::Releasing(error) => {
                self.stage = Stage::Failed(error);
                Action::Abort(error)
            },
            _ => self.rest(),
        }
    }

    /// The line took `n` bytes of what the last `Write` offered.
    pub fn written(&mut self, n: usize) -> (action: Action)
        requires
            old(self)@.wf(),
        ensures
            (final(self)@, action) == old(self)@.written(n as nat),
            final(self)@.wf(),
    {
        match self.stage {
            Stage::Sending => if n <= self.request_len - self.sent {
                self.sent = self.sent + n;
                self.send()
            } else {
                self.fail(ModbusError::OutOfTurn)
            },
            _ => self.rest(),
        }
    }

    /// The host has read `bytes` for the last `Read`.
    pub fn received(&mut self, bytes: &[u8]) -> (action: Action)
        requires
            old(self)@.wf(),
        ensures
            (final(self)@, action) == old(self)@.received(bytes@),
            final(self)@.wf(),
    {
        let wanted = match self.stage {
            Stage::Head => HEAD_LEN - self.reply.len(),
            Stage::Body => self.reply_len - self.reply.len(),
            _ => {
                return self.rest();
            },
        };
        if bytes.len() > wanted {
            return self.fail(ModbusError::OutOfTurn);
        }
        self.reply.extend_from_slice(bytes);
        assert(self.reply@ =~= old(self)@.reply + bytes@);
        if bytes.len() < wanted {
            return Action::Read { max: wanted - bytes.len() };
        }
        match self.stage {
            Stage::Head => match reply_frame_len(self.reply.as_slice()) {
                Some(n) => {
                    self.reply_len = n as usize;
                    if self.reply.len() < self.reply_len {
                        self.stage = Stage::Body;
                        Action::Read { max: self.reply_len - self.reply.len() }
                    } else {
                        self.stage = Stage::Done;
                        Action::Complete { len: self.reply_len }
                    }
                },
                None => self.fail(ModbusError::Length),
            },
            _ => {
                self.stage = Stage::Done;
                Action::Complete { len: self.reply_len }
            },
        }
    }

    /// The host could not do what it was last asked for.
    pub fn failed(&mut self) -> (action: Action)
        requires
            old(self)@.wf(),
        ensures
            (final(self)@, action) == old(self)@.failed(),
            final(self)@.wf(),
    {
        match self.stage {
            Stage::Disabling => {
                self.stage = Stage::Failed(ModbusError::Timeout);
                Action::Abort(ModbusError::Timeout)
            },
            Stage::Releasing(error) => {
                self.stage = Stage::Failed(error);
                Action::Abort(error)
            },
            Stage::Done | Stage::Failed(_) => self.rest(),
            _ => self.fail(ModbusError::Timeout),
        }
    }
}

} // verus!
