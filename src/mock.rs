//! Expectation engine for testing drivers without hardware.
//!
//! A `Mock` session mints bus, pin and delay handles, each with an identity of its
//! own. Every operation issued through a handle is appended, tagged with that
//! identity, to the session's log of actual calls; `finalise` then compares that
//! log with the expected one. Where the expectation at the cursor is of the same
//! kind as a reading operation, the expected inbound data is what the caller reads.
//!
//! The session state, `Inner`, carries the exact contracts of the engine. The
//! session and its handles share it behind a lock, and any handle may change it
//! between two calls of another, so their own contracts state only what holds
//! whatever the state was.
use vstd::prelude::*;
use vstd::rwlock::{RwLock, RwLockPredicate};
use vstd::slice::slice_to_vec;

use std::sync::Arc;

use crate::{
    BusEvent, DelayUs, Error, InputPin, Operation, OutputPin, PinState, PrefixRead, PrefixWrite,
    Busy, Ready, Reset, SpiBus, Transactional,
};

verus! {

/// Identity of a handle minted by a mock session
pub type Id = u32;

/// A transaction, expected or recorded
#[derive(Clone, Debug, PartialEq)]
pub enum MockTransaction {
    Empty,
    SpiWrite(Id, Vec<u8>, Vec<u8>),
    SpiRead(Id, Vec<u8>, Vec<u8>),
    SpiExec(Id, Vec<MockExec>),
    Busy(Id, PinState),
    Ready(Id, PinState),
    Reset(Id, PinState),
    Write(Id, Vec<u8>),
    Transfer(Id, Vec<u8>, Vec<u8>),
    IsHigh(Id, bool),
    IsLow(Id, bool),
    SetHigh(Id),
    SetLow(Id),
    DelayMs(u32),
    DelayUs(u32),
}

/// One step of an expected or recorded transaction
#[derive(Clone, Debug, PartialEq)]
pub enum MockExec {
    SpiWrite(Vec<u8>),
    SpiTransfer(Vec<u8>, Vec<u8>),
}

/// The value of a `MockExec`
pub enum ExecView {
    SpiWrite(Seq<u8>),
    SpiTransfer(Seq<u8>, Seq<u8>),
}

/// The value of a `MockTransaction`
pub enum TxView {
    Empty,
    SpiWrite(Id, Seq<u8>, Seq<u8>),
    SpiRead(Id, Seq<u8>, Seq<u8>),
    SpiExec(Id, Seq<ExecView>),
    Busy(Id, PinState),
    Ready(Id, PinState),
    Reset(Id, PinState),
    Write(Id, Seq<u8>),
    Transfer(Id, Seq<u8>, Seq<u8>),
    IsHigh(Id, bool),
    IsLow(Id, bool),
    SetHigh(Id),
    SetLow(Id),
    DelayMs(u32),
    DelayUs(u32),
}

impl View for MockExec {
    type V = ExecView;

    open spec fn view(&self) -> ExecView {
        match self {
            MockExec::SpiWrite(d) => ExecView::SpiWrite(d@),
            MockExec::SpiTransfer(o, i) => ExecView::SpiTransfer(o@, i@),
        }
    }
}

/// The values of a list of steps
pub open spec fn exec_views(steps: Seq<MockExec>) -> Seq<ExecView> {
    steps.map_values(|e: MockExec| e@)
}

impl View for MockTransaction {
    type V = TxView;

    open spec fn view(&self) -> TxView {
        match self {
            MockTransaction::Empty => TxView::Empty,
            MockTransaction::SpiWrite(id, p, d) => TxView::SpiWrite(*id, p@, d@),
            MockTransaction::SpiRead(id, p, d) => TxView::SpiRead(*id, p@, d@),
            MockTransaction::SpiExec(id, e) => TxView::SpiExec(*id, exec_views(e@)),
            MockTransaction::Busy(id, s) => TxView::Busy(*id, *s),
            MockTransaction::Ready(id, s) => TxView::Ready(*id, *s),
            MockTransaction::Reset(id, s) => TxView::Reset(*id, *s),
            MockTransaction::Write(id, d) => TxView::Write(*id, d@),
            MockTransaction::Transfer(id, o, i) => TxView::Transfer(*id, o@, i@),
            MockTransaction::IsHigh(id, v) => TxView::IsHigh(*id, *v),
            MockTransaction::IsLow(id, v) => TxView::IsLow(*id, *v),
            MockTransaction::SetHigh(id) => TxView::SetHigh(*id),
            MockTransaction::SetLow(id) => TxView::SetLow(*id),
            MockTransaction::DelayMs(t) => TxView::DelayMs(*t),
            MockTransaction::DelayUs(t) => TxView::DelayUs(*t),
        }
    }
}

/// The values of a list of transactions
pub open spec fn tx_views(log: Seq<MockTransaction>) -> Seq<TxView> {
    log.map_values(|t: MockTransaction| t@)
}

/// Kinds of transaction
#[derive(PartialEq, Eq, Structural, Clone, Copy, Debug)]
pub enum TxKind {
    Empty,
    SpiWrite,
    SpiRead,
    SpiExec,
    Busy,
    Ready,
    Reset,
    Write,
    Transfer,
    IsHigh,
    IsLow,
    SetHigh,
    SetLow,
    DelayMs,
    DelayUs,
}

impl TxView {
    /// The kind of the transaction
    pub open spec fn kind(self) -> TxKind {
        match self {
            TxView::Empty => TxKind::Empty,
            TxView::SpiWrite(..) => TxKind::SpiWrite,
            TxView::SpiRead(..) => TxKind::SpiRead,
            TxView::SpiExec(..) => TxKind::SpiExec,
            TxView::Busy(..) => TxKind::Busy,
            TxView::Ready(..) => TxKind::Ready,
            TxView::Reset(..) => TxKind::Reset,
            TxView::Write(..) => TxKind::Write,
            TxView::Transfer(..) => TxKind::Transfer,
            TxView::IsHigh(..) => TxKind::IsHigh,
            TxView::IsLow(..) => TxKind::IsLow,
            TxView::SetHigh(..) => TxKind::SetHigh,
            TxView::SetLow(..) => TxKind::SetLow,
            TxView::DelayMs(..) => TxKind::DelayMs,
            TxView::DelayUs(..) => TxKind::DelayUs,
        }
    }

    /// The identity of the handle that the transaction belongs to; delays carry none
    pub open spec fn ident(self) -> Option<Id> {
        match self {
            TxView::SpiWrite(id, ..) => Some(id),
            TxView::SpiRead(id, ..) => Some(id),
            TxView::SpiExec(id, ..) => Some(id),
            TxView::Busy(id, ..) => Some(id),
            TxView::Ready(id, ..) => Some(id),
            TxView::Reset(id, ..) => Some(id),
            TxView::Write(id, ..) => Some(id),
            TxView::Transfer(id, ..) => Some(id),
            TxView::IsHigh(id, ..) => Some(id),
            TxView::IsLow(id, ..) => Some(id),
            TxView::SetHigh(id) => Some(id),
            TxView::SetLow(id) => Some(id),
            _ => None,
        }
    }
}

/// Compare two byte strings
fn bytes_eq(a: &[u8], b: &[u8]) -> (r: bool)
    ensures
        r == (a@ == b@),
{
    if a.len() != b.len() {
        return false;
    }
    let mut i: usize = 0;
    while i < a.len()
        invariant
            a@.len() == b@.len(),
            i <= a@.len(),
            forall|j: int| 0 <= j < i ==> a@[j] == b@[j],
        decreases a@.len() - i,
    {
        if a[i] != b[i] {
            return false;
        }
        i += 1;
    }
    assert(a@ =~= b@);
    true
}

impl MockExec {
    /// Whether the two steps are equal
    pub fn same(&self, other: &MockExec) -> (r: bool)
        ensures
            r == (self@ == other@),
    {
        match (self, other) {
            (MockExec::SpiWrite(a), MockExec::SpiWrite(b)) => bytes_eq(a.as_slice(), b.as_slice()),
            (MockExec::SpiTransfer(ao, ai), MockExec::SpiTransfer(bo, bi)) => bytes_eq(
                ao.as_slice(),
                bo.as_slice(),
            ) && bytes_eq(ai.as_slice(), bi.as_slice()),
            _ => false,
        }
    }
}

/// Compare two lists of steps
fn steps_eq(a: &Vec<MockExec>, b: &Vec<MockExec>) -> (r: bool)
    ensures
        r == (exec_views(a@) == exec_views(b@)),
{
    if a.len() != b.len() {
        assert(exec_views(a@).len() != exec_views(b@).len());
        return false;
    }
    let mut i: usize = 0;
    while i < a.len()
        invariant
            a@.len() == b@.len(),
            i <= a@.len(),
            forall|j: int| 0 <= j < i ==> a@[j]@ == b@[j]@,
        decreases a@.len() - i,
    {
        if !a[i].same(&b[i]) {
            assert(exec_views(a@)[i as int] != exec_views(b@)[i as int]);
            return false;
        }
        i += 1;
    }
    assert(exec_views(a@) =~= exec_views(b@));
    true
}

impl MockTransaction {
    /// Whether the two transactions are equal
    pub fn same(&self, other: &MockTransaction) -> (r: bool)
        ensures
            r == (self@ == other@),
    {
        match (self, other) {
            (MockTransaction::Empty, MockTransaction::Empty) => true,
            (MockTransaction::SpiWrite(i, p, d), MockTransaction::SpiWrite(j, q, e)) => *i == *j
                && bytes_eq(p.as_slice(), q.as_slice()) && bytes_eq(d.as_slice(), e.as_slice()),
            (MockTransaction::SpiRead(i, p, d), MockTransaction::SpiRead(j, q, e)) => *i == *j
                && bytes_eq(p.as_slice(), q.as_slice()) && bytes_eq(d.as_slice(), e.as_slice()),
            (MockTransaction::SpiExec(i, s), MockTransaction::SpiExec(j, t)) => *i == *j
                && steps_eq(s, t),
            (MockTransaction::Busy(i, s), MockTransaction::Busy(j, t)) => *i == *j && *s == *t,
            (MockTransaction::Ready(i, s), MockTransaction::Ready(j, t)) => *i == *j && *s == *t,
            (MockTransaction::Reset(i, s), MockTransaction::Reset(j, t)) => *i == *j && *s == *t,
            (MockTransaction::Write(i, d), MockTransaction::Write(j, e)) => *i == *j && bytes_eq(
                d.as_slice(),
                e.as_slice(),
            ),
            (MockTransaction::Transfer(i, o, d), MockTransaction::Transfer(j, p, e)) => *i == *j
                && bytes_eq(o.as_slice(), p.as_slice()) && bytes_eq(d.as_slice(), e.as_slice()),
            (MockTransaction::IsHigh(i, v), MockTransaction::IsHigh(j, w)) => *i == *j && *v == *w,
            (MockTransaction::IsLow(i, v), MockTransaction::IsLow(j, w)) => *i == *j && *v == *w,
            (MockTransaction::SetHigh(i), MockTransaction::SetHigh(j)) => *i == *j,
            (MockTransaction::SetLow(i), MockTransaction::SetLow(j)) => *i == *j,
            (MockTransaction::DelayMs(s), MockTransaction::DelayMs(t)) => *s == *t,
            (MockTransaction::DelayUs(s), MockTransaction::DelayUs(t)) => *s == *t,
            _ => false,
        }
    }
}

/// What a prefixed read of a buffer holding `current` reads, given the expectation
/// at the cursor: the expected inbound data where that is a prefixed read of the
/// same length, else the buffer unchanged
pub open spec fn spi_read_reply(upcoming: Option<TxView>, current: Seq<u8>) -> Seq<u8> {
    match upcoming {
        Some(TxView::SpiRead(_, _, incoming)) => if incoming.len() == current.len() {
            incoming
        } else {
            current
        },
        _ => current,
    }
}

/// What a transfer of a buffer holding `current` reads, given the expectation at
/// the cursor
pub open spec fn transfer_reply(upcoming: Option<TxView>, current: Seq<u8>) -> Seq<u8> {
    match upcoming {
        Some(TxView::Transfer(_, _, incoming)) => if incoming.len() == current.len() {
            incoming
        } else {
            current
        },
        _ => current,
    }
}

/// What the transfer at position `i` of a transaction reads, given the expectation
/// at the cursor
pub open spec fn exec_reply(upcoming: Option<TxView>, i: int, current: Seq<u8>) -> Seq<u8> {
    match upcoming {
        Some(TxView::SpiExec(_, steps)) => if 0 <= i < steps.len() {
            match steps[i] {
                ExecView::SpiTransfer(_, incoming) => if incoming.len() == current.len() {
                    incoming
                } else {
                    current
                },
                _ => current,
            }
        } else {
            current
        },
        _ => current,
    }
}

/// The record that a step of a transaction leaves, from the step before and after
pub open spec fn exec_record(before: Operation, after: Operation) -> ExecView {
    match before {
        Operation::Write(d) => ExecView::SpiWrite(d@),
        Operation::Transfer(d) => ExecView::SpiTransfer(
            d@,
            match after {
                Operation::Transfer(e) => e@,
                Operation::Write(e) => e@,
            },
        ),
    }
}

/// The busy level read, given the expectation at the cursor
pub open spec fn busy_reply(upcoming: Option<TxView>) -> PinState {
    match upcoming {
        Some(TxView::Busy(_, s)) => s,
        _ => PinState::Low,
    }
}

/// The ready level read, given the expectation at the cursor
pub open spec fn ready_reply(upcoming: Option<TxView>) -> PinState {
    match upcoming {
        Some(TxView::Ready(_, s)) => s,
        _ => PinState::Low,
    }
}

/// The answer of `is_high`, given the expectation at the cursor
pub open spec fn is_high_reply(upcoming: Option<TxView>) -> bool {
    match upcoming {
        Some(TxView::IsHigh(_, v)) => v,
        _ => false,
    }
}

/// The answer of `is_low`, given the expectation at the cursor
pub open spec fn is_low_reply(upcoming: Option<TxView>) -> bool {
    match upcoming {
        Some(TxView::IsLow(_, v)) => v,
        _ => false,
    }
}

/// Copy the bytes of `src` over those of `dst`
fn copy_into(dst: &mut [u8], src: &[u8])
    requires
        old(dst)@.len() == src@.len(),
    ensures
        final(dst)@ == src@,
{
    let mut i: usize = 0;
    while i < src.len()
        invariant
            dst@.len() == src@.len(),
            i <= src@.len(),
            forall|j: int| 0 <= j < i ==> dst@[j] == src@[j],
        decreases src@.len() - i,
    {
        dst[i] = src[i];
        i += 1;
    }
    assert(dst@ =~= src@);
}

/// State of a mock session: the expected transactions, the actual ones and the
/// cursor into the expected ones
pub struct Inner {
    index: usize,
    expected: Vec<MockTransaction>,
    actual: Vec<MockTransaction>,
}

impl Inner {
    pub closed spec fn expected_log(&self) -> Seq<TxView> {
        tx_views(self.expected@)
    }

    pub closed spec fn actual_log(&self) -> Seq<TxView> {
        tx_views(self.actual@)
    }

    pub closed spec fn cursor(&self) -> int {
        self.index as int
    }

    /// The cursor has moved once for each actual call
    pub open spec fn wf(&self) -> bool {
        self.cursor() == self.actual_log().len()
    }

    /// The expectation at the cursor, if any
    pub open spec fn upcoming(&self) -> Option<TxView> {
        if 0 <= self.cursor() < self.expected_log().len() {
            Some(self.expected_log()[self.cursor()])
        } else {
            None
        }
    }

    /// A session that expects nothing
    pub fn new() -> (s: Inner)
        ensures
            s.wf(),
            s.expected_log() == Seq::<TxView>::empty(),
            s.actual_log() == Seq::<TxView>::empty(),
    {
        let s = Inner { index: 0, expected: Vec::new(), actual: Vec::new() };
        assert(s.expected_log() =~= Seq::<TxView>::empty());
        assert(s.actual_log() =~= Seq::<TxView>::empty());
        s
    }

    /// A session that expects the transactions, in order, with nothing recorded yet
    pub fn with_expected(expected: Vec<MockTransaction>) -> (s: Inner)
        ensures
            s.wf(),
            s.expected_log() == tx_views(expected@),
            s.actual_log() == Seq::<TxView>::empty(),
    {
        let s = Inner { index: 0, expected, actual: Vec::new() };
        assert(s.actual_log() =~= Seq::<TxView>::empty());
        s
    }

    /// The expectation at the cursor, if any
    fn peek(&self) -> (r: Option<&MockTransaction>)
        ensures
            match r {
                Some(t) => self.upcoming() == Some(t@),
                None => self.upcoming() is None,
            },
    {
        if self.index < self.expected.len() {
            Some(&self.expected[self.index])
        } else {
            None
        }
    }

    /// Append an actual call and move the cursor on
    fn record(&mut self, t: MockTransaction)
        requires
            old(self).wf(),
        ensures
            final(self).wf(),
            final(self).expected_log() == old(self).expected_log(),
            final(self).actual_log() == old(self).actual_log().push(t@),
    {
        let ghost before = self.actual@;
        self.actual.push(t);
        let n = self.actual.len();
        assert(tx_views(self.actual@) =~= tx_views(before).push(t@));
        assert(n == self.index + 1);
        self.index = self.index + 1;
    }

    /// Record a prefixed write
    pub fn record_spi_write(&mut self, id: Id, prefix: &[u8], data: &[u8])
        requires
            old(self).wf(),
        ensures
            final(self).wf(),
            final(self).expected_log() == old(self).expected_log(),
            final(self).actual_log() == old(self).actual_log().push(
                TxView::SpiWrite(id, prefix@, data@),
            ),
    {
        self.record(MockTransaction::SpiWrite(id, slice_to_vec(prefix), slice_to_vec(data)));
    }

    /// Record a prefixed read, first filling the buffer from a matching expectation
    pub fn record_spi_read(&mut self, id: Id, prefix: &[u8], data: &mut [u8])
        requires
            old(self).wf(),
        ensures
            final(self).wf(),
            final(data)@ == spi_read_reply(old(self).upcoming(), old(data)@),
            final(self).expected_log() == old(self).expected_log(),
            final(self).actual_log() == old(self).actual_log().push(
                TxView::SpiRead(id, prefix@, final(data)@),
            ),
    {
        match self.peek() {
            Some(MockTransaction::SpiRead(_, _, incoming)) => {
                if incoming.len() == data.len() {
                    copy_into(data, incoming.as_slice());
                }
            },
            _ => {},
        }
        self.record(MockTransaction::SpiRead(id, slice_to_vec(prefix), slice_to_vec(data)));
    }

    /// Record a plain write
    pub fn record_write(&mut self, id: Id, data: &[u8])
        requires
            old(self).wf(),
        ensures
            final(self).wf(),
            final(self).expected_log() == old(self).expected_log(),
            final(self).actual_log() == old(self).actual_log().push(TxView::Write(id, data@)),
    {
        self.record(MockTransaction::Write(id, slice_to_vec(data)));
    }

    /// Record an in-place transfer, first filling the buffer from a matching
    /// expectation; the record holds the bytes sent and the bytes read
    pub fn record_transfer(&mut self, id: Id, data: &mut [u8])
        requires
            old(self).wf(),
        ensures
            final(self).wf(),
            final(data)@ == transfer_reply(old(self).upcoming(), old(data)@),
            final(self).expected_log() == old(self).expected_log(),
            final(self).actual_log() == old(self).actual_log().push(
                TxView::Transfer(id, old(data)@, final(data)@),
            ),
    {
        let sent = slice_to_vec(data);
        match self.peek() {
            Some(MockTransaction::Transfer(_, _, incoming)) => {
                if incoming.len() == data.len() {
                    copy_into(data, incoming.as_slice());
                }
            },
            _ => {},
        }
        self.record(MockTransaction::Transfer(id, sent, slice_to_vec(data)));
    }

    /// Record a transaction, first filling each transfer buffer from the matching
    /// step of a matching expectation
    pub fn record_spi_exec(&mut self, id: Id, operations: &mut Vec<Operation>)
        requires
            old(self).wf(),
        ensures
            final(self).wf(),
            final(operations)@.len() == old(operations)@.len(),
            forall|i: int|
                0 <= i < old(operations)@.len() ==> match #[trigger] old(operations)@[i] {
                    Operation::Write(d) => final(operations)@[i] is Write
                        && final(operations)@[i]->Write_0@ == d@,
                    Operation::Transfer(d) => final(operations)@[i] is Transfer
                        && final(operations)@[i]->Transfer_0@ == exec_reply(
                        old(self).upcoming(),
                        i,
                        d@,
                    ),
                },
            final(self).expected_log() == old(self).expected_log(),
            final(self).actual_log() == old(self).actual_log().push(
                TxView::SpiExec(
                    id,
                    Seq::new(
                        old(operations)@.len(),
                        |i: int| exec_record(old(operations)@[i], final(operations)@[i]),
                    ),
                ),
            ),
    {
        let ghost ops0 = operations@;
        let ghost upcoming = self.upcoming();
        let expected_steps: Option<&Vec<MockExec>> = match self.peek() {
            Some(MockTransaction::SpiExec(_, e)) => Some(e),
            _ => None,
        };
        let mut record: Vec<MockExec> = Vec::new();
        let mut i: usize = 0;
        while i < operations.len()
            invariant
                i <= ops0.len(),
                operations@.len() == ops0.len(),
                record@.len() == i,
                match expected_steps {
                    Some(e) => upcoming matches Some(TxView::SpiExec(_, steps)) && steps == exec_views(e@),
                    None => !(upcoming is Some && upcoming->Some_0 is SpiExec),
                },
                forall|j: int|
                    0 <= j < i ==> match #[trigger] ops0[j] {
                        Operation::Write(d) => operations@[j] is Write && operations@[j]->Write_0@ == d@,
                        Operation::Transfer(d) => operations@[j] is Transfer
                            && operations@[j]->Transfer_0@ == exec_reply(upcoming, j, d@),
                    },
                forall|j: int| 0 <= j < i ==> #[trigger] record@[j]@ == exec_record(ops0[j], operations@[j]),
                forall|j: int| i <= j < ops0.len() ==> #[trigger] operations@[j] == ops0[j],
            decreases ops0.len() - i,
        {
            let step = match &mut operations[i] {
                Operation::Write(d) => MockExec::SpiWrite(slice_to_vec(d.as_slice())),
                Operation::Transfer(d) => {
                    let sent = slice_to_vec(d.as_slice());
                    match expected_steps {
                        Some(e) => {
                            if i < e.len() {
                                match &e[i] {
                                    MockExec::SpiTransfer(_, incoming) => {
                                        if incoming.len() == d.len() {
                                            copy_into(d.as_mut_slice(), incoming.as_slice());
                                        }
                                    },
                                    _ => {},
                                }
                            }
                        },
                        None => {},
                    }
                    MockExec::SpiTransfer(sent, slice_to_vec(d.as_slice()))
                },
            };
            record.push(step);
            i += 1;
        }
        let ghost rec = Seq::new(ops0.len(), |j: int| exec_record(ops0[j], operations@[j]));
        assert(exec_views(record@) =~= rec);
        self.record(MockTransaction::SpiExec(id, record));
    }

    /// Record a read of the busy level, answering from a matching expectation
    pub fn record_busy(&mut self, id: Id) -> (s: PinState)
        requires
            old(self).wf(),
        ensures
            final(self).wf(),
            s == busy_reply(old(self).upcoming()),
            final(self).expected_log() == old(self).expected_log(),
            final(self).actual_log() == old(self).actual_log().push(TxView::Busy(id, s)),
    {
        let s = match self.peek() {
            Some(MockTransaction::Busy(_, state)) => *state,
            _ => PinState::Low,
        };
        self.record(MockTransaction::Busy(id, s));
        s
    }

    /// Record a read of the ready level, answering from a matching expectation
    pub fn record_ready(&mut self, id: Id) -> (s: PinState)
        requires
            old(self).wf(),
        ensures
            final(self).wf(),
            s == ready_reply(old(self).upcoming()),
            final(self).expected_log() == old(self).expected_log(),
            final(self).actual_log() == old(self).actual_log().push(TxView::Ready(id, s)),
    {
        let s = match self.peek() {
            Some(MockTransaction::Ready(_, state)) => *state,
            _ => PinState::Low,
        };
        self.record(MockTransaction::Ready(id, s));
        s
    }

    /// Record a drive of the reset line
    pub fn record_reset(&mut self, id: Id, state: PinState)
        requires
            old(self).wf(),
        ensures
            final(self).wf(),
            final(self).expected_log() == old(self).expected_log(),
            final(self).actual_log() == old(self).actual_log().push(TxView::Reset(id, state)),
    {
        self.record(MockTransaction::Reset(id, state));
    }

    /// Record an `is_high` reading, answering from a matching expectation
    pub fn record_is_high(&mut self, id: Id) -> (v: bool)
        requires
            old(self).wf(),
        ensures
            final(self).wf(),
            v == is_high_reply(old(self).upcoming()),
            final(self).expected_log() == old(self).expected_log(),
            final(self).actual_log() == old(self).actual_log().push(TxView::IsHigh(id, v)),
    {
        let v = match self.peek() {
            Some(MockTransaction::IsHigh(_, v)) => *v,
            _ => false,
        };
        self.record(MockTransaction::IsHigh(id, v));
        v
    }

    /// Record an `is_low` reading, answering from a matching expectation
    pub fn record_is_low(&mut self, id: Id) -> (v: bool)
        requires
            old(self).wf(),
        ensures
            final(self).wf(),
            v == is_low_reply(old(self).upcoming()),
            final(self).expected_log() == old(self).expected_log(),
            final(self).actual_log() == old(self).actual_log().push(TxView::IsLow(id, v)),
    {
        let v = match self.peek() {
            Some(MockTransaction::IsLow(_, v)) => *v,
            _ => false,
        };
        self.record(MockTransaction::IsLow(id, v));
        v
    }

    /// Record a drive of a pin high
    pub fn record_set_high(&mut self, id: Id)
        requires
            old(self).wf(),
        ensures
            final(self).wf(),
            final(self).expected_log() == old(self).expected_log(),
            final(self).actual_log() == old(self).actual_log().push(TxView::SetHigh(id)),
    {
        self.record(MockTransaction::SetHigh(id));
    }

    /// Record a drive of a pin low
    pub fn record_set_low(&mut self, id: Id)
        requires
            old(self).wf(),
        ensures
            final(self).wf(),
            final(self).expected_log() == old(self).expected_log(),
            final(self).actual_log() == old(self).actual_log().push(TxView::SetLow(id)),
    {
        self.record(MockTransaction::SetLow(id));
    }

    /// Record a delay in milliseconds
    pub fn record_delay_ms(&mut self, t: u32)
        requires
            old(self).wf(),
        ensures
            final(self).wf(),
            final(self).expected_log() == old(self).expected_log(),
            final(self).actual_log() == old(self).actual_log().push(TxView::DelayMs(t)),
    {
        self.record(MockTransaction::DelayMs(t));
    }

    /// Record a delay in microseconds
    pub fn record_delay_us(&mut self, t: u32)
        requires
            old(self).wf(),
        ensures
            final(self).wf(),
            final(self).expected_log() == old(self).expected_log(),
            final(self).actual_log() == old(self).actual_log().push(TxView::DelayUs(t)),
    {
        self.record(MockTransaction::DelayUs(t));
    }

    /// Compare the actual calls with the expected ones: `Ok` where they agree in
    /// number, order, kind, payload and identity, else the first position where
    /// they differ (the length of the shorter where one extends the other)
    pub fn finalise(&self) -> (r: Result<(), usize>)
        ensures
            r is Ok <==> self.expected_log() == self.actual_log(),
            r matches Err(i) ==> {
                &&& i <= self.expected_log().len()
                &&& i <= self.actual_log().len()
                &&& forall|j: int| 0 <= j < i ==> self.expected_log()[j] == self.actual_log()[j]
                &&& (i == self.expected_log().len() || i == self.actual_log().len()
                    || self.expected_log()[i as int] != self.actual_log()[i as int])
            },
    {
        let n = if self.expected.len() < self.actual.len() {
            self.expected.len()
        } else {
            self.actual.len()
        };
        let mut i: usize = 0;
        while i < n
            invariant
                n <= self.expected@.len(),
                n <= self.actual@.len(),
                n == self.expected@.len() || n == self.actual@.len(),
                i <= n,
                forall|j: int| 0 <= j < i ==> self.expected_log()[j] == self.actual_log()[j],
            decreases n - i,
        {
            if !self.expected[i].same(&self.actual[i]) {
                assert(self.expected_log()[i as int] != self.actual_log()[i as int]);
                return Err(i);
            }
            i += 1;
        }
        if self.expected.len() != self.actual.len() {
            return Err(n);
        }
        assert(self.expected_log() =~= self.actual_log());
        Ok(())
    }
}

/// What the lock around a session's state guarantees of it
pub struct SessionInv;

impl RwLockPredicate<Inner> for SessionInv {
    open spec fn inv(self, v: Inner) -> bool {
        v.wf()
    }
}

/// A mock session: it holds the expectations and mints the handles that record
/// against them
pub struct Mock {
    inner: Arc<RwLock<Inner, SessionInv>>,
    count: Id,
}

/// Mock bus handle
pub struct Spi {
    id: Id,
    inner: Arc<RwLock<Inner, SessionInv>>,
    issued: Ghost<Seq<BusEvent>>,
    waited: Ghost<Seq<u32>>,
}

/// Mock pin handle
pub struct Pin {
    id: Id,
    inner: Arc<RwLock<Inner, SessionInv>>,
    driven: Ghost<Seq<(PinState, bool)>>,
    sampled: Ghost<Seq<Option<PinState>>>,
}

/// Mock delay handle
pub struct Delay {
    id: Id,
    inner: Arc<RwLock<Inner, SessionInv>>,
    waited: Ghost<Seq<u32>>,
}

impl Mock {
    /// Identity that the next minted handle gets
    pub closed spec fn next_id(&self) -> Id {
        self.count
    }

    /// Create a new mock session, expecting nothing
    pub fn new() -> (m: Mock)
        ensures
            m.next_id() == 0,
    {
        Mock { inner: Arc::new(RwLock::new(Inner::new(), Ghost(SessionInv))), count: 0 }
    }

    /// Replace the expectations, clearing the actual calls and the cursor
    pub fn expect(&mut self, transactions: Vec<MockTransaction>)
        ensures
            final(self).next_id() == old(self).next_id(),
    {
        let (_, handle) = self.inner.acquire_write();
        handle.release_write(Inner::with_expected(transactions));
    }

    /// Mint a bus handle with the next identity
    pub fn spi(&mut self) -> (s: Spi)
        requires
            old(self).next_id() < u32::MAX,
        ensures
            s.ident() == old(self).next_id(),
            final(self).next_id() == old(self).next_id() + 1,
            s.bus_history() == Seq::<BusEvent>::empty(),
            s.delay_history() == Seq::<u32>::empty(),
    {
        let id = self.count;
        self.count = self.count + 1;
        Spi {
            id,
            inner: self.inner.clone(),
            issued: Ghost(Seq::empty()),
            waited: Ghost(Seq::empty()),
        }
    }

    /// Mint a pin handle with the next identity
    pub fn pin(&mut self) -> (p: Pin)
        requires
            old(self).next_id() < u32::MAX,
        ensures
            p.ident() == old(self).next_id(),
            final(self).next_id() == old(self).next_id() + 1,
            p.level_history() == Seq::<(PinState, bool)>::empty(),
            p.sample_history() == Seq::<Option<PinState>>::empty(),
    {
        let id = self.count;
        self.count = self.count + 1;
        Pin {
            id,
            inner: self.inner.clone(),
            driven: Ghost(Seq::empty()),
            sampled: Ghost(Seq::empty()),
        }
    }

    /// Mint a delay handle with the next identity
    pub fn delay(&mut self) -> (d: Delay)
        requires
            old(self).next_id() < u32::MAX,
        ensures
            d.ident() == old(self).next_id(),
            final(self).next_id() == old(self).next_id() + 1,
            d.delay_history() == Seq::<u32>::empty(),
    {
        let id = self.count;
        self.count = self.count + 1;
        Delay { id, inner: self.inner.clone(), waited: Ghost(Seq::empty()) }
    }

    /// Compare the actual calls of the session with its expectations, as
    /// `Inner::finalise` does on the session's state at the time of the call
    pub fn finalise(&self) -> (r: Result<(), usize>) {
        let (state, handle) = self.inner.acquire_write();
        let r = state.finalise();
        handle.release_write(state);
        r
    }
}

impl Spi {
    pub closed spec fn ident(&self) -> Id {
        self.id
    }

    /// Every bus step issued through this handle
    pub closed spec fn bus_history(&self) -> Seq<BusEvent> {
        self.issued@
    }

    /// Every microsecond wait requested through this handle
    pub closed spec fn delay_history(&self) -> Seq<u32> {
        self.waited@
    }

    /// Transfer the buffer in place, reading the expected inbound data where the
    /// expectation at the cursor is a transfer of the same length
    pub fn transfer(&mut self, data: &mut [u8]) -> (r: Result<(), Error<(), (), ()>>)
        ensures
            r is Ok,
            final(data)@.len() == old(data)@.len(),
            final(self).ident() == old(self).ident(),
            final(self).delay_history() == old(self).delay_history(),
            final(self).bus_history() == old(self).bus_history().push(
                BusEvent::Transfer { sent: old(data)@, received: final(data)@, ok: true },
            ),
    {
        let (mut state, handle) = self.inner.acquire_write();
        state.record_transfer(self.id, data);
        handle.release_write(state);
        self.issued = Ghost(self.issued@.push(
            BusEvent::Transfer { sent: old(data)@, received: data@, ok: true },
        ));
        Ok(())
    }

    /// Wait for a number of milliseconds
    pub fn delay_ms(&mut self, t: u32) -> (r: Result<(), ()>)
        ensures
            r is Ok,
            final(self).ident() == old(self).ident(),
            final(self).bus_history() == old(self).bus_history(),
            final(self).delay_history() == old(self).delay_history(),
    {
        let (mut state, handle) = self.inner.acquire_write();
        state.record_delay_ms(t);
        handle.release_write(state);
        Ok(())
    }
}

impl SpiBus for Spi {
    type Error = Error<(), (), ()>;

    open spec fn issued(&self) -> Seq<BusEvent> {
        self.bus_history()
    }

    /// A mock bus never fails
    open spec fn bus_errors(&self) -> Seq<Self::Error> {
        Seq::empty()
    }

    fn write(&mut self, data: &[u8]) -> (r: Result<(), Self::Error>)
        ensures
            r is Ok,
            final(self).ident() == old(self).ident(),
            final(self).delay_history() == old(self).delay_history(),
    {
        let (mut state, handle) = self.inner.acquire_write();
        state.record_write(self.id, data);
        handle.release_write(state);
        self.issued = Ghost(self.issued@.push(BusEvent::Write { data: data@, ok: true }));
        Ok(())
    }

    fn transfer_in_place(&mut self, data: &mut [u8]) -> (r: Result<(), Self::Error>)
        ensures
            r is Ok,
            final(self).ident() == old(self).ident(),
            final(self).delay_history() == old(self).delay_history(),
    {
        self.transfer(data)
    }
}

impl PrefixWrite for Spi {
    type Error = Error<(), (), ()>;

    /// Record a prefixed write
    fn prefix_write(&mut self, prefix: &[u8], data: &[u8]) -> (r: Result<(), Self::Error>)
        ensures
            r is Ok,
            final(self).ident() == old(self).ident(),
            final(self).bus_history() == old(self).bus_history(),
            final(self).delay_history() == old(self).delay_history(),
    {
        let (mut state, handle) = self.inner.acquire_write();
        state.record_spi_write(self.id, prefix, data);
        handle.release_write(state);
        Ok(())
    }
}

impl PrefixRead for Spi {
    type Error = Error<(), (), ()>;

    /// Record a prefixed read, reading the expected inbound data where the
    /// expectation at the cursor is a prefixed read of the same length
    fn prefix_read(&mut self, prefix: &[u8], data: &mut [u8]) -> (r: Result<(), Self::Error>)
        ensures
            r is Ok,
            final(self).ident() == old(self).ident(),
            final(self).bus_history() == old(self).bus_history(),
            final(self).delay_history() == old(self).delay_history(),
    {
        let (mut state, handle) = self.inner.acquire_write();
        state.record_spi_read(self.id, prefix, data);
        handle.release_write(state);
        Ok(())
    }
}

impl Transactional for Spi {
    type Error = Error<(), (), ()>;

    /// Record a transaction, reading into each transfer the expected inbound data
    /// of the matching step where the expectation at the cursor is a transaction
    fn exec(&mut self, operations: &mut Vec<Operation>) -> (r: Result<(), Self::Error>)
        ensures
            r is Ok,
            forall|i: int|
                0 <= i < old(operations)@.len() ==> crate::step_result(
                    #[trigger] old(operations)@[i],
                    final(operations)@[i],
                ),
            final(self).ident() == old(self).ident(),
            final(self).bus_history() == old(self).bus_history(),
            final(self).delay_history() == old(self).delay_history(),
    {
        let (mut state, handle) = self.inner.acquire_write();
        let ghost upcoming = state.upcoming();
        state.record_spi_exec(self.id, operations);
        handle.release_write(state);
        assert forall|i: int| 0 <= i < old(operations)@.len() implies crate::step_result(
            #[trigger] old(operations)@[i],
            operations@[i],
        ) by {
            match old(operations)@[i] {
                Operation::Write(_) => {},
                Operation::Transfer(d) => {
                    assert(exec_reply(upcoming, i, d@).len() == d@.len());
                },
            }
        }
        Ok(())
    }
}

impl Busy for Spi {
    type Error = Error<(), (), ()>;

    /// Record a busy reading, answering with the expected level where the
    /// expectation at the cursor is a busy reading, else low
    fn get_busy(&mut self) -> (r: Result<PinState, Self::Error>)
        ensures
            r is Ok,
            final(self).ident() == old(self).ident(),
            final(self).bus_history() == old(self).bus_history(),
            final(self).delay_history() == old(self).delay_history(),
    {
        let (mut state, handle) = self.inner.acquire_write();
        let s = state.record_busy(self.id);
        handle.release_write(state);
        Ok(s)
    }
}

impl Ready for Spi {
    type Error = Error<(), (), ()>;

    /// Record a ready reading, answering with the expected level where the
    /// expectation at the cursor is a ready reading, else low
    fn get_ready(&mut self) -> (r: Result<PinState, Self::Error>)
        ensures
            r is Ok,
            final(self).ident() == old(self).ident(),
            final(self).bus_history() == old(self).bus_history(),
            final(self).delay_history() == old(self).delay_history(),
    {
        let (mut state, handle) = self.inner.acquire_write();
        let s = state.record_ready(self.id);
        handle.release_write(state);
        Ok(s)
    }
}

impl Reset for Spi {
    type Error = Error<(), (), ()>;

    /// Record a drive of the reset line
    fn set_reset(&mut self, state: PinState) -> (r: Result<(), Self::Error>)
        ensures
            r is Ok,
            final(self).ident() == old(self).ident(),
            final(self).bus_history() == old(self).bus_history(),
            final(self).delay_history() == old(self).delay_history(),
    {
        let (mut inner, handle) = self.inner.acquire_write();
        inner.record_reset(self.id, state);
        handle.release_write(inner);
        Ok(())
    }
}

impl DelayUs for Spi {
    type Error = ();

    open spec fn waited(&self) -> Seq<u32> {
        self.delay_history()
    }

    /// A mock delay never fails
    open spec fn delay_errors(&self) -> Seq<()> {
        Seq::empty()
    }

    fn delay_us(&mut self, us: u32) -> (r: Result<(), ()>)
        ensures
            r is Ok,
            final(self).ident() == old(self).ident(),
            final(self).bus_history() == old(self).bus_history(),
    {
        let (mut state, handle) = self.inner.acquire_write();
        state.record_delay_us(us);
        handle.release_write(state);
        self.waited = Ghost(self.waited@.push(us));
        Ok(())
    }
}

impl Pin {
    pub closed spec fn ident(&self) -> Id {
        self.id
    }

    /// Every level driven through this handle
    pub closed spec fn level_history(&self) -> Seq<(PinState, bool)> {
        self.driven@
    }

    /// Every reading taken through this handle
    pub closed spec fn sample_history(&self) -> Seq<Option<PinState>> {
        self.sampled@
    }
}

impl InputPin for Pin {
    type Error = ();

    open spec fn sampled(&self) -> Seq<Option<PinState>> {
        self.sample_history()
    }

    /// A mock pin never fails
    open spec fn read_errors(&self) -> Seq<()> {
        Seq::empty()
    }

    /// Record an `is_high` reading, answering with the expected value where the
    /// expectation at the cursor is an `is_high` reading, else false
    fn is_high(&mut self) -> (r: Result<bool, ()>)
        ensures
            r is Ok,
            final(self).ident() == old(self).ident(),
            final(self).level_history() == old(self).level_history(),
    {
        let (mut state, handle) = self.inner.acquire_write();
        let v = state.record_is_high(self.id);
        handle.release_write(state);
        self.sampled = Ghost(self.sampled@.push(Some(PinState::from_level(v))));
        Ok(v)
    }

    /// Record an `is_low` reading, answering with the expected value where the
    /// expectation at the cursor is an `is_low` reading, else false
    fn is_low(&mut self) -> (r: Result<bool, ()>)
        ensures
            r is Ok,
            final(self).ident() == old(self).ident(),
            final(self).level_history() == old(self).level_history(),
    {
        let (mut state, handle) = self.inner.acquire_write();
        let v = state.record_is_low(self.id);
        handle.release_write(state);
        self.sampled = Ghost(self.sampled@.push(Some(PinState::from_level(!v))));
        Ok(v)
    }
}

impl OutputPin for Pin {
    type Error = ();

    open spec fn driven(&self) -> Seq<(PinState, bool)> {
        self.level_history()
    }

    /// A mock pin never fails
    open spec fn drive_errors(&self) -> Seq<()> {
        Seq::empty()
    }

    fn set_high(&mut self) -> (r: Result<(), ()>)
        ensures
            r is Ok,
            final(self).ident() == old(self).ident(),
            final(self).sample_history() == old(self).sample_history(),
    {
        let (mut state, handle) = self.inner.acquire_write();
        state.record_set_high(self.id);
        handle.release_write(state);
        self.driven = Ghost(self.driven@.push((PinState::High, true)));
        Ok(())
    }

    fn set_low(&mut self) -> (r: Result<(), ()>)
        ensures
            r is Ok,
            final(self).ident() == old(self).ident(),
            final(self).sample_history() == old(self).sample_history(),
    {
        let (mut state, handle) = self.inner.acquire_write();
        state.record_set_low(self.id);
        handle.release_write(state);
        self.driven = Ghost(self.driven@.push((PinState::Low, true)));
        Ok(())
    }
}

impl Delay {
    pub closed spec fn ident(&self) -> Id {
        self.id
    }

    /// Every microsecond wait requested through this handle
    pub closed spec fn delay_history(&self) -> Seq<u32> {
        self.waited@
    }

    /// Wait for a number of milliseconds
    pub fn delay_ms(&mut self, t: u32) -> (r: Result<(), ()>)
        ensures
            r is Ok,
            final(self).ident() == old(self).ident(),
            final(self).delay_history() == old(self).delay_history(),
    {
        let (mut state, handle) = self.inner.acquire_write();
        state.record_delay_ms(t);
        handle.release_write(state);
        Ok(())
    }
}

impl DelayUs for Delay {
    type Error = ();

    open spec fn waited(&self) -> Seq<u32> {
        self.delay_history()
    }

    /// A mock delay never fails
    open spec fn delay_errors(&self) -> Seq<()> {
        Seq::empty()
    }

    fn delay_us(&mut self, us: u32) -> (r: Result<(), ()>)
        ensures
            r is Ok,
            final(self).ident() == old(self).ident(),
    {
        let (mut state, handle) = self.inner.acquire_write();
        state.record_delay_us(us);
        handle.release_write(state);
        self.waited = Ghost(self.waited@.push(us));
        Ok(())
    }
}

impl MockTransaction {
    /// Expect a prefixed write through the bus handle
    pub fn spi_write(spi: &Spi, prefix: &[u8], outgoing: &[u8]) -> (t: Self)
        ensures
            t@ == TxView::SpiWrite(spi.ident(), prefix@, outgoing@),
    {
        MockTransaction::SpiWrite(spi.id, slice_to_vec(prefix), slice_to_vec(outgoing))
    }

    /// Expect a prefixed read through the bus handle, reading `incoming`
    pub fn spi_read(spi: &Spi, prefix: &[u8], incoming: &[u8]) -> (t: Self)
        ensures
            t@ == TxView::SpiRead(spi.ident(), prefix@, incoming@),
    {
        MockTransaction::SpiRead(spi.id, slice_to_vec(prefix), slice_to_vec(incoming))
    }

    /// Expect a transaction of the steps through the bus handle
    pub fn spi_exec(spi: &Spi, o: Vec<MockExec>) -> (t: Self)
        ensures
            t@ == TxView::SpiExec(spi.ident(), exec_views(o@)),
    {
        MockTransaction::SpiExec(spi.id, o)
    }

    /// Expect a busy reading through the bus handle, answered with `value`
    pub fn busy(spi: &Spi, value: PinState) -> (t: Self)
        ensures
            t@ == TxView::Busy(spi.ident(), value),
    {
        MockTransaction::Busy(spi.id, value)
    }

    /// Expect a ready reading through the bus handle, answered with `value`
    pub fn ready(spi: &Spi, value: PinState) -> (t: Self)
        ensures
            t@ == TxView::Ready(spi.ident(), value),
    {
        MockTransaction::Ready(spi.id, value)
    }

    /// Expect the reset line to be driven to `value` through the bus handle
    pub fn reset(spi: &Spi, value: PinState) -> (t: Self)
        ensures
            t@ == TxView::Reset(spi.ident(), value),
    {
        MockTransaction::Reset(spi.id, value)
    }

    /// Expect a delay in milliseconds
    pub fn delay_ms(v: u32) -> (t: Self)
        ensures
            t@ == TxView::DelayMs(v),
    {
        MockTransaction::DelayMs(v)
    }

    /// Expect a plain write through the bus handle
    pub fn write(spi: &Spi, outgoing: &[u8]) -> (t: Self)
        ensures
            t@ == TxView::Write(spi.ident(), outgoing@),
    {
        MockTransaction::Write(spi.id, slice_to_vec(outgoing))
    }

    /// Expect a transfer through the bus handle, sending `outgoing` and reading `incoming`
    pub fn transfer(spi: &Spi, outgoing: &[u8], incoming: &[u8]) -> (t: Self)
        ensures
            t@ == TxView::Transfer(spi.ident(), outgoing@, incoming@),
    {
        MockTransaction::Transfer(spi.id, slice_to_vec(outgoing), slice_to_vec(incoming))
    }

    /// Expect an `is_high` reading of the pin, answered with `value`
    pub fn is_high(pin: &Pin, value: bool) -> (t: Self)
        ensures
            t@ == TxView::IsHigh(pin.ident(), value),
    {
        MockTransaction::IsHigh(pin.id, value)
    }

    /// Expect an `is_low` reading of the pin, answered with `value`
    pub fn is_low(pin: &Pin, value: bool) -> (t: Self)
        ensures
            t@ == TxView::IsLow(pin.ident(), value),
    {
        MockTransaction::IsLow(pin.id, value)
    }

    /// Expect the pin to be driven high
    pub fn set_high(pin: &Pin) -> (t: Self)
        ensures
            t@ == TxView::SetHigh(pin.ident()),
    {
        MockTransaction::SetHigh(pin.id)
    }

    /// Expect the pin to be driven low
    pub fn set_low(pin: &Pin) -> (t: Self)
        ensures
            t@ == TxView::SetLow(pin.ident()),
    {
        MockTransaction::SetLow(pin.id)
    }
}

/// A prefixed read against a fresh session that expects exactly that read (same
/// handle, same prefix, inbound data as long as the buffer) reads the expected
/// data, and the session then matches its expectations.
pub proof fn lemma_read_round_trip(
    before: Inner,
    after: Inner,
    id: Id,
    prefix: Seq<u8>,
    incoming: Seq<u8>,
    buffer: Seq<u8>,
    filled: Seq<u8>,
)
    requires
        before.wf(),
        before.expected_log() == seq![TxView::SpiRead(id, prefix, incoming)],
        before.actual_log() == Seq::<TxView>::empty(),
        buffer.len() == incoming.len(),
        filled == spi_read_reply(before.upcoming(), buffer),
        after.expected_log() == before.expected_log(),
        after.actual_log() == before.actual_log().push(TxView::SpiRead(id, prefix, filled)),
    ensures
        filled == incoming,
        after.expected_log() == after.actual_log(),
{
    assert(after.actual_log() =~= after.expected_log());
}

/// A session in which some call differs in kind from the expectation at its
/// position, or has no expectation there, does not match its expectations.
pub proof fn lemma_kind_mismatch_detected(expected: Seq<TxView>, actual: Seq<TxView>, i: int)
    requires
        0 <= i < actual.len(),
        i >= expected.len() || expected[i].kind() != actual[i].kind(),
    ensures
        expected != actual,
{
}

/// A session in which some call was issued through another handle than the one
/// that the expectation at its position names does not match its expectations.
pub proof fn lemma_identity_mismatch_detected(expected: Seq<TxView>, actual: Seq<TxView>, i: int)
    requires
        0 <= i < actual.len(),
        0 <= i < expected.len(),
        expected[i].ident() != actual[i].ident(),
    ensures
        expected != actual,
{
}

} // verus!
