//! The control-sequence filter in its pull form, as the script feeder uses it.
//!
//! One call both feeds a byte and takes a released byte, so a caller hands the same cell
//! to `input` again and again until nothing more comes out. The filter remembers whether
//! its last call handed a byte out: the call after such a one only takes, and the call
//! after one that handed nothing out feeds its cell. Every byte is fed this way, the NUL
//! byte too.

use crate::ansi_filter::byte_is_alphabetic;
use crate::ansi_filter::byte_is_digit;
use crate::ansi_filter::BRACKET;
use crate::ansi_filter::ESC;
use crate::ansi_filter::FilterModel;
use crate::ansi_filter::FilterState;
use crate::ansi_filter::QUESTION;
use std::collections::VecDeque;
use vstd::prelude::*;

verus! {

/// Mathematical state of a pull filter.
pub struct PullModel {
    /// The machine, with what it has released and what it holds.
    pub filter: FilterModel,
    /// Whether the last call handed a byte out, so that the next call only takes.
    pub taking: bool,
}

impl PullModel {
    /// A fresh pull filter: a fresh machine, and the first call feeds.
    pub open spec fn start() -> PullModel {
        PullModel { filter: FilterModel::start(), taking: false }
    }

    /// The machine after a call has looked at a cell that holds `val`: the byte is fed
    /// unless the call only takes.
    pub open spec fn fed(self, val: u8) -> FilterModel {
        if self.taking {
            self.filter
        } else {
            self.filter.step(val)
        }
    }

    /// What a call with `val` in the cell hands out.
    pub open spec fn output(self, val: u8) -> Option<u8> {
        self.fed(val).front()
    }

    /// The filter after a call with `val` in the cell.
    pub open spec fn after(self, val: u8) -> PullModel {
        PullModel { filter: self.fed(val).after_pull(), taking: self.output(val) is Some }
    }

    /// Whether a call with `val` in the cell hands that very byte straight back: the
    /// call feeds, the machine is outside any sequence with nothing released and
    /// nothing held, and the byte opens no sequence.
    pub open spec fn returns_cell(self, val: u8) -> bool {
        &&& !self.taking
        &&& self.filter.state == FilterState::Init
        &&& val != ESC
        &&& self.filter.ready.len() == 0
        &&& self.filter.held.len() == 0
    }

    /// What the cell holds after a call that found `val` in it: zero where the byte
    /// was handed straight back, the byte itself in every other case.
    pub open spec fn cell_after(self, val: u8) -> u8 {
        if self.returns_cell(val) {
            0
        } else {
            val
        }
    }
}

/// Where the cell is cleared, the call has handed out the byte that the cell held.
pub proof fn lemma_cleared_cell_was_returned(m: PullModel, val: u8)
    requires
        m.returns_cell(val),
    ensures
        m.output(val) == Some(val),
        m.after(val) == (PullModel { filter: m.filter, taking: true }),
{
    let fed = m.filter.step(val);
    assert(fed.ready =~= seq![val]);
    assert(fed.after_pull().ready =~= m.filter.ready);
    assert(fed.after_pull().held =~= m.filter.held);
}

/// Everything that a machine outside any sequence has released; nothing while it is
/// inside one.
pub open spec fn drained(m: FilterModel) -> Seq<u8> {
    if m.state == FilterState::Init {
        m.ready
    } else {
        Seq::empty()
    }
}

/// The machine after a caller has collected `drained(m)`.
pub open spec fn after_drain(m: FilterModel) -> FilterModel {
    if m.state == FilterState::Init {
        FilterModel { state: m.state, ready: Seq::empty(), held: m.held }
    } else {
        m
    }
}

/// A CSI filter whose single operation feeds and takes at once.
#[derive(Debug)]
pub struct AnsiSeqState {
    state: FilterState,
    ready: VecDeque<u8>,
    held: VecDeque<u8>,
    taking: bool,
}

impl View for AnsiSeqState {
    type V = PullModel;

    closed spec fn view(&self) -> PullModel {
        PullModel {
            filter: FilterModel { state: self.state, ready: self.ready@, held: self.held@ },
            taking: self.taking,
        }
    }
}

impl AnsiSeqState {
    /// Creates a filter outside any sequence, with nothing released and nothing held.
    pub fn new() -> (fsm: AnsiSeqState)
        ensures
            fsm@ == PullModel::start(),
    {
        AnsiSeqState {
            state: FilterState::Init,
            ready: VecDeque::new(),
            held: VecDeque::new(),
            taking: false,
        }
    }

    /// Feeds the byte in `val`, unless the last call handed a byte out, and takes the
    /// oldest released byte. The cell keeps its byte while the byte is held back or
    /// dropped; it is cleared to zero when the byte is handed straight back.
    pub fn input(&mut self, val: &mut u8) -> (out: Option<u8>)
        ensures
            out == old(self)@.output(*old(val)),
            final(self)@ == old(self)@.after(*old(val)),
            *final(val) == old(self)@.cell_after(*old(val)),
    {
        if !self.taking {
            let byte = *val;
            let own = self.state == FilterState::Init && byte != ESC && self.ready.len() == 0
                && self.held.len() == 0;
            self.advance(byte);
            if own {
                *val = 0;
            }
        }
        let ghost fed = self@.filter;
        let out = if self.state == FilterState::Init {
            self.ready.pop_front()
        } else {
            None
        };
        self.taking = out.is_some();
        proof {
            if out is Some {
                assert(self.ready@ =~= fed.ready.drop_first());
            }
        }
        out
    }

    /// Feeds `byte` and collects everything that the filter has released. The next
    /// call of `input` feeds.
    pub fn feed(&mut self, byte: u8) -> (out: Vec<u8>)
        ensures
            out@ == drained(old(self)@.filter.step(byte)),
            final(self)@ == (PullModel {
                filter: after_drain(old(self)@.filter.step(byte)),
                taking: false,
            }),
    {
        self.advance(byte);
        self.taking = false;
        let ghost fed = self@.filter;
        let mut out: Vec<u8> = Vec::new();
        if self.state == FilterState::Init {
            loop
                invariant
                    self.state == FilterState::Init,
                    !self.taking,
                    self.held@ == fed.held,
                    fed.ready == out@ + self.ready@,
                ensures
                    self.ready@.len() == 0,
                decreases self.ready@.len(),
            {
                match self.ready.pop_front() {
                    Some(b) => {
                        out.push(b);
                        assert(fed.ready =~= out@ + self.ready@);
                    },
                    None => {
                        break ;
                    },
                }
            }
            assert(fed.ready =~= out@);
            assert(self.ready@ =~= Seq::<u8>::empty());
        } else {
            assert(out@ =~= Seq::<u8>::empty());
        }
        out
    }

    fn advance(&mut self, byte: u8)
        ensures
            final(self)@.filter == old(self)@.filter.step(byte),
            final(self)@.taking == old(self)@.taking,
    {
        match self.state {
            FilterState::Init => {
                if byte == ESC {
                    self.hold(FilterState::Start, byte);
                } else {
                    self.release(byte);
                }
            },
            FilterState::Start => {
                if byte == BRACKET {
                    self.hold(FilterState::Mode, byte);
                } else {
                    self.release(byte);
                }
            },
            FilterState::Mode => {
                if byte_is_digit(byte) {
                    self.hold(FilterState::Screen, byte);
                } else if byte == QUESTION {
                    self.hold(FilterState::Paste, byte);
                } else {
                    self.discard();
                }
            },
            FilterState::Screen => {
                if byte_is_digit(byte) {
                    self.hold(FilterState::Screen, byte);
                } else if byte_is_alphabetic(byte) {
                    self.discard();
                } else {
                    self.hold(FilterState::Screen, byte);
                }
            },
            FilterState::Paste => {
                if byte_is_digit(byte) {
                    self.hold(FilterState::Screen, byte);
                } else {
                    self.discard();
                }
            },
        }
    }

    fn hold(&mut self, state: FilterState, val: u8)
        ensures
            final(self)@.filter == old(self)@.filter.hold(state, val),
            final(self)@.taking == old(self)@.taking,
    {
        self.state = state;
        self.held.push_back(val);
    }

    fn discard(&mut self)
        ensures
            final(self)@.filter == old(self)@.filter.discard(),
            final(self)@.taking == old(self)@.taking,
    {
        self.state = FilterState::Init;
        self.held.clear();
    }

    fn release(&mut self, val: u8)
        ensures
            final(self)@.filter == old(self)@.filter.release(val),
            final(self)@.taking == old(self)@.taking,
    {
        self.state = FilterState::Init;
        self.held.push_back(val);
        self.ready.append(&mut self.held);
    }
}

} // verus!
