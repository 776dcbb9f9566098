//! Streaming filter that takes ANSI control sequences (`ESC [ ...`) out of a byte flow.
//!
//! The filter is a byte-at-a-time state machine. Bytes that cannot belong to a control
//! sequence are released at once; bytes that may belong to one are held back until the
//! sequence is either complete (and dropped) or proves malformed (and released in order).

use std::collections::VecDeque;
use vstd::prelude::*;

verus! {

/// The escape byte that opens every control sequence.
pub const ESC: u8 = 0x1b;

/// `[`, the second byte of a control sequence introducer.
pub const BRACKET: u8 = 0x5b;

/// `?`, which opens a private-mode (paste) sequence.
pub const QUESTION: u8 = 0x3f;

/// States of the filter.
#[derive(Clone, Copy, Debug, PartialEq, Eq, Structural)]
pub enum FilterState {
    /// Outside any sequence.
    Init,
    /// An `ESC` has been seen.
    Start,
    /// `ESC [` has been seen.
    Mode,
    /// Inside a screen-control sequence, which ends with an alphabetic byte.
    Screen,
    /// Inside a `?` sequence, which ends with the first non-digit.
    Paste,
}

/// True for the ASCII decimal digits.
pub open spec fn is_digit(b: u8) -> bool {
    0x30 <= b <= 0x39
}

/// True for the bytes that are alphabetic when read as Latin-1 code points:
/// the ASCII letters, `ª`, `µ`, `º`, and the accented letters from `À` to `ÿ`
/// without the two operators `×` and `÷`.
pub open spec fn is_alphabetic(b: u8) -> bool {
    ||| 0x41 <= b <= 0x5a
    ||| 0x61 <= b <= 0x7a
    ||| b == 0xaa
    ||| b == 0xb5
    ||| b == 0xba
    ||| 0xc0 <= b <= 0xd6
    ||| 0xd8 <= b <= 0xf6
    ||| 0xf8 <= b
}

/// Tests whether `b` is an ASCII decimal digit.
pub fn byte_is_digit(b: u8) -> (r: bool)
    ensures
        r == is_digit(b),
{
    0x30 <= b && b <= 0x39
}

/// Tests whether `b`, read as a Latin-1 code point, is alphabetic.
pub fn byte_is_alphabetic(b: u8) -> (r: bool)
    ensures
        r == is_alphabetic(b),
{
    (0x41 <= b && b <= 0x5a) || (0x61 <= b && b <= 0x7a) || b == 0xaa || b == 0xb5 || b == 0xba
        || (0xc0 <= b && b <= 0xd6) || (0xd8 <= b && b <= 0xf6) || 0xf8 <= b
}

/// Mathematical state of a filter.
pub struct FilterModel {
    /// Where the machine stands.
    pub state: FilterState,
    /// Bytes released by the filter and not yet taken by the caller, oldest first.
    pub ready: Seq<u8>,
    /// Bytes of the sequence under examination, oldest first.
    pub held: Seq<u8>,
}

impl FilterModel {
    /// A fresh filter: outside any sequence, nothing released, nothing held.
    pub open spec fn start() -> FilterModel {
        FilterModel { state: FilterState::Init, ready: Seq::empty(), held: Seq::empty() }
    }

    /// The machine keeps examining: `b` joins the held bytes.
    pub open spec fn hold(self, state: FilterState, b: u8) -> FilterModel {
        FilterModel { state, ready: self.ready, held: self.held.push(b) }
    }

    /// The sequence is recognised: the held bytes are dropped together with `b`.
    pub open spec fn discard(self) -> FilterModel {
        FilterModel { state: FilterState::Init, ready: self.ready, held: Seq::empty() }
    }

    /// The bytes do not form a sequence: the held bytes are released, then `b`.
    pub open spec fn release(self, b: u8) -> FilterModel {
        FilterModel {
            state: FilterState::Init,
            ready: self.ready + self.held.push(b),
            held: Seq::empty(),
        }
    }

    /// The transition table: the state reached from `self` on input `b`.
    pub open spec fn step(self, b: u8) -> FilterModel {
        match self.state {
            FilterState::Init => if b == ESC {
                self.hold(FilterState::Start, b)
            } else {
                self.release(b)
            },
            FilterState::Start => if b == BRACKET {
                self.hold(FilterState::Mode, b)
            } else {
                self.release(b)
            },
            FilterState::Mode => if is_digit(b) {
                self.hold(FilterState::Screen, b)
            } else if b == QUESTION {
                self.hold(FilterState::Paste, b)
            } else {
                self.discard()
            },
            FilterState::Screen => if is_digit(b) {
                self.hold(FilterState::Screen, b)
            } else if is_alphabetic(b) {
                self.discard()
            } else {
                self.hold(FilterState::Screen, b)
            },
            FilterState::Paste => if is_digit(b) {
                self.hold(FilterState::Screen, b)
            } else {
                self.discard()
            },
        }
    }

    /// The state reached from `self` after the bytes of `input`, in order.
    pub open spec fn run(self, input: Seq<u8>) -> FilterModel
        decreases input.len(),
    {
        if input.len() == 0 {
            self
        } else {
            self.run(input.drop_last()).step(input.last())
        }
    }

    /// The oldest released byte, if the machine is outside any sequence and has one.
    pub open spec fn front(self) -> Option<u8> {
        if self.state == FilterState::Init && self.ready.len() > 0 {
            Some(self.ready[0])
        } else {
            None
        }
    }

    /// The state after the caller has taken `self.front()`.
    pub open spec fn after_pull(self) -> FilterModel {
        if self.front() is Some {
            FilterModel { state: self.state, ready: self.ready.drop_first(), held: self.held }
        } else {
            self
        }
    }
}

/// What a fresh filter releases for `input`.
pub open spec fn filter_output(input: Seq<u8>) -> Seq<u8> {
    FilterModel::start().run(input).ready
}

/// Running over `a + b` is running over `a`, then over `b`.
pub proof fn lemma_run_concat(m: FilterModel, a: Seq<u8>, b: Seq<u8>)
    ensures
        m.run(a + b) == m.run(a).run(b),
    decreases b.len(),
{
    if b.len() == 0 {
    } else {
        assert((a + b).drop_last() =~= a + b.drop_last());
        lemma_run_concat(m, a, b.drop_last());
    }
}

/// Running over a single byte is one step.
pub proof fn lemma_run_one(m: FilterModel, b: u8)
    ensures
        m.run(seq![b]) == m.step(b),
{
    let s = seq![b];
    assert(m.run(s.drop_last()) == m);
}

/// Outside a sequence, bytes other than `ESC` are released unchanged and in order.
pub proof fn lemma_plain_run(m: FilterModel, input: Seq<u8>)
    requires
        m.state == FilterState::Init,
        m.held.len() == 0,
        forall|i: int| 0 <= i < input.len() ==> input[i] != ESC,
    ensures
        m.run(input) == (FilterModel {
            state: FilterState::Init,
            ready: m.ready + input,
            held: Seq::empty(),
        }),
    decreases input.len(),
{
    if input.len() == 0 {
        assert(m.held =~= Seq::<u8>::empty());
    } else {
        let head = input.drop_last();
        lemma_plain_run(m, head);
        let before = m.run(head);
        assert(before.ready + seq![input.last()] =~= m.ready + input);
    }
}

/// Preservation: a byte sequence without `ESC` comes out of a fresh filter as it went in.
pub proof fn lemma_filter_preserves_plain(input: Seq<u8>)
    requires
        forall|i: int| 0 <= i < input.len() ==> input[i] != ESC,
    ensures
        filter_output(input) == input,
        FilterModel::start().run(input).state == FilterState::Init,
        FilterModel::start().run(input).held.len() == 0,
{
    lemma_plain_run(FilterModel::start(), input);
}

/// The parameter bytes of a screen-control sequence: digits and `;`.
pub open spec fn is_parameter(b: u8) -> bool {
    is_digit(b) || b == 0x3b
}

/// Inside a screen sequence, parameter bytes are held and nothing is released.
pub proof fn lemma_screen_holds(m: FilterModel, params: Seq<u8>)
    requires
        m.state == FilterState::Screen,
        forall|i: int| 0 <= i < params.len() ==> is_parameter(params[i]),
    ensures
        m.run(params).state == FilterState::Screen,
        m.run(params).ready == m.ready,
    decreases params.len(),
{
    if params.len() > 0 {
        lemma_screen_holds(m, params.drop_last());
    }
}

/// Elision: from outside a sequence, `ESC [ params final` releases nothing, where
/// `params` are digits and `;` of which the first, if any, is a digit, and `final`
/// is alphabetic. The machine is back outside any sequence afterwards.
pub proof fn lemma_sequence_elided(m: FilterModel, params: Seq<u8>, last: u8)
    requires
        m.state == FilterState::Init,
        forall|i: int| 0 <= i < params.len() ==> is_parameter(params[i]),
        params.len() > 0 ==> is_digit(params[0]),
        is_alphabetic(last),
    ensures
        m.run(seq![ESC, BRACKET] + params + seq![last]) == (FilterModel {
            state: FilterState::Init,
            ready: m.ready,
            held: Seq::empty(),
        }),
{
    let intro = seq![ESC, BRACKET];
    let m1 = m.step(ESC);
    let m2 = m1.step(BRACKET);
    assert(m.run(intro) == m2) by {
        assert(intro.drop_last() =~= seq![ESC]);
        lemma_run_one(m, ESC);
    }
    let m3 = m2.run(params);
    assert(m3.ready == m.ready && (m3.state == FilterState::Mode || m3.state
        == FilterState::Screen)) by {
        if params.len() > 0 {
            let rest = params.drop_first();
            assert(params =~= seq![params[0]] + rest);
            lemma_run_concat(m2, seq![params[0]], rest);
            lemma_run_one(m2, params[0]);
            let m2b = m2.step(params[0]);
            assert forall|i: int| 0 <= i < rest.len() implies is_parameter(rest[i]) by {
            }
            lemma_screen_holds(m2b, rest);
        }
    }
    lemma_run_concat(m, intro, params);
    lemma_run_concat(m, intro + params, seq![last]);
    lemma_run_one(m3, last);
}

/// Elision for a fresh filter: a well-formed screen-control sequence yields no output.
pub proof fn lemma_filter_elides_sequence(params: Seq<u8>, last: u8)
    requires
        forall|i: int| 0 <= i < params.len() ==> is_parameter(params[i]),
        params.len() > 0 ==> is_digit(params[0]),
        is_alphabetic(last),
    ensures
        filter_output(seq![ESC, BRACKET] + params + seq![last]) == Seq::<u8>::empty(),
{
    lemma_sequence_elided(FilterModel::start(), params, last);
}

/// Lone escape: `ESC x` with `x` other than `[` comes out as `ESC x`, in this order.
pub proof fn lemma_filter_passes_lone_escape(x: u8)
    requires
        x != BRACKET,
    ensures
        filter_output(seq![ESC, x]) == seq![ESC, x],
        FilterModel::start().run(seq![ESC, x]).state == FilterState::Init,
{
    let m = FilterModel::start();
    let s = seq![ESC, x];
    assert(s.drop_last() =~= seq![ESC]);
    lemma_run_one(m, ESC);
}

/// A CSI filter with separate push (`input`) and pull (`next`) operations.
#[derive(Debug)]
pub struct AnsiFilter {
    state: FilterState,
    ready: VecDeque<u8>,
    held: VecDeque<u8>,
}

impl View for AnsiFilter {
    type V = FilterModel;

    closed spec fn view(&self) -> FilterModel {
        FilterModel { state: self.state, ready: self.ready@, held: self.held@ }
    }
}

impl AnsiFilter {
    /// Creates a filter outside any sequence, with nothing released and nothing held.
    pub fn new() -> (filter: AnsiFilter)
        ensures
            filter@ == FilterModel::start(),
    {
        AnsiFilter { state: FilterState::Init, ready: VecDeque::new(), held: VecDeque::new() }
    }

    /// Takes the oldest released byte. Nothing is handed out while a sequence is
    /// under examination.
    pub fn next(&mut self) -> (out: Option<u8>)
        ensures
            out == old(self)@.front(),
            final(self)@ == old(self)@.after_pull(),
    {
        if self.state == FilterState::Init {
            return self.ready.pop_front();
        }
        None
    }

    /// Feeds one byte to the machine.
    pub fn input(&mut self, val: u8)
        ensures
            final(self)@ == old(self)@.step(val),
    {
        match self.state {
            FilterState::Init => {
                if val == ESC {
                    self.hold(FilterState::Start, val);
                } else {
                    self.release(val);
                }
            },
            FilterState::Start => {
                if val == BRACKET {
                    self.hold(FilterState::Mode, val);
                } else {
                    self.release(val);
                }
            },
            FilterState::Mode => {
                if byte_is_digit(val) {
                    self.hold(FilterState::Screen, val);
                } else if val == QUESTION {
                    self.hold(FilterState::Paste, val);
                } else {
                    self.discard();
                }
            },
            FilterState::Screen => {
                if byte_is_digit(val) {
                    self.hold(FilterState::Screen, val);
                } else if byte_is_alphabetic(val) {
                    self.discard();
                } else {
                    self.hold(FilterState::Screen, val);
                }
            },
            FilterState::Paste => {
                if byte_is_digit(val) {
                    self.hold(FilterState::Screen, val);
                } else {
                    self.discard();
                }
            },
        }
    }

    fn hold(&mut self, state: FilterState, val: u8)
        ensures
            final(self)@ == old(self)@.hold(state, val),
    {
        self.state = state;
        self.held.push_back(val);
    }

    fn discard(&mut self)
        ensures
            final(self)@ == old(self)@.discard(),
    {
        self.state = FilterState::Init;
        self.held.clear();
    }

    fn release(&mut self, val: u8)
        ensures
            final(self)@ == old(self)@.release(val),
    {
        self.state = FilterState::Init;
        self.held.push_back(val);
        self.ready.append(&mut self.held);
    }
}

} // verus!
