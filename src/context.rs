//! The call-site tags that a thread records, and the bounded trail of them that
//! each thread keeps for the report of a panic.
use vstd::prelude::*;

use crate::tags::{AppContext, PluginContext, PtyContext, ScreenContext};
use crate::text::{decimal, push_decimal};

verus! {

/// How many call sites one trail holds; later ones are dropped.
pub const MAX_THREAD_CALL_STACK: usize = 6;

/// One call site of a trail: the thread that handled an instruction and which
/// instruction it was, or one of the infrastructure threads, or no call at all.
#[derive(Debug, Clone, Copy, PartialEq, Eq, Structural)]
pub enum ContextType {
    Screen(ScreenContext),
    Pty(PtyContext),
    Plugin(PluginContext),
    App(AppContext),
    IPCServer,
    StdinHandler,
    AsyncTask,
    Empty,
}

impl ContextType {
    /// The line body under which the call site is reported: the thread's name in
    /// purple, then the call site in green. An empty call site has no text.
    pub open spec fn label_spec(self) -> Seq<char> {
        match self {
            ContextType::Screen(c) => "\u{1b}[1;35mscreen_thread: \u{1b}[0;32m"@ + c.label_spec(),
            ContextType::Pty(c) => "\u{1b}[1;35mpty_thread: \u{1b}[0;32m"@ + c.label_spec(),
            ContextType::Plugin(c) => "\u{1b}[1;35mplugin_thread: \u{1b}[0;32m"@ + c.label_spec(),
            ContextType::App(c) => "\u{1b}[1;35mmain_thread: \u{1b}[0;32m"@ + c.label_spec(),
            ContextType::IPCServer => "\u{1b}[1;35mipc_server: \u{1b}[0;32mAcceptInput"@,
            ContextType::StdinHandler => "\u{1b}[1;35mstdin_handler_thread: \u{1b}[0;32mAcceptInput"@,
            ContextType::AsyncTask => "\u{1b}[1;35mstream_terminal_bytes: \u{1b}[0;32mAsyncTask"@,
            ContextType::Empty => Seq::empty(),
        }
    }

    /// The text of the call site, as a report shows it.
    pub fn to_string(&self) -> (r: String)
        ensures
            r@ == self.label_spec(),
    {
        let mut r = String::new();
        match *self {
            ContextType::Screen(c) => {
                r.append("\u{1b}[1;35mscreen_thread: \u{1b}[0;32m");
                r.append(c.label());
            },
            ContextType::Pty(c) => {
                r.append("\u{1b}[1;35mpty_thread: \u{1b}[0;32m");
                r.append(c.label());
            },
            ContextType::Plugin(c) => {
                r.append("\u{1b}[1;35mplugin_thread: \u{1b}[0;32m");
                r.append(c.label());
            },
            ContextType::App(c) => {
                r.append("\u{1b}[1;35mmain_thread: \u{1b}[0;32m");
                r.append(c.label());
            },
            ContextType::IPCServer => {
                r.append("\u{1b}[1;35mipc_server: \u{1b}[0;32mAcceptInput");
            },
            ContextType::StdinHandler => {
                r.append("\u{1b}[1;35mstdin_handler_thread: \u{1b}[0;32mAcceptInput");
            },
            ContextType::AsyncTask => {
                r.append("\u{1b}[1;35mstream_terminal_bytes: \u{1b}[0;32mAsyncTask");
            },
            ContextType::Empty => {},
        }
        r
    }
}

/// The trail after recording `call` on a trail `calls`: the call is appended
/// while there is room, and dropped once the trail is full. Recording no call
/// changes nothing.
pub open spec fn add_call_spec(calls: Seq<ContextType>, call: ContextType) -> Seq<ContextType> {
    if calls.len() < MAX_THREAD_CALL_STACK && !(call is Empty) {
        calls.push(call)
    } else {
        calls
    }
}

/// The trail after recording each of `calls`, in order, on a trail `start`.
pub open spec fn add_calls_spec(start: Seq<ContextType>, calls: Seq<ContextType>) -> Seq<
    ContextType,
>
    decreases calls.len(),
{
    if calls.len() == 0 {
        start
    } else {
        add_call_spec(add_calls_spec(start, calls.drop_last()), calls.last())
    }
}

/// The header that opens every report of a trail.
pub open spec fn report_header() -> Seq<char> {
    "Originating Thread(s):\n"@
}

/// The line that reports the `n`-th call site of a trail, counting from one.
pub open spec fn entry_line(n: nat, call: ContextType) -> Seq<char> {
    "\u{1b}[0;0m"@ + decimal(n) + ". "@ + call.label_spec() + "\n"@
}

/// The numbered lines that report the call sites `calls`, in order.
pub open spec fn entry_lines(calls: Seq<ContextType>) -> Seq<char>
    decreases calls.len(),
{
    if calls.len() == 0 {
        Seq::empty()
    } else {
        entry_lines(calls.drop_last()) + entry_line(calls.len(), calls.last())
    }
}

/// The report of the trail `calls`.
pub open spec fn report_spec(calls: Seq<ContextType>) -> Seq<char> {
    report_header() + entry_lines(calls)
}

/// The trail of call sites recorded by one thread: at most
/// `MAX_THREAD_CALL_STACK` of them, the earliest first, padded with empty
/// call sites.
#[derive(Clone, Copy)]
pub struct ErrorContext {
    calls: [ContextType; MAX_THREAD_CALL_STACK],
    len: usize,
}

impl View for ErrorContext {
    type V = Seq<ContextType>;

    /// The call sites recorded so far, in the order of recording.
    closed spec fn view(&self) -> Seq<ContextType> {
        self.calls@.take(self.len as int)
    }
}

impl ErrorContext {
    #[verifier::type_invariant]
    spec fn filled_then_empty(self) -> bool {
        &&& self.len <= MAX_THREAD_CALL_STACK
        &&& forall|i: int| 0 <= i < self.len ==> !(#[trigger] self.calls@[i] is Empty)
        &&& forall|i: int| self.len <= i < MAX_THREAD_CALL_STACK ==> #[trigger] self.calls@[i] is Empty
    }

    /// A trail with no call site recorded.
    pub fn new() -> (r: Self)
        ensures
            r@ == Seq::<ContextType>::empty(),
    {
        let r = Self { calls: [ContextType::Empty; MAX_THREAD_CALL_STACK], len: 0 };
        assert(r@ =~= Seq::<ContextType>::empty());
        r
    }

    /// Records `call` in the first free slot; once every slot is taken the call
    /// is dropped.
    pub fn add_call(&mut self, call: ContextType)
        ensures
            final(self)@ == add_call_spec(old(self)@, call),
    {
        proof {
            use_type_invariant(&*self);
        }
        let mut i: usize = 0;
        while i < MAX_THREAD_CALL_STACK && self.calls[i] != ContextType::Empty
            invariant
                i <= MAX_THREAD_CALL_STACK,
                forall|k: int| 0 <= k < i ==> !(#[trigger] self.calls@[k] is Empty),
            decreases MAX_THREAD_CALL_STACK - i,
        {
            i += 1;
        }
        proof {
            if i < self.len {
                assert(!(self.calls@[i as int] is Empty));
            }
            if i > self.len {
                assert(self.calls@[self.len as int] is Empty);
            }
            assert(i == self.len);
        }
        if i < MAX_THREAD_CALL_STACK && call != ContextType::Empty {
            let mut calls = self.calls;
            calls[i] = call;
            *self = Self { calls, len: i + 1 };
        }
        assert(final(self)@ =~= add_call_spec(old(self)@, call));
    }
    /// The call sites recorded so far, in the order of recording.
    pub fn calls(&self) -> (r: Vec<ContextType>)
        ensures
            r@ == self@,
    {
        proof {
            use_type_invariant(self);
        }
        let mut r: Vec<ContextType> = Vec::new();
        let mut i: usize = 0;
        while i < self.len
            invariant
                self.len <= MAX_THREAD_CALL_STACK,
                i <= self.len,
                r@ == self@.take(i as int),
            decreases self.len - i,
        {
            r.push(self.calls[i]);
            i += 1;
            assert(r@ =~= self@.take(i as int));
        }
        assert(self@.take(i as int) =~= self@);
        r
    }

    /// The report of the trail: a header line, then one numbered line for each
    /// recorded call site, in the order of recording.
    pub fn to_string(&self) -> (r: String)
        ensures
            r@ == report_spec(self@),
    {
        proof {
            use_type_invariant(self);
        }
        let mut r = String::new();
        r.append("Originating Thread(s):\n");
        let mut i: usize = 0;
        while i < self.len
            invariant
                self.len <= MAX_THREAD_CALL_STACK,
                i <= self.len,
                r@ == report_header() + entry_lines(self@.take(i as int)),
            decreases self.len - i,
        {
            let call = self.calls[i];
            r.append("\u{1b}[0;0m");
            push_decimal(&mut r, (i + 1) as u32);
            r.append(". ");
            let label = call.to_string();
            r.append(label.as_str());
            r.append("\n");
            proof {
                let next = self@.take(i + 1);
                assert(next.drop_last() =~= self@.take(i as int));
                assert(r@ =~= report_header() + entry_lines(next));
            }
            i += 1;
        }
        assert(self@.take(i as int) =~= self@);
        r
    }
}

impl Default for ErrorContext {
    fn default() -> (r: Self)
        ensures
            r@ == Seq::<ContextType>::empty(),
    {
        Self::new()
    }
}

/// Recording non-empty call sites on a fresh trail keeps the earliest
/// `MAX_THREAD_CALL_STACK` of them, in the order of recording.
pub proof fn lemma_trail_keeps_earliest(calls: Seq<ContextType>)
    requires
        forall|i: int| 0 <= i < calls.len() ==> !(#[trigger] calls[i] is Empty),
    ensures
        add_calls_spec(Seq::empty(), calls) == calls.take(
            if calls.len() <= MAX_THREAD_CALL_STACK {
                calls.len() as int
            } else {
                MAX_THREAD_CALL_STACK as int
            },
        ),
    decreases calls.len(),
{
    if calls.len() == 0 {
        assert(calls.take(0) =~= Seq::<ContextType>::empty());
    } else {
        let rest = calls.drop_last();
        assert forall|i: int| 0 <= i < rest.len() implies !(#[trigger] rest[i] is Empty) by {
            assert(rest[i] == calls[i]);
        }
        lemma_trail_keeps_earliest(rest);
        assert(!(calls[calls.len() - 1] is Empty));
        if calls.len() <= MAX_THREAD_CALL_STACK {
            assert(rest.push(calls.last()) =~= calls.take(calls.len() as int));
        } else {
            assert(rest.take(MAX_THREAD_CALL_STACK as int) =~= calls.take(
                MAX_THREAD_CALL_STACK as int,
            ));
        }
    }
}

/// Recording at most `MAX_THREAD_CALL_STACK` non-empty call sites on a fresh
/// trail keeps exactly those call sites in the order of recording, and its
/// report is the header followed by one line for each, numbered from one.
pub proof fn lemma_short_trail_reported(calls: Seq<ContextType>)
    requires
        calls.len() <= MAX_THREAD_CALL_STACK,
        forall|i: int| 0 <= i < calls.len() ==> !(#[trigger] calls[i] is Empty),
    ensures
        add_calls_spec(Seq::empty(), calls) == calls,
        report_spec(add_calls_spec(Seq::empty(), calls)) == report_header() + entry_lines(calls),
{
    lemma_trail_keeps_earliest(calls);
    assert(calls.take(calls.len() as int) =~= calls);
}

/// Recording more than `MAX_THREAD_CALL_STACK` non-empty call sites on a fresh
/// trail keeps exactly the first `MAX_THREAD_CALL_STACK`: every record from the
/// next one on leaves the trail unchanged.
pub proof fn lemma_long_trail_truncated(calls: Seq<ContextType>)
    requires
        calls.len() > MAX_THREAD_CALL_STACK,
        forall|i: int| 0 <= i < calls.len() ==> !(#[trigger] calls[i] is Empty),
    ensures
        add_calls_spec(Seq::empty(), calls) == calls.take(MAX_THREAD_CALL_STACK as int),
        forall|k: int|
            MAX_THREAD_CALL_STACK <= k < calls.len() ==> add_call_spec(
                #[trigger] add_calls_spec(Seq::empty(), calls.take(k)),
                calls[k],
            ) == add_calls_spec(Seq::empty(), calls.take(k)),
{
    lemma_trail_keeps_earliest(calls);
    assert forall|k: int| MAX_THREAD_CALL_STACK <= k < calls.len() implies add_call_spec(
        #[trigger] add_calls_spec(Seq::empty(), calls.take(k)),
        calls[k],
    ) == add_calls_spec(Seq::empty(), calls.take(k)) by {
        let prefix = calls.take(k);
        assert forall|i: int| 0 <= i < prefix.len() implies !(#[trigger] prefix[i] is Empty) by {
            assert(prefix[i] == calls[i]);
        }
        lemma_trail_keeps_earliest(prefix);
    }
}

/// The report of a trail with no call site is the header line alone.
pub proof fn lemma_empty_trail_reported()
    ensures
        report_spec(Seq::empty()) == report_header(),
{
    assert(report_spec(Seq::empty()) =~= report_header());
}

} // verus!
