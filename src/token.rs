//! The access token: one caller at a time works on the engine.
//!
//! The host keeps the token behind a lock and makes a waiting caller retry
//! `try_acquire` until it is granted.
use vstd::prelude::*;

verus! {

/// A request to the token by a caller, named by a number.
#[derive(Clone, Copy, Debug, PartialEq, Eq, Structural)]
pub enum TokenEvent {
    Acquire(u64),
    Release(u64),
}

/// Who holds the token after an event: an acquire is granted only when the
/// token is free, a release counts only from the holder.
pub open spec fn token_next(holder: Option<u64>, e: TokenEvent) -> Option<u64> {
    match e {
        TokenEvent::Acquire(c) => if holder is None {
            Some(c)
        } else {
            holder
        },
        TokenEvent::Release(c) => if holder == Some(c) {
            None
        } else {
            holder
        },
    }
}

/// Who holds the token after a trace of events, starting free.
pub open spec fn holder_after(trace: Seq<TokenEvent>) -> Option<u64>
    decreases trace.len(),
{
    if trace.len() == 0 {
        None
    } else {
        token_next(holder_after(trace.drop_last()), trace.last())
    }
}

/// Caller `c` is inside its critical section before event `k`: it was granted
/// the token at some earlier event and has not released it since.
pub open spec fn in_section(trace: Seq<TokenEvent>, k: int, c: u64) -> bool {
    exists|i: int|
        #![trigger trace[i]]
        0 <= i < k && trace[i] == TokenEvent::Acquire(c) && holder_after(trace.take(i)) is None
            && forall|j: int| i < j < k ==> trace[j] != TokenEvent::Release(c)
}

/// The global access token.
pub struct AccessToken {
    holder: Option<u64>,
}

impl View for AccessToken {
    type V = Option<u64>;

    closed spec fn view(&self) -> Option<u64> {
        self.holder
    }
}

impl AccessToken {
    pub fn new() -> (t: AccessToken)
        ensures
            t@ == None::<u64>,
    {
        AccessToken { holder: None }
    }

    /// Grants the token to `caller` when it is free.
    pub fn try_acquire(&mut self, caller: u64) -> (granted: bool)
        ensures
            granted == (old(self)@ is None),
            final(self)@ == token_next(old(self)@, TokenEvent::Acquire(caller)),
    {
        if self.holder.is_none() {
            self.holder = Some(caller);
            true
        } else {
            false
        }
    }

    /// Gives the token back when `caller` holds it.
    pub fn release(&mut self, caller: u64) -> (released: bool)
        ensures
            released == (old(self)@ == Some(caller)),
            final(self)@ == token_next(old(self)@, TokenEvent::Release(caller)),
    {
        let held = match self.holder {
            Some(h) => h == caller,
            None => false,
        };
        if held {
            self.holder = None;
        }
        held
    }

    pub fn holder(&self) -> (r: Option<u64>)
        ensures
            r == self@,
    {
        self.holder
    }
}

proof fn lemma_held_until_release(trace: Seq<TokenEvent>, i: int, k: int, c: u64)
    requires
        0 <= i < k <= trace.len(),
        trace[i] == TokenEvent::Acquire(c),
        holder_after(trace.take(i)) is None,
        forall|j: int| i < j < k ==> trace[j] != TokenEvent::Release(c),
    ensures
        holder_after(trace.take(k)) == Some(c),
    decreases k - i,
{
    if k == i + 1 {
        assert(trace.take(k).drop_last() =~= trace.take(i));
    } else {
        lemma_held_until_release(trace, i, k - 1, c);
        assert(trace.take(k).drop_last() =~= trace.take(k - 1));
        assert(trace.take(k).last() == trace[k - 1]);
    }
}

/// Critical sections never overlap: at any point of any trace, at most one
/// caller is inside its section.
pub proof fn lemma_sections_exclusive(trace: Seq<TokenEvent>, k: int, a: u64, b: u64)
    requires
        0 <= k <= trace.len(),
        in_section(trace, k, a),
        in_section(trace, k, b),
    ensures
        a == b,
{
    let i = choose|i: int|
        #![trigger trace[i]]
        0 <= i < k && trace[i] == TokenEvent::Acquire(a) && holder_after(trace.take(i)) is None
            && forall|j: int| i < j < k ==> trace[j] != TokenEvent::Release(a);
    let m = choose|i: int|
        #![trigger trace[i]]
        0 <= i < k && trace[i] == TokenEvent::Acquire(b) && holder_after(trace.take(i)) is None
            && forall|j: int| i < j < k ==> trace[j] != TokenEvent::Release(b);
    lemma_held_until_release(trace, i, k, a);
    lemma_held_until_release(trace, m, k, b);
}

} // verus!
