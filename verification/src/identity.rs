//! Thread identities: tokens that are issued once and never again.

use vstd::prelude::*;
use vstd::string::StringExecFns;

verus! {

/// A permanent identifier for a single thread, which will not be reused.
///
/// Two identifiers are equal exactly when they were read from the same
/// thread's nonce.
#[derive(Clone, Copy, Debug, PartialEq, Eq, Structural)]
pub struct ThreadId {
    nonce: u64,
}

/// The process-wide issuer of thread identities: a counter that only grows.
pub struct NonceSource {
    next: u64,
}

/// One thread's own slot for its identity. It starts empty and is filled by
/// the first read on that thread; from then on it never changes.
pub struct ThreadNonce {
    id: Option<ThreadId>,
}

impl ThreadId {
    /// The number behind this identifier.
    pub closed spec fn nonce(self) -> nat {
        self.nonce as nat
    }

    /// The text of an identifier: `thread(`, the nonce in decimal, `)`.
    pub open spec fn text(self) -> Seq<char> {
        seq!['t', 'h', 'r', 'e', 'a', 'd', '('] + decimal(self.nonce()) + seq![')']
    }

    /// Renders the identifier for diagnostics.
    pub fn debug_string(&self) -> (s: String)
        ensures
            s@ == self.text(),
    {
        let mut s = String::from_str("thread(");
        proof {
            reveal_strlit("thread(");
            assert(s@ =~= seq!['t', 'h', 'r', 'e', 'a', 'd', '(']);
        }
        push_decimal(&mut s, self.nonce);
        s.append(")");
        proof {
            reveal_strlit(")");
            assert(")"@ =~= seq![')']);
        }
        s
    }
}

impl ThreadNonce {
    /// The identity in the slot, if the thread has read it before.
    pub closed spec fn id(self) -> Option<ThreadId> {
        self.id
    }

    /// The empty slot that a thread starts with.
    pub fn new() -> (slot: Self)
        ensures
            slot.id() is None,
    {
        ThreadNonce { id: None }
    }

    /// Whether the thread's identity has been fixed already.
    pub fn is_set(&self) -> (r: bool)
        ensures
            r == self.id() is Some,
    {
        self.id.is_some()
    }
}

impl NonceSource {
    /// How many identities have been issued so far. The identities issued
    /// are those with a nonce below this number.
    pub closed spec fn issued(self) -> nat {
        self.next as nat
    }

    /// Whether `id` is among the identities issued so far.
    pub open spec fn has_issued(self, id: ThreadId) -> bool {
        id.nonce() < self.issued()
    }

    /// Whether the source can issue no further identity.
    pub open spec fn exhausted(self) -> bool {
        self.issued() >= u64::MAX
    }

    /// What one issue does: it hands out the identity whose nonce is the
    /// number of identities issued before, and counts it.
    pub open spec fn issues(self, id: ThreadId, after: NonceSource) -> bool {
        id.nonce() == self.issued() && after.issued() == self.issued() + 1
    }

    /// A source that has issued nothing yet.
    pub fn new() -> (source: Self)
        ensures
            source.issued() == 0,
    {
        NonceSource { next: 0 }
    }

    /// Whether the source has run out of identities.
    pub fn is_exhausted(&self) -> (r: bool)
        ensures
            r == self.exhausted(),
    {
        self.next == u64::MAX
    }

    /// Issues an identity that this source has never issued before.
    pub fn issue(&mut self) -> (id: ThreadId)
        requires
            !old(self).exhausted(),
        ensures
            old(self).issues(id, *final(self)),
    {
        let id = ThreadId { nonce: self.next };
        self.next = self.next + 1;
        id
    }
}

/// One read of a thread's identity, from the slot and the source before it
/// to the identity returned and the slot and the source after it. A filled
/// slot answers by itself and nothing changes; an empty slot takes the
/// source's next identity and keeps it.
pub open spec fn reads(
    slot: ThreadNonce,
    source: NonceSource,
    id: ThreadId,
    slot_after: ThreadNonce,
    source_after: NonceSource,
) -> bool {
    match slot.id() {
        Some(held) => id == held && slot_after.id() == Some(held) && source_after.issued()
            == source.issued(),
        None => slot_after.id() == Some(id) && source.issues(id, source_after),
    }
}

/// Returns a persistent identifier for the thread that owns `slot`.
///
/// The first read on a thread draws a new identity from `source`; every
/// later read returns that same identity and leaves the source alone.
pub fn current_thread_id(slot: &mut ThreadNonce, source: &mut NonceSource) -> (id: ThreadId)
    requires
        old(slot).id() is Some || !old(source).exhausted(),
    ensures
        reads(*old(slot), *old(source), id, *final(slot), *final(source)),
{
    match slot.id {
        Some(id) => id,
        None => {
            let id = source.issue();
            slot.id = Some(id);
            id
        },
    }
}

/// The nonce is all there is to an identity: two identities with the same
/// nonce are the same.
pub proof fn lemma_nonce_names_identity(a: ThreadId, b: ThreadId)
    requires
        a.nonce() == b.nonce(),
    ensures
        a == b,
{
}

/// An identity is new when it is issued, and the source never forgets one:
/// no later issue can hand it out again.
pub proof fn lemma_issue_is_fresh(before: NonceSource, id: ThreadId, after: NonceSource)
    requires
        before.issues(id, after),
    ensures
        !before.has_issued(id),
        after.has_issued(id),
        forall|other: ThreadId| before.has_issued(other) ==> after.has_issued(other),
        forall|later: NonceSource, next: ThreadId, later_after: NonceSource|
            after.issued() <= later.issued() && #[trigger] later.issues(next, later_after) ==> next
                != id,
{
}

/// Repeated reads on one thread agree: once a read has returned `first`, any
/// later read through the same slot returns `first` again, whatever the
/// source has done in between, and issues nothing.
pub proof fn lemma_same_thread_same_id(
    slot: ThreadNonce,
    source: NonceSource,
    first: ThreadId,
    slot1: ThreadNonce,
    source1: NonceSource,
    later: NonceSource,
    second: ThreadId,
    slot2: ThreadNonce,
    later2: NonceSource,
)
    requires
        reads(slot, source, first, slot1, source1),
        reads(slot1, later, second, slot2, later2),
    ensures
        second == first,
        slot2.id() == slot1.id(),
        later2.issued() == later.issued(),
{
}

/// Different threads never share an identity: a thread that reads its
/// identity for the first time after another thread has done so, from the
/// same source and however much later, gets a different one. This holds
/// whether or not the first thread still exists.
pub proof fn lemma_distinct_threads_distinct_ids(
    slot_a: ThreadNonce,
    source: NonceSource,
    id_a: ThreadId,
    slot_a1: ThreadNonce,
    source1: NonceSource,
    slot_b: ThreadNonce,
    later: NonceSource,
    id_b: ThreadId,
    slot_b1: ThreadNonce,
    later1: NonceSource,
)
    requires
        slot_a.id() is None,
        slot_b.id() is None,
        reads(slot_a, source, id_a, slot_a1, source1),
        source1.issued() <= later.issued(),
        reads(slot_b, later, id_b, slot_b1, later1),
    ensures
        id_a != id_b,
        later.has_issued(id_a),
        !later.has_issued(id_b),
{
}

/// The decimal digit `d` as a character.
pub open spec fn digit_char(d: nat) -> char
    recommends
        d < 10,
{
    if d == 0 {
        '0'
    } else if d == 1 {
        '1'
    } else if d == 2 {
        '2'
    } else if d == 3 {
        '3'
    } else if d == 4 {
        '4'
    } else if d == 5 {
        '5'
    } else if d == 6 {
        '6'
    } else if d == 7 {
        '7'
    } else if d == 8 {
        '8'
    } else {
        '9'
    }
}

/// The decimal numeral of `n`, most significant digit first, without leading
/// zeros.
pub open spec fn decimal(n: nat) -> Seq<char>
    decreases n,
{
    if n < 10 {
        seq![digit_char(n)]
    } else {
        decimal(n / 10).push(digit_char(n % 10))
    }
}

/// The one-character string of a decimal digit.
fn digit_str(d: u64) -> (s: &'static str)
    requires
        d < 10,
    ensures
        s@ == seq![digit_char(d as nat)],
{
    proof {
        reveal_strlit("0");
        reveal_strlit("1");
        reveal_strlit("2");
        reveal_strlit("3");
        reveal_strlit("4");
        reveal_strlit("5");
        reveal_strlit("6");
        reveal_strlit("7");
        reveal_strlit("8");
        reveal_strlit("9");
    }
    let s = if d == 0 {
        "0"
    } else if d == 1 {
        "1"
    } else if d == 2 {
        "2"
    } else if d == 3 {
        "3"
    } else if d == 4 {
        "4"
    } else if d == 5 {
        "5"
    } else if d == 6 {
        "6"
    } else if d == 7 {
        "7"
    } else if d == 8 {
        "8"
    } else {
        "9"
    };
    assert(s@ =~= seq![digit_char(d as nat)]);
    s
}

/// Appends the decimal numeral of `n` to `out`.
fn push_decimal(out: &mut String, n: u64)
    ensures
        final(out)@ == old(out)@ + decimal(n as nat),
    decreases n,
{
    if n >= 10 {
        push_decimal(out, n / 10);
    }
    out.append(digit_str(n % 10));
    proof {
        if n >= 10 {
            assert(final(out)@ =~= old(out)@ + decimal(n as nat));
        } else {
            assert(final(out)@ =~= old(out)@ + decimal(n as nat));
        }
    }
}

} // verus!
