use vstd::prelude::*;

verus! {

/// The identifier handed out by the `k`-th allocation of a fresh counter
/// (counting from zero): identifiers start at 1 and wrap at the width of `u8`.
pub open spec fn id_at(k: nat) -> u8 {
    ((1 + k) % 256) as u8
}

/// Allocates identifiers for stored images.
///
/// Its view is the number of identifiers handed out so far.
pub struct IdCounter {
    next: u8,
    issued: Ghost<nat>,
}

impl View for IdCounter {
    type V = nat;

    closed spec fn view(&self) -> nat {
        self.issued@
    }
}

impl IdCounter {
    /// The counter's next identifier is the one that its history calls for.
    pub closed spec fn wf(&self) -> bool {
        self.next == id_at(self.issued@)
    }

    /// A counter that has handed out nothing: its first identifier is 1.
    pub fn new() -> (r: IdCounter)
        ensures
            r.wf(),
            r@ == 0,
    {
        IdCounter { next: 1, issued: Ghost(0) }
    }
}

/// Hands out the counter's next identifier and advances it, wrapping after
/// 255 back to 0.
pub fn get_id(counter: &mut IdCounter) -> (id: u8)
    requires
        old(counter).wf(),
    ensures
        final(counter).wf(),
        final(counter)@ == old(counter)@ + 1,
        id == id_at(old(counter)@),
{
    let id = counter.next;
    counter.next = counter.next.wrapping_add(1);
    counter.issued = Ghost(counter.issued@ + 1);
    id
}

/// Allocations fewer than 256 apart never hand out the same identifier: in
/// particular no two uploads served by one counter before it wraps share the
/// numeric prefix of their stored names.
pub proof fn lemma_ids_distinct(i: nat, j: nat)
    requires
        i < j < i + 256,
    ensures
        id_at(i) != id_at(j),
{
}

/// A run of at most 256 allocations that starts after `k` hands out pairwise
/// distinct identifiers, the `i`-th of them the first one plus `i` (wrapping),
/// and leaves the counter `m` further on: none is lost, none repeated.
pub proof fn lemma_ids_run(k: nat, m: nat)
    requires
        m <= 256,
    ensures
        forall|i: nat, j: nat|
            i < j < m ==> #[trigger] id_at(k + i) != #[trigger] id_at(k + j),
        forall|i: nat| i < m ==> #[trigger] id_at(k + i) == id_at(k).wrapping_add(i as u8),
{
    assert forall|i: nat, j: nat| i < j < m implies #[trigger] id_at(k + i) != #[trigger] id_at(
        k + j,
    ) by {
        lemma_ids_distinct(k + i, k + j);
    }
    assert forall|i: nat| i < m implies #[trigger] id_at(k + i) == id_at(k).wrapping_add(
        i as u8,
    ) by {
        assert(((1 + k + i) % 256) == (((1 + k) % 256) + i) % 256) by (nonlinear_arith)
            requires i < 256;
    }
}

/// The identifiers repeat with period 256: after a wrap an identifier is
/// handed out again.
pub proof fn lemma_ids_wrap(k: nat)
    ensures
        id_at(k + 256) == id_at(k),
{
}

} // verus!
