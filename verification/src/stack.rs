//! The call stack: a capacity-bounded sequence of return addresses. Pushing
//! at capacity evicts the oldest entry instead of failing, matching the
//! bounded hardware stack being modeled; deeply nested calls silently lose
//! the oldest return addresses.

use vstd::prelude::*;

use crate::instruction::ADDRESS_MAX_VALUE;

verus! {

/// The stack's abstract state: its capacity and its entries, oldest first.
#[verifier::ext_equal]
pub ghost struct StackView {
    pub max_size: nat,
    pub elems: Seq<u32>,
    pub updated: bool,
}

impl StackView {
    /// The entries fit the capacity and each one is a legal program address.
    pub open spec fn wf(self) -> bool {
        &&& self.elems.len() <= self.max_size
        &&& forall|i: int| 0 <= i < self.elems.len() ==> self.elems[i] <= ADDRESS_MAX_VALUE
    }

    /// The state after a push: the address is appended, and when the stack
    /// was at capacity the oldest entry is evicted to admit it.
    pub open spec fn push_model(self, address: u32) -> StackView {
        let remaining = if self.elems.len() == self.max_size {
            self.elems.subrange(1, self.elems.len() as int)
        } else {
            self.elems
        };
        StackView { elems: remaining.push(address), updated: true, ..self }
    }

    /// What a pop returns: the most recently pushed address, if any.
    pub open spec fn pop_result(self) -> Option<u32> {
        if self.elems.len() > 0 {
            Some(self.elems.last())
        } else {
            None
        }
    }

    /// The state after a pop: the most recent entry is removed; popping an
    /// empty stack changes nothing.
    pub open spec fn pop_model(self) -> StackView {
        if self.elems.len() > 0 {
            StackView { elems: self.elems.drop_last(), updated: true, ..self }
        } else {
            self
        }
    }

    /// The state after pushing every address of `addresses` in order.
    pub open spec fn push_all(self, addresses: Seq<u32>) -> StackView
        decreases addresses.len(),
    {
        if addresses.len() == 0 {
            self
        } else {
            self.push_all(addresses.drop_last()).push_model(addresses.last())
        }
    }

    /// The state after popping `count` times.
    pub open spec fn pop_times(self, count: nat) -> StackView
        decreases count,
    {
        if count == 0 {
            self
        } else {
            self.pop_model().pop_times((count - 1) as nat)
        }
    }
}

pub struct Stack {
    max_size: u32,

    stack: Vec<u32>,
    stack_updated: bool,
}

impl View for Stack {
    type V = StackView;

    closed spec fn view(&self) -> StackView {
        StackView {
            max_size: self.max_size as nat,
            elems: self.stack@,
            updated: self.stack_updated,
        }
    }
}

impl Stack {
    pub fn new(max_size: u32) -> (result: Self)
        ensures
            result@ == (StackView {
                max_size: max_size as nat,
                elems: Seq::<u32>::empty(),
                updated: true,
            }),
            result@.wf(),
    {
        Self { max_size, stack: Vec::with_capacity(max_size as usize), stack_updated: true }
    }

    /// Pushes a return address; at capacity the oldest entry is evicted, so
    /// the push never fails. An address outside the legal range is a caller
    /// error: the decoder never constructs one.
    pub fn push(&mut self, address: u32) -> (result: bool)
        requires
            old(self)@.wf(),
            old(self)@.max_size >= 1,
            address <= ADDRESS_MAX_VALUE,
        ensures
            final(self)@ == old(self)@.push_model(address),
            final(self)@.wf(),
            result == true,
    {
        if self.stack.len() as u32 == self.max_size {
            self.stack.remove(0);
        }

        self.stack.push(address);
        self.stack_updated = true;

        true
    }

    /// Pops the most recently pushed address, or returns nothing if the
    /// stack is empty.
    pub fn pop(&mut self) -> (result: Option<u32>)
        ensures
            result == old(self)@.pop_result(),
            final(self)@ == old(self)@.pop_model(),
    {
        let result = self.stack.pop();
        match result {
            Some(value) => {
                self.stack_updated = true;
                Some(value)
            },
            None => None,
        }
    }

    pub fn clear(&mut self)
        ensures
            final(self)@ == (StackView {
                elems: Seq::<u32>::empty(),
                updated: true,
                ..old(self)@
            }),
    {
        self.stack.clear();
        self.stack_updated = true;
    }

    /// The entries, oldest first.
    pub fn stack(&self) -> (result: &Vec<u32>)
        ensures
            result@ == self@.elems,
    {
        &self.stack
    }

    pub fn stack_updated(&self) -> (result: bool)
        ensures
            result == self@.updated,
    {
        self.stack_updated
    }

    pub fn disable_stack_updated(&mut self)
        ensures
            final(self)@ == (StackView { updated: false, ..old(self)@ }),
    {
        self.stack_updated = false;
    }
}

/// Pushing addresses onto a stack with room for all of them keeps every one
/// of them, in order, at the back of the stack; the capacity and the
/// committed-entry bound are preserved along the way.
pub proof fn lemma_push_all_suffix(v: StackView, addresses: Seq<u32>)
    requires
        v.wf(),
        addresses.len() <= v.max_size,
        forall|i: int| 0 <= i < addresses.len() ==> addresses[i] <= ADDRESS_MAX_VALUE,
    ensures
        v.push_all(addresses).wf(),
        v.push_all(addresses).max_size == v.max_size,
        v.push_all(addresses).elems.len() >= addresses.len(),
        v.push_all(addresses).elems.subrange(
            v.push_all(addresses).elems.len() - addresses.len(),
            v.push_all(addresses).elems.len() as int,
        ) == addresses,
    decreases addresses.len(),
{
    if addresses.len() == 0 {
        assert(v.push_all(addresses).elems.subrange(
            v.push_all(addresses).elems.len() as int,
            v.push_all(addresses).elems.len() as int,
        ) =~= addresses);
    } else {
        let prefix = addresses.drop_last();
        lemma_push_all_suffix(v, prefix);
        let w = v.push_all(prefix);
        let n = addresses.len() as int;
        let wl = w.elems.len() as int;
        assert(forall|j: int| 0 <= j < n - 1 ==> w.elems[wl - (n - 1) + j] == addresses[j]) by {
            assert(forall|j: int|
                0 <= j < n - 1 ==> w.elems.subrange(wl - (n - 1), wl)[j] == addresses[j]);
        }
        let pushed = w.push_model(addresses.last());
        assert(pushed.elems.subrange(
            pushed.elems.len() - addresses.len(),
            pushed.elems.len() as int,
        ) =~= addresses);
    }
}

/// Round trip: after pushing addresses a1..an (n at most the capacity), the
/// first n pops return an,...,a1 — each pop the most recent address not yet
/// popped, in reverse order of pushing.
pub proof fn lemma_stack_round_trip(v: StackView, addresses: Seq<u32>, i: int)
    requires
        v.wf(),
        addresses.len() <= v.max_size,
        forall|j: int| 0 <= j < addresses.len() ==> addresses[j] <= ADDRESS_MAX_VALUE,
        0 <= i < addresses.len(),
    ensures
        v.push_all(addresses).pop_times(i as nat).pop_result() == Some(
            addresses[addresses.len() - 1 - i],
        ),
{
    lemma_push_all_suffix(v, addresses);
    lemma_pop_times_take(v.push_all(addresses), i as nat);
}

/// Popping `count` times truncates the entries to all but the last `count`.
proof fn lemma_pop_times_take(v: StackView, count: nat)
    requires
        count <= v.elems.len(),
    ensures
        v.pop_times(count).elems == v.elems.take(v.elems.len() - count),
        v.pop_times(count).max_size == v.max_size,
    decreases count,
{
    if count == 0 {
        assert(v.pop_times(0).elems =~= v.elems.take(v.elems.len() as int));
    } else {
        lemma_pop_times_take(v.pop_model(), (count - 1) as nat);
        assert(v.pop_model().elems.take(v.elems.len() - count) =~= v.elems.take(
            v.elems.len() - count,
        ));
    }
}

/// Eviction: pushing one address more than the capacity leaves exactly the
/// last `capacity` addresses on the stack — the first one pushed is gone, so
/// no later pop can reach it.
pub proof fn lemma_push_all_eviction(v: StackView, addresses: Seq<u32>)
    requires
        v.wf(),
        v.max_size >= 1,
        addresses.len() == v.max_size + 1,
        forall|i: int| 0 <= i < addresses.len() ==> addresses[i] <= ADDRESS_MAX_VALUE,
    ensures
        v.push_all(addresses).elems == addresses.subrange(1, addresses.len() as int),
{
    let prefix = addresses.drop_last();
    lemma_push_all_suffix(v, prefix);
    let w = v.push_all(prefix);
    assert(w.elems =~= prefix);
    assert(w.push_model(addresses.last()).elems =~= addresses.subrange(
        1,
        addresses.len() as int,
    ));
}

/// Stack overflow: after pushing capacity + 1 addresses, each of the first
/// `capacity` pops returns an address pushed strictly after the first one —
/// the first pushed address was evicted and is never returned.
pub proof fn lemma_stack_overflow(v: StackView, addresses: Seq<u32>, i: int)
    requires
        v.wf(),
        v.max_size >= 1,
        addresses.len() == v.max_size + 1,
        forall|j: int| 0 <= j < addresses.len() ==> addresses[j] <= ADDRESS_MAX_VALUE,
        0 <= i < v.max_size,
    ensures
        v.push_all(addresses).pop_times(i as nat).pop_result() == Some(
            addresses[addresses.len() - 1 - i],
        ),
        addresses.len() - 1 - i >= 1,
{
    lemma_push_all_eviction(v, addresses);
    lemma_pop_times_take(v.push_all(addresses), i as nat);
}

} // verus!
