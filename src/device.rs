use vstd::prelude::*;

verus! {

use crate::output::OutputData;
use crate::ui::{Backend, Input, InputType};

const DEVICE_INPUTS_MAX: usize = 2;
const DEVICE_PENDING_MAX: usize = 4;

#[verifier::external_type_specification]
#[verifier::external_body]
#[verifier::reject_recursive_types(T)]
pub struct ExHeaplessVec<T, const N: usize>(heapless::Vec<T, N>);

/// What a device's list of inputs holds, in order.
pub uninterp spec fn input_slots(v: heapless::Vec<InputType, 2>) -> Seq<InputType>;

/// What a device's stack of changed input indices holds, bottom first.
pub uninterp spec fn pending_slots(v: heapless::Vec<usize, 4>) -> Seq<usize>;

/// Relies on heapless::Vec::new: the new vector is empty.
#[verifier::external_body]
fn inputs_new() -> (r: heapless::Vec<InputType, DEVICE_INPUTS_MAX>)
    ensures
        input_slots(r) == Seq::<InputType>::empty(),
{
    heapless::Vec::new()
}

/// Relies on heapless::Vec::push: appends when the length is under the
/// capacity, else hands the item back and changes nothing.
#[verifier::external_body]
fn inputs_push(v: &mut heapless::Vec<InputType, DEVICE_INPUTS_MAX>, item: InputType) -> (r: Result<(), InputType>)
    ensures
        r is Ok <==> input_slots(*old(v)).len() < 2,
        r is Ok ==> input_slots(*final(v)) == input_slots(*old(v)).push(item),
        r matches Err(x) ==> x == item,
        r is Err ==> *final(v) == *old(v),
{
    v.push(item)
}

/// Relies on heapless::Vec's deref to a slice and the slice's `len`.
#[verifier::external_body]
fn inputs_len(v: &heapless::Vec<InputType, DEVICE_INPUTS_MAX>) -> (r: usize)
    ensures
        r == input_slots(*v).len(),
{
    v.len()
}

/// Relies on heapless::Vec's deref to a slice and the slice's indexing.
#[verifier::external_body]
fn inputs_get(v: &heapless::Vec<InputType, DEVICE_INPUTS_MAX>, i: usize) -> (r: InputType)
    requires
        i < input_slots(*v).len(),
    ensures
        r == input_slots(*v)[i as int],
{
    v[i]
}

/// Relies on heapless::Vec's mutable deref to a slice and the slice's
/// indexing: the item at `i` is replaced.
#[verifier::external_body]
fn inputs_set(v: &mut heapless::Vec<InputType, DEVICE_INPUTS_MAX>, i: usize, item: InputType)
    requires
        i < input_slots(*old(v)).len(),
    ensures
        input_slots(*final(v)) == input_slots(*old(v)).update(i as int, item),
{
    v[i] = item;
}

/// Relies on heapless::Vec::new: the new vector is empty.
#[verifier::external_body]
fn pending_new() -> (r: heapless::Vec<usize, DEVICE_PENDING_MAX>)
    ensures
        pending_slots(r) == Seq::<usize>::empty(),
{
    heapless::Vec::new()
}

/// Relies on heapless::Vec::push: appends when the length is under the
/// capacity, else hands the item back and changes nothing.
#[verifier::external_body]
fn pending_push(v: &mut heapless::Vec<usize, DEVICE_PENDING_MAX>, item: usize) -> (r: Result<(), usize>)
    ensures
        r is Ok <==> pending_slots(*old(v)).len() < 4,
        r is Ok ==> pending_slots(*final(v)) == pending_slots(*old(v)).push(item),
        r matches Err(x) ==> x == item,
        r is Err ==> *final(v) == *old(v),
{
    v.push(item)
}

/// Relies on heapless::Vec's deref to a slice and the slice's `len`.
#[verifier::external_body]
fn pending_len(v: &heapless::Vec<usize, DEVICE_PENDING_MAX>) -> (r: usize)
    ensures
        r == pending_slots(*v).len(),
{
    v.len()
}

/// Relies on heapless::Vec::pop: removes and returns the last item, `None`
/// when empty.
#[verifier::external_body]
fn pending_pop(v: &mut heapless::Vec<usize, DEVICE_PENDING_MAX>) -> (r: Option<usize>)
    ensures
        r is None <==> pending_slots(*old(v)).len() == 0,
        r is None ==> *final(v) == *old(v),
        r is Some ==> r == Some(pending_slots(*old(v)).last()),
        r is Some ==> pending_slots(*final(v)) == pending_slots(*old(v)).drop_last(),
{
    v.pop()
}

/// Polls the inputs below `n` in index order, each poll reading the
/// backend where the previous one left it: the inputs afterwards, the
/// backend afterwards, and the indices that reported a change, in
/// increasing order.
pub open spec fn poll_pass<B: Backend>(inputs: Seq<InputType>, backend: B, n: nat) -> (Seq<
    InputType,
>, B, Seq<usize>)
    decreases n,
{
    if n == 0 {
        (inputs, backend, Seq::empty())
    } else {
        let prev = poll_pass(inputs, backend, (n - 1) as nat);
        let polled = inputs[n - 1].poll(prev.1);
        (
            prev.0.update(n - 1, polled.0),
            polled.1,
            if polled.2 {
                prev.2.push((n - 1) as usize)
            } else {
                prev.2
            },
        )
    }
}

/// Seeds the inputs below `n` in index order, each from the backend where
/// the previous one left it: the inputs and the backend afterwards.
pub open spec fn seed_pass<B: Backend>(inputs: Seq<InputType>, backend: B, n: nat) -> (Seq<
    InputType,
>, B)
    decreases n,
{
    if n == 0 {
        (inputs, backend)
    } else {
        let prev = seed_pass(inputs, backend, (n - 1) as nat);
        let seeded = inputs[n - 1].seeded(prev.1);
        (prev.0.update(n - 1, seeded.0), seeded.1)
    }
}

/// Pops `pending` to the end, running the handler of each popped index:
/// the inputs afterwards and the events in the order they were produced.
pub open spec fn dispatched(inputs: Seq<InputType>, pending: Seq<usize>) -> (Seq<InputType>, Seq<
    OutputData,
>)
    decreases pending.len(),
{
    if pending.len() == 0 {
        (inputs, Seq::empty())
    } else {
        let i = pending.last() as int;
        let rest = dispatched(inputs.update(i, inputs[i].handled()), pending.drop_last());
        (rest.0, seq![inputs[i].output()] + rest.1)
    }
}

/// The inputs of a control surface and the stack of those that changed in
/// the last poll and wait for dispatch.
pub struct Device {
    inputs: heapless::Vec<InputType, DEVICE_INPUTS_MAX>,
    updated: heapless::Vec<usize, DEVICE_PENDING_MAX>,
}

impl Device {
    /// The inputs, in the order they were added.
    pub closed spec fn input_list(&self) -> Seq<InputType> {
        input_slots(self.inputs)
    }

    /// The indices of changed inputs waiting for dispatch, bottom first.
    pub closed spec fn pending(&self) -> Seq<usize> {
        pending_slots(self.updated)
    }

    /// At most two inputs, at most four pending indices, each naming an
    /// input.
    pub open spec fn wf(&self) -> bool {
        &&& self.input_list().len() <= 2
        &&& self.pending().len() <= 4
        &&& forall|k: int|
            0 <= k < self.pending().len() ==> #[trigger] self.pending()[k] < self.input_list().len()
    }

    pub fn new() -> (r: Device)
        ensures
            r.wf(),
            r.input_list() == Seq::<InputType>::empty(),
            r.pending() == Seq::<usize>::empty(),
    {
        Device { inputs: inputs_new(), updated: pending_new() }
    }

    /// Appends an input; when the device is full the input is handed back
    /// and nothing changes.
    pub fn add_input(&mut self, input: InputType) -> (r: Result<(), InputType>)
        requires
            old(self).wf(),
        ensures
            final(self).wf(),
            r is Ok <==> old(self).input_list().len() < 2,
            r is Ok ==> final(self).input_list() == old(self).input_list().push(input),
            r is Ok ==> final(self).pending() == old(self).pending(),
            r matches Err(x) ==> x == input,
            r is Err ==> *final(self) == *old(self),
    {
        inputs_push(&mut self.inputs, input)
    }

    /// The number of inputs.
    pub fn len(&self) -> (r: usize)
        ensures
            r == self.input_list().len(),
    {
        inputs_len(&self.inputs)
    }

    /// The input at `idx`, `None` past the end.
    pub fn input(&self, idx: usize) -> (r: Option<InputType>)
        ensures
            idx < self.input_list().len() ==> r == Some(self.input_list()[idx as int]),
            idx >= self.input_list().len() ==> r is None,
    {
        if idx < inputs_len(&self.inputs) {
            Some(inputs_get(&self.inputs, idx))
        } else {
            None
        }
    }

    /// The number of changed inputs waiting for dispatch.
    pub fn pending_len(&self) -> (r: usize)
        ensures
            r == self.pending().len(),
    {
        pending_len(&self.updated)
    }

    /// Seeds every input from the backend in insertion order, then rewinds
    /// the backend.
    pub fn init_inputs<B: Backend>(&mut self, backend: &mut B)
        requires
            old(self).wf(),
        ensures
            final(self).wf(),
            final(self).pending() == old(self).pending(),
            final(self).input_list() == seed_pass(
                old(self).input_list(),
                *old(backend),
                old(self).input_list().len(),
            ).0,
            *final(backend) == seed_pass(
                old(self).input_list(),
                *old(backend),
                old(self).input_list().len(),
            ).1.rewound(),
    {
        let n = inputs_len(&self.inputs);
        let mut idx: usize = 0;
        while idx < n
            invariant
                idx <= n,
                n == old(self).input_list().len(),
                self.input_list() == seed_pass(old(self).input_list(), *old(backend), idx as nat).0,
                *backend == seed_pass(old(self).input_list(), *old(backend), idx as nat).1,
                self.pending() == old(self).pending(),
            decreases n - idx,
        {
            proof {
                lemma_seed_pass_frame(old(self).input_list(), *old(backend), idx as nat);
            }
            let input = inputs_get(&self.inputs, idx);
            let seeded = match input {
                InputType::Encoder(mut e) => {
                    e.init(backend);
                    InputType::Encoder(e)
                },
                InputType::Potentiometer(mut p) => {
                    p.init(backend);
                    InputType::Potentiometer(p)
                },
            };
            inputs_set(&mut self.inputs, idx, seeded);
            idx += 1;
        }
        proof {
            lemma_seed_pass_frame(old(self).input_list(), *old(backend), n as nat);
        }
        backend.rewind();
    }

    /// Polls every input in insertion order, pushes the index of each one
    /// that changed, then rewinds the backend.
    pub fn update<B: Backend>(&mut self, backend: &mut B)
        requires
            old(self).wf(),
            old(self).pending().len() + old(self).input_list().len() <= 4,
        ensures
            final(self).wf(),
            final(self).input_list() == poll_pass(
                old(self).input_list(),
                *old(backend),
                old(self).input_list().len(),
            ).0,
            *final(backend) == poll_pass(
                old(self).input_list(),
                *old(backend),
                old(self).input_list().len(),
            ).1.rewound(),
            final(self).pending() == old(self).pending() + poll_pass(
                old(self).input_list(),
                *old(backend),
                old(self).input_list().len(),
            ).2,
    {
        let n = inputs_len(&self.inputs);
        let mut idx: usize = 0;
        while idx < n
            invariant
                idx <= n,
                n == old(self).input_list().len(),
                old(self).wf(),
                old(self).pending().len() + n <= 4,
                self.input_list() == poll_pass(old(self).input_list(), *old(backend), idx as nat).0,
                *backend == poll_pass(old(self).input_list(), *old(backend), idx as nat).1,
                self.pending() == old(self).pending() + poll_pass(
                    old(self).input_list(),
                    *old(backend),
                    idx as nat,
                ).2,
            decreases n - idx,
        {
            proof {
                lemma_poll_pass_frame(old(self).input_list(), *old(backend), idx as nat);
                lemma_poll_pass_changed(old(self).input_list(), *old(backend), idx as nat);
            }
            let input = inputs_get(&self.inputs, idx);
            let (polled, changed) = match input {
                InputType::Encoder(mut e) => {
                    let c = e.update(backend);
                    (InputType::Encoder(e), c)
                },
                InputType::Potentiometer(mut p) => {
                    let c = p.update(backend);
                    (InputType::Potentiometer(p), c)
                },
            };
            inputs_set(&mut self.inputs, idx, polled);
            if changed {
                let _ = pending_push(&mut self.updated, idx);
            }
            idx += 1;
        }
        proof {
            let pass = poll_pass(old(self).input_list(), *old(backend), n as nat);
            lemma_poll_pass_frame(old(self).input_list(), *old(backend), n as nat);
            lemma_poll_pass_changed(old(self).input_list(), *old(backend), n as nat);
            assert forall|k: int| 0 <= k < self.pending().len() implies #[trigger] self.pending()[k]
                < self.input_list().len() by {
                if k >= old(self).pending().len() {
                    assert(self.pending()[k] == pass.2[k - old(self).pending().len()]);
                }
            }
        }
        backend.rewind();
    }

    /// Pops the pending indices to the end and runs the handler of each
    /// popped input; the events come back in the order they were produced,
    /// the last changed input first.
    pub fn run_handler(&mut self) -> (r: Vec<OutputData>)
        requires
            old(self).wf(),
        ensures
            final(self).wf(),
            final(self).pending() == Seq::<usize>::empty(),
            final(self).input_list() == dispatched(old(self).input_list(), old(self).pending()).0,
            r@ == dispatched(old(self).input_list(), old(self).pending()).1,
    {
        let mut events: Vec<OutputData> = Vec::new();
        loop
            invariant
                self.wf(),
                self.input_list().len() == old(self).input_list().len(),
                dispatched(old(self).input_list(), old(self).pending()).0 == dispatched(
                    self.input_list(),
                    self.pending(),
                ).0,
                dispatched(old(self).input_list(), old(self).pending()).1 == events@ + dispatched(
                    self.input_list(),
                    self.pending(),
                ).1,
            ensures
                self.wf(),
                self.pending() == Seq::<usize>::empty(),
                dispatched(old(self).input_list(), old(self).pending()).0 == self.input_list(),
                dispatched(old(self).input_list(), old(self).pending()).1 == events@,
            decreases self.pending().len(),
        {
            let ghost before_inputs = self.input_list();
            let ghost before_pending = self.pending();
            match pending_pop(&mut self.updated) {
                None => {
                    assert(self.pending() =~= Seq::<usize>::empty());
                    assert(events@ + Seq::<OutputData>::empty() =~= events@);
                    break ;
                },
                Some(i) => {
                    assert(before_pending[before_pending.len() - 1] < before_inputs.len());
                    let input = inputs_get(&self.inputs, i);
                    let (handled, event) = match input {
                        InputType::Encoder(mut e) => {
                            let ev = e.run_handler();
                            (InputType::Encoder(e), ev)
                        },
                        InputType::Potentiometer(mut p) => {
                            let ev = p.run_handler();
                            (InputType::Potentiometer(p), ev)
                        },
                    };
                    inputs_set(&mut self.inputs, i, handled);
                    let ghost prev_events = events@;
                    events.push(event);
                    assert(events@ + dispatched(self.input_list(), self.pending()).1 =~= prev_events
                        + (seq![event] + dispatched(self.input_list(), self.pending()).1));
                    assert forall|k: int| 0 <= k < self.pending().len() implies #[trigger] self.pending()[k]
                        < self.input_list().len() by {
                        assert(self.pending()[k] == before_pending[k]);
                    }
                },
            }
        }
        events
    }
}

/// Dispatch is last in, first out: the `k`-th event comes from the input
/// whose index was pushed `k`-th from the top, each input seen as it was
/// before the dispatch, when no index is pending twice.
pub proof fn lemma_dispatch_is_lifo(inputs: Seq<InputType>, pending: Seq<usize>)
    requires
        forall|k: int| 0 <= k < pending.len() ==> #[trigger] pending[k] < inputs.len(),
        forall|a: int, b: int| 0 <= a < b < pending.len() ==> pending[a] != pending[b],
    ensures
        dispatched(inputs, pending).0.len() == inputs.len(),
        dispatched(inputs, pending).1.len() == pending.len(),
        forall|k: int|
            0 <= k < pending.len() ==> #[trigger] dispatched(inputs, pending).1[k] == inputs[pending[pending.len()
                - 1 - k] as int].output(),
    decreases pending.len(),
{
    if pending.len() > 0 {
        let last = pending.last() as int;
        let handled = inputs.update(last, inputs[last].handled());
        let rest = pending.drop_last();
        assert forall|a: int, b: int| 0 <= a < b < rest.len() implies rest[a] != rest[b] by {
            assert(rest[a] == pending[a] && rest[b] == pending[b]);
        }
        lemma_dispatch_is_lifo(handled, rest);
        let events = dispatched(inputs, pending).1;
        assert forall|k: int| 0 <= k < pending.len() implies #[trigger] events[k]
            == inputs[pending[pending.len() - 1 - k] as int].output() by {
            if k > 0 {
                let j = pending.len() - 1 - k;
                assert(rest[rest.len() - 1 - (k - 1)] == pending[j]);
                assert(pending[j] != pending[pending.len() - 1]);
                assert(handled[pending[j] as int] == inputs[pending[j] as int]);
            }
        }
    }
}

/// A pass keeps the number of inputs and leaves the inputs from `n` on as
/// they were.
proof fn lemma_poll_pass_frame<B: Backend>(inputs: Seq<InputType>, backend: B, n: nat)
    requires
        n <= inputs.len(),
    ensures
        poll_pass(inputs, backend, n).0.len() == inputs.len(),
        forall|j: int| n <= j < inputs.len() ==> #[trigger] poll_pass(inputs, backend, n).0[j] == inputs[j],
    decreases n,
{
    if n > 0 {
        lemma_poll_pass_frame(inputs, backend, (n - 1) as nat);
    }
}

proof fn lemma_seed_pass_frame<B: Backend>(inputs: Seq<InputType>, backend: B, n: nat)
    requires
        n <= inputs.len(),
    ensures
        seed_pass(inputs, backend, n).0.len() == inputs.len(),
        forall|j: int| n <= j < inputs.len() ==> #[trigger] seed_pass(inputs, backend, n).0[j] == inputs[j],
    decreases n,
{
    if n > 0 {
        lemma_seed_pass_frame(inputs, backend, (n - 1) as nat);
    }
}

/// A poll pass over `n` inputs reports at most `n` indices, each below `n`,
/// in increasing order.
pub proof fn lemma_poll_pass_changed<B: Backend>(inputs: Seq<InputType>, backend: B, n: nat)
    requires
        n <= usize::MAX,
    ensures
        poll_pass(inputs, backend, n).2.len() <= n,
        forall|k: int|
            0 <= k < poll_pass(inputs, backend, n).2.len() ==> #[trigger] poll_pass(
                inputs,
                backend,
                n,
            ).2[k] < n,
        forall|a: int, b: int|
            0 <= a < b < poll_pass(inputs, backend, n).2.len() ==> #[trigger] poll_pass(
                inputs,
                backend,
                n,
            ).2[a] < #[trigger] poll_pass(inputs, backend, n).2[b],
    decreases n,
{
    if n > 0 {
        lemma_poll_pass_changed(inputs, backend, (n - 1) as nat);
        let rest = poll_pass(inputs, backend, (n - 1) as nat).2;
        let all = poll_pass(inputs, backend, n).2;
        assert forall|k: int| 0 <= k < all.len() implies #[trigger] all[k] < n by {
            if k < rest.len() {
                assert(all[k] == rest[k]);
            }
        }
        assert forall|a: int, b: int| 0 <= a < b < all.len() implies #[trigger] all[a]
            < #[trigger] all[b] by {
            assert(all[a] == rest[a]);
            if b < rest.len() {
                assert(all[b] == rest[b]);
            } else {
                assert(all =~= rest.push((n - 1) as usize));
                assert(rest[a] < n - 1);
                assert(all[b] == n - 1);
            }
        }
    }
}

/// Of two inputs found changed in one poll pass of a device with no
/// pending index, the one found later (the higher index) has its event
/// dispatched first.
pub proof fn lemma_later_change_dispatched_first<B: Backend>(
    inputs: Seq<InputType>,
    backend: B,
    a: int,
    b: int,
)
    requires
        inputs.len() <= usize::MAX,
        0 <= a < b < poll_pass(inputs, backend, inputs.len()).2.len(),
    ensures
        ({
            let pass = poll_pass(inputs, backend, inputs.len());
            let pending = pass.2;
            let events = dispatched(pass.0, pending).1;
            &&& pending[a] < pending[b]
            &&& events[pending.len() - 1 - b] == pass.0[pending[b] as int].output()
            &&& events[pending.len() - 1 - a] == pass.0[pending[a] as int].output()
            &&& pending.len() - 1 - b < pending.len() - 1 - a
        }),
{
    let pass = poll_pass(inputs, backend, inputs.len());
    let pending = pass.2;
    lemma_poll_pass_changed(inputs, backend, inputs.len());
    lemma_poll_pass_frame(inputs, backend, inputs.len());
    assert forall|x: int, y: int| 0 <= x < y < pending.len() implies pending[x] != pending[y] by {
        assert(pending[x] < pending[y]);
    }
    lemma_dispatch_is_lifo(pass.0, pending);
    let k = pending.len() - 1 - b;
    assert(pending[pending.len() - 1 - k] == pending[b]);
    let j = pending.len() - 1 - a;
    assert(pending[pending.len() - 1 - j] == pending[a]);
}

} // verus!
