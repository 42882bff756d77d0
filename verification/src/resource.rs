//! Named, once-initialized storage slots for handler state.
//!
//! An entry routine or interrupt handler may declare persistent state under a
//! name. The declaration lifts that state into a process-wide table exactly
//! once, with its initial value, and every later invocation of the handler is
//! handed exclusive access to its slot — never two call sites at once, which
//! the single-core, non-self-reentrant handler discipline guarantees and
//! Rust's borrow rules enforce on the table. Declaring a second resource
//! under an already-used name is refused before any handler can run.

use vstd::prelude::*;

use crate::text::str_eq;
use vstd::arithmetic::div_mod::{lemma_fundamental_div_mod, lemma_fundamental_div_mod_converse};

verus! {

/// The table of declared resources: one named slot per resource, each holding
/// a value of type `T`. Slot numbers are handed out by [`declare`] in
/// declaration order and stay valid for the life of the table.
///
/// [`declare`]: ResourceTable::declare
pub struct ResourceTable<T> {
    names: Vec<String>,
    values: Vec<T>,
}

impl<T> ResourceTable<T> {
    /// The declared names, in declaration order.
    pub closed spec fn names_spec(&self) -> Seq<Seq<char>> {
        self.names@.map_values(|s: String| s@)
    }

    /// The slot values, in declaration order.
    pub closed spec fn values_spec(&self) -> Seq<T> {
        self.values@
    }

    /// Every slot has a name, and no two slots share one.
    pub open spec fn wf(&self) -> bool {
        &&& self.names_spec().len() == self.values_spec().len()
        &&& forall|i: int, j: int|
            0 <= i < j < self.names_spec().len() ==> self.names_spec()[i] != self.names_spec()[j]
    }

    /// Whether some slot is already declared under `name`.
    pub open spec fn contains_name(&self, name: Seq<char>) -> bool {
        exists|i: int| 0 <= i < self.names_spec().len() && self.names_spec()[i] == name
    }

    /// An empty table: nothing declared yet.
    pub fn new() -> (t: Self)
        ensures
            t.wf(),
            t.names_spec() == Seq::<Seq<char>>::empty(),
            t.values_spec() == Seq::<T>::empty(),
    {
        let t = ResourceTable { names: Vec::new(), values: Vec::new() };
        proof {
            assert(t.names_spec() =~= Seq::<Seq<char>>::empty());
        }
        t
    }

    /// How many resources are declared.
    pub fn len(&self) -> (n: usize)
        ensures
            n == self.values_spec().len(),
    {
        self.values.len()
    }

    /// Declares a resource under `name` with initial value `init`. Succeeds
    /// — returning the new slot number, initialized exactly once, here —
    /// precisely when no resource of that name exists yet; a duplicate name
    /// is refused and leaves the table unchanged.
    pub fn declare(&mut self, name: &str, init: T) -> (r: Option<usize>)
        requires
            old(self).wf(),
            old(self).values_spec().len() < usize::MAX,
        ensures
            final(self).wf(),
            r is Some <==> !old(self).contains_name(name@),
            r is Some ==> {
                &&& r->0 == old(self).values_spec().len()
                &&& final(self).names_spec() == old(self).names_spec().push(name@)
                &&& final(self).values_spec() == old(self).values_spec().push(init)
            },
            r is None ==> {
                &&& final(self).names_spec() == old(self).names_spec()
                &&& final(self).values_spec() == old(self).values_spec()
            },
    {
        let n = self.names.len();
        let mut i: usize = 0;
        while i < n
            invariant
                self.names_spec() == old(self).names_spec(),
                self.values_spec() == old(self).values_spec(),
                self.wf(),
                n == self.names_spec().len(),
                i <= n,
                forall|j: int| 0 <= j < i ==> self.names_spec()[j] != name@,
            decreases n - i,
        {
            if str_eq(self.names[i].as_str(), name) {
                proof {
                    assert(self.names_spec()[i as int] == name@);
                }
                return None;
            }
            i = i + 1;
        }
        let slot = self.values.len();
        self.names.push(name.to_owned());
        self.values.push(init);
        proof {
            assert(self.names_spec() =~= old(self).names_spec().push(name@));
        }
        Some(slot)
    }

    /// Borrows the value of slot `slot` for reading.
    pub fn read(&self, slot: usize) -> (v: &T)
        requires
            slot < self.values_spec().len(),
        ensures
            *v == self.values_spec()[slot as int],
    {
        &self.values[slot]
    }

    /// Overwrites the value of slot `slot`. The slot keeps its name, and no
    /// other slot changes.
    pub fn write(&mut self, slot: usize, value: T)
        requires
            old(self).wf(),
            slot < old(self).values_spec().len(),
        ensures
            final(self).wf(),
            final(self).names_spec() == old(self).names_spec(),
            final(self).values_spec() == old(self).values_spec().update(slot as int, value),
    {
        self.values[slot] = value;
    }
}

/// How an incrementing handler steps its counter: one more, wrapping at the
/// counter's width.
pub open spec fn wrapping_inc(v: u8) -> u8 {
    if v == 255 {
        0u8
    } else {
        (v + 1) as u8
    }
}

/// The counter after `n` increments from zero.
pub open spec fn iter_inc(n: nat) -> u8
    decreases n,
{
    if n == 0 {
        0u8
    } else {
        wrapping_inc(iter_inc((n - 1) as nat))
    }
}

/// Resource persistence: a handler that increments its declared counter
/// resource on each call observes, on call `n + 1`, the value accumulated by
/// the previous `n` calls — `n` wrapped to the counter's width.
pub proof fn lemma_counter_accumulates(n: nat)
    ensures
        iter_inc(n) == n % 256,
    decreases n,
{
    if n > 0 {
        lemma_counter_accumulates((n - 1) as nat);
        lemma_fundamental_div_mod(n - 1, 256);
        let q = (n - 1) as int / 256;
        let k = (n - 1) as int % 256;
        if k == 255 {
            lemma_fundamental_div_mod_converse(n as int, 256, q + 1, 0);
        } else {
            lemma_fundamental_div_mod_converse(n as int, 256, q, k + 1);
        }
    }
}

} // verus!
