//! A small verified model of a pulse-propagation module network.
//!
//! Modules receive low or high pulses from other modules and may emit a
//! pulse in response: a flip-flop toggles on low pulses, a conjunction
//! remembers the last pulse from each connected source and emits low only
//! when it remembers high from all of them, a broadcaster repeats what it
//! receives, and a button always emits low.  Modules are identified by
//! index into a network that the application assembles; emitted pulses
//! are queued as (destination, pulse) pairs.

use std::collections::VecDeque;

use vstd::prelude::*;

verus! {

/// A low or high pulse.
#[derive(Copy, Clone, PartialEq, Eq, Structural, Debug)]
pub enum Pulse {
    /// A low pulse.
    Low,
    /// A high pulse.
    High,
}

/// The pulses emitted by modules, queued as (destination module, pulse)
/// pairs in emission order.
pub type Queue = VecDeque<(u64, Pulse)>;

/// What a module does with the pulses it receives.
///
/// A conjunction's memory is an association list from source module to
/// the last pulse received from it, with one entry per source.
pub enum Kind {
    /// Emits high when toggled on by a low pulse, low when toggled off.
    FlipFlop { on: bool },
    /// Emits low exactly when it remembers a high pulse from every
    /// connected source.
    Conjunction { last_pulse_by_module: Vec<(u64, Pulse)> },
    /// Repeats every pulse it receives.
    Broadcaster,
    /// Emits a low pulse whenever pressed.
    Button,
}

/// Does the association list `memory` hold an entry for source `src`?
pub open spec fn remembers(memory: Seq<(u64, Pulse)>, src: u64) -> bool {
    exists|i: int| 0 <= i < memory.len() && memory[i].0 == src
}

/// The pulse that `memory` remembers for source `src`.
pub open spec fn remembered(memory: Seq<(u64, Pulse)>, src: u64) -> Pulse {
    memory[choose|i: int| 0 <= i < memory.len() && memory[i].0 == src].1
}

/// Each source has at most one entry in `memory`.
pub open spec fn one_entry_per_source(memory: Seq<(u64, Pulse)>) -> bool {
    forall|i: int, j: int|
        0 <= i < memory.len() && 0 <= j < memory.len() && i != j ==> (#[trigger] memory[i]).0 != (
        #[trigger] memory[j]).0
}

/// Does `memory` remember a high pulse from every source it knows?
pub open spec fn all_high(memory: Seq<(u64, Pulse)>) -> bool {
    forall|i: int| 0 <= i < memory.len() ==> (#[trigger] memory[i]).1 == Pulse::High
}

/// Is `after` the memory `before` with the entry for `src` set to
/// `pulse`, and nothing else changed?
pub open spec fn memory_updated(
    before: Seq<(u64, Pulse)>,
    after: Seq<(u64, Pulse)>,
    src: u64,
    pulse: Pulse,
) -> bool {
    &&& remembers(after, src)
    &&& remembered(after, src) == pulse
    &&& forall|k: u64| k != src ==> (remembers(after, k) <==> remembers(before, k))
    &&& forall|k: u64|
        k != src && remembers(before, k) ==> remembered(after, k) == remembered(before, k)
}

/// Is the kind's state well formed?  Only a conjunction carries state
/// beyond a single flag: its memory must hold one entry per source.
pub open spec fn kind_well_formed(kind: Kind) -> bool {
    kind matches Kind::Conjunction { last_pulse_by_module } ==> one_entry_per_source(
        last_pulse_by_module@,
    )
}

/// The transition one received pulse makes on a module kind: how the
/// state changes and which pulse, if any, is emitted.
pub open spec fn kind_step(
    before: Kind,
    after: Kind,
    src: u64,
    pulse: Pulse,
    emitted: Option<Pulse>,
) -> bool {
    match before {
        Kind::FlipFlop { on } => match pulse {
            Pulse::Low => after == (Kind::FlipFlop { on: !on }) && emitted == Some(
                if !on {
                    Pulse::High
                } else {
                    Pulse::Low
                },
            ),
            Pulse::High => after == before && emitted is None,
        },
        Kind::Conjunction { last_pulse_by_module: mem_before } => {
            &&& after matches Kind::Conjunction { last_pulse_by_module: mem_after }
                && memory_updated(mem_before@, mem_after@, src, pulse) && emitted == Some(
                if all_high(mem_after@) {
                    Pulse::Low
                } else {
                    Pulse::High
                },
            )
        },
        Kind::Broadcaster => after == before && emitted == Some(pulse),
        Kind::Button => after == before && emitted == Some(Pulse::Low),
    }
}

impl Kind {
    /// Creates a flip-flop module kind, initially off.
    pub fn new_flip_flop() -> (r: Self)
        ensures
            r == (Kind::FlipFlop { on: false }),
            kind_well_formed(r),
    {
        Kind::FlipFlop { on: false }
    }

    /// Creates a conjunction module kind that knows no sources yet.
    pub fn new_conjunction() -> (r: Self)
        ensures
            r matches Kind::Conjunction { last_pulse_by_module } && last_pulse_by_module@
                == Seq::<(u64, Pulse)>::empty(),
            kind_well_formed(r),
    {
        Kind::Conjunction { last_pulse_by_module: Vec::new() }
    }

    /// Records that module `src` now feeds this module.
    ///
    /// Only a conjunction reacts: it starts remembering a low pulse from
    /// `src`.  Connecting the same source again resets its remembered
    /// pulse to low and adds no second entry.
    pub fn connected(&mut self, src: u64)
        requires
            kind_well_formed(*old(self)),
        ensures
            kind_well_formed(*final(self)),
            match *old(self) {
                Kind::Conjunction { last_pulse_by_module: before } => {
                    &&& *final(self) matches Kind::Conjunction { last_pulse_by_module: after }
                        && memory_updated(before@, after@, src, Pulse::Low)
                },
                _ => *final(self) == *old(self),
            },
    {
        match self {
            Kind::Conjunction { last_pulse_by_module } => {
                set_last_pulse(last_pulse_by_module, src, Pulse::Low);
            }
            _ => {}
        }
    }

    /// Feeds one pulse from module `src` into this module, returning the
    /// pulse it emits in response, if any.
    ///
    /// A flip-flop ignores high pulses; a low pulse toggles it and it
    /// emits high exactly when it is now on.  A conjunction first updates
    /// its memory for `src`, then emits low if it remembers high from
    /// every source and high otherwise.  A broadcaster repeats the pulse
    /// and a button always emits low.
    pub fn receive_pulse(&mut self, src: u64, pulse: Pulse) -> (r: Option<Pulse>)
        requires
            kind_well_formed(*old(self)),
        ensures
            kind_well_formed(*final(self)),
            kind_step(*old(self), *final(self), src, pulse, r),
    {
        match self {
            Kind::FlipFlop { on } => match pulse {
                Pulse::Low => {
                    *on = !*on;
                    Some(
                        if *on {
                            Pulse::High
                        } else {
                            Pulse::Low
                        },
                    )
                }
                Pulse::High => None,
            },
            Kind::Conjunction { last_pulse_by_module } => {
                set_last_pulse(last_pulse_by_module, src, pulse);
                if all_pulses_high(last_pulse_by_module) {
                    Some(Pulse::Low)
                } else {
                    Some(Pulse::High)
                }
            }
            Kind::Broadcaster => Some(pulse),
            Kind::Button => Some(Pulse::Low),
        }
    }
}

/// Sets the remembered pulse for `src` in an association list, keeping
/// one entry per source.
#[verifier::loop_isolation(false)]
fn set_last_pulse(memory: &mut Vec<(u64, Pulse)>, src: u64, pulse: Pulse)
    requires
        one_entry_per_source(old(memory)@),
    ensures
        one_entry_per_source(final(memory)@),
        memory_updated(old(memory)@, final(memory)@, src, pulse),
{
    let ghost before = memory@;
    let mut i: usize = 0;
    while i < memory.len()
        invariant
            one_entry_per_source(memory@),
            memory@ == before,
            i <= memory@.len(),
            forall|k: int| 0 <= k < i ==> (#[trigger] memory@[k]).0 != src,
        decreases memory@.len() - i,
    {
        if memory[i].0 == src {
            let updated = memory.remove(i);
            memory.push((src, pulse));
            proof {
                lemma_memory_updated_replace(before, memory@, src, pulse, i as int);
            }
            return ;
        }
        i = i + 1;
    }
    memory.push((src, pulse));
    proof {
        assert(one_entry_per_source(memory@)) by {
            assert(forall|k: int| 0 <= k < before.len() ==> #[trigger] memory@[k] == before[k]);
        }
        assert forall|k: u64| k != src implies (remembers(memory@, k) <==> remembers(
            before,
            k,
        )) by {
            if remembers(memory@, k) {
                let w = choose|w: int| 0 <= w < memory@.len() && memory@[w].0 == k;
                assert(w < before.len() && before[w].0 == k);
            }
            if remembers(before, k) {
                let w = choose|w: int| 0 <= w < before.len() && before[w].0 == k;
                assert(memory@[w].0 == k);
            }
        }
        assert forall|k: u64| k != src && remembers(before, k) implies remembered(memory@, k)
            == remembered(before, k) by {
            let w = choose|w: int| 0 <= w < before.len() && before[w].0 == k;
            assert(memory@[w].0 == k);
            lemma_remembered_at(memory@, k, w);
            lemma_remembered_at(before, k, w);
        }
        lemma_remembered_at(memory@, src, memory@.len() - 1);
    }
}

/// Tests whether every remembered pulse is high.
fn all_pulses_high(memory: &Vec<(u64, Pulse)>) -> (r: bool)
    ensures
        r == all_high(memory@),
{
    let mut i: usize = 0;
    while i < memory.len()
        invariant
            i <= memory@.len(),
            forall|k: int| 0 <= k < i ==> (#[trigger] memory@[k]).1 == Pulse::High,
        decreases memory@.len() - i,
    {
        match memory[i].1 {
            Pulse::High => {
            }
            Pulse::Low => {
                return false;
            }
        }
        i = i + 1;
    }
    true
}

/// In a one-entry-per-source memory, the entry at any index holding key
/// `k` is the remembered entry for `k`.
proof fn lemma_remembered_at(memory: Seq<(u64, Pulse)>, k: u64, at: int)
    requires
        one_entry_per_source(memory),
        0 <= at < memory.len(),
        memory[at].0 == k,
    ensures
        remembers(memory, k),
        remembered(memory, k) == memory[at].1,
{
    let w = choose|i: int| 0 <= i < memory.len() && memory[i].0 == k;
    assert(w == at);
}

/// Removing the entry for `src` at index `at` and pushing a fresh one
/// updates exactly that entry.
proof fn lemma_memory_updated_replace(
    before: Seq<(u64, Pulse)>,
    after: Seq<(u64, Pulse)>,
    src: u64,
    pulse: Pulse,
    at: int,
)
    requires
        one_entry_per_source(before),
        0 <= at < before.len(),
        before[at].0 == src,
        after == before.remove(at).push((src, pulse)),
    ensures
        one_entry_per_source(after),
        memory_updated(before, after, src, pulse),
{
    assert forall|i: int, j: int|
        0 <= i < after.len() && 0 <= j < after.len() && i != j implies (#[trigger] after[i]).0 != (
    #[trigger] after[j]).0 by {
        assert(forall|m: int|
            0 <= m < after.len() - 1 ==> #[trigger] after[m] == if m < at {
                before[m]
            } else {
                before[m + 1]
            });
    }
    assert(after[after.len() - 1] == (src, pulse));
    lemma_remembered_at(after, src, after.len() - 1);
    assert forall|k: u64| k != src implies (remembers(after, k) <==> remembers(before, k)) by {
        if remembers(after, k) {
            let w = choose|i: int| 0 <= i < after.len() && after[i].0 == k;
            if w < at {
                assert(before[w].0 == k);
            } else if w < after.len() - 1 {
                assert(before[w + 1].0 == k);
            }
        }
        if remembers(before, k) {
            let w = choose|i: int| 0 <= i < before.len() && before[i].0 == k;
            if w < at {
                assert(after[w].0 == k);
            } else {
                assert(after[w - 1].0 == k);
            }
        }
    }
    assert forall|k: u64| k != src && remembers(before, k) implies remembered(after, k)
        == remembered(before, k) by {
        let w = choose|i: int| 0 <= i < before.len() && before[i].0 == k;
        lemma_remembered_at(before, k, w);
        if w < at {
            assert(after[w] == before[w]);
            lemma_remembered_at(after, k, w);
        } else {
            assert(after[w - 1] == before[w]);
            lemma_remembered_at(after, k, w - 1);
        }
    }
}

/// One module of the network: its kind together with the modules its
/// emitted pulses are sent to.
pub struct Module {
    /// The index that identifies this module within its network.
    pub name: u64,
    /// What the module does with the pulses it receives.
    pub kind: Kind,
    /// The modules this module emits to, in connection order.
    pub dst: Vec<u64>,
}

impl Module {
    /// The module's state is well formed when its kind's is.
    pub open spec fn well_formed(self) -> bool {
        kind_well_formed(self.kind)
    }

    /// Creates a module with no destinations yet.
    pub fn new(name: u64, kind: Kind) -> (m: Self)
        ensures
            m.name == name,
            m.kind == kind,
            m.dst@ == Seq::<u64>::empty(),
    {
        Module { name, kind, dst: Vec::new() }
    }

    /// Creates a module behind a shared handle, for networks that wire
    /// one module into several others' destination lists.
    pub fn new_rc(name: u64, kind: Kind) -> (m: std::rc::Rc<Module>)
        ensures
            m.name == name,
            m.kind == kind,
            m.dst@ == Seq::<u64>::empty(),
    {
        std::rc::Rc::new(Module::new(name, kind))
    }

    /// Records that this module emits to the module `dst`.
    ///
    /// The destination module's kind must separately be told about the
    /// new source with [`Kind::connected`]; the network owner does both.
    pub fn connect(&mut self, dst: u64)
        ensures
            final(self).name == old(self).name,
            final(self).kind == old(self).kind,
            final(self).dst@ == old(self).dst@.push(dst),
    {
        self.dst.push(dst);
    }

    /// Feeds one pulse from module `src` into this module.  If the
    /// module emits a pulse in response, one (destination, pulse) pair is
    /// queued for every destination, in connection order.
    pub fn receive_pulse(&mut self, src: u64, pulse: Pulse, queue: &mut Queue)
        requires
            old(self).well_formed(),
        ensures
            final(self).well_formed(),
            final(self).name == old(self).name,
            final(self).dst@ == old(self).dst@,
            exists|emitted: Option<Pulse>|
                {
                    &&& #[trigger] kind_step(
                        old(self).kind,
                        final(self).kind,
                        src,
                        pulse,
                        emitted,
                    )
                    &&& match emitted {
                        Some(p) => final(queue)@ == old(queue)@ + old(self).dst@.map_values(
                            |d: u64| (d, p),
                        ),
                        None => final(queue)@ == old(queue)@,
                    }
                },
    {
        let emitted = self.kind.receive_pulse(src, pulse);
        let ghost queue_before = queue@;
        match emitted {
            Some(p) => {
                let mut i: usize = 0;
                while i < self.dst.len()
                    invariant
                        i <= self.dst@.len(),
                        queue@ == queue_before + self.dst@.take(i as int).map_values(
                            |d: u64| (d, p),
                        ),
                    decreases self.dst@.len() - i,
                {
                    queue.push_back((self.dst[i], p));
                    proof {
                        assert(self.dst@.take(i + 1) =~= self.dst@.take(i as int).push(
                            self.dst@[i as int],
                        ));
                        assert(queue@ =~= queue_before + self.dst@.take(i + 1).map_values(
                            |d: u64| (d, p),
                        ));
                    }
                    i = i + 1;
                }
                proof {
                    assert(self.dst@.take(self.dst@.len() as int) =~= self.dst@);
                }
            }
            None => {}
        }
    }
}

} // verus!
