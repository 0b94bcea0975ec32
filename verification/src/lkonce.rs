//! A cell for a value that is built once, in up to two stages.
//!
//! The value may first be built early, to the extent that code running
//! before the allocator and the interrupts are up needs, and is then built in
//! full. Each stage is entered at most once and only in order; the value can
//! be read only after the stage that the reader asks for is complete.
//!
//! ```text
//! Uninit -> EarlyInitting -> EarlyInitted -> Initializing -> Initialized
//!      \______________________________________/
//! ```
use vstd::prelude::*;

verus! {

/// Lifecycle of a cell.
#[derive(Clone, Copy, Debug, PartialEq, Eq, Structural)]
pub enum States {
    Uninit,
    EarlyInitting,
    EarlyInitted,
    Initializing,
    Initialized,
}

/// What a caller may ask of a cell.
#[derive(Clone, Copy, Debug, PartialEq, Eq, Structural)]
pub enum OnceOp {
    /// Build the value early.
    EarlyInit,
    /// Build the value in full.
    Init,
    /// Read the fully built value.
    Get,
    /// Read the value as soon as it is built early.
    GetEarly,
}

impl OnceOp {
    /// Whether the operation is one of the two that build the value.
    pub open spec fn builds(self) -> bool {
        self == OnceOp::EarlyInit || self == OnceOp::Init
    }

    /// The state that a cell is in while the operation builds the value.
    pub open spec fn spec_underway(self) -> States {
        match self {
            OnceOp::EarlyInit => States::EarlyInitting,
            _ => States::Initializing,
        }
    }

    /// The state that a cell is in once the operation has built the value.
    pub open spec fn spec_complete(self) -> States {
        match self {
            OnceOp::EarlyInit => States::EarlyInitted,
            _ => States::Initialized,
        }
    }

    /// The state to put a cell in while the operation builds the value.
    pub fn underway(self) -> (state: States)
        requires
            self.builds(),
        ensures
            state == self.spec_underway(),
    {
        match self {
            OnceOp::EarlyInit => States::EarlyInitting,
            _ => States::Initializing,
        }
    }

    /// The state to put a cell in once the operation has built the value.
    pub fn complete(self) -> (state: States)
        requires
            self.builds(),
        ensures
            state == self.spec_complete(),
    {
        match self {
            OnceOp::EarlyInit => States::EarlyInitted,
            _ => States::Initialized,
        }
    }
}

impl States {
    /// Position of the state along the lifecycle.
    pub open spec fn rank(self) -> nat {
        match self {
            States::Uninit => 0,
            States::EarlyInitting => 1,
            States::EarlyInitted => 2,
            States::Initializing => 3,
            States::Initialized => 4,
        }
    }

    /// Whether a cell in this state lets `op` go ahead.
    pub open spec fn admits(self, op: OnceOp) -> bool {
        match op {
            OnceOp::EarlyInit => self == States::Uninit,
            OnceOp::Init => self == States::Uninit || self == States::EarlyInitted,
            OnceOp::Get => self == States::Initialized,
            OnceOp::GetEarly => self == States::EarlyInitted || self == States::Initialized,
        }
    }

    /// The states that a cell in this state passes through, in order, when
    /// `op` is attempted: none if the attempt is turned down or only reads.
    pub open spec fn path(self, op: OnceOp) -> Seq<States> {
        if self.admits(op) && op.builds() {
            seq![op.spec_underway(), op.spec_complete()]
        } else {
            Seq::empty()
        }
    }

    /// The state that a cell in this state is left in when `op` is attempted.
    pub open spec fn after(self, op: OnceOp) -> States {
        if self.admits(op) && op.builds() {
            op.spec_complete()
        } else {
            self
        }
    }

    /// The state as a tag for an atomic byte: its rank.
    pub fn as_u8(self) -> (tag: u8)
        ensures
            tag == self.rank(),
    {
        match self {
            States::Uninit => 0,
            States::EarlyInitting => 1,
            States::EarlyInitted => 2,
            States::Initializing => 3,
            States::Initialized => 4,
        }
    }

    /// The state that `tag` stands for, if it stands for one.
    pub fn from_u8(tag: u8) -> (state: Option<States>)
        ensures
            match state {
                Some(s) => s.rank() == tag,
                None => tag > 4,
            },
    {
        match tag {
            0 => Some(States::Uninit),
            1 => Some(States::EarlyInitting),
            2 => Some(States::EarlyInitted),
            3 => Some(States::Initializing),
            4 => Some(States::Initialized),
            _ => None,
        }
    }

    /// Whether a cell in this state lets `op` go ahead.
    pub fn permits(self, op: OnceOp) -> (ok: bool)
        ensures
            ok == self.admits(op),
    {
        match op {
            OnceOp::EarlyInit => matches!(self, States::Uninit),
            OnceOp::Init => matches!(self, States::Uninit | States::EarlyInitted),
            OnceOp::Get => matches!(self, States::Initialized),
            OnceOp::GetEarly => matches!(self, States::EarlyInitted | States::Initialized),
        }
    }
}

/// A value that is built once, in up to two stages, and read-only from then on.
pub struct LkOnce<T> {
    value: Option<T>,
    state: States,
}

impl<T> LkOnce<T> {
    /// Where the cell stands in its lifecycle.
    pub closed spec fn state(&self) -> States {
        self.state
    }

    /// The value that the cell holds, if it holds one.
    pub closed spec fn value(&self) -> Option<T> {
        self.value
    }

    /// A cell holds a value exactly when a stage is complete and none is
    /// under way.
    #[verifier::type_invariant]
    spec fn inv(&self) -> bool {
        self.value is Some <==> self.state.admits(OnceOp::GetEarly)
    }

    /// A cell that nothing has been built in.
    pub fn uninit() -> (cell: Self)
        ensures
            cell.state() == States::Uninit,
            cell.value() is None,
    {
        LkOnce { value: None, state: States::Uninit }
    }

    /// Where the cell stands in its lifecycle. It holds a value exactly when
    /// a stage is complete and none is under way.
    pub fn current(&self) -> (state: States)
        ensures
            state == self.state(),
            self.value() is Some <==> state.admits(OnceOp::GetEarly),
    {
        proof {
            use_type_invariant(self);
        }
        self.state
    }

    /// Enters the early stage. The caller builds the value and hands it to
    /// `finish_early_init`.
    pub fn begin_early_init(&mut self)
        requires
            old(self).state().admits(OnceOp::EarlyInit),
        ensures
            final(self).state() == States::EarlyInitting,
            final(self).value() is None,
    {
        proof {
            use_type_invariant(&*self);
        }
        self.state = States::EarlyInitting;
    }

    /// Completes the early stage with the value built.
    pub fn finish_early_init(&mut self, value: T)
        requires
            old(self).state() == States::EarlyInitting,
        ensures
            final(self).state() == States::EarlyInitted,
            final(self).value() == Some(value),
    {
        *self = LkOnce { value: Some(value), state: States::EarlyInitted };
    }

    /// Enters the full stage and hands out what was built early, if anything.
    /// The caller builds the value and hands it to `finish_init`.
    pub fn begin_init(&mut self) -> (early: Option<T>)
        requires
            old(self).state().admits(OnceOp::Init),
        ensures
            final(self).state() == States::Initializing,
            final(self).value() is None,
            early == old(self).value(),
    {
        let mut taken = LkOnce { value: None, state: States::Initializing };
        core::mem::swap(self, &mut taken);
        taken.value
    }

    /// Completes the full stage with the value built.
    pub fn finish_init(&mut self, value: T)
        requires
            old(self).state() == States::Initializing,
        ensures
            final(self).state() == States::Initialized,
            final(self).value() == Some(value),
    {
        *self = LkOnce { value: Some(value), state: States::Initialized };
    }

    /// Builds the value early with `init`. Allowed once, on a cell that
    /// nothing has been built in.
    pub fn early_init<F: FnOnce() -> T>(&mut self, init: F)
        requires
            old(self).state().admits(OnceOp::EarlyInit),
            init.requires(()),
        ensures
            final(self).state() == States::EarlyInitted,
            final(self).value() is Some,
            init.ensures((), final(self).value().unwrap()),
    {
        self.begin_early_init();
        let value = init();
        self.finish_early_init(value);
    }

    /// Builds the value early with `init` if the cell lets it, and says
    /// whether it did. A cell that turns the attempt down is left as it was,
    /// and `init` is not called.
    pub fn try_early_init<F: FnOnce() -> T>(&mut self, init: F) -> (done: bool)
        requires
            old(self).state().admits(OnceOp::EarlyInit) ==> init.requires(()),
        ensures
            done == old(self).state().admits(OnceOp::EarlyInit),
            final(self).state() == old(self).state().after(OnceOp::EarlyInit),
            done ==> final(self).value() is Some && init.ensures(
                (),
                final(self).value().unwrap(),
            ),
            !done ==> final(self).value() == old(self).value(),
    {
        if self.state.permits(OnceOp::EarlyInit) {
            self.early_init(init);
            true
        } else {
            false
        }
    }

    /// Builds the value in full with `init`, which is handed what was built
    /// early, if anything. Allowed once, on a cell that nothing has been
    /// built in or whose early stage is complete.
    pub fn init<F: FnOnce(Option<T>) -> T>(&mut self, init: F)
        requires
            old(self).state().admits(OnceOp::Init),
            init.requires((old(self).value(),)),
        ensures
            final(self).state() == States::Initialized,
            final(self).value() is Some,
            init.ensures((old(self).value(),), final(self).value().unwrap()),
    {
        let early = self.begin_init();
        let value = init(early);
        self.finish_init(value);
    }

    /// Builds the value in full with `init` if the cell lets it, and says
    /// whether it did. A cell that turns the attempt down is left as it was,
    /// and `init` is not called.
    pub fn try_init<F: FnOnce(Option<T>) -> T>(&mut self, init: F) -> (done: bool)
        requires
            old(self).state().admits(OnceOp::Init) ==> init.requires((old(self).value(),)),
        ensures
            done == old(self).state().admits(OnceOp::Init),
            final(self).state() == old(self).state().after(OnceOp::Init),
            done ==> final(self).value() is Some && init.ensures(
                (old(self).value(),),
                final(self).value().unwrap(),
            ),
            !done ==> final(self).value() == old(self).value(),
    {
        if self.state.permits(OnceOp::Init) {
            self.init(init);
            true
        } else {
            false
        }
    }

    /// The fully built value.
    pub fn get(&self) -> (value: &T)
        requires
            self.state().admits(OnceOp::Get),
        ensures
            self.value() == Some(*value),
    {
        proof {
            use_type_invariant(self);
        }
        self.value.as_ref().unwrap()
    }

    /// The value, as soon as it is built early.
    pub fn get_early(&self) -> (value: &T)
        requires
            self.state().admits(OnceOp::GetEarly),
        ensures
            self.value() == Some(*value),
    {
        proof {
            use_type_invariant(self);
        }
        self.value.as_ref().unwrap()
    }

    /// The fully built value, or nothing while the full stage is not complete.
    pub fn try_get(&self) -> (value: Option<&T>)
        ensures
            value is Some <==> self.state().admits(OnceOp::Get),
            value is Some ==> self.value() == Some(*value.unwrap()),
            value is Some ==> self.state().rank() >= States::Initialized.rank(),
    {
        if self.state.permits(OnceOp::Get) {
            Some(self.get())
        } else {
            None
        }
    }

    /// The value as soon as it is built early, or nothing while no stage is
    /// complete or one is under way.
    pub fn try_get_early(&self) -> (value: Option<&T>)
        ensures
            value is Some <==> self.state().admits(OnceOp::GetEarly),
            value is Some ==> self.value() == Some(*value.unwrap()),
            value is Some ==> self.state().rank() >= States::EarlyInitted.rank(),
    {
        if self.state.permits(OnceOp::GetEarly) {
            Some(self.get_early())
        } else {
            None
        }
    }
}

/// The state of a cell that started in `start` after the first `count` of
/// the attempts `ops` were made on it, one after the other.
pub open spec fn state_after(start: States, ops: Seq<OnceOp>, count: int) -> States
    decreases count,
{
    if count <= 0 || count > ops.len() {
        start
    } else {
        state_after(start, ops, count - 1).after(ops[count - 1])
    }
}

/// Every state that a cell that started in `start` was in while and after
/// the first `count` of the attempts `ops` were made on it, in order.
pub open spec fn observed(start: States, ops: Seq<OnceOp>, count: int) -> Seq<States>
    decreases count,
{
    if count <= 0 || count > ops.len() {
        seq![start]
    } else {
        observed(start, ops, count - 1) + state_after(start, ops, count - 1).path(ops[count - 1])
    }
}

/// A read is let through only in a state at or past the stage that it asks for.
pub proof fn lemma_read_needs_stage(state: States)
    ensures
        state.admits(OnceOp::Get) ==> state.rank() >= States::Initialized.rank(),
        state.admits(OnceOp::GetEarly) ==> state.rank() >= States::EarlyInitted.rank(),
{
}

/// While a stage is being built the cell turns every attempt down, so of
/// several callers that attempt a stage only the first is let through.
pub proof fn lemma_underway_admits_nothing(building: OnceOp, attempt: OnceOp)
    requires
        building.builds(),
    ensures
        !building.spec_underway().admits(attempt),
{
}

/// An attempt never moves a cell backwards: the state after it is at or past
/// the state before, and so is every state passed through on the way. An
/// attempt that is turned down moves nothing.
pub proof fn lemma_attempt_advances(state: States, op: OnceOp)
    ensures
        state.rank() <= state.after(op).rank(),
        forall|i: int|
            0 <= i < state.path(op).len() ==> state.rank() < (#[trigger] state.path(op)[i]).rank()
                <= state.after(op).rank(),
        !state.admits(op) ==> state.after(op) == state && state.path(op).len() == 0,
{
}

proof fn lemma_observed_ends(start: States, ops: Seq<OnceOp>, count: int)
    requires
        0 <= count <= ops.len(),
    ensures
        observed(start, ops, count).len() > 0,
        observed(start, ops, count).last() == state_after(start, ops, count),
        forall|i: int|
            0 <= i < observed(start, ops, count).len() ==> (#[trigger] observed(
                start,
                ops,
                count,
            )[i]).rank() <= state_after(start, ops, count).rank(),
        forall|i: int, j: int|
            0 <= i <= j < observed(start, ops, count).len() ==> (#[trigger] observed(
                start,
                ops,
                count,
            )[i]).rank() <= (#[trigger] observed(start, ops, count)[j]).rank(),
    decreases count,
{
    if count > 0 {
        lemma_observed_ends(start, ops, count - 1);
        lemma_attempt_advances(state_after(start, ops, count - 1), ops[count - 1]);
    }
}

/// Whatever is attempted on a cell, in whatever order, the states that it is
/// seen in never go backwards along the lifecycle.
pub proof fn lemma_lifecycle_monotonic(start: States, ops: Seq<OnceOp>, i: int, j: int)
    requires
        0 <= i <= j < observed(start, ops, ops.len() as int).len(),
    ensures
        observed(start, ops, ops.len() as int)[i].rank() <= observed(
            start,
            ops,
            ops.len() as int,
        )[j].rank(),
{
    lemma_observed_ends(start, ops, ops.len() as int);
}

proof fn lemma_state_after_monotonic(start: States, ops: Seq<OnceOp>, i: int, j: int)
    requires
        0 <= i <= j <= ops.len(),
    ensures
        state_after(start, ops, i).rank() <= state_after(start, ops, j).rank(),
    decreases j - i,
{
    if i < j {
        lemma_state_after_monotonic(start, ops, i, j - 1);
        lemma_attempt_advances(state_after(start, ops, j - 1), ops[j - 1]);
    }
}

/// Each stage is built at most once, and the early stage never after the
/// full one: once an attempt to build has been let through, no later attempt
/// at the same stage or at an earlier one is.
pub proof fn lemma_builds_once(start: States, ops: Seq<OnceOp>, i: int, j: int)
    requires
        0 <= i < j < ops.len(),
        ops[i].builds(),
        ops[j].builds(),
        ops[j] == ops[i] || ops[j] == OnceOp::EarlyInit,
        state_after(start, ops, i).admits(ops[i]),
    ensures
        !state_after(start, ops, j).admits(ops[j]),
        state_after(start, ops, j + 1) == state_after(start, ops, j),
{
    lemma_state_after_monotonic(start, ops, i + 1, j);
}

} // verus!
