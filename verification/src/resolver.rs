//! The write-once backend-state cache and the two-tier lookup protocol.
//!
//! The backend itself is reached only from the unverified shell; this
//! module decides every step.  A resolution call runs so: the shell asks
//! the [`Resolver`] for a [`StatePlan`] (create the backend state on the
//! first call, reuse the cached handle afterwards, or skip everything when
//! creation failed), then drives a [`ResolveSession`] step by step: it
//! performs the lookup the session asks for, reports the raw outcome back,
//! and hands the one record the session releases — if any — to the user's
//! closure.
//!
//! The whole protocol assumes external synchronization: the caller holds
//! one process-wide lock across every resolution call, so the cache needs
//! no locking of its own and the backend's own thread-safety machinery is
//! left switched off.

use vstd::prelude::*;

use crate::symbol::Symbol;

verus! {

/// The process-wide cache of the backend's resolver state: not yet
/// created, created and usable, or created but unusable (the backend
/// returned its null handle, and resolution degrades to a silent no-op).
pub enum Cache {
    Uninit,
    Ready { state: usize },
    Unavailable,
}

/// What the shell must do before a lookup can run.
pub enum StatePlan {
    /// First call: create the backend state, once, and record the handle
    /// with [`Resolver::state_created`].
    Create,
    /// Use the cached nonzero handle.
    Use { state: usize },
    /// State creation already failed: skip the lookup, the user's closure
    /// fires zero times.
    Skip,
}

/// The cache that recording a creation result leaves behind: the backend's
/// null handle means no debug info is available, anything else is cached
/// as ready.
pub open spec fn cache_after_creation(handle: usize) -> Cache {
    if handle == 0 {
        Cache::Unavailable
    } else {
        Cache::Ready { state: handle }
    }
}

/// The plan each cache state dictates.
pub open spec fn spec_state_plan(c: Cache) -> StatePlan {
    match c {
        Cache::Uninit => StatePlan::Create,
        Cache::Ready { state } => StatePlan::Use { state },
        Cache::Unavailable => StatePlan::Skip,
    }
}

/// A usable cached handle is never the backend's null handle.
pub open spec fn cache_wf(c: Cache) -> bool {
    c matches Cache::Ready { state } ==> state != 0
}

/// Owner of the cached backend state.  One value of this type stands for
/// the whole process; the caller's external lock serializes every use.
pub struct Resolver {
    pub cache: Cache,
}

impl Resolver {
    pub open spec fn wf(self) -> bool {
        cache_wf(self.cache)
    }

    pub fn new() -> (r: Resolver)
        ensures
            r.cache == Cache::Uninit,
            r.wf(),
    {
        Resolver { cache: Cache::Uninit }
    }

    /// What the shell must do now: exactly one plan per cache state, and
    /// only an uninitialized cache ever asks for creation.
    pub fn state_plan(&self) -> (p: StatePlan)
        ensures
            p == spec_state_plan(self.cache),
    {
        match &self.cache {
            Cache::Uninit => StatePlan::Create,
            Cache::Ready { state } => StatePlan::Use { state: *state },
            Cache::Unavailable => StatePlan::Skip,
        }
    }

    /// Record the handle the backend's one creation call returned.  The
    /// backend offers no teardown, so the result — usable or not — is
    /// cached for the rest of the process and creation is never retried:
    /// this may only be called while the cache is uninitialized.
    pub fn state_created(&mut self, handle: usize)
        requires
            old(self).cache == Cache::Uninit,
        ensures
            final(self).cache == cache_after_creation(handle),
            final(self).wf(),
    {
        if handle == 0 {
            self.cache = Cache::Unavailable;
        } else {
            self.cache = Cache::Ready { state: handle };
        }
    }
}

/// Where one resolution stands.
pub enum Phase {
    /// The line-table lookup has not run yet.
    NeedLine,
    /// The line table missed; the symbol-table fallback must run.
    NeedSym,
    /// A record was built and waits to be handed to the user's closure.
    Deliver { sym: Symbol },
    /// Nothing is left to do.
    Finished,
}

/// The next thing the shell must do for a session.
pub enum Step {
    /// Run the backend's line-table lookup at this address.
    QueryLine { state: usize, addr: usize },
    /// Run the backend's symbol-table lookup at this address.
    QuerySym { state: usize, addr: usize },
    /// Take the pending record with [`ResolveSession::take_delivery`] and
    /// invoke the user's closure with it.
    Deliver,
    /// The session is over.
    Done,
}

/// The phase a line-table outcome leads to.  A record means a hit: it is
/// delivered and nothing else runs.  No record with a nonzero status is
/// the miss that triggers the symbol-table fallback; no record with status
/// zero leaves nothing to deliver.
pub open spec fn phase_after_line(status: i32, record: Option<Symbol>) -> Phase {
    match record {
        Some(s) => Phase::Deliver { sym: s },
        None => if status != 0 {
            Phase::NeedSym
        } else {
            Phase::Finished
        },
    }
}

/// The phase a symbol-table outcome leads to: its record, if any, is
/// delivered, and the session ends either way.
pub open spec fn phase_after_sym(record: Option<Symbol>) -> Phase {
    match record {
        Some(s) => Phase::Deliver { sym: s },
        None => Phase::Finished,
    }
}

/// Every record one whole resolution delivers, as a function of the raw
/// outcomes the backend would report: the line-table lookup's status and
/// bridged record, and the fallback's bridged record.
pub open spec fn lookup_deliveries(
    line_status: i32,
    line_record: Option<Symbol>,
    sym_record: Option<Symbol>,
) -> Seq<Symbol> {
    match phase_after_line(line_status, line_record) {
        Phase::Deliver { sym } => seq![sym],
        Phase::NeedSym => match phase_after_sym(sym_record) {
            Phase::Deliver { sym } => seq![sym],
            _ => seq![],
        },
        _ => seq![],
    }
}

/// Whether a resolution with this line-table outcome consults the symbol
/// table at all.
pub open spec fn symtab_consulted(line_status: i32, line_record: Option<Symbol>) -> bool {
    phase_after_line(line_status, line_record) is NeedSym
}

/// One resolution call in flight, driven by the shell.
pub struct ResolveSession {
    /// The cached backend handle the lookups use.
    pub state: usize,
    /// The address being resolved, already classified by the caller.
    pub addr: usize,
    pub phase: Phase,
    /// How many records this session has released to the user's closure.
    pub delivered: u32,
}

impl ResolveSession {
    /// A session never releases more than one record, and none before its
    /// lookups have run.
    pub open spec fn wf(self) -> bool {
        &&& self.state != 0
        &&& self.delivered <= 1
        &&& !(self.phase is Finished) ==> self.delivered == 0
    }

    /// Start resolving `addr` against a usable cached handle.
    pub fn begin_lookup(state: usize, addr: usize) -> (s: ResolveSession)
        requires
            state != 0,
        ensures
            s == (ResolveSession { state, addr, phase: Phase::NeedLine, delivered: 0 }),
            s.wf(),
    {
        ResolveSession { state, addr, phase: Phase::NeedLine, delivered: 0 }
    }

    pub open spec fn spec_step(self) -> Step {
        match self.phase {
            Phase::NeedLine => Step::QueryLine { state: self.state, addr: self.addr },
            Phase::NeedSym => Step::QuerySym { state: self.state, addr: self.addr },
            Phase::Deliver { .. } => Step::Deliver,
            Phase::Finished => Step::Done,
        }
    }

    /// The next thing the shell must do.
    pub fn step(&self) -> (st: Step)
        ensures
            st == self.spec_step(),
    {
        match &self.phase {
            Phase::NeedLine => Step::QueryLine { state: self.state, addr: self.addr },
            Phase::NeedSym => Step::QuerySym { state: self.state, addr: self.addr },
            Phase::Deliver { .. } => Step::Deliver,
            Phase::Finished => Step::Done,
        }
    }

    /// Report the line-table lookup's outcome: the status the backend
    /// returned and the record the callback bridge built, if any.
    pub fn on_line_outcome(&mut self, status: i32, record: Option<Symbol>)
        requires
            old(self).phase == Phase::NeedLine,
            old(self).wf(),
        ensures
            final(self).phase == phase_after_line(status, record),
            final(self).state == old(self).state,
            final(self).addr == old(self).addr,
            final(self).delivered == old(self).delivered,
            final(self).wf(),
    {
        match record {
            Some(s) => {
                self.phase = Phase::Deliver { sym: s };
            },
            None => {
                if status != 0 {
                    self.phase = Phase::NeedSym;
                } else {
                    self.phase = Phase::Finished;
                }
            },
        }
    }

    /// Report the symbol-table fallback's outcome: the record the callback
    /// bridge built, if any.
    pub fn on_sym_outcome(&mut self, record: Option<Symbol>)
        requires
            old(self).phase == Phase::NeedSym,
            old(self).wf(),
        ensures
            final(self).phase == phase_after_sym(record),
            final(self).state == old(self).state,
            final(self).addr == old(self).addr,
            final(self).delivered == old(self).delivered,
            final(self).wf(),
    {
        match record {
            Some(s) => {
                self.phase = Phase::Deliver { sym: s };
            },
            None => {
                self.phase = Phase::Finished;
            },
        }
    }

    /// Release the pending record for the user's closure.  Returns the
    /// record exactly when one is pending, counts the release, and ends
    /// the session; anything released must go to the closure under the
    /// shell's abort-on-unwind guard.
    pub fn take_delivery(&mut self) -> (r: Option<Symbol>)
        requires
            old(self).wf(),
        ensures
            old(self).phase matches Phase::Deliver { sym } ==> r == Some(sym)
                && final(self).delivered == old(self).delivered + 1
                && final(self).phase is Finished,
            !(old(self).phase is Deliver) ==> r is None && *final(self) == *old(self),
            final(self).state == old(self).state,
            final(self).addr == old(self).addr,
            final(self).wf(),
    {
        let mut taken = Phase::Finished;
        core::mem::swap(&mut taken, &mut self.phase);
        match taken {
            Phase::Deliver { sym } => {
                self.delivered = self.delivered + 1;
                Some(sym)
            },
            other => {
                self.phase = other;
                None
            },
        }
    }
}

/// Law: one resolution call releases at most one record to the user's
/// closure, whatever the backend reported — even when both the line table
/// and the symbol table would match.
pub proof fn lemma_at_most_one_delivery(
    line_status: i32,
    line_record: Option<Symbol>,
    sym_record: Option<Symbol>,
)
    ensures
        lookup_deliveries(line_status, line_record, sym_record).len() <= 1,
{
}

/// Law: a line-table hit is delivered exactly as built, and the symbol
/// table is never consulted — the richer record is preferred.
pub proof fn lemma_line_hit_preferred(
    line_status: i32,
    sym: Symbol,
    sym_record: Option<Symbol>,
)
    ensures
        lookup_deliveries(line_status, Some(sym), sym_record) == seq![sym],
        !symtab_consulted(line_status, Some(sym)),
{
}

/// Law: on a line-table miss the symbol table is consulted, and its
/// record is delivered exactly as built.
pub proof fn lemma_symtab_fallback(line_status: i32, sym: Symbol)
    requires
        line_status != 0,
    ensures
        lookup_deliveries(line_status, None, Some(sym)) == seq![sym],
        symtab_consulted(line_status, None),
{
}

/// Law: with no debug info for the address anywhere — both lookups came
/// back empty — nothing is delivered and the resolution still ends
/// normally.
pub proof fn lemma_total_miss(line_status: i32)
    ensures
        lookup_deliveries(line_status, None, None).len() == 0,
{
}

/// Law: resolution is a function of the backend's answers alone, so two
/// calls on the same address that the backend answers alike deliver
/// identical records.
pub proof fn lemma_resolution_deterministic(
    status_a: i32,
    line_a: Option<Symbol>,
    sym_a: Option<Symbol>,
    status_b: i32,
    line_b: Option<Symbol>,
    sym_b: Option<Symbol>,
)
    requires
        status_a == status_b,
        line_a == line_b,
        sym_a == sym_b,
    ensures
        lookup_deliveries(status_a, line_a, sym_a) == lookup_deliveries(status_b, line_b, sym_b),
{
}

/// Law: the backend state is created at most once per process: once any
/// creation result is recorded, the plan never asks for creation again.
pub proof fn lemma_state_created_once(handle: usize)
    ensures
        spec_state_plan(cache_after_creation(handle)) != StatePlan::Create,
{
}

/// Law: a record built from a complete line-table hit is delivered exactly
/// once, and exposes the file name, the line number and the function name
/// it was built from.
pub proof fn lemma_complete_line_record(
    line_status: i32,
    sym_record: Option<Symbol>,
    pc: usize,
    filename: Vec<u8>,
    lineno: u32,
    function: Vec<u8>,
)
    ensures
        ({
            let s = Symbol::Pcinfo { pc, filename, lineno, function: Some(function) };
            &&& lookup_deliveries(line_status, Some(s), sym_record) == seq![s]
            &&& s.spec_filename() == Some(filename@)
            &&& s.spec_lineno() == Some(lineno)
            &&& s.spec_name() == Some(function@)
        }),
{
}

/// Law: a record delivered by the symbol-table fallback exposes a name
/// but neither a file name nor a line number.
pub proof fn lemma_symtab_record_shape(line_status: i32, pc: usize, symname: Vec<u8>)
    requires
        line_status != 0,
    ensures
        ({
            let s = Symbol::Syminfo { pc, symname: Some(symname) };
            &&& lookup_deliveries(line_status, None, Some(s)) == seq![s]
            &&& s.spec_name() == Some(symname@)
            &&& s.spec_filename() is None
            &&& s.spec_lineno() is None
        }),
{
}

} // verus!
