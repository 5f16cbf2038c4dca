//! The kernel's heap: a fixed virtual reservation of which only a prefix is
//! backed by physical frames, grown page by page on demand.
//!
//! The first-fit heap itself and the page-table calls stay outside; this module
//! decides what is mapped, when the heap grows, by how much, and when growth is
//! fatal.
use vstd::prelude::*;
use crate::align::{PAGE_SIZE, round_up, align_up, lemma_round_up, lemma_page_size_pow2};

verus! {

/// Size of the virtual range reserved for the kernel heap (512 MiB).
pub const RESERVED_HEAP_SIZE: usize = 0x2000_0000;

/// Byte written over every freed block in debug configurations.
pub const FREED_BYTE: u8 = 0x7F;

/// The range `[bottom, bottom + size)` that the heap core manages.
#[derive(Clone, Copy, Debug, PartialEq, Eq, Structural)]
pub struct HeapBounds {
    pub bottom: usize,
    pub size: usize,
}

impl HeapBounds {
    pub open spec fn top(self) -> int {
        self.bottom + self.size
    }
}

/// Conditions under which the kernel cannot go on: there is no fallback once
/// the virtual or physical budget is spent.
#[derive(Clone, Copy, Debug, PartialEq, Eq, Structural)]
pub enum FatalError {
    /// Growth would take the heap past its virtual reservation.
    ExpansionDenied,
    /// The frame allocator has no frame left to back a new page.
    PhysicalMemoryExhausted,
    /// No virtual range of the reservation's size could be found, or the one
    /// found does not fit in the address space.
    NoVirtualSpace,
}

/// What the first use of the heap sets up in the reserved range.
#[derive(Clone, Copy, Debug, PartialEq, Eq, Structural)]
pub struct InitPlan {
    /// Address at which the first frame is mapped (start of the reservation).
    pub map_at: usize,
    /// Start of the guarded remainder of the reservation.
    pub guard_start: usize,
    /// Length of the guarded remainder.
    pub guard_len: usize,
    /// The range the heap core starts out managing: the one mapped page.
    pub bounds: HeapBounds,
}

/// The reservation starting at `heap_space` lies inside the address space.
pub open spec fn reservation_fits(heap_space: usize) -> bool {
    heap_space + RESERVED_HEAP_SIZE <= usize::MAX
}

pub open spec fn init_plan_of(heap_space: usize) -> InitPlan {
    InitPlan {
        map_at: heap_space,
        guard_start: (heap_space + PAGE_SIZE) as usize,
        guard_len: (RESERVED_HEAP_SIZE - PAGE_SIZE) as usize,
        bounds: HeapBounds { bottom: heap_space, size: PAGE_SIZE },
    }
}

/// A growth of the heap: the pages to back, in order, and the amount by which
/// the managed range then grows.
#[derive(Debug)]
pub struct ExpandPlan {
    pub old_top: usize,
    pub grow: usize,
    pub pages: Vec<usize>,
}

/// The addresses of `n` consecutive pages starting at `start`.
pub open spec fn pages_from(start: int, n: nat) -> Seq<int> {
    Seq::new(n, |i: int| start + i * PAGE_SIZE)
}

/// How much a request for `by` bytes grows the heap: `by` rounded up to pages.
pub open spec fn growth_for(by: usize) -> int {
    round_up(by as int, PAGE_SIZE as int)
}

/// Growth by `by` stays within the reservation.
pub open spec fn expansion_allowed(b: HeapBounds, by: usize) -> bool {
    b.size + growth_for(by) <= RESERVED_HEAP_SIZE
}

/// `p` is the plan for growing `b` by `by` bytes.
pub open spec fn is_plan_for(p: ExpandPlan, b: HeapBounds, by: usize) -> bool {
    &&& p.old_top == b.top()
    &&& p.grow == growth_for(by)
    &&& p.pages@.map_values(|a: usize| a as int) == pages_from(b.top(), (p.grow / PAGE_SIZE) as nat)
}

/// What the allocator does after a first-fit attempt.
#[derive(Debug)]
pub enum KernelStep {
    /// Hand this address back.
    Done(usize),
    /// Back these pages, grow the heap, then retry once.
    Expand(ExpandPlan),
    /// Stop the kernel.
    Fatal(FatalError),
}

/// The kernel's global allocator, as far as its bounds go: uninitialized until
/// first use, then the range its heap core manages.
#[derive(Clone, Copy, Debug)]
pub struct Allocator {
    pub heap: Option<HeapBounds>,
}

impl Allocator {
    /// The heap sits inside a reservation that fits in the address space, is
    /// whole pages, and never outgrows the reservation.
    pub open spec fn wf(self) -> bool {
        match self.heap {
            None => true,
            Some(b) => {
                &&& b.bottom + RESERVED_HEAP_SIZE <= usize::MAX
                &&& PAGE_SIZE <= b.size <= RESERVED_HEAP_SIZE
                &&& b.size as int % PAGE_SIZE as int == 0
            },
        }
    }

    /// The state after a first use that found the reservation at `reservation`.
    pub open spec fn after_init(self, reservation: Option<usize>) -> Allocator {
        match self.heap {
            None => match reservation {
                Some(s) => if reservation_fits(s) {
                    Allocator { heap: Some(init_plan_of(s).bounds) }
                } else {
                    self
                },
                None => self,
            },
            Some(_) => self,
        }
    }

    /// Creates an allocator whose heap is not set up yet.
    pub fn new() -> (r: Allocator)
        ensures
            r.heap is None,
            r.wf(),
    {
        Allocator { heap: None }
    }

    /// Whether the first use has set up the heap.
    pub fn is_initialized(&self) -> (r: bool)
        ensures
            r == self.heap is Some,
    {
        self.heap.is_some()
    }

    /// First use: with the reservation found at `reservation`, map its first
    /// page and guard the rest, and manage that one page. Returns the plan to
    /// carry out on the first call only; later calls change nothing and return
    /// `Ok(None)`. A first use without a reservation that fits is fatal.
    pub fn init(&mut self, reservation: Option<usize>) -> (r: Result<Option<InitPlan>, FatalError>)
        requires
            old(self).wf(),
        ensures
            *final(self) == old(self).after_init(reservation),
            final(self).wf(),
            old(self).heap is Some ==> r == Ok::<Option<InitPlan>, FatalError>(None),
            old(self).heap is None && reservation is Some && reservation_fits(reservation->Some_0)
                ==> r == Ok::<Option<InitPlan>, FatalError>(Some(init_plan_of(reservation->Some_0))),
            old(self).heap is None && (reservation is None || !reservation_fits(reservation->Some_0))
                ==> r == Err::<Option<InitPlan>, FatalError>(FatalError::NoVirtualSpace),
    {
        if self.heap.is_some() {
            return Ok(None);
        }
        let heap_space = match reservation {
            Some(s) => s,
            None => return Err(FatalError::NoVirtualSpace),
        };
        if heap_space > usize::MAX - RESERVED_HEAP_SIZE {
            return Err(FatalError::NoVirtualSpace);
        }
        let bounds = HeapBounds { bottom: heap_space, size: PAGE_SIZE };
        self.heap = Some(bounds);
        Ok(Some(InitPlan {
            map_at: heap_space,
            guard_start: heap_space + PAGE_SIZE,
            guard_len: RESERVED_HEAP_SIZE - PAGE_SIZE,
            bounds,
        }))
    }

    /// Plans growth by `by` bytes, rounded up to whole pages: the pages from the
    /// current top to the new one. Growth past the reservation is denied.
    pub fn plan_expand(&self, by: usize) -> (r: Result<ExpandPlan, FatalError>)
        requires
            self.wf(),
            self.heap is Some,
        ensures
            r is Ok <==> expansion_allowed(self.heap->Some_0, by),
            r is Err ==> r == Err::<ExpandPlan, FatalError>(FatalError::ExpansionDenied),
            r is Ok ==> is_plan_for(r->Ok_0, self.heap->Some_0, by),
    {
        let b = self.heap.unwrap();
        proof {
            lemma_round_up(by as int, PAGE_SIZE as int);
            lemma_page_size_pow2();
        }
        if by > RESERVED_HEAP_SIZE - b.size {
            return Err(FatalError::ExpansionDenied);
        }
        let grow = align_up(by, PAGE_SIZE);
        if grow > RESERVED_HEAP_SIZE - b.size {
            return Err(FatalError::ExpansionDenied);
        }
        let old_top = b.bottom + b.size;
        let count = grow / PAGE_SIZE;
        proof {
            vstd::arithmetic::div_mod::lemma_fundamental_div_mod(grow as int, PAGE_SIZE as int);
        }
        let mut pages: Vec<usize> = Vec::new();
        let mut i: usize = 0;
        while i < count
            invariant
                i <= count,
                count * PAGE_SIZE == grow,
                old_top + grow <= usize::MAX,
                pages@.len() == i,
                forall|j: int| 0 <= j < i ==> pages@[j] == old_top + j * PAGE_SIZE,
            decreases count - i,
        {
            pages.push(old_top + i * PAGE_SIZE);
            i = i + 1;
        }
        let plan = ExpandPlan { old_top, grow, pages };
        assert(plan.pages@.map_values(|a: usize| a as int) =~= pages_from(b.top(), (grow / PAGE_SIZE) as nat));
        Ok(plan)
    }

    /// After every page of `plan` is backed: the heap core manages up to the
    /// new top.
    pub fn commit_expand(&mut self, by: usize, plan: &ExpandPlan)
        requires
            old(self).wf(),
            old(self).heap is Some,
            expansion_allowed(old(self).heap->Some_0, by),
            is_plan_for(*plan, old(self).heap->Some_0, by),
        ensures
            final(self).wf(),
            final(self).heap == Some(HeapBounds {
                bottom: old(self).heap->Some_0.bottom,
                size: (old(self).heap->Some_0.size + plan.grow) as usize,
            }),
    {
        let b = self.heap.unwrap();
        proof {
            lemma_round_up(by as int, PAGE_SIZE as int);
            vstd::arithmetic::div_mod::lemma_mod_adds(b.size as int, plan.grow as int, PAGE_SIZE as int);
        }
        self.heap = Some(HeapBounds { bottom: b.bottom, size: b.size + plan.grow });
    }

    /// The decision after the first-fit attempt for `size` bytes: a found block
    /// is returned; otherwise the heap grows by `size` (rounded up to pages) or,
    /// past the reservation, the kernel stops.
    pub fn on_first_fit(&self, size: usize, fit: Option<usize>) -> (r: KernelStep)
        requires
            self.wf(),
            self.heap is Some,
        ensures
            fit is Some ==> r == KernelStep::Done(fit->Some_0),
            fit is None && expansion_allowed(self.heap->Some_0, size) ==> r is Expand
                && is_plan_for(r->Expand_0, self.heap->Some_0, size),
            fit is None && !expansion_allowed(self.heap->Some_0, size) ==> r
                == KernelStep::Fatal(FatalError::ExpansionDenied),
    {
        match fit {
            Some(p) => KernelStep::Done(p),
            None => match self.plan_expand(size) {
                Ok(plan) => KernelStep::Expand(plan),
                Err(e) => KernelStep::Fatal(e),
            },
        }
    }
}

/// The address handed back after the single retry that follows a growth:
/// the block found, or null (0) when even the grown heap has none.
pub fn on_retry(fit: Option<usize>) -> (r: usize)
    ensures
        r == match fit {
            Some(p) => p,
            None => 0usize,
        },
{
    match fit {
        Some(p) => p,
        None => 0,
    }
}

/// A frame from the frame allocator, or the fatal error when it has none.
pub fn require_frame(frame: Option<usize>) -> (r: Result<usize, FatalError>)
    ensures
        frame is Some ==> r == Ok::<usize, FatalError>(frame->Some_0),
        frame is None ==> r == Err::<usize, FatalError>(FatalError::PhysicalMemoryExhausted),
{
    match frame {
        Some(f) => Ok(f),
        None => Err(FatalError::PhysicalMemoryExhausted),
    }
}

/// Overwrites a freed block with `FREED_BYTE`, so that a use after free reads
/// a recognizable pattern.
pub fn poison_freed(block: &mut [u8])
    ensures
        final(block)@.len() == old(block)@.len(),
        forall|i: int| 0 <= i < final(block)@.len() ==> final(block)@[i] == FREED_BYTE,
{
    let n = block.len();
    let mut i: usize = 0;
    while i < n
        invariant
            i <= n,
            block@.len() == n,
            forall|j: int| 0 <= j < i ==> block@[j] == FREED_BYTE,
        decreases n - i,
    {
        block[i] = FREED_BYTE;
        i = i + 1;
    }
}

/// Setting the heap up happens once: after a first use that set the heap up,
/// a further first use, whatever reservation it found, leaves the state as it
/// was, and the heap's bottom is the start of the first reservation.
pub proof fn lemma_init_idempotent(a: Allocator, first: Option<usize>, second: Option<usize>)
    requires
        a.heap is None,
        a.after_init(first).heap is Some,
    ensures
        a.after_init(first).after_init(second) == a.after_init(first),
        first is Some && a.after_init(first).heap == Some(
            HeapBounds { bottom: first->Some_0, size: PAGE_SIZE },
        ),
{
}

/// Growth by `by` rounds up to whole pages, and the committed heap holds at
/// least its old size plus `by`, still within the reservation.
pub proof fn lemma_expansion_rounds_up(b: HeapBounds, by: usize)
    requires
        expansion_allowed(b, by),
    ensures
        growth_for(by) % PAGE_SIZE as int == 0,
        by <= growth_for(by) < by + PAGE_SIZE,
        b.size + growth_for(by) >= b.size + by,
        b.size + growth_for(by) <= RESERVED_HEAP_SIZE,
{
    lemma_round_up(by as int, PAGE_SIZE as int);
}

} // verus!
