//! The userspace heap: it starts empty and grows only through a resize request
//! to the kernel, which chooses where the heap lies.
use vstd::prelude::*;
use crate::align::{round_up, align_up, lemma_round_up, is_pow2};
use crate::error::KernelError;
use crate::kernel_heap::HeapBounds;

verus! {

/// The resize call takes sizes in multiples of this unit (2 MiB).
pub const HEAP_GROWTH_UNIT: usize = 0x20_0000;

/// The growth unit is a power of two.
pub proof fn lemma_growth_unit_pow2()
    ensures
        is_pow2(HEAP_GROWTH_UNIT),
{
    vstd::arithmetic::power2::lemma2_to64();
    assert(HEAP_GROWTH_UNIT == vstd::arithmetic::power2::pow2(21));
}

/// The total heap size to request so that `by` more bytes fit: the current
/// size plus `by` rounded up to the growth unit.
pub open spec fn resize_target(size: usize, by: usize) -> int {
    size + round_up(by as int, HEAP_GROWTH_UNIT as int)
}

/// What to do to the heap core after a granted resize.
#[derive(Clone, Copy, Debug, PartialEq, Eq, Structural)]
pub enum HeapChange {
    /// First resize: set the heap core up over this whole range.
    Init(HeapBounds),
    /// Later resize: extend the heap core in place by this many bytes.
    Extend(usize),
}

/// What the allocator does after a first-fit attempt.
#[derive(Clone, Copy, Debug, PartialEq, Eq, Structural)]
pub enum UserStep {
    /// Hand this address back.
    Done(usize),
    /// Ask the kernel for a heap of this total size, then retry once.
    Resize(usize),
    /// Give up: return null.
    OutOfMemory,
}

/// The userspace global allocator, as far as its bounds go: no heap until the
/// first resize, then the range the kernel placed it at.
#[derive(Clone, Copy, Debug)]
pub struct Allocator {
    pub heap: Option<HeapBounds>,
}

impl Allocator {
    /// The current heap size: zero before the first resize.
    pub open spec fn size_of(self) -> int {
        match self.heap {
            None => 0,
            Some(b) => b.size as int,
        }
    }

    /// Creates an empty heap: size zero, no bottom.
    pub fn new() -> (r: Allocator)
        ensures
            r.heap is None,
    {
        Allocator { heap: None }
    }

    /// The current heap size.
    pub fn size(&self) -> (r: usize)
        ensures
            r == self.size_of(),
    {
        match self.heap {
            None => 0,
            Some(b) => b.size,
        }
    }

    /// The total size to request so that `by` more bytes fit, or `None` where
    /// that size does not fit in a `usize`.
    pub fn resize_request(&self, by: usize) -> (r: Option<usize>)
        ensures
            r is Some <==> resize_target(self.size_of() as usize, by) <= usize::MAX,
            r is Some ==> r->Some_0 == resize_target(self.size_of() as usize, by),
    {
        let size = self.size();
        proof {
            lemma_round_up(by as int, HEAP_GROWTH_UNIT as int);
            lemma_growth_unit_pow2();
        }
        let grow: usize;
        if by > usize::MAX - HEAP_GROWTH_UNIT {
            // Near the top of the range only an exact multiple of the unit
            // rounds to a value that fits.
            if by % HEAP_GROWTH_UNIT != 0 {
                proof {
                    let r = round_up(by as int, HEAP_GROWTH_UNIT as int);
                    vstd::arithmetic::div_mod::lemma_fundamental_div_mod(r, HEAP_GROWTH_UNIT as int);
                    vstd::arithmetic::div_mod::lemma_fundamental_div_mod(by as int, HEAP_GROWTH_UNIT as int);
                }
                return None;
            }
            grow = by;
        } else {
            grow = align_up(by, HEAP_GROWTH_UNIT);
        }
        if grow > usize::MAX - size {
            return None;
        }
        Some(size + grow)
    }

    /// The decision after the first-fit attempt for `size` bytes: a found block
    /// is returned; otherwise a resize is requested, or, where no size can
    /// be asked for, null is returned.
    pub fn on_first_fit(&self, size: usize, fit: Option<usize>) -> (r: UserStep)
        ensures
            fit is Some ==> r == UserStep::Done(fit->Some_0),
            fit is None && resize_target(self.size_of() as usize, size) <= usize::MAX ==> r
                == UserStep::Resize(resize_target(self.size_of() as usize, size) as usize),
            fit is None && resize_target(self.size_of() as usize, size) > usize::MAX ==> r
                == UserStep::OutOfMemory,
    {
        match fit {
            Some(p) => UserStep::Done(p),
            None => match self.resize_request(size) {
                Some(total) => UserStep::Resize(total),
                None => UserStep::OutOfMemory,
            },
        }
    }

    /// Takes in the answer to a resize request for `total` bytes. A granted
    /// first resize places the heap at the returned base; a later one keeps the
    /// bottom and grows in place. A refused one changes nothing, and the
    /// kernel's error goes no further: the caller then returns null.
    pub fn on_resize(&mut self, total: usize, result: Result<usize, KernelError>) -> (r: Option<
        HeapChange,
    >)
        requires
            old(self).size_of() <= total,
        ensures
            result is Err ==> r is None && *final(self) == *old(self),
            result is Ok && old(self).heap is None ==> r == Some(
                HeapChange::Init(HeapBounds { bottom: result->Ok_0, size: total }),
            ) && final(self).heap == Some(HeapBounds { bottom: result->Ok_0, size: total }),
            result is Ok && old(self).heap is Some ==> r == Some(
                HeapChange::Extend((total - old(self).size_of()) as usize),
            ) && final(self).heap == Some(
                HeapBounds { bottom: old(self).heap->Some_0.bottom, size: total },
            ),
            final(self).size_of() >= old(self).size_of(),
    {
        match result {
            Err(_) => None,
            Ok(base) => match self.heap {
                None => {
                    let b = HeapBounds { bottom: base, size: total };
                    self.heap = Some(b);
                    Some(HeapChange::Init(b))
                },
                Some(b) => {
                    self.heap = Some(HeapBounds { bottom: b.bottom, size: total });
                    Some(HeapChange::Extend(total - b.size))
                },
            },
        }
    }
}

/// Growth through a resize rounds the request up to the growth unit, and the
/// heap then holds at least its old size plus the bytes asked for.
pub proof fn lemma_resize_rounds_up(a: Allocator, by: usize)
    requires
        resize_target(a.size_of() as usize, by) <= usize::MAX,
    ensures
        (resize_target(a.size_of() as usize, by) - a.size_of()) % HEAP_GROWTH_UNIT as int == 0,
        resize_target(a.size_of() as usize, by) >= a.size_of() + by,
{
    lemma_round_up(by as int, HEAP_GROWTH_UNIT as int);
}

} // verus!
