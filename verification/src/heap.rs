use vstd::prelude::*;

verus! {

/// Size of the static heap that the bump allocator hands out, in bytes.
pub const HEAP_SIZE: usize = 262144;

/// The least multiple of `align` that is at least `x`.
pub open spec fn align_up(x: int, align: int) -> int {
    (x + align - 1) / align * align
}

/// What an allocation of `size` bytes aligned to `align` does to a heap
/// whose next free offset is `next`.
#[derive(Clone, Copy, Debug, PartialEq, Eq, Structural)]
pub enum AllocDecision {
    /// A zero-sized request: answered with a dangling, aligned pointer (the
    /// alignment itself), and nothing reserved.
    ZeroSized,
    /// The heap cannot hold the block: answered with a null pointer.
    Exhausted,
    /// The block `start..next` of the heap is reserved, and `next` is the new
    /// next free offset.
    Reserve { start: usize, next: usize },
}

/// The offset, in a heap that starts at address `base`, of the first
/// address at or after offset `next` that is a multiple of `align`.
pub open spec fn aligned_offset(base: int, next: int, align: int) -> int {
    align_up(base + next, align) - base
}

/// The decision for an allocation of `size` bytes aligned to `align` from a
/// heap that starts at address `base` and whose next free offset is `next`:
/// the block starts at the first suitably aligned address, and there is none
/// where that address would lie beyond the address space.
pub open spec fn alloc_decision(base: int, next: int, size: int, align: int) -> AllocDecision {
    if size == 0 {
        AllocDecision::ZeroSized
    } else if align_up(base + next, align) > usize::MAX {
        AllocDecision::Exhausted
    } else if aligned_offset(base, next, align) + size > HEAP_SIZE {
        AllocDecision::Exhausted
    } else {
        AllocDecision::Reserve {
            start: aligned_offset(base, next, align) as usize,
            next: (aligned_offset(base, next, align) + size) as usize,
        }
    }
}

/// Rounding `x` up by the remainder gives the least multiple of `a` that
/// is not below `x`.
proof fn lemma_round_up(x: int, a: int)
    requires
        x >= 0,
        a > 0,
    ensures
        (if x % a == 0 {
            x
        } else {
            x + (a - x % a)
        }) == align_up(x, a),
        align_up(x, a) >= x,
        align_up(x, a) % a == 0,
{
    vstd::arithmetic::div_mod::lemma_fundamental_div_mod(x, a);
    vstd::arithmetic::div_mod::lemma_fundamental_div_mod(x + a - 1, a);
    let q = x / a;
    let r = x % a;
    assert(a * q == q * a) by (nonlinear_arith);
    assert((q + 1) * a == q * a + a) by (nonlinear_arith);
    if r == 0 {
        vstd::arithmetic::div_mod::lemma_fundamental_div_mod_converse(x + a - 1, a, q, a - 1);
    } else {
        vstd::arithmetic::div_mod::lemma_fundamental_div_mod_converse(x + a - 1, a, q + 1, r - 1);
    }
    vstd::arithmetic::div_mod::lemma_mod_multiples_basic((x + a - 1) / a, a);
    assert((x + a - 1) / a * a == a * ((x + a - 1) / a)) by (nonlinear_arith);
}

/// Decides an allocation of `size` bytes aligned to `align` from a heap
/// that starts at address `base` and whose next free offset is `next`.
pub fn decide_alloc(base: usize, next: usize, size: usize, align: usize) -> (d: AllocDecision)
    requires
        align > 0,
    ensures
        d == alloc_decision(base as int, next as int, size as int, align as int),
{
    if size == 0 {
        return AllocDecision::ZeroSized;
    }
    proof {
        lemma_round_up(base + next, align as int);
    }
    let Some(addr) = base.checked_add(next) else {
        return AllocDecision::Exhausted;
    };
    let rem = addr % align;
    let aligned = if rem == 0 {
        addr
    } else {
        let Some(up) = addr.checked_add(align - rem) else {
            return AllocDecision::Exhausted;
        };
        up
    };
    let start = aligned - base;
    let Some(end) = start.checked_add(size) else {
        return AllocDecision::Exhausted;
    };
    if end > HEAP_SIZE {
        return AllocDecision::Exhausted;
    }
    AllocDecision::Reserve { start, next: end }
}

/// A reserved block starts at or after the next free offset, at an address
/// that is a multiple of the alignment, is not empty, and ends inside the
/// heap at the new next free offset.
pub proof fn lemma_reservation_fits(base: int, next: int, size: int, align: int)
    requires
        0 <= base,
        0 <= next,
        0 <= size,
        align > 0,
        alloc_decision(base, next, size, align) is Reserve,
    ensures
        ({
            let start = alloc_decision(base, next, size, align)->Reserve_start;
            let end = alloc_decision(base, next, size, align)->Reserve_next;
            &&& next <= start
            &&& (base + start) % align == 0
            &&& start < end
            &&& end == start + size
            &&& end <= HEAP_SIZE
        }),
{
    lemma_round_up(base + next, align);
}

/// The decision that rounds only the offset into the heap: a block at the
/// next free offset rounded up to a multiple of the alignment.
pub open spec fn offset_decision(next: int, size: int, align: int) -> AllocDecision {
    if size == 0 {
        AllocDecision::ZeroSized
    } else if align_up(next, align) + size > HEAP_SIZE {
        AllocDecision::Exhausted
    } else {
        AllocDecision::Reserve {
            start: align_up(next, align) as usize,
            next: (align_up(next, align) + size) as usize,
        }
    }
}

/// For a heap that lies in the address space and whose start is aligned,
/// aligning the address decides as rounding the offset does.
pub proof fn lemma_aligned_base_rounds_offset(base: int, next: int, size: int, align: int)
    requires
        0 <= base,
        0 <= next,
        0 <= size,
        align > 0,
        base % align == 0,
        base + HEAP_SIZE <= usize::MAX + 1,
    ensures
        aligned_offset(base, next, align) == align_up(next, align),
        alloc_decision(base, next, size, align) == offset_decision(next, size, align),
{
    let k = base / align;
    vstd::arithmetic::div_mod::lemma_fundamental_div_mod(base, align);
    assert(base == k * align) by (nonlinear_arith)
        requires
            base == align * k + base % align,
            base % align == 0,
    ;
    vstd::arithmetic::div_mod::lemma_hoist_over_denominator(next + align - 1, k, align as nat);
    assert((next + align - 1) + k * align == base + next + align - 1);
    let q = (next + align - 1) / align;
    assert((q + k) * align == q * align + k * align) by (nonlinear_arith);
    lemma_round_up(next, align);
}

/// Two blocks reserved one after the other never overlap: the second
/// starts at or after the end of the first.
pub proof fn lemma_reservations_disjoint(
    base: int,
    next: int,
    size1: int,
    align1: int,
    size2: int,
    align2: int,
)
    requires
        0 <= base,
        0 <= next,
        0 <= size1,
        0 <= size2,
        align1 > 0,
        align2 > 0,
        alloc_decision(base, next, size1, align1) is Reserve,
        alloc_decision(
            base,
            alloc_decision(base, next, size1, align1)->Reserve_next as int,
            size2,
            align2,
        ) is Reserve,
    ensures
        alloc_decision(base, next, size1, align1)->Reserve_next <= alloc_decision(
            base,
            alloc_decision(base, next, size1, align1)->Reserve_next as int,
            size2,
            align2,
        )->Reserve_start,
{
    lemma_reservation_fits(base, next, size1, align1);
    let n1 = alloc_decision(base, next, size1, align1)->Reserve_next as int;
    lemma_reservation_fits(base, n1, size2, align2);
}

/// Whether offset `s` of a heap that starts at address `base` is a multiple
/// of `align` as an address.
pub open spec fn address_aligned(base: int, s: int, align: int) -> bool {
    (base + s) % align == 0
}

/// No multiple of `a` lies at or after `x` and before `align_up(x, a)`.
proof fn lemma_align_up_least(x: int, a: int, y: int)
    requires
        x >= 0,
        a > 0,
        x <= y < align_up(x, a),
    ensures
        y % a != 0,
{
    lemma_round_up(x, a);
    let q = (x + a - 1) / a;
    vstd::arithmetic::div_mod::lemma_fundamental_div_mod(x + a - 1, a);
    assert(q * a == a * q) by (nonlinear_arith);
    assert(q * a > x - 1 + 1 - a);
    if y % a == 0 {
        vstd::arithmetic::div_mod::lemma_fundamental_div_mod(y, a);
        let m = y / a;
        assert(m * a == a * m) by (nonlinear_arith);
        assert(m * a == y);
        assert(m < q) by (nonlinear_arith)
            requires
                m * a < q * a,
                a > 0,
        ;
        assert(m * a <= q * a - a) by (nonlinear_arith)
            requires
                m <= q - 1,
                a > 0,
        ;
        assert((x + a - 1) % a >= 0);
        assert(q * a <= x + a - 1);
        assert(false);
    }
}

/// An allocation of nothing is answered with the alignment alone. Any
/// other allocation takes its block at the first offset, at or after the
/// next free one, whose address is a multiple of the alignment; it gets that
/// block exactly when the address lies in the address space and the block
/// ends inside the 256 KiB heap, and the next free offset moves to the
/// block's end; otherwise it is refused.
pub proof fn lemma_alloc_decision_exact(base: int, next: int, size: int, align: int)
    requires
        0 <= base,
        0 <= next,
        0 <= size,
        align > 0,
    ensures
        size == 0 ==> alloc_decision(base, next, size, align) == AllocDecision::ZeroSized,
        ({
            let s0 = aligned_offset(base, next, align);
            &&& next <= s0
            &&& (base + s0) % align == 0
            &&& forall|s: int| next <= s < s0 ==> !#[trigger] address_aligned(base, s, align)
            &&& size > 0 && base + s0 <= usize::MAX && s0 + size <= 262144 ==> alloc_decision(
                base,
                next,
                size,
                align,
            ) == (AllocDecision::Reserve { start: s0 as usize, next: (s0 + size) as usize })
            &&& size > 0 && !(base + s0 <= usize::MAX && s0 + size <= 262144) ==> alloc_decision(
                base,
                next,
                size,
                align,
            ) == AllocDecision::Exhausted
        }),
{
    lemma_round_up(base + next, align);
    assert forall|s: int| next <= s < aligned_offset(base, next, align) implies !#[trigger] address_aligned(base, s, align) by {
        lemma_align_up_least(base + next, align, base + s);
    }
}

} // verus!
