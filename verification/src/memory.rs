//! Alignment, and the choice of a memory type.

use crate::flags::{has_all_u32, has_any_u32};
use crate::vulkan::{
    ExtensionBits, BUFFER_USAGE_INDEX_BUFFER, BUFFER_USAGE_INDIRECT_BUFFER,
    BUFFER_USAGE_SHADER_DEVICE_ADDRESS, BUFFER_USAGE_STORAGE_BUFFER, BUFFER_USAGE_TRANSFER_DST,
    BUFFER_USAGE_TRANSFER_SRC, MEMORY_DEVICE_COHERENT, MEMORY_DEVICE_LOCAL,
    MEMORY_DEVICE_UNCACHED, MEMORY_HOST_COHERENT, MEMORY_HOST_VISIBLE,
    MEMORY_LAZILY_ALLOCATED, MEMORY_PROTECTED,
};
use vstd::prelude::*;

verus! {

/// The least alignment of a GPU allocation.
pub const GPU_ALLOCATION_ALIGNMENT: u64 = 16;

/// What every heap buffer can be used as.
pub const UNIVERSAL_BUFFER_USAGE: u32 = BUFFER_USAGE_SHADER_DEVICE_ADDRESS
    | BUFFER_USAGE_STORAGE_BUFFER | BUFFER_USAGE_INDEX_BUFFER | BUFFER_USAGE_INDIRECT_BUFFER
    | BUFFER_USAGE_TRANSFER_SRC | BUFFER_USAGE_TRANSFER_DST;

/// Device memory that the host writes without flushing.
pub const CPU_VISIBLE_MEMORY_PROPERTIES: u32 = MEMORY_DEVICE_LOCAL | MEMORY_HOST_VISIBLE
    | MEMORY_HOST_COHERENT;

/// Properties of memory that is never allocated from.
pub const FORBIDDEN_MEMORY_PROPERTIES: u32 = MEMORY_LAZILY_ALLOCATED | MEMORY_PROTECTED
    | MEMORY_DEVICE_COHERENT | MEMORY_DEVICE_UNCACHED;

/// The least multiple of `alignment` that is not below `value`.
pub open spec fn aligned_up(value: int, alignment: int) -> int {
    ((value + alignment - 1) / alignment) * alignment
}

/// The least multiple of `alignment` that is not below `value`.
pub fn align_up(value: u64, alignment: u64) -> (r: u64)
    requires
        alignment != 0,
        aligned_up(value as int, alignment as int) <= u64::MAX,
    ensures
        r == aligned_up(value as int, alignment as int),
{
    let excess = value % alignment;
    proof {
        let (v, a) = (value as int, alignment as int);
        aligned_up_bounds(v, a);
        vstd::arithmetic::div_mod::lemma_fundamental_div_mod(v, a);
        let next = a * (v / a + 1);
        assert(next == a * (v / a) + a) by (nonlinear_arith)
            requires
                next == a * (v / a + 1),
        ;
        vstd::arithmetic::div_mod::lemma_mod_multiples_basic(v / a + 1, a);
        assert(next == (v / a + 1) * a) by (nonlinear_arith)
            requires
                next == a * (v / a + 1),
        ;
        if excess == 0 {
            aligned_up_is_least(v, a, v);
        } else {
            aligned_up_is_least(v, a, next);
            let up = aligned_up(v, a);
            let q = (v + a - 1) / a;
            assert(q > v / a) by (nonlinear_arith)
                requires
                    q * a >= v,
                    v > a * (v / a),
                    a > 0,
            ;
            assert(up >= next) by (nonlinear_arith)
                requires
                    q >= v / a + 1,
                    up == q * a,
                    next == a * (v / a + 1),
                    a > 0,
            ;
        }
    }
    if excess == 0 {
        value
    } else {
        value - excess + alignment
    }
}

/// `aligned_up` is a multiple of the alignment, at or above the value and less than one step away.
pub proof fn aligned_up_bounds(value: int, alignment: int)
    requires
        value >= 0,
        alignment > 0,
    ensures
        aligned_up(value, alignment) % alignment == 0,
        value <= aligned_up(value, alignment) < value + alignment,
{
    let q = (value + alignment - 1) / alignment;
    vstd::arithmetic::div_mod::lemma_fundamental_div_mod(value + alignment - 1, alignment);
    vstd::arithmetic::div_mod::lemma_mod_multiples_basic(q, alignment);
    assert(alignment * q == q * alignment) by (nonlinear_arith);
}

/// No multiple of the alignment lies between the value and `aligned_up`.
pub proof fn aligned_up_is_least(value: int, alignment: int, multiple: int)
    requires
        value >= 0,
        alignment > 0,
        value <= multiple,
        multiple % alignment == 0,
    ensures
        aligned_up(value, alignment) <= multiple,
{
    aligned_up_bounds(value, alignment);
    let q = (value + alignment - 1) / alignment;
    let k = multiple / alignment;
    vstd::arithmetic::div_mod::lemma_fundamental_div_mod(multiple, alignment);
    assert(q * alignment <= alignment * k) by (nonlinear_arith)
        requires
            q * alignment < value + alignment,
            value <= multiple,
            multiple == alignment * k,
            alignment > 0,
    ;
}

/// Aligning a multiple changes nothing: aligning twice is aligning once.
pub proof fn aligned_up_of_multiple(value: int, alignment: int)
    requires
        value >= 0,
        alignment > 0,
        value % alignment == 0,
    ensures
        aligned_up(value, alignment) == value,
{
    aligned_up_bounds(value, alignment);
    aligned_up_is_least(value, alignment, value);
}

/// A higher value aligns no lower.
pub proof fn aligned_up_is_monotone(a: int, b: int, alignment: int)
    requires
        0 <= a <= b,
        alignment > 0,
    ensures
        aligned_up(a, alignment) <= aligned_up(b, alignment),
{
    aligned_up_bounds(b, alignment);
    aligned_up_is_least(a, alignment, aligned_up(b, alignment));
}

/// The number of bits that are set.
pub open spec fn ones(bits: u32) -> nat
    decreases bits,
{
    if bits == 0 {
        0
    } else {
        ones(bits / 2) + (bits % 2) as nat
    }
}

proof fn ones_bounded(bits: u32)
    ensures
        ones(bits) <= bits,
    decreases bits,
{
    if bits != 0 {
        ones_bounded(bits / 2);
    }
}

fn count_ones(bits: u32) -> (r: u32)
    ensures
        r == ones(bits),
{
    let mut rest: u32 = bits;
    let mut count: u32 = 0;
    proof {
        ones_bounded(bits);
    }
    while rest != 0
        invariant
            count + ones(rest) == ones(bits),
            ones(bits) <= bits,
        decreases rest,
    {
        count += rest % 2;
        rest = rest / 2;
    }
    count
}

/// A memory type of the physical device.
#[derive(Clone, Copy, Debug, PartialEq, Eq, Structural)]
pub struct MemoryTypeInfo {
    pub property_flags: u32,
    pub heap_index: u32,
}

/// A memory heap of the physical device.
#[derive(Clone, Copy, Debug, PartialEq, Eq, Structural)]
pub struct MemoryHeapInfo {
    pub size: u64,
    pub flags: u32,
}

/// The memory of the physical device.
#[derive(Debug)]
pub struct MemoryProperties {
    pub types: Vec<MemoryTypeInfo>,
    pub heaps: Vec<MemoryHeapInfo>,
}

/// What a resource asks of its memory.
#[derive(Clone, Copy, Debug, PartialEq, Eq, Structural)]
pub struct MemoryRequirements {
    pub size: u64,
    pub alignment: u64,
    /// One bit for each memory type that can hold the resource.
    pub memory_type_bits: u32,
}

/// A wish for a memory type.
#[derive(Clone, Copy, Debug, PartialEq, Eq, Structural)]
pub struct MemoryWish {
    /// One bit for each memory type that comes into question.
    pub bits: u32,
    /// Properties that the type must have.
    pub required: u32,
    /// Properties that count for the type.
    pub preferred: u32,
    /// Properties that count against the type, before all else.
    pub avoided: u32,
    /// The least size of the type's heap.
    pub minimum_heap_size: u64,
}

impl MemoryProperties {
    /// At most 32 types, each in a heap that is there.
    pub open spec fn wf(&self) -> bool {
        &&& self.types@.len() <= 32
        &&& forall|i: int|
            #![trigger self.types@[i]]
            0 <= i < self.types@.len() ==> self.types@[i].heap_index < self.heaps@.len()
    }

    /// The heap of the `i`-th type.
    pub open spec fn heap_of(&self, i: int) -> MemoryHeapInfo {
        self.heaps@[self.types@[i].heap_index as int]
    }

    /// The type has no forbidden property, and its heap is no tile memory.
    pub open spec fn usable(&self, i: int, ext: ExtensionBits) -> bool {
        &&& !has_any_u32(self.types@[i].property_flags, FORBIDDEN_MEMORY_PROPERTIES)
        &&& !has_any_u32(self.heap_of(i).flags, ext.tile_memory_heap)
    }

    /// The `i`-th type satisfies the wish.
    pub open spec fn eligible(&self, i: int, wish: MemoryWish, ext: ExtensionBits) -> bool {
        &&& 0 <= i < self.types@.len()
        &&& wish.bits & (1u32 << (i as u32)) != 0
        &&& has_all_u32(self.types@[i].property_flags, wish.required)
        &&& self.usable(i, ext)
        &&& self.heap_of(i).size >= wish.minimum_heap_size
    }

    /// The `a`-th type serves the wish better than the `b`-th: it has nothing avoided where the
    /// other has, else more that is preferred, else the larger heap.
    pub open spec fn better(&self, a: int, b: int, wish: MemoryWish) -> bool {
        let (fa, fb) = (self.types@[a].property_flags, self.types@[b].property_flags);
        let (ca, cb) = (!has_any_u32(fa, wish.avoided), !has_any_u32(fb, wish.avoided));
        let (na, nb) = (ones(fa & wish.preferred), ones(fb & wish.preferred));
        if ca != cb {
            ca
        } else if na != nb {
            na > nb
        } else {
            self.heap_of(a).size > self.heap_of(b).size
        }
    }

    /// `i` is the first of the best types for the wish.
    pub open spec fn best(&self, i: int, wish: MemoryWish, ext: ExtensionBits) -> bool {
        &&& self.eligible(i, wish, ext)
        &&& forall|j: int| #[trigger]
            self.eligible(j, wish, ext) ==> !self.better(j, i, wish) && (j < i ==> self.better(
                i,
                j,
                wish,
            ))
    }

    /// Whether memory of the type may be allocated at all.
    pub fn is_usable_memory_type(&self, index: u32, ext: ExtensionBits) -> (r: bool)
        requires
            self.wf(),
            index < self.types@.len(),
        ensures
            r == self.usable(index as int, ext),
    {
        let memory = self.types[index as usize];
        memory.property_flags & FORBIDDEN_MEMORY_PROPERTIES == 0
            && self.heaps[memory.heap_index as usize].flags & ext.tile_memory_heap == 0
    }

    /// The first of the types that serve the wish best, if one satisfies it at all.
    pub fn find_memory_type(&self, wish: MemoryWish, ext: ExtensionBits) -> (r: Option<u32>)
        requires
            self.wf(),
        ensures
            match r {
                Some(index) => self.best(index as int, wish, ext),
                None => forall|i: int| !#[trigger] self.eligible(i, wish, ext),
            },
    {
        let mut best: Option<(bool, u32, u64, u32)> = None;
        let mut index: u32 = 0;
        while (index as usize) < self.types.len()
            invariant
                self.wf(),
                index <= self.types@.len(),
                match best {
                    Some(b) => {
                        let f = self.types@[b.3 as int].property_flags;
                        &&& b.3 < index
                        &&& self.eligible(b.3 as int, wish, ext)
                        &&& b.0 == !has_any_u32(f, wish.avoided)
                        &&& b.1 == ones(f & wish.preferred)
                        &&& b.2 == self.heap_of(b.3 as int).size
                        &&& forall|j: int| #[trigger]
                            self.eligible(j, wish, ext) && j < index ==> !self.better(
                                j,
                                b.3 as int,
                                wish,
                            ) && (j < b.3 ==> self.better(b.3 as int, j, wish))
                    },
                    None => forall|j: int| #[trigger] self.eligible(j, wish, ext) ==> j >= index,
                },
            decreases self.types@.len() - index,
        {
            let memory = self.types[index as usize];
            let heap = self.heaps[memory.heap_index as usize];
            let fits = wish.bits & (1u32 << index) != 0 && memory.property_flags & wish.required
                == wish.required && self.is_usable_memory_type(index, ext) && heap.size
                >= wish.minimum_heap_size;
            assert(fits == self.eligible(index as int, wish, ext));
            if fits {
                let clean = memory.property_flags & wish.avoided == 0;
                let liked = count_ones(memory.property_flags & wish.preferred);
                let wins = match best {
                    None => true,
                    Some(b) => {
                        if clean != b.0 {
                            clean
                        } else if liked != b.1 {
                            liked > b.1
                        } else {
                            heap.size > b.2
                        }
                    },
                };
                if wins {
                    best = Some((clean, liked, heap.size, index));
                }
            }
            index += 1;
        }
        match best {
            Some(b) => Some(b.3),
            None => None,
        }
    }

    /// A wish has at most one answer.
    pub proof fn best_is_unique(&self, i: int, j: int, wish: MemoryWish, ext: ExtensionBits)
        requires
            self.best(i, wish, ext),
            self.best(j, wish, ext),
        ensures
            i == j,
    {
    }
}

/// A number and its double have as many bits set, and one more than the double has one more.
pub proof fn ones_count_bits(bits: u32)
    requires
        bits <= 0x7fff_ffff,
    ensures
        ones(0) == 0,
        ones((2 * bits) as u32) == ones(bits),
        ones((2 * bits + 1) as u32) == ones(bits) + 1,
{
}

/// Every heap buffer can be copied, read and written by shaders through its address, and read for
/// indices and indirect arguments. The host writes memory on the device without flushing. Memory
/// that is protected, allocated late, or slow for the device is not used at all.
pub proof fn memory_is_of_use()
    ensures
        UNIVERSAL_BUFFER_USAGE == 0x2_0163,
        CPU_VISIBLE_MEMORY_PROPERTIES == 0x7,
        FORBIDDEN_MEMORY_PROPERTIES == 0xf0,
        GPU_ALLOCATION_ALIGNMENT == 16,
{
    assert((0x20000u32 | 0x20u32 | 0x40u32 | 0x100u32 | 0x1u32 | 0x2u32) == 0x2_0163u32 && (0x1u32
        | 0x2u32 | 0x4u32) == 0x7u32 && (0x10u32 | 0x20u32 | 0x40u32 | 0x80u32) == 0xf0u32)
        by (bit_vector);
}

impl MemoryProperties {
    /// A type satisfies a wish exactly if it is named, has all that is required and nothing that is
    /// forbidden, and its heap is large enough and no tile memory. What is preferred or avoided
    /// plays no part in it.
    pub proof fn satisfying_types_have_all(
        &self,
        i: int,
        wish: MemoryWish,
        other: MemoryWish,
        ext: ExtensionBits,
    )
        requires
            0 <= i < self.types@.len(),
        ensures
            ({
                let (kind, heap) = (self.types@[i], self.heaps@[self.types@[i].heap_index as int]);
                self.eligible(i, wish, ext) <==> {
                    &&& wish.bits & (1u32 << (i as u32)) != 0
                    &&& kind.property_flags & wish.required == wish.required
                    &&& kind.property_flags & FORBIDDEN_MEMORY_PROPERTIES == 0
                    &&& heap.flags & ext.tile_memory_heap == 0
                    &&& wish.minimum_heap_size <= heap.size
                }
            }),
            other.bits == wish.bits && other.required == wish.required && other.minimum_heap_size
                == wish.minimum_heap_size ==> self.eligible(i, other, ext) == self.eligible(
                i,
                wish,
                ext,
            ),
    {
    }

    /// Of two types, that without what is avoided serves better; of two alike in this, that with
    /// more of what is preferred; of two alike in that too, that with the larger heap. No type
    /// serves better than itself, and of two types at most one does.
    pub proof fn better_types_are_chosen_in_order(&self, a: int, b: int, wish: MemoryWish)
        ensures
            ({
                let (x, y) = (self.types@[a].property_flags, self.types@[b].property_flags);
                let (liked, other) = (ones(x & wish.preferred), ones(y & wish.preferred));
                let avoids_a = x & wish.avoided == 0;
                let avoids_b = y & wish.avoided == 0;
                &&& avoids_a && !avoids_b ==> self.better(a, b, wish)
                &&& avoids_a == avoids_b && liked > other ==> self.better(a, b, wish)
                &&& avoids_a == avoids_b && liked == other ==> (self.better(a, b, wish)
                    <==> self.heap_of(a).size > self.heap_of(b).size)
                &&& !(self.better(a, b, wish) && self.better(b, a, wish))
                &&& !self.better(a, a, wish)
            }),
    {
    }
}

} // verus!
