//! Relocation of the initialized-data segment and zeroing of the BSS region.
use vstd::prelude::*;
use vstd::arithmetic::div_mod::{lemma_mod_multiples_vanish, lemma_small_mod};

verus! {

/// Index of the word at byte address `addr` in a memory that starts at `base`.
pub open spec fn word_index(base: u32, addr: u32) -> int {
    (addr - base) / 4
}

/// Word-addressed memory: the word at byte address `base + 4 * i` is `words[i]`.
pub struct Memory {
    pub base: u32,
    pub words: Vec<u32>,
}

impl Memory {
    /// The base address is word-aligned, and the address just past the last
    /// word fits in 32 bits.
    pub open spec fn wf(self) -> bool {
        &&& self.base % 4 == 0
        &&& self.base + 4 * self.words@.len() <= u32::MAX
    }

    /// Whether `addr` is a word-aligned address inside this memory, or just
    /// past its last word.
    pub open spec fn bounds(self, addr: u32) -> bool {
        &&& addr % 4 == 0
        &&& self.base <= addr
        &&& addr <= self.base + 4 * self.words@.len()
    }

    /// The index in `words` of the word at byte address `addr`.
    pub open spec fn index_of(self, addr: u32) -> int {
        word_index(self.base, addr)
    }

    /// The word at byte address `addr`.
    pub open spec fn word_at(self, addr: u32) -> u32 {
        self.words@[self.index_of(addr)]
    }

    /// A memory of `len` zero words starting at `base`.
    pub fn new(base: u32, len: usize) -> (r: Memory)
        requires
            base % 4 == 0,
            base + 4 * len <= u32::MAX,
        ensures
            r.wf(),
            r.base == base,
            r.words@ == Seq::new(len as nat, |i: int| 0u32),
    {
        let mut words: Vec<u32> = Vec::new();
        while words.len() < len
            invariant
                words.len() <= len,
                forall|i: int| 0 <= i < words.len() ==> words@[i] == 0,
            decreases len - words.len(),
        {
            words.push(0);
        }
        assert(words@ =~= Seq::new(len as nat, |i: int| 0u32));
        Memory { base, words }
    }
}

/// Boundaries of the segments that the initializer works on, as byte
/// addresses: where the initialized data is stored, where it runs, and the
/// BSS region.
#[derive(Clone, Copy, Debug, PartialEq, Eq, Structural)]
pub struct SegmentLayout {
    /// Address of the stored copy of the initialized data.
    pub data_load: u32,
    /// Start of the runtime data region.
    pub data_start: u32,
    /// End (exclusive) of the runtime data region.
    pub data_end: u32,
    /// Start of the BSS region.
    pub bss_start: u32,
    /// End (exclusive) of the BSS region.
    pub bss_end: u32,
}

/// What an initialization did, counted in word operations.
#[derive(Clone, Copy, Debug, PartialEq, Eq, Structural)]
pub struct InitReport {
    pub words_copied: usize,
    pub words_zeroed: usize,
}

/// Index of the word that the forward, word-by-word copy from index `s` to
/// index `d` leaves at index `i` of the destination. Where the destination
/// starts inside the source, the copy re-reads words it already wrote, so the
/// source repeats with period `d - s`.
pub open spec fn copy_source(s: int, d: int, i: int) -> int {
    if s < d {
        s + (i - d) % (d - s)
    } else {
        s + (i - d)
    }
}

/// `w` after the words `[d, e)` are copied forward, one at a time, from the
/// words starting at `s`.
pub open spec fn relocated(w: Seq<u32>, s: int, d: int, e: int) -> Seq<u32> {
    Seq::new(w.len(), |i: int| if d <= i < e { w[copy_source(s, d, i)] } else { w[i] })
}

/// `w` with the words `[z0, z1)` set to zero.
pub open spec fn zeroed(w: Seq<u32>, z0: int, z1: int) -> Seq<u32> {
    Seq::new(w.len(), |i: int| if z0 <= i < z1 { 0u32 } else { w[i] })
}

impl SegmentLayout {
    /// Every boundary is word-aligned and within `mem`, each region ends at
    /// or after its start, and the stored copy lies within `mem`.
    pub open spec fn fits(self, mem: Memory) -> bool {
        &&& mem.bounds(self.data_start)
        &&& mem.bounds(self.data_end)
        &&& mem.bounds(self.bss_start)
        &&& mem.bounds(self.bss_end)
        &&& mem.bounds(self.data_load)
        &&& self.data_start <= self.data_end
        &&& self.bss_start <= self.bss_end
        &&& self.data_load + (self.data_end - self.data_start) <= mem.base + 4 * mem.words@.len()
    }

    /// Number of words in the runtime data region.
    pub open spec fn data_words(self) -> int {
        (self.data_end - self.data_start) / 4
    }

    /// Whether the data segment has to move: its stored and runtime
    /// addresses differ.
    pub open spec fn relocates(self) -> bool {
        self.data_load != self.data_start
    }

    /// Words of `mem` after the data segment is relocated (when it has to be).
    pub open spec fn after_copy(self, mem: Memory) -> Seq<u32> {
        if self.relocates() {
            relocated(
                mem.words@,
                mem.index_of(self.data_load),
                mem.index_of(self.data_start),
                mem.index_of(self.data_end),
            )
        } else {
            mem.words@
        }
    }

    /// Words of `mem` after initialization: relocation, then BSS zeroing.
    pub open spec fn initialized(self, mem: Memory) -> Seq<u32> {
        zeroed(self.after_copy(mem), mem.index_of(self.bss_start), mem.index_of(self.bss_end))
    }

    /// Number of word copies that initialization performs.
    pub open spec fn spec_words_copied(self, mem: Memory) -> int {
        if self.relocates() {
            mem.index_of(self.data_end) - mem.index_of(self.data_start)
        } else {
            0
        }
    }
}

/// Relocates the data segment from its stored address to its runtime
/// address, one word at a time in ascending order, unless the two addresses
/// are equal; then zeroes the BSS region one word at a time.
pub fn init_memory(mem: &mut Memory, layout: &SegmentLayout) -> (r: InitReport)
    requires
        old(mem).wf(),
        layout.fits(*old(mem)),
    ensures
        final(mem).base == old(mem).base,
        final(mem).wf(),
        final(mem).words@ == layout.initialized(*old(mem)),
        r.words_copied == layout.spec_words_copied(*old(mem)),
        r.words_zeroed == old(mem).index_of(layout.bss_end) - old(mem).index_of(layout.bss_start),
{
    let ghost w0 = mem.words@;
    let s = ((layout.data_load - mem.base) / 4) as usize;
    let d = ((layout.data_start - mem.base) / 4) as usize;
    let e = ((layout.data_end - mem.base) / 4) as usize;
    let mut copied: usize = 0;
    if s != d {
        let mut i: usize = d;
        while i < e
            invariant
                mem.wf(),
                mem.base == old(mem).base,
                mem.words@.len() == w0.len(),
                d <= i <= e <= w0.len(),
                s + (e - d) <= w0.len(),
                s != d,
                copied == i - d,
                forall|k: int|
                    0 <= k < w0.len() ==> mem.words@[k] == if d <= k < i {
                        w0[copy_source(s as int, d as int, k)]
                    } else {
                        w0[k]
                    },
            decreases e - i,
        {
            let j = s + (i - d);
            let v = mem.words[j];
            proof {
                let kk = i - d;
                if s < d {
                    let m = d - s;
                    if j < d {
                        lemma_small_mod(kk as nat, m as nat);
                    } else {
                        lemma_mod_multiples_vanish(1, kk - m, m as int);
                    }
                }
                assert(v == w0[copy_source(s as int, d as int, i as int)]);
            }
            mem.words.set(i, v);
            i = i + 1;
            copied = copied + 1;
        }
    }
    proof {
        assert(mem.words@ =~= layout.after_copy(*old(mem)));
    }
    let ghost w1 = mem.words@;
    let z0 = ((layout.bss_start - mem.base) / 4) as usize;
    let z1 = ((layout.bss_end - mem.base) / 4) as usize;
    let mut i: usize = z0;
    while i < z1
        invariant
            mem.wf(),
            mem.base == old(mem).base,
            mem.words@.len() == w1.len(),
            z0 <= i <= z1 <= w1.len(),
            forall|k: int|
                0 <= k < w1.len() ==> mem.words@[k] == if z0 <= k < i {
                    0u32
                } else {
                    w1[k]
                },
        decreases z1 - i,
    {
        mem.words.set(i, 0);
        i = i + 1;
    }
    proof {
        assert(mem.words@ =~= layout.initialized(*old(mem)));
    }
    InitReport { words_copied: copied, words_zeroed: z1 - z0 }
}

/// When the stored and runtime addresses differ, initialization copies as
/// many bytes as the runtime data region holds, and afterwards each word of
/// that region outside the BSS region holds the word stored at the same
/// offset of the stored copy. This holds unless the runtime region starts
/// strictly inside the stored copy, where the ascending copy overwrites
/// source words before it reads them.
pub proof fn lemma_relocation_copies_data(mem: Memory, layout: SegmentLayout)
    requires
        mem.wf(),
        layout.fits(mem),
        layout.relocates(),
        !(layout.data_load < layout.data_start < layout.data_load + (layout.data_end
            - layout.data_start)),
    ensures
        4 * layout.spec_words_copied(mem) == layout.data_end - layout.data_start,
        forall|i: int|
            mem.index_of(layout.data_start) <= i < mem.index_of(layout.data_end) && !(mem.index_of(
                layout.bss_start,
            ) <= i < mem.index_of(layout.bss_end)) ==> #[trigger] layout.initialized(mem)[i]
                == mem.words@[mem.index_of(layout.data_load) + (i - mem.index_of(
                layout.data_start,
            ))],
{
    let s = mem.index_of(layout.data_load);
    let d = mem.index_of(layout.data_start);
    let e = mem.index_of(layout.data_end);
    assert forall|i: int|
        d <= i < e && !(mem.index_of(layout.bss_start) <= i < mem.index_of(
            layout.bss_end,
        )) implies #[trigger] layout.initialized(mem)[i] == mem.words@[s + (i - d)] by {
        if s < d {
            lemma_small_mod((i - d) as nat, (d - s) as nat);
        }
    }
}

/// When the stored and runtime addresses are equal, initialization performs
/// no copy and changes no word outside the BSS region.
pub proof fn lemma_no_copy_in_place(mem: Memory, layout: SegmentLayout)
    requires
        mem.wf(),
        layout.fits(mem),
        !layout.relocates(),
    ensures
        layout.spec_words_copied(mem) == 0,
        forall|i: int|
            0 <= i < mem.words@.len() && !(mem.index_of(layout.bss_start) <= i < mem.index_of(
                layout.bss_end,
            )) ==> #[trigger] layout.initialized(mem)[i] == mem.words@[i],
{
}

/// After initialization every word of the BSS region reads as zero.
pub proof fn lemma_bss_zeroed(mem: Memory, layout: SegmentLayout)
    requires
        mem.wf(),
        layout.fits(mem),
    ensures
        forall|addr: u32|
            addr % 4 == 0 && layout.bss_start <= addr < layout.bss_end ==> layout.initialized(
                mem,
            )[#[trigger] mem.index_of(addr)] == 0,
{
}

} // verus!
