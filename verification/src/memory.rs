//! A region of native memory, and the C strings and pointers in it.
//!
//! A native record points into a buffer. Once the call that filled the buffer
//! has returned, the buffer is only read, so its bytes together with the
//! address of its first byte say all that the pointers can reach. The
//! functions here read those bytes and never go past their end.

use vstd::prelude::*;

verus! {

/// The order in which the bytes of a pointer lie in memory.
#[derive(Debug, Clone, Copy, PartialEq, Eq, Hash, Structural)]
pub enum ByteOrder {
    /// Least significant byte first.
    Little,
    /// Most significant byte first.
    Big,
}

/// The size of a pointer.
#[derive(Debug, Clone, Copy, PartialEq, Eq, Hash, Structural)]
pub enum PtrWidth {
    /// Four bytes.
    Four,
    /// Eight bytes.
    Eight,
}

/// How the native side stores a pointer.
#[derive(Debug, Clone, Copy, PartialEq, Eq, Hash, Structural)]
pub struct PtrLayout {
    pub width: PtrWidth,
    pub order: ByteOrder,
}

impl PtrLayout {
    /// The number of bytes that a pointer takes.
    pub open spec fn spec_ptr_bytes(self) -> usize {
        match self.width {
            PtrWidth::Four => 4,
            PtrWidth::Eight => 8,
        }
    }

    /// The number of bytes that a pointer takes.
    #[verifier::when_used_as_spec(spec_ptr_bytes)]
    pub fn ptr_bytes(self) -> (n: usize)
        ensures
            n == self.spec_ptr_bytes(),
    {
        match self.width {
            PtrWidth::Four => 4,
            PtrWidth::Eight => 8,
        }
    }
}

/// The number that `bytes` spell, least significant byte first.
pub open spec fn le_value(bytes: Seq<u8>) -> nat
    decreases bytes.len(),
{
    if bytes.len() == 0 {
        0
    } else {
        bytes[0] as nat + 256 * le_value(bytes.drop_first())
    }
}

/// The number that `bytes` spell, most significant byte first.
pub open spec fn be_value(bytes: Seq<u8>) -> nat
    decreases bytes.len(),
{
    if bytes.len() == 0 {
        0
    } else {
        256 * be_value(bytes.drop_last()) + bytes.last() as nat
    }
}

/// The pointer stored at offset `ofs` of `mem`.
pub open spec fn ptr_at(mem: Seq<u8>, ofs: int, layout: PtrLayout) -> nat
    recommends
        0 <= ofs,
        ofs + layout.ptr_bytes() <= mem.len(),
{
    let word = mem.subrange(ofs, ofs + layout.ptr_bytes());
    match layout.order {
        ByteOrder::Little => le_value(word),
        ByteOrder::Big => be_value(word),
    }
}

/// The offset of the first NUL byte of `mem` at or after `from`; the length
/// of `mem` where there is none, or where `from` lies outside `mem`.
pub open spec fn nul_index(mem: Seq<u8>, from: int) -> int
    decreases mem.len() - from,
{
    if from < 0 || from >= mem.len() {
        mem.len() as int
    } else if mem[from] == 0 {
        from
    } else {
        nul_index(mem, from + 1)
    }
}

/// The C string that starts at address `addr`, in a region whose first byte
/// lay at address `base` and whose bytes are `mem`: the bytes from `addr` up
/// to the next NUL. There is none where `addr` lies outside the region or no
/// NUL follows it inside the region.
pub open spec fn str_at(mem: Seq<u8>, base: int, addr: int) -> Option<Seq<u8>> {
    let end = nul_index(mem, addr - base);
    if end < mem.len() {
        Some(mem.subrange(addr - base, end))
    } else {
        None
    }
}

/// The strings of the null-terminated array of string pointers that starts
/// at address `addr`: those that the pointers before the first null pointer
/// point to, in order. There is none where the array leaves the region before
/// a null pointer is met, or where one of these pointers has no string.
pub open spec fn str_list_at(mem: Seq<u8>, base: int, addr: int, layout: PtrLayout) -> Option<
    Seq<Seq<u8>>,
>
    decreases base + mem.len() - addr,
{
    if addr < base || addr + layout.ptr_bytes() > base + mem.len() {
        None
    } else {
        let p = ptr_at(mem, addr - base, layout);
        if p == 0 {
            Some(Seq::empty())
        } else {
            match (
                str_at(mem, base, p as int),
                str_list_at(mem, base, addr + layout.ptr_bytes(), layout),
            ) {
                (Some(first), Some(rest)) => Some(seq![first] + rest),
                _ => None,
            }
        }
    }
}

/// 256 to the power `k`.
spec fn pow256(k: nat) -> nat
    decreases k,
{
    if k == 0 {
        1
    } else {
        256 * pow256((k - 1) as nat)
    }
}

proof fn lemma_pow256_small(k: nat)
    requires
        k <= 7,
    ensures
        pow256(k) <= 0x100_0000_0000_0000,
{
    reveal_with_fuel(pow256, 9);
}

/// The first NUL at or after `from` is a NUL, and no byte between `from` and
/// it is one.
pub proof fn lemma_nul_index(mem: Seq<u8>, from: int)
    requires
        0 <= from <= mem.len(),
    ensures
        from <= nul_index(mem, from) <= mem.len(),
        nul_index(mem, from) < mem.len() ==> mem[nul_index(mem, from)] == 0,
        forall|i: int| from <= i < nul_index(mem, from) ==> mem[i] != 0,
    decreases mem.len() - from,
{
    if from < mem.len() && mem[from] != 0 {
        lemma_nul_index(mem, from + 1);
    }
}

/// A C string holds no NUL, and lies inside the region.
pub proof fn lemma_str_at(mem: Seq<u8>, base: int, addr: int)
    requires
        str_at(mem, base, addr) is Some,
    ensures
        base <= addr < base + mem.len(),
        addr + str_at(mem, base, addr)->Some_0.len() < base + mem.len(),
        forall|i: int|
            0 <= i < str_at(mem, base, addr)->Some_0.len() ==> str_at(mem, base, addr)->Some_0[i]
                != 0,
{
    lemma_nul_index(mem, addr - base);
}

/// The strings of a list lie behind its pointers: the pointer at index `i`
/// of the array is inside the region; before the end of the list it is not
/// null and points to the string at index `i`; at the end of the list it is
/// null. So a list is never longer than the region lets it be, and a walk
/// over the array that stops at the first null pointer stops.
pub proof fn lemma_str_list_at(mem: Seq<u8>, base: int, addr: int, layout: PtrLayout, i: int)
    requires
        str_list_at(mem, base, addr, layout) is Some,
        0 <= i <= str_list_at(mem, base, addr, layout)->Some_0.len(),
    ensures
        base <= addr + i * layout.ptr_bytes(),
        addr + (i + 1) * layout.ptr_bytes() <= base + mem.len(),
        ({
            let list = str_list_at(mem, base, addr, layout)->Some_0;
            let p = ptr_at(mem, addr + i * layout.ptr_bytes() - base, layout);
            &&& i < list.len() ==> p != 0 && str_at(mem, base, p as int) == Some(list[i])
            &&& i == list.len() ==> p == 0
        }),
    decreases i,
{
    let w = layout.ptr_bytes() as int;
    assert(0 * w == 0 && (i - 1) * w + w == i * w && i * w + w == (i + 1) * w)
        by (nonlinear_arith);
    if i > 0 {
        lemma_str_list_at(mem, base, addr + w, layout, i - 1);
    }
}

/// A list has fewer strings than the region has room for pointers: the
/// array holds one pointer for each string and the null pointer after them,
/// all inside the region.
pub proof fn lemma_str_list_bounded(mem: Seq<u8>, base: int, addr: int, layout: PtrLayout)
    requires
        str_list_at(mem, base, addr, layout) is Some,
    ensures
        (str_list_at(mem, base, addr, layout)->Some_0.len() + 1) * layout.ptr_bytes()
            <= mem.len(),
        str_list_at(mem, base, addr, layout)->Some_0.len() < mem.len(),
{
    let n = str_list_at(mem, base, addr, layout)->Some_0.len() as int;
    lemma_str_list_at(mem, base, addr, layout, n);
    assert((n + 1) * layout.ptr_bytes() >= n + 1) by (nonlinear_arith)
        requires
            layout.ptr_bytes() >= 1,
            n >= 0,
    ;
}

proof fn lemma_le_zero(bytes: Seq<u8>)
    ensures
        le_value(bytes) == 0 <==> forall|i: int| 0 <= i < bytes.len() ==> bytes[i] == 0,
    decreases bytes.len(),
{
    if bytes.len() > 0 {
        let rest = bytes.drop_first();
        lemma_le_zero(rest);
        if le_value(bytes) == 0 {
            assert forall|i: int| 0 <= i < bytes.len() implies bytes[i] == 0 by {
                if i > 0 {
                    assert(rest[i - 1] == bytes[i]);
                }
            }
        }
        if forall|i: int| 0 <= i < bytes.len() ==> bytes[i] == 0 {
            assert forall|i: int| 0 <= i < rest.len() implies rest[i] == 0 by {
                assert(rest[i] == bytes[i + 1]);
            }
        }
    }
}

proof fn lemma_be_zero(bytes: Seq<u8>)
    ensures
        be_value(bytes) == 0 <==> forall|i: int| 0 <= i < bytes.len() ==> bytes[i] == 0,
    decreases bytes.len(),
{
    if bytes.len() > 0 {
        let rest = bytes.drop_last();
        lemma_be_zero(rest);
        if be_value(bytes) == 0 {
            assert forall|i: int| 0 <= i < bytes.len() implies bytes[i] == 0 by {
                if i < rest.len() {
                    assert(rest[i] == bytes[i]);
                }
            }
        }
        if forall|i: int| 0 <= i < bytes.len() ==> bytes[i] == 0 {
            assert forall|i: int| 0 <= i < rest.len() implies rest[i] == 0 by {
                assert(rest[i] == bytes[i]);
            }
        }
    }
}

/// A pointer is null exactly where each of its bytes is zero, in either byte
/// order.
pub proof fn lemma_null_ptr(mem: Seq<u8>, ofs: int, layout: PtrLayout)
    requires
        0 <= ofs,
        ofs + layout.ptr_bytes() <= mem.len(),
    ensures
        ptr_at(mem, ofs, layout) == 0 <==> forall|i: int|
            ofs <= i < ofs + layout.ptr_bytes() ==> mem[i] == 0,
{
    let word = mem.subrange(ofs, ofs + layout.ptr_bytes());
    lemma_le_zero(word);
    lemma_be_zero(word);
    assert(forall|i: int| 0 <= i < word.len() ==> word[i] == mem[ofs + i]);
    if ptr_at(mem, ofs, layout) == 0 {
        assert forall|i: int| ofs <= i < ofs + layout.ptr_bytes() implies mem[i] == 0 by {
            assert(word[i - ofs] == 0);
        }
    }
}

/// A region of native memory.
#[derive(Debug)]
pub struct Image {
    /// The address at which the first byte lay.
    pub base: usize,
    /// The bytes of the region.
    pub bytes: Vec<u8>,
}

impl Image {
    /// The offset at which the byte at address `addr` lies in this copy, if
    /// the region holds that address.
    pub fn locate(&self, addr: u64) -> (r: Option<usize>)
        ensures
            r is Some <==> self.base <= addr < self.base + self.bytes@.len(),
            r is Some ==> r->Some_0 == addr - self.base,
    {
        let base = self.base as u64;
        if addr >= base && addr - base < self.bytes.len() as u64 {
            Some((addr - base) as usize)
        } else {
            None
        }
    }

    /// The offset of the first NUL byte at or after offset `from`.
    pub fn find_nul(&self, from: usize) -> (r: Option<usize>)
        ensures
            r is Some <==> nul_index(self.bytes@, from as int) < self.bytes@.len(),
            r is Some ==> r->Some_0 == nul_index(self.bytes@, from as int),
    {
        let len = self.bytes.len();
        let mut i: usize = from;
        while i < len
            invariant
                len == self.bytes@.len(),
                from <= i,
                nul_index(self.bytes@, from as int) == nul_index(self.bytes@, i as int),
            decreases len - i,
        {
            if self.bytes[i] == 0 {
                return Some(i);
            }
            i = i + 1;
        }
        None
    }

    /// The pointer stored at offset `ofs`, if the copy holds all its bytes.
    pub fn read_ptr(&self, ofs: usize, layout: PtrLayout) -> (r: Option<u64>)
        ensures
            r is Some <==> ofs + layout.ptr_bytes() <= self.bytes@.len(),
            r is Some ==> r->Some_0 == ptr_at(self.bytes@, ofs as int, layout),
    {
        let w = layout.ptr_bytes();
        let len = self.bytes.len();
        if ofs > len || len - ofs < w {
            return None;
        }
        let ghost word = self.bytes@.subrange(ofs as int, ofs + w);
        let mut acc: u64 = 0;
        match layout.order {
            ByteOrder::Big => {
                let mut k: usize = 0;
                while k < w
                    invariant
                        k <= w <= 8,
                        len == self.bytes@.len(),
                        ofs + w <= len,
                        word == self.bytes@.subrange(ofs as int, ofs + w),
                        acc == be_value(word.subrange(0, k as int)),
                        acc < pow256(k as nat),
                    decreases w - k,
                {
                    proof {
                        lemma_pow256_small(k as nat);
                        assert(word.subrange(0, k + 1).drop_last() =~= word.subrange(0, k as int));
                    }
                    acc = acc * 256 + self.bytes[ofs + k] as u64;
                    k = k + 1;
                }
                proof {
                    assert(word.subrange(0, w as int) =~= word);
                }
            },
            ByteOrder::Little => {
                let mut k: usize = w;
                while k > 0
                    invariant
                        k <= w <= 8,
                        len == self.bytes@.len(),
                        ofs + w <= len,
                        word == self.bytes@.subrange(ofs as int, ofs + w),
                        acc == le_value(word.subrange(k as int, w as int)),
                        acc < pow256((w - k) as nat),
                    decreases k,
                {
                    k = k - 1;
                    proof {
                        lemma_pow256_small((w - k - 1) as nat);
                        assert(word.subrange(k as int, w as int).drop_first() =~= word.subrange(
                            k + 1,
                            w as int,
                        ));
                    }
                    acc = acc * 256 + self.bytes[ofs + k] as u64;
                }
                proof {
                    assert(word.subrange(0, w as int) =~= word);
                }
            },
        }
        Some(acc)
    }

    /// The C string at address `addr`, without its NUL.
    pub fn c_str_at(&self, addr: u64) -> (r: Option<&[u8]>)
        ensures
            match r {
                Some(s) => str_at(self.bytes@, self.base as int, addr as int) == Some(s@),
                None => str_at(self.bytes@, self.base as int, addr as int) is None,
            },
    {
        match self.locate(addr) {
            None => None,
            Some(start) => match self.find_nul(start) {
                None => None,
                Some(end) => {
                    proof {
                        lemma_nul_index(self.bytes@, start as int);
                    }
                    Some(vstd::slice::slice_subrange(self.bytes.as_slice(), start, end))
                },
            },
        }
    }
}

} // verus!
