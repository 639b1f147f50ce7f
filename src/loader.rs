use vstd::prelude::*;
use crate::word::{word_at, put_word, lemma_put_word_all, read_word, write_word};

verus! {

/// Bytes of the load header at the start of an application image.
pub const HEADER_BYTES: usize = 36;

/// The high bit of a GOT or relocation entry: set for code-relative
/// entries, clear for data-relative ones.
pub const CODE_RELATIVE: u32 = 0x8000_0000;

/// The load header found at the start of an application image (nine
/// little-endian words).
#[derive(Copy, Clone, PartialEq, Eq, Structural, Debug)]
pub struct LoadInfo {
    pub total_size: u32,
    pub rel_data_size: u32,
    pub entry_loc: u32,
    pub init_data_loc: u32,
    pub init_data_size: u32,
    pub got_start_offset: u32,
    pub got_end_offset: u32,
    pub bss_start_offset: u32,
    pub bss_end_offset: u32,
}

/// The header that the first nine words of `image` encode.
pub open spec fn load_info_of(image: Seq<u8>) -> LoadInfo {
    LoadInfo {
        total_size: word_at(image, 0),
        rel_data_size: word_at(image, 4),
        entry_loc: word_at(image, 8),
        init_data_loc: word_at(image, 12),
        init_data_size: word_at(image, 16),
        got_start_offset: word_at(image, 20),
        got_end_offset: word_at(image, 24),
        bss_start_offset: word_at(image, 28),
        bss_end_offset: word_at(image, 32),
    }
}

impl LoadInfo {
    /// Reads the header of `image`, or `None` if the image is shorter than
    /// a header.
    pub fn parse(image: &Vec<u8>) -> (r: Option<LoadInfo>)
        ensures
            r.is_some() == (image@.len() >= HEADER_BYTES),
            r.is_some() ==> r.unwrap() == load_info_of(image@),
    {
        if image.len() < HEADER_BYTES {
            return None;
        }
        Some(LoadInfo {
            total_size: read_word(image, 0),
            rel_data_size: read_word(image, 4),
            entry_loc: read_word(image, 8),
            init_data_loc: read_word(image, 12),
            init_data_size: read_word(image, 16),
            got_start_offset: read_word(image, 20),
            got_end_offset: read_word(image, 24),
            bss_start_offset: read_word(image, 28),
            bss_end_offset: read_word(image, 32),
        })
    }
}

/// `x + y` on 32-bit words, wrapping around.
pub open spec fn add_wrapping(x: u32, y: u32) -> u32 {
    if x + y > u32::MAX {
        (x + y - 0x1_0000_0000) as u32
    } else {
        (x + y) as u32
    }
}

/// A GOT or relocation entry made absolute: data-relative entries are
/// based at the start of RAM, code-relative ones (high bit set) at the
/// start of code with the high bit cleared.
pub open spec fn fixup_value(entry: u32, mem_base: u32, code_base: u32) -> u32 {
    if entry & CODE_RELATIVE == 0 {
        add_wrapping(entry, mem_base)
    } else {
        add_wrapping(entry ^ CODE_RELATIVE, code_base)
    }
}

/// `x` rounded up to a multiple of 8.
pub open spec fn align8(x: int) -> int {
    x + (8 - x % 8) % 8
}

/// `m` with the bytes in `[lo, hi)` set to zero.
pub open spec fn fill_zero(m: Seq<u8>, lo: int, hi: int) -> Seq<u8> {
    Seq::new(m.len(), |i: int| if lo <= i < hi { 0u8 } else { m[i] })
}

/// `m` with its first `n` bytes replaced by `src[from..from + n]`.
pub open spec fn copy_prefix(m: Seq<u8>, src: Seq<u8>, from: int, n: int) -> Seq<u8> {
    Seq::new(m.len(), |i: int| if i < n { src[from + i] } else { m[i] })
}

/// `m` after fixing up, in order, the word at each offset of `offs`.
pub open spec fn apply_fixups(m: Seq<u8>, offs: Seq<int>, mem_base: u32, code_base: u32) -> Seq<u8>
    decreases offs.len(),
{
    if offs.len() == 0 {
        m
    } else {
        let prev = apply_fixups(m, offs.drop_last(), mem_base, code_base);
        let o = offs.last();
        put_word(prev, o, fixup_value(word_at(prev, o), mem_base, code_base))
    }
}

/// Number of words in the relocation table.
pub open spec fn reloc_words(info: LoadInfo) -> int {
    info.rel_data_size as int / 4
}

/// Offsets into RAM of the GOT's words.
pub open spec fn got_offsets(info: LoadInfo) -> Seq<int> {
    Seq::new(
        ((info.got_end_offset - info.got_start_offset) / 4) as nat,
        |k: int| info.got_start_offset as int + 4 * k,
    )
}

/// Offsets into RAM named by the relocation table: its even-indexed words.
pub open spec fn reloc_offsets(info: LoadInfo, image: Seq<u8>) -> Seq<int> {
    Seq::new(
        ((reloc_words(info) + 1) / 2) as nat,
        |k: int| word_at(image, HEADER_BYTES + 8 * k) as int,
    )
}

/// Every word that loading fixes up, in the order it does so.
pub open spec fn fixup_offsets(info: LoadInfo, image: Seq<u8>) -> Seq<int> {
    got_offsets(info) + reloc_offsets(info, image)
}

/// Offset in the image of the code, right after the relocation table.
pub open spec fn code_offset(info: LoadInfo) -> int {
    HEADER_BYTES + info.rel_data_size
}

/// The image's layout is consistent and all that loading writes lies in
/// RAM below `limit`: the relocation table and the initial-data blob are
/// inside the image, the BSS and GOT ranges are ordered, the GOT holds
/// whole words, every relocated word and the stack above the BSS fit.
pub open spec fn layout_fits(info: LoadInfo, image: Seq<u8>, limit: int) -> bool {
    &&& image.len() >= HEADER_BYTES
    &&& code_offset(info) <= image.len()
    &&& code_offset(info) + info.init_data_loc + info.init_data_size <= image.len()
    &&& info.init_data_size <= limit
    &&& info.bss_start_offset <= info.bss_end_offset
    &&& info.bss_end_offset <= limit
    &&& info.got_start_offset <= info.got_end_offset
    &&& info.got_end_offset <= limit
    &&& (info.got_end_offset - info.got_start_offset) % 4 == 0
    &&& forall|k: int| 0 <= k < reloc_offsets(info, image).len()
        ==> #[trigger] reloc_offsets(info, image)[k] + 4 <= limit
    &&& align8(info.bss_end_offset as int) + crate::process::STACK_SIZE <= limit
}

/// The RAM contents after loading `image` into `m` (based at `mem_base`)
/// with code at `code_base`: initial data copied to the bottom, BSS
/// zeroed, then GOT and relocations fixed up.
pub open spec fn loaded_memory(m: Seq<u8>, image: Seq<u8>, info: LoadInfo, mem_base: u32, code_base: u32) -> Seq<u8> {
    let copied = copy_prefix(m, image, code_offset(info) + info.init_data_loc, info.init_data_size as int);
    let zeroed = fill_zero(copied, info.bss_start_offset as int, info.bss_end_offset as int);
    apply_fixups(zeroed, fixup_offsets(info, image), mem_base, code_base)
}

proof fn lemma_take_last<T>(s: Seq<T>, k: int)
    requires
        0 <= k < s.len(),
    ensures
        s.take(k + 1).drop_last() == s.take(k),
        s.take(k + 1).last() == s[k],
        s.take(k + 1).len() == k + 1,
{
    assert(s.take(k + 1).drop_last() =~= s.take(k));
}

/// The `k`-th relocated offset is the first word of the table's `k`-th
/// pair, which lies inside the table.
proof fn lemma_reloc_entry_in_table(rel_data_size: int, k: int)
    requires
        0 <= k < (rel_data_size / 4 + 1) / 2,
        rel_data_size >= 0,
    ensures
        8 * k + 4 <= rel_data_size,
{
    let q = rel_data_size / 4;
    assert(2 * k + 1 <= q);
    assert(4 * q <= rel_data_size);
}

/// What fixing up an entry does, on machine words.
fn fixup(entry: u32, mem_base: u32, code_base: u32) -> (r: u32)
    ensures
        r == fixup_value(entry, mem_base, code_base),
{
    if entry & CODE_RELATIVE == 0 {
        entry.wrapping_add(mem_base)
    } else {
        (entry ^ CODE_RELATIVE).wrapping_add(code_base)
    }
}

/// Whether every relocated word of `image` lies below `limit`.
fn relocations_fit(info: &LoadInfo, image: &Vec<u8>, limit: u32) -> (r: bool)
    requires
        code_offset(*info) <= image@.len(),
    ensures
        r == forall|k: int| 0 <= k < reloc_offsets(*info, image@).len()
            ==> #[trigger] reloc_offsets(*info, image@)[k] + 4 <= limit,
{
    let n: usize = ((info.rel_data_size / 4 + 1) / 2) as usize;
    let mut k: usize = 0;
    while k < n
        invariant
            n == reloc_offsets(*info, image@).len(),
            code_offset(*info) <= image@.len(),
            k <= n,
            forall|j: int| 0 <= j < k ==> #[trigger] reloc_offsets(*info, image@)[j] + 4 <= limit,
        decreases n - k,
    {
        let _image_len = image.len();
        proof {
            lemma_reloc_entry_in_table(info.rel_data_size as int, k as int);
        }
        let w = read_word(image, HEADER_BYTES + 8 * k);
        if w as u64 + 4 > limit as u64 {
            assert(reloc_offsets(*info, image@)[k as int] == w);
            return false;
        }
        k = k + 1;
    }
    true
}

/// Whether `image` can be loaded into RAM whose first `limit` bytes are
/// free for the application.
pub fn check_layout(info: &LoadInfo, image: &Vec<u8>, limit: u32) -> (r: bool)
    requires
        image@.len() >= HEADER_BYTES,
        *info == load_info_of(image@),
    ensures
        r == layout_fits(*info, image@, limit as int),
{
    let len = image.len() as u64;
    let code = HEADER_BYTES as u64 + info.rel_data_size as u64;
    if code > len {
        return false;
    }
    if code + info.init_data_loc as u64 + info.init_data_size as u64 > len {
        return false;
    }
    if info.init_data_size > limit || info.bss_start_offset > info.bss_end_offset
        || info.bss_end_offset > limit || info.got_start_offset > info.got_end_offset
        || info.got_end_offset > limit || (info.got_end_offset - info.got_start_offset) % 4 != 0 {
        return false;
    }
    let bss_end = info.bss_end_offset as u64;
    if bss_end + (8 - bss_end % 8) % 8 + crate::process::STACK_SIZE as u64 > limit as u64 {
        return false;
    }
    relocations_fit(info, image, limit)
}

/// Loads `image` into `memory` (RAM based at `mem_base`, with the first
/// `limit` bytes free for the application) with code at `code_base`:
/// copies the initial data, zeroes the BSS, and fixes up the GOT and the
/// relocated words.
pub fn load(info: &LoadInfo, image: &Vec<u8>, memory: &mut Vec<u8>, mem_base: u32, code_base: u32, limit: u32)
    requires
        layout_fits(*info, image@, limit as int),
        limit <= old(memory)@.len(),
        *info == load_info_of(image@),
    ensures
        final(memory)@ == loaded_memory(old(memory)@, image@, *info, mem_base, code_base),
        final(memory)@.len() == old(memory)@.len(),
{
    let ghost m0 = memory@;
    let _image_len = image.len();
    let from: usize = HEADER_BYTES + info.rel_data_size as usize + info.init_data_loc as usize;
    let n: usize = info.init_data_size as usize;
    let mut i: usize = 0;
    while i < n
        invariant
            i <= n,
            n == info.init_data_size,
            n <= memory@.len(),
            from + n <= image@.len(),
            from == code_offset(*info) + info.init_data_loc,
            memory@ == copy_prefix(m0, image@, from as int, i as int),
        decreases n - i,
    {
        let _image_len = image.len();
        memory.set(i, image[from + i]);
        i = i + 1;
        assert(memory@ =~= copy_prefix(m0, image@, from as int, i as int));
    }
    let ghost copied = memory@;
    let lo: usize = info.bss_start_offset as usize;
    let hi: usize = info.bss_end_offset as usize;
    let mut j: usize = lo;
    assert(memory@ =~= fill_zero(copied, lo as int, j as int));
    while j < hi
        invariant
            lo <= j <= hi,
            hi <= memory@.len(),
            memory@ == fill_zero(copied, lo as int, j as int),
        decreases hi - j,
    {
        memory.set(j, 0);
        j = j + 1;
        assert(memory@ =~= fill_zero(copied, lo as int, j as int));
    }
    let ghost zeroed = memory@;
    let ghost offs = fixup_offsets(*info, image@);
    let got_count: usize = ((info.got_end_offset - info.got_start_offset) / 4) as usize;
    let mut k: usize = 0;
    assert(offs.take(0) =~= Seq::<int>::empty());
    while k < got_count
        invariant
            k <= got_count,
            got_count == got_offsets(*info).len(),
            offs == fixup_offsets(*info, image@),
            info.got_end_offset <= limit <= memory@.len(),
            layout_fits(*info, image@, limit as int),
            memory@ == apply_fixups(zeroed, offs.take(k as int), mem_base, code_base),
            memory@.len() == zeroed.len(),
        decreases got_count - k,
    {
        let off: usize = info.got_start_offset as usize + 4 * k;
        assert(offs[k as int] == off);
        let w = read_word(memory, off);
        let ghost before = memory@;
        proof {
            lemma_put_word_all(before, off as int, fixup_value(w, mem_base, code_base));
        }
        write_word(memory, off, fixup(w, mem_base, code_base));
        proof {
            lemma_take_last(offs, k as int);
        }
        k = k + 1;
    }
    let rel_count: usize = ((info.rel_data_size / 4 + 1) / 2) as usize;
    let mut r: usize = 0;
    while r < rel_count
        invariant
            r <= rel_count,
            rel_count == reloc_offsets(*info, image@).len(),
            got_count == got_offsets(*info).len(),
            offs == fixup_offsets(*info, image@),
            code_offset(*info) <= image@.len(),
            limit <= memory@.len(),
            layout_fits(*info, image@, limit as int),
            memory@ == apply_fixups(zeroed, offs.take(got_count + r), mem_base, code_base),
            memory@.len() == zeroed.len(),
        decreases rel_count - r,
    {
        let _image_len = image.len();
        proof {
            lemma_reloc_entry_in_table(info.rel_data_size as int, r as int);
        }
        let off = read_word(image, HEADER_BYTES + 8 * r) as usize;
        assert(offs[got_count + r] == off);
        assert(reloc_offsets(*info, image@)[r as int] + 4 <= limit);
        let w = read_word(memory, off);
        let ghost before = memory@;
        proof {
            lemma_put_word_all(before, off as int, fixup_value(w, mem_base, code_base));
        }
        write_word(memory, off, fixup(w, mem_base, code_base));
        proof {
            lemma_take_last(offs, got_count + r);
        }
        r = r + 1;
    }
    assert(offs.take(got_count + rel_count) =~= offs);
}

} // verus!
