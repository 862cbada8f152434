//! The program-image format: a sequence of 16-bit big-endian words whose
//! first word is the origin address; each following word lands at
//! consecutive addresses from the origin, wrapping at the top of the
//! address space. A trailing odd byte cannot form a word and is ignored.

use vstd::prelude::*;

verus! {

/// Why a program image was rejected.
#[derive(Clone, Copy, Debug, PartialEq, Eq, Structural)]
pub enum LoadError {
    /// The image is shorter than the two bytes of its origin word.
    MissingOrigin,
}

/// The 16-bit word that two big-endian bytes encode.
pub open spec fn be_word_spec(hi: u8, lo: u8) -> u16 {
    (hi * 256 + lo) as u16
}

/// Decodes one big-endian 16-bit word.
pub fn be_word(hi: u8, lo: u8) -> (r: u16)
    ensures
        r == be_word_spec(hi, lo),
{
    proof {
        assert(((hi as u16) << 8) | (lo as u16) == (hi * 256 + lo) as u16) by (bit_vector);
    }
    ((hi as u16) << 8) | (lo as u16)
}

/// Memory after the words encoded by `data` (big-endian, in pairs; a
/// trailing odd byte is ignored) are stored at consecutive addresses from
/// `origin`, wrapping at the top of the address space.
pub open spec fn loaded_mem(mem: Seq<u16>, origin: u16, data: Seq<u8>) -> Seq<u16>
    decreases data.len(),
{
    if data.len() < 2 {
        mem
    } else {
        loaded_mem(
            mem.update(origin as int, be_word_spec(data[0], data[1])),
            origin.wrapping_add(1),
            data.skip(2),
        )
    }
}

/// Whether loading `data` at `origin` writes the address `addr`.
pub open spec fn loader_writes(origin: u16, data: Seq<u8>, addr: u16) -> bool
    decreases data.len(),
{
    data.len() >= 2 && (addr == origin || loader_writes(origin.wrapping_add(1), data.skip(2), addr))
}

/// Loading preserves the size of memory.
pub proof fn lemma_loaded_len(mem: Seq<u16>, origin: u16, data: Seq<u8>)
    requires
        mem.len() == 0x10000,
    ensures
        loaded_mem(mem, origin, data).len() == mem.len(),
    decreases data.len(),
{
    if data.len() >= 2 {
        lemma_loaded_len(
            mem.update(origin as int, be_word_spec(data[0], data[1])),
            origin.wrapping_add(1),
            data.skip(2),
        );
    }
}

/// An address the loader does not write keeps its previous word.
pub proof fn lemma_loaded_frame(mem: Seq<u16>, origin: u16, data: Seq<u8>, addr: u16)
    requires
        mem.len() == 0x10000,
        !loader_writes(origin, data, addr),
    ensures
        loaded_mem(mem, origin, data)[addr as int] == mem[addr as int],
    decreases data.len(),
{
    if data.len() >= 2 {
        lemma_loaded_frame(
            mem.update(origin as int, be_word_spec(data[0], data[1])),
            origin.wrapping_add(1),
            data.skip(2),
            addr,
        );
    }
}

/// Two memories that agree outside the loader's footprint are identical
/// after the same image is loaded into each.
pub proof fn lemma_loaded_agree(m1: Seq<u16>, m2: Seq<u16>, origin: u16, data: Seq<u8>)
    requires
        m1.len() == 0x10000,
        m2.len() == 0x10000,
        forall|a: u16| !loader_writes(origin, data, a) ==> m1[a as int] == m2[a as int],
    ensures
        loaded_mem(m1, origin, data) == loaded_mem(m2, origin, data),
    decreases data.len(),
{
    if data.len() < 2 {
        assert forall|i: int| 0 <= i < m1.len() implies m1[i] == m2[i] by {
            let a = i as u16;
            assert(!loader_writes(origin, data, a));
            assert(m1[a as int] == m2[a as int]);
        };
        assert(m1 =~= m2);
    } else {
        let word = be_word_spec(data[0], data[1]);
        let m1b = m1.update(origin as int, word);
        let m2b = m2.update(origin as int, word);
        assert forall|a: u16| !loader_writes(origin.wrapping_add(1), data.skip(2), a)
            implies m1b[a as int] == m2b[a as int] by {
            if a != origin {
                assert(!loader_writes(origin, data, a));
            }
        };
        lemma_loaded_agree(m1b, m2b, origin.wrapping_add(1), data.skip(2));
    }
}

/// Loading an image is idempotent: loading the same image a second time
/// leaves every memory word exactly as the first load left it.
pub proof fn lemma_load_idempotent(mem: Seq<u16>, origin: u16, data: Seq<u8>)
    requires
        mem.len() == 0x10000,
    ensures
        loaded_mem(loaded_mem(mem, origin, data), origin, data) == loaded_mem(mem, origin, data),
{
    let once = loaded_mem(mem, origin, data);
    lemma_loaded_len(mem, origin, data);
    assert forall|a: u16| !loader_writes(origin, data, a) implies once[a as int] == mem[a as int]
        by {
        lemma_loaded_frame(mem, origin, data, a);
    };
    lemma_loaded_agree(once, mem, origin, data);
}

} // verus!
