//! Flash controller: page erase and word programming plans.
use vstd::prelude::*;

verus! {

#[derive(Clone, Copy, Debug, PartialEq, Eq, Structural)]
pub enum Error {
    PageNotAligned(u32),
}

/// Size of one erasable flash page, in bytes.
pub const PAGE_SIZE: u32 = 8192;

/// Size of one programmed flash word, in bytes.
pub const WRITE_SIZE: u32 = 4;

pub fn is_page_aligned(address: u32) -> (r: bool)
    ensures
        r == (address % PAGE_SIZE == 0),
{
    address % PAGE_SIZE == 0
}

/// The page start addresses in `start..end`, one page apart.
pub open spec fn pages_in(start: u32, end: u32) -> Seq<u32> {
    let count = if end > start {
        ((end - start + PAGE_SIZE - 1) / PAGE_SIZE as int) as nat
    } else {
        0
    };
    Seq::new(count, |i: int| (start + i * PAGE_SIZE) as u32)
}

/// The pages to erase for the range `start..end`, in order; the range must
/// start on a page boundary.
pub fn erase_pages(start: u32, end: u32) -> (r: Result<Vec<u32>, Error>)
    ensures
        start % PAGE_SIZE != 0 ==> r == Err::<Vec<u32>, Error>(Error::PageNotAligned(start)),
        start % PAGE_SIZE == 0 ==> r is Ok && r->Ok_0@ == pages_in(start, end),
{
    if !is_page_aligned(start) {
        return Err(Error::PageNotAligned(start));
    }
    let mut pages: Vec<u32> = Vec::new();
    if start >= end {
        assert(pages@ =~= pages_in(start, end));
        return Ok(pages);
    }
    let mut page = start;
    let mut i: u32 = 0;
    loop
        invariant
            start < end,
            start % PAGE_SIZE == 0,
            page == start + i * PAGE_SIZE,
            page < end,
            pages@ == Seq::new(i as nat, |k: int| (start + k * PAGE_SIZE) as u32),
        decreases end - page,
    {
        pages.push(page);
        assert(pages@ =~= Seq::new((i + 1) as nat, |k: int| (start + k * PAGE_SIZE) as u32));
        if end - page <= PAGE_SIZE {
            assert((end - start + PAGE_SIZE - 1) / PAGE_SIZE as int == i + 1) by (nonlinear_arith)
                requires
                    start + i * PAGE_SIZE < end,
                    end <= start + (i + 1) * PAGE_SIZE,
                    PAGE_SIZE == 8192,
                    i >= 0,
            ;
            assert(pages@ =~= pages_in(start, end));
            return Ok(pages);
        }
        page = page + PAGE_SIZE;
        i = i + 1;
    }
}

/// One flash word to program: its address and little-endian value.
#[derive(Clone, Copy, Debug, PartialEq, Eq, Structural)]
pub struct FlashWord {
    pub address: u32,
    pub value: u32,
}

/// The little-endian 32-bit value of four bytes.
pub open spec fn le_word(b0: u8, b1: u8, b2: u8, b3: u8) -> u32 {
    (b0 + b1 * 0x100 + b2 * 0x1_0000 + b3 * 0x100_0000) as u32
}

/// The words to program for `buf` at `addr`: one per four bytes, at
/// consecutive word addresses.
pub open spec fn words_of(addr: u32, buf: Seq<u8>) -> Seq<FlashWord> {
    Seq::new(
        buf.len() / 4,
        |i: int|
            FlashWord {
                address: (addr + 4 * i) as u32,
                value: le_word(buf[4 * i], buf[4 * i + 1], buf[4 * i + 2], buf[4 * i + 3]),
            },
    )
}

/// Splits `buf` into the flash words to program from `addr` on.
pub fn write_words(addr: u32, buf: &[u8]) -> (r: Vec<FlashWord>)
    requires
        buf@.len() % 4 == 0,
        addr + buf@.len() <= u32::MAX,
    ensures
        r@ == words_of(addr, buf@),
{
    let mut words: Vec<FlashWord> = Vec::new();
    let n = buf.len() / 4;
    let mut i: usize = 0;
    while i < n
        invariant
            n == buf@.len() / 4,
            buf@.len() % 4 == 0,
            addr + buf@.len() <= u32::MAX,
            i <= n,
            words@ == words_of(addr, buf@).subrange(0, i as int),
        decreases n - i,
    {
        let j = 4 * i;
        let value = (buf[j] as u32) + (buf[j + 1] as u32) * 0x100 + (buf[j + 2] as u32) * 0x1_0000
            + (buf[j + 3] as u32) * 0x100_0000;
        let address = addr + (j as u32);
        words.push(FlashWord { address, value });
        assert(words@ =~= words_of(addr, buf@).subrange(0, i as int + 1));
        i = i + 1;
    }
    assert(words@ =~= words_of(addr, buf@));
    words
}

} // verus!
