use vstd::prelude::*;

use crate::computer::bus::CPU_MEMORY_SIZE;
use crate::computer::cartridge::LoadError;
use crate::computer::Computer;

verus! {

// A program listing holds lines `offset: hh hh ...`: a decimal offset, a
// colon, then bytes of one or two hex digits, each after one space.

pub open spec fn is_digit(c: u8) -> bool {
    0x30 <= c <= 0x39
}

pub open spec fn is_hex_digit(c: u8) -> bool {
    is_digit(c) || 0x41 <= c <= 0x46 || 0x61 <= c <= 0x66
}

pub open spec fn hex_value(c: u8) -> int {
    if is_digit(c) {
        c - 0x30
    } else if c <= 0x46 {
        c - 0x41 + 10
    } else {
        c - 0x61 + 10
    }
}

/// The end of the run of decimal digits that starts at `i`.
pub open spec fn digit_run(s: Seq<u8>, i: int) -> int
    decreases s.len() - i,
{
    if 0 <= i < s.len() && is_digit(s[i]) {
        digit_run(s, i + 1)
    } else {
        i
    }
}

/// The end of the run of hex digits that starts at `i`.
pub open spec fn hex_run(s: Seq<u8>, i: int) -> int
    decreases s.len() - i,
{
    if 0 <= i < s.len() && is_hex_digit(s[i]) {
        hex_run(s, i + 1)
    } else {
        i
    }
}

/// The decimal number written by the first `k` characters.
pub open spec fn decimal_prefix(s: Seq<u8>, k: int) -> int
    decreases k,
{
    if k <= 0 {
        0
    } else {
        decimal_prefix(s, k - 1) * 10 + (s[k - 1] - 0x30)
    }
}

/// The bytes written from `p` to the end of the line, each a space and one
/// or two hex digits; `None` when the text has another shape.
pub open spec fn listing_bytes(s: Seq<u8>, p: int) -> Option<Seq<u8>>
    decreases s.len() - p,
{
    if p < 0 || p >= s.len() {
        Some(Seq::empty())
    } else if s[p] != 0x20 {
        None
    } else {
        let q = hex_run(s, p + 1);
        let n = q - (p + 1);
        if !(1 <= n <= 2) || q > s.len() {
            None
        } else {
            let v = if n == 1 {
                hex_value(s[p + 1])
            } else {
                hex_value(s[p + 1]) * 16 + hex_value(s[p + 2])
            };
            match listing_bytes(s, q) {
                Some(rest) => Some(seq![v as u8] + rest),
                None => None,
            }
        }
    }
}

/// A listing line read as its offset and its bytes; `None` when the line
/// is malformed or the offset exceeds $FFFF.
pub open spec fn listing_line(s: Seq<u8>) -> Option<(int, Seq<u8>)> {
    let k = digit_run(s, 0);
    if k == 0 || k >= s.len() || s[k] != 0x3A || decimal_prefix(s, k) > 0xFFFF {
        None
    } else {
        match listing_bytes(s, k + 1) {
            Some(bytes) => Some((decimal_prefix(s, k), bytes)),
            None => None,
        }
    }
}

proof fn lemma_decimal_grows(s: Seq<u8>, i: int, k: int)
    requires
        0 <= i <= k <= s.len(),
        forall|j: int| 0 <= j < k ==> is_digit(#[trigger] s[j]),
    ensures
        decimal_prefix(s, k) >= decimal_prefix(s, i),
        decimal_prefix(s, k) >= 0,
    decreases k,
{
    if k > 0 {
        if k > i {
            lemma_decimal_grows(s, i, k - 1);
        } else {
            lemma_decimal_grows(s, k - 1, k - 1);
        }
    }
}

proof fn lemma_digit_run(s: Seq<u8>, i: int)
    requires
        0 <= i <= s.len(),
    ensures
        i <= digit_run(s, i) <= s.len(),
        forall|j: int| i <= j < digit_run(s, i) ==> is_digit(#[trigger] s[j]),
    decreases s.len() - i,
{
    if i < s.len() && is_digit(s[i]) {
        lemma_digit_run(s, i + 1);
    }
}

fn hex_digit_value(c: u8) -> (r: u8)
    requires
        is_hex_digit(c),
    ensures
        r as int == hex_value(c),
        r < 16,
{
    if c <= 0x39 {
        c - 0x30
    } else if c <= 0x46 {
        c - 0x41 + 10
    } else {
        c - 0x61 + 10
    }
}

/// Reads a listing line into its offset and its bytes, or `None` when it is
/// malformed or its offset exceeds $FFFF.
pub fn parse_listing_line(s: &Vec<u8>) -> (r: Option<(u16, Vec<u8>)>)
    ensures
        match listing_line(s@) {
            Some((offset, bytes)) => match r {
                Some((o, b)) => o as int == offset && b@ == bytes,
                None => false,
            },
            None => r is None,
        },
{
    let mut k: usize = 0;
    let mut offset: u32 = 0;
    while k < s.len() && s[k] >= 0x30 && s[k] <= 0x39
        invariant
            k <= s@.len(),
            digit_run(s@, k as int) == digit_run(s@, 0),
            forall|j: int| 0 <= j < k ==> is_digit(#[trigger] s@[j]),
            offset as int == decimal_prefix(s@, k as int),
            offset <= 0xFFFF,
        decreases s@.len() - k,
    {
        let next = offset * 10 + (s[k] - 0x30) as u32;
        if next > 0xFFFF {
            proof {
                assert(digit_run(s@, (k + 1) as int) == digit_run(s@, 0));
                lemma_digit_run(s@, (k + 1) as int);
                let end = digit_run(s@, 0);
                assert forall|j: int| 0 <= j < end implies is_digit(#[trigger] s@[j]) by {
                    if j > k {
                        assert(is_digit(s@[j]));
                    }
                }
                lemma_decimal_grows(s@, (k + 1) as int, end);
            }
            return None;
        }
        offset = next;
        k = k + 1;
    }
    if k == 0 || k >= s.len() || s[k] != 0x3A {
        return None;
    }
    let mut bytes: Vec<u8> = Vec::new();
    let mut p: usize = k + 1;
    let ghost start = (k + 1) as int;
    while p < s.len()
        invariant
            start <= p <= s@.len(),
            listing_line(s@) == (match listing_bytes(s@, start) {
                Some(b) => Some((offset as int, b)),
                None => None::<(int, Seq<u8>)>,
            }),
            listing_bytes(s@, start) == (match listing_bytes(s@, p as int) {
                Some(rest) => Some(bytes@ + rest),
                None => None::<Seq<u8>>,
            }),
        decreases s@.len() - p,
    {
        if s[p] != 0x20 {
            return None;
        }
        let mut q: usize = p + 1;
        while q < s.len() && is_hex(s[q])
            invariant
                p + 1 <= q <= s@.len(),
                hex_run(s@, q as int) == hex_run(s@, p + 1),
                forall|j: int| p + 1 <= j < q ==> is_hex_digit(#[trigger] s@[j]),
            decreases s@.len() - q,
        {
            q = q + 1;
        }
        let n = q - (p + 1);
        if n < 1 || n > 2 {
            return None;
        }
        let high = hex_digit_value(s[p + 1]);
        let value = if n == 1 {
            high
        } else {
            high * 16 + hex_digit_value(s[p + 2])
        };
        proof {
            let rest = listing_bytes(s@, q as int);
            assert(listing_bytes(s@, p as int) == match rest {
                Some(r) => Some(seq![value] + r),
                None => None::<Seq<u8>>,
            });
            if let Some(r) = rest {
                assert(bytes@ + (seq![value] + r) =~= bytes@.push(value) + r);
            }
        }
        bytes.push(value);
        p = q;
    }
    Some((offset as u16, bytes))
}

fn is_hex(c: u8) -> (r: bool)
    ensures
        r == is_hex_digit(c),
{
    (c >= 0x30 && c <= 0x39) || (c >= 0x41 && c <= 0x46) || (c >= 0x61 && c <= 0x66)
}

impl Computer {
    /// Loads one line of a program listing: its bytes go to memory from its
    /// offset on, and PC is set to the offset when PC is still zero. A
    /// malformed line, or one whose bytes run past $FFFF, is refused with
    /// nothing changed.
    pub fn load_listing_line(&mut self, line: &Vec<u8>) -> (r: Result<(), LoadError>)
        requires
            old(self).wf(),
        ensures
            final(self).wf(),
            final(self).clock == old(self).clock,
            final(self).address_space.ppu@ == old(self).address_space.ppu@,
            match listing_line(line@) {
                None => {
                    &&& r == Err::<(), LoadError>(LoadError::Malformed)
                    &&& final(self).cpu == old(self).cpu
                    &&& final(self).address_space.bytes@ == old(self).address_space.bytes@
                },
                Some((offset, bytes)) => if offset + bytes.len() > CPU_MEMORY_SIZE {
                    &&& r == Err::<(), LoadError>(LoadError::OutOfMemory)
                    &&& final(self).cpu == old(self).cpu
                    &&& final(self).address_space.bytes@ == old(self).address_space.bytes@
                } else {
                    &&& r == Ok::<(), LoadError>(())
                    &&& final(self).cpu == (crate::computer::cpu::CPU {
                        pc: if old(self).cpu.pc == 0 { offset as u16 } else { old(self).cpu.pc },
                        ..old(self).cpu
                    })
                    &&& final(self).address_space.bytes@ == old(self).address_space.bytes@.take(
                        offset,
                    ) + bytes + old(self).address_space.bytes@.skip(offset + bytes.len())
                },
            },
    {
        let (offset, bytes) = match parse_listing_line(line) {
            Some(parsed) => parsed,
            None => return Err(LoadError::Malformed),
        };
        if bytes.len() > CPU_MEMORY_SIZE - offset as usize {
            return Err(LoadError::OutOfMemory);
        }
        let pc = if self.cpu.pc == 0 {
            offset
        } else {
            self.cpu.pc
        };
        self.load_image(&bytes, offset as usize, pc);
        proof {
            assert(bytes@.take(bytes@.len() as int) =~= bytes@);
        }
        Ok(())
    }
}

} // verus!
