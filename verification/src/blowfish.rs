//! The executable Blowfish core: the cipher state, the Feistel round
//! function, the block encipher, and the three expand-state operators of the
//! expensive key schedule.

use vstd::prelude::*;

use crate::model::BfState;
use crate::model::box_of;
use crate::model::ed_boxes;
use crate::model::ed_p_iter;
use crate::model::ed_s_iter;
use crate::model::key_byte;
use crate::model::lemma_byte_bounds;
use crate::model::key_word;
use crate::model::spec_encipher;
use crate::model::spec_expand_data;
use crate::model::spec_expand_data0;
use crate::model::spec_expand_key;
use crate::model::spec_f;
use crate::model::spec_rounds;
use crate::model::st_wf;
use crate::model::with_box;
use crate::model::zero_data;
use crate::model::EdState;
use crate::tables;
use crate::tables::init_state;

verus! {

/// A mutable Blowfish state: the 18-word subkey array and the four 256-word
/// S-boxes, about 4.25 KiB, held directly on the stack.
pub struct Blowfish {
    pub p: [u32; 18],
    pub s0: [u32; 256],
    pub s1: [u32; 256],
    pub s2: [u32; 256],
    pub s3: [u32; 256],
}

impl View for Blowfish {
    type V = BfState;

    open spec fn view(&self) -> BfState {
        BfState { p: self.p@, s0: self.s0@, s1: self.s1@, s2: self.s2@, s3: self.s3@ }
    }
}

impl Blowfish {
    pub open spec fn wf(&self) -> bool {
        st_wf(self@)
    }

    /// A fresh copy of the canonical initial state.
    pub(crate) fn initial() -> (c: Blowfish)
        ensures
            c.wf(),
            c@ == init_state(),
    {
        Blowfish {
            p: tables::p_table(),
            s0: tables::s0_table(),
            s1: tables::s1_table(),
            s2: tables::s2_table(),
            s3: tables::s3_table(),
        }
    }
}

/// The Feistel round function `F`.
fn f(c: &Blowfish, x: u32) -> (r: u32)
    requires
        c.wf(),
    ensures
        r == spec_f(c@, x),
{
    proof {
        lemma_byte_bounds(x);
    }
    let b0 = ((x >> 24) & 0xff) as usize;
    let b1 = ((x >> 16) & 0xff) as usize;
    let b2 = ((x >> 8) & 0xff) as usize;
    let b3 = (x & 0xff) as usize;
    let h = c.s0[b0].wrapping_add(c.s1[b1]);
    (h ^ c.s2[b2]).wrapping_add(c.s3[b3])
}

/// Enciphers the 64-bit block `(l, r)`: 16 Feistel rounds, the two last
/// subkey words, and the final swap.
pub(crate) fn blowfish_encipher(c: &Blowfish, l: u32, r: u32) -> (out: (u32, u32))
    requires
        c.wf(),
    ensures
        out == spec_encipher(c@, l, r),
{
    let mut dl = l;
    let mut dr = r;
    let mut q: usize = 0;
    while q < 8
        invariant
            c.wf(),
            q <= 8,
            (dl, dr) == spec_rounds(c@, l, r, q as int),
        decreases 8 - q,
    {
        let i = 2 * q;
        dl = dl ^ c.p[i];
        dr = dr ^ f(c, dl);
        dr = dr ^ c.p[i + 1];
        dl = dl ^ f(c, dr);
        q += 1;
    }
    (dr ^ c.p[17], dl ^ c.p[16])
}

/// Byte `t` of the cycled key stream: the key bytes, then one NUL byte,
/// repeating. An empty key yields NUL bytes forever.
fn key_cycle_byte(key: &[u8], t: usize) -> (b: u8)
    requires
        key@.len() <= 72,
    ensures
        b == key_byte(key@, t as int),
{
    let n = key.len();
    let idx = t % (n + 1);
    if idx == n {
        0
    } else {
        key[idx]
    }
}

/// Reads word `i` of the cycled key stream: four consecutive stream bytes
/// assembled as a big-endian 32-bit word.
fn read_u32_be(key: &[u8], i: usize) -> (w: u32)
    requires
        key@.len() <= 72,
        i < 18,
    ensures
        w == key_word(key@, i as int),
{
    let b0 = key_cycle_byte(key, 4 * i);
    let b1 = key_cycle_byte(key, 4 * i + 1);
    let b2 = key_cycle_byte(key, 4 * i + 2);
    let b3 = key_cycle_byte(key, 4 * i + 3);
    ((b0 as u32) << 24) | ((b1 as u32) << 16) | ((b2 as u32) << 8) | (b3 as u32)
}

/// XORs one fresh pass of the cycled key stream into the subkey array: each
/// of the 18 P-words takes the next big-endian stream word. The S-boxes are
/// untouched.
pub(crate) fn blowfish_expandstate_key(c: &mut Blowfish, key: &[u8])
    requires
        old(c).wf(),
        key@.len() <= 72,
    ensures
        final(c).wf(),
        final(c)@ == spec_expand_key(old(c)@, key@),
{
    let ghost m0 = c@;
    let mut i: usize = 0;
    while i < 18
        invariant
            c.wf(),
            key@.len() <= 72,
            i <= 18,
            c@.s0 == m0.s0,
            c@.s1 == m0.s1,
            c@.s2 == m0.s2,
            c@.s3 == m0.s3,
            forall|j: int| 0 <= j < i ==> c@.p[j] == m0.p[j] ^ key_word(key@, j),
            forall|j: int| i <= j < 18 ==> c@.p[j] == m0.p[j],
        decreases 18 - i,
    {
        let w = read_u32_be(key, i);
        let cur = c.p[i];
        c.p[i] = cur ^ w;
        i += 1;
    }
    proof {
        assert(c@ =~~= spec_expand_key(m0, key@));
    }
}

/// Stores an enciphered pair into entries `k` and `k + 1` of S-box `j`.
fn store_box_pair(c: &mut Blowfish, j: usize, k: usize, a: u32, b: u32)
    requires
        old(c).wf(),
        j < 4,
        k < 255,
    ensures
        final(c).wf(),
        final(c)@ == (with_box(
            old(c)@,
            j as int,
            box_of(old(c)@, j as int).update(k as int, a).update(k as int + 1, b),
        )),
{
    if j == 0 {
        c.s0[k] = a;
        c.s0[k + 1] = b;
    } else if j == 1 {
        c.s1[k] = a;
        c.s1[k + 1] = b;
    } else if j == 2 {
        c.s2[k] = a;
        c.s2[k + 1] = b;
    } else {
        c.s3[k] = a;
        c.s3[k + 1] = b;
    }
}

/// An even index below 256 has remainder 0 or 2 modulo 4, after the offset
/// of 2 as well.
proof fn lemma_even_mod4(k: int)
    requires
        k % 2 == 0,
        0 <= k < 256,
    ensures
        k % 4 == 0 || k % 4 == 2,
        (k + 2) % 4 == 0 || (k + 2) % 4 == 2,
{
}

/// Re-derives the subkey array and all four S-boxes by a walking encipher
/// of the four data words (the salt): starting from the running pair
/// `(0, 0)`, the data words are XORed in before each encipher and the
/// output overwrites the next state pair.
pub(crate) fn blowfish_expandstate_data(c: &mut Blowfish, data: &[u32; 4])
    requires
        old(c).wf(),
    ensures
        final(c).wf(),
        final(c)@ == spec_expand_data(old(c)@, data@),
{
    let ghost m0 = c@;
    let mut dl: u32 = 0;
    let mut dr: u32 = 0;

    let mut q: usize = 0;
    while q < 9
        invariant
            c.wf(),
            q <= 9,
            ed_p_iter(m0, data@, q as int) == (EdState { m: c@, l: dl, r: dr }),
        decreases 9 - q,
    {
        let i = 2 * q;
        proof {
            lemma_even_mod4(i as int);
        }
        dl = dl ^ data[i % 4];
        dr = dr ^ data[i % 4 + 1];
        let e = blowfish_encipher(c, dl, dr);
        dl = e.0;
        dr = e.1;
        c.p[i] = dl;
        c.p[i + 1] = dr;
        q += 1;
        proof {
            assert(ed_p_iter(m0, data@, q as int) =~~= (EdState { m: c@, l: dl, r: dr }));
        }
    }

    let ghost ph1 = ed_p_iter(m0, data@, 9);
    let mut j: usize = 0;
    while j < 4
        invariant
            c.wf(),
            j <= 4,
            ph1 == ed_p_iter(m0, data@, 9),
            ed_boxes(ph1, data@, j as int) == (EdState { m: c@, l: dl, r: dr }),
        decreases 4 - j,
    {
        let ghost bstart = ed_boxes(ph1, data@, j as int);
        let mut k: usize = 0;
        while k < 256
            invariant
                c.wf(),
                j < 4,
                k <= 256,
                k % 2 == 0,
                bstart == ed_boxes(ph1, data@, j as int),
                ed_s_iter(bstart, data@, j as int, k as int / 2) == (EdState {
                    m: c@,
                    l: dl,
                    r: dr,
                }),
            decreases 256 - k,
        {
            proof {
                lemma_even_mod4(k as int);
            }
            let idx = (k + 2) % 4;
            dl = dl ^ data[idx];
            dr = dr ^ data[idx + 1];
            let e = blowfish_encipher(c, dl, dr);
            dl = e.0;
            dr = e.1;
            store_box_pair(c, j, k, dl, dr);
            k += 2;
            proof {
                assert(ed_s_iter(bstart, data@, j as int, k as int / 2) =~~= (EdState {
                    m: c@,
                    l: dl,
                    r: dr,
                }));
            }
        }
        j += 1;
        proof {
            assert(ed_boxes(ph1, data@, j as int) == ed_s_iter(bstart, data@, j as int - 1, 128));
        }
    }
}

/// The `expandstate_data0` operator: the same walking encipher with an
/// implicit all-zero data block, so the running pair evolves by encipher
/// outputs alone.
pub(crate) fn blowfish_expandstate_data0(c: &mut Blowfish)
    requires
        old(c).wf(),
    ensures
        final(c).wf(),
        final(c)@ == spec_expand_data0(old(c)@),
{
    let zero: [u32; 4] = [0, 0, 0, 0];
    proof {
        assert(zero@ =~= zero_data());
    }
    blowfish_expandstate_data(c, &zero);
}

} // verus!
