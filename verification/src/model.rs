//! The mathematical model of the EksBlowfish key schedule and of the bcrypt
//! primitive built on it. Every executable routine in this crate is specified
//! against the functions of this module.

use vstd::prelude::*;

use crate::tables::init_state;

verus! {

/// A Blowfish state: the 18-word subkey array `P` and the four 256-word
/// S-boxes.
#[verifier::ext_equal]
pub ghost struct BfState {
    pub p: Seq<u32>,
    pub s0: Seq<u32>,
    pub s1: Seq<u32>,
    pub s2: Seq<u32>,
    pub s3: Seq<u32>,
}

/// Well-formedness of a Blowfish state: the arrays have exactly their
/// canonical lengths. The word values themselves are arbitrary.
pub open spec fn st_wf(m: BfState) -> bool {
    &&& m.p.len() == 18
    &&& m.s0.len() == 256
    &&& m.s1.len() == 256
    &&& m.s2.len() == 256
    &&& m.s3.len() == 256
}

/// The four big-endian bytes of a word, masked, are below 256.
pub(crate) proof fn lemma_byte_bounds(x: u32)
    by (bit_vector)
    ensures
        (x >> 24) & 0xff < 256,
        (x >> 16) & 0xff < 256,
        (x >> 8) & 0xff < 256,
        x & 0xff < 256,
{
}

/// The Feistel round function `F`: the input is split into its four
/// big-endian bytes, which index the four S-boxes; the looked-up words are
/// combined with addition modulo 2^32 and exclusive or.
pub open spec fn spec_f(m: BfState, x: u32) -> u32 {
    let a = m.s0[((x >> 24) & 0xff) as int];
    let b = m.s1[((x >> 16) & 0xff) as int];
    let c = m.s2[((x >> 8) & 0xff) as int];
    let d = m.s3[(x & 0xff) as int];
    (a.wrapping_add(b) ^ c).wrapping_add(d)
}

/// The first `n` pairs of the 16 Feistel rounds of an encipher operation
/// (`n` ranges over 0..=8). Each pair mixes two consecutive subkey words and
/// applies `F` twice.
pub open spec fn spec_rounds(m: BfState, l: u32, r: u32, n: int) -> (u32, u32)
    decreases n,
{
    if n <= 0 {
        (l, r)
    } else {
        let prev = spec_rounds(m, l, r, n - 1);
        let i = 2 * (n - 1);
        let l1 = prev.0 ^ m.p[i];
        let r1 = prev.1 ^ spec_f(m, l1);
        let r2 = r1 ^ m.p[i + 1];
        let l2 = l1 ^ spec_f(m, r2);
        (l2, r2)
    }
}

/// Enciphering one 64-bit block `(l, r)`: 16 Feistel rounds, the two final
/// subkey words, and the final swap. The result is `(r', l')`, swapped; the
/// swap is part of the contract.
pub open spec fn spec_encipher(m: BfState, l: u32, r: u32) -> (u32, u32) {
    let rounds = spec_rounds(m, l, r, 8);
    (rounds.1 ^ m.p[17], rounds.0 ^ m.p[16])
}

/// Byte `t` of the infinite stream `key[0], ..., key[n-1], 0, key[0], ...`:
/// the key bytes followed by one NUL byte, repeating with period `n + 1`.
/// An empty key yields the zero byte forever.
pub open spec fn key_byte(key: Seq<u8>, t: int) -> u8 {
    if t % (key.len() as int + 1) == key.len() {
        0
    } else {
        key[t % (key.len() as int + 1)]
    }
}

/// Four bytes assembled as a big-endian 32-bit word.
pub open spec fn be_word(b0: u8, b1: u8, b2: u8, b3: u8) -> u32 {
    ((b0 as u32) << 24) | ((b1 as u32) << 16) | ((b2 as u32) << 8) | (b3 as u32)
}

/// Word `i` of the cycled key stream: bytes `4i .. 4i+3` of the stream,
/// big-endian.
pub open spec fn key_word(key: Seq<u8>, i: int) -> u32 {
    be_word(
        key_byte(key, 4 * i),
        key_byte(key, 4 * i + 1),
        key_byte(key, 4 * i + 2),
        key_byte(key, 4 * i + 3),
    )
}

/// Mixing a key into the subkey array: each of the 18 P-words is XORed with
/// the next big-endian word drawn from the cycled key stream. The S-boxes
/// are untouched.
pub open spec fn spec_expand_key(m: BfState, key: Seq<u8>) -> BfState {
    BfState {
        p: Seq::new(18, |i: int| m.p[i] ^ key_word(key, i)),
        s0: m.s0,
        s1: m.s1,
        s2: m.s2,
        s3: m.s3,
    }
}

/// S-box `j` of a state.
pub open spec fn box_of(m: BfState, j: int) -> Seq<u32> {
    if j == 0 {
        m.s0
    } else if j == 1 {
        m.s1
    } else if j == 2 {
        m.s2
    } else {
        m.s3
    }
}

/// The state with S-box `j` replaced.
pub open spec fn with_box(m: BfState, j: int, s: Seq<u32>) -> BfState {
    if j == 0 {
        BfState { p: m.p, s0: s, s1: m.s1, s2: m.s2, s3: m.s3 }
    } else if j == 1 {
        BfState { p: m.p, s0: m.s0, s1: s, s2: m.s2, s3: m.s3 }
    } else if j == 2 {
        BfState { p: m.p, s0: m.s0, s1: m.s1, s2: s, s3: m.s3 }
    } else {
        BfState { p: m.p, s0: m.s0, s1: m.s1, s2: m.s2, s3: s }
    }
}

/// The running triple of the expand-state walk: the state together with the
/// two running data words `(L, R)`.
#[verifier::ext_equal]
pub ghost struct EdState {
    pub m: BfState,
    pub l: u32,
    pub r: u32,
}

/// The P-array phase of `expandstate_data` after `q` of its nine pairs
/// (`q` ranges over 0..=9). Before each encipher, `data[i mod 4]` and
/// `data[i mod 4 + 1]` are XORed into the running words, where `i = 2(q-1)`
/// is the even word index; the encipher output is stored into
/// `P[i], P[i+1]` and becomes the running pair.
pub open spec fn ed_p_iter(m0: BfState, data: Seq<u32>, q: int) -> EdState
    decreases q,
{
    if q <= 0 {
        EdState { m: m0, l: 0u32, r: 0u32 }
    } else {
        let prev = ed_p_iter(m0, data, q - 1);
        let i = 2 * (q - 1);
        let l1 = prev.l ^ data[i % 4];
        let r1 = prev.r ^ data[i % 4 + 1];
        let e = spec_encipher(prev.m, l1, r1);
        EdState {
            m: BfState {
                p: prev.m.p.update(i, e.0).update(i + 1, e.1),
                s0: prev.m.s0,
                s1: prev.m.s1,
                s2: prev.m.s2,
                s3: prev.m.s3,
            },
            l: e.0,
            r: e.1,
        }
    }
}

/// The walk over S-box `j` after `q` of its 128 pairs (`q` ranges over
/// 0..=128). Before each encipher, `data[(k+2) mod 4]` and
/// `data[(k+2) mod 4 + 1]` are XORed into the running words, where
/// `k = 2(q-1)` is the even entry index — note the `+2` offset relative to
/// the P-array phase; the encipher output is stored into
/// `S[j][k], S[j][k+1]` and becomes the running pair.
pub open spec fn ed_s_iter(start: EdState, data: Seq<u32>, j: int, q: int) -> EdState
    decreases q,
{
    if q <= 0 {
        start
    } else {
        let prev = ed_s_iter(start, data, j, q - 1);
        let k = 2 * (q - 1);
        let l1 = prev.l ^ data[(k + 2) % 4];
        let r1 = prev.r ^ data[(k + 2) % 4 + 1];
        let e = spec_encipher(prev.m, l1, r1);
        EdState {
            m: with_box(prev.m, j, box_of(prev.m, j).update(k, e.0).update(k + 1, e.1)),
            l: e.0,
            r: e.1,
        }
    }
}

/// The S-box phase of `expandstate_data` after the first `j` boxes
/// (`j` ranges over 0..=4), each box walked over its 128 pairs.
pub open spec fn ed_boxes(start: EdState, data: Seq<u32>, j: int) -> EdState
    decreases j,
{
    if j <= 0 {
        start
    } else {
        ed_s_iter(ed_boxes(start, data, j - 1), data, j - 1, 128)
    }
}

/// The full `expandstate_data` operator: starting from running words
/// `(0, 0)`, re-derive the P-array (nine pairs) and then all four S-boxes
/// (128 pairs each) by a walking encipher, XORing the four data words in
/// before every encipher.
pub open spec fn spec_expand_data(m: BfState, data: Seq<u32>) -> BfState {
    ed_boxes(ed_p_iter(m, data, 9), data, 4).m
}

/// The all-zero data block.
pub open spec fn zero_data() -> Seq<u32> {
    seq![0u32, 0u32, 0u32, 0u32]
}

/// The `expandstate_data0` operator: `expandstate_data` with an implicit
/// all-zero data block, so no external words are XORed in and the running
/// pair evolves by encipher outputs alone.
pub open spec fn spec_expand_data0(m: BfState) -> BfState {
    spec_expand_data(m, zero_data())
}

/// One round of the expensive key schedule: mix the key in, churn with a
/// zero block, XOR the salt words into the P-array, churn again.
pub open spec fn spec_eks_round(m: BfState, key: Seq<u8>, salt: Seq<u32>) -> BfState {
    let a = spec_expand_key(m, key);
    let b = spec_expand_data0(a);
    let c = BfState {
        p: Seq::new(18, |i: int| b.p[i] ^ salt[i % 4]),
        s0: b.s0,
        s1: b.s1,
        s2: b.s2,
        s3: b.s3,
    };
    spec_expand_data0(c)
}

/// `n` rounds of the expensive key schedule.
pub open spec fn spec_eks_iter(m: BfState, key: Seq<u8>, salt: Seq<u32>, n: int) -> BfState
    decreases n,
{
    if n <= 0 {
        m
    } else {
        spec_eks_round(spec_eks_iter(m, key, salt, n - 1), key, salt)
    }
}

/// The constant message "OrpheanBeholderScryDoubt" as six big-endian words.
pub open spec fn spec_msg_init() -> (u32, u32, u32, u32, u32, u32) {
    (0x4f727068u32, 0x65616e42u32, 0x65686f6cu32, 0x64657253u32, 0x63727944u32, 0x6f756274u32)
}

/// One pass over the message: each of its three 64-bit blocks is enciphered
/// once.
pub open spec fn spec_msg_step(
    m: BfState,
    t: (u32, u32, u32, u32, u32, u32),
) -> (u32, u32, u32, u32, u32, u32) {
    let e0 = spec_encipher(m, t.0, t.1);
    let e1 = spec_encipher(m, t.2, t.3);
    let e2 = spec_encipher(m, t.4, t.5);
    (e0.0, e0.1, e1.0, e1.1, e2.0, e2.1)
}

/// The message after `n` passes, starting from the constant message.
pub open spec fn spec_msg_iter(m: BfState, n: int) -> (u32, u32, u32, u32, u32, u32)
    decreases n,
{
    if n <= 0 {
        spec_msg_init()
    } else {
        spec_msg_step(m, spec_msg_iter(m, n - 1))
    }
}

/// The 23 output bytes: the first five words serialised big-endian, then
/// only the top three bytes of the sixth word — bcrypt's historical
/// truncation of the final word.
pub open spec fn spec_hash_bytes(t: (u32, u32, u32, u32, u32, u32)) -> Seq<u8> {
    seq![
        ((t.0 >> 24) & 0xff) as u8,
        ((t.0 >> 16) & 0xff) as u8,
        ((t.0 >> 8) & 0xff) as u8,
        (t.0 & 0xff) as u8,
        ((t.1 >> 24) & 0xff) as u8,
        ((t.1 >> 16) & 0xff) as u8,
        ((t.1 >> 8) & 0xff) as u8,
        (t.1 & 0xff) as u8,
        ((t.2 >> 24) & 0xff) as u8,
        ((t.2 >> 16) & 0xff) as u8,
        ((t.2 >> 8) & 0xff) as u8,
        (t.2 & 0xff) as u8,
        ((t.3 >> 24) & 0xff) as u8,
        ((t.3 >> 16) & 0xff) as u8,
        ((t.3 >> 8) & 0xff) as u8,
        (t.3 & 0xff) as u8,
        ((t.4 >> 24) & 0xff) as u8,
        ((t.4 >> 16) & 0xff) as u8,
        ((t.4 >> 8) & 0xff) as u8,
        (t.4 & 0xff) as u8,
        ((t.5 >> 24) & 0xff) as u8,
        ((t.5 >> 16) & 0xff) as u8,
        ((t.5 >> 8) & 0xff) as u8,
    ]
}

/// The raw bcrypt hash of `(key, salt, cost)`: a pure function of its three
/// arguments. The fresh canonical state is mixed with key and salt once,
/// churned for `2^cost` rounds of the expensive key schedule, and the
/// constant message is enciphered 64 times under the resulting state.
pub open spec fn spec_bcrypt(key: Seq<u8>, salt: Seq<u32>, cost: u32) -> Seq<u8> {
    let m1 = spec_expand_key(init_state(), key);
    let m2 = spec_expand_data(m1, salt);
    let mf = spec_eks_iter(m2, key, salt, (1u32 << cost) as int);
    spec_hash_bytes(spec_msg_iter(mf, 64))
}

} // verus!
