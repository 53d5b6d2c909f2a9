//! The bcrypt password-hashing primitive: given a secret key of at most 72
//! non-NUL bytes, a 16-byte salt, and a work factor, it produces the raw
//! 23-byte bcrypt output through the expensive EksBlowfish key schedule.
//! Textual encodings of the output, password comparison, and salt generation
//! live above this core; callers hand in raw bytes and receive raw bytes.

use vstd::prelude::*;

mod blowfish;
mod model;
mod salt;
mod tables;
mod work_factor;

pub use model::spec_bcrypt;
pub use salt::lemma_salt_round_trip;
pub use salt::lemma_salt_words_round_trip;
pub use salt::salt_bytes;
pub use salt::salt_words;
pub use salt::Salt;
pub use work_factor::lemma_linear_rounds_is_pow2;
pub use work_factor::WorkFactor;

use crate::blowfish::blowfish_expandstate_data;
use crate::blowfish::blowfish_expandstate_data0;
use crate::blowfish::blowfish_expandstate_key;
use crate::blowfish::blowfish_encipher;
use crate::blowfish::Blowfish;
use crate::model::lemma_byte_bounds;
use crate::model::spec_eks_iter;
use crate::model::spec_eks_round;
use crate::model::spec_expand_data;
use crate::model::spec_expand_key;
use crate::model::spec_hash_bytes;
use crate::model::spec_msg_iter;
use crate::model::BfState;
use crate::tables::init_state;

verus! {

/// The maximum number of bytes in a bcrypt key.
pub const KEY_SIZE_MAX: usize = 72;

/// The number of bytes in a bcrypt salt.
pub const SALT_SIZE: usize = 16;

/// The number of bytes in a bcrypt hash.
pub const HASH_SIZE: usize = 23;

/// A bcrypt hashing error.
#[derive(Clone, Copy, Debug, Eq, Hash, PartialEq)]
pub enum BcryptError {
    /// The key was longer than the limit of 72 bytes.
    Length,
    /// The key contained a 0 byte.
    ZeroByte,
}

/// Whether a key contains a 0 byte.
pub open spec fn has_zero_byte(key: Seq<u8>) -> bool {
    exists|i: int| 0 <= i < key.len() && key[i] == 0
}

/// Hashes a key and salt with bcrypt according to a work factor. The key
/// can't be longer than 72 bytes and can't contain a 0 byte; every other
/// input succeeds, and the 23-byte output is a pure function of the key,
/// the salt and the work factor.
pub fn bcrypt(key: &[u8], salt: &Salt, work_factor: WorkFactor) -> (r: Result<
    [u8; HASH_SIZE],
    BcryptError,
>)
    ensures
        key@.len() > KEY_SIZE_MAX ==> (r matches Err(e) && e == BcryptError::Length),
        key@.len() <= KEY_SIZE_MAX && has_zero_byte(key@) ==> (r matches Err(e) && e
            == BcryptError::ZeroByte),
        key@.len() <= KEY_SIZE_MAX && !has_zero_byte(key@) ==> (r matches Ok(h) && h@
            == spec_bcrypt(key@, salt@, work_factor.spec_log_rounds())),
{
    if key.len() > KEY_SIZE_MAX {
        return Err(BcryptError::Length);
    }

    let mut i: usize = 0;
    while i < key.len()
        invariant
            i <= key@.len(),
            key@.len() <= KEY_SIZE_MAX,
            forall|j: int| 0 <= j < i ==> key@[j] != 0,
        decreases key@.len() - i,
    {
        if key[i] == 0 {
            return Err(BcryptError::ZeroByte);
        }
        i += 1;
    }

    let mut state = Blowfish::initial();
    blowfish_expandstate_key(&mut state, key);
    blowfish_expandstate_data(&mut state, salt.words());

    let ghost m2 = state@;
    let rounds = work_factor.linear_rounds();
    let mut round: u32 = 0;
    while round < rounds
        invariant
            state.wf(),
            round <= rounds,
            key@.len() <= KEY_SIZE_MAX,
            state@ == spec_eks_iter(m2, key@, salt@, round as int),
        decreases rounds - round,
    {
        blowfish_expandstate_key(&mut state, key);
        blowfish_expandstate_data0(&mut state);

        let ghost mb = state@;
        let sw = *salt.words();
        let mut pi: usize = 0;
        while pi < 18
            invariant
                state.wf(),
                pi <= 18,
                state@.s0 == mb.s0,
                state@.s1 == mb.s1,
                state@.s2 == mb.s2,
                state@.s3 == mb.s3,
                sw@ == salt@,
                forall|j: int| 0 <= j < pi ==> state@.p[j] == mb.p[j] ^ salt@[j % 4],
                forall|j: int| pi <= j < 18 ==> state@.p[j] == mb.p[j],
            decreases 18 - pi,
        {
            let cur = state.p[pi];
            state.p[pi] = cur ^ sw[pi % 4];
            pi += 1;
        }
        proof {
            assert(state@ =~~= (BfState {
                p: Seq::new(18, |j: int| mb.p[j] ^ salt@[j % 4]),
                s0: mb.s0,
                s1: mb.s1,
                s2: mb.s2,
                s3: mb.s3,
            }));
        }

        blowfish_expandstate_data0(&mut state);
        round += 1;
        proof {
            assert(state@ == spec_eks_round(spec_eks_iter(m2, key@, salt@, round - 1), key@, salt@));
        }
    }

    let ghost mf = state@;
    let mut c0: u32 = 0x4f727068;  // "Orph"
    let mut c1: u32 = 0x65616e42;  // "eanB"
    let mut c2: u32 = 0x65686f6c;  // "ehol"
    let mut c3: u32 = 0x64657253;  // "derS"
    let mut c4: u32 = 0x63727944;  // "cryD"
    let mut c5: u32 = 0x6f756274;  // "oubt"
    let mut it: usize = 0;
    while it < 64
        invariant
            state.wf(),
            it <= 64,
            state@ == mf,
            (c0, c1, c2, c3, c4, c5) == spec_msg_iter(mf, it as int),
        decreases 64 - it,
    {
        let e0 = blowfish_encipher(&state, c0, c1);
        c0 = e0.0;
        c1 = e0.1;
        let e1 = blowfish_encipher(&state, c2, c3);
        c2 = e1.0;
        c3 = e1.1;
        let e2 = blowfish_encipher(&state, c4, c5);
        c4 = e2.0;
        c5 = e2.1;
        it += 1;
    }

    proof {
        lemma_byte_bounds(c0);
        lemma_byte_bounds(c1);
        lemma_byte_bounds(c2);
        lemma_byte_bounds(c3);
        lemma_byte_bounds(c4);
        lemma_byte_bounds(c5);
    }
    Ok(
        [
            ((c0 >> 24) & 0xff) as u8,
            ((c0 >> 16) & 0xff) as u8,
            ((c0 >> 8) & 0xff) as u8,
            (c0 & 0xff) as u8,
            ((c1 >> 24) & 0xff) as u8,
            ((c1 >> 16) & 0xff) as u8,
            ((c1 >> 8) & 0xff) as u8,
            (c1 & 0xff) as u8,
            ((c2 >> 24) & 0xff) as u8,
            ((c2 >> 16) & 0xff) as u8,
            ((c2 >> 8) & 0xff) as u8,
            (c2 & 0xff) as u8,
            ((c3 >> 24) & 0xff) as u8,
            ((c3 >> 16) & 0xff) as u8,
            ((c3 >> 8) & 0xff) as u8,
            (c3 & 0xff) as u8,
            ((c4 >> 24) & 0xff) as u8,
            ((c4 >> 16) & 0xff) as u8,
            ((c4 >> 8) & 0xff) as u8,
            (c4 & 0xff) as u8,
            ((c5 >> 24) & 0xff) as u8,
            ((c5 >> 16) & 0xff) as u8,
            ((c5 >> 8) & 0xff) as u8,
        ],
    )
}

} // verus!
