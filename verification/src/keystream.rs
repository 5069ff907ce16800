use vstd::prelude::*;

verus! {

/// The initial permutation 0, 1, ..., 255.
pub open spec fn ksa_init() -> Seq<u8> {
    Seq::new(256, |i: int| i as u8)
}

/// One key-scheduling step: advance `j` and swap `s[i]` with `s[j]`.
pub open spec fn ksa_step(s: Seq<u8>, j: int, key: Seq<u8>, i: int) -> (Seq<u8>, int)
    recommends
        s.len() == 256,
        0 <= i < 256,
        0 <= j < 256,
        key.len() > 0,
{
    let j2 = (j + s[i] + key[i % (key.len() as int)]) % 256;
    (s.update(i, s[j2]).update(j2, s[i]), j2)
}

/// The schedule state `(s, j)` after the first `n` of the 256 steps.
pub open spec fn ksa_state(key: Seq<u8>, n: nat) -> (Seq<u8>, int)
    decreases n,
{
    if n == 0 {
        (ksa_init(), 0)
    } else {
        let prev = ksa_state(key, (n - 1) as nat);
        ksa_step(prev.0, prev.1, key, n - 1)
    }
}

/// The schedule keeps the state well-formed: 256 entries, `j` in range.
pub proof fn lemma_ksa_state_wf(key: Seq<u8>, n: nat)
    requires
        key.len() > 0,
        n <= 256,
    ensures
        ksa_state(key, n).0.len() == 256,
        0 <= ksa_state(key, n).1 < 256,
    decreases n,
{
    if n > 0 {
        lemma_ksa_state_wf(key, (n - 1) as nat);
        let prev = ksa_state(key, (n - 1) as nat);
        let i = n - 1;
        let j2 = (prev.1 + prev.0[i] + key[i % (key.len() as int)]) % 256;
        assert(0 <= j2 < 256);
        assert(ksa_state(key, n).0 == prev.0.update(i, prev.0[j2]).update(j2, prev.0[i]));
    }
}

/// One byte of the output pass over the finished schedule state `s`.
/// The state is only read here: unlike standard RC4 output, no swaps occur.
pub open spec fn keystream_byte(s: Seq<u8>, i: int) -> u8
    recommends
        s.len() == 256,
        0 <= i < 256,
{
    let ii = (i + 1) % 256;
    let sj = s[(ii + s[ii]) % 256];
    s[(s[ii] + sj) % 256]
}

/// The 256-byte keystream that a seed derives.
pub open spec fn keystream_spec(key: Seq<u8>) -> Seq<u8>
    recommends
        key.len() > 0,
{
    Seq::new(256, |i: int| keystream_byte(ksa_state(key, 256).0, i))
}

/// Derive the fixed 256-byte keystream from a non-empty seed: RC4
/// key scheduling, then a read-only output pass over the final state.
pub fn rc4_keystream(key: &Vec<u8>) -> (r: Vec<u8>)
    requires
        key@.len() > 0,
    ensures
        r@ == keystream_spec(key@),
        r@.len() == 256,
{
    let mut s: Vec<u8> = Vec::new();
    let mut i: usize = 0;
    while i < 256
        invariant
            i <= 256,
            s@.len() == i,
            forall|k: int| 0 <= k < i ==> s@[k] == k as u8,
        decreases 256 - i,
    {
        s.push(i as u8);
        i = i + 1;
    }
    proof {
        assert(s@ =~= ksa_init());
    }

    let mut j: usize = 0;
    i = 0;
    while i < 256
        invariant
            key@.len() > 0,
            i <= 256,
            s@.len() == 256,
            j < 256,
            (s@, j as int) == ksa_state(key@, i as nat),
        decreases 256 - i,
    {
        let jn = (j + s[i] as usize + key[i % key.len()] as usize) % 256;
        let si = s[i];
        let sjn = s[jn];
        s[i] = sjn;
        s[jn] = si;
        proof {
            assert((s@, jn as int) == ksa_state(key@, (i + 1) as nat));
        }
        j = jn;
        i = i + 1;
    }
    proof {
        assert((s@, j as int) == ksa_state(key@, 256));
    }

    let ghost sfinal = s@;
    let mut out: Vec<u8> = Vec::new();
    i = 0;
    while i < 256
        invariant
            s@ == sfinal,
            sfinal.len() == 256,
            sfinal == ksa_state(key@, 256).0,
            i <= 256,
            out@.len() == i,
            forall|k: int| 0 <= k < i ==> out@[k] == keystream_byte(sfinal, k),
        decreases 256 - i,
    {
        let ii = (i + 1) % 256;
        let sii = s[ii] as usize;
        let sj = s[(ii + sii) % 256] as usize;
        out.push(s[(sii + sj) % 256]);
        i = i + 1;
    }
    proof {
        assert(out@ =~= keystream_spec(key@));
    }
    out
}

/// Deriving a keystream is deterministic and pure: the keystream is a
/// function of the seed alone, so equal seeds give equal keystreams.
pub proof fn lemma_keystream_deterministic(seed1: Seq<u8>, seed2: Seq<u8>)
    requires
        seed1 == seed2,
        seed1.len() > 0,
    ensures
        keystream_spec(seed1) == keystream_spec(seed2),
{
}

} // verus!
