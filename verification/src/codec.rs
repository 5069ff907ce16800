use vstd::prelude::*;

verus! {

/// Every byte XORed with the same constant.
pub open spec fn xor_const_spec(data: Seq<u8>, oper: u8) -> Seq<u8> {
    data.map(|_i: int, b: u8| b ^ oper)
}

/// Byte `i` XORed with byte `i mod key.len()` of the key.
pub open spec fn xor_cyclic_spec(data: Seq<u8>, key: Seq<u8>) -> Seq<u8>
    recommends
        key.len() > 0,
{
    data.map(|i: int, b: u8| b ^ key[i % (key.len() as int)])
}

/// XOR every byte of `data` with the constant `oper`.
pub fn xor(data: Vec<u8>, oper: u8) -> (r: Vec<u8>)
    ensures
        r@ == xor_const_spec(data@, oper),
{
    let mut out: Vec<u8> = Vec::new();
    let mut i: usize = 0;
    while i < data.len()
        invariant
            i <= data@.len(),
            out@.len() == i,
            forall|k: int| 0 <= k < i ==> out@[k] == data@[k] ^ oper,
        decreases data@.len() - i,
    {
        out.push(data[i] ^ oper);
        i = i + 1;
    }
    proof {
        assert(out@ =~= xor_const_spec(data@, oper));
    }
    out
}

/// XOR `data` against `key` repeated cyclically.
pub fn xor_iter(data: Vec<u8>, key: &Vec<u8>) -> (r: Vec<u8>)
    requires
        key@.len() > 0,
    ensures
        r@ == xor_cyclic_spec(data@, key@),
{
    let mut out: Vec<u8> = Vec::new();
    let mut i: usize = 0;
    while i < data.len()
        invariant
            key@.len() > 0,
            i <= data@.len(),
            out@.len() == i,
            forall|k: int| 0 <= k < i ==> out@[k] == data@[k] ^ key@[k % (key@.len() as int)],
        decreases data@.len() - i,
    {
        out.push(data[i] ^ key[i % key.len()]);
        i = i + 1;
    }
    proof {
        assert(out@ =~= xor_cyclic_spec(data@, key@));
    }
    out
}

/// The constant XOR is an involution: applying it twice gives the input back.
pub proof fn lemma_xor_const_involution(data: Seq<u8>, oper: u8)
    ensures
        xor_const_spec(xor_const_spec(data, oper), oper) == data,
{
    let once = xor_const_spec(data, oper);
    assert forall|k: int| 0 <= k < data.len() implies xor_const_spec(once, oper)[k] == data[k] by {
        let b = data[k];
        assert((b ^ oper) ^ oper == b) by (bit_vector);
    }
    assert(xor_const_spec(xor_const_spec(data, oper), oper) =~= data);
}

/// The cyclic XOR is an involution: applying it twice against the same key
/// gives the input back, for any data and any non-empty key.
pub proof fn lemma_xor_cyclic_involution(data: Seq<u8>, key: Seq<u8>)
    requires
        key.len() > 0,
    ensures
        xor_cyclic_spec(xor_cyclic_spec(data, key), key) == data,
{
    let once = xor_cyclic_spec(data, key);
    assert forall|k: int| 0 <= k < data.len() implies xor_cyclic_spec(once, key)[k] == data[k] by {
        let b = data[k];
        let o = key[k % (key.len() as int)];
        assert((b ^ o) ^ o == b) by (bit_vector);
    }
    assert(xor_cyclic_spec(xor_cyclic_spec(data, key), key) =~= data);
}

} // verus!
