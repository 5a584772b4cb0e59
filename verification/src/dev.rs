//! Development helpers: a trivial keyed checksum implementing the [`Mac`]
//! contract, so that the shared operations can be exercised end to end.
//!
//! `XorMac` is not a secure MAC — its tag is a plain XOR fold of key and
//! message — and exists only to demonstrate and test the contract.

use vstd::prelude::*;

use crate::{Mac, MacResult};

verus! {

/// XOR of all bytes of `s`, 0 for the empty sequence.
spec fn xor_fold(s: Seq<u8>) -> u8
    decreases s.len(),
{
    if s.len() == 0 {
        0u8
    } else {
        xor_fold(s.drop_last()) ^ s.last()
    }
}

/// XOR of all bytes of a slice.
fn xor_fold_bytes(v: &[u8]) -> (r: u8)
    ensures
        r == xor_fold(v@),
{
    let mut acc: u8 = 0;
    let mut j: usize = 0;
    while j < v.len()
        invariant
            j <= v@.len(),
            acc == xor_fold(v@.take(j as int)),
        decreases v@.len() - j,
    {
        proof {
            assert(v@.take(j as int + 1).drop_last() =~= v@.take(j as int));
            assert(v@.take(j as int + 1).last() == v@[j as int]);
        }
        acc = acc ^ v[j];
        j += 1;
    }
    proof {
        assert(v@.take(v@.len() as int) =~= v@);
    }
    acc
}

/// A demonstration algorithm: 16-byte keys, 16-byte tags, where every tag
/// byte mixes the XOR fold of the key, the XOR fold of the message and the
/// byte's position. Deliberately weak; useful only to exercise the contract.
pub struct XorMac {
    key: Vec<u8>,
    buf: Vec<u8>,
}

impl Mac for XorMac {
    closed spec fn spec_key_size() -> nat {
        16
    }

    closed spec fn spec_output_size() -> nat {
        16
    }

    closed spec fn mac_of(key: Seq<u8>, msg: Seq<u8>) -> Seq<u8> {
        Seq::new(16, |i: int| xor_fold(key) ^ xor_fold(msg) ^ (i as u8))
    }

    closed spec fn key(&self) -> Seq<u8> {
        self.key@
    }

    closed spec fn buffered(&self) -> Seq<u8> {
        self.buf@
    }

    proof fn mac_of_len(key: Seq<u8>, msg: Seq<u8>) {
    }

    fn key_size() -> (n: usize) {
        16
    }

    fn output_size() -> (n: usize) {
        16
    }

    fn new(key: &[u8]) -> (m: Self) {
        XorMac { key: vstd::slice::slice_to_vec(key), buf: Vec::new() }
    }

    fn input(&mut self, data: &[u8]) {
        let mut d = vstd::slice::slice_to_vec(data);
        self.buf.append(&mut d);
    }

    fn result(&mut self) -> (r: MacResult) {
        let fk = xor_fold_bytes(self.key.as_slice());
        let fm = xor_fold_bytes(self.buf.as_slice());
        let ghost msg = self.buf@;
        self.buf = Vec::new();
        let mut out: Vec<u8> = Vec::new();
        let mut i: usize = 0;
        while i < 16
            invariant
                i <= 16,
                fk == xor_fold(old(self).key()),
                fm == xor_fold(msg),
                out@ =~= Seq::new(i as nat, |k: int| fk ^ fm ^ (k as u8)),
        decreases 16 - i,
        {
            out.push(fk ^ fm ^ (i as u8));
            i += 1;
        }
        proof {
            assert(out@ =~= Self::mac_of(old(self).key(), msg));
        }
        MacResult::new(out)
    }
}

} // verus!
