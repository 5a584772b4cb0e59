//! A generic contract for Message Authentication Code (MAC) algorithms.
//!
//! A MAC is a keyed function producing a fixed-length tag that authenticates
//! a message. This crate implements no concrete construction; it defines the
//! interface every keyed MAC must offer — key ingestion, streaming input,
//! finalisation and verification — together with the one piece of
//! security-critical code they all share: a tag comparison that runs in
//! constant time, so that a mismatch leaks nothing about where the first
//! differing byte lies.

pub mod dev;

use vstd::prelude::*;

verus! {

/// Error type for signaling failed MAC verification.
///
/// A wrong-length candidate and a wrong-value candidate both yield this same
/// unit value, so a caller (or an attacker) cannot tell the two apart.
#[derive(Default, Debug, Copy, Clone, Eq, PartialEq, Structural)]
pub struct MacError;

/// Error type for signaling invalid key length for MAC initialization.
#[derive(Default, Debug, Copy, Clone, Eq, PartialEq, Structural)]
pub struct InvalidKeyLength;

/// Relies on `constant_time_eq::constant_time_eq`: returns true iff the two
/// slices have the same length and hold the same bytes, in time that depends
/// only on the lengths, never on the contents nor on the position of the
/// first differing byte.
#[verifier::external_body]
fn ct_eq(a: &[u8], b: &[u8]) -> (r: bool)
    ensures
        r == (a@ == b@),
{
    constant_time_eq::constant_time_eq(a, b)
}

/// `MacResult` is a thin wrapper around a byte buffer which provides a safe
/// `Eq` implementation that runs in a fixed time.
#[derive(Clone)]
pub struct MacResult {
    code: Vec<u8>,
}

impl View for MacResult {
    type V = Seq<u8>;

    closed spec fn view(&self) -> Seq<u8> {
        self.code@
    }
}

impl MacResult {
    /// Create a new `MacResult` wrapping the given tag bytes.
    pub fn new(code: Vec<u8>) -> (r: MacResult)
        ensures
            r@ == code@,
    {
        MacResult { code }
    }

    /// Get the code value as a byte buffer, consuming the wrapper. Be very
    /// careful using this method, since incorrect use of the code value may
    /// permit timing attacks which defeat the security provided by the `Mac`
    /// trait.
    pub fn code(self) -> (r: Vec<u8>)
        ensures
            r@ == self@,
    {
        self.code
    }

    /// Compare two tags byte for byte, in constant time: the result is true
    /// exactly when the wrapped buffers are identical, and the work done
    /// depends only on their lengths, never on their contents.
    pub fn equals(&self, x: &MacResult) -> (r: bool)
        ensures
            r == (self@ == x@),
    {
        ct_eq(self.code.as_slice(), x.code.as_slice())
    }
}

impl PartialEq for MacResult {
    fn eq(&self, x: &MacResult) -> (r: bool) {
        self.equals(x)
    }
}

impl vstd::std_specs::cmp::PartialEqSpecImpl for MacResult {
    open spec fn obeys_eq_spec() -> bool {
        true
    }

    open spec fn eq_spec(&self, x: &MacResult) -> bool {
        self@ == x@
    }
}

impl Eq for MacResult {}

/// The `Mac` trait defines methods for a Message Authentication algorithm.
///
/// A construction implements the keyed primitives — `new`, `input`, `result`
/// — and describes itself through the spec functions: its fixed key and
/// output sizes, the mathematical tag function `mac_of`, and a view of an
/// instance as the key it was created with plus the input buffered since the
/// last finalisation. The derived operations `new_varkey` and `verify` are
/// provided once, on top of the primitives, so every conforming algorithm
/// shares the same audited validation and constant-time verification logic.
///
/// An instance is never consumed: finalisation (through `result` or
/// `verify`) empties the accumulation buffer and leaves the instance keyed
/// and ready for a new message.
pub trait Mac: Sized {
    /// The number of key bytes the algorithm requires.
    spec fn spec_key_size() -> nat;

    /// The number of bytes in a tag the algorithm produces.
    spec fn spec_output_size() -> nat;

    /// The algorithm itself, as a mathematical function from a key and a
    /// message to the tag it computes for them.
    spec fn mac_of(key: Seq<u8>, msg: Seq<u8>) -> Seq<u8>;

    /// The key this instance was created with.
    spec fn key(&self) -> Seq<u8>;

    /// The input bytes accumulated since creation or the last finalisation.
    spec fn buffered(&self) -> Seq<u8>;

    /// Every tag the algorithm computes has its fixed output size.
    proof fn mac_of_len(key: Seq<u8>, msg: Seq<u8>)
        ensures
            Self::mac_of(key, msg).len() == Self::spec_output_size(),
    ;

    /// The required key size, as a runtime value.
    fn key_size() -> (n: usize)
        ensures
            n == Self::spec_key_size(),
    ;

    /// The tag size, as a runtime value.
    fn output_size() -> (n: usize)
        ensures
            n == Self::spec_output_size(),
    ;

    /// Create a new MAC instance from a key with the exact required size.
    fn new(key: &[u8]) -> (m: Self)
        requires
            key@.len() == Self::spec_key_size(),
        ensures
            m.key() == key@,
            m.buffered() == Seq::<u8>::empty(),
    ;

    /// Process input data. Successive calls accumulate: the tag is computed
    /// over the concatenation of everything fed since the last finalisation.
    fn input(&mut self, data: &[u8])
        ensures
            final(self).key() == old(self).key(),
            final(self).buffered() == old(self).buffered() + data@,
    ;

    /// Obtain the result of a `Mac` computation as a `MacResult` and reset
    /// `Mac` instance.
    fn result(&mut self) -> (r: MacResult)
        ensures
            r@ == Self::mac_of(old(self).key(), old(self).buffered()),
            final(self).key() == old(self).key(),
            final(self).buffered() == Seq::<u8>::empty(),
    ;

    /// Create a new MAC instance from a variable sized key: fails with
    /// `InvalidKeyLength` exactly when the key's length is not the required
    /// size, and otherwise constructs the instance just as `new` does.
    fn new_varkey(key: &[u8]) -> (r: Result<Self, InvalidKeyLength>)
        ensures
            r is Ok <==> key@.len() == Self::spec_key_size(),
            r matches Ok(m) ==> m.key() == key@ && m.buffered() == Seq::<u8>::empty(),
    {
        if key.len() != Self::key_size() {
            Err(InvalidKeyLength)
        } else {
            Ok(Self::new(key))
        }
    }

    /// Check if code is correct for the processed input and reset `Mac`
    /// instance. Succeeds exactly when `code` is the tag of the accumulated
    /// input under the instance's key; a wrong length and a wrong value both
    /// yield the same bare `MacError`. A wrong-length candidate is rejected
    /// before finalisation, so only then does the accumulated input survive;
    /// when the length matches, the comparison is performed in constant time
    /// whatever the contents, and the instance is reset.
    fn verify(&mut self, code: &[u8]) -> (r: Result<(), MacError>)
        ensures
            r is Ok <==> (code@.len() == Self::spec_output_size() && code@ == Self::mac_of(
                old(self).key(),
                old(self).buffered(),
            )),
            final(self).key() == old(self).key(),
            code@.len() == Self::spec_output_size() ==> final(self).buffered()
                == Seq::<u8>::empty(),
            code@.len() != Self::spec_output_size() ==> final(self).buffered()
                == old(self).buffered(),
    {
        if Self::output_size() != code.len() {
            Err(MacError)
        } else {
            let candidate = MacResult::new(vstd::slice::slice_to_vec(code));
            let computed = self.result();
            if candidate.equals(&computed) {
                Ok(())
            } else {
                Err(MacError)
            }
        }
    }
}

/// Holds exactly when `code` is the tag that algorithm `M` computes for
/// `key` and `msg`: it has the algorithm's fixed output length and matches
/// the true tag byte for byte. `Mac::verify` succeeds on precisely these
/// candidates.
pub open spec fn is_valid_tag<M: Mac>(key: Seq<u8>, msg: Seq<u8>, code: Seq<u8>) -> bool {
    &&& code.len() == M::spec_output_size()
    &&& code == M::mac_of(key, msg)
}

/// Two byte sequences are equal exactly when they have the same length and
/// agree at every position: the equality that `MacResult`'s comparison
/// decides is byte-for-byte identity.
pub proof fn lemma_eq_is_bytewise(a: Seq<u8>, b: Seq<u8>)
    ensures
        (a == b) <==> (a.len() == b.len() && forall|i: int| 0 <= i < a.len() ==> a[i] == b[i]),
{
    if a.len() == b.len() && (forall|i: int| 0 <= i < a.len() ==> a[i] == b[i]) {
        assert(a =~= b);
    }
}

/// The tag an algorithm computes for a key and a message is itself a valid
/// candidate for that key and message: finalising and then verifying the
/// resulting bytes against the same key and input succeeds.
pub proof fn lemma_own_tag_accepted<M: Mac>(key: Seq<u8>, msg: Seq<u8>)
    ensures
        is_valid_tag::<M>(key, msg, M::mac_of(key, msg)),
{
    M::mac_of_len(key, msg);
}

/// A candidate of the right length that differs from the true tag at even a
/// single position is not a valid tag: verification rejects it.
pub proof fn lemma_altered_tag_rejected<M: Mac>(key: Seq<u8>, msg: Seq<u8>, code: Seq<u8>, i: int)
    requires
        code.len() == M::spec_output_size(),
        0 <= i < code.len(),
        code[i] != M::mac_of(key, msg)[i],
    ensures
        !is_valid_tag::<M>(key, msg, code),
{
}

/// A candidate whose length is not the algorithm's output size is not a
/// valid tag, whatever bytes it holds: verification rejects it.
pub proof fn lemma_wrong_length_rejected<M: Mac>(key: Seq<u8>, msg: Seq<u8>, code: Seq<u8>)
    requires
        code.len() != M::spec_output_size(),
    ensures
        !is_valid_tag::<M>(key, msg, code),
{
}

/// Finalisation leaves no residue. Afterwards the accumulation buffer is
/// empty (`Mac::result` ensures it), so input fed next accumulates onto the
/// empty buffer, and the next tag is the one a fresh instance under the same
/// key would compute from that input alone.
pub proof fn lemma_no_residue<M: Mac>(key: Seq<u8>, msg: Seq<u8>)
    ensures
        M::mac_of(key, Seq::<u8>::empty() + msg) == M::mac_of(key, msg),
{
    assert(Seq::<u8>::empty() + msg =~= msg);
}

} // verus!
