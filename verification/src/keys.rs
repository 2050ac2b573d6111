use vstd::prelude::*;

verus! {

/// An externally controlled identity: a fixed 32-byte key, held as four
/// 64-bit words. The view is the key's 32 bytes, least-significant word
/// first, each word in little-endian order, which is the byte string the
/// addressing rules feed into derivation.
#[derive(PartialEq, Eq, Structural, Clone, Copy, Debug, Hash)]
pub struct IdentityKey {
    pub w0: u64,
    pub w1: u64,
    pub w2: u64,
    pub w3: u64,
}

impl View for IdentityKey {
    type V = Seq<u8>;

    open spec fn view(&self) -> Seq<u8> {
        vstd::bytes::spec_u64_to_le_bytes(self.w0)
            + vstd::bytes::spec_u64_to_le_bytes(self.w1)
            + vstd::bytes::spec_u64_to_le_bytes(self.w2)
            + vstd::bytes::spec_u64_to_le_bytes(self.w3)
    }
}

impl IdentityKey {
    /// The 32 bytes of the key, as the addressing rules consume them.
    pub fn to_le_bytes(&self) -> (r: Vec<u8>)
        ensures
            r@ == self@,
            r@.len() == 32,
    {
        let mut out = vstd::bytes::u64_to_le_bytes(self.w0);
        let mut rest = vstd::bytes::u64_to_le_bytes(self.w1);
        out.append(&mut rest);
        let mut rest = vstd::bytes::u64_to_le_bytes(self.w2);
        out.append(&mut rest);
        let mut rest = vstd::bytes::u64_to_le_bytes(self.w3);
        out.append(&mut rest);
        out
    }
}

} // verus!
