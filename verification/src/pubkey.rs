//! Account addresses.

use vstd::prelude::*;

verus! {

/// The base58 text of a 32-byte address, as `solana_sdk` prints it.
pub uninterp spec fn base58_text(bytes: Seq<u8>) -> Seq<char>;

/// The associated token account of a wallet for a mint under the SPL token
/// program: the program-derived address that
/// `Pubkey::try_find_program_address` yields for the seeds wallet, token
/// program and mint under the associated-token program, or `None` where no
/// bump seed gives an address off the curve.
pub uninterp spec fn associated_token_address(wallet: Seq<u8>, mint: Seq<u8>) -> Option<Seq<u8>>;

/// A 32-byte account address.
#[derive(Clone, Copy, Debug, PartialEq, Eq, Hash)]
pub struct Pubkey {
    pub bytes: [u8; 32],
}

impl View for Pubkey {
    type V = Seq<u8>;

    open spec fn view(&self) -> Seq<u8> {
        self.bytes@
    }
}

impl Pubkey {
    /// The address whose bytes are all zero, the value of an unset field.
    pub open spec fn zero() -> Pubkey {
        Pubkey { bytes: vstd::array::spec_array_fill_for_copy_type::<u8, 32>(0u8) }
    }

    /// Addresses with the same bytes are the same address.
    pub proof fn lemma_equal_by_view()
        ensures
            forall|a: Pubkey, b: Pubkey| #[trigger] a@ == #[trigger] b@ ==> a == b,
    {
        assert forall|a: Pubkey, b: Pubkey| #[trigger] a@ == #[trigger] b@ implies a == b by {
            assert(a.bytes =~= b.bytes);
        }
    }

    /// The address with the given bytes.
    pub fn new_from_array(bytes: [u8; 32]) -> (p: Pubkey)
        ensures
            p.bytes == bytes,
    {
        Pubkey { bytes }
    }

    /// The bytes of the address.
    pub fn to_bytes(&self) -> (b: [u8; 32])
        ensures
            b == self.bytes,
    {
        self.bytes
    }

    /// Whether two addresses are equal.
    pub fn same(&self, other: &Pubkey) -> (b: bool)
        ensures
            b == (*self == *other),
    {
        let mut i: usize = 0;
        while i < 32
            invariant
                i <= 32,
                forall|j: int| 0 <= j < i ==> self.bytes[j] == other.bytes[j],
            decreases 32 - i,
        {
            if self.bytes[i] != other.bytes[i] {
                return false;
            }
            i += 1;
        }
        assert(self.bytes =~= other.bytes);
        true
    }

    /// The associated token account of this wallet for `mint`, if one can be
    /// derived.
    ///
    /// Calls `Pubkey::try_find_program_address` of `solana_sdk` with the seeds
    /// wallet, `spl_token::id()` and mint under
    /// `spl_associated_token_account::id()`. This is the derivation that
    /// `spl_associated_token_account::get_associated_token_address` makes, which
    /// panics where this returns `None`. The result depends on the two
    /// addresses alone; the contract only names it.
    #[verifier::external_body]
    pub(crate) fn associated_token_account(&self, mint: &Pubkey) -> (r: Option<Pubkey>)
        ensures
            r.is_some() == associated_token_address(self@, mint@).is_some(),
            r matches Some(p) ==> associated_token_address(self@, mint@) == Some(p@),
    {
        let token_program = spl_token::id();
        let seeds: [&[u8]; 3] = [&self.bytes, token_program.as_ref(), &mint.bytes];
        let program = spl_associated_token_account::id();
        solana_sdk::pubkey::Pubkey::try_find_program_address(&seeds, &program)
            .map(|found| Pubkey { bytes: found.0.to_bytes() })
    }

    /// The address as base58 text.
    ///
    /// Calls `Display` of `solana_sdk::pubkey::Pubkey`, which writes the base58
    /// encoding of the 32 bytes. The contract only names that text.
    #[verifier::external_body]
    pub(crate) fn base58(&self) -> (s: String)
        ensures
            s@ == base58_text(self@),
    {
        solana_sdk::pubkey::Pubkey::new_from_array(self.bytes).to_string()
    }
}

impl Default for Pubkey {
    fn default() -> (p: Pubkey)
        ensures
            p == Pubkey::zero(),
    {
        Pubkey { bytes: [0u8; 32] }
    }
}

} // verus!
