//! Account addresses.

use vstd::prelude::*;

verus! {

/// The address of an account: its 32 bytes.
#[derive(Clone, Copy, Debug, PartialEq, Eq)]
pub struct Pubkey {
    pub bytes: [u8; 32],
}

impl View for Pubkey {
    type V = Seq<u8>;

    open spec fn view(&self) -> Seq<u8> {
        self.bytes@
    }
}

/// The bytes of the address that stands for "no account": 32 zeros.
pub open spec fn null_key() -> Seq<u8> {
    Seq::new(32, |i: int| 0u8)
}

/// Calls `Pubkey::default` of `anchor_lang::prelude`, the derived default of a
/// wrapper around `[u8; 32]`: every byte of the result is zero.
#[verifier::external_body]
fn anchor_default_key() -> (r: [u8; 32])
    ensures
        r@ == null_key(),
{
    anchor_lang::prelude::Pubkey::default().to_bytes()
}

/// Calls `==` on two `Pubkey` values of `anchor_lang::prelude` made of the given
/// bytes. The comparison is the derived one of a wrapper around `[u8; 32]`: it
/// holds exactly when all 32 bytes agree.
#[verifier::external_body]
fn anchor_keys_equal(a: &[u8; 32], b: &[u8; 32]) -> (r: bool)
    ensures
        r == (a@ == b@),
{
    anchor_lang::prelude::Pubkey::new_from_array(*a)
        == anchor_lang::prelude::Pubkey::new_from_array(*b)
}

/// Calls `System::id` of `anchor_lang::system_program`, the address of the system
/// program, whose base58 form `11111111111111111111111111111111` is 32 zero bytes.
#[verifier::external_body]
fn anchor_system_program_id() -> (r: [u8; 32])
    ensures
        r@ == null_key(),
{
    <anchor_lang::system_program::System as anchor_lang::Id>::id().to_bytes()
}

impl Pubkey {
    /// Whether two addresses are the same.
    pub fn same(&self, other: &Pubkey) -> (r: bool)
        ensures
            r == (self@ == other@),
    {
        anchor_keys_equal(&self.bytes, &other.bytes)
    }

    /// The bytes of the address.
    pub fn to_vec(&self) -> (r: Vec<u8>)
        ensures
            r@ == self@,
    {
        let mut r: Vec<u8> = Vec::new();
        let mut i: usize = 0;
        while i < 32
            invariant
                i <= 32,
                r@ == self@.take(i as int),
            decreases 32 - i,
        {
            r.push(self.bytes[i]);
            i += 1;
            assert(r@ =~= self@.take(i as int));
        }
        assert(r@ =~= self@);
        r
    }

    /// The address of the system program, which owns plain SOL accounts.
    pub fn system_program() -> (r: Pubkey)
        ensures
            r@ == null_key(),
    {
        Pubkey { bytes: anchor_system_program_id() }
    }
}

impl Default for Pubkey {
    /// The address that stands for "no account".
    fn default() -> (r: Pubkey)
        ensures
            r@ == null_key(),
    {
        Pubkey { bytes: anchor_default_key() }
    }
}

} // verus!
