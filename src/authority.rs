use vstd::prelude::*;
use solana_program::pubkey::Pubkey;
use crate::bytes::Address;

verus! {

/// The custody address derived from the seeds `[tag]`, `sender` under `program`,
/// with the bump that makes it an address no key pair can sign for; `None`
/// where no bump does.
pub uninterp spec fn program_address(tag: u8, sender: Seq<u8>, program: Seq<u8>) -> Option<
    (Seq<u8>, u8),
>;

/// The id of the token program, `TokenkegQfeZyiNwAJbNbGKPFXCWuBvf9Ss623VQ5DA`.
pub open spec fn token_program_address() -> Seq<u8> {
    seq![
        6u8, 221u8, 246u8, 225u8, 215u8, 101u8, 161u8, 147u8, 217u8, 203u8, 225u8, 70u8, 206u8,
        235u8, 121u8, 172u8, 28u8, 180u8, 133u8, 237u8, 95u8, 91u8, 55u8, 145u8, 58u8, 140u8,
        245u8, 133u8, 126u8, 255u8, 0u8, 169u8,
    ]
}

/// Relies on `solana_program::pubkey::Pubkey::try_find_program_address`, which
/// searches the bumps from 255 down for the first one whose address is off the
/// curve; what it finds depends on the seeds and the program id alone.
#[verifier::external_body]
pub(crate) fn find_authority(tag: u8, sender: &Address, program: &Address) -> (r: Option<
    (Address, u8),
>)
    ensures
        match r {
            Some(found) => program_address(tag, sender@, program@) == Some((found.0@, found.1)),
            None => program_address(tag, sender@, program@) is None,
        },
{
    let program_key = Pubkey::new_from_array(*program);
    match Pubkey::try_find_program_address(&[&[tag], &sender[..]], &program_key) {
        Some((key, bump)) => Some((key.to_bytes(), bump)),
        None => None,
    }
}

/// Relies on `spl_token::id`, the token program's fixed id.
#[verifier::external_body]
pub(crate) fn token_program_id() -> (r: Address)
    ensures
        r@ == token_program_address(),
{
    spl_token::id().to_bytes()
}

} // verus!
