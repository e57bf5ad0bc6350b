//! The addresses of the host's own programs and accounts.
use vstd::prelude::*;
use crate::pubkey::Pubkey;

verus! {

/// The address of the host's base system program.
pub open spec fn system_program_bytes() -> Seq<u8> {
    seq![
        0u8, 0u8, 0u8, 0u8, 0u8, 0u8, 0u8, 0u8, 0u8, 0u8, 0u8, 0u8, 0u8, 0u8, 0u8, 0u8,
        0u8, 0u8, 0u8, 0u8, 0u8, 0u8, 0u8, 0u8, 0u8, 0u8, 0u8, 0u8, 0u8, 0u8, 0u8, 0u8,
    ]
}

/// The address of the host's compute-budget program.
pub open spec fn compute_budget_bytes() -> Seq<u8> {
    seq![
        3u8, 6u8, 70u8, 111u8, 229u8, 33u8, 23u8, 50u8, 255u8, 236u8, 173u8, 186u8, 114u8, 195u8,
        155u8, 231u8, 188u8, 140u8, 229u8, 187u8, 197u8, 247u8, 18u8, 107u8, 44u8, 67u8, 155u8,
        58u8, 64u8, 0u8, 0u8, 0u8,
    ]
}

/// The address under which the host keeps its own accounts.
pub open spec fn sysvar_bytes() -> Seq<u8> {
    seq![
        6u8, 167u8, 213u8, 23u8, 24u8, 117u8, 247u8, 41u8, 199u8, 61u8, 147u8, 64u8, 143u8, 33u8,
        97u8, 32u8, 6u8, 126u8, 216u8, 140u8, 118u8, 224u8, 140u8, 40u8, 127u8, 193u8, 148u8,
        96u8, 0u8, 0u8, 0u8, 0u8,
    ]
}

/// The address of the instructions account.
pub open spec fn instructions_sysvar_bytes() -> Seq<u8> {
    seq![
        6u8, 167u8, 213u8, 23u8, 24u8, 123u8, 209u8, 102u8, 53u8, 218u8, 212u8, 4u8, 85u8, 253u8,
        194u8, 192u8, 193u8, 36u8, 198u8, 143u8, 33u8, 86u8, 117u8, 165u8, 219u8, 186u8, 203u8,
        95u8, 8u8, 0u8, 0u8, 0u8,
    ]
}

/// The host's base system program.
pub fn system_program_id() -> (r: Pubkey)
    ensures
        r@ == system_program_bytes(),
{
    let r = Pubkey {
        bytes: [
            0u8, 0u8, 0u8, 0u8, 0u8, 0u8, 0u8, 0u8, 0u8, 0u8, 0u8, 0u8, 0u8, 0u8, 0u8, 0u8,
            0u8, 0u8, 0u8, 0u8, 0u8, 0u8, 0u8, 0u8, 0u8, 0u8, 0u8, 0u8, 0u8, 0u8, 0u8, 0u8,
        ],
    };
    assert(r@ =~= system_program_bytes());
    r
}

/// The host's compute-budget program.
pub fn compute_budget_program_id() -> (r: Pubkey)
    ensures
        r@ == compute_budget_bytes(),
{
    let r = Pubkey {
        bytes: [
            3u8, 6u8, 70u8, 111u8, 229u8, 33u8, 23u8, 50u8, 255u8, 236u8, 173u8, 186u8, 114u8,
            195u8, 155u8, 231u8, 188u8, 140u8, 229u8, 187u8, 197u8, 247u8, 18u8, 107u8, 44u8,
            67u8, 155u8, 58u8, 64u8, 0u8, 0u8, 0u8,
        ],
    };
    assert(r@ =~= compute_budget_bytes());
    r
}

/// The owner of the host's own accounts.
pub fn sysvar_program_id() -> (r: Pubkey)
    ensures
        r@ == sysvar_bytes(),
{
    let r = Pubkey {
        bytes: [
            6u8, 167u8, 213u8, 23u8, 24u8, 117u8, 247u8, 41u8, 199u8, 61u8, 147u8, 64u8, 143u8,
            33u8, 97u8, 32u8, 6u8, 126u8, 216u8, 140u8, 118u8, 224u8, 140u8, 40u8, 127u8, 193u8,
            148u8, 96u8, 0u8, 0u8, 0u8, 0u8,
        ],
    };
    assert(r@ =~= sysvar_bytes());
    r
}

/// The instructions account.
pub fn instructions_sysvar_id() -> (r: Pubkey)
    ensures
        r@ == instructions_sysvar_bytes(),
{
    let r = Pubkey {
        bytes: [
            6u8, 167u8, 213u8, 23u8, 24u8, 123u8, 209u8, 102u8, 53u8, 218u8, 212u8, 4u8, 85u8,
            253u8, 194u8, 192u8, 193u8, 36u8, 198u8, 143u8, 33u8, 86u8, 117u8, 165u8, 219u8,
            186u8, 203u8, 95u8, 8u8, 0u8, 0u8, 0u8,
        ],
    };
    assert(r@ =~= instructions_sysvar_bytes());
    r
}

/// The address of the host's token program.
pub open spec fn token_program_bytes() -> Seq<u8> {
    seq![
        6u8, 221u8, 246u8, 225u8, 215u8, 101u8, 161u8, 147u8, 217u8, 203u8, 225u8, 70u8, 206u8,
        235u8, 121u8, 172u8, 28u8, 180u8, 133u8, 237u8, 95u8, 91u8, 55u8, 145u8, 58u8, 140u8,
        245u8, 133u8, 126u8, 255u8, 0u8, 169u8,
    ]
}

/// The host's token program.
pub fn token_program_id() -> (r: Pubkey)
    ensures
        r@ == token_program_bytes(),
{
    let r = Pubkey {
        bytes: [
            6u8, 221u8, 246u8, 225u8, 215u8, 101u8, 161u8, 147u8, 217u8, 203u8, 225u8, 70u8,
            206u8, 235u8, 121u8, 172u8, 28u8, 180u8, 133u8, 237u8, 95u8, 91u8, 55u8, 145u8, 58u8,
            140u8, 245u8, 133u8, 126u8, 255u8, 0u8, 169u8,
        ],
    };
    assert(r@ =~= token_program_bytes());
    r
}

} // verus!
