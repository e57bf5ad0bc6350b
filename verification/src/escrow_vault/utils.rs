//! Finding out which program is acting on the ledger.
//!
//! A privileged operation runs inside a transaction. The host shows the
//! transaction's instructions in an account of its own, the instructions
//! account. The program that a caller declares for itself can be forged
//! through a chain of calls; the instructions of the transaction cannot.
//! So the ledger looks the caller up there: it walks back from the
//! instruction after the running one and takes the first program that is
//! not part of the host's infrastructure.
use vstd::prelude::*;
use crate::escrow_vault::error::VaultError;
use crate::escrow_vault::state::VaultConfig;
use crate::program_ids::{
    compute_budget_bytes, compute_budget_program_id, instructions_sysvar_bytes,
    instructions_sysvar_id, system_program_bytes, system_program_id, sysvar_bytes,
    sysvar_program_id,
};
use crate::pubkey::{lemma_pubkey_eq, Pubkey};
#[allow(deprecated)]
use solana_program::sysvar::instructions::{load_current_index_checked, load_instruction_at_checked};
use solana_program::account_info::AccountInfo;

verus! {

/// The index of the running instruction as an account with the address
/// `key` and the content `data` shows it: the account must be the
/// instructions account, and the index stands in the last two bytes of the
/// content, the lower byte first.
pub open spec fn spec_current_index(key: Seq<u8>, data: Seq<u8>) -> Option<u16> {
    if key != instructions_sysvar_bytes() || data.len() < 2 {
        None
    } else {
        Some((data[data.len() - 2] + 256 * data[data.len() - 1]) as u16)
    }
}

/// The bytes of the program of the instruction that
/// `load_instruction_at_checked` of `solana_program` reads at `index` from
/// an account with the address `key` and the content `data`; `None` where it
/// reports an error.
pub uninterp spec fn loaded_program_id(key: Seq<u8>, data: Seq<u8>, index: nat) -> Option<Seq<u8>>;

/// Calls `solana_program::sysvar::instructions::load_current_index_checked`
/// on an account made of `key` and a copy of `data`. The call reports an
/// error for every address but that of the instructions account; for that
/// one it reads the last two bytes of the content as a 16-bit number, the
/// lower byte first, so there must be two.
#[verifier::external_body]
#[allow(deprecated)]
fn load_current_index(key: &Pubkey, data: &Vec<u8>) -> (r: Option<u16>)
    requires
        data@.len() >= 2,
    ensures
        r == spec_current_index(key@, data@),
{
    let address = solana_program::pubkey::Pubkey::new_from_array(key.bytes);
    let owner = solana_program::pubkey::Pubkey::new_from_array([0u8; 32]);
    let mut lamports = 0u64;
    let mut content = data.clone();
    let account =
        AccountInfo::new(&address, false, false, &mut lamports, &mut content, &owner, false, 0);
    match load_current_index_checked(&account) {
        Ok(index) => Some(index),
        Err(_) => None,
    }
}

/// Calls `solana_program::sysvar::instructions::load_instruction_at_checked`
/// on an account made of `key` and a copy of `data`, and keeps the program
/// of the instruction it returns. All that is claimed of the result is that
/// it depends on `key`, `data` and `index` alone.
#[verifier::external_body]
#[allow(deprecated)]
fn load_program_id_at(key: &Pubkey, data: &Vec<u8>, index: usize) -> (r: Option<Pubkey>)
    ensures
        match r {
            Some(program) => loaded_program_id(key@, data@, index as nat) == Some(program@),
            None => loaded_program_id(key@, data@, index as nat) is None,
        },
{
    let address = solana_program::pubkey::Pubkey::new_from_array(key.bytes);
    let owner = solana_program::pubkey::Pubkey::new_from_array([0u8; 32]);
    let mut lamports = 0u64;
    let mut content = data.clone();
    let account =
        AccountInfo::new(&address, false, false, &mut lamports, &mut content, &owner, false, 0);
    match load_instruction_at_checked(index, &account) {
        Ok(instruction) => Some(Pubkey { bytes: instruction.program_id.to_bytes() }),
        Err(_) => None,
    }
}

/// What the instructions account shows of the running transaction.
///
/// `program_ids[i]` is the program that instruction `i` invokes, `None`
/// where the account gives no instruction `i`.
#[derive(Clone, Debug, PartialEq, Eq)]
pub struct InstructionsSysvar {
    pub key: Pubkey,
    pub current_index: u16,
    pub program_ids: Vec<Option<Pubkey>>,
}

/// Whether `program` belongs to the host: the system program, the
/// compute-budget program, or the owner of the host's accounts.
pub open spec fn is_infrastructure(program: Pubkey) -> bool {
    ||| program@ == system_program_bytes()
    ||| program@ == compute_budget_bytes()
    ||| program@ == sysvar_bytes()
}

/// Whether an entry of the instruction list names a caller: there is an
/// instruction, and its program is not the host's.
pub open spec fn names_caller(entry: Option<Pubkey>) -> bool {
    entry matches Some(program) && !is_infrastructure(program)
}

/// The first caller among `entries[top]`, `entries[top - 1]`, ...,
/// `entries[0]`, in that order.
pub open spec fn nearest_caller(entries: Seq<Option<Pubkey>>, top: int) -> Result<
    Pubkey,
    VaultError,
>
    decreases top + 1,
{
    if top < 0 {
        Err(VaultError::FailedToLoadInstruction)
    } else if top < entries.len() && names_caller(entries[top]) {
        Ok(entries[top].unwrap())
    } else {
        nearest_caller(entries, top - 1)
    }
}

/// `nearest_caller` finds the highest place at or under `top` that names a
/// caller, and fails exactly when there is none.
pub proof fn lemma_nearest_caller(entries: Seq<Option<Pubkey>>, top: int)
    ensures
        match nearest_caller(entries, top) {
            Ok(program) => exists|at: int|
                {
                    &&& 0 <= at <= top
                    &&& at < entries.len()
                    &&& #[trigger] entries[at] == Some(program)
                    &&& !is_infrastructure(program)
                    &&& forall|above: int|
                        at < above <= top && above < entries.len() ==> !names_caller(
                            #[trigger] entries[above],
                        )
                },
            Err(e) => {
                &&& e == VaultError::FailedToLoadInstruction
                &&& forall|at: int|
                    0 <= at <= top && at < entries.len() ==> !names_caller(#[trigger] entries[at])
            },
        },
    decreases top + 1,
{
    if top < 0 {
    } else if top < entries.len() && names_caller(entries[top]) {
        assert(entries[top] == Some(entries[top].unwrap()));
    } else {
        lemma_nearest_caller(entries, top - 1);
    }
}

impl InstructionsSysvar {
    /// The program that stands behind the running instruction, as the ledger
    /// determines it.
    pub open spec fn spec_caller(self) -> Result<Pubkey, VaultError> {
        if self.key@ != instructions_sysvar_bytes() {
            Err(VaultError::FailedToLoadInstruction)
        } else {
            nearest_caller(self.program_ids@, self.current_index + 1)
        }
    }

    /// Reads the instruction list out of the content of an account. Gives
    /// nothing where the account is not the instructions account or its
    /// content is shorter than the two bytes of the running index; else the
    /// running index and, for each place up to the one after it, the program
    /// of the instruction that can be read there.
    pub fn load(key: &Pubkey, data: &Vec<u8>) -> (r: Option<InstructionsSysvar>)
        ensures
            r is Some <==> key@ == instructions_sysvar_bytes() && data@.len() >= 2,
            match r {
                Some(shown) => {
                    &&& spec_current_index(key@, data@) == Some(shown.current_index)
                    &&& shown.key == *key
                    &&& shown.program_ids@.len() == shown.current_index + 2
                    &&& forall|i: int|
                        0 <= i < shown.program_ids@.len() ==> match #[trigger] shown.program_ids@[i] {
                            Some(program) => loaded_program_id(key@, data@, i as nat) == Some(
                                program@,
                            ),
                            None => loaded_program_id(key@, data@, i as nat) is None,
                        }
                },
                None => spec_current_index(key@, data@) is None,
            },
    {
        if data.len() < 2 {
            return None;
        }
        let current_index = match load_current_index(key, data) {
            Some(index) => index,
            None => { return None; },
        };
        let count: usize = current_index as usize + 2;
        let mut program_ids: Vec<Option<Pubkey>> = Vec::new();
        let mut i: usize = 0;
        while i < count
            invariant
                i <= count,
                count == current_index + 2,
                program_ids@.len() == i,
                forall|j: int|
                    0 <= j < i ==> match #[trigger] program_ids@[j] {
                        Some(program) => loaded_program_id(key@, data@, j as nat) == Some(program@),
                        None => loaded_program_id(key@, data@, j as nat) is None,
                    },
            decreases count - i,
        {
            let entry = load_program_id_at(key, data, i);
            program_ids.push(entry);
            i += 1;
        }
        Some(InstructionsSysvar { key: *key, current_index, program_ids })
    }
}

/// Whether `program` belongs to the host.
pub fn is_infrastructure_program(program: &Pubkey) -> (r: bool)
    ensures
        r == is_infrastructure(*program),
{
    let system = system_program_id();
    let compute_budget = compute_budget_program_id();
    let sysvar = sysvar_program_id();
    proof {
        lemma_pubkey_eq(*program, system);
        lemma_pubkey_eq(*program, compute_budget);
        lemma_pubkey_eq(*program, sysvar);
    }
    *program == system || *program == compute_budget || *program == sysvar
}

/// Determines the program that is acting on the ledger.
///
/// Walks back from the instruction after the running one to the first
/// instruction of the transaction and returns the program of the first
/// instruction met whose program is not the host's. Fails with
/// `FailedToLoadInstruction` where `instruction_sysvar` is not the
/// instructions account, or where no such instruction is found.
#[verifier::loop_isolation(false)]
pub fn get_cpi_caller_program_id(instruction_sysvar: &InstructionsSysvar) -> (r: Result<
    Pubkey,
    VaultError,
>)
    ensures
        r == instruction_sysvar.spec_caller(),
        instruction_sysvar.key@ != instructions_sysvar_bytes() ==> r == Err::<Pubkey, VaultError>(
            VaultError::FailedToLoadInstruction,
        ),
        instruction_sysvar.key@ == instructions_sysvar_bytes() ==> match r {
            Ok(program) => exists|at: int|
                {
                    &&& 0 <= at <= instruction_sysvar.current_index + 1
                    &&& at < instruction_sysvar.program_ids@.len()
                    &&& #[trigger] instruction_sysvar.program_ids@[at] == Some(program)
                    &&& !is_infrastructure(program)
                    &&& forall|above: int|
                        at < above <= instruction_sysvar.current_index + 1 && above
                            < instruction_sysvar.program_ids@.len() ==> !names_caller(
                            #[trigger] instruction_sysvar.program_ids@[above],
                        )
                },
            Err(e) => {
                &&& e == VaultError::FailedToLoadInstruction
                &&& forall|at: int|
                    0 <= at <= instruction_sysvar.current_index + 1 && at
                        < instruction_sysvar.program_ids@.len() ==> !names_caller(
                        #[trigger] instruction_sysvar.program_ids@[at],
                    )
            },
        },
{
    let expected = instructions_sysvar_id();
    proof {
        lemma_pubkey_eq(instruction_sysvar.key, expected);
        lemma_nearest_caller(
            instruction_sysvar.program_ids@,
            instruction_sysvar.current_index + 1,
        );
    }
    if instruction_sysvar.key != expected {
        return Err(VaultError::FailedToLoadInstruction);
    }
    let ghost entries = instruction_sysvar.program_ids@;
    let ghost top = instruction_sysvar.current_index + 1;
    let mut next: usize = instruction_sysvar.current_index as usize + 2;
    while next > 0
        invariant
            next <= top + 1,
            entries == instruction_sysvar.program_ids@,
            nearest_caller(entries, top) == nearest_caller(entries, next - 1),
        decreases next,
    {
        next -= 1;
        if next < instruction_sysvar.program_ids.len() {
            match &instruction_sysvar.program_ids[next] {
                Some(program) => {
                    if !is_infrastructure_program(program) {
                        return Ok(*program);
                    }
                },
                None => {},
            }
        }
    }
    Err(VaultError::FailedToLoadInstruction)
}

/// Whether a privileged operation is admitted, and for which caller: the
/// account shown must be the instructions account, a caller must be found
/// in it, the ledger must not be paused, and the caller must be on the
/// allow-list.
pub open spec fn spec_admit(config: VaultConfig, shown: InstructionsSysvar) -> Result<
    Pubkey,
    VaultError,
> {
    if shown.key@ != instructions_sysvar_bytes() {
        Err(VaultError::InvalidInstructionSysvar)
    } else {
        match shown.spec_caller() {
            Err(e) => Err(e),
            Ok(caller) => match config.spec_authorize(caller) {
                Err(e) => Err(e),
                Ok(_) => Ok(caller),
            },
        }
    }
}

/// Admits or refuses a privileged operation named `operation`, and returns
/// the caller for whom it is admitted.
pub fn admit_caller(config: &VaultConfig, shown: &InstructionsSysvar, operation: &str) -> (r:
    Result<Pubkey, VaultError>)
    ensures
        r == spec_admit(*config, *shown),
        r matches Ok(caller) ==> config.authorized_traders@.contains(caller) && !config.paused
            && !is_infrastructure(caller),
{
    let expected = instructions_sysvar_id();
    proof {
        lemma_pubkey_eq(shown.key, expected);
    }
    if shown.key != expected {
        return Err(VaultError::InvalidInstructionSysvar);
    }
    let caller = get_cpi_caller_program_id(shown)?;
    config.validate_cpi_caller_precise(&caller, operation)?;
    Ok(caller)
}

} // verus!
