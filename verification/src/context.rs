//! What an instruction is handed when it is called: the address it was called
//! under and the accounts that came with the call.

use vstd::prelude::*;
use crate::address::Address;

verus! {

/// Why a call was turned away before its instruction ran.
#[derive(Clone, Copy, Debug, PartialEq, Eq, Structural)]
pub enum ErrorKind {
    /// The call names another program than this one.
    DeclaredProgramIdMismatch,
    /// The accounts of the call do not meet what the instruction declares.
    /// `initialize` declares none, so no call to it is turned away for this.
    ContextValidationFailure,
}

/// The accounts that `initialize` declares: none.
#[derive(Clone, Copy, Debug, Default, PartialEq, Eq, Structural)]
pub struct Initialize {}

/// The input of an instruction apart from its arguments.
#[derive(Debug)]
pub struct Context<T> {
    /// The address of the program that is running.
    pub program_id: Address,
    /// The accounts that the instruction declares.
    pub accounts: T,
    /// The accounts that came with the call and that the instruction does not
    /// declare. Nothing is checked of them.
    pub remaining_accounts: Vec<Address>,
}

impl<T> Context<T> {
    /// The context with the given parts.
    pub fn new(program_id: Address, accounts: T, remaining_accounts: Vec<Address>) -> (ctx:
        Context<T>)
        ensures
            ctx.program_id == program_id,
            ctx.accounts == accounts,
            ctx.remaining_accounts == remaining_accounts,
    {
        Context { program_id, accounts, remaining_accounts }
    }
}

impl Initialize {
    /// Checks the accounts of a call against what `initialize` declares and
    /// builds the context of the call. `initialize` declares no account, so
    /// every list passes, and all of it is left over.
    pub fn try_accounts(program_id: Address, accounts: Vec<Address>) -> (checked: Result<
        Context<Initialize>,
        ErrorKind,
    >)
        ensures
            checked == Ok::<Context<Initialize>, ErrorKind>(
                Context { program_id, accounts: Initialize {  }, remaining_accounts: accounts },
            ),
    {
        Ok(Context::new(program_id, Initialize {  }, accounts))
    }
}

} // verus!
