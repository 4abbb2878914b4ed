//! The instruction of the program, and the way a call reaches it.

use vstd::prelude::*;
use vstd::string::*;
use crate::address::{address_text, Address};
use crate::context::{Context, ErrorKind, Initialize};
use crate::identity::{check_id, declared_id, id};

verus! {

/// The words that open every greeting.
pub const GREETING_WORDS: &'static str = "Greetings from: ";

/// The line that greets from the program with the address `program_id`: the
/// opening words and then the written form of the address.
pub open spec fn greeting(program_id: Seq<u8>) -> Seq<char> {
    GREETING_WORDS@ + address_text(program_id)
}

/// The line that greets from the program whose address is written `id_text`:
/// the opening words and then `id_text`.
pub fn greeting_line(id_text: &str) -> (line: String)
    ensures
        line@ == GREETING_WORDS@ + id_text@,
{
    let mut line = String::from_str(GREETING_WORDS);
    line.append(id_text);
    line
}

/// The log after one call of `initialize`, where it held `log` before: the
/// same lines, and after them the greeting from the program's own address.
/// What the context of the call holds does not enter.
pub open spec fn log_after_call(log: Seq<Seq<char>>) -> Seq<Seq<char>> {
    log.push(greeting(declared_id()))
}

/// The one instruction. It succeeds on every context, and adds to `log` one
/// line: the greeting from the program's own address, the one that `id`
/// returns. The line is the same whatever address and accounts the context
/// holds. The instruction reads no account and keeps nothing from one call to
/// the next.
pub fn initialize(_ctx: Context<Initialize>, log: &mut Vec<String>) -> (result: Result<
    (),
    ErrorKind,
>)
    ensures
        result == Ok::<(), ErrorKind>(()),
        final(log).deep_view() == log_after_call(old(log).deep_view()),
{
    let id_text = id().to_text();
    let line = greeting_line(id_text.as_str());
    log.push(line);
    assert(log.deep_view() =~= log_after_call(old(log).deep_view()));
    Ok(())
}

/// What a call under the address `program_id` returns: success where that is
/// the program's own address, and else the refusal of a call that names another
/// program. It depends on nothing but the address.
pub open spec fn entry_result(program_id: Seq<u8>) -> Result<(), ErrorKind> {
    if program_id == declared_id() {
        Ok(())
    } else {
        Err(ErrorKind::DeclaredProgramIdMismatch)
    }
}

/// The log after a call under the address `program_id`, where it held `log`
/// before: what `initialize` leaves where the call was let through, and `log`
/// as it was where the call was refused.
pub open spec fn entry_log(program_id: Seq<u8>, log: Seq<Seq<char>>) -> Seq<Seq<char>> {
    if program_id == declared_id() {
        log_after_call(log)
    } else {
        log
    }
}

/// Takes a call from outside: refuses it if it names another program, checks
/// its accounts against what `initialize` declares, and only then runs
/// `initialize`. A refused call writes nothing.
pub fn entry(program_id: Address, accounts: Vec<Address>, log: &mut Vec<String>) -> (result:
    Result<(), ErrorKind>)
    ensures
        result == entry_result(program_id@),
        final(log).deep_view() == entry_log(program_id@, old(log).deep_view()),
{
    if !check_id(&program_id) {
        return Err(ErrorKind::DeclaredProgramIdMismatch);
    }
    match Initialize::try_accounts(program_id, accounts) {
        Ok(ctx) => initialize(ctx, log),
        Err(refusal) => Err(refusal),
    }
}

/// The log after `n` calls of `initialize`, one after another, where it held
/// `log` before the first.
pub open spec fn log_after_calls(log: Seq<Seq<char>>, n: nat) -> Seq<Seq<char>>
    decreases n,
{
    if n == 0 {
        log
    } else {
        log_after_call(log_after_calls(log, (n - 1) as nat))
    }
}

/// A call under the program's own address succeeds, whatever the log held, and
/// adds one line to it. That line ends with the written form of the program's
/// address, letter for letter.
pub proof fn lemma_own_call_greets(log: Seq<Seq<char>>)
    ensures
        entry_result(declared_id()) == Ok::<(), ErrorKind>(()),
        entry_log(declared_id(), log) == log.push(greeting(declared_id())),
        address_text(declared_id()).is_suffix_of(greeting(declared_id())),
{
    let prefix = GREETING_WORDS@;
    let text = address_text(declared_id());
    assert((prefix + text).skip(prefix.len() as int) =~= text);
}

/// A call under any other address than the program's own is refused before
/// `initialize` runs: it returns `DeclaredProgramIdMismatch` and the log stays
/// as it was.
pub proof fn lemma_foreign_call_refused(program_id: Seq<u8>, log: Seq<Seq<char>>)
    requires
        program_id != declared_id(),
    ensures
        entry_result(program_id) == Err::<(), ErrorKind>(ErrorKind::DeclaredProgramIdMismatch),
        entry_log(program_id, log) == log,
{
}

/// Calling `initialize` `n` times, on whatever contexts, adds `n` lines to the
/// log, every one of them the greeting from the program's own address, and
/// leaves what the log held before in place: no call sees what an earlier call
/// did.
pub proof fn lemma_repeated_calls(log: Seq<Seq<char>>, n: nat)
    ensures
        log_after_calls(log, n) == log + Seq::new(n, |i: int| greeting(declared_id())),
    decreases n,
{
    if n > 0 {
        lemma_repeated_calls(log, (n - 1) as nat);
    }
    assert(log_after_calls(log, n) =~= log + Seq::new(n, |i: int| greeting(declared_id())));
}

/// Two calls, one after the other, each add to the log what they would add to
/// an empty one: what a call writes does not depend on the call before it.
pub proof fn lemma_calls_independent(first: Seq<u8>, second: Seq<u8>, log: Seq<Seq<char>>)
    ensures
        entry_log(second, entry_log(first, log)) == log + entry_log(first, Seq::empty())
            + entry_log(second, Seq::empty()),
{
    assert(entry_log(second, entry_log(first, log)) =~= log + entry_log(first, Seq::empty())
        + entry_log(second, Seq::empty()));
}

} // verus!
