//! The operations that may be run, and which of them are taken.
use vstd::prelude::*;
use vstd::string::*;
use vstd::utf8::*;

use crate::keyring::texts;
use crate::paths::{absolute, is_absolute};
use crate::text::{
    byte_count, byte_len, chars_of, control_char, has_control, holds_control, same_text, verdict,
};
use crate::textmap::TextMap;

verus! {

/// The size, in bytes, of the file that lists the operations.
pub const MAX_OPERATION_FILE_BYTES: u64 = 256 * 1024;

/// The number of operations that may be listed.
pub const MAX_OPERATIONS: usize = 256;

/// The number of arguments that an operation may have.
pub const MAX_OPERATION_ARGS: usize = 64;

/// An operation: a program, its arguments, and the environment variable in which
/// it finds the secret.
#[derive(Debug, Clone)]
pub struct Operation {
    pub command: String,
    pub args: Vec<String>,
    pub secret_env: String,
}

/// What an operation stands for.
#[verifier::ext_equal]
pub struct OperationModel {
    pub command: Seq<char>,
    pub args: Seq<Seq<char>>,
    pub secret_env: Seq<char>,
}

impl View for Operation {
    type V = OperationModel;

    open spec fn view(&self) -> OperationModel {
        OperationModel {
            command: self.command@,
            args: texts(self.args@),
            secret_env: self.secret_env@,
        }
    }
}

/// A letter, a digit or an underscore.
pub open spec fn name_char(c: char) -> bool {
    c == '_' || ('a' <= c && c <= 'z') || ('A' <= c && c <= 'Z') || ('0' <= c && c <= '9')
}

/// The name of an environment variable.
pub open spec fn variable_name(name: Seq<char>) -> bool {
    &&& name.len() > 0
    &&& forall|i: int| 0 <= i < name.len() ==> name_char(#[trigger] name[i])
    &&& !('0' <= name[0] && name[0] <= '9')
}

/// A variable that changes how programs are found or loaded.
pub open spec fn reserved_variable(name: Seq<char>) -> bool {
    name == "PATH"@ || name == "LD_PRELOAD"@ || name == "LD_LIBRARY_PATH"@ || name == "BASH_ENV"@
        || name == "ENV"@ || name == "PYTHONINSPECT"@
}

/// An argument that is not handed to a program.
pub open spec fn argument_rejected(arg: Seq<char>) -> bool {
    byte_count(arg) > 4096 || holds_control(arg)
}

/// What is wrong with an operation.
pub open spec fn operation_fault(operation: OperationModel) -> Option<Seq<char>> {
    if !absolute(operation.command) || !variable_name(operation.secret_env) || byte_count(
        operation.secret_env,
    ) > 128 || reserved_variable(operation.secret_env) || exists|i: int|
        0 <= i < operation.args.len() && argument_rejected(#[trigger] operation.args[i]) {
        Some("operation allowlist entry is invalid"@)
    } else if operation.args.len() > MAX_OPERATION_ARGS {
        Some("operation allowlist entry has too many arguments"@)
    } else {
        None
    }
}

fn is_name_char(c: char) -> (r: bool)
    ensures
        r == name_char(c),
{
    c == '_' || ('a' <= c && c <= 'z') || ('A' <= c && c <= 'Z') || ('0' <= c && c <= '9')
}

fn is_variable_name(name: &str) -> (r: bool)
    ensures
        r == variable_name(name@),
{
    let chars = chars_of(name);
    let n: usize = chars.len();
    if n == 0 || ('0' <= chars[0] && chars[0] <= '9') {
        return false;
    }
    for i in 0..n
        invariant
            n == chars@.len(),
            chars@ == name@,
            forall|j: int| 0 <= j < i ==> name_char(#[trigger] name@[j]),
    {
        if !is_name_char(chars[i]) {
            assert(!name_char(name@[i as int]));
            return false;
        }
    }
    true
}

fn is_reserved_variable(name: &str) -> (r: bool)
    ensures
        r == reserved_variable(name@),
{
    same_text(name, "PATH") || same_text(name, "LD_PRELOAD") || same_text(name, "LD_LIBRARY_PATH")
        || same_text(name, "BASH_ENV") || same_text(name, "ENV") || same_text(name, "PYTHONINSPECT")
}

fn has_rejected_argument(args: &Vec<String>) -> (r: bool)
    ensures
        r == exists|i: int|
            0 <= i < args@.len() && argument_rejected(#[trigger] texts(args@)[i]),
{
    let n: usize = args.len();
    for i in 0..n
        invariant
            n == args@.len(),
            forall|j: int| 0 <= j < i ==> !argument_rejected(#[trigger] texts(args@)[j]),
    {
        let arg = args[i].as_str();
        if byte_len(arg) > 4096 || has_control(arg) {
            assert(argument_rejected(texts(args@)[i as int]));
            return true;
        }
    }
    false
}

/// Whether an operation may be run.
pub fn check_operation(operation: &Operation) -> (result: Result<(), String>)
    ensures
        verdict(result, operation_fault(operation@)),
{
    let variable = operation.secret_env.as_str();
    if !is_absolute(operation.command.as_str()) || !is_variable_name(variable) || byte_len(variable)
        > 128 || is_reserved_variable(variable) || has_rejected_argument(&operation.args) {
        return Err("operation allowlist entry is invalid".to_owned());
    }
    if operation.args.len() > MAX_OPERATION_ARGS {
        return Err("operation allowlist entry has too many arguments".to_owned());
    }
    Ok(())
}

/// Whether a file of this size is read for the operations that it lists.
pub fn check_allowlist_size(size: u64) -> (result: Result<(), String>)
    ensures
        verdict(
            result,
            if size > MAX_OPERATION_FILE_BYTES {
                Some("operation allowlist exceeds the configured limit"@)
            } else {
                None
            },
        ),
{
    if size > MAX_OPERATION_FILE_BYTES {
        return Err("operation allowlist exceeds the configured limit".to_owned());
    }
    Ok(())
}

/// Whether what was read of a file is all of it.
pub fn check_read_size(size: u64, limit: u64) -> (result: Result<(), String>)
    ensures
        verdict(
            result,
            if size > limit {
                Some("secure file exceeds the configured limit"@)
            } else {
                None
            },
        ),
{
    if size > limit {
        return Err("secure file exceeds the configured limit".to_owned());
    }
    Ok(())
}

/// Why no operation can be run under a name.
pub open spec fn selection_fault(
    operations: Map<Seq<char>, OperationModel>,
    name: Seq<char>,
) -> Option<Seq<char>> {
    if operations.len() > MAX_OPERATIONS {
        Some("operation allowlist exceeds the configured entry limit"@)
    } else if !operations.contains_key(name) {
        Some("operation is not allowlisted"@)
    } else {
        operation_fault(operations[name])
    }
}

fn copy_operation(operation: &Operation) -> (copy: Operation)
    ensures
        copy@ == operation@,
{
    let mut args: Vec<String> = Vec::new();
    let n: usize = operation.args.len();
    for i in 0..n
        invariant
            n == operation.args@.len(),
            args@.len() == i,
            forall|j: int| 0 <= j < i ==> #[trigger] args@[j]@ == operation.args@[j]@,
    {
        args.push(operation.args[i].clone());
    }
    assert(texts(args@) =~= texts(operation.args@));
    Operation {
        command: operation.command.clone(),
        args,
        secret_env: operation.secret_env.clone(),
    }
}

/// The operation that is listed under a name, if it may be run.
pub fn select_operation(operations: &TextMap<Operation>, name: &str) -> (result: Result<
    Operation,
    String,
>)
    requires
        operations.wf(),
    ensures
        match result {
            Ok(operation) => selection_fault(operations@, name@) is None && operation@
                == operations@[name@],
            Err(e) => selection_fault(operations@, name@) == Some(e@),
        },
{
    if operations.len() > MAX_OPERATIONS {
        return Err("operation allowlist exceeds the configured entry limit".to_owned());
    }
    match operations.get(name) {
        None => Err("operation is not allowlisted".to_owned()),
        Some(operation) => match check_operation(operation) {
            Err(e) => Err(e),
            Ok(_) => Ok(copy_operation(operation)),
        },
    }
}

/// What is run is listed under the name that was asked for, with an absolute
/// command and its listed arguments, and the variable it finds the secret in
/// changes neither how programs are found nor how they are loaded.
pub proof fn law_only_listed_operations_run(
    operations: Map<Seq<char>, OperationModel>,
    name: Seq<char>,
)
    requires
        selection_fault(operations, name) is None,
    ensures
        operations.contains_key(name),
        absolute(operations[name].command),
        variable_name(operations[name].secret_env),
        !reserved_variable(operations[name].secret_env),
        operations[name].args.len() <= MAX_OPERATION_ARGS,
        forall|i: int|
            0 <= i < operations[name].args.len() ==> !holds_control(
                #[trigger] operations[name].args[i],
            ),
{
    assert forall|i: int| 0 <= i < operations[name].args.len() implies !holds_control(
        #[trigger] operations[name].args[i],
    ) by {
        if argument_rejected(operations[name].args[i]) {
            assert(operation_fault(operations[name]) is Some);
        }
    }
}

/// Whether a character may stand in the name of a variable.
pub open spec fn in_variable_name(c: char) -> bool {
    ('a' <= c && c <= 'z') || ('A' <= c && c <= 'Z') || ('0' <= c && c <= '9') || c == '_'
}

/// Whether an argument is one of at most four kibibytes without a control code.
pub open spec fn plain_argument(arg: Seq<char>) -> bool {
    encode_utf8(arg).len() <= 4096 && forall|i: int|
        0 <= i < arg.len() ==> !control_char(#[trigger] arg[i])
}

/// Whether an operation can be run: its command starts at the root, its arguments are
/// plain, and its variable has a proper name of at most a hundred and twenty-eight
/// bytes that changes neither how programs are found nor how they are loaded.
pub open spec fn runnable(operation: OperationModel) -> bool {
    let name = operation.secret_env;
    &&& operation.command.len() > 0 && operation.command[0] == '/'
    &&& name.len() > 0 && !('0' <= name[0] && name[0] <= '9')
    &&& forall|i: int| 0 <= i < name.len() ==> in_variable_name(#[trigger] name[i])
    &&& encode_utf8(name).len() <= 128
    &&& name != "PATH"@ && name != "LD_PRELOAD"@ && name != "LD_LIBRARY_PATH"@
    &&& name != "BASH_ENV"@ && name != "ENV"@ && name != "PYTHONINSPECT"@
    &&& forall|i: int|
        0 <= i < operation.args.len() ==> plain_argument(#[trigger] operation.args[i])
}

/// An operation is taken exactly if it can be run and has at most sixty-four arguments.
pub proof fn law_runnable_operations_are_taken(operation: &Operation, result: Result<(), String>)
    requires
        call_ensures(check_operation, (operation,), result),
    ensures
        result is Ok <==> runnable(operation@) && operation@.args.len() <= 64,
        result matches Err(e) ==> e@ == if !runnable(operation@) {
            "operation allowlist entry is invalid"@
        } else {
            "operation allowlist entry has too many arguments"@
        },
{
    let model = operation@;
    let name = model.secret_env;
    assert forall|arg: Seq<char>| #[trigger] argument_rejected(arg) == !plain_argument(arg) by {}
    assert(variable_name(name) <==> name.len() > 0 && !('0' <= name[0] && name[0] <= '9') && (
    forall|i: int| 0 <= i < name.len() ==> in_variable_name(#[trigger] name[i]))) by {
        if variable_name(name) {
            assert forall|i: int| 0 <= i < name.len() implies in_variable_name(
                #[trigger] name[i],
            ) by {
                assert(name_char(name[i]));
            }
        } else if forall|i: int| 0 <= i < name.len() ==> in_variable_name(#[trigger] name[i]) {
            assert forall|i: int| 0 <= i < name.len() implies name_char(#[trigger] name[i]) by {
                assert(in_variable_name(name[i]));
            }
        }
    }
    if exists|i: int| 0 <= i < model.args.len() && argument_rejected(#[trigger] model.args[i]) {
        let i = choose|i: int|
            0 <= i < model.args.len() && argument_rejected(#[trigger] model.args[i]);
        assert(!plain_argument(model.args[i]));
    } else {
        assert forall|i: int| 0 <= i < model.args.len() implies plain_argument(
            #[trigger] model.args[i],
        ) by {
            assert(!argument_rejected(model.args[i]));
        }
    }
}

/// What is run is what is listed under the name, as it is listed, and it is run exactly
/// if at most two hundred and fifty-six operations are listed and this one is taken.
pub proof fn law_listed_operations_are_selected(
    operations: &TextMap<Operation>,
    name: &str,
    result: Result<Operation, String>,
    operation: &Operation,
    checked: Result<(), String>,
)
    requires
        call_ensures(select_operation, (operations, name), result),
        call_ensures(check_operation, (operation,), checked),
        operations@.contains_key(name@) ==> operation@ == operations@[name@],
    ensures
        result is Ok <==> operations@.len() <= 256 && operations@.contains_key(name@)
            && checked is Ok,
        result matches Ok(selected) ==> selected@ == operations@[name@],
        result matches Err(e) ==> e@ == if operations@.len() > 256 {
            "operation allowlist exceeds the configured entry limit"@
        } else if !operations@.contains_key(name@) {
            "operation is not allowlisted"@
        } else {
            checked->Err_0@
        },
{
}

/// A list of operations is read exactly if it has at most two hundred and fifty-six
/// kibibytes, and what was read of a file is taken exactly if it keeps to the limit.
pub proof fn law_files_are_held_to_their_limits(
    size: u64,
    limit: u64,
    listed: Result<(), String>,
    read: Result<(), String>,
)
    requires
        call_ensures(check_allowlist_size, (size,), listed),
        call_ensures(check_read_size, (size, limit), read),
    ensures
        listed is Ok <==> size <= 262_144,
        listed matches Err(e) ==> e@ == "operation allowlist exceeds the configured limit"@,
        read is Ok <==> size <= limit,
        read matches Err(e) ==> e@ == "secure file exceeds the configured limit"@,
{
}

} // verus!
