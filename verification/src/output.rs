//! Where a snapshot goes: written under a pending name, then moved to its own.

use crate::scan::{names_task, task_id_char};
use vstd::prelude::*;

verus! {

/// Why a snapshot has no place to go.
#[derive(Debug, Clone, Copy, PartialEq, Eq, Structural)]
pub enum OutputError {
    /// The output exists; it is never overwritten.
    Exists,
    /// The output does not end in a file name.
    NoFileName,
    /// The file under the pending name exists.
    PendingExists,
}

/// The message of an output error about the file at `path`.
pub open spec fn output_message(error: OutputError, path: Seq<char>) -> Seq<char> {
    match error {
        OutputError::Exists => "Output already exists: "@ + path,
        OutputError::NoFileName => "Output must have a file name"@,
        OutputError::PendingExists => "Pending output already exists: "@ + path,
    }
}

impl OutputError {
    /// The message about the file at `path`.
    pub fn message(&self, path: &str) -> (text: String)
        ensures
            text@ == output_message(*self, path@),
    {
        match self {
            OutputError::Exists => {
                let mut text: String = "Output already exists: ".to_owned();
                text.append(path);
                text
            },
            OutputError::NoFileName => "Output must have a file name".to_owned(),
            OutputError::PendingExists => {
                let mut text: String = "Pending output already exists: ".to_owned();
                text.append(path);
                text
            },
        }
    }
}

/// The name under which the snapshot `file_name` is written for a task.
pub open spec fn pending_name(file_name: Seq<char>, task_id: Seq<char>) -> Seq<char> {
    file_name + "."@ + task_id + ".pending"@
}

/// The name under which a snapshot is written, or why it is not.
pub open spec fn planned(
    present: bool,
    file_name: Option<Seq<char>>,
    task_id: Seq<char>,
) -> Result<Seq<char>, OutputError> {
    if present {
        Err(OutputError::Exists)
    } else if file_name is None {
        Err(OutputError::NoFileName)
    } else {
        Ok(pending_name(file_name->0, task_id))
    }
}

/// Decides under which name a snapshot is written, given whether its output exists
/// and the last name in the output's path.
pub fn plan_output(present: bool, file_name: Option<&str>, task_id: &str) -> (pending: Result<
    String,
    OutputError,
>)
    ensures
        match pending {
            Ok(pending) => !present && file_name is Some && pending@ == pending_name(
                file_name->0@,
                task_id@,
            ),
            Err(OutputError::Exists) => present,
            Err(OutputError::NoFileName) => !present && file_name is None,
            Err(OutputError::PendingExists) => false,
        },
        ({
            let plan = planned(
                present,
                match file_name {
                    Some(name) => Some(name@),
                    None => None,
                },
                task_id@,
            );
            match pending {
                Ok(pending) => plan == Ok::<Seq<char>, OutputError>(pending@),
                Err(error) => plan == Err::<Seq<char>, OutputError>(error),
            }
        }),
{
    if present {
        return Err(OutputError::Exists);
    }
    match file_name {
        None => Err(OutputError::NoFileName),
        Some(file_name) => {
            let mut pending: String = file_name.to_owned();
            pending.append(".");
            pending.append(task_id);
            pending.append(".pending");
            Ok(pending)
        },
    }
}

/// Accepts the pending name, unless a file has it already.
pub fn check_pending(present: bool) -> (checked: Result<(), OutputError>)
    ensures
        checked == if present {
            Err(OutputError::PendingExists)
        } else {
            Ok(())
        },
{
    if present {
        Err(OutputError::PendingExists)
    } else {
        Ok(())
    }
}

/// The pending name is never the output's own.
pub proof fn pending_name_is_another(file_name: Seq<char>, task_id: Seq<char>)
    ensures
        pending_name(file_name, task_id) != file_name,
{
    reveal_strlit(".");
    assert(pending_name(file_name, task_id).len() > file_name.len());
}

/// Different tasks write the same output under different pending names.
pub proof fn tasks_do_not_share_pending_names(
    file_name: Seq<char>,
    task_a: Seq<char>,
    task_b: Seq<char>,
)
    requires
        task_a != task_b,
    ensures
        pending_name(file_name, task_a) != pending_name(file_name, task_b),
{
    let a = pending_name(file_name, task_a);
    let b = pending_name(file_name, task_b);
    if a == b {
        let added = "."@.len() + ".pending"@.len();
        assert(a.len() == file_name.len() + task_a.len() + added);
        assert(b.len() == file_name.len() + task_b.len() + added);
        let from = (file_name.len() + "."@.len()) as int;
        assert(a.subrange(from, from + task_a.len()) =~= task_a);
        assert(b.subrange(from, from + task_b.len()) =~= task_b);
    }
}

/// A valid task identifier brings no path separator into the pending name: whatever
/// is no letter, digit, hyphen or period stands in the pending name only where it
/// stands in the file name, so the pending file is beside the output.
pub proof fn pending_file_is_beside_output(file_name: Seq<char>, task_id: Seq<char>, c: char)
    requires
        names_task(task_id),
        !task_id_char(c),
        c != '.',
    ensures
        pending_name(file_name, task_id).contains(c) <==> file_name.contains(c),
{
    reveal_strlit(".");
    reveal_strlit(".pending");
    let pending = pending_name(file_name, task_id);
    if file_name.contains(c) {
        let i = choose|i: int| 0 <= i < file_name.len() && file_name[i] == c;
        assert(pending[i] == c);
    }
    if pending.contains(c) {
        let i = choose|i: int| 0 <= i < pending.len() && pending[i] == c;
        let start = file_name.len() as int;
        if i < start {
            assert(file_name[i] == c);
        } else if i == start {
            assert(pending[i] == "."@[0]);
        } else if i < start + 1 + task_id.len() {
            assert(pending[i] == task_id[i - start - 1]);
        } else {
            assert(pending[i] == ".pending"@[i - start - 1 - task_id.len()]);
        }
    }
}

/// The pending name is the file name, a period, the task and `.pending`, in this order
/// and with nothing else.
pub proof fn pending_names_are_made_of(file_name: Seq<char>, task_id: Seq<char>)
    ensures
        ({
            let pending = pending_name(file_name, task_id);
            let task_at = file_name.len() as int + 1;
            let end_at = task_at + task_id.len();
            &&& pending.len() == end_at + 8
            &&& pending.subrange(0, file_name.len() as int) == file_name
            &&& pending[file_name.len() as int] == '.'
            &&& pending.subrange(task_at, end_at) == task_id
            &&& pending.subrange(end_at, pending.len() as int) == seq![
                '.',
                'p',
                'e',
                'n',
                'd',
                'i',
                'n',
                'g',
            ]
        }),
{
    reveal_strlit(".");
    reveal_strlit(".pending");
    let pending = pending_name(file_name, task_id);
    let task_at = file_name.len() as int + 1;
    let end_at = task_at + task_id.len();
    assert(".pending"@ =~= seq!['.', 'p', 'e', 'n', 'd', 'i', 'n', 'g']);
    assert(pending.subrange(0, file_name.len() as int) =~= file_name);
    assert(pending.subrange(task_at, end_at) =~= task_id);
    assert(pending.subrange(end_at, pending.len() as int) =~= ".pending"@);
}

/// Messages about a file end in its path; that about a missing name stands alone.
pub proof fn messages_name_the_file(path: Seq<char>)
    ensures
        output_message(OutputError::Exists, path) == "Output already exists: "@ + path,
        output_message(OutputError::PendingExists, path) == "Pending output already exists: "@
            + path,
        output_message(OutputError::NoFileName, path) == "Output must have a file name"@,
{
}

/// An output that is there is never written to, whatever its name; one that is not
/// is written exactly when it has a name, and that name, not its presence, decides
/// where.
pub proof fn outputs_are_never_overwritten(
    present: bool,
    file_name: Option<Seq<char>>,
    task_id: Seq<char>,
)
    ensures
        planned(present, file_name, task_id) is Ok <==> !present && file_name is Some,
        planned(present, file_name, task_id) == Err::<Seq<char>, OutputError>(
            OutputError::Exists,
        ) <==> present,
        planned(present, file_name, task_id) == Err::<Seq<char>, OutputError>(
            OutputError::NoFileName,
        ) <==> !present && file_name is None,
        planned(present, file_name, task_id) matches Ok(pending) ==> pending == file_name->0 + "."@
            + task_id + ".pending"@,
{
}

} // verus!
