//! Making a task definition.

use vstd::prelude::*;
use crate::models::markdown::{TaskInput, TaskInputModel};
use crate::text::{join, joined};

verus! {

/// What is said after a task was made: its name, its file, and its dependencies where it
/// has any.
pub open spec fn created_text(input: TaskInputModel, file_path: Seq<char>) -> Seq<char> {
    "Task '"@ + input.name + "' created.\n  File: "@ + file_path + if input.depends.len() > 0 {
        "\n  Depends: "@ + joined(input.depends, ", "@)
    } else {
        Seq::<char>::empty()
    }
}

/// What is said after a task was made.
pub fn message(input: &TaskInput, file_path: &str) -> (r: String)
    ensures
        r@ == created_text(input@, file_path@),
{
    let mut r = String::from_str("Task '");
    r.append(input.name.as_str());
    r.append("' created.\n  File: ");
    r.append(file_path);
    if input.depends.len() > 0 {
        let ghost before = r@;
        r.append("\n  Depends: ");
        r.append(join(&input.depends, ", ").as_str());
        assert(r@ =~= before + ("\n  Depends: "@ + joined(input@.depends, ", "@)));
    } else {
        assert(r@ =~= r@ + Seq::<char>::empty());
    }
    r
}

} // verus!
