//! The report of a validation.

use vstd::prelude::*;
use crate::error::{WtError, WtErrorModel};
use crate::models::checks::{Finding, findings};
use crate::models::store::TaskStore;
use crate::models::task::Task;
use crate::text::{chars_of, contains_text, decimal, has_infix, join, joined, push_decimal, same_text, texts};

verus! {

/// Whether a finding is about `name`: its subject is `name` or holds it.
pub open spec fn is_about(f: Finding, name: Seq<char>) -> bool {
    f.0 == name || has_infix(f.0, name)
}

/// The findings that are reported: all of them, or those about `name`.
pub open spec fn reported(fs: Seq<Finding>, name: Option<Seq<char>>) -> Seq<Finding>
    decreases fs.len(),
{
    if fs.len() == 0 {
        Seq::<Finding>::empty()
    } else if name is None || is_about(fs.last(), name->Some_0) {
        reported(fs.drop_last(), name).push(fs.last())
    } else {
        reported(fs.drop_last(), name)
    }
}

/// The line of a finding.
pub open spec fn finding_line(f: Finding) -> Seq<char> {
    "✗ "@ + f.0 + ": "@ + f.1
}

/// A report, line by line: that all of `count` tasks are valid where `lines` is empty,
/// else `lines`, an empty line and their number.
pub open spec fn report_of(lines: Seq<Seq<char>>, count: nat) -> Seq<Seq<char>> {
    if lines.len() == 0 {
        seq!["✓ All "@ + decimal(count) + " task(s) valid."@]
    } else {
        lines + seq![Seq::<char>::empty(), decimal(lines.len()) + " error(s) found."@]
    }
}

/// The report of the findings `fs` about `count` tasks, line by line.
pub open spec fn report_lines(fs: Seq<Finding>, count: nat) -> Seq<Seq<char>> {
    report_of(fs.map_values(|f: Finding| finding_line(f)), count)
}

/// The view of an optional name.
pub open spec fn wanted(name: Option<&str>) -> Option<Seq<char>> {
    match name {
        Some(n) => Some(n@),
        None => None,
    }
}

/// The lines of the findings that are reported.
fn kept_lines(errors: &Vec<(String, String)>, name: Option<&str>) -> (r: Vec<String>)
    ensures
        texts(r@) == reported(findings(errors@), wanted(name)).map_values(
            |f: Finding| finding_line(f),
        ),
{
    let ghost all = findings(errors@);
    let mut lines: Vec<String> = Vec::new();
    let mut i: usize = 0;
    assert(all.take(0) =~= Seq::<Finding>::empty());
    assert(texts(lines@) =~= Seq::<Seq<char>>::empty());
    while i < errors.len()
        invariant
            i <= errors.len(),
            all == findings(errors@),
            texts(lines@) == reported(all.take(i as int), wanted(name)).map_values(
                |f: Finding| finding_line(f),
            ),
        decreases errors.len() - i,
    {
        proof {
            assert(all.take(i + 1).drop_last() =~= all.take(i as int));
            assert(all.take(i + 1).last() == (errors@[i as int].0@, errors@[i as int].1@));
        }
        let keep = match name {
            None => true,
            Some(n) => {
                let subject = chars_of(errors[i].0.as_str());
                let part = chars_of(n);
                same_text(errors[i].0.as_str(), n) || contains_text(&subject, &part)
            },
        };
        if keep {
            let ghost before = lines@;
            let mut line = String::from_str("✗ ");
            line.append(errors[i].0.as_str());
            line.append(": ");
            line.append(errors[i].1.as_str());
            lines.push(line);
            proof {
                let f = (errors@[i as int].0@, errors@[i as int].1@);
                assert(texts(lines@) =~= texts(before).push(finding_line(f)));
                assert(reported(all.take(i + 1), wanted(name)).map_values(
                    |f: Finding| finding_line(f),
                ) =~= reported(all.take(i as int), wanted(name)).map_values(
                    |f: Finding| finding_line(f),
                ).push(finding_line(f)));
            }
        }
        i += 1;
    }
    assert(all.take(errors.len() as int) =~= all);
    lines
}

/// The text of a report about `total` tasks with the lines `lines`.
fn finish(lines: Vec<String>, total: usize) -> (r: String)
    ensures
        r@ == joined(report_of(texts(lines@), total as nat), "\n"@) + "\n"@,
{
    let mut lines = lines;
    let ghost body = texts(lines@);
    let count = lines.len();
    if count == 0 {
        let mut line = String::from_str("✓ All ");
        push_decimal(&mut line, total as u64);
        line.append(" task(s) valid.");
        lines.push(line);
        assert(texts(lines@) =~= report_of(body, total as nat));
    } else {
        lines.push(String::new());
        let mut line = String::new();
        push_decimal(&mut line, count as u64);
        line.append(" error(s) found.");
        assert(line@ =~= decimal(count as nat) + " error(s) found."@);
        lines.push(line);
        assert(texts(lines@) =~= report_of(body, total as nat));
    }
    let mut r = join(&lines, "\n");
    r.append("\n");
    r
}

/// What the `validate` command prints, for all tasks or for the task `name`. Fails where
/// `name` is given and not defined.
pub fn execute(store: &TaskStore, name: Option<&str>) -> (r: Result<String, WtError>)
    ensures
        name is Some && !store@.tasks.dom().contains(name->Some_0@) ==> r is Err && r->Err_0@
            == WtErrorModel::TaskNotFound(name->Some_0@),
        !(name is Some && !store@.tasks.dom().contains(name->Some_0@)) ==> r is Ok,
        r is Ok && store.tasks.names().len() == 0 ==> r->Ok_0@ == "No tasks found in .wt/tasks/\n"@,
        r is Ok && store.tasks.names().len() > 0 ==> exists|
            l: Seq<Task>,
            cycles: Seq<Option<Seq<Seq<char>>>>,
            found: Seq<Finding>,
        | #[trigger]
            store.validated(l, cycles, found) && r->Ok_0@ == joined(
                report_lines(
                    reported(found, wanted(name)),
                    if name is Some {
                        1
                    } else {
                        store.tasks.names().len()
                    },
                ),
                "\n"@,
            ) + "\n"@,
{
    match name {
        Some(n) => {
            if !store.tasks.contains_key(n) {
                return Err(WtError::TaskNotFound(String::from_str(n)));
            }
        },
        None => {},
    }
    if store.tasks.len() == 0 {
        return Ok(String::from_str("No tasks found in .wt/tasks/\n"));
    }
    let errors = store.validate();
    let lines = kept_lines(&errors, name);
    let total: usize = if name.is_some() {
        1
    } else {
        store.tasks.len()
    };
    let r = finish(lines, total);
    proof {
        let (l, cycles) = choose|l: Seq<Task>, cycles: Seq<Option<Seq<Seq<char>>>>| #[trigger]
            store.validated(l, cycles, findings(errors@));
        assert(store.validated(l, cycles, findings(errors@)));
    }
    Ok(r)
}

} // verus!
