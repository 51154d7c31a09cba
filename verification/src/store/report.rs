//! What the migration tool prints.

use vstd::prelude::*;
use vstd::string::*;

use crate::numeral;

verus! {

/// The line of one migration.
pub open spec fn migration_line(version: i64, file_name: Seq<char>) -> Seq<char> {
    "  "@ + numeral::signed_decimal(version as int) + ": "@ + file_name
}

/// The lines of a list of migrations under a heading; `none` where there are
/// none.
pub open spec fn listed(heading: Seq<char>, migrations: Seq<(i64, String)>) -> Seq<Seq<char>> {
    if migrations.len() == 0 {
        seq![heading + ": none"@]
    } else {
        seq![heading + ":"@] + Seq::new(
            migrations.len(),
            |i: int| migration_line(migrations[i].0, migrations[i].1@),
        )
    }
}

/// The lines as text.
pub open spec fn views(lines: Seq<String>) -> Seq<Seq<char>> {
    Seq::new(lines.len(), |i: int| lines[i]@)
}

fn push_list(lines: &mut Vec<String>, heading: &str, migrations: &Vec<(i64, String)>)
    ensures
        views(final(lines)@) == views(old(lines)@) + listed(heading@, migrations@),
{
    let ghost before = views(lines@);
    if migrations.len() == 0 {
        lines.push(heading.to_owned().concat(": none"));
        assert(views(lines@) =~= before + listed(heading@, migrations@));
        return;
    }
    lines.push(heading.to_owned().concat(":"));
    let ghost all = listed(heading@, migrations@);
    assert(views(lines@) =~= before + all.take(1));
    let mut i: usize = 0;
    while i < migrations.len()
        invariant
            i <= migrations@.len(),
            migrations@.len() > 0,
            all == listed(heading@, migrations@),
            views(lines@) == before + all.take(i + 1),
        decreases migrations@.len() - i,
    {
        let line = "  ".to_owned().concat(
            numeral::signed_decimal_text(migrations[i].0).as_str(),
        ).concat(": ").concat(migrations[i].1.as_str());
        let ghost grown = views(lines@).push(line@);
        lines.push(line);
        assert(views(lines@) =~= grown);
        assert(all[i + 1] == line@);
        assert(grown =~= before + all.take(i + 2));
        i += 1;
    }
    assert(all.take(i + 1) =~= all);
}

/// The lines of `status`: the version of the database, and what is pending.
pub fn status_lines(current: i64, pending: &Vec<(i64, String)>) -> (res: Vec<String>)
    ensures
        views(res@) == seq!["schema_version: "@ + numeral::signed_decimal(current as int)] + listed(
            "pending"@,
            pending@,
        ),
{
    let mut lines: Vec<String> = Vec::new();
    lines.push(
        "schema_version: ".to_owned().concat(numeral::signed_decimal_text(current).as_str()),
    );
    assert(views(lines@) =~= seq!["schema_version: "@ + numeral::signed_decimal(current as int)]);
    push_list(&mut lines, "pending", pending);
    lines
}

/// The lines of `up --dry-run`: as `status`, with the remark that nothing was
/// written.
pub fn dry_run_lines(current: i64, pending: &Vec<(i64, String)>) -> (res: Vec<String>)
    ensures
        views(res@) == seq![
            "schema_version: "@ + numeral::signed_decimal(current as int),
            "dry-run: no changes written"@,
        ] + listed("pending"@, pending@),
{
    let mut lines: Vec<String> = Vec::new();
    lines.push(
        "schema_version: ".to_owned().concat(numeral::signed_decimal_text(current).as_str()),
    );
    lines.push("dry-run: no changes written".to_owned());
    assert(views(lines@) =~= seq![
        "schema_version: "@ + numeral::signed_decimal(current as int),
        "dry-run: no changes written"@,
    ]);
    push_list(&mut lines, "pending", pending);
    lines
}

/// The lines of `up`: what was applied.
pub fn applied_lines(applied: &Vec<(i64, String)>) -> (res: Vec<String>)
    ensures
        views(res@) == listed("applied"@, applied@),
{
    let mut lines: Vec<String> = Vec::new();
    push_list(&mut lines, "applied", applied);
    assert(views(lines@) =~= listed("applied"@, applied@));
    lines
}

} // verus!
