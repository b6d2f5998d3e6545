//! The leaderboard: the rows it may hold, the names shown for its users, and
//! its text.

use crate::decimal::{
    decimal_int, push_decimal, push_signed_decimal, signed_to_decimal, unsigned_to_decimal,
};
use vstd::prelude::*;

verus! {

/// The most rows a leaderboard holds.
pub const LEADERBOARD_LIMIT: usize = 10;

/// A leaderboard holds at most `LEADERBOARD_LIMIT` rows of user identifier
/// and event count, and no row has a greater count than the row before it.
pub open spec fn is_ranked(rows: Seq<(i64, i64)>) -> bool {
    &&& rows.len() <= LEADERBOARD_LIMIT
    &&& forall|i: int| 0 < i < rows.len() ==> rows[i - 1].1 >= (#[trigger] rows[i]).1
}

/// In a leaderboard no row has a greater count than any row before it.
pub proof fn lemma_ranked_non_increasing(rows: Seq<(i64, i64)>, i: int, j: int)
    requires
        is_ranked(rows),
        0 <= i <= j < rows.len(),
    ensures
        rows[i].1 >= rows[j].1,
    decreases j - i,
{
    if i < j {
        lemma_ranked_non_increasing(rows, i, j - 1);
        assert(rows[j - 1].1 >= rows[j].1);
    }
}

/// The leaderboard of the rows that the store returned for its query of the
/// ten users with the most events: the longest leaderboard that the rows
/// begin with. Rows that are a leaderboard come back unchanged.
pub fn get_leaderboard(rows: &Vec<(i64, i64)>) -> (top: Vec<(i64, i64)>)
    ensures
        is_ranked(top@),
        top@.len() <= rows@.len(),
        top@ == rows@.take(top@.len() as int),
        top@.len() == LEADERBOARD_LIMIT || top@.len() == rows@.len() || (top@.len() > 0
            && rows@[top@.len() as int].1 > rows@[top@.len() - 1].1),
        is_ranked(rows@) ==> top@ == rows@,
{
    let mut top: Vec<(i64, i64)> = Vec::new();
    let mut i: usize = 0;
    while i < rows.len() && i < LEADERBOARD_LIMIT && (i == 0 || rows[i].1 <= rows[i - 1].1)
        invariant
            i <= rows@.len(),
            i <= LEADERBOARD_LIMIT,
            top@ == rows@.take(i as int),
            is_ranked(top@),
        decreases rows@.len() - i,
    {
        top.push(rows[i]);
        assert(top@ =~= rows@.take(i + 1));
        i += 1;
    }
    proof {
        if is_ranked(rows@) {
            if i < rows@.len() {
                assert(rows@[i as int - 1].1 >= rows@[i as int].1);
            }
            assert(top@ =~= rows@);
        }
    }
    top
}

/// The name shown for a user: the name that the directory gave, else the
/// user's identifier in decimal.
pub open spec fn display_name(found: Option<String>, id: int) -> Seq<char> {
    match found {
        Some(name) => name@,
        None => decimal_int(id),
    }
}

/// The name shown for the user `id`, given what the directory lookup gave:
/// `None` stands for a lookup that failed or found no name.
pub fn resolve(found: Option<String>, id: i64) -> (name: String)
    ensures
        name@ == display_name(found, id as int),
        found is None ==> name@ == decimal_int(id as int),
{
    match found {
        Some(name) => name,
        None => signed_to_decimal(id),
    }
}

/// As `resolve`, for an identifier that the platform gives unsigned.
pub fn resolve_unsigned(found: Option<String>, id: u64) -> (name: String)
    ensures
        name@ == display_name(found, id as int),
        found is None ==> name@ == decimal_int(id as int),
{
    match found {
        Some(name) => name,
        None => unsigned_to_decimal(id),
    }
}

/// The name shown for row `i` of a leaderboard, where `names` holds what the
/// directory gave for each row; a row without an entry counts as not found.
pub open spec fn name_at(names: Seq<Option<String>>, i: int, id: int) -> Seq<char> {
    if 0 <= i < names.len() {
        display_name(names[i], id)
    } else {
        decimal_int(id)
    }
}

/// One line of the leaderboard: rank, name and count.
pub open spec fn row_text(rank: int, name: Seq<char>, count: int) -> Seq<char> {
    decimal_int(rank) + seq!['.', ' ', '@'] + name + seq![' ', '-', ' '] + decimal_int(count)
        + seq!['\n']
}

/// The lines of the first `n` rows, ranks starting at 1.
pub open spec fn rows_text(rows: Seq<(i64, i64)>, names: Seq<Option<String>>, n: int) -> Seq<char>
    decreases n,
{
    if n <= 0 {
        Seq::empty()
    } else {
        rows_text(rows, names, n - 1) + row_text(
            n,
            name_at(names, n - 1, rows[n - 1].0 as int),
            rows[n - 1].1 as int,
        )
    }
}

/// The text of the leaderboard: one line per row, or a notice where there is
/// no row.
pub open spec fn board_text(rows: Seq<(i64, i64)>, names: Seq<Option<String>>) -> Seq<char> {
    if rows.len() == 0 {
        "The leaderboard is empty"@
    } else {
        rows_text(rows, names, rows.len() as int)
    }
}

/// The text of the leaderboard for the given rows, with the names that the
/// directory gave for them, in the rows' order.
pub fn leaderboard_text(rows: &Vec<(i64, i64)>, names: &Vec<Option<String>>) -> (text: String)
    ensures
        text@ == board_text(rows@, names@),
{
    if rows.len() == 0 {
        return "The leaderboard is empty".to_owned();
    }
    let mut text = String::new();
    let mut i: usize = 0;
    assert(text@ =~= rows_text(rows@, names@, 0));
    while i < rows.len()
        invariant
            i <= rows@.len(),
            text@ == rows_text(rows@, names@, i as int),
        decreases rows@.len() - i,
    {
        let ghost before = text@;
        let row: (i64, i64) = rows[i];
        push_decimal(&mut text, (i + 1) as u64);
        text.push('.');
        text.push(' ');
        text.push('@');
        let ghost head = text@;
        if i < names.len() {
            match &names[i] {
                Some(name) => {
                    text.push_str(name.as_str());
                },
                None => {
                    push_signed_decimal(&mut text, row.0);
                },
            }
        } else {
            push_signed_decimal(&mut text, row.0);
        }
        assert(text@ == head + name_at(names@, i as int, row.0 as int));
        text.push(' ');
        text.push('-');
        text.push(' ');
        push_signed_decimal(&mut text, row.1);
        text.push('\n');
        assert(text@ =~= before + row_text(
            i + 1,
            name_at(names@, i as int, row.0 as int),
            row.1 as int,
        ));
        i += 1;
    }
    text
}

} // verus!
