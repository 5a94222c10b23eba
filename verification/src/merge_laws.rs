//! What holds of every merge, proved from the definitions in [`crate::store`].

use crate::store::{
    is_off, is_on, lemma_position_from, lemma_position_same_names, merge_answer, merged,
    merged_all, merged_all_row, names, names_unique, normalized, position, zero_locale,
    LocaleView,
};
use vstd::prelude::*;

verus! {

/// The three statuses a merge can store, spelled out: any case variant of
/// `on` is stored as `on`, any case variant of `off` as `off`, and everything
/// else as the invalid-status marker, never as the text that came in.
pub proof fn law_normalized_spelling(status: Seq<char>)
    ensures
        is_on(status) ==> normalized(status) == seq!['o', 'n'],
        is_off(status) ==> normalized(status) == seq!['o', 'f', 'f'],
        !is_on(status) && !is_off(status) ==> normalized(status) == seq![
            'd', 'e', 'u', ' ', 'r', 'u', 'i', 'm',
        ],
        !(is_on(status) && is_off(status)),
{
    reveal_strlit("on");
    reveal_strlit("off");
    reveal_strlit("deu ruim");
    assert("on"@ =~= seq!['o', 'n']);
    assert("off"@ =~= seq!['o', 'f', 'f']);
    assert("deu ruim"@ =~= seq!['d', 'e', 'u', ' ', 'r', 'u', 'i', 'm']);
}

/// Normalizing twice is normalizing once.
pub proof fn law_normalized_idempotent(status: Seq<char>)
    ensures
        normalized(normalized(status)) == normalized(status),
{
    law_normalized_spelling(status);
    law_normalized_spelling(normalized(status));
}

/// A status that was stored by a merge is never empty, so the zero-value
/// locale cannot be mistaken for a row that was updated.
pub proof fn law_normalized_not_empty(status: Seq<char>)
    ensures
        normalized(status).len() > 0,
{
    law_normalized_spelling(status);
}

/// A merge keeps every row in place under its name: same length, same names,
/// same order.
pub proof fn law_merge_keeps_names(rows: Seq<LocaleView>, incoming: LocaleView)
    ensures
        merged(rows, incoming).len() == rows.len(),
        names(merged(rows, incoming)) == names(rows),
        names_unique(rows) ==> names_unique(merged(rows, incoming)),
{
    lemma_position_from(rows, incoming.locate, 0);
    let after = merged(rows, incoming);
    assert(after.len() == rows.len());
    assert forall|i: int| 0 <= i < rows.len() implies (#[trigger] after[i]).locate
        == rows[i].locate by {}
    assert(names(after) =~= names(rows));
    if names_unique(rows) {
        assert forall|i: int, j: int| 0 <= i < j < after.len() implies (#[trigger] after[i]).locate
            != (#[trigger] after[j]).locate by {
            assert(rows[i].locate != rows[j].locate);
        }
    }
}

/// The first row of a given name sits where it sat before a merge.
pub proof fn law_merge_keeps_positions(
    rows: Seq<LocaleView>,
    incoming: LocaleView,
    name: Seq<char>,
)
    ensures
        position(merged(rows, incoming), name) == position(rows, name),
{
    lemma_position_from(rows, incoming.locate, 0);
    lemma_position_same_names(rows, merged(rows, incoming), name, 0);
}

/// Merging the same locale twice leaves the table, and the answer, as the
/// first merge left them.
pub proof fn law_merge_idempotent(rows: Seq<LocaleView>, incoming: LocaleView)
    ensures
        merged(merged(rows, incoming), incoming) == merged(rows, incoming),
        merge_answer(merged(rows, incoming), incoming) == merge_answer(rows, incoming),
{
    law_merge_last_wins(rows, incoming, incoming);
    law_merge_keeps_positions(rows, incoming, incoming.locate);
    lemma_position_from(rows, incoming.locate, 0);
}

/// A merge of a name that the table does not hold answers with the
/// zero-value locale and leaves the table exactly as it was.
pub proof fn law_merge_miss_is_pure(rows: Seq<LocaleView>, incoming: LocaleView)
    requires
        !names(rows).contains(incoming.locate),
    ensures
        merged(rows, incoming) == rows,
        merge_answer(rows, incoming) == zero_locale(),
{
    lemma_position_from(rows, incoming.locate, 0);
    if let Some(i) = position(rows, incoming.locate) {
        assert(names(rows)[i] == incoming.locate);
    }
}

/// A merge of a name that the table holds stores the normalized status in the
/// first row of that name, answers with that row, and touches no other row.
pub proof fn law_merge_hit(rows: Seq<LocaleView>, incoming: LocaleView, i: int)
    requires
        0 <= i < rows.len(),
        rows[i].locate == incoming.locate,
        forall|j: int| 0 <= j < i ==> (#[trigger] rows[j]).locate != incoming.locate,
    ensures
        merged(rows, incoming)[i].locate == incoming.locate,
        merged(rows, incoming)[i].status == normalized(incoming.status),
        merge_answer(rows, incoming) == merged(rows, incoming)[i],
        forall|j: int| 0 <= j < rows.len() && j != i ==> merged(rows, incoming)[j] == rows[j],
{
    lemma_position_from(rows, incoming.locate, 0);
}

/// Of two merges for one name the later one decides: the table ends as if
/// only the second had been made.  No row is added and none is split.
pub proof fn law_merge_last_wins(rows: Seq<LocaleView>, first: LocaleView, second: LocaleView)
    requires
        first.locate == second.locate,
    ensures
        merged(merged(rows, first), second) == merged(rows, second),
        merged(merged(rows, first), second).len() == rows.len(),
{
    law_merge_keeps_positions(rows, first, second.locate);
    lemma_position_from(rows, first.locate, 0);
    assert(merged(merged(rows, first), second) =~= merged(rows, second));
}

/// Merges for different names do not disturb each other: either order gives
/// the same table.
pub proof fn law_merge_commutes(rows: Seq<LocaleView>, one: LocaleView, other: LocaleView)
    requires
        one.locate != other.locate,
    ensures
        merged(merged(rows, one), other) == merged(merged(rows, other), one),
{
    law_merge_keeps_positions(rows, one, other.locate);
    law_merge_keeps_positions(rows, other, one.locate);
    lemma_position_from(rows, one.locate, 0);
    lemma_position_from(rows, other.locate, 0);
    assert(merged(merged(rows, one), other) =~= merged(merged(rows, other), one));
}

/// Merging a snapshot keeps every row in place under its name: same length,
/// same names, same order.
pub proof fn law_merge_all_keeps_names(rows: Seq<LocaleView>, received: Seq<LocaleView>)
    ensures
        merged_all(rows, received).len() == rows.len(),
        names(merged_all(rows, received)) == names(rows),
        names_unique(rows) ==> names_unique(merged_all(rows, received)),
{
    let after = merged_all(rows, received);
    assert forall|i: int| 0 <= i < rows.len() implies (#[trigger] after[i]).locate
        == rows[i].locate by {}
    assert(names(after) =~= names(rows));
    if names_unique(rows) {
        assert forall|i: int, j: int| 0 <= i < j < after.len() implies (#[trigger] after[i]).locate
            != (#[trigger] after[j]).locate by {
            assert(rows[i].locate != rows[j].locate);
        }
    }
}

/// A row whose name the snapshot does not mention is left as it is.
pub proof fn law_merge_all_skips_unnamed(
    rows: Seq<LocaleView>,
    received: Seq<LocaleView>,
    i: int,
)
    requires
        0 <= i < rows.len(),
        !names(received).contains(rows[i].locate),
    ensures
        merged_all(rows, received)[i] == rows[i],
{
    lemma_position_from(received, rows[i].locate, 0);
    if let Some(j) = position(received, rows[i].locate) {
        assert(names(received)[j] == rows[i].locate);
    }
}

/// In a table without repeated names, every row that the snapshot names
/// takes the normalized status of the first snapshot row of its name.
pub proof fn law_merge_all_takes_named(
    rows: Seq<LocaleView>,
    received: Seq<LocaleView>,
    i: int,
    j: int,
)
    requires
        names_unique(rows),
        0 <= i < rows.len(),
        0 <= j < received.len(),
        received[j].locate == rows[i].locate,
        forall|k: int| 0 <= k < j ==> (#[trigger] received[k]).locate != rows[i].locate,
    ensures
        merged_all(rows, received)[i].locate == rows[i].locate,
        merged_all(rows, received)[i].status == normalized(received[j].status),
{
    lemma_position_from(received, rows[i].locate, 0);
    lemma_position_from(rows, rows[i].locate, 0);
    let first = position(rows, rows[i].locate).unwrap();
    if first < i {
        assert(rows[first].locate != rows[i].locate);
    }
}

/// Merging a snapshot of one row is merging that row.
pub proof fn law_merge_all_of_one(rows: Seq<LocaleView>, incoming: LocaleView)
    ensures
        merged_all(rows, seq![incoming]) == merged(rows, incoming),
{
    let received = seq![incoming];
    lemma_position_from(rows, incoming.locate, 0);
    assert forall|i: int| 0 <= i < rows.len() implies merged_all_row(rows, received, i) == merged(
        rows,
        incoming,
    )[i] by {
        lemma_position_from(received, rows[i].locate, 0);
        lemma_position_from(rows, rows[i].locate, 0);
    }
    assert(merged_all(rows, received) =~= merged(rows, incoming));
}

/// Merging the same snapshot twice leaves the table as the first merge left
/// it.
pub proof fn law_merge_all_idempotent(rows: Seq<LocaleView>, received: Seq<LocaleView>)
    ensures
        merged_all(merged_all(rows, received), received) == merged_all(rows, received),
{
    let once = merged_all(rows, received);
    assert forall|i: int| 0 <= i < rows.len() implies merged_all_row(once, received, i)
        == once[i] by {
        assert forall|k: int| 0 <= k < rows.len() implies (#[trigger] rows[k]).locate
            == once[k].locate by {}
        lemma_position_same_names(rows, once, rows[i].locate, 0);
        lemma_position_from(received, rows[i].locate, 0);
    }
    assert(merged_all(once, received) =~= once);
}

} // verus!
