//! The state store: the table of locales and the merge that reconciles a
//! status reported by the controller into it.

use crate::merge_laws::{law_merge_all_keeps_names, law_merge_keeps_names};
use vstd::prelude::*;
use vstd::string::*;

verus! {

/// A named controllable location and its last known status.
#[derive(Debug)]
pub struct Locale {
    pub locate: String,
    pub status: String,
}

/// What a [`Locale`] is to the contracts: its name and its status as text.
pub struct LocaleView {
    pub locate: Seq<char>,
    pub status: Seq<char>,
}

impl View for Locale {
    type V = LocaleView;

    open spec fn view(&self) -> LocaleView {
        LocaleView { locate: self.locate@, status: self.status@ }
    }
}

/// The status stored in place of anything that is neither `on` nor `off`.
pub open spec fn invalid_status() -> Seq<char> {
    "deu ruim"@
}

/// `status` reads `on`, in any mix of upper and lower case.
pub open spec fn is_on(status: Seq<char>) -> bool {
    &&& status.len() == 2
    &&& (status[0] == 'o' || status[0] == 'O')
    &&& (status[1] == 'n' || status[1] == 'N')
}

/// `status` reads `off`, in any mix of upper and lower case.
pub open spec fn is_off(status: Seq<char>) -> bool {
    &&& status.len() == 3
    &&& (status[0] == 'o' || status[0] == 'O')
    &&& (status[1] == 'f' || status[1] == 'F')
    &&& (status[2] == 'f' || status[2] == 'F')
}

/// The status that the store keeps for a status as the controller sent it.
pub open spec fn normalized(status: Seq<char>) -> Seq<char> {
    if is_on(status) {
        "on"@
    } else if is_off(status) {
        "off"@
    } else {
        invalid_status()
    }
}

/// Whether `status` reads `on`, in any mix of upper and lower case.
pub fn reads_on(status: &str) -> (yes: bool)
    ensures
        yes == is_on(status@),
{
    if status.unicode_len() != 2 {
        return false;
    }
    let first = status.get_char(0);
    let second = status.get_char(1);
    (first == 'o' || first == 'O') && (second == 'n' || second == 'N')
}

/// Whether `status` reads `off`, in any mix of upper and lower case.
pub fn reads_off(status: &str) -> (yes: bool)
    ensures
        yes == is_off(status@),
{
    if status.unicode_len() != 3 {
        return false;
    }
    let first = status.get_char(0);
    let second = status.get_char(1);
    let third = status.get_char(2);
    (first == 'o' || first == 'O') && (second == 'f' || second == 'F') && (third == 'f' || third
        == 'F')
}

/// Normalizes a status received from the network.
pub fn normalize(status: &str) -> (stored: String)
    ensures
        stored@ == normalized(status@),
{
    if reads_on(status) {
        String::from_str("on")
    } else if reads_off(status) {
        String::from_str("off")
    } else {
        String::from_str("deu ruim")
    }
}

/// Stores the normalized form of `received_status` in `locale`.
pub fn chose_on_off(locale: &mut Locale, received_status: String)
    ensures
        final(locale).locate@ == old(locale).locate@,
        final(locale).status@ == normalized(received_status@),
{
    locale.status = normalize(received_status.as_str());
}

impl Clone for Locale {
    /// A locale with the same name and status as this one.
    fn clone(&self) -> (copy: Locale)
        ensures
            copy@ == self@,
    {
        Locale { locate: self.locate.clone(), status: self.status.clone() }
    }
}

impl Default for Locale {
    /// The zero-value locale: no name and no status.  A merge answers with it
    /// when the table holds no row of the incoming name.
    fn default() -> (zero: Locale)
        ensures
            zero@ == zero_locale(),
    {
        Locale { locate: String::new(), status: String::new() }
    }
}

/// The view of the zero-value locale.
pub open spec fn zero_locale() -> LocaleView {
    LocaleView { locate: Seq::empty(), status: Seq::empty() }
}

/// The ordered table of locales.  Rows keep the order in which they were
/// loaded; a merge never adds, removes or renames one.
#[derive(Debug)]
pub struct LocaleTable {
    pub locale_list: Vec<Locale>,
}

impl View for LocaleTable {
    type V = Seq<LocaleView>;

    open spec fn view(&self) -> Seq<LocaleView> {
        self.locale_list@.map_values(|row: Locale| row@)
    }
}

/// The names of `rows`, in order.
pub open spec fn names(rows: Seq<LocaleView>) -> Seq<Seq<char>> {
    rows.map_values(|row: LocaleView| row.locate)
}

/// No two rows share a name.
pub open spec fn names_unique(rows: Seq<LocaleView>) -> bool {
    forall|i: int, j: int|
        0 <= i < j < rows.len() ==> (#[trigger] rows[i]).locate != (#[trigger] rows[j]).locate
}

/// The index of the first row at or after `from` that is named `name`.
pub open spec fn position_from(rows: Seq<LocaleView>, name: Seq<char>, from: int) -> Option<int>
    decreases rows.len() - from,
{
    if from < 0 || from >= rows.len() {
        None
    } else if rows[from].locate == name {
        Some(from)
    } else {
        position_from(rows, name, from + 1)
    }
}

/// The index of the first row named `name`.
pub open spec fn position(rows: Seq<LocaleView>, name: Seq<char>) -> Option<int> {
    position_from(rows, name, 0)
}

/// The table after `incoming` has been merged into `rows`: the first row of
/// that name takes the normalized status, every other row stays as it is.
pub open spec fn merged(rows: Seq<LocaleView>, incoming: LocaleView) -> Seq<LocaleView> {
    match position(rows, incoming.locate) {
        Some(i) => rows.update(
            i,
            LocaleView { locate: rows[i].locate, status: normalized(incoming.status) },
        ),
        None => rows,
    }
}

/// What a merge of `incoming` into `rows` answers: the row as it stands after
/// the merge, or the zero-value locale where no row has that name.
pub open spec fn merge_answer(rows: Seq<LocaleView>, incoming: LocaleView) -> LocaleView {
    match position(rows, incoming.locate) {
        Some(i) => merged(rows, incoming)[i],
        None => zero_locale(),
    }
}

/// Row `i` of the table after a whole snapshot `received` has been merged
/// into `rows`.  A row changes only if it is the first of its name and the
/// snapshot names it; it then takes the normalized status of the first
/// snapshot row of that name.
pub open spec fn merged_all_row(
    rows: Seq<LocaleView>,
    received: Seq<LocaleView>,
    i: int,
) -> LocaleView {
    let name = rows[i].locate;
    match position(received, name) {
        Some(j) if position(rows, name) == Some(i) => LocaleView {
            locate: name,
            status: normalized(received[j].status),
        },
        _ => rows[i],
    }
}

/// The table after a whole snapshot `received` has been merged into `rows`.
pub open spec fn merged_all(rows: Seq<LocaleView>, received: Seq<LocaleView>) -> Seq<LocaleView> {
    Seq::new(rows.len(), |i: int| merged_all_row(rows, received, i))
}

/// The table while a snapshot is being merged, after the first `done` rows
/// have been looked up in it.
spec fn merged_upto(
    rows: Seq<LocaleView>,
    received: Seq<LocaleView>,
    done: int,
) -> Seq<LocaleView> {
    Seq::new(
        rows.len(),
        |i: int|
            if i < done {
                merged_all_row(rows, received, i)
            } else {
                rows[i]
            },
    )
}

/// What `position_from` finds, said without recursion.
pub proof fn lemma_position_from(rows: Seq<LocaleView>, name: Seq<char>, from: int)
    requires
        0 <= from,
    ensures
        match position_from(rows, name, from) {
            Some(i) => {
                &&& from <= i < rows.len()
                &&& rows[i].locate == name
                &&& forall|j: int| from <= j < i ==> (#[trigger] rows[j]).locate != name
            },
            None => forall|j: int| from <= j < rows.len() ==> (#[trigger] rows[j]).locate != name,
        },
    decreases rows.len() - from,
{
    if from < rows.len() && rows[from].locate != name {
        lemma_position_from(rows, name, from + 1);
    }
}

impl Clone for LocaleTable {
    /// A table with the same rows as this one.
    fn clone(&self) -> (copy: LocaleTable)
        ensures
            copy@ == self@,
    {
        let mut rows: Vec<Locale> = Vec::new();
        let mut i: usize = 0;
        while i < self.locale_list.len()
            invariant
                i <= self.locale_list.len(),
                rows.len() == i,
                forall|j: int| 0 <= j < i ==> (#[trigger] rows[j])@ == self.locale_list[j]@,
            decreases self.locale_list.len() - i,
        {
            rows.push(self.locale_list[i].clone());
            i += 1;
        }
        let copy = LocaleTable { locale_list: rows };
        assert(copy@ =~= self@);
        copy
    }
}

impl LocaleTable {
    /// The table is well formed: no two rows share a name.  Loading
    /// establishes this and every merge keeps it.
    pub open spec fn wf(&self) -> bool {
        names_unique(self@)
    }

    /// Whether no two rows share a name.
    pub fn has_unique_names(&self) -> (yes: bool)
        ensures
            yes == self.wf(),
    {
        let mut j: usize = 0;
        while j < self.locale_list.len()
            invariant
                j <= self.locale_list.len(),
                forall|a: int, b: int|
                    0 <= a < b < j ==> (#[trigger] self@[a]).locate != (#[trigger] self@[b]).locate,
            decreases self.locale_list.len() - j,
        {
            let mut i: usize = 0;
            while i < j
                invariant
                    i <= j < self.locale_list.len(),
                    forall|a: int|
                        0 <= a < i ==> (#[trigger] self@[a]).locate != self@[j as int].locate,
                decreases j - i,
            {
                assert(self@[i as int].locate == self.locale_list[i as int].locate@);
                assert(self@[j as int].locate == self.locale_list[j as int].locate@);
                if self.locale_list[i].locate == self.locale_list[j].locate {
                    return false;
                }
                i += 1;
            }
            j += 1;
        }
        assert(self@.len() == self.locale_list.len());
        true
    }

    /// The index of the first row named `name`, if any row is.
    pub fn find(&self, name: &String) -> (found: Option<usize>)
        ensures
            match found {
                Some(i) => i < self.locale_list.len() && position(self@, name@) == Some(i as int),
                None => position(self@, name@) is None,
            },
    {
        let mut i: usize = 0;
        while i < self.locale_list.len()
            invariant
                i <= self.locale_list.len(),
                position(self@, name@) == position_from(self@, name@, i as int),
            decreases self.locale_list.len() - i,
        {
            if self.locale_list[i].locate == *name {
                return Some(i);
            }
            i += 1;
        }
        None
    }

    /// Merges a locale reported by the controller into the table.
    ///
    /// The first row named like `incoming` takes the normalized form of its
    /// status and is returned.  Where no row has that name the table is left
    /// as it is and the zero-value locale is returned: a merge never inserts.
    pub fn merge(&mut self, incoming: &Locale) -> (answer: Locale)
        ensures
            final(self)@ == merged(old(self)@, incoming@),
            final(self).locale_list.len() == old(self).locale_list.len(),
            names(final(self)@) == names(old(self)@),
            old(self).wf() ==> final(self).wf(),
            answer@ == merge_answer(old(self)@, incoming@),
    {
        proof {
            law_merge_keeps_names(self@, incoming@);
        }
        match self.find(&incoming.locate) {
            Some(i) => {
                proof {
                    lemma_position_from(self@, incoming@.locate, 0);
                }
                chose_on_off(&mut self.locale_list[i], incoming.status.clone());
                assert(self@ =~= merged(old(self)@, incoming@));
                self.locale_list[i].clone()
            },
            None => Locale::default(),
        }
    }
}

/// Two tables that agree on every name find a name at the same place.
pub proof fn lemma_position_same_names(
    left: Seq<LocaleView>,
    right: Seq<LocaleView>,
    name: Seq<char>,
    from: int,
)
    requires
        0 <= from,
        left.len() == right.len(),
        forall|i: int| 0 <= i < left.len() ==> (#[trigger] left[i]).locate == right[i].locate,
    ensures
        position_from(left, name, from) == position_from(right, name, from),
    decreases left.len() - from,
{
    if from < left.len() {
        assert(left[from].locate == right[from].locate);
        if left[from].locate != name {
            lemma_position_same_names(left, right, name, from + 1);
        }
    }
}

/// Looking up row `done` of `rows` in the snapshot and merging what is found
/// takes the table from `merged_upto(.., done)` to `merged_upto(.., done + 1)`.
proof fn lemma_merge_all_step(rows: Seq<LocaleView>, received: Seq<LocaleView>, done: int)
    requires
        0 <= done < rows.len(),
    ensures
        match position(received, rows[done].locate) {
            Some(j) => merged(merged_upto(rows, received, done), received[j]) == merged_upto(
                rows,
                received,
                done + 1,
            ),
            None => merged_upto(rows, received, done) == merged_upto(rows, received, done + 1),
        },
{
    let name = rows[done].locate;
    let before = merged_upto(rows, received, done);
    let after = merged_upto(rows, received, done + 1);
    lemma_position_from(received, name, 0);
    lemma_position_from(rows, name, 0);
    assert forall|i: int| 0 <= i < rows.len() implies (#[trigger] rows[i]).locate
        == before[i].locate by {}
    lemma_position_same_names(rows, before, name, 0);
    match position(received, name) {
        Some(j) => {
            assert(merged(before, received[j]) =~= after);
        },
        None => {
            assert(before =~= after);
        },
    }
}

impl LocaleTable {
    /// Merges a whole snapshot from the controller into the table.
    ///
    /// Every name that both the table and the snapshot hold is merged once,
    /// with the status of the first snapshot row of that name.  Rows whose
    /// name the snapshot does not mention stay as they are, and rows of the
    /// snapshot that the table does not hold are ignored.
    pub fn merge_all(&mut self, received: &LocaleTable)
        ensures
            final(self)@ == merged_all(old(self)@, received@),
            final(self).locale_list.len() == old(self).locale_list.len(),
            names(final(self)@) == names(old(self)@),
            old(self).wf() ==> final(self).wf(),
    {
        proof {
            law_merge_all_keeps_names(self@, received@);
        }
        let ghost rows = self@;
        let mut k: usize = 0;
        assert(self@ =~= merged_upto(rows, received@, 0));
        while k < self.locale_list.len()
            invariant
                k <= self.locale_list.len(),
                self.locale_list.len() == rows.len(),
                self.locale_list.len() == old(self).locale_list.len(),
                self@ == merged_upto(rows, received@, k as int),
            decreases self.locale_list.len() - k,
        {
            proof {
                lemma_merge_all_step(rows, received@, k as int);
                assert(self.locale_list[k as int].locate@ == self@[k as int].locate);
                assert(self@[k as int] == rows[k as int]);
            }
            let found = received.find(&self.locale_list[k].locate);
            if let Some(j) = found {
                assert(received.locale_list[j as int]@ == received@[j as int]);
                self.merge(&received.locale_list[j]);
            }
            k += 1;
        }
        assert(self@ =~= merged_all(rows, received@));
    }
}

} // verus!
