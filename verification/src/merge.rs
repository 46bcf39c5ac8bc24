//! Merging artists or albums: the selection of the rows to merge, the texts
//! shown while merging, and what a merge renames.
use std::collections::HashSet;
use vstd::prelude::*;
use vstd::string::*;
use crate::decimal::digits;
use crate::util::{plural_word, Plural};

verus! {

broadcast use vstd::std_specs::hash::group_hash_axioms;

/// The rows of a list chosen for a merge, each row named by its position.
/// Rows are chosen only while merging; leaving a merge drops the choice.
pub struct MergeSelection {
    merging: bool,
    selected: HashSet<u64>,
}

impl View for MergeSelection {
    type V = (bool, Set<u64>);

    closed spec fn view(&self) -> (bool, Set<u64>) {
        (self.merging, self.selected@)
    }
}

impl MergeSelection {
    /// Whether the selection is consistent: a finite choice of rows, and none
    /// outside a merge.
    pub open spec fn wf(&self) -> bool {
        &&& self@.1.finite()
        &&& !self@.0 ==> self@.1.is_empty()
    }

    /// No merge, no row chosen.
    pub fn new() -> (selection: Self)
        ensures
            selection.wf(),
            selection@ == (false, Set::<u64>::empty()),
    {
        MergeSelection { merging: false, selected: HashSet::new() }
    }

    /// Whether a merge is going on.
    pub fn is_merging(&self) -> (merging: bool)
        ensures
            merging == self@.0,
    {
        self.merging
    }

    /// Whether `row` is chosen.
    pub fn is_selected(&self, row: u64) -> (selected: bool)
        ensures
            selected == self@.1.contains(row),
    {
        self.selected.contains(&row)
    }

    /// How many rows are chosen.
    pub fn count(&self) -> (count: usize)
        requires
            self.wf(),
        ensures
            count == self@.1.len(),
    {
        self.selected.len()
    }

    /// Starts a merge, keeping the rows chosen; says whether one was not
    /// already going on.
    pub fn start(&mut self) -> (started: bool)
        requires
            old(self).wf(),
        ensures
            final(self).wf(),
            started == !old(self)@.0,
            final(self)@ == (true, old(self)@.1),
    {
        if self.merging {
            false
        } else {
            self.merging = true;
            true
        }
    }

    /// Ends a merge: no merge, no row chosen.
    pub fn end(&mut self)
        requires
            old(self).wf(),
        ensures
            final(self).wf(),
            final(self)@ == (false, Set::<u64>::empty()),
    {
        self.selected.clear();
        self.merging = false;
    }

    /// Chooses `row` during a merge.
    pub fn select(&mut self, row: u64)
        requires
            old(self).wf(),
            old(self)@.0,
        ensures
            final(self).wf(),
            final(self)@ == (true, old(self)@.1.insert(row)),
    {
        self.selected.insert(row);
    }

    /// The release of a click on `row`: during a merge it flips whether the
    /// row is chosen; otherwise nothing changes, and the click opens the row
    /// when it was released within the row (`inside`). Says whether it opens
    /// the row.
    pub fn click(&mut self, row: u64, inside: bool) -> (opens: bool)
        requires
            old(self).wf(),
        ensures
            final(self).wf(),
            opens == (!old(self)@.0 && inside),
            final(self)@ == (if !old(self)@.0 {
                old(self)@
            } else if old(self)@.1.contains(row) {
                (true, old(self)@.1.remove(row))
            } else {
                (true, old(self)@.1.insert(row))
            }),
    {
        if !self.merging {
            return inside;
        }
        if self.selected.contains(&row) {
            self.selected.remove(&row);
        } else {
            self.selected.insert(row);
        }
        false
    }

    /// A pinch over the list: the first row under the pinch's top starts a
    /// merge and is chosen, then the first row from there under its bottom is
    /// chosen too. `top_hits[i]` and `bottom_hits[i]` say whether row `i`
    /// lies under the top and the bottom of the pinch.
    pub fn pinch(&mut self, top_hits: &Vec<bool>, bottom_hits: &Vec<bool>)
        requires
            old(self).wf(),
            top_hits@.len() == bottom_hits@.len(),
            top_hits@.len() <= u64::MAX,
        ensures
            final(self).wf(),
            final(self)@ == pinched(old(self)@, top_hits@, bottom_hits@),
    {
        let rows = pinch_rows(top_hits, bottom_hits);
        match rows.0 {
            None => {
                assert(first_hit(top_hits@, 0) is None);
            },
            Some(t) => {
                self.start();
                self.select(t as u64);
                assert(first_hit(top_hits@, 0) == Some(t as int));
                match rows.1 {
                    None => {
                        assert(first_hit(bottom_hits@, t as int) is None);
                    },
                    Some(b) => {
                        self.select(b as u64);
                        assert(first_hit(bottom_hits@, t as int) == Some(b as int));
                    },
                }
            },
        }
    }

    /// Whether the merge can go ahead: at least two rows are chosen.
    pub fn merge_enabled(&self) -> (enabled: bool)
        requires
            self.wf(),
        ensures
            enabled == (self@.1.len() > 1),
    {
        self.selected.len() > 1
    }

    /// The subtitle during a merge: how many `entity` are chosen.
    pub fn selected_subtitle(&self, entity: &str) -> (subtitle: String)
        requires
            self.wf(),
        ensures
            subtitle@ == digits(self@.1.len()) + seq![' '] + plural_word(self@.1.len() == 1, entity@)
                + " selected"@,
    {
        let count = self.selected.len();
        let counted = count.number_plural(entity);
        counted.concat(" selected")
    }
}

/// The first index from `from` on where `hits` holds.
pub open spec fn first_hit(hits: Seq<bool>, from: int) -> Option<int> {
    if exists|i: int| from <= i < hits.len() && hits[i] {
        Some(choose|i: int| from <= i < hits.len() && hits[i] && forall|j: int| from <= j < i ==> !hits[j])
    } else {
        None
    }
}

/// The selection after a pinch.
pub open spec fn pinched(before: (bool, Set<u64>), top_hits: Seq<bool>, bottom_hits: Seq<bool>) -> (bool, Set<u64>) {
    match first_hit(top_hits, 0) {
        None => before,
        Some(t) => match first_hit(bottom_hits, t) {
            None => (true, before.1.insert(t as u64)),
            Some(b) => (true, before.1.insert(t as u64).insert(b as u64)),
        },
    }
}

proof fn lemma_first_hit(hits: Seq<bool>, from: int, k: int)
    requires
        0 <= from <= k < hits.len(),
        hits[k],
        forall|j: int| from <= j < k ==> !hits[j],
    ensures
        first_hit(hits, from) == Some(k),
{
    assert(exists|i: int| from <= i < hits.len() && hits[i]);
    let c = choose|i: int| from <= i < hits.len() && hits[i] && forall|j: int| from <= j < i ==> !hits[j];
    assert(from <= k < hits.len() && hits[k] && forall|j: int| from <= j < k ==> !hits[j]);
    if c < k {
        assert(!hits[c]);
    }
    if k < c {
        assert(!hits[k]);
    }
}

fn find_hit(hits: &Vec<bool>, from: usize) -> (found: Option<usize>)
    requires
        from <= hits@.len(),
    ensures
        match found {
            Some(k) => first_hit(hits@, from as int) == Some(k as int) && k < hits@.len(),
            None => first_hit(hits@, from as int) is None,
        },
{
    let mut i = from;
    while i < hits.len()
        invariant
            from <= i <= hits@.len(),
            forall|j: int| from <= j < i ==> !hits@[j],
        decreases hits@.len() - i,
    {
        if hits[i] {
            proof { lemma_first_hit(hits@, from as int, i as int); }
            return Some(i);
        }
        i = i + 1;
    }
    None
}

/// The rows a pinch chooses: the first under its top, and the first from
/// there under its bottom.
pub fn pinch_rows(top_hits: &Vec<bool>, bottom_hits: &Vec<bool>) -> (rows: (Option<usize>, Option<usize>))
    requires
        top_hits@.len() == bottom_hits@.len(),
    ensures
        match rows.0 {
            None => first_hit(top_hits@, 0) is None && rows.1 is None,
            Some(t) => first_hit(top_hits@, 0) == Some(t as int) && t < top_hits@.len() && match rows.1 {
                None => first_hit(bottom_hits@, t as int) is None,
                Some(b) => first_hit(bottom_hits@, t as int) == Some(b as int) && b < bottom_hits@.len(),
            },
        },
{
    match find_hit(top_hits, 0) {
        None => (None, None),
        Some(t) => (Some(t), find_hit(bottom_hits, t)),
    }
}

/// Clicking the same row twice during a merge leaves the choice as it was.
pub proof fn law_click_twice(before: Set<u64>, row: u64)
    ensures
        ({
            let once = if before.contains(row) { before.remove(row) } else { before.insert(row) };
            let twice = if once.contains(row) { once.remove(row) } else { once.insert(row) };
            twice == before
        }),
{
    let once = if before.contains(row) { before.remove(row) } else { before.insert(row) };
    let twice = if once.contains(row) { once.remove(row) } else { once.insert(row) };
    assert(twice =~= before);
}

/// The title during a merge of `entity`s.
pub fn merging_title(entity: &str) -> (title: String)
    ensures
        title@ == "Merging "@ + entity@ + seq!['s'],
{
    proof { reveal_strlit("Merging "); reveal_strlit("s"); }
    let title = String::from_str("Merging ");
    let title = title.concat(entity);
    title.concat("s")
}

/// What a merge renames: the names chosen other than the one kept, in the
/// order given, and whether the songs without a name are renamed too.
#[derive(Debug)]
pub struct MergePlan {
    pub rename_from: Vec<String>,
    pub include_missing: bool,
}

/// The names chosen other than `kept`, in order.
pub open spec fn renamed(keys: Seq<Option<String>>, kept: Seq<char>) -> Seq<Seq<char>>
    decreases keys.len(),
{
    if keys.len() == 0 {
        Seq::empty()
    } else {
        let rest = renamed(keys.drop_last(), kept);
        match keys.last() {
            Some(k) => if k@ != kept { rest.push(k@) } else { rest },
            None => rest,
        }
    }
}

/// The names chosen, in order: the choices offered to keep.
pub open spec fn named(keys: Seq<Option<String>>) -> Seq<Seq<char>>
    decreases keys.len(),
{
    if keys.len() == 0 {
        Seq::empty()
    } else {
        let rest = named(keys.drop_last());
        match keys.last() {
            Some(k) => rest.push(k@),
            None => rest,
        }
    }
}

/// The names offered to keep in a merge of the rows with `keys`: the rows
/// that have a name, in order.
pub fn merge_choices(keys: &Vec<Option<String>>) -> (choices: Vec<String>)
    ensures
        choices@.map_values(|s: String| s@) == named(keys@),
{
    let mut choices: Vec<String> = Vec::new();
    let mut i: usize = 0;
    while i < keys.len()
        invariant
            i <= keys@.len(),
            choices@.map_values(|s: String| s@) == named(keys@.take(i as int)),
        decreases keys@.len() - i,
    {
        proof { assert(keys@.take(i + 1).drop_last() =~= keys@.take(i as int)); }
        match &keys[i] {
            Some(k) => {
                choices.push(k.clone());
            },
            None => {},
        }
        i = i + 1;
        assert(choices@.map_values(|s: String| s@) =~= named(keys@.take(i as int)));
    }
    assert(keys@.take(keys@.len() as int) =~= keys@);
    choices
}

/// What a merge that keeps `kept` renames among the rows with `keys`.
pub fn merge_plan(keys: &Vec<Option<String>>, kept: &str) -> (plan: MergePlan)
    ensures
        plan.rename_from@.map_values(|s: String| s@) == renamed(keys@, kept@),
        plan.include_missing == keys@.contains(None),
        names_every_other_chosen(keys@, kept@, plan.rename_from@.map_values(|s: String| s@)),
        names_only_other_chosen(keys@, kept@, plan.rename_from@.map_values(|s: String| s@)),
{
    proof { law_merge_renames_every_other_name(keys@, kept@); }
    let mut rename_from: Vec<String> = Vec::new();
    let mut include_missing = false;
    let mut i: usize = 0;
    while i < keys.len()
        invariant
            i <= keys@.len(),
            rename_from@.map_values(|s: String| s@) == renamed(keys@.take(i as int), kept@),
            include_missing == keys@.take(i as int).contains(None),
        decreases keys@.len() - i,
    {
        proof { assert(keys@.take(i + 1).drop_last() =~= keys@.take(i as int)); }
        match &keys[i] {
            Some(k) => {
                let kept_name = String::from_str(kept);
                let same = k.eq(&kept_name);
                if !same {
                    rename_from.push(k.clone());
                }
            },
            None => {
                include_missing = true;
            },
        }
        proof {
            let now = keys@.take(i + 1);
            assert(now.last() == keys@[i as int]);
            if keys@[i as int] is None {
                assert(now[i as int] == None::<String>);
            }
            assert(now.contains(None) == (keys@.take(i as int).contains(None) || keys@[i as int] is None)) by {
                if now.contains(None) {
                    let w = choose|w: int| 0 <= w < now.len() && now[w] == None::<String>;
                    if w < i {
                        assert(keys@.take(i as int)[w] == None::<String>);
                    }
                }
                if keys@.take(i as int).contains(None) {
                    let w = choose|w: int| 0 <= w < i && keys@.take(i as int)[w] == None::<String>;
                    assert(now[w] == None::<String>);
                }
            }
        }
        i = i + 1;
        assert(rename_from@.map_values(|s: String| s@) =~= renamed(keys@.take(i as int), kept@));
    }
    assert(keys@.take(keys@.len() as int) =~= keys@);
    MergePlan { rename_from, include_missing }
}

/// Whether `names` holds every chosen name other than `kept`.
pub open spec fn names_every_other_chosen(keys: Seq<Option<String>>, kept: Seq<char>, names: Seq<Seq<char>>) -> bool {
    forall|i: int| 0 <= i < keys.len() && #[trigger] keys[i] is Some && keys[i]->0@ != kept ==> names.contains(
        keys[i]->0@,
    )
}

/// Whether every name of `names` is a chosen name other than `kept`.
pub open spec fn names_only_other_chosen(keys: Seq<Option<String>>, kept: Seq<char>, names: Seq<Seq<char>>) -> bool {
    forall|j: int|
        0 <= j < names.len() ==> exists|i: int|
            0 <= i < keys.len() && #[trigger] keys[i] is Some && keys[i]->0@ == #[trigger] names[j] && keys[i]->0@
                != kept
}

/// A merge renames every chosen name other than the one kept, and nothing
/// but such names.
pub proof fn law_merge_renames_every_other_name(keys: Seq<Option<String>>, kept: Seq<char>)
    ensures
        names_every_other_chosen(keys, kept, renamed(keys, kept)),
        names_only_other_chosen(keys, kept, renamed(keys, kept)),
    decreases keys.len(),
{
    if keys.len() > 0 {
        let init = keys.drop_last();
        law_merge_renames_every_other_name(init, kept);
        let rest = renamed(init, kept);
        let all = renamed(keys, kept);
        let n = keys.len() - 1;
        assert forall|i: int| 0 <= i < keys.len() && #[trigger] keys[i] is Some && keys[i]->0@ != kept
            implies all.contains(keys[i]->0@) by {
            if i < n {
                assert(init[i] == keys[i]);
                let w = choose|w: int| 0 <= w < rest.len() && rest[w] == keys[i]->0@;
                match keys.last() {
                    Some(k) => if k@ != kept { assert(all[w] == rest[w]); } else {},
                    None => {},
                }
            } else {
                assert(all[all.len() - 1] == keys[i]->0@);
            }
        }
        assert forall|j: int| 0 <= j < all.len() implies exists|i: int| 0 <= i < keys.len() && #[trigger] keys[i]
            is Some && keys[i]->0@ == #[trigger] all[j] && keys[i]->0@ != kept by {
            if j < rest.len() {
                assert(all[j] == rest[j]);
                let i = choose|i: int| 0 <= i < init.len() && #[trigger] init[i] is Some && init[i]->0@ == rest[j]
                    && init[i]->0@ != kept;
                assert(keys[i] == init[i]);
            } else {
                assert(keys[n] is Some && keys[n]->0@ == all[j]);
            }
        }
    }
}

/// A merge never renames the name it keeps.
pub proof fn law_kept_not_renamed(keys: Seq<Option<String>>, kept: Seq<char>)
    ensures
        !renamed(keys, kept).contains(kept),
    decreases keys.len(),
{
    if keys.len() > 0 {
        law_kept_not_renamed(keys.drop_last(), kept);
        let rest = renamed(keys.drop_last(), kept);
        match keys.last() {
            Some(k) => if k@ != kept {
                assert forall|i: int| 0 <= i < rest.push(k@).len() implies rest.push(k@)[i] != kept by {
                    if i < rest.len() {
                        assert(rest.push(k@)[i] == rest[i]);
                    }
                }
            },
            None => {},
        }
    }
}

} // verus!
