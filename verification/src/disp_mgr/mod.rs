//! The registry of displays: built from what the backend lists as connected,
//! and changed one property of one display at a time.
use vstd::prelude::*;
use crate::disp_mgr::disp::{Disp, DispProp, DispView, Gamma, MAX_PERCENT};

pub mod disp;

verus! {

/// The lines of `text`: the runs of characters between line feeds. A text of `n`
/// line feeds has `n + 1` lines, some of which may be empty.
pub open spec fn lines(text: Seq<char>) -> Seq<Seq<char>>
    decreases text.len(),
{
    if text.len() == 0 {
        seq![Seq::empty()]
    } else {
        let before = lines(text.drop_last());
        if text.last() == '\n' {
            before.push(Seq::empty())
        } else {
            before.drop_last().push(before.last().push(text.last()))
        }
    }
}

/// The names that a listing of the backend holds: its lines, but for the empty
/// ones.
pub open spec fn listed_names(listing: Seq<char>) -> Seq<Seq<char>> {
    lines(listing).filter(|line: Seq<char>| line.len() > 0)
}

/// A display as it is taken to be when it is first seen: everything at 100%.
pub open spec fn fresh_disp(name: Seq<char>) -> DispView {
    DispView {
        name,
        brightness: MAX_PERCENT,
        gamma: Gamma { r: MAX_PERCENT, g: MAX_PERCENT, b: MAX_PERCENT },
    }
}

/// The registry of the displays with the given names, as they are first seen.
pub open spec fn fresh_registry(names: Seq<Seq<char>>) -> Seq<DispView> {
    names.map_values(|name: Seq<char>| fresh_disp(name))
}

/// Every display of the registry holds percentages.
pub open spec fn registry_wf(disps: Seq<DispView>) -> bool {
    forall|i: int| 0 <= i < disps.len() ==> (#[trigger] disps[i]).wf()
}

/// Some display of the registry has the name `name`.
pub open spec fn has_name(disps: Seq<DispView>, name: Seq<char>) -> bool {
    exists|i: int| 0 <= i < disps.len() && (#[trigger] disps[i]).name == name
}

/// `i` is the place of the first display named `name`.
pub open spec fn is_first_named(disps: Seq<DispView>, name: Seq<char>, i: int) -> bool {
    &&& 0 <= i < disps.len()
    &&& disps[i].name == name
    &&& forall|j: int| 0 <= j < i ==> (#[trigger] disps[j]).name != name
}

/// The place of the first display named `name`.
pub open spec fn first_named(disps: Seq<DispView>, name: Seq<char>) -> int {
    choose|i: int| is_first_named(disps, name, i)
}

/// The percentage that a scale level stands for: ten times the level for the
/// levels 1 to 10, and 100 for level 0 and for every level beyond 10.
pub open spec fn scale_percent(level: u8) -> u8 {
    if 0 < level <= 10 {
        (level * 10) as u8
    } else {
        MAX_PERCENT
    }
}

/// The percentage that a scale level stands for.
pub fn percent_of_scale(level: u8) -> (percent: u8)
    ensures
        percent == scale_percent(level),
        disp::is_percent(percent as int),
{
    if level > 0 && level <= 10 {
        level * 10
    } else {
        MAX_PERCENT
    }
}

/// The display named `name` as it is taken to be when it is first seen.
fn fresh(name: String) -> (disp: Disp)
    ensures
        disp@ == fresh_disp(name@),
        disp@.wf(),
{
    Disp::new(name, MAX_PERCENT, Gamma { r: MAX_PERCENT, g: MAX_PERCENT, b: MAX_PERCENT })
}

/// The displays that are there to be controlled, by position.
#[derive(Debug, PartialEq, Eq)]
pub struct DispMgr {
    pub disps: Vec<Disp>,
}

impl View for DispMgr {
    type V = Seq<DispView>;

    open spec fn view(&self) -> Seq<DispView> {
        self.disps@.map_values(|d: Disp| d@)
    }
}

impl Clone for DispMgr {
    fn clone(&self) -> (copy: Self)
        ensures
            copy@ == self@,
    {
        let mut disps: Vec<Disp> = Vec::new();
        let mut i: usize = 0;
        while i < self.disps.len()
            invariant
                i <= self.disps.len(),
                disps@ == self.disps@.take(i as int),
            decreases self.disps.len() - i,
        {
            disps.push(self.disps[i].clone());
            i = i + 1;
        }
        DispMgr { disps }
    }
}

impl Default for DispMgr {
    /// The registry without a display.
    fn default() -> (registry: Self)
        ensures
            registry@ == Seq::<DispView>::empty(),
    {
        DispMgr { disps: Vec::new() }
    }
}

impl DispMgr {
    /// The registry of the displays that `listing` names, one to a line, each at
    /// 100% brightness and gamma. Empty lines name nothing; a listing without a
    /// name gives a registry without a display.
    pub fn new(listing: &str) -> (registry: DispMgr)
        ensures
            registry@ == fresh_registry(listed_names(listing@)),
            registry_wf(registry@),
    {
        let ghost keep = |line: Seq<char>| line.len() > 0;
        let mut disps: Vec<Disp> = Vec::new();
        let mut line = String::new();
        proof {
            reveal(Seq::filter);
        }
        for c in iter: listing.chars()
            invariant
                iter.seq() == listing@,
                keep == |line: Seq<char>| line.len() > 0,
                lines(listing@.take(iter.index() as int)).len() >= 1,
                line@ == lines(listing@.take(iter.index() as int)).last(),
                disps@.map_values(|d: Disp| d@) == fresh_registry(
                    lines(listing@.take(iter.index() as int)).drop_last().filter(keep),
                ),
        {
            let ghost k = iter.index() as int;
            let ghost before = lines(listing@.take(k));
            proof {
                assert(listing@.take(k + 1).drop_last() == listing@.take(k));
            }
            if c == '\n' {
                proof {
                    assert(before.push(Seq::empty()).drop_last() == before);
                    assert(before == before.drop_last().push(before.last()));
                    before.drop_last().lemma_filter_push(before.last(), keep);
                }
                if !line.as_str().is_empty() {
                    disps.push(fresh(line));
                    assert(fresh_registry(before.drop_last().filter(keep).push(before.last()))
                        == fresh_registry(before.drop_last().filter(keep)).push(
                        fresh_disp(before.last()),
                    ));
                }
                line = String::new();
            } else {
                proof {
                    let after = before.drop_last().push(before.last().push(c));
                    assert(after.drop_last() == before.drop_last());
                }
                line.push(c);
            }
        }
        let ghost all = lines(listing@);
        proof {
            assert(listing@.take(listing@.len() as int) == listing@);
            all.drop_last().lemma_filter_push(all.last(), keep);
        }
        if !line.as_str().is_empty() {
            disps.push(fresh(line));
            assert(fresh_registry(all.drop_last().filter(keep).push(all.last())) == fresh_registry(
                all.drop_last().filter(keep),
            ).push(fresh_disp(all.last())));
        }
        DispMgr { disps }
    }

    /// The place of the first display named `name`, if there is one.
    pub fn index_of_name(&self, name: &String) -> (place: Option<usize>)
        ensures
            match place {
                Some(i) => is_first_named(self@, name@, i as int),
                None => !has_name(self@, name@),
            },
    {
        let mut i: usize = 0;
        while i < self.disps.len()
            invariant
                i <= self.disps.len(),
                forall|j: int| 0 <= j < i ==> (#[trigger] self@[j]).name != name@,
            decreases self.disps.len() - i,
        {
            if self.disps[i].name == *name {
                return Some(i);
            }
            i = i + 1;
        }
        None
    }

    /// The first display named `name`, to be changed in place.
    pub fn get_disp_by_name(&mut self, name: String) -> (disp: &mut Disp)
        requires
            has_name(old(self)@, name@),
        ensures
            *disp == old(self).disps@[first_named(old(self)@, name@)],
            final(self).disps@ == old(self).disps@.update(
                first_named(old(self)@, name@),
                *final(disp),
            ),
            is_first_named(old(self)@, name@, first_named(old(self)@, name@)),
    {
        let place = self.index_of_name(&name);
        match place {
            Some(i) => {
                proof {
                    lemma_first_named_unique(self@, name@, i as int);
                }
                &mut self.disps[i]
            },
            None => vstd::pervasive::unreached(),
        }
    }

    /// A copy of the display at `i`.
    pub fn get_disp_by_index(&self, i: usize) -> (disp: Disp)
        requires
            i < self@.len(),
        ensures
            disp == self.disps@[i as int],
            disp@ == self@[i as int],
    {
        self.disps[i].clone()
    }

    /// The names of the displays, by position.
    pub fn get_name_list(&self) -> (names: Vec<&str>)
        ensures
            names@.len() == self@.len(),
            forall|i: int| 0 <= i < self@.len() ==> (#[trigger] names@[i])@ == self@[i].name,
    {
        let mut names: Vec<&str> = Vec::new();
        let mut i: usize = 0;
        while i < self.disps.len()
            invariant
                i <= self.disps.len(),
                names@.len() == i,
                forall|j: int| 0 <= j < i ==> (#[trigger] names@[j])@ == self@[j].name,
            decreases self.disps.len() - i,
        {
            names.push(self.disps[i].name.as_str());
            i = i + 1;
        }
        names
    }

    /// How many displays there are.
    pub fn get_num_disps(&self) -> (count: usize)
        ensures
            count == self@.len(),
    {
        self.disps.len()
    }

    /// Sets `prop` of the first display named `name` to `val`, brought into
    /// range, where the backend applied the request for it.
    pub fn set_value_by_name(&mut self, name: String, prop: DispProp, val: u8, applied: bool)
        requires
            has_name(old(self)@, name@),
        ensures
            is_first_named(old(self)@, name@, first_named(old(self)@, name@)),
            final(self)@ == old(self)@.update(
                first_named(old(self)@, name@),
                old(self)@[first_named(old(self)@, name@)].set_value(prop, val, applied),
            ),
            registry_wf(old(self)@) ==> registry_wf(final(self)@),
    {
        let ghost before = self@;
        let ghost place = first_named(before, name@);
        self.get_disp_by_name(name).set_value(prop, val, applied);
        assert(self@ =~= before.update(place, before[place].set_value(prop, val, applied)));
    }

    /// Sets `prop` of the display at `index` to `val`, brought into range, where
    /// the backend applied the request for it.
    pub fn set_value_by_index(&mut self, index: usize, prop: DispProp, val: u8, applied: bool)
        requires
            index < old(self)@.len(),
        ensures
            final(self)@ == old(self)@.update(
                index as int,
                old(self)@[index as int].set_value(prop, val, applied),
            ),
            registry_wf(old(self)@) ==> registry_wf(final(self)@),
    {
        let ghost before = self@;
        self.disps[index].set_value(prop, val, applied);
        assert(self@ =~= before.update(
            index as int,
            before[index as int].set_value(prop, val, applied),
        ));
    }

    /// Raises `prop` of the display at `index` by one, up to the largest
    /// percentage, where the backend applied the request for it.
    pub fn increment_value_by_index(&mut self, index: usize, prop: DispProp, applied: bool)
        requires
            index < old(self)@.len(),
        ensures
            final(self)@ == old(self)@.update(
                index as int,
                old(self)@[index as int].set_value(
                    prop,
                    old(self)@[index as int].incremented(prop),
                    applied,
                ),
            ),
            registry_wf(old(self)@) ==> registry_wf(final(self)@),
    {
        let val: u8 = self.disps[index].incremented(prop);
        self.set_value_by_index(index, prop, val, applied);
    }

    /// Lowers `prop` of the display at `index` by one, down to the smallest
    /// percentage, where the backend applied the request for it.
    pub fn decrement_value_by_index(&mut self, index: usize, prop: DispProp, applied: bool)
        requires
            index < old(self)@.len(),
        ensures
            final(self)@ == old(self)@.update(
                index as int,
                old(self)@[index as int].set_value(
                    prop,
                    old(self)@[index as int].decremented(prop),
                    applied,
                ),
            ),
            registry_wf(old(self)@) ==> registry_wf(final(self)@),
    {
        let val: u8 = self.disps[index].decremented(prop);
        self.set_value_by_index(index, prop, val, applied);
    }

    /// Sets `prop` of the display at `index` to the percentage that the scale
    /// level `scale` stands for, where the backend applied the request for it.
    pub fn scale_value_by_index(
        &mut self,
        index: usize,
        prop: DispProp,
        scale: u8,
        applied: bool,
    )
        requires
            index < old(self)@.len(),
        ensures
            final(self)@ == old(self)@.update(
                index as int,
                old(self)@[index as int].set_value(prop, scale_percent(scale), applied),
            ),
            registry_wf(old(self)@) ==> registry_wf(final(self)@),
    {
        let val: u8 = percent_of_scale(scale);
        self.set_value_by_index(index, prop, val, applied);
    }

    /// Replaces the registry by the one that `listing` names. Nothing of the old
    /// one is kept: a position stands for whatever display the new listing puts
    /// there.
    pub fn reload(&mut self, listing: &str)
        ensures
            final(self)@ == fresh_registry(listed_names(listing@)),
            registry_wf(final(self)@),
    {
        *self = DispMgr::new(listing);
    }
}

/// Only one place is the first of a name.
pub proof fn lemma_first_named_unique(disps: Seq<DispView>, name: Seq<char>, i: int)
    requires
        is_first_named(disps, name, i),
    ensures
        first_named(disps, name) == i,
{
}

} // verus!
