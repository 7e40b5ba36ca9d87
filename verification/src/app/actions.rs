//! Actions, the keys that trigger them, and the table that resolves a key to
//! its action.
use vstd::prelude::*;
use vstd::string::StringExecFns;
use crate::inputs::key::Key;
use crate::text::{
    decimal, has_substring, join, lemma_join_has_part, lemma_join_push, lemma_substring_framed,
    lemma_substring_self, lemma_substring_trans, push_decimal,
};

verus! {

/// `char::from_u32` of the standard library returns the character with the given
/// code point where that is a Unicode scalar value (any code point but a surrogate,
/// up to 0x10FFFF), and `None` for every other number.
pub assume_specification[ char::from_u32 ](i: u32) -> (r: Option<char>)
    ensures
        r == (if i <= 0xD7FF || (0xE000 <= i && i <= 0x10FFFF) {
            Some(i as char)
        } else {
            None::<char>
        }),
;

/// What the user can ask the application to do.
#[derive(Debug, Clone, Copy, Eq, PartialEq, Structural)]
pub enum Action {
    Quit,
    MoveRight,
    MoveLeft,
    MoveUp,
    MoveDown,
    TabRight,
    TabLeft,
    Scale(u8),
}

impl Action {
    /// Every action that a key of the standard keyboard layout triggers, in the
    /// order in which the help screen lists them.
    pub open spec fn all() -> Seq<Action> {
        seq![
            Action::Quit,
            Action::MoveRight,
            Action::MoveLeft,
            Action::MoveUp,
            Action::MoveDown,
            Action::TabRight,
            Action::TabLeft,
            Action::Scale(1),
            Action::Scale(2),
            Action::Scale(3),
            Action::Scale(4),
            Action::Scale(5),
            Action::Scale(6),
            Action::Scale(7),
            Action::Scale(8),
            Action::Scale(9),
            Action::Scale(0),
        ]
    }

    /// The list of all actions.
    pub fn iterator() -> (list: Vec<Action>)
        ensures
            list@ == Action::all(),
    {
        let list = vec![
            Action::Quit,
            Action::MoveRight,
            Action::MoveLeft,
            Action::MoveUp,
            Action::MoveDown,
            Action::TabRight,
            Action::TabLeft,
            Action::Scale(1),
            Action::Scale(2),
            Action::Scale(3),
            Action::Scale(4),
            Action::Scale(5),
            Action::Scale(6),
            Action::Scale(7),
            Action::Scale(8),
            Action::Scale(9),
            Action::Scale(0),
        ];
        list
    }

    /// The character that triggers `Scale(n)`: the one `n` places after `'0'`, so
    /// the digit `n` for a level up to nine.
    pub open spec fn scale_char(n: u8) -> char {
        (48 + n) as char
    }

    /// The keys that trigger this action, in the order in which the help screen
    /// lists them.
    pub open spec fn spec_keys(self) -> Seq<Key> {
        match self {
            Action::Quit => seq![Key::Char('q')],
            Action::MoveRight => seq![Key::Char('l'), Key::Right],
            Action::MoveLeft => seq![Key::Char('h'), Key::Left],
            Action::MoveUp => seq![Key::Char('k'), Key::Up],
            Action::MoveDown => seq![Key::Char('j'), Key::Down],
            Action::TabRight => seq![Key::Char('L'), Key::Char('.'), Key::Char('>')],
            Action::TabLeft => seq![Key::Char('H'), Key::Char(','), Key::Char('<')],
            Action::Scale(n) => seq![Key::Char(Action::scale_char(n))],
        }
    }

    /// `key` is one of the keys that trigger this action.
    pub open spec fn claims(self, key: Key) -> bool {
        self.spec_keys().contains(key)
    }

    /// The keys that trigger this action.
    pub fn keys(&self) -> (keys: Vec<Key>)
        ensures
            keys@ == self.spec_keys(),
    {
        let keys = match self {
            Action::Quit => vec![Key::Char('q')],
            Action::MoveRight => vec![Key::Char('l'), Key::Right],
            Action::MoveLeft => vec![Key::Char('h'), Key::Left],
            Action::MoveUp => vec![Key::Char('k'), Key::Up],
            Action::MoveDown => vec![Key::Char('j'), Key::Down],
            Action::TabRight => vec![Key::Char('L'), Key::Char('.'), Key::Char('>')],
            Action::TabLeft => vec![Key::Char('H'), Key::Char(','), Key::Char('<')],
            Action::Scale(n) => {
                let level: u8 = *n;
                let code: u32 = 48 + level as u32;
                match char::from_u32(code) {
                    Some(c) => vec![Key::Char(c)],
                    None => vstd::pervasive::unreached(),
                }
            },
        };
        keys
    }

    /// Whether `key` triggers this action.
    pub fn is_triggered_by(&self, key: Key) -> (hit: bool)
        ensures
            hit == self.claims(key),
    {
        let keys = self.keys();
        let mut i: usize = 0;
        while i < keys.len()
            invariant
                i <= keys.len(),
                keys@ == self.spec_keys(),
                forall|j: int| 0 <= j < i ==> keys@[j] != key,
            decreases keys.len() - i,
        {
            if keys[i] == key {
                return true;
            }
            i = i + 1;
        }
        false
    }

    /// The name under which this action is shown.
    pub open spec fn spec_name(self) -> Seq<char> {
        match self {
            Action::Quit => "Quit"@,
            Action::MoveRight => "MoveRight"@,
            Action::MoveLeft => "MoveLeft"@,
            Action::MoveUp => "MoveUp"@,
            Action::MoveDown => "MoveDown"@,
            Action::TabRight => "TabRight"@,
            Action::TabLeft => "TabLeft"@,
            Action::Scale(n) => "Scale"@ + decimal(n as nat),
        }
    }

    /// The name under which this action is shown.
    pub fn name(&self) -> (name: String)
        ensures
            name@ == self.spec_name(),
    {
        match self {
            Action::Quit => String::from_str("Quit"),
            Action::MoveRight => String::from_str("MoveRight"),
            Action::MoveLeft => String::from_str("MoveLeft"),
            Action::MoveUp => String::from_str("MoveUp"),
            Action::MoveDown => String::from_str("MoveDown"),
            Action::TabRight => String::from_str("TabRight"),
            Action::TabLeft => String::from_str("TabLeft"),
            Action::Scale(n) => {
                let mut name = String::from_str("Scale");
                push_decimal(&mut name, *n as u64);
                name
            },
        }
    }
}

/// The actions of `actions` that `key` triggers, in their order.
pub open spec fn claimants(actions: Seq<Action>, key: Key) -> Seq<Action> {
    actions.filter(|a: Action| a.claims(key))
}

/// Two entries of `actions` both claim `key`.
pub open spec fn contested(actions: Seq<Action>, key: Key) -> bool {
    exists|i: int, j: int|
        0 <= i < j < actions.len() && (#[trigger] actions[i]).claims(key) && (
        #[trigger] actions[j]).claims(key)
}

/// No key is claimed by two entries of `actions`.
pub open spec fn conflict_free(actions: Seq<Action>) -> bool {
    forall|key: Key| !#[trigger] contested(actions, key)
}

/// The action that `key` stands for among `actions`: the first that claims it.
pub open spec fn resolve(actions: Seq<Action>, key: Key) -> Option<Action> {
    let claiming = claimants(actions, key);
    if claiming.len() > 0 {
        Some(claiming[0])
    } else {
        None
    }
}

/// `claimants` counts what `contested` asks for: some entry claims the key where
/// the list is not empty, and two entries do where it holds more than one.
pub proof fn lemma_claimants_len(actions: Seq<Action>, key: Key)
    ensures
        claimants(actions, key).len() >= 1 <==> exists|i: int|
            0 <= i < actions.len() && (#[trigger] actions[i]).claims(key),
        claimants(actions, key).len() >= 2 <==> contested(actions, key),
    decreases actions.len(),
{
    reveal(Seq::filter);
    if actions.len() > 0 {
        let init = actions.drop_last();
        lemma_claimants_len(init, key);
        assert forall|i: int| 0 <= i < init.len() implies init[i] == actions[i] by {}
    }
}

/// The first entry that claims a key is what the key resolves to.
pub proof fn lemma_resolve_first(actions: Seq<Action>, key: Key, i: int)
    requires
        0 <= i < actions.len(),
        actions[i].claims(key),
        forall|j: int| 0 <= j < i ==> !(#[trigger] actions[j]).claims(key),
    ensures
        resolve(actions, key) == Some(actions[i]),
    decreases actions.len(),
{
    reveal(Seq::filter);
    let init = actions.drop_last();
    if i == actions.len() - 1 {
        lemma_claimants_len(init, key);
    } else {
        lemma_resolve_first(init, key, i);
    }
}

/// Where no entry claims a key, the key resolves to nothing.
pub proof fn lemma_resolve_none(actions: Seq<Action>, key: Key)
    requires
        forall|j: int| 0 <= j < actions.len() ==> !(#[trigger] actions[j]).claims(key),
    ensures
        resolve(actions, key) is None,
{
    lemma_claimants_len(actions, key);
}

/// In a list without conflicts every key of every entry resolves to that entry,
/// and to no other.
pub proof fn lemma_resolve_owner(actions: Seq<Action>, key: Key, i: int)
    requires
        conflict_free(actions),
        0 <= i < actions.len(),
        actions[i].claims(key),
    ensures
        resolve(actions, key) == Some(actions[i]),
{
    assert(!contested(actions, key));
    lemma_resolve_first(actions, key, i);
}

/// One key that more than one action claims, with the actions that claim it.
#[derive(Debug, PartialEq, Eq)]
pub struct Conflict {
    pub key: Key,
    pub actions: Vec<Action>,
}

/// A conflict as a plain value.
pub struct ConflictView {
    pub key: Key,
    pub actions: Seq<Action>,
}

impl View for Conflict {
    type V = ConflictView;

    open spec fn view(&self) -> ConflictView {
        ConflictView { key: self.key, actions: self.actions@ }
    }
}

impl ConflictView {
    /// The names of the claiming actions, separated by a comma and a space.
    pub open spec fn names(self) -> Seq<char> {
        join(self.actions.map_values(|a: Action| a.spec_name()), ", "@)
    }

    /// The sentence that reports this conflict.
    pub open spec fn text(self) -> Seq<char> {
        "Conflict key "@ + self.key.spec_label() + " with actions "@ + self.names()
    }
}

impl Conflict {
    /// The sentence that reports this conflict: the key, then the names of the
    /// actions that claim it.
    pub fn message(&self) -> (text: String)
        ensures
            text@ == self@.text(),
    {
        let mut names = String::new();
        let ghost parts = self.actions@.map_values(|a: Action| a.spec_name());
        let mut i: usize = 0;
        while i < self.actions.len()
            invariant
                i <= self.actions.len(),
                parts == self.actions@.map_values(|a: Action| a.spec_name()),
                names@ == join(parts.take(i as int), ", "@),
            decreases self.actions.len() - i,
        {
            proof {
                lemma_join_push(parts.take(i as int), ", "@, parts[i as int]);
                assert(parts.take(i as int + 1) == parts.take(i as int).push(parts[i as int]));
            }
            if i > 0 {
                names.append(", ");
            }
            let name = self.actions[i].name();
            names.append(name.as_str());
            i = i + 1;
        }
        assert(parts.take(i as int) == parts);
        let mut text = String::from_str("Conflict key ");
        let label = self.key.label();
        text.append(label.as_str());
        text.append(" with actions ");
        text.append(names.as_str());
        text
    }
}

/// The conflicts of a list of actions as plain values.
pub open spec fn conflict_views(conflicts: Seq<Conflict>) -> Seq<ConflictView> {
    conflicts.map_values(|c: Conflict| c@)
}

/// `key` is among the keys that `conflicts` reports.
pub open spec fn reported(conflicts: Seq<ConflictView>, key: Key) -> bool {
    exists|c: int| 0 <= c < conflicts.len() && (#[trigger] conflicts[c]).key == key
}

/// `conflicts` is the full report on `actions`: each entry names a key that two
/// actions claim, with all the actions that claim it, in their order; every such
/// key has its entry, and only one.
pub open spec fn reports(conflicts: Seq<ConflictView>, actions: Seq<Action>) -> bool {
    &&& forall|c: int|
        0 <= c < conflicts.len() ==> contested(actions, (#[trigger] conflicts[c]).key)
            && conflicts[c].actions == claimants(actions, conflicts[c].key)
    &&& forall|key: Key| #[trigger] contested(actions, key) ==> reported(conflicts, key)
    &&& forall|c: int, d: int|
        0 <= c < d < conflicts.len() ==> (#[trigger] conflicts[c]).key != (
        #[trigger] conflicts[d]).key
}

/// All the keys of `actions`, as they are met when the actions are gone through
/// in order, each with its keys in order. A key that two actions claim is met
/// twice.
pub open spec fn trigger_keys(actions: Seq<Action>) -> Seq<Key> {
    actions.flat_map(|a: Action| a.spec_keys())
}

/// The report on those of the keys `walked` that two entries of `actions` claim:
/// one entry for each, in the order in which they are first met.
pub open spec fn report_on(actions: Seq<Action>, walked: Seq<Key>) -> Seq<ConflictView> {
    walked.filter(|key: Key| contested(actions, key)).remove_duplicates(Seq::empty()).map_values(
        |key: Key| ConflictView { key, actions: claimants(actions, key) },
    )
}

/// The report on `actions`: an entry for each key that two of them claim, in the
/// order in which the keys are first met, each with the actions that claim it.
pub open spec fn conflict_report(actions: Seq<Action>) -> Seq<ConflictView> {
    report_on(actions, trigger_keys(actions))
}

/// The one diagnostic for all conflicts: their sentences, separated by a
/// semicolon and a space.
pub open spec fn conflicts_text(conflicts: Seq<ConflictView>) -> Seq<char> {
    join(conflicts.map_values(|c: ConflictView| c.text()), "; "@)
}

/// A key of an entry is among the keys that are met when the entries are gone
/// through.
proof fn lemma_key_is_met(actions: Seq<Action>, i: int, key: Key)
    requires
        0 <= i < actions.len(),
        actions[i].claims(key),
    ensures
        trigger_keys(actions).contains(key),
    decreases actions.len(),
{
    let per_action = |a: Action| a.spec_keys();
    let init = actions.drop_last();
    let last = actions.last();
    assert(init.push(last) == actions);
    init.lemma_flat_map_push(per_action, last);
    let at = if i == actions.len() - 1 {
        let in_last = choose|at: int| 0 <= at < last.spec_keys().len() && last.spec_keys()[at] == key;
        init.flat_map(per_action).len() + in_last
    } else {
        lemma_key_is_met(init, i, key);
        choose|at: int|
            0 <= at < init.flat_map(per_action).len() && init.flat_map(per_action)[at] == key
    };
    assert(trigger_keys(actions)[at] == key);
}

/// What is left of a list once its duplicates are removed holds nothing twice.
proof fn lemma_once_each(keys: Seq<Key>)
    ensures
        keys.remove_duplicates(Seq::empty()).no_duplicates(),
    decreases keys.len(),
{
    let empty = Seq::<Key>::empty();
    if keys.len() > 0 {
        let init = keys.drop_last();
        let last = keys.last();
        lemma_once_each(init);
        init.lemma_remove_duplicates_append(last, empty);
        init.lemma_remove_duplicates_properties(empty);
        assert(init + seq![last] == keys);
        let before = init.remove_duplicates(empty);
        let after = keys.remove_duplicates(empty);
        if !(init + empty).contains(last) {
            assert forall|a: int, b: int| 0 <= a < after.len() && 0 <= b < after.len() && a
                != b implies after[a] != after[b] by {
                if a >= before.len() {
                    assert(before.contains(before[b]));
                } else if b >= before.len() {
                    assert(before.contains(before[a]));
                }
            }
        }
    }
}

/// The report on a list of actions is full: each entry names a key that two
/// actions claim, with all the actions that claim it; every such key has its
/// entry, and only one. It is empty where no key is claimed twice, and there
/// only.
pub proof fn lemma_report_complete(actions: Seq<Action>)
    ensures
        reports(conflict_report(actions), actions),
        conflict_report(actions).len() == 0 <==> conflict_free(actions),
{
    let twice = |key: Key| contested(actions, key);
    let entry = |key: Key| ConflictView { key, actions: claimants(actions, key) };
    let empty = Seq::<Key>::empty();
    let met = trigger_keys(actions);
    let kept = met.filter(twice);
    let once = kept.remove_duplicates(empty);
    let report = conflict_report(actions);
    kept.lemma_remove_duplicates_properties(empty);
    lemma_once_each(kept);
    assert forall|c: int| 0 <= c < report.len() implies contested(
        actions,
        (#[trigger] report[c]).key,
    ) && report[c].actions == claimants(actions, report[c].key) by {
        assert(once.contains(once[c]));
        let at = choose|at: int| 0 <= at < kept.len() && kept[at] == once[c];
        met.lemma_filter_pred(twice, at);
    }
    assert forall|key: Key| #[trigger] contested(actions, key) implies reported(report, key) by {
        let (i, j) = choose|i: int, j: int|
            0 <= i < j < actions.len() && (#[trigger] actions[i]).claims(key) && (
            #[trigger] actions[j]).claims(key);
        lemma_key_is_met(actions, i, key);
        let at = choose|at: int| 0 <= at < met.len() && met[at] == key;
        met.lemma_filter_contains(twice, at);
        assert(once.contains(key));
        let c = choose|c: int| 0 <= c < once.len() && once[c] == key;
        assert(report[c].key == key);
    }
}

/// Where two entries of a list of actions share a key, the diagnostic of the
/// report on the list names that key and both actions.
pub proof fn lemma_conflict_named(actions: Seq<Action>, i: int, j: int, key: Key)
    requires
        0 <= i < actions.len(),
        0 <= j < actions.len(),
        i != j,
        actions[i].claims(key),
        actions[j].claims(key),
    ensures
        !conflict_free(actions),
        has_substring(conflicts_text(conflict_report(actions)), key.spec_label()),
        has_substring(conflicts_text(conflict_report(actions)), actions[i].spec_name()),
        has_substring(conflicts_text(conflict_report(actions)), actions[j].spec_name()),
{
    let conflicts = conflict_report(actions);
    lemma_report_complete(actions);
    assert(contested(actions, key));
    let c = choose|c: int| 0 <= c < conflicts.len() && (#[trigger] conflicts[c]).key == key;
    let conflict = conflicts[c];
    let sentences = conflicts.map_values(|c: ConflictView| c.text());
    lemma_join_has_part(sentences, "; "@, c);
    let whole = conflicts_text(conflicts);
    let empty = Seq::<char>::empty();

    lemma_substring_self(key.spec_label());
    lemma_substring_framed(
        "Conflict key "@,
        key.spec_label(),
        " with actions "@ + conflict.names(),
        key.spec_label(),
    );
    assert("Conflict key "@ + key.spec_label() + (" with actions "@ + conflict.names())
        == conflict.text());
    lemma_substring_trans(whole, conflict.text(), key.spec_label());

    lemma_substring_self(conflict.names());
    lemma_substring_framed(
        "Conflict key "@ + key.spec_label() + " with actions "@,
        conflict.names(),
        empty,
        conflict.names(),
    );
    lemma_substring_trans(whole, conflict.text(), conflict.names());

    lemma_name_listed(actions, key, i);
    lemma_substring_trans(whole, conflict.names(), actions[i].spec_name());
    lemma_name_listed(actions, key, j);
    lemma_substring_trans(whole, conflict.names(), actions[j].spec_name());
}

/// The name of an entry that claims a key stands in the list of names of the
/// key's claimants.
proof fn lemma_name_listed(actions: Seq<Action>, key: Key, i: int)
    requires
        0 <= i < actions.len(),
        actions[i].claims(key),
    ensures
        has_substring(
            ConflictView { key, actions: claimants(actions, key) }.names(),
            actions[i].spec_name(),
        ),
{
    let pred = |a: Action| a.claims(key);
    actions.lemma_filter_contains(pred, i);
    let claiming = claimants(actions, key);
    let at = choose|at: int| 0 <= at < claiming.len() && claiming[at] == actions[i];
    let names = claiming.map_values(|a: Action| a.spec_name());
    lemma_join_has_part(names, ", "@, at);
}

/// Why a list of actions is no keybinding table: the keys that are in conflict.
#[derive(Debug, PartialEq, Eq)]
pub struct KeyConflicts(pub Vec<Conflict>);

impl View for KeyConflicts {
    type V = Seq<ConflictView>;

    open spec fn view(&self) -> Seq<ConflictView> {
        conflict_views(self.0@)
    }
}

impl KeyConflicts {
    /// The diagnostic that names every conflicting key and the actions that
    /// claim it.
    pub fn message(&self) -> (text: String)
        ensures
            text@ == conflicts_text(self@),
    {
        let mut text = String::new();
        let ghost parts = self@.map_values(|c: ConflictView| c.text());
        let mut i: usize = 0;
        while i < self.0.len()
            invariant
                i <= self.0.len(),
                parts == self@.map_values(|c: ConflictView| c.text()),
                text@ == join(parts.take(i as int), "; "@),
            decreases self.0.len() - i,
        {
            proof {
                lemma_join_push(parts.take(i as int), "; "@, parts[i as int]);
                assert(parts.take(i as int + 1) == parts.take(i as int).push(parts[i as int]));
            }
            if i > 0 {
                text.append("; ");
            }
            let sentence = self.0[i].message();
            text.append(sentence.as_str());
            i = i + 1;
        }
        assert(parts.take(i as int) == parts);
        text
    }
}

/// How the report grows when one more key is met: by an entry for that key where
/// two actions claim it and it has no entry yet, and not at all otherwise.
proof fn lemma_report_step(actions: Seq<Action>, walked: Seq<Key>, key: Key)
    ensures
        report_on(actions, walked.push(key)) == if contested(actions, key) && !reported(
            report_on(actions, walked),
            key,
        ) {
            report_on(actions, walked).push(
                ConflictView { key, actions: claimants(actions, key) },
            )
        } else {
            report_on(actions, walked)
        },
{
    let twice = |key: Key| contested(actions, key);
    let entry = |key: Key| ConflictView { key, actions: claimants(actions, key) };
    let empty = Seq::<Key>::empty();
    let met = walked.filter(twice);
    let once = met.remove_duplicates(empty);
    walked.lemma_filter_push(key, twice);
    met.lemma_remove_duplicates_append(key, empty);
    met.lemma_remove_duplicates_properties(empty);
    assert(reported(once.map_values(entry), key) <==> once.contains(key)) by {
        if once.contains(key) {
            let at = choose|at: int| 0 <= at < once.len() && once[at] == key;
            assert(once.map_values(entry)[at].key == key);
        }
    }
    if met.contains(key) {
        let at = choose|at: int| 0 <= at < met.len() && met[at] == key;
        walked.lemma_filter_pred(twice, at);
    }
}

/// The entries of `actions` that `key` triggers.
fn claimants_of(actions: &Vec<Action>, key: Key) -> (claiming: Vec<Action>)
    ensures
        claiming@ == claimants(actions@, key),
{
    let mut claiming: Vec<Action> = Vec::new();
    let mut i: usize = 0;
    proof {
        reveal(Seq::filter);
    }
    while i < actions.len()
        invariant
            i <= actions.len(),
            claiming@ == claimants(actions@.take(i as int), key),
        decreases actions.len() - i,
    {
        proof {
            let pred = |a: Action| a.claims(key);
            actions@.take(i as int).lemma_filter_push(actions@[i as int], pred);
            assert(actions@.take(i as int + 1) == actions@.take(i as int).push(actions@[i as int]));
        }
        if actions[i].is_triggered_by(key) {
            claiming.push(actions[i]);
        }
        i = i + 1;
    }
    assert(actions@.take(i as int) == actions@);
    claiming
}

/// Whether `conflicts` has an entry for `key`.
fn is_reported(conflicts: &Vec<Conflict>, key: Key) -> (found: bool)
    ensures
        found == reported(conflict_views(conflicts@), key),
{
    let mut i: usize = 0;
    while i < conflicts.len()
        invariant
            i <= conflicts.len(),
            forall|c: int| 0 <= c < i ==> (#[trigger] conflict_views(conflicts@)[c]).key != key,
        decreases conflicts.len() - i,
    {
        if conflicts[i].key == key {
            assert(conflict_views(conflicts@)[i as int].key == key);
            return true;
        }
        i = i + 1;
    }
    false
}

/// The keybinding table: the enabled actions, no two of which share a key.
#[derive(Debug, PartialEq, Eq)]
pub struct Actions(Vec<Action>);

impl View for Actions {
    type V = Seq<Action>;

    closed spec fn view(&self) -> Seq<Action> {
        self.0@
    }
}

impl Clone for Actions {
    fn clone(&self) -> (copy: Self)
        ensures
            copy@ == self@,
    {
        proof {
            use_type_invariant(self);
        }
        Actions(self.0.clone())
    }
}

impl Default for Actions {
    /// The table with no action enabled.
    fn default() -> (table: Self)
        ensures
            table@ == Seq::<Action>::empty(),
    {
        Actions(Vec::new())
    }
}

impl Actions {
    #[verifier::type_invariant]
    spec fn inv(self) -> bool {
        conflict_free(self.0@)
    }

    /// The table of `actions`, no two of which may claim the same key. For a
    /// list of which that is not known there is `build`, which looks first and
    /// tells which keys are in conflict.
    pub fn from(actions: Vec<Action>) -> (table: Actions)
        requires
            conflict_free(actions@),
        ensures
            table@ == actions@,
    {
        Actions(actions)
    }

    /// Looks for keys that two of `actions` claim. Where there is none, the
    /// result is the table that `from` makes of `actions`; where there is one,
    /// no table is made, and the result reports every such key with the actions
    /// that claim it.
    ///
    /// An action that is listed twice is in conflict with itself.
    pub fn build(actions: Vec<Action>) -> (built: Result<Actions, KeyConflicts>)
        ensures
            match built {
                Ok(table) => conflict_free(actions@) && table@ == actions@,
                Err(conflicts) => !conflict_free(actions@) && conflicts@ == conflict_report(
                    actions@,
                ),
            },
    {
        let mut conflicts: Vec<Conflict> = Vec::new();
        let mut i: usize = 0;
        let ghost per_action = |a: Action| a.spec_keys();
        proof {
            reveal(Seq::filter);
        }
        while i < actions.len()
            invariant
                i <= actions.len(),
                per_action == |a: Action| a.spec_keys(),
                conflict_views(conflicts@) == report_on(
                    actions@,
                    actions@.take(i as int).flat_map(per_action),
                ),
            decreases actions.len() - i,
        {
            let keys = actions[i].keys();
            let ghost walked = actions@.take(i as int).flat_map(per_action);
            let mut j: usize = 0;
            while j < keys.len()
                invariant
                    i < actions.len(),
                    j <= keys.len(),
                    keys@ == actions@[i as int].spec_keys(),
                    conflict_views(conflicts@) == report_on(
                        actions@,
                        walked + keys@.take(j as int),
                    ),
                decreases keys.len() - j,
            {
                let key = keys[j];
                proof {
                    assert(walked + keys@.take(j as int + 1) == (walked + keys@.take(
                        j as int,
                    )).push(key));
                    lemma_report_step(actions@, walked + keys@.take(j as int), key);
                }
                if !is_reported(&conflicts, key) {
                    let claiming = claimants_of(&actions, key);
                    proof {
                        lemma_claimants_len(actions@, key);
                    }
                    if claiming.len() > 1 {
                        conflicts.push(Conflict { key, actions: claiming });
                    }
                }
                j = j + 1;
            }
            proof {
                assert(keys@.take(j as int) == keys@);
                actions@.lemma_flat_map_take_append(per_action, i as int);
            }
            i = i + 1;
        }
        proof {
            assert(actions@.take(i as int) == actions@);
            lemma_report_complete(actions@);
        }
        if conflicts.len() == 0 {
            Ok(Actions::from(actions))
        } else {
            Err(KeyConflicts(conflicts))
        }
    }

    /// The action that `key` triggers: the one enabled action that claims it, if
    /// there is one.
    pub fn find(&self, key: Key) -> (found: Option<Action>)
        ensures
            found == resolve(self@, key),
            conflict_free(self@),
    {
        proof {
            use_type_invariant(self);
        }
        let mut i: usize = 0;
        while i < self.0.len()
            invariant
                i <= self.0.len(),
                conflict_free(self.0@),
                forall|j: int| 0 <= j < i ==> !(#[trigger] self.0@[j]).claims(key),
            decreases self.0.len() - i,
        {
            if self.0[i].is_triggered_by(key) {
                proof {
                    lemma_resolve_first(self.0@, key, i as int);
                }
                return Some(self.0[i]);
            }
            i = i + 1;
        }
        proof {
            lemma_resolve_none(self.0@, key);
        }
        None
    }

    /// The enabled actions, in the order in which the table was built.
    pub fn actions(&self) -> (list: &[Action])
        ensures
            list@ == self@,
            conflict_free(self@),
    {
        proof {
            use_type_invariant(self);
        }
        self.0.as_slice()
    }
}

} // verus!
