//! What the screen shows, as far as it follows from the state alone: which menu
//! is drawn, what the help table lists, how a gauge is titled, and how small a
//! terminal may be.
use vstd::prelude::*;
use vstd::string::StringExecFns;
use crate::app::actions::{Action, Actions};
use crate::app::state::{AppState, AppStateView};
use crate::text::{decimal, push_decimal};

verus! {

/// The smallest width, in columns, on which the screen can be drawn.
pub const MIN_WIDTH: u16 = 52;

/// The smallest height, in rows, on which the screen can be drawn.
pub const MIN_HEIGHT: u16 = 28;

/// Why the screen cannot be drawn on a terminal.
#[derive(Debug, Clone, Copy, PartialEq, Eq, Structural)]
pub enum SizeError {
    /// The terminal has this many columns, which is too few.
    Width(u16),
    /// The terminal has this many rows, which is too few.
    Height(u16),
}

impl SizeError {
    /// The sentence that reports this error.
    pub open spec fn spec_message(self) -> Seq<char> {
        match self {
            SizeError::Width(got) => "Require width >= "@ + decimal(MIN_WIDTH as nat)
                + ", (got "@ + decimal(got as nat) + ")"@,
            SizeError::Height(got) => "Require height >= "@ + decimal(MIN_HEIGHT as nat)
                + ", (got "@ + decimal(got as nat) + ")"@,
        }
    }

    /// The sentence that reports this error: what is required, and what was
    /// found.
    pub fn message(&self) -> (text: String)
        ensures
            text@ == self.spec_message(),
    {
        let (mut text, least, got) = match self {
            SizeError::Width(got) => (String::from_str("Require width >= "), MIN_WIDTH, *got),
            SizeError::Height(got) => (String::from_str("Require height >= "), MIN_HEIGHT, *got),
        };
        push_decimal(&mut text, least as u64);
        text.append(", (got ");
        push_decimal(&mut text, got as u64);
        text.append(")");
        text
    }
}

/// Whether the screen can be drawn on a terminal of `width` columns and
/// `height` rows. The width is looked at first.
pub fn check_size(width: u16, height: u16) -> (fit: Result<(), SizeError>)
    ensures
        fit == (if width < MIN_WIDTH {
            Err::<(), SizeError>(SizeError::Width(width))
        } else if height < MIN_HEIGHT {
            Err::<(), SizeError>(SizeError::Height(height))
        } else {
            Ok::<(), SizeError>(())
        }),
{
    if width < MIN_WIDTH {
        Err(SizeError::Width(width))
    } else if height < MIN_HEIGHT {
        Err(SizeError::Height(height))
    } else {
        Ok(())
    }
}

/// What is drawn below the tabs.
#[derive(Debug, Clone, Copy, PartialEq, Eq, Structural)]
pub enum Menu {
    /// The log and the help table.
    Debug,
    /// The gauges of the display at this place.
    Controller(usize),
}

/// The menu that belongs to the tab shown: the gauges of a display on its tab,
/// and the log and the help table on the last tab. Nothing is drawn before the
/// registry is known.
pub open spec fn spec_menu(state: AppStateView) -> Option<Menu> {
    match state {
        AppStateView::Uninit => None,
        AppStateView::Initialized { tab_index, disp_mgr, .. } => if tab_index < disp_mgr.len() {
            Some(Menu::Controller(tab_index))
        } else {
            Some(Menu::Debug)
        },
    }
}

/// The menu that belongs to the tab shown.
pub fn menu(state: &AppState) -> (shown: Option<Menu>)
    ensures
        shown == spec_menu(state@),
{
    match state {
        AppState::Uninit => None,
        AppState::Initialized { tab_index, disp_mgr, .. } => {
            if *tab_index < disp_mgr.get_num_disps() {
                Some(Menu::Controller(*tab_index))
            } else {
                Some(Menu::Debug)
            }
        },
    }
}

/// The title of a gauge: in square brackets where the gauge has the focus.
pub fn gauge_title(title: &str, focused: bool) -> (shown: String)
    ensures
        shown@ == if focused {
            "["@ + title@ + "]"@
        } else {
            title@
        },
{
    if focused {
        let mut shown = String::from_str("[");
        shown.append(title);
        shown.append("]");
        shown
    } else {
        String::from_str(title)
    }
}

/// One row of the help table.
#[derive(Debug, PartialEq, Eq)]
pub struct HelpRow {
    /// The key.
    pub key: String,
    /// The name of the action that the key triggers, on the first row of the
    /// action; empty on its further rows.
    pub help: String,
}

/// A row of the help table as a plain value.
pub struct HelpRowView {
    pub key: Seq<char>,
    pub help: Seq<char>,
}

impl View for HelpRow {
    type V = HelpRowView;

    open spec fn view(&self) -> HelpRowView {
        HelpRowView { key: self.key@, help: self.help@ }
    }
}

/// The rows of one action: a row for each of its keys, the first with the
/// action's name.
pub open spec fn action_rows(action: Action) -> Seq<HelpRowView> {
    Seq::new(
        action.spec_keys().len(),
        |i: int|
            HelpRowView {
                key: action.spec_keys()[i].spec_label(),
                help: if i == 0 {
                    action.spec_name()
                } else {
                    Seq::empty()
                },
            },
    )
}

/// The rows of the help table: those of each action, in the order of the table.
pub open spec fn spec_help_rows(actions: Seq<Action>) -> Seq<HelpRowView> {
    actions.flat_map(|action: Action| action_rows(action))
}

/// The rows of the help table for the enabled actions.
pub fn help_rows(actions: &Actions) -> (rows: Vec<HelpRow>)
    ensures
        rows@.map_values(|row: HelpRow| row@) == spec_help_rows(actions@),
{
    let enabled = actions.actions();
    let ghost per_action = |action: Action| action_rows(action);
    let mut rows: Vec<HelpRow> = Vec::new();
    let mut i: usize = 0;
    while i < enabled.len()
        invariant
            i <= enabled.len(),
            enabled@ == actions@,
            per_action == |action: Action| action_rows(action),
            rows@.map_values(|row: HelpRow| row@) == enabled@.take(i as int).flat_map(per_action),
        decreases enabled.len() - i,
    {
        let action = enabled[i];
        let keys = action.keys();
        let ghost done = rows@.map_values(|row: HelpRow| row@);
        let mut j: usize = 0;
        while j < keys.len()
            invariant
                j <= keys.len(),
                keys@ == action.spec_keys(),
                rows@.map_values(|row: HelpRow| row@) == done + action_rows(action).take(
                    j as int,
                ),
            decreases keys.len() - j,
        {
            let help = if j == 0 {
                action.name()
            } else {
                String::new()
            };
            let ghost before = rows@.map_values(|row: HelpRow| row@);
            rows.push(HelpRow { key: keys[j].label(), help });
            proof {
                let all = action_rows(action);
                assert(rows@.map_values(|row: HelpRow| row@) == before.push(all[j as int]));
            }
            j = j + 1;
        }
        proof {
            enabled@.lemma_flat_map_take_append(per_action, i as int);
        }
        i = i + 1;
    }
    assert(enabled@.take(i as int) == enabled@);
    rows
}

} // verus!
