//! Choices offered in selection dialogs.

use vstd::prelude::*;
use crate::command::strings_view;

verus! {

/// An option of a selection dialog.
#[derive(Clone, Debug)]
pub struct SelectionOption {
    /// Identifier handed back when the option is chosen.
    pub id: String,
    /// Title shown.
    pub label: String,
    /// Explanation shown under the title.
    pub description: String,
    /// Already installed: shown checked and not selectable.
    pub installed: bool,
}

impl SelectionOption {
    /// An option with every field given.
    pub fn new(id: &str, label: &str, description: &str, installed: bool) -> (o: Self)
        ensures
            o.id@ == id@,
            o.label@ == label@,
            o.description@ == description@,
            o.installed == installed,
    {
        SelectionOption {
            id: id.to_owned(),
            label: label.to_owned(),
            description: description.to_owned(),
            installed,
        }
    }
}

/// Whether one or several options can be chosen.
#[derive(Clone, Copy, Debug, PartialEq, Eq, Structural)]
pub enum SelectionType {
    /// One option (radio buttons).
    Single,
    /// Any number of options (check boxes).
    Multi,
}

/// What a selection dialog shows and how it behaves.
pub struct SelectionDialogConfig {
    /// Dialog title.
    pub title: String,
    /// Text under the title.
    pub description: String,
    /// The options, in order.
    pub options: Vec<SelectionOption>,
    /// Label of the confirm button.
    pub confirm_label: String,
    /// Single or multiple choice.
    pub selection_type: SelectionType,
    /// Whether confirming needs a selection.
    pub selection_required: bool,
}

impl SelectionDialogConfig {
    /// A dialog with no option yet: multiple choice, a selection required,
    /// and an "Install" button.
    pub fn new(title: &str, description: &str) -> (c: Self)
        ensures
            c.title@ == title@,
            c.description@ == description@,
            c.options@.len() == 0,
            c.confirm_label@ == "Install"@,
            c.selection_type == SelectionType::Multi,
            c.selection_required,
    {
        SelectionDialogConfig {
            title: title.to_owned(),
            description: description.to_owned(),
            options: Vec::new(),
            confirm_label: "Install".to_owned(),
            selection_type: SelectionType::Multi,
            selection_required: true,
        }
    }

    /// Adds an option after the others.
    pub fn add_option(self, option: SelectionOption) -> (c: Self)
        ensures
            c.options@ == self.options@.push(option),
            c.title == self.title,
            c.description == self.description,
            c.confirm_label == self.confirm_label,
            c.selection_type == self.selection_type,
            c.selection_required == self.selection_required,
    {
        let mut c = self;
        c.options.push(option);
        c
    }

    /// Sets the confirm button's label.
    pub fn confirm_label(self, label: &str) -> (c: Self)
        ensures
            c.confirm_label@ == label@,
            c.options == self.options,
            c.title == self.title,
            c.description == self.description,
            c.selection_type == self.selection_type,
            c.selection_required == self.selection_required,
    {
        let mut c = self;
        c.confirm_label = label.to_owned();
        c
    }

    /// Sets single or multiple choice.
    pub fn selection_type(self, selection_type: SelectionType) -> (c: Self)
        ensures
            c.selection_type == selection_type,
            c.options == self.options,
            c.title == self.title,
            c.description == self.description,
            c.confirm_label == self.confirm_label,
            c.selection_required == self.selection_required,
    {
        let mut c = self;
        c.selection_type = selection_type;
        c
    }

    /// Sets whether confirming needs a selection.
    pub fn selection_required(self, required: bool) -> (c: Self)
        ensures
            c.selection_required == required,
            c.options == self.options,
            c.title == self.title,
            c.description == self.description,
            c.confirm_label == self.confirm_label,
            c.selection_type == self.selection_type,
    {
        let mut c = self;
        c.selection_required = required;
        c
    }
}

/// Some option is checked and selectable (not installed already): one that
/// would be handed back on confirmation.
pub open spec fn has_choice(options: Seq<SelectionOption>, active: Seq<bool>) -> bool {
    exists|i: int| 0 <= i < options.len() && i < active.len() && active[i] && !options[i].installed
}

/// Whether the confirm button is enabled, given which options are checked
/// (`active[i]` for option `i`): always when no selection is required, else
/// when some selectable option is checked (installed options, checked from
/// the start, do not count).
pub fn confirm_enabled(config: &SelectionDialogConfig, active: &Vec<bool>) -> (r: bool)
    ensures
        r == (!config.selection_required || has_choice(config.options@, active@)),
{
    if !config.selection_required {
        return true;
    }
    let mut i: usize = 0;
    while i < config.options.len()
        invariant
            i <= config.options@.len(),
            forall|k: int|
                0 <= k < i ==> !(k < active@.len() && active@[k] && !config.options@[k].installed),
        decreases config.options@.len() - i,
    {
        if i < active.len() && active[i] && !config.options[i].installed {
            return true;
        }
        i = i + 1;
    }
    false
}

/// With a selection required, the confirm button is enabled exactly when
/// confirming hands back at least one identifier.
pub proof fn law_confirm_hands_back_a_choice(options: Seq<SelectionOption>, active: Seq<bool>)
    ensures
        has_choice(options, active) == (chosen_ids(options, active).len() > 0),
    decreases options.len(),
{
    if options.len() > 0 {
        let init = options.drop_last();
        let i = options.len() - 1;
        law_confirm_hands_back_a_choice(init, active);
        if has_choice(init, active) {
            let k = choose|k: int| 0 <= k < init.len() && k < active.len() && active[k] && !init[k].installed;
            assert(options[k] == init[k]);
        }
        if has_choice(options, active) && !(i < active.len() && active[i] && !options[i].installed) {
            let k = choose|k: int| 0 <= k < options.len() && k < active.len() && active[k] && !options[k].installed;
            assert(k != i);
            assert(init[k] == options[k]);
        }
    }
}

/// The identifiers of the options that are checked and selectable (not
/// installed already), in order.
pub open spec fn chosen_ids(options: Seq<SelectionOption>, active: Seq<bool>) -> Seq<Seq<char>>
    decreases options.len(),
{
    if options.len() == 0 {
        Seq::empty()
    } else {
        let rest = chosen_ids(options.drop_last(), active);
        let i = options.len() - 1;
        if i < active.len() && active[i] && !options[i].installed {
            rest.push(options[i].id@)
        } else {
            rest
        }
    }
}

/// Every identifier handed back belongs to an option that is checked and not
/// installed already: installed options are never chosen again.
pub proof fn law_only_checked_selectable_ids(options: Seq<SelectionOption>, active: Seq<bool>, id: Seq<char>)
    requires
        chosen_ids(options, active).contains(id),
    ensures
        exists|i: int|
            0 <= i < options.len() && i < active.len() && active[i] && !options[i].installed
                && #[trigger] options[i].id@ == id,
    decreases options.len(),
{
    let rest = chosen_ids(options.drop_last(), active);
    let i = options.len() - 1;
    if rest.contains(id) {
        law_only_checked_selectable_ids(options.drop_last(), active, id);
        let j = choose|j: int|
            0 <= j < options.drop_last().len() && j < active.len() && active[j]
                && !options.drop_last()[j].installed && #[trigger] options.drop_last()[j].id@ == id;
        assert(options[j] == options.drop_last()[j]);
    } else {
        let c = chosen_ids(options, active);
        let k = choose|k: int| 0 <= k < c.len() && c[k] == id;
        assert(c == rest.push(options[i].id@));
        assert(k == rest.len()) by {
            if k < rest.len() {
                assert(rest[k] == id);
            }
        }
        assert(options[i].id@ == id);
    }
}

/// What the dialog hands back on confirmation (see `chosen_ids`).
pub fn selected_ids(config: &SelectionDialogConfig, active: &Vec<bool>) -> (r: Vec<String>)
    ensures
        strings_view(r@) == chosen_ids(config.options@, active@),
{
    let ghost opts = config.options@;
    let mut out: Vec<String> = Vec::new();
    let mut i: usize = 0;
    assert(opts.take(0) =~= Seq::<SelectionOption>::empty());
    assert(strings_view(out@) =~= Seq::<Seq<char>>::empty());
    while i < config.options.len()
        invariant
            i <= opts.len(),
            opts == config.options@,
            strings_view(out@) == chosen_ids(opts.take(i as int), active@),
        decreases opts.len() - i,
    {
        assert(opts.take(i + 1).drop_last() =~= opts.take(i as int));
        assert(opts.take(i + 1)[i as int] == opts[i as int]);
        let opt = &config.options[i];
        if i < active.len() && active[i] && !opt.installed {
            out.push(opt.id.clone());
            assert(strings_view(out@) =~= chosen_ids(opts.take(i as int), active@).push(
                opt.id@,
            ));
        }
        i = i + 1;
    }
    assert(opts.take(opts.len() as int) =~= opts);
    out
}

/// Installed options start checked and cannot be changed: (checked, selectable)
/// for each option.
pub fn initial_states(config: &SelectionDialogConfig) -> (r: Vec<(bool, bool)>)
    ensures
        r@.len() == config.options@.len(),
        forall|i: int|
            0 <= i < r@.len() ==> #[trigger] r@[i] == (
            config.options@[i].installed,
            !config.options@[i].installed,
            ),
{
    let mut out: Vec<(bool, bool)> = Vec::new();
    let mut i: usize = 0;
    while i < config.options.len()
        invariant
            i <= config.options@.len(),
            out@.len() == i,
            forall|k: int|
                0 <= k < i ==> #[trigger] out@[k] == (
                config.options@[k].installed,
                !config.options@[k].installed,
                ),
        decreases config.options@.len() - i,
    {
        let installed = config.options[i].installed;
        out.push((installed, !installed));
        i = i + 1;
    }
    out
}

} // verus!
