use xero_toolkit::selection::{
    confirm_enabled, initial_states, selected_ids, SelectionDialogConfig, SelectionOption, SelectionType,
};

fn config() -> SelectionDialogConfig {
    SelectionDialogConfig::new("NVIDIA Driver Selection", "Select which NVIDIA driver version to install.")
        .add_option(SelectionOption::new("nvidia_closed", "NVIDIA Closed Source", "Proprietary", false))
        .add_option(SelectionOption::new("nvidia_open", "NVIDIA Open Source", "Open", true))
        .confirm_label("Install")
}

#[test]
fn builder_defaults_and_setters() {
    let c = SelectionDialogConfig::new("T", "D");
    assert_eq!(c.confirm_label, "Install");
    assert_eq!(c.selection_type, SelectionType::Multi);
    assert!(c.selection_required);
    let c = c.selection_type(SelectionType::Single).selection_required(false).confirm_label("Apply");
    assert_eq!(c.selection_type, SelectionType::Single);
    assert!(!c.selection_required);
    assert_eq!(c.confirm_label, "Apply");
    let c = config();
    assert_eq!(c.options.len(), 2);
    assert_eq!(c.options[1].id, "nvidia_open");
}

#[test]
fn confirm_needs_a_choice_when_required() {
    let c = config();
    assert!(!confirm_enabled(&c, &vec![false, false]));
    assert!(confirm_enabled(&c, &vec![true, true]));
    // The installed option starts checked, but does not enable confirmation.
    assert!(!confirm_enabled(&c, &vec![false, true]));
    assert!(selected_ids(&c, &vec![false, true]).is_empty());
    let optional = config().selection_required(false);
    assert!(confirm_enabled(&optional, &vec![false, false]));
}

#[test]
fn chosen_ids_in_option_order() {
    let c = config();
    // The second option is installed already: it is never handed back.
    assert_eq!(selected_ids(&c, &vec![true, true]), vec!["nvidia_closed".to_string()]);
    assert!(selected_ids(&c, &vec![false, true]).is_empty());
    let c2 = SelectionDialogConfig::new("T", "D")
        .add_option(SelectionOption::new("a", "A", "", false))
        .add_option(SelectionOption::new("b", "B", "", false));
    assert_eq!(selected_ids(&c2, &vec![true, true]), vec!["a".to_string(), "b".to_string()]);
    assert_eq!(selected_ids(&c2, &vec![false, true]), vec!["b".to_string()]);
}

#[test]
fn installed_options_start_checked_and_locked() {
    let states = initial_states(&config());
    assert_eq!(states.len(), 2);
    assert_eq!(states[0], (false, true));
    assert_eq!(states[1], (true, false));
}
