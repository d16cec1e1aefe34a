use multitask::context::{lookup, same_text, Correlation, Entry};

fn entry(key: &str, value: &str) -> Entry {
    Entry { key: key.to_string(), value: value.to_string() }
}

#[test]
fn same_text_compares_characters() {
    assert!(same_text("true", "true"));
    assert!(!same_text("true", "True"));
    assert!(!same_text("true", "true "));
    assert!(same_text("", ""));
}

#[test]
fn lookup_finds_the_value_of_a_key() {
    let entries = vec![entry("shell", "zsh"), entry("folder", "/tmp")];
    assert_eq!(lookup(&entries, "folder"), Some(&"/tmp".to_string()));
    assert_eq!(lookup(&entries, "shell"), Some(&"zsh".to_string()));
}

#[test]
fn lookup_of_a_missing_key_is_none() {
    let entries = vec![entry("shell", "zsh")];
    assert_eq!(lookup(&entries, "folder"), None);
    assert_eq!(lookup(&Vec::new(), "shell"), None);
}

#[test]
fn lookup_takes_the_first_entry_of_a_key() {
    let entries = vec![entry("k", "first"), entry("k", "second")];
    assert_eq!(lookup(&entries, "k"), Some(&"first".to_string()));
}

#[test]
fn correlation_is_written_as_two_decimal_entries() {
    let context = Correlation { command_index: 2, epoch: 15 }.to_context();
    assert_eq!(
        context,
        vec![entry("command_index", "2"), entry("current_run_index", "15")]
    );
}

#[test]
fn correlation_is_read_back_from_its_context() {
    let correlation = Correlation { command_index: 3, epoch: 7 };
    assert_eq!(Correlation::from_context(&correlation.to_context()), Some(correlation));
}

#[test]
fn correlation_is_read_whatever_the_order_of_entries() {
    let context = vec![
        entry("current_run_index", "4"),
        entry("other", "x"),
        entry("command_index", "1"),
    ];
    assert_eq!(
        Correlation::from_context(&context),
        Some(Correlation { command_index: 1, epoch: 4 })
    );
}

#[test]
fn correlation_needs_both_fields() {
    assert_eq!(Correlation::from_context(&vec![entry("command_index", "1")]), None);
    assert_eq!(Correlation::from_context(&vec![entry("current_run_index", "1")]), None);
    assert_eq!(Correlation::from_context(&Vec::new()), None);
}

#[test]
fn correlation_needs_numbers() {
    let context = vec![entry("command_index", "one"), entry("current_run_index", "1")];
    assert_eq!(Correlation::from_context(&context), None);
    let context = vec![entry("command_index", "1"), entry("current_run_index", "-1")];
    assert_eq!(Correlation::from_context(&context), None);
    let context = vec![entry("command_index", ""), entry("current_run_index", "1")];
    assert_eq!(Correlation::from_context(&context), None);
}
