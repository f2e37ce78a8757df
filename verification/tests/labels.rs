use multiwindow::label::{
    window_label, EFFECTS_LABEL, FLOATING_LABEL, FOCUS_LABEL, NUMBERED_PREFIX, POSITION_LABEL,
};

#[test]
fn fixed_labels_are_spelled_out() {
    assert_eq!(FOCUS_LABEL, "focus");
    assert_eq!(EFFECTS_LABEL, "effects");
    assert_eq!(FLOATING_LABEL, "floating");
    assert_eq!(POSITION_LABEL, "position");
    assert_eq!(NUMBERED_PREFIX, "window-");
}

#[test]
fn label_of_count_zero() {
    assert_eq!(window_label(0), "window-0");
}

#[test]
fn labels_of_single_digit_counts() {
    assert_eq!(window_label(1), "window-1");
    assert_eq!(window_label(7), "window-7");
    assert_eq!(window_label(9), "window-9");
}

#[test]
fn labels_of_longer_counts_put_the_high_digit_first() {
    assert_eq!(window_label(10), "window-10");
    assert_eq!(window_label(12), "window-12");
    assert_eq!(window_label(21), "window-21");
    assert_eq!(window_label(100), "window-100");
    assert_eq!(window_label(105), "window-105");
    assert_eq!(window_label(9_876_543_210), "window-9876543210");
}

#[test]
fn label_of_the_largest_count() {
    assert_eq!(window_label(usize::MAX), format!("window-{}", usize::MAX));
}

#[test]
fn labels_agree_with_decimal_formatting() {
    let mut count: usize = 0;
    while count < 2500 {
        assert_eq!(window_label(count), format!("window-{}", count));
        count += 1;
    }
}

#[test]
fn labels_of_different_counts_differ() {
    let mut labels: Vec<String> = Vec::new();
    let mut count: usize = 0;
    while count < 300 {
        let label = window_label(count);
        assert!(!labels.contains(&label));
        labels.push(label);
        count += 1;
    }
}

#[test]
fn numbered_labels_are_never_fixed_labels() {
    let mut count: usize = 0;
    while count < 300 {
        let label = window_label(count);
        assert_ne!(label, FOCUS_LABEL);
        assert_ne!(label, EFFECTS_LABEL);
        assert_ne!(label, FLOATING_LABEL);
        assert_ne!(label, POSITION_LABEL);
        count += 1;
    }
}
