use borrowing::references::{calculate_length, immutable_reference};

#[test]
fn calculate_length_of_the_greeting_is_twelve() {
    let s1 = String::from("Hello world!");
    assert_eq!(calculate_length(&s1), 12);
}

#[test]
fn calculate_length_of_an_empty_text_is_zero() {
    assert_eq!(calculate_length(&String::new()), 0);
}

#[test]
fn calculate_length_counts_bytes_not_characters() {
    assert_eq!(calculate_length(&String::from("héllo")), 6);
    assert_eq!(calculate_length(&String::from("日本語")), 9);
    assert_eq!(calculate_length(&String::from("🦀")), 4);
    assert_eq!(calculate_length(&String::from("a\u{7f}\u{80}\u{7ff}\u{800}\u{ffff}\u{10000}")), 16);
}

#[test]
fn calculate_length_agrees_with_len() {
    for text in ["", "a", "Hello world!", "tab\tand\nbreak", "çà et là", "∀x∃y", "🦀🦀🦀"] {
        let owned = String::from(text);
        assert_eq!(calculate_length(&owned), text.len());
    }
}

#[test]
fn calculate_length_leaves_the_text_with_its_owner() {
    let s1 = String::from("Hello world!");
    let len = calculate_length(&s1);
    assert_eq!(format!("The length of '{s1}' is {len}."), "The length of 'Hello world!' is 12.");
}

#[test]
fn immutable_reference_prints_every_line_in_order() {
    let mut console = String::new();
    immutable_reference(&mut console);
    let lines: Vec<&str> = console.lines().collect();
    assert_eq!(
        lines,
        vec![
            "The length of 'Hello world!' is 12.",
            "Hello world again! but I'm changed!",
            " We used two mutable references r1 and r2. r2 works: Hello world again again!",
            "Hello world again again again! and Hello world again again again! will never be used again!",
            "Hello world again again again! but I'm changed! and that's fine!",
            "Dangler!",
        ]
    );
    assert!(console.ends_with("Dangler!\n"));
    assert_eq!(console.matches('\n').count(), 6);
}

#[test]
fn immutable_reference_writes_behind_what_the_console_holds() {
    let mut console = String::from("before\n");
    immutable_reference(&mut console);
    let mut fresh = String::new();
    immutable_reference(&mut fresh);
    assert_eq!(console, format!("before\n{fresh}"));
    assert!(fresh.starts_with("The length of 'Hello world!' is 12.\nHello world again!"));
}

#[test]
fn immutable_reference_prints_the_same_every_time() {
    let mut console = String::new();
    immutable_reference(&mut console);
    let once = console.clone();
    immutable_reference(&mut console);
    assert_eq!(console, format!("{once}{once}"));
}
