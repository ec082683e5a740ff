use borrowing::dangling::{dangler, dangling_references};

#[test]
fn dangler_hands_out_its_text() {
    let no_content = dangler();
    assert_eq!(no_content, "Dangler!");
}

#[test]
fn dangler_gives_a_value_of_its_own_each_time() {
    let mut first = dangler();
    let second = dangler();
    first.push('?');
    assert_eq!(first, "Dangler!?");
    assert_eq!(second, "Dangler!");
}

#[test]
fn dangling_references_prints_the_text() {
    let mut console = String::new();
    dangling_references(&mut console);
    assert_eq!(console, "Dangler!\n");
}

#[test]
fn dangling_references_writes_behind_what_the_console_holds() {
    let mut console = String::from("so far\n");
    dangling_references(&mut console);
    assert_eq!(console, "so far\nDangler!\n");
}
