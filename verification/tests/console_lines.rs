use ownership_demo::console::Console;

#[test]
fn new_console_is_empty() {
    let console = Console::new();
    assert_eq!(console.len(), 0);
    assert!(console.into_lines().is_empty());
}

#[test]
fn println_keeps_the_order_of_writing() {
    let mut console = Console::new();
    console.println(String::from("first"));
    console.println(String::from("second"));
    console.println(String::from("third"));
    assert_eq!(console.len(), 3);
    assert_eq!(console.line(0), "first");
    assert_eq!(console.line(1), "second");
    assert_eq!(console.line(2), "third");
    assert_eq!(console.into_lines(), vec!["first", "second", "third"]);
}

#[test]
fn println_keeps_a_line_as_it_is_given() {
    let mut console = Console::new();
    console.println(String::from("\n\ntwo breaks first"));
    console.println(String::new());
    console.println(String::from("same"));
    console.println(String::from("same"));
    assert_eq!(console.into_lines(), vec!["\n\ntwo breaks first", "", "same", "same"]);
}
