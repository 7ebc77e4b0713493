use records::demo::transcript;

#[test]
fn transcript_has_one_entry_for_each_print() {
    assert_eq!(transcript().len(), 7);
}

#[test]
fn transcript_matches_the_expected_output() {
    let expected: Vec<&str> = vec![
        "Adam",
        "Mariah",
        "User { name: \"Mariah\", email: \"email@example.com\", is_active: true, login_count: 1 }",
        "User {\n    name: \"Mariah\",\n    email: \"email@example.com\",\n    is_active: true,\n    login_count: 1,\n}",
        "Hi, my name is Mariah, my email is email@example.com, I have logged on 1 times, and my status is true",
        "Adam",
        "12",
    ];
    assert_eq!(transcript(), expected);
}

#[test]
fn transcript_is_the_same_on_every_run() {
    assert_eq!(transcript(), transcript());
}

#[test]
fn first_name_is_printed_again_after_the_override() {
    let lines = transcript();
    assert_eq!(lines[0], "Adam");
    assert_eq!(lines[1], "Mariah");
    assert_eq!(lines[5], lines[0]);
}
