use tree_builder::plan::{creation_notice, failure_message, plan_entry, Operation};

#[test]
fn an_existing_entry_takes_no_step() {
    assert_eq!(plan_entry(true, true), Vec::<Operation>::new());
    assert_eq!(plan_entry(true, false), Vec::<Operation>::new());
}

#[test]
fn a_missing_directory_takes_one_step() {
    assert_eq!(plan_entry(false, true), vec![Operation::CreateDirectory]);
}

#[test]
fn a_missing_file_has_its_ancestors_created_first() {
    assert_eq!(plan_entry(false, false), vec![Operation::CreateParents, Operation::CreateFile]);
}

#[test]
fn notices_name_the_kind_and_the_path() {
    assert_eq!(
        creation_notice(false, true, "out/project/"),
        Some(String::from("Created directory: out/project/"))
    );
    assert_eq!(
        creation_notice(false, false, "out/project/README.md"),
        Some(String::from("Created file: out/project/README.md"))
    );
    assert_eq!(creation_notice(false, false, ""), Some(String::from("Created file: ")));
}

#[test]
fn an_existing_entry_is_not_reported() {
    assert_eq!(creation_notice(true, true, "out/project/"), None);
    assert_eq!(creation_notice(true, false, "out/project/README.md"), None);
}

#[test]
fn failure_messages_name_the_operation_and_the_path() {
    assert_eq!(
        failure_message(Operation::CreateDirectory, "out/a/"),
        "Failed to create directory: out/a/"
    );
    assert_eq!(
        failure_message(Operation::CreateParents, "out/a"),
        "Failed to create parent directory: out/a"
    );
    assert_eq!(
        failure_message(Operation::CreateFile, "out/a/b.txt"),
        "Failed to create file: out/a/b.txt"
    );
}
