use std::path::Path;
use tree_builder::processor::{join_path, Entry, FileTreeProcessor};

fn fresh() -> FileTreeProcessor {
    FileTreeProcessor::new(String::from("out"))
}

fn names(processor: &FileTreeProcessor) -> Vec<&str> {
    processor.current_path().iter().map(|name| name.as_str()).collect()
}

fn entry(path: &str, is_directory: bool) -> Option<Entry> {
    Some(Entry { path: String::from(path), is_directory })
}

#[test]
fn a_new_processor_has_seen_nothing() {
    let processor = FileTreeProcessor::new(String::from("some/where"));
    assert_eq!(processor.output_dir(), "some/where");
    assert!(processor.current_path().is_empty());
    assert_eq!(processor.last_depth(), 0);
    assert_eq!(processor.indent_count(), 0);
}

#[test]
fn blank_lines_change_nothing() {
    let mut processor = fresh();
    assert_eq!(processor.process_line(""), None);
    assert_eq!(processor.process_line("    "), None);
    assert_eq!(processor.process_line("\t \u{A0}\r"), None);
    assert!(processor.current_path().is_empty());
    assert_eq!(processor.last_depth(), 0);
    assert_eq!(processor.indent_count(), 0);

    processor.process_line("root/");
    processor.process_line("├── a/");
    assert_eq!(processor.process_line("   "), None);
    assert_eq!(processor.process_line(""), None);
    assert_eq!(names(&processor), vec!["root/", "a/"]);
    assert_eq!(processor.last_depth(), 1);
    assert_eq!(processor.indent_count(), 0);
    assert_eq!(processor.output_dir(), "out");
}

#[test]
fn a_single_top_level_line_opens_the_chain() {
    let mut processor = fresh();
    let asked = processor.process_line("root/");
    assert_eq!(asked, entry("root/", true));
    assert_eq!(names(&processor), vec!["root/"]);
    assert_eq!(processor.last_depth(), 0);
    assert_eq!(Path::new("out").join("root/"), Path::new("out/root"));
}

#[test]
fn nesting_grows_the_chain() {
    let mut processor = fresh();
    assert_eq!(processor.calculate_depth("a/"), 0);
    assert_eq!(processor.calculate_depth("├── b/"), 1);
    assert_eq!(processor.calculate_depth("│   ├── c.txt"), 2);
    processor.process_line("a/");
    processor.process_line("├── b/");
    let asked = processor.process_line("│   └── c.txt");
    assert_eq!(names(&processor), vec!["a/", "b/", "└── c.txt"]);
    assert_eq!(processor.last_depth(), 2);
    assert_eq!(asked, entry("a//b//└── c.txt", false));
}

#[test]
fn nesting_with_plain_names_joins_all_three() {
    let mut processor = fresh();
    processor.update_current_path(0, String::from("a"));
    processor.update_current_path(1, String::from("b"));
    processor.update_current_path(2, String::from("c.txt"));
    assert_eq!(names(&processor), vec!["a", "b", "c.txt"]);
    assert_eq!(processor.last_depth(), 2);
    assert_eq!(join_path(processor.current_path()), "a/b/c.txt");
}

#[test]
fn a_dedent_replaces_the_sibling() {
    let mut processor = fresh();
    processor.process_line("a/");
    processor.process_line("├── b/");
    processor.process_line("│   ├── c.txt");
    let asked = processor.process_line("└── d/");
    assert_eq!(names(&processor), vec!["a/", "d/"]);
    assert_eq!(processor.last_depth(), 1);
    assert_eq!(asked, entry("a//d/", true));
}

#[test]
fn a_line_at_the_same_depth_replaces_the_last_name() {
    let mut processor = fresh();
    processor.process_line("a/");
    processor.process_line("├── b.txt");
    let asked = processor.process_line("├── c.txt");
    assert_eq!(names(&processor), vec!["a/", "c.txt"]);
    assert_eq!(asked, entry("a//c.txt", false));
    processor.process_line("z/");
    assert_eq!(names(&processor), vec!["z/"]);
    assert_eq!(processor.last_depth(), 0);
}

#[test]
fn a_jump_in_depth_adds_one_name_only() {
    let mut processor = fresh();
    let asked = processor.process_line("│ │ │ x");
    assert_eq!(asked, entry("│ │ x", false));
    assert_eq!(processor.current_path().len(), 1);
    assert_eq!(processor.last_depth(), 3);
    // The same depth again: the chain is shorter than the depth, so nothing is cut.
    processor.update_current_path(3, String::from("y"));
    assert_eq!(names(&processor), vec!["│ │ x", "y"]);
    assert_eq!(processor.last_depth(), 3);
    // Deeper still: one more name.
    processor.update_current_path(7, String::from("z"));
    assert_eq!(names(&processor), vec!["│ │ x", "y", "z"]);
    assert_eq!(processor.last_depth(), 7);
    // Back to the top.
    processor.update_current_path(0, String::from("top"));
    assert_eq!(names(&processor), vec!["top"]);
    assert_eq!(processor.last_depth(), 0);
}

#[test]
fn the_chain_is_one_longer_than_the_depth_on_a_well_nested_tree() {
    let lines = [
        "r/",
        "├── a/",
        "│   ├── b/",
        "│   │   ├── c",
        "│   │   └── d",
        "│   └── e",
        "└── f/",
    ];
    let mut processor = fresh();
    for line in lines {
        processor.process_line(line);
        assert_eq!(processor.current_path().len(), processor.last_depth() + 1, "after {:?}", line);
    }
}

#[test]
fn depth_of_a_line_that_opens_with_a_space_adds_the_spaces_modulo_four() {
    let mut processor = fresh();
    // One glyph, five spaces.
    assert_eq!(processor.calculate_depth("    └── deep.txt"), 2);
    // No glyph, three spaces.
    assert_eq!(processor.calculate_depth("  a b"), 3);
    // No glyph, four spaces.
    assert_eq!(processor.calculate_depth("    name"), 0);
    // Two glyphs, five spaces.
    assert_eq!(processor.calculate_depth(" │   └─ x"), 3);
    // Two glyphs, six spaces.
    assert_eq!(processor.calculate_depth(" │   └─ x y"), 4);
    // The spaces do not count when the line opens with something else.
    assert_eq!(processor.calculate_depth("│     x"), 1);
    assert_eq!(processor.calculate_depth("\t  x"), 0);
    assert_eq!(processor.calculate_depth(""), 0);
    assert_eq!(processor.calculate_depth(" "), 1);
}

#[test]
fn depth_agrees_with_counting_by_hand() {
    let lines = [
        "project/",
        "├── src/",
        "│   ├── main.txt",
        "│   │   └── deep/",
        "    └── indented",
        "  ─├ odd │ line ─ ",
        " ",
        "",
        "       │",
    ];
    for line in lines {
        let glyphs = line.chars().filter(|c| matches!(c, '│' | '├' | '└')).count();
        let spaces = line.chars().filter(|c| *c == ' ').count();
        let expected = if line.starts_with(' ') { glyphs + spaces % 4 } else { glyphs };
        assert_eq!(fresh().calculate_depth(line), expected, "for {:?}", line);
    }
}

#[test]
fn the_indentation_unit_is_learned_once_from_a_line_with_two_glyphs() {
    let mut processor = fresh();
    processor.calculate_depth("├── one glyph");
    assert_eq!(processor.indent_count(), 0);
    processor.calculate_depth("   │ │ │ three glyphs");
    assert_eq!(processor.indent_count(), 0);
    // Two glyphs, but the line opens with no space: nothing is learned yet.
    processor.calculate_depth("│   ├── main.txt");
    assert_eq!(processor.indent_count(), 0);
    // Two glyphs behind two spaces.
    assert_eq!(processor.calculate_depth("  │ └ x"), 2);
    assert_eq!(processor.indent_count(), 2);
    // Known now: a later line does not change it.
    processor.calculate_depth("     │ └ y");
    assert_eq!(processor.indent_count(), 2);
    assert!(processor.current_path().is_empty());
    assert_eq!(processor.last_depth(), 0);
}

#[test]
fn the_indentation_unit_does_not_change_the_depth() {
    let mut learned = fresh();
    learned.calculate_depth("   │ └ x");
    assert_eq!(learned.indent_count(), 3);
    let mut plain = fresh();
    for line in ["  │ a", "├── b", "      c", " │ │ │ d"] {
        assert_eq!(learned.calculate_depth(line), plain.calculate_depth(line));
    }
}

#[test]
fn process_line_learns_the_indentation_unit() {
    let mut processor = fresh();
    processor.process_line("root/");
    processor.process_line("    │ └ x");
    assert_eq!(processor.indent_count(), 4);
    assert_eq!(processor.output_dir(), "out");
}

#[test]
fn clean_line_strips_glyphs_then_white_space() {
    let processor = fresh();
    assert_eq!(processor.clean_line("root/"), "root/");
    assert_eq!(processor.clean_line("├── src/"), "src/");
    assert_eq!(processor.clean_line("└── README.md  "), "README.md");
    assert_eq!(processor.clean_line("│   ├── main.txt"), "├── main.txt");
    assert_eq!(processor.clean_line("├── with space.txt"), "with space.txt");
    assert_eq!(processor.clean_line("├──"), "");
    assert_eq!(processor.clean_line(""), "");
    assert_eq!(processor.clean_line("├── é─ü/"), "é─ü/");
}

#[test]
fn a_trailing_separator_makes_a_directory() {
    let mut processor = fresh();
    assert_eq!(processor.process_line("empty/"), entry("empty/", true));
    assert_eq!(processor.process_line("file"), entry("file", false));
    assert_eq!(processor.process_line("/"), entry("/", true));
    assert_eq!(processor.process_line("a/b"), entry("a/b", false));
    assert_eq!(processor.process_line("dir/   "), entry("dir/", true));
    assert_eq!(processor.process_line("dir/ x"), entry("dir/ x", false));
}

#[test]
fn a_line_of_glyphs_alone_asks_for_a_file_without_a_name() {
    let mut processor = fresh();
    processor.process_line("root/");
    assert_eq!(processor.process_line("├──"), entry("root//", false));
    assert_eq!(names(&processor), vec!["root/", ""]);
}

#[test]
fn join_path_puts_a_separator_between_names() {
    assert_eq!(join_path(&Vec::new()), "");
    assert_eq!(join_path(&vec![String::from("a")]), "a");
    assert_eq!(join_path(&vec![String::from("a"), String::from("b")]), "a/b");
    assert_eq!(
        join_path(&vec![String::from("a/"), String::new(), String::from("c")]),
        "a///c"
    );
}

#[test]
fn the_same_lines_ask_for_the_same_entries_again() {
    let lines = ["project/", "├── src/", "│   ├── main.txt", "├── README.md"];
    let mut first = fresh();
    let mut second = fresh();
    for line in lines {
        assert_eq!(first.process_line(line), second.process_line(line));
    }
}

#[test]
fn a_small_project_end_to_end() {
    let mut processor = fresh();
    let root = Path::new(processor.output_dir()).to_path_buf();

    let project = processor.process_line("project/").unwrap();
    assert!(project.is_directory);
    assert_eq!(project.path, "project/");
    assert_eq!(root.join(&project.path), Path::new("out/project"));

    let src = processor.process_line("├── src/").unwrap();
    assert!(src.is_directory);
    assert_eq!(src.path, "project//src/");
    assert_eq!(root.join(&src.path), Path::new("out/project/src"));

    // The second connector stands behind spaces, so it stays in the name.
    let main = processor.process_line("│   ├── main.txt").unwrap();
    assert!(!main.is_directory);
    assert_eq!(processor.last_depth(), 2);
    assert_eq!(main.path, "project//src//├── main.txt");
    assert_eq!(root.join(&main.path), Path::new("out/project/src/├── main.txt"));

    // Depth one: a sibling of `src/`, not of the file before.
    let readme = processor.process_line("├── README.md").unwrap();
    assert!(!readme.is_directory);
    assert_eq!(processor.last_depth(), 1);
    assert_eq!(readme.path, "project//README.md");
    assert_eq!(root.join(&readme.path), Path::new("out/project/README.md"));
    assert_eq!(names(&processor), vec!["project/", "README.md"]);
}
