//! The processor that follows a drawn tree line by line and keeps the chain of open
//! entries.

use vstd::prelude::*;
use vstd::string::StrSliceExecFns;
use vstd::string::StringExecFns;
use crate::glyphs::SEPARATOR;
use crate::line::{
    blank,
    clean_name,
    glyph_count,
    is_blank,
    leading_space_count,
    leading_spaces,
    line_depth,
    measure,
    name_bounds,
    names_directory,
};
use crate::text::chars_of;

verus! {

/// What a processor holds, as plain values.
pub struct ProcessorState {
    /// The base under which every entry is placed; fixed for a run.
    pub output_dir: Seq<char>,
    /// The names of the open entries, outermost first.
    pub current_path: Seq<Seq<char>>,
    /// The depth of the line processed last.
    pub last_depth: nat,
    /// The indentation unit learned so far; zero while none is known.
    pub indent_count: nat,
}

/// The entry one line asks for.
#[derive(Debug, PartialEq, Eq)]
pub struct Entry {
    /// The names of the open entries down to this one, joined with the separator.
    pub path: String,
    /// Whether the entry is a directory; otherwise it is a file.
    pub is_directory: bool,
}

/// Follows the lines of a drawn tree and keeps the chain of open entries.
pub struct FileTreeProcessor {
    output_dir: String,
    current_path: Vec<String>,
    last_depth: usize,
    indent_count: usize,
}

/// The names held by a list of strings.
pub open spec fn names_of(strings: Seq<String>) -> Seq<Seq<char>> {
    Seq::new(strings.len(), |i: int| strings[i]@)
}

/// The names joined into one path, with a separator between each two.
pub open spec fn join_names(names: Seq<Seq<char>>) -> Seq<char>
    decreases names.len(),
{
    if names.len() == 0 {
        Seq::empty()
    } else if names.len() == 1 {
        names[0]
    } else {
        join_names(names.drop_last()) + seq![SEPARATOR] + names.last()
    }
}

/// The state of a processor that has seen no line.
pub open spec fn initial_state(output_dir: Seq<char>) -> ProcessorState {
    ProcessorState { output_dir, current_path: Seq::empty(), last_depth: 0, indent_count: 0 }
}

/// The chain of open entries after an entry called `name` was seen at `depth`. When the
/// depth does not exceed that of the line before, the chain is first cut down to `depth`
/// names, if it is longer; then the name is added in every case.
pub open spec fn updated_path(
    path: Seq<Seq<char>>,
    last_depth: nat,
    depth: nat,
    name: Seq<char>,
) -> Seq<Seq<char>> {
    if depth <= last_depth && depth < path.len() {
        path.take(depth as int).push(name)
    } else {
        path.push(name)
    }
}

/// The indentation unit after `line`: the first line with exactly two structural glyphs
/// that is seen while no unit is known sets it to the number of spaces it opens with.
pub open spec fn learned_indent(known: nat, line: Seq<char>) -> nat {
    if glyph_count(line) == 2 && known == 0 {
        leading_spaces(line)
    } else {
        known
    }
}

/// The state after an entry called `name` was seen at `depth`.
pub open spec fn after_entry(state: ProcessorState, depth: nat, name: Seq<char>) -> ProcessorState {
    ProcessorState {
        current_path: updated_path(state.current_path, state.last_depth, depth, name),
        last_depth: depth,
        ..state
    }
}

/// The state after one line. A blank line changes nothing.
pub open spec fn after_line(state: ProcessorState, line: Seq<char>) -> ProcessorState {
    if is_blank(line) {
        state
    } else {
        after_entry(
            ProcessorState { indent_count: learned_indent(state.indent_count, line), ..state },
            line_depth(line),
            clean_name(line),
        )
    }
}

/// The state after the lines of `lines`, taken in order.
pub open spec fn after_lines(state: ProcessorState, lines: Seq<Seq<char>>) -> ProcessorState
    decreases lines.len(),
{
    if lines.len() == 0 {
        state
    } else {
        after_line(after_lines(state, lines.drop_last()), lines.last())
    }
}

/// The chain of open entries never holds more than one name beyond the last depth.
pub open spec fn well_nested(state: ProcessorState) -> bool {
    state.current_path.len() <= state.last_depth + 1
}

/// Joins the names with the separator.
pub fn join_path(names: &Vec<String>) -> (path: String)
    ensures
        path@ == join_names(names_of(names@)),
{
    let mut path = String::new();
    let mut i: usize = 0;
    while i < names.len()
        invariant
            i <= names.len(),
            path@ == join_names(names_of(names@).take(i as int)),
        decreases names.len() - i,
    {
        proof {
            reveal_strlit("/");
            let upto = names_of(names@).take(i + 1);
            assert(upto.drop_last() =~= names_of(names@).take(i as int));
            assert(upto.last() == names@[i as int]@);
            assert("/"@ =~= seq![SEPARATOR]);
        }
        if i > 0 {
            path.append("/");
        } else {
            assert(path@ =~= Seq::<char>::empty());
            assert(path@ + names@[0]@ =~= names@[0]@);
        }
        path.append(names[i].as_str());
        i = i + 1;
    }
    assert(names_of(names@).take(i as int) =~= names_of(names@));
    path
}

impl View for FileTreeProcessor {
    type V = ProcessorState;

    closed spec fn view(&self) -> ProcessorState {
        ProcessorState {
            output_dir: self.output_dir@,
            current_path: names_of(self.current_path@),
            last_depth: self.last_depth as nat,
            indent_count: self.indent_count as nat,
        }
    }
}

impl FileTreeProcessor {
    /// A processor that has seen no line and places its entries under `output_dir`.
    pub fn new(output_dir: String) -> (processor: Self)
        ensures
            processor@ == initial_state(output_dir@),
            well_nested(processor@),
    {
        let processor = FileTreeProcessor {
            output_dir,
            current_path: Vec::new(),
            last_depth: 0,
            indent_count: 0,
        };
        assert(processor@.current_path =~= Seq::empty());
        processor
    }

    /// Takes one line. A blank line changes nothing and asks for nothing. Any other line
    /// moves the processor on and asks for the entry it names, under the path of the
    /// chain as it then stands.
    pub fn process_line(&mut self, line: &str) -> (entry: Option<Entry>)
        ensures
            final(self)@ == after_line(old(self)@, line@),
            is_blank(line@) ==> entry is None && final(self)@ == old(self)@,
            !is_blank(line@) ==> entry is Some && entry->0.path@ == join_names(
                final(self)@.current_path,
            ) && entry->0.is_directory == names_directory(clean_name(line@)),
            well_nested(old(self)@) ==> well_nested(final(self)@),
    {
        let chars = chars_of(line);
        if blank(&chars) {
            return None;
        }
        let depth = self.measure_depth(&chars);
        let (start, end) = name_bounds(&chars);
        let name = String::from_str(line.substring_char(start, end));
        let is_directory = end > start && chars[end - 1] == SEPARATOR;
        self.update_current_path(depth, name);
        let path = join_path(&self.current_path);
        Some(Entry { path, is_directory })
    }

    /// The depth of `line`. A line with exactly two structural glyphs, seen while no
    /// indentation unit is known, sets the unit to the number of spaces it opens with;
    /// the depth does not depend on the unit.
    pub fn calculate_depth(&mut self, line: &str) -> (depth: usize)
        ensures
            depth == line_depth(line@),
            final(self)@ == (ProcessorState {
                indent_count: learned_indent(old(self)@.indent_count, line@),
                ..old(self)@
            }),
            well_nested(old(self)@) ==> well_nested(final(self)@),
    {
        let chars = chars_of(line);
        self.measure_depth(&chars)
    }

    fn measure_depth(&mut self, chars: &Vec<char>) -> (depth: usize)
        ensures
            depth == line_depth(chars@),
            final(self)@ == (ProcessorState {
                indent_count: learned_indent(old(self)@.indent_count, chars@),
                ..old(self)@
            }),
    {
        let (glyphs, spaces) = measure(chars);
        if glyphs == 2 && self.indent_count == 0 {
            self.indent_count = leading_space_count(chars);
        }
        if chars.len() > 0 && chars[0] == ' ' {
            glyphs + spaces % 4
        } else {
            glyphs
        }
    }

    /// The name that `line` gives its entry.
    pub fn clean_line(&self, line: &str) -> (name: String)
        ensures
            name@ == clean_name(line@),
    {
        let chars = chars_of(line);
        let (start, end) = name_bounds(&chars);
        String::from_str(line.substring_char(start, end))
    }

    /// Records an entry called `clean_line` at `depth`: cuts the chain down to `depth`
    /// names where the depth does not exceed the last one, then adds the name.
    pub fn update_current_path(&mut self, depth: usize, clean_line: String)
        ensures
            final(self)@ == after_entry(old(self)@, depth as nat, clean_line@),
            final(self)@.current_path.len() >= 1,
            final(self)@.current_path.last() == clean_line@,
            well_nested(old(self)@) ==> well_nested(final(self)@),
            well_nested(old(self)@) && depth <= old(self)@.current_path.len()
                ==> final(self)@.current_path.len() == depth + 1,
    {
        let ghost before = self.current_path@;
        if depth <= self.last_depth {
            while self.current_path.len() > depth
                invariant
                    self.current_path@.len() <= before.len(),
                    self.current_path@.len() >= depth || self.current_path@.len() == before.len(),
                    self.current_path@ == before.take(self.current_path@.len() as int),
                    self.output_dir == old(self).output_dir,
                    self.last_depth == old(self).last_depth,
                    self.indent_count == old(self).indent_count,
                decreases self.current_path.len(),
            {
                self.current_path.pop();
            }
        }
        assert(names_of(self.current_path@) =~= if depth <= self.last_depth && depth
            < before.len() {
            names_of(before).take(depth as int)
        } else {
            names_of(before)
        });
        let ghost cut = self.current_path@;
        self.current_path.push(clean_line);
        self.last_depth = depth;
        assert(names_of(self.current_path@) =~= names_of(cut).push(clean_line@));
    }

    /// The base under which the entries are placed.
    pub fn output_dir(&self) -> (dir: &str)
        ensures
            dir@ == self@.output_dir,
    {
        self.output_dir.as_str()
    }

    /// The names of the open entries, outermost first.
    pub fn current_path(&self) -> (path: &Vec<String>)
        ensures
            names_of(path@) == self@.current_path,
    {
        &self.current_path
    }

    /// The depth of the line processed last.
    pub fn last_depth(&self) -> (depth: usize)
        ensures
            depth == self@.last_depth,
    {
        self.last_depth
    }

    /// The indentation unit learned so far; zero while none is known.
    pub fn indent_count(&self) -> (unit: usize)
        ensures
            unit == self@.indent_count,
    {
        self.indent_count
    }
}

} // verus!
