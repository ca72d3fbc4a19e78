//! What holds of the chain of open entries over several lines.

use vstd::prelude::*;
use crate::line::{clean_name, glyph_count, is_blank, line_depth, starts_with_space};
use crate::plan::{notice_text, planned};
use crate::processor::{
    after_entry,
    after_line,
    after_lines,
    initial_state,
    join_names,
    learned_indent,
    well_nested,
    ProcessorState,
};
use crate::glyphs::SEPARATOR;

verus! {

/// A blank line leaves the state as it was.
pub proof fn lemma_blank_line_keeps_state(state: ProcessorState, line: Seq<char>)
    requires
        is_blank(line),
    ensures
        after_line(state, line) == state,
{
}

/// No line changes the base under which the entries are placed.
pub proof fn lemma_output_dir_fixed(state: ProcessorState, line: Seq<char>)
    ensures
        after_line(state, line).output_dir == state.output_dir,
{
}

/// Every line keeps a well nested chain well nested, and every line that is not blank
/// leaves its own name at the end of the chain.
pub proof fn lemma_line_keeps_nesting(state: ProcessorState, line: Seq<char>)
    requires
        well_nested(state),
    ensures
        well_nested(after_line(state, line)),
        !is_blank(line) ==> after_line(state, line).current_path.len() >= 1 && after_line(
            state,
            line,
        ).current_path.last() == clean_name(line),
{
}

/// After an entry whose depth does not exceed the length of a well nested chain, the
/// chain holds the first `depth` names as they were, then the entry's name: its length
/// is the depth and one. A deeper entry only adds one name.
pub proof fn lemma_entry_at_depth(state: ProcessorState, depth: nat, name: Seq<char>)
    requires
        well_nested(state),
    ensures
        depth <= state.current_path.len() ==> after_entry(state, depth, name).current_path
            == state.current_path.take(depth as int).push(name),
        depth <= state.current_path.len() ==> after_entry(state, depth, name).current_path.len()
            == after_entry(state, depth, name).last_depth + 1,
        depth > state.current_path.len() ==> after_entry(state, depth, name).current_path
            == state.current_path.push(name),
{
    if depth <= state.current_path.len() {
        if depth == state.current_path.len() {
            assert(state.current_path.take(depth as int) =~= state.current_path);
        }
    }
}

/// After a line whose depth does not exceed the length of a well nested chain, the
/// chain is one longer than that depth.
pub proof fn lemma_length_follows_depth(state: ProcessorState, line: Seq<char>)
    requires
        well_nested(state),
        !is_blank(line),
        line_depth(line) <= state.current_path.len(),
    ensures
        after_line(state, line).current_path.len() == after_line(state, line).last_depth + 1,
        after_line(state, line).current_path == state.current_path.take(
            line_depth(line) as int,
        ).push(clean_name(line)),
{
    let learned = ProcessorState {
        indent_count: learned_indent(state.indent_count, line),
        ..state
    };
    lemma_entry_at_depth(learned, line_depth(line), clean_name(line));
}

/// Whatever lines a processor has seen since it was made, its chain is well nested and
/// its base is the one it was made with.
pub proof fn lemma_every_state_well_nested(output_dir: Seq<char>, lines: Seq<Seq<char>>)
    ensures
        well_nested(after_lines(initial_state(output_dir), lines)),
        after_lines(initial_state(output_dir), lines).output_dir == output_dir,
    decreases lines.len(),
{
    if lines.len() > 0 {
        lemma_every_state_well_nested(output_dir, lines.drop_last());
        lemma_line_keeps_nesting(
            after_lines(initial_state(output_dir), lines.drop_last()),
            lines.last(),
        );
    }
}

/// The first line that is not blank opens the chain with its name alone, whatever its
/// depth. A line without a structural glyph that does not open with a space has the
/// depth zero.
pub proof fn lemma_first_entry(output_dir: Seq<char>, line: Seq<char>)
    requires
        !is_blank(line),
    ensures
        after_line(initial_state(output_dir), line).current_path == seq![clean_name(line)],
        after_line(initial_state(output_dir), line).last_depth == line_depth(line),
        glyph_count(line) == 0 && !starts_with_space(line) ==> line_depth(line) == 0,
        join_names(after_line(initial_state(output_dir), line).current_path) == clean_name(line),
{
    let path = after_line(initial_state(output_dir), line).current_path;
    assert(path =~= seq![clean_name(line)]);
}

/// Three lines at the depths zero, one and two leave a chain of their three names, and
/// the path of the last is the three names joined.
pub proof fn lemma_nesting_grows(
    output_dir: Seq<char>,
    first: Seq<char>,
    second: Seq<char>,
    third: Seq<char>,
)
    requires
        !is_blank(first) && line_depth(first) == 0,
        !is_blank(second) && line_depth(second) == 1,
        !is_blank(third) && line_depth(third) == 2,
    ensures
        ({
            let end = after_line(
                after_line(after_line(initial_state(output_dir), first), second),
                third,
            );
            &&& end.current_path == seq![clean_name(first), clean_name(second), clean_name(third)]
            &&& join_names(end.current_path) == clean_name(first) + seq![SEPARATOR] + clean_name(
                second,
            ) + seq![SEPARATOR] + clean_name(third)
        }),
{
    let one = after_line(initial_state(output_dir), first);
    let two = after_line(one, second);
    let end = after_line(two, third);
    assert(one.current_path =~= seq![clean_name(first)]);
    assert(two.current_path =~= seq![clean_name(first), clean_name(second)]);
    assert(end.current_path =~= seq![clean_name(first), clean_name(second), clean_name(third)]);
    assert(end.current_path.drop_last() =~= two.current_path);
    assert(two.current_path.drop_last() =~= one.current_path);
    reveal_with_fuel(join_names, 4);
}

/// Four lines at the depths zero, one, two and one leave a chain of two names: the
/// first line's, and the fourth line's in place of the second's.
pub proof fn lemma_dedent_replaces(
    output_dir: Seq<char>,
    first: Seq<char>,
    second: Seq<char>,
    third: Seq<char>,
    fourth: Seq<char>,
)
    requires
        !is_blank(first) && line_depth(first) == 0,
        !is_blank(second) && line_depth(second) == 1,
        !is_blank(third) && line_depth(third) == 2,
        !is_blank(fourth) && line_depth(fourth) == 1,
    ensures
        after_line(
            after_line(after_line(after_line(initial_state(output_dir), first), second), third),
            fourth,
        ).current_path == seq![clean_name(first), clean_name(fourth)],
{
    lemma_nesting_grows(output_dir, first, second, third);
    let three = after_line(
        after_line(after_line(initial_state(output_dir), first), second),
        third,
    );
    let end = after_line(three, fourth);
    assert(three.current_path.take(1) =~= seq![clean_name(first)]);
    assert(end.current_path =~= seq![clean_name(first), clean_name(fourth)]);
}

/// An entry whose path exists takes no step and is not reported, whether it is a
/// directory or a file: a second pass over what a first pass has created does nothing.
pub proof fn lemma_existing_entry_untouched(is_directory: bool, path: Seq<char>)
    ensures
        planned(true, is_directory).len() == 0,
        notice_text(true, is_directory, path) is None,
{
}

} // verus!
