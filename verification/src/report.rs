//! The table in which the estimates are shown.
//!
//! Each row has a label of 30 columns and two quantities of 10 columns each,
//! all right-aligned. Quantities are written with binary prefixes, as
//! `bytesize` renders them.

use crate::snapshot::MemorySnapshot;
use vstd::prelude::*;

verus! {

/// Width of the label column.
pub const LABEL_WIDTH: usize = 30;

/// Width of each of the two quantity columns.
pub const QUANTITY_WIDTH: usize = 10;

/// The text that `bytesize` shows for a number of bytes, such as `1.0 MiB`.
pub uninterp spec fn byte_size_text(bytes: u64) -> Seq<char>;

/// Renders `bytes` with the `Display` impl of `bytesize::ByteSize`, made by
/// `ByteSize::b`, without width or precision. That text depends on `bytes`
/// alone; it is called `byte_size_text(bytes)` here and not described further.
#[verifier::external_body]
fn human_readable(bytes: u64) -> (text: String)
    ensures
        text@ == byte_size_text(bytes),
{
    bytesize::ByteSize::b(bytes).to_string()
}

/// `count` copies of `fill`.
pub open spec fn repeated(fill: char, count: nat) -> Seq<char> {
    Seq::new(count, |i: int| fill)
}

/// `text`, with as many `fill` in front as it takes to reach `width`
/// characters. A text of `width` characters or more is left as it is.
pub open spec fn padded(text: Seq<char>, width: nat, fill: char) -> Seq<char> {
    if text.len() >= width {
        text
    } else {
        repeated(fill, (width - text.len()) as nat) + text
    }
}

/// `text` right-aligned in a column of `width` characters.
pub open spec fn right_aligned(text: Seq<char>, width: nat) -> Seq<char> {
    padded(text, width, ' ')
}

/// A row of the table: two spaces, the label, `gap`, and the two quantities
/// with a space between them.
pub open spec fn row_text(
    label: Seq<char>,
    gap: Seq<char>,
    virtual_text: Seq<char>,
    physical_text: Seq<char>,
) -> Seq<char> {
    seq![' ', ' '] + label + gap + virtual_text + seq![' '] + physical_text
}

/// The row that shows a label and two quantities already rendered as text.
pub open spec fn usage_row(label: Seq<char>, virtual_text: Seq<char>, physical_text: Seq<char>)
    -> Seq<char> {
    row_text(
        right_aligned(label, LABEL_WIDTH as nat),
        seq![' ', ':', ' '],
        right_aligned(virtual_text, QUANTITY_WIDTH as nat),
        right_aligned(physical_text, QUANTITY_WIDTH as nat),
    )
}

/// The row of column titles.
pub open spec fn header_text() -> Seq<char> {
    row_text(
        repeated(' ', LABEL_WIDTH as nat),
        seq![' ', ' ', ' '],
        right_aligned(seq!['V', 'I', 'R', 'T', 'U', 'A', 'L'], QUANTITY_WIDTH as nat),
        right_aligned(seq!['P', 'H', 'Y', 'S', 'I', 'C', 'A', 'L'], QUANTITY_WIDTH as nat),
    )
}

/// The row of dashes under the column titles.
pub open spec fn rule_text() -> Seq<char> {
    row_text(
        repeated('-', LABEL_WIDTH as nat),
        seq![' ', ' ', ' '],
        repeated('-', QUANTITY_WIDTH as nat),
        repeated('-', QUANTITY_WIDTH as nat),
    )
}

/// Appends `count` copies of the one-character text `fill` to `out`.
fn append_repeated(out: &mut String, fill: &str, count: usize)
    requires
        fill@.len() == 1,
    ensures
        final(out)@ == old(out)@ + repeated(fill@[0], count as nat),
{
    let mut done: usize = 0;
    while done < count
        invariant
            done <= count,
            fill@.len() == 1,
            out@ == old(out)@ + repeated(fill@[0], done as nat),
        decreases count - done,
    {
        out.append(fill);
        done = done + 1;
        assert(out@ =~= old(out)@ + repeated(fill@[0], done as nat));
    }
}

/// Appends `text` to `out`, right-aligned in a column of `width` characters.
fn append_right_aligned(out: &mut String, text: &str, width: usize)
    ensures
        final(out)@ == old(out)@ + right_aligned(text@, width as nat),
{
    let length: usize = text.unicode_len();
    if length < width {
        proof {
            reveal_strlit(" ");
        }
        append_repeated(out, " ", width - length);
    }
    out.append(text);
    assert(out@ =~= old(out)@ + right_aligned(text@, width as nat));
}

/// The row for `label` with two quantities that are already text.
pub fn format_row(label: &str, virtual_text: &str, physical_text: &str) -> (row: String)
    ensures
        row@ == usage_row(label@, virtual_text@, physical_text@),
{
    proof {
        reveal_strlit("  ");
        reveal_strlit(" : ");
        reveal_strlit(" ");
    }
    let mut row = String::from_str("  ");
    append_right_aligned(&mut row, label, LABEL_WIDTH);
    row.append(" : ");
    append_right_aligned(&mut row, virtual_text, QUANTITY_WIDTH);
    row.append(" ");
    append_right_aligned(&mut row, physical_text, QUANTITY_WIDTH);
    assert(row@ =~= usage_row(label@, virtual_text@, physical_text@));
    row
}

/// The row that reports `usage_per_thread` under `name`: the virtual and the
/// physical quantity, each rendered with binary prefixes.
pub fn report_usage(name: &str, usage_per_thread: MemorySnapshot) -> (row: String)
    ensures
        row@ == usage_row(
            name@,
            byte_size_text(usage_per_thread.virtual_bytes as u64),
            byte_size_text(usage_per_thread.physical_bytes as u64),
        ),
{
    let virtual_text = human_readable(usage_per_thread.virtual_bytes as u64);
    let physical_text = human_readable(usage_per_thread.physical_bytes as u64);
    format_row(name, virtual_text.as_str(), physical_text.as_str())
}

/// The row of column titles.
pub fn header_row() -> (row: String)
    ensures
        row@ == header_text(),
{
    proof {
        reveal_strlit("  ");
        reveal_strlit("   ");
        reveal_strlit(" ");
        reveal_strlit("");
        reveal_strlit("VIRTUAL");
        reveal_strlit("PHYSICAL");
    }
    let mut row = String::from_str("  ");
    append_right_aligned(&mut row, "", LABEL_WIDTH);
    row.append("   ");
    append_right_aligned(&mut row, "VIRTUAL", QUANTITY_WIDTH);
    row.append(" ");
    append_right_aligned(&mut row, "PHYSICAL", QUANTITY_WIDTH);
    assert("VIRTUAL"@ =~= seq!['V', 'I', 'R', 'T', 'U', 'A', 'L']);
    assert("PHYSICAL"@ =~= seq!['P', 'H', 'Y', 'S', 'I', 'C', 'A', 'L']);
    assert(right_aligned(""@, LABEL_WIDTH as nat) =~= repeated(' ', LABEL_WIDTH as nat));
    assert(row@ =~= header_text());
    row
}

/// The row of dashes under the column titles.
pub fn rule_row() -> (row: String)
    ensures
        row@ == rule_text(),
{
    proof {
        reveal_strlit("  ");
        reveal_strlit("   ");
        reveal_strlit(" ");
        reveal_strlit("-");
    }
    let mut row = String::from_str("  ");
    append_repeated(&mut row, "-", LABEL_WIDTH);
    row.append("   ");
    append_repeated(&mut row, "-", QUANTITY_WIDTH);
    row.append(" ");
    append_repeated(&mut row, "-", QUANTITY_WIDTH);
    assert(row@ =~= rule_text());
    row
}

/// A right-aligned text fills its column: it is as long as the column, or as
/// long as the text where that is longer; it ends with the text; and all
/// that stands before the text is spaces.
pub proof fn lemma_right_aligned(text: Seq<char>, width: nat)
    ensures
        right_aligned(text, width).len() == if text.len() >= width {
            text.len()
        } else {
            width
        },
        right_aligned(text, width).subrange(
            right_aligned(text, width).len() - text.len(),
            right_aligned(text, width).len() as int,
        ) == text,
        forall|i: int|
            0 <= i < right_aligned(text, width).len() - text.len() ==> right_aligned(
                text,
                width,
            )[i] == ' ',
{
    let aligned = right_aligned(text, width);
    assert(aligned.subrange(aligned.len() - text.len(), aligned.len() as int) =~= text);
}

/// A row whose label and quantities fit their columns is 56 characters long,
/// and its three fields end at columns 32, 45 and 56.
pub proof fn lemma_usage_row_layout(
    label: Seq<char>,
    virtual_text: Seq<char>,
    physical_text: Seq<char>,
)
    requires
        label.len() <= LABEL_WIDTH,
        virtual_text.len() <= QUANTITY_WIDTH,
        physical_text.len() <= QUANTITY_WIDTH,
    ensures
        usage_row(label, virtual_text, physical_text).len() == 56,
        usage_row(label, virtual_text, physical_text).subrange(32 - label.len(), 32) == label,
        usage_row(label, virtual_text, physical_text).subrange(45 - virtual_text.len(), 45)
            == virtual_text,
        usage_row(label, virtual_text, physical_text).subrange(56 - physical_text.len(), 56)
            == physical_text,
{
    let row = usage_row(label, virtual_text, physical_text);
    lemma_right_aligned(label, LABEL_WIDTH as nat);
    lemma_right_aligned(virtual_text, QUANTITY_WIDTH as nat);
    lemma_right_aligned(physical_text, QUANTITY_WIDTH as nat);
    assert(row.len() == 56);
    assert(row.subrange(32 - label.len(), 32) =~= label);
    assert(row.subrange(45 - virtual_text.len(), 45) =~= virtual_text);
    assert(row.subrange(56 - physical_text.len(), 56) =~= physical_text);
}

} // verus!
