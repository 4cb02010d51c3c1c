//! Plain-text tables: columns padded to a common width, an optional title
//! row with a rule under it.

use crate::text::texts;
use vstd::prelude::*;
use vstd::string::{StrSliceExecFns, StringExecFns};

verus! {

/// The side of its column that a text is put to.
#[derive(Clone, Copy, Debug, PartialEq, Eq, Structural)]
pub enum Alignment {
    Left,
    Right,
}

/// What is drawn after a column.
#[derive(Clone, Copy, Debug, PartialEq, Eq, Structural)]
pub enum BorderType {
    NoBorder,
    Colon,
    Pipe,
}

/// How one column is drawn.
#[derive(Clone, Copy, Debug, PartialEq, Eq, Structural)]
pub struct ColumnProperties {
    pub text_alignment: Alignment,
    pub next_border_type: BorderType,
}

impl ColumnProperties {
    pub fn new() -> (p: ColumnProperties)
        ensures
            p.text_alignment == Alignment::Left,
            p.next_border_type == BorderType::NoBorder,
    {
        ColumnProperties { text_alignment: Alignment::Left, next_border_type: BorderType::NoBorder }
    }

    pub fn new_with_alignment(alignment: Alignment) -> (p: ColumnProperties)
        ensures
            p.text_alignment == alignment,
            p.next_border_type == BorderType::NoBorder,
    {
        ColumnProperties { text_alignment: alignment, next_border_type: BorderType::NoBorder }
    }
}

/// A table, held column by column.
#[derive(Clone)]
pub struct CLITablePrinter {
    pub num_columns: usize,
    pub data_columns: Vec<Vec<String>>,
    pub draw_titles: bool,
    pub column_titles: Vec<String>,
    pub draw_borders: bool,
    pub column_properties: Vec<ColumnProperties>,
}

/// `n` blanks.
pub open spec fn padding(n: nat) -> Seq<char>
    decreases n,
{
    if n == 0 {
        Seq::empty()
    } else {
        padding((n - 1) as nat) + " "@
    }
}

/// `n` dashes.
pub open spec fn dashes(n: nat) -> Seq<char>
    decreases n,
{
    if n == 0 {
        Seq::empty()
    } else {
        dashes((n - 1) as nat) + "-"@
    }
}

/// `text` padded with blanks to `width` characters, on the right of the text
/// for a left-aligned column and on its left for a right-aligned one.
pub open spec fn cell(text: Seq<char>, width: nat, alignment: Alignment) -> Seq<char> {
    if alignment == Alignment::Left {
        text + padding((width - text.len()) as nat)
    } else {
        padding((width - text.len()) as nat) + text
    }
}

/// The longest of the first `upto` texts of a column, in characters.
pub open spec fn max_len_upto(column: Seq<String>, upto: int) -> nat
    decreases upto,
{
    if upto <= 0 {
        0
    } else {
        let m = max_len_upto(column, upto - 1);
        let l = column[upto - 1]@.len();
        if l > m {
            l
        } else {
            m
        }
    }
}

/// No text among the first `upto` of a column is longer than their maximum.
pub proof fn lemma_max_len_bounds(column: Seq<String>, upto: int, k: int)
    requires
        0 <= k < upto <= column.len(),
    ensures
        column[k]@.len() <= max_len_upto(column, upto),
    decreases upto,
{
    if k < upto - 1 {
        lemma_max_len_bounds(column, upto - 1, k);
    }
}

fn pad_into(out: &mut String, n: usize)
    ensures
        final(out)@ == old(out)@ + padding(n as nat),
{
    let mut i: usize = 0;
    assert(out@ =~= old(out)@ + padding(0));
    while i < n
        invariant
            i <= n,
            out@ == old(out)@ + padding(i as nat),
        decreases n - i,
    {
        out.append(" ");
        assert(out@ =~= old(out)@ + padding((i + 1) as nat));
        i += 1;
    }
}

fn dash_into(out: &mut String, n: usize)
    ensures
        final(out)@ == old(out)@ + dashes(n as nat),
{
    let mut i: usize = 0;
    assert(out@ =~= old(out)@ + dashes(0));
    while i < n
        invariant
            i <= n,
            out@ == old(out)@ + dashes(i as nat),
        decreases n - i,
    {
        out.append("-");
        assert(out@ =~= old(out)@ + dashes((i + 1) as nat));
        i += 1;
    }
}

fn cell_into(out: &mut String, text: &str, width: usize, alignment: Alignment)
    requires
        text@.len() <= width,
    ensures
        final(out)@ == old(out)@ + cell(text@, width as nat, alignment),
{
    let item_length = text.unicode_len();
    let padding_required = width - item_length;
    if alignment == Alignment::Left {
        out.append(text);
        pad_into(out, padding_required);
    } else {
        pad_into(out, padding_required);
        out.append(text);
    }
    assert(out@ =~= old(out)@ + cell(text@, width as nat, alignment));
}

/// Whether `c` is among the first `upto` of `columns`.
pub open spec fn is_listed(columns: Seq<usize>, upto: int, c: int) -> bool
    decreases upto,
{
    0 < upto <= columns.len() && (columns[upto - 1] == c || is_listed(columns, upto - 1, c))
}

impl CLITablePrinter {
    /// There are as many columns and column properties as `num_columns`
    /// says, and all columns have the same number of rows.
    pub open spec fn wf(&self) -> bool {
        &&& self.data_columns@.len() == self.num_columns
        &&& self.column_properties@.len() == self.num_columns
        &&& forall|c: int|
            0 <= c < self.data_columns@.len() ==> (#[trigger] self.data_columns@[c])@.len()
                == self.row_count()
    }

    /// The number of rows.
    pub open spec fn row_count(&self) -> nat {
        if self.data_columns@.len() == 0 {
            0
        } else {
            self.data_columns@[0]@.len()
        }
    }

    /// Whether the table can be laid out: it has a column and a row, and a
    /// title for every column where titles are drawn.
    pub open spec fn is_printable(&self) -> bool {
        &&& self.wf()
        &&& self.num_columns > 0
        &&& self.row_count() > 0
        &&& self.draw_titles ==> self.column_titles@.len() == self.num_columns
    }

    /// The width of column `c`: that of its longest text, the title included
    /// where titles are drawn.
    pub open spec fn column_width(&self, c: int) -> nat {
        let m = max_len_upto(self.data_columns@[c]@, self.data_columns@[c]@.len() as int);
        if self.draw_titles && self.column_titles@[c]@.len() > m {
            self.column_titles@[c]@.len()
        } else {
            m
        }
    }

    /// Two blanks after every column but the last.
    pub open spec fn separator_after(&self, c: int) -> Seq<char> {
        if c != self.num_columns - 1 {
            "  "@
        } else {
            Seq::empty()
        }
    }

    /// The first `upto` cells of row `r`, with their separators.
    pub open spec fn row_upto(&self, r: int, upto: int) -> Seq<char>
        decreases upto,
    {
        if upto <= 0 {
            Seq::empty()
        } else {
            self.row_upto(r, upto - 1) + cell(
                self.data_columns@[upto - 1]@[r]@,
                self.column_width(upto - 1),
                self.column_properties@[upto - 1].text_alignment,
            ) + self.separator_after(upto - 1)
        }
    }

    /// The first `upto` cells of the title row, with their separators.
    pub open spec fn titles_upto(&self, upto: int) -> Seq<char>
        decreases upto,
    {
        if upto <= 0 {
            Seq::empty()
        } else {
            self.titles_upto(upto - 1) + cell(
                self.column_titles@[upto - 1]@,
                self.column_width(upto - 1),
                self.column_properties@[upto - 1].text_alignment,
            ) + self.separator_after(upto - 1)
        }
    }

    /// The rule under the first `upto` titles: a dash under every character
    /// of the title row.
    pub open spec fn rule_upto(&self, upto: int) -> Seq<char>
        decreases upto,
    {
        if upto <= 0 {
            Seq::empty()
        } else {
            self.rule_upto(upto - 1) + dashes(self.column_width(upto - 1)) + (if upto - 1
                != self.num_columns - 1 {
                dashes(2)
            } else {
                Seq::empty()
            })
        }
    }

    /// The first `upto` rows, each ended by a line feed.
    pub open spec fn rows_upto(&self, upto: int) -> Seq<char>
        decreases upto,
    {
        if upto <= 0 {
            Seq::empty()
        } else {
            self.rows_upto(upto - 1) + self.row_upto(upto - 1, self.num_columns as int) + "\n"@
        }
    }

    /// The title row and the rule under it, where titles are drawn.
    pub open spec fn heading(&self) -> Seq<char> {
        if self.draw_titles {
            self.titles_upto(self.num_columns as int) + "\n"@ + self.rule_upto(
                self.num_columns as int,
            ) + "\n"@
        } else {
            Seq::empty()
        }
    }

    /// The whole table as text.
    pub open spec fn layout(&self) -> Seq<char> {
        self.heading() + self.rows_upto(self.row_count() as int)
    }

    /// A table of `num_columns` left-aligned columns, without rows or titles.
    pub fn new(num_columns: usize) -> (t: CLITablePrinter)
        ensures
            t.wf(),
            t.num_columns == num_columns,
            t.row_count() == 0,
            !t.draw_titles,
            !t.draw_borders,
            t.column_titles@.len() == 0,
            forall|c: int|
                0 <= c < num_columns ==> (#[trigger] t.column_properties@[c]).text_alignment
                    == Alignment::Left && t.data_columns@[c]@.len() == 0,
    {
        let mut data_columns: Vec<Vec<String>> = Vec::new();
        let mut column_properties: Vec<ColumnProperties> = Vec::new();
        let mut c: usize = 0;
        while c < num_columns
            invariant
                c <= num_columns,
                data_columns@.len() == c,
                column_properties@.len() == c,
                forall|k: int| 0 <= k < c ==> (#[trigger] data_columns@[k])@.len() == 0,
                forall|k: int|
                    0 <= k < c ==> (#[trigger] column_properties@[k]).text_alignment
                        == Alignment::Left,
            decreases num_columns - c,
        {
            data_columns.push(Vec::new());
            column_properties.push(ColumnProperties::new());
            c += 1;
        }
        CLITablePrinter {
            num_columns,
            data_columns,
            draw_titles: false,
            column_titles: Vec::new(),
            draw_borders: false,
            column_properties,
        }
    }

    /// Sets the alignment of the columns listed.
    pub fn set_alignment_multiple(&mut self, columns: &[usize], alignment: Alignment)
        requires
            forall|k: int|
                0 <= k < columns@.len() ==> (#[trigger] columns@[k]) < old(self).column_properties@.len(),
        ensures
            final(self).num_columns == old(self).num_columns,
            final(self).data_columns == old(self).data_columns,
            final(self).draw_titles == old(self).draw_titles,
            final(self).column_titles == old(self).column_titles,
            final(self).draw_borders == old(self).draw_borders,
            final(self).column_properties@.len() == old(self).column_properties@.len(),
            forall|c: int|
                0 <= c < old(self).column_properties@.len() ==> (
                #[trigger] final(self).column_properties@[c]) == (if is_listed(
                    columns@,
                    columns@.len() as int,
                    c,
                ) {
                    ColumnProperties {
                        text_alignment: alignment,
                        next_border_type: old(self).column_properties@[c].next_border_type,
                    }
                } else {
                    old(self).column_properties@[c]
                }),
    {
        let mut k: usize = 0;
        while k < columns.len()
            invariant
                k <= columns@.len(),
                self.num_columns == old(self).num_columns,
                self.data_columns == old(self).data_columns,
                self.draw_titles == old(self).draw_titles,
                self.column_titles == old(self).column_titles,
                self.draw_borders == old(self).draw_borders,
                self.column_properties@.len() == old(self).column_properties@.len(),
                forall|j: int|
                    0 <= j < columns@.len() ==> (#[trigger] columns@[j])
                        < self.column_properties@.len(),
                forall|c: int|
                    0 <= c < old(self).column_properties@.len() ==> (
                    #[trigger] self.column_properties@[c]) == (if is_listed(columns@, k as int, c) {
                        ColumnProperties {
                            text_alignment: alignment,
                            next_border_type: old(self).column_properties@[c].next_border_type,
                        }
                    } else {
                        old(self).column_properties@[c]
                    }),
            decreases columns@.len() - k,
        {
            let col = columns[k];
            let ghost before = self.column_properties@;
            let border = self.column_properties[col].next_border_type;
            self.column_properties[col] = ColumnProperties {
                text_alignment: alignment,
                next_border_type: border,
            };
            proof {
                assert forall|c: int| 0 <= c < old(self).column_properties@.len() implies (
                #[trigger] self.column_properties@[c]) == (if is_listed(columns@, k + 1, c) {
                    ColumnProperties {
                        text_alignment: alignment,
                        next_border_type: old(self).column_properties@[c].next_border_type,
                    }
                } else {
                    old(self).column_properties@[c]
                }) by {
                    if c != col {
                        assert(self.column_properties@[c] == before[c]);
                    } else {
                        assert(before[c].next_border_type == old(self).column_properties@[c].next_border_type);
                    }
                }
            }
            k += 1;
        }
    }

    /// Switches the title row on and adds `titles` to the titles there are.
    pub fn add_titles(&mut self, titles: &Vec<String>)
        ensures
            final(self).draw_titles,
            final(self).num_columns == old(self).num_columns,
            final(self).data_columns == old(self).data_columns,
            final(self).draw_borders == old(self).draw_borders,
            final(self).column_properties == old(self).column_properties,
            texts(final(self).column_titles@) == texts(old(self).column_titles@) + texts(titles@),
    {
        self.draw_titles = true;
        let ghost start = texts(old(self).column_titles@);
        let mut i: usize = 0;
        assert(texts(self.column_titles@) =~= start + texts(titles@).take(0));
        while i < titles.len()
            invariant
                i <= titles@.len(),
                start == texts(old(self).column_titles@),
                self.draw_titles,
                self.num_columns == old(self).num_columns,
                self.data_columns == old(self).data_columns,
                self.draw_borders == old(self).draw_borders,
                self.column_properties == old(self).column_properties,
                texts(self.column_titles@) == start + texts(titles@).take(i as int),
            decreases titles@.len() - i,
        {
            let ghost before = self.column_titles@;
            self.column_titles.push(titles[i].clone());
            proof {
                assert(texts(self.column_titles@) =~= texts(before).push(titles@[i as int]@));
                assert(texts(titles@).take(i + 1) =~= texts(titles@).take(i as int).push(
                    titles@[i as int]@,
                ));
                assert(texts(self.column_titles@) =~= start + texts(titles@).take(i + 1));
            }
            i += 1;
        }
        proof {
            assert(texts(titles@).take(i as int) == texts(titles@));
        }
    }

    /// Adds an empty column with its title and alignment.
    pub fn add_column_def(&mut self, title: &str, alignment: Alignment)
        requires
            old(self).num_columns < usize::MAX,
        ensures
            final(self).num_columns == old(self).num_columns + 1,
            final(self).draw_titles == old(self).draw_titles,
            final(self).draw_borders == old(self).draw_borders,
            final(self).column_titles@.len() == old(self).column_titles@.len() + 1,
            final(self).column_titles@.last()@ == title@,
            final(self).column_titles@.drop_last() == old(self).column_titles@,
            final(self).column_properties@.drop_last() == old(self).column_properties@,
            final(self).column_properties@.last() == (ColumnProperties {
                text_alignment: alignment,
                next_border_type: BorderType::NoBorder,
            }),
            final(self).data_columns@.drop_last() == old(self).data_columns@,
            final(self).data_columns@.last()@.len() == 0,
            old(self).wf() && old(self).row_count() == 0 ==> final(self).wf(),
    {
        self.column_titles.push(title.to_owned());
        self.column_properties.push(ColumnProperties::new_with_alignment(alignment));
        self.data_columns.push(Vec::new());
        self.num_columns += 1;
        proof {
            assert(self.column_titles@.drop_last() == old(self).column_titles@);
            assert(self.column_properties@.drop_last() == old(self).column_properties@);
            assert(self.data_columns@.drop_last() == old(self).data_columns@);
            if old(self).wf() && old(self).row_count() == 0 {
                assert forall|c: int| 0 <= c < self.data_columns@.len() implies (
                #[trigger] self.data_columns@[c])@.len() == self.row_count() by {
                    if c < old(self).data_columns@.len() {
                        assert(self.data_columns@[c] == old(self).data_columns@[c]);
                    }
                    if old(self).data_columns@.len() > 0 {
                        assert(self.data_columns@[0] == old(self).data_columns@[0]);
                    }
                }
            }
        }
    }

    /// Adds a row: one text for every column.
    pub fn add_row_strings(&mut self, vals: &[&str])
        requires
            old(self).wf(),
            vals@.len() == old(self).num_columns,
        ensures
            final(self).wf(),
            final(self).num_columns == old(self).num_columns,
            final(self).draw_titles == old(self).draw_titles,
            final(self).draw_borders == old(self).draw_borders,
            final(self).column_titles == old(self).column_titles,
            final(self).column_properties == old(self).column_properties,
            old(self).num_columns > 0 ==> final(self).row_count() == old(self).row_count() + 1,
            forall|c: int|
                0 <= c < old(self).num_columns ==> (#[trigger] final(self).data_columns@[c])@.len()
                    == old(self).row_count() + 1 && final(self).data_columns@[c]@.drop_last() == old(self).data_columns@[c]@ && final(self).data_columns@[c]@.last()@ == vals@[c]@,
    {
        let ghost rows = self.row_count();
        let mut count: usize = 0;
        while count < vals.len()
            invariant
                count <= vals@.len(),
                vals@.len() == old(self).num_columns,
                rows == old(self).row_count(),
                old(self).wf(),
                self.num_columns == old(self).num_columns,
                self.draw_titles == old(self).draw_titles,
                self.draw_borders == old(self).draw_borders,
                self.column_titles == old(self).column_titles,
                self.column_properties == old(self).column_properties,
                self.data_columns@.len() == old(self).data_columns@.len(),
                forall|c: int|
                    0 <= c < count ==> (#[trigger] self.data_columns@[c])@.len() == rows + 1
                        && self.data_columns@[c]@.drop_last() == old(self).data_columns@[c]@
                        && self.data_columns@[c]@.last()@ == vals@[c]@,
                forall|c: int|
                    count <= c < self.data_columns@.len() ==> #[trigger] self.data_columns@[c]
                        == old(self).data_columns@[c],
            decreases vals@.len() - count,
        {
            assert(old(self).data_columns@[count as int]@.len() == rows);
            let ghost before = self.data_columns@;
            self.data_columns[count].push(vals[count].to_owned());
            proof {
                assert(self.data_columns@[count as int]@.drop_last() == old(self).data_columns@[count as int]@);
                assert forall|c: int| 0 <= c < count implies (
                #[trigger] self.data_columns@[c])@.len() == rows + 1
                    && self.data_columns@[c]@.drop_last() == old(self).data_columns@[c]@
                    && self.data_columns@[c]@.last()@ == vals@[c]@ by {
                    assert(self.data_columns@[c] == before[c]);
                }
                assert forall|c: int| count + 1 <= c < self.data_columns@.len() implies (
                #[trigger] self.data_columns@[c]) == old(self).data_columns@[c] by {
                    assert(self.data_columns@[c] == before[c]);
                }
            }
            count += 1;
        }
    }

    /// Whether the table can be laid out.
    pub fn check_printable(&self) -> (r: bool)
        ensures
            r == self.is_printable(),
    {
        if self.num_columns == 0 || self.data_columns.len() != self.num_columns
            || self.column_properties.len() != self.num_columns {
            return false;
        }
        let rows = self.data_columns[0].len();
        if rows == 0 {
            return false;
        }
        if self.draw_titles && self.column_titles.len() != self.num_columns {
            return false;
        }
        let mut c: usize = 0;
        while c < self.data_columns.len()
            invariant
                c <= self.data_columns@.len(),
                rows == self.row_count(),
                forall|k: int| 0 <= k < c ==> (#[trigger] self.data_columns@[k])@.len() == rows,
            decreases self.data_columns@.len() - c,
        {
            if self.data_columns[c].len() != rows {
                return false;
            }
            c += 1;
        }
        true
    }

    fn column_widths(&self) -> (widths: Vec<usize>)
        requires
            self.is_printable(),
        ensures
            widths@.len() == self.num_columns,
            forall|c: int|
                0 <= c < self.num_columns ==> (#[trigger] widths@[c]) == self.column_width(c),
    {
        let mut widths: Vec<usize> = Vec::new();
        let mut c: usize = 0;
        while c < self.data_columns.len()
            invariant
                self.is_printable(),
                c <= self.data_columns@.len(),
                widths@.len() == c,
                forall|k: int| 0 <= k < c ==> (#[trigger] widths@[k]) == self.column_width(k),
            decreases self.data_columns@.len() - c,
        {
            let column = &self.data_columns[c];
            let mut max: usize = 0;
            let mut r: usize = 0;
            while r < column.len()
                invariant
                    r <= column@.len(),
                    max == max_len_upto(column@, r as int),
                decreases column@.len() - r,
            {
                let l = column[r].as_str().unicode_len();
                if l > max {
                    max = l;
                }
                r += 1;
            }
            if self.draw_titles {
                let t = self.column_titles[c].as_str().unicode_len();
                if t > max {
                    max = t;
                }
            }
            widths.push(max);
            c += 1;
        }
        widths
    }

    /// The table as text: the title row and a rule under it where titles
    /// are drawn, then the rows.
    pub fn get_result(&self) -> (r: String)
        requires
            self.is_printable(),
        ensures
            r@ == self.layout(),
    {
        let widths = self.column_widths();
        let row_length = self.data_columns[0].len();
        let mut final_result = String::new();
        if self.draw_titles {
            let mut count: usize = 0;
            assert(final_result@ =~= self.titles_upto(0));
            while count < self.num_columns
                invariant
                    self.is_printable(),
                    self.draw_titles,
                    count <= self.num_columns,
                    widths@.len() == self.num_columns,
                    forall|c: int|
                        0 <= c < self.num_columns ==> (#[trigger] widths@[c]) == self.column_width(
                            c,
                        ),
                    final_result@ == self.titles_upto(count as int),
                decreases self.num_columns - count,
            {
                let ghost before = final_result@;
                cell_into(
                    &mut final_result,
                    self.column_titles[count].as_str(),
                    widths[count],
                    self.column_properties[count].text_alignment,
                );
                if count != self.num_columns - 1 {
                    final_result.append("  ");
                }
                assert(final_result@ =~= self.titles_upto(count + 1));
                count += 1;
            }
            final_result.append("\n");
            let ghost titled = final_result@;
            let mut col: usize = 0;
            assert(final_result@ =~= titled + self.rule_upto(0));
            while col < self.num_columns
                invariant
                    self.is_printable(),
                    col <= self.num_columns,
                    widths@.len() == self.num_columns,
                    forall|c: int|
                        0 <= c < self.num_columns ==> (#[trigger] widths@[c]) == self.column_width(
                            c,
                        ),
                    final_result@ == titled + self.rule_upto(col as int),
                decreases self.num_columns - col,
            {
                dash_into(&mut final_result, widths[col]);
                if col != self.num_columns - 1 {
                    dash_into(&mut final_result, 2);
                }
                assert(final_result@ =~= titled + self.rule_upto(col + 1));
                col += 1;
            }
            final_result.append("\n");
            assert(final_result@ =~= self.heading());
        }
        assert(final_result@ =~= self.heading() + self.rows_upto(0));
        let mut row: usize = 0;
        while row < row_length
            invariant
                self.is_printable(),
                row_length == self.row_count(),
                row <= row_length,
                widths@.len() == self.num_columns,
                forall|c: int|
                    0 <= c < self.num_columns ==> (#[trigger] widths@[c]) == self.column_width(c),
                final_result@ == self.heading() + self.rows_upto(row as int),
            decreases row_length - row,
        {
            let ghost base = final_result@;
            let mut col: usize = 0;
            assert(final_result@ =~= base + self.row_upto(row as int, 0));
            while col < self.num_columns
                invariant
                    self.is_printable(),
                    row_length == self.row_count(),
                    row < row_length,
                    col <= self.num_columns,
                    widths@.len() == self.num_columns,
                    forall|c: int|
                        0 <= c < self.num_columns ==> (#[trigger] widths@[c]) == self.column_width(
                            c,
                        ),
                    final_result@ == base + self.row_upto(row as int, col as int),
                decreases self.num_columns - col,
            {
                let column = &self.data_columns[col];
                assert(column@.len() == self.row_count());
                proof {
                    lemma_max_len_bounds(column@, column@.len() as int, row as int);
                }
                cell_into(
                    &mut final_result,
                    column[row].as_str(),
                    widths[col],
                    self.column_properties[col].text_alignment,
                );
                if col != self.num_columns - 1 {
                    final_result.append("  ");
                }
                assert(final_result@ =~= base + self.row_upto(row as int, col + 1));
                col += 1;
            }
            final_result.append("\n");
            assert(final_result@ =~= self.heading() + self.rows_upto(row + 1));
            row += 1;
        }
        final_result
    }
}

} // verus!
