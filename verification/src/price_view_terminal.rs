//! The price table of the terminal view: its columns and its rows.

use crate::cli_table_printer::{Alignment, BorderType, CLITablePrinter, ColumnProperties};
use crate::config::{Config, DisplayDataViewType};
use crate::price_provider::ConfigDetails;
use crate::text::{ascii_upper, texts, to_upper};
use vstd::prelude::*;
use vstd::string::StringExecFns;

verus! {

/// Low and high of the last day, as they are to be shown.
#[derive(Clone, Debug)]
pub struct WatermarkTexts {
    pub low: String,
    pub high: String,
}

/// One coin of a snapshot, every quantity as it is to be shown.
#[derive(Clone, Debug)]
pub struct CoinRowTexts {
    pub symbol: String,
    pub name: String,
    pub current_price: String,
    pub price_change_24h: String,
    pub percent_change_1h: Option<String>,
    pub percent_change_24h: String,
    pub watermarks_24h: Option<WatermarkTexts>,
}

/// The terminal view: what it shows and the table it shows it in.
pub struct PriceViewTerminal {
    pub fiat_currency: String,
    pub data_view_type: DisplayDataViewType,
    /// Seconds between two refreshes.
    pub update_period: u64,
    pub config_details: ConfigDetails,
    pub table_headings: Vec<String>,
    pub table_def: CLITablePrinter,
}

/// `items` followed by `item` where `wanted` holds.
pub open spec fn with_optional(items: Seq<Seq<char>>, wanted: bool, item: Seq<char>) -> Seq<
    Seq<char>,
> {
    if wanted {
        items.push(item)
    } else {
        items
    }
}

/// The three headings that every table has.
pub open spec fn base_headings(fiat_currency: Seq<char>) -> Seq<Seq<char>> {
    seq!["Sym"@, "Name"@, "Price ("@ + ascii_upper(fiat_currency) + ")"@]
}

/// The titles of the table: symbol, name and price, and in the medium view
/// the changes and watermarks that the feed can fill.
pub open spec fn table_titles(
    fiat_currency: Seq<char>,
    data_view_type: DisplayDataViewType,
    details: ConfigDetails,
) -> Seq<Seq<char>> {
    let base = base_headings(fiat_currency);
    if data_view_type == DisplayDataViewType::MediumData {
        let a = with_optional(base, details.have_price_change_24h, "chng 24h"@);
        let b = with_optional(a, details.have_percent_change_1h, "% chng 1h"@);
        let c = b.push("% chng 24h"@);
        let d = with_optional(c, details.have_watermarks_24h, "low 24h"@);
        with_optional(d, details.have_watermarks_24h, "high 24h"@)
    } else {
        base
    }
}

/// The cells of one row: symbol, name and price, and in the medium view
/// the changes and watermarks that the feed can fill and the coin has.
pub open spec fn row_cells(
    coin: CoinRowTexts,
    data_view_type: DisplayDataViewType,
    details: ConfigDetails,
) -> Seq<Seq<char>> {
    let base = seq![coin.symbol@, coin.name@, coin.current_price@];
    if data_view_type == DisplayDataViewType::MediumData {
        let a = with_optional(base, details.have_price_change_24h, coin.price_change_24h@);
        let b = with_optional(
            a,
            details.have_percent_change_1h && coin.percent_change_1h is Some,
            coin.percent_change_1h->0@,
        );
        let c = b.push(coin.percent_change_24h@);
        let shown = details.have_watermarks_24h && coin.watermarks_24h is Some;
        let d = with_optional(c, shown, coin.watermarks_24h->0.low@);
        with_optional(d, shown, coin.watermarks_24h->0.high@)
    } else {
        base
    }
}

/// The properties of a right-aligned column.
pub open spec fn right_aligned() -> ColumnProperties {
    ColumnProperties { text_alignment: Alignment::Right, next_border_type: BorderType::NoBorder }
}

fn add_right_column(table: &mut CLITablePrinter, title: &str)
    requires
        old(table).wf(),
        old(table).row_count() == 0,
        old(table).num_columns < usize::MAX,
    ensures
        final(table).wf(),
        final(table).row_count() == 0,
        final(table).num_columns == old(table).num_columns + 1,
        final(table).draw_titles == old(table).draw_titles,
        texts(final(table).column_titles@) == texts(old(table).column_titles@).push(title@),
        final(table).column_properties@ == old(table).column_properties@.push(right_aligned()),
{
    table.add_column_def(title, Alignment::Right);
    proof {
        let after = table.column_titles@;
        let before = old(table).column_titles@;
        assert(after.drop_last() == before);
        assert forall|i: int| 0 <= i < before.len() implies after[i] == before[i] by {
            assert(after.drop_last()[i] == after[i]);
        }
        assert(texts(after) =~= texts(before).push(title@));
        let props = table.column_properties@;
        assert(props.drop_last() == old(table).column_properties@);
        assert forall|i: int| 0 <= i < props.len() - 1 implies props[i] == old(table).column_properties@[i] by {
            assert(props.drop_last()[i] == props[i]);
        }
        assert(props =~= old(table).column_properties@.push(right_aligned()));
        if table.data_columns@.len() > 1 {
            assert(table.data_columns@.drop_last()[0] == table.data_columns@[0]);
        }
    }
}

fn push_optional(row: &mut Vec<String>, wanted: bool, item: &String)
    ensures
        texts(final(row)@) == with_optional(texts(old(row)@), wanted, item@),
{
    if wanted {
        row.push(item.clone());
        assert(texts(row@) =~= texts(old(row)@).push(item@));
    }
}

impl PriceViewTerminal {
    /// A view for the display settings of `config`, with a table of three
    /// columns that has no titles yet.
    pub fn new(config: &Config, config_details: ConfigDetails) -> (view: PriceViewTerminal)
        ensures
            view.fiat_currency@ == config.display_config.fiat_currency@,
            view.data_view_type == config.display_config.data_view_type,
            view.update_period == config.display_config.update_period,
            view.config_details == config_details,
            view.table_headings@.len() == 0,
            view.is_fresh(),
    {
        PriceViewTerminal {
            fiat_currency: config.display_config.fiat_currency.clone(),
            data_view_type: config.display_config.data_view_type,
            update_period: config.display_config.update_period,
            config_details,
            table_headings: Vec::new(),
            table_def: CLITablePrinter::new(3),
        }
    }

    /// The table is as `new` leaves it: three left-aligned columns, no
    /// titles, no rows.
    pub open spec fn is_fresh(&self) -> bool {
        &&& self.table_def.wf()
        &&& self.table_def.num_columns == 3
        &&& self.table_def.row_count() == 0
        &&& self.table_def.column_titles@.len() == 0
        &&& forall|c: int|
            0 <= c < 3 ==> #[trigger] self.table_def.column_properties@[c] == (ColumnProperties {
                text_alignment: Alignment::Left,
                next_border_type: self.table_def.column_properties@[c].next_border_type,
            })
    }

    /// Gives the table its titles and alignments: symbol and name to the
    /// left, the price and every further column to the right.
    pub fn configure_table(&mut self)
        requires
            old(self).is_fresh(),
        ensures
            final(self).fiat_currency == old(self).fiat_currency,
            final(self).data_view_type == old(self).data_view_type,
            final(self).update_period == old(self).update_period,
            final(self).config_details == old(self).config_details,
            texts(final(self).table_headings@) == base_headings(old(self).fiat_currency@),
            final(self).table_def.wf(),
            final(self).table_def.draw_titles,
            final(self).table_def.row_count() == 0,
            texts(final(self).table_def.column_titles@) == table_titles(
                old(self).fiat_currency@,
                old(self).data_view_type,
                old(self).config_details,
            ),
            final(self).table_def.num_columns == final(self).table_def.column_titles@.len(),
            forall|c: int|
                0 <= c < final(self).table_def.num_columns ==> (#[trigger] final(self).table_def.column_properties@[c]).text_alignment == (if c < 2 {
                    Alignment::Left
                } else {
                    Alignment::Right
                }),
    {
        let upper = to_upper(self.fiat_currency.as_str());
        let price_heading = String::from_str("Price (").concat(upper.as_str()).concat(")");
        let mut headings: Vec<String> = Vec::new();
        headings.push(String::from_str("Sym"));
        headings.push(String::from_str("Name"));
        headings.push(price_heading);
        assert(texts(headings@) =~= base_headings(self.fiat_currency@));
        self.table_def.add_titles(&headings);
        assert(texts(old(self).table_def.column_titles@) =~= Seq::<Seq<char>>::empty());
        assert(texts(self.table_def.column_titles@) =~= base_headings(self.fiat_currency@));
        let columns: [usize; 1] = [2];
        assert(columns@[0] == 2);
        self.table_def.set_alignment_multiple(columns.as_slice(), Alignment::Right);
        self.table_headings = headings;
        proof {
            let listed = columns@;
            assert(!crate::cli_table_printer::is_listed(listed, 0, 0));
            assert(!crate::cli_table_printer::is_listed(listed, 0, 1));
            assert(crate::cli_table_printer::is_listed(listed, 1, 2));
            assert(!crate::cli_table_printer::is_listed(listed, 1, 0));
            assert(!crate::cli_table_printer::is_listed(listed, 1, 1));
            assert(self.table_def.data_columns@[0]@.len() == 0);
        }
        if matches!(self.data_view_type, DisplayDataViewType::MediumData) {
            if self.config_details.have_price_change_24h {
                add_right_column(&mut self.table_def, "chng 24h");
            }
            if self.config_details.have_percent_change_1h {
                add_right_column(&mut self.table_def, "% chng 1h");
            }
            add_right_column(&mut self.table_def, "% chng 24h");
            if self.config_details.have_watermarks_24h {
                add_right_column(&mut self.table_def, "low 24h");
                add_right_column(&mut self.table_def, "high 24h");
            }
        }
    }

    /// The cells of the row for one coin.
    pub fn row_strings(&self, coin: &CoinRowTexts) -> (row: Vec<String>)
        ensures
            texts(row@) == row_cells(*coin, self.data_view_type, self.config_details),
    {
        let mut row: Vec<String> = Vec::new();
        row.push(coin.symbol.clone());
        row.push(coin.name.clone());
        row.push(coin.current_price.clone());
        assert(texts(row@) =~= seq![coin.symbol@, coin.name@, coin.current_price@]);
        if matches!(self.data_view_type, DisplayDataViewType::MediumData) {
            push_optional(&mut row, self.config_details.have_price_change_24h, &coin.price_change_24h);
            if let Some(percent_change_1h) = &coin.percent_change_1h {
                push_optional(&mut row, self.config_details.have_percent_change_1h, percent_change_1h);
            }
            let ghost before = row@;
            row.push(coin.percent_change_24h.clone());
            assert(texts(row@) =~= texts(before).push(coin.percent_change_24h@));
            if let Some(watermarks) = &coin.watermarks_24h {
                push_optional(&mut row, self.config_details.have_watermarks_24h, &watermarks.low);
                push_optional(&mut row, self.config_details.have_watermarks_24h, &watermarks.high);
            }
        }
        row
    }
}

} // verus!
