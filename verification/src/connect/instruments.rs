//! The instrument lists: their CSV text read into rows of `(column, value)`
//! pairs, and when the full list is served from the cache.

use super::config::{entry_is_fresh, CacheConfig, ResponseCache};
use super::request::{param_names, params_view, ParamsView};
use crate::text::string_views;
use vstd::prelude::*;

verus! {

/// The header row and the records that the `csv` crate reads from a text
/// with its default settings and records of any length, if it reads without
/// error.
pub uninterp spec fn csv_table(text: Seq<char>) -> Option<(Seq<Seq<char>>, Seq<Seq<Seq<char>>>)>;

/// The views of a list of records.
pub open spec fn records_view(records: Seq<Vec<String>>) -> Seq<Seq<Seq<char>>> {
    records.map_values(|r: Vec<String>| string_views(r@))
}

/// Reads a CSV text with `csv::ReaderBuilder::new().flexible(true)` (a
/// header row, fields separated by commas, records of any length): the
/// header row through `headers` and then every record through `records`, or
/// `None` at the first error.
#[verifier::external_body]
fn read_csv(text: &str) -> (r: Option<(Vec<String>, Vec<Vec<String>>)>)
    ensures
        match r {
            Some((h, rs)) => csv_table(text@) == Some((string_views(h@), records_view(rs@))),
            None => csv_table(text@) is None,
        },
{
    let mut rdr = csv::ReaderBuilder::new().flexible(true).from_reader(text.as_bytes());
    let headers: Vec<String> = rdr.headers().ok()?.iter().map(String::from).collect();
    let records = rdr.records().map(|rec| rec.map(|x| x.iter().map(String::from).collect()));
    let records: Vec<Vec<String>> = records.collect::<Result<Vec<Vec<String>>, csv::Error>>().ok()?;
    Some((headers, records))
}

/// A record as `(column, value)` pairs: each field with the header of its
/// column, for the columns that have a header.
pub open spec fn zip_row(headers: Seq<Seq<char>>, record: Seq<Seq<char>>) -> ParamsView {
    let n = if record.len() <= headers.len() {
        record.len()
    } else {
        headers.len()
    };
    Seq::new(n, |i: int| (headers[i], record[i]))
}

/// The views of a list of rows.
pub open spec fn rows_view(rows: Seq<Vec<(String, String)>>) -> Seq<ParamsView> {
    rows.map_values(|r: Vec<(String, String)>| params_view(r@))
}

/// A record as `(column, value)` pairs.
pub fn zip_record(headers: &Vec<String>, record: &Vec<String>) -> (row: Vec<(String, String)>)
    ensures
        params_view(row@) == zip_row(string_views(headers@), string_views(record@)),
{
    let n = if record.len() <= headers.len() {
        record.len()
    } else {
        headers.len()
    };
    let mut row: Vec<(String, String)> = Vec::new();
    let mut i: usize = 0;
    while i < n
        invariant
            0 <= i <= n,
            n <= headers@.len(),
            n <= record@.len(),
            row@.len() == i,
            forall|j: int| 0 <= j < i ==> #[trigger] row@[j] == (headers@[j], record@[j]),
        decreases n - i,
    {
        let k = headers[i].clone();
        let v = record[i].clone();
        row.push((k, v));
        i = i + 1;
    }
    assert(params_view(row@) =~= zip_row(string_views(headers@), string_views(record@)));
    row
}

/// Every record of a table as `(column, value)` pairs, in order.
pub fn rows_from_table(headers: &Vec<String>, records: &Vec<Vec<String>>) -> (rows: Vec<Vec<(String, String)>>)
    ensures
        rows_view(rows@) == records_view(records@).map_values(
            |r: Seq<Seq<char>>| zip_row(string_views(headers@), r),
        ),
{
    let ghost h = string_views(headers@);
    let mut rows: Vec<Vec<(String, String)>> = Vec::new();
    let mut i: usize = 0;
    while i < records.len()
        invariant
            0 <= i <= records@.len(),
            h == string_views(headers@),
            rows@.len() == i,
            forall|j: int|
                0 <= j < i ==> params_view(#[trigger] rows@[j]@) == zip_row(
                    h,
                    string_views(records@[j]@),
                ),
        decreases records@.len() - i,
    {
        let row = zip_record(headers, &records[i]);
        rows.push(row);
        i = i + 1;
    }
    assert(rows_view(rows@) =~= records_view(records@).map_values(
        |r: Seq<Seq<char>>| zip_row(h, r),
    ));
    rows
}

/// The rows of a CSV table: each record as `(column, value)` pairs.
pub open spec fn table_rows(headers: Seq<Seq<char>>, records: Seq<Seq<Seq<char>>>) -> Seq<ParamsView> {
    records.map_values(|r: Seq<Seq<char>>| zip_row(headers, r))
}

/// The records of a CSV text after its header row, each with all its
/// fields, in order; `None` where the text does not read as CSV.
pub fn csv_records(text: &str) -> (r: Option<Vec<Vec<String>>>)
    ensures
        match csv_table(text@) {
            Some((h, rs)) => r matches Some(v) && records_view(v@) == rs,
            None => r is None,
        },
{
    match read_csv(text) {
        Some((_, records)) => Some(records),
        None => None,
    }
}

/// The number of columns of a record that have a header: the shorter of the
/// two.
pub open spec fn zipped_len(headers: Seq<Seq<char>>, record: Seq<Seq<char>>) -> int {
    if record.len() <= headers.len() {
        record.len() as int
    } else {
        headers.len() as int
    }
}

/// Reads an instrument list in CSV: each record after the header row as
/// `(column, value)` pairs in column order, for the columns that both the
/// record and the header row have; `None` where the text does not read as
/// CSV.
pub fn parse_instruments_csv(text: &str) -> (r: Option<Vec<Vec<(String, String)>>>)
    ensures
        match csv_table(text@) {
            Some((h, rs)) => r matches Some(rows) && rows_view(rows@) == table_rows(h, rs)
                && forall|i: int|
                0 <= i < rows@.len() ==> param_names(#[trigger] rows_view(rows@)[i]) == h.take(
                    zipped_len(h, rs[i]),
                ),
            None => r is None,
        },
{
    match read_csv(text) {
        Some((headers, records)) => {
            let rows = rows_from_table(&headers, &records);
            let ghost h = string_views(headers@);
            assert(rows_view(rows@).len() == rows@.len());
            assert(rows@.len() == records@.len());
            assert forall|i: int|
                0 <= i < rows@.len() implies param_names(#[trigger] rows_view(rows@)[i])
                == h.take(zipped_len(h, records_view(records@)[i])) by {
                let rec = string_views(records@[i]@);
                assert(records_view(records@)[i] == rec);
                assert(rows_view(rows@)[i] == zip_row(h, rec));
                assert(param_names(zip_row(h, rec)) =~= h.take(zipped_len(h, rec)));
            }
            Some(rows)
        },
        None => None,
    }
}

/// Whether the full instrument list goes through the cache: caching is
/// configured and on, and no exchange narrows the list.
pub open spec fn instruments_cacheable(config: Option<CacheConfig>, exchange_given: bool) -> bool {
    config matches Some(c) && c.enable_instruments_cache && !exchange_given
}

/// Whether the instrument list of this call goes through the cache.
pub fn uses_instruments_cache(config: &Option<CacheConfig>, exchange: Option<&str>) -> (b: bool)
    ensures
        b == instruments_cacheable(*config, exchange is Some),
{
    match config {
        Some(c) => c.enable_instruments_cache && exchange.is_none(),
        None => false,
    }
}

/// The instrument list to answer with from the cache at clock reading
/// `now`: the cached list where this call goes through the cache and the
/// entry is fresh, else `None` and the list is fetched.
pub fn cached_instruments<'a, T>(
    cache: &'a ResponseCache<T>,
    config: &Option<CacheConfig>,
    exchange: Option<&str>,
    now: u64,
) -> (r: Option<&'a T>)
    requires
        cache.ttl_minutes * 60 <= u64::MAX,
    ensures
        match cache.instruments_cache {
            Some((data, stored)) => if instruments_cacheable(*config, exchange is Some)
                && entry_is_fresh(stored, now, cache.ttl_minutes) {
                r == Some(&data)
            } else {
                r is None
            },
            None => r is None,
        },
{
    if uses_instruments_cache(config, exchange) {
        cache.get_instruments(now)
    } else {
        None
    }
}

} // verus!
