//! Text-mode rendering: the fixed-width table, the per-command row
//! extraction, and the two-line configuration display. Everything returns
//! strings; printing them is the caller's business.
use vstd::prelude::*;

use crate::jsonv::{arr_of, field_of, str_field_of, uint_field_of, Jv};
use crate::text::{dec_of, spaces};
use vstd::string::*;

verus! {

/// The views of a list of strings.
pub open spec fn views_of(v: Seq<String>) -> Seq<Seq<char>> {
    v.map_values(|s: String| s@)
}

/// The cell views of a list of rows.
pub open spec fn row_views(rows: Seq<Vec<String>>) -> Seq<Seq<Seq<char>>> {
    rows.map_values(|r: Vec<String>| views_of(r@))
}

/// The widest cell the column has in any row.
pub open spec fn max_cell_width(rows: Seq<Seq<Seq<char>>>, i: int) -> int
    decreases rows.len(),
{
    if rows.len() == 0 {
        0
    } else {
        let rest = max_cell_width(rows.drop_last(), i);
        let w = rows.last()[i].len() as int;
        if w >= rest {
            w
        } else {
            rest
        }
    }
}

/// A column is as wide as its header or its widest cell.
pub open spec fn col_width(headers: Seq<Seq<char>>, rows: Seq<Seq<Seq<char>>>, i: int) -> int {
    let h = headers[i].len() as int;
    let m = max_cell_width(rows, i);
    if h >= m {
        h
    } else {
        m
    }
}

/// No cell of the column is wider than the column.
pub proof fn lemma_max_cell_width_bound(rows: Seq<Seq<Seq<char>>>, i: int, r: int)
    requires
        0 <= r < rows.len(),
    ensures
        max_cell_width(rows, i) >= rows[r][i].len(),
    decreases rows.len(),
{
    if r < rows.len() - 1 {
        lemma_max_cell_width_bound(rows.drop_last(), i, r);
    }
}

/// A cell as printed: padded to the column width and followed by the
/// two-space separator, except in the last column, which stands bare.
pub open spec fn padded_cell(c: Seq<char>, w: int, last: bool) -> Seq<char> {
    if last {
        c
    } else {
        c + spaces(w - c.len()) + "  "@
    }
}

/// The first `j` cells of a line, as printed.
pub open spec fn line_prefix(
    cells: Seq<Seq<char>>,
    headers: Seq<Seq<char>>,
    rows: Seq<Seq<Seq<char>>>,
    j: int,
) -> Seq<char>
    decreases j,
{
    if j <= 0 {
        Seq::empty()
    } else {
        line_prefix(cells, headers, rows, j - 1) + padded_cell(
            cells[j - 1],
            col_width(headers, rows, j - 1),
            j - 1 == cells.len() - 1,
        )
    }
}

/// One printed line of the table.
pub open spec fn table_line(
    cells: Seq<Seq<char>>,
    headers: Seq<Seq<char>>,
    rows: Seq<Seq<Seq<char>>>,
) -> Seq<char> {
    line_prefix(cells, headers, rows, cells.len() as int)
}

/// Render one line: each cell padded to its column's width with the
/// two-space separator, the last column bare.
fn render_line(cells: &Vec<String>, headers: &Vec<String>, rows: &Vec<Vec<String>>) -> (r: String)
    requires
        cells@.len() >= 1,
        cells@.len() == headers@.len(),
        forall|k: int| 0 <= k < rows@.len() ==> #[trigger] rows@[k]@.len() == headers@.len(),
        forall|j: int| 0 <= j < cells@.len() ==> views_of(cells@)[j].len() <= col_width(
            views_of(headers@),
            row_views(rows@),
            j,
        ),
    ensures
        r@ == table_line(views_of(cells@), views_of(headers@), row_views(rows@)),
{
    let ghost hs = views_of(headers@);
    let ghost rs = row_views(rows@);
    let ghost cs = views_of(cells@);
    let n = cells.len();
    let mut line = String::new();
    proof {
        assert(line@ =~= line_prefix(cs, hs, rs, 0));
    }
    let mut j: usize = 0;
    while j < n
        invariant
            0 <= j <= n,
            n == cells@.len(),
            n == headers@.len(),
            forall|k: int| 0 <= k < rows@.len() ==> #[trigger] rows@[k]@.len() == headers@.len(),
            cs == views_of(cells@),
            hs == views_of(headers@),
            rs == row_views(rows@),
            forall|k: int| 0 <= k < n ==> cs[k].len() <= col_width(hs, rs, k),
            line@ == line_prefix(cs, hs, rs, j as int),
        decreases n - j,
    {
        let cell = &cells[j];
        assert(cell@ == cs[j as int]);
        line.append(cell.as_str());
        if j + 1 < n {
            // pad to the column width, then the separator
            let cw = column_width(headers, rows, j);
            let cl = cell.unicode_len();
            assert(cl <= cw);
            crate::text::push_spaces(&mut line, cw - cl);
            line.append("  ");
            proof {
                assert(line@ =~= line_prefix(cs, hs, rs, j as int) + padded_cell(
                    cs[j as int],
                    col_width(hs, rs, j as int),
                    false,
                ));
            }
        } else {
            proof {
                assert(padded_cell(cs[j as int], col_width(hs, rs, j as int), true) == cs[
                    j as int
                ]);
            }
        }
        j += 1;
    }
    line
}

/// The width of column `i`: the header's width or the widest cell's.
fn column_width(headers: &Vec<String>, rows: &Vec<Vec<String>>, i: usize) -> (r: usize)
    requires
        i < headers@.len(),
        forall|k: int| 0 <= k < rows@.len() ==> #[trigger] rows@[k]@.len() == headers@.len(),
    ensures
        r == col_width(views_of(headers@), row_views(rows@), i as int),
{
    let ghost hs = views_of(headers@);
    let ghost rs = row_views(rows@);
    let mut w = headers[i].unicode_len();
    let n = rows.len();
    proof {
        assert(rs.take(0) =~= Seq::<Seq<Seq<char>>>::empty());
    }
    let mut k: usize = 0;
    while k < n
        invariant
            0 <= k <= n,
            n == rows@.len(),
            i < headers@.len(),
            hs == views_of(headers@),
            rs == row_views(rows@),
            forall|m: int| 0 <= m < rows@.len() ==> #[trigger] rows@[m]@.len() == headers@.len(),
            w >= hs[i as int].len(),
            w as int == col_width(hs, rs.take(k as int), i as int),
        decreases n - k,
    {
        proof {
            assert(rs.take(k as int + 1).drop_last() =~= rs.take(k as int));
            assert(rs.take(k as int + 1).last() == rs[k as int]);
        }
        let cw = rows[k][i].unicode_len();
        assert(cw == rs[k as int][i as int].len());
        if cw > w {
            w = cw;
        }
        k += 1;
    }
    proof {
        assert(rs.take(n as int) =~= rs);
    }
    w
}

/// Render the rows as a fixed-width table with a header line. An empty row
/// list renders nothing at all, not even the header.
pub fn render_table(headers: &Vec<String>, rows: &Vec<Vec<String>>) -> (r: Vec<String>)
    requires
        headers@.len() >= 1,
        forall|k: int| 0 <= k < rows@.len() ==> #[trigger] rows@[k]@.len() == headers@.len(),
    ensures
        rows@.len() == 0 ==> r@.len() == 0,
        rows@.len() > 0 ==> r@.len() == 1 + rows@.len(),
        rows@.len() > 0 ==> r@[0]@ == table_line(
            views_of(headers@),
            views_of(headers@),
            row_views(rows@),
        ),
        forall|k: int| 0 <= k < rows@.len() ==> #[trigger] r@[k + 1]@ == table_line(
            views_of(rows@[k]@),
            views_of(headers@),
            row_views(rows@),
        ),
{
    let ghost hs = views_of(headers@);
    let ghost rs = row_views(rows@);
    let mut out: Vec<String> = Vec::new();
    if rows.len() == 0 {
        return out;
    }
    proof {
        assert forall|j: int| 0 <= j < hs.len() implies hs[j].len() <= col_width(hs, rs, j) by {}
    }
    let header_line = render_line(headers, headers, rows);
    out.push(header_line);
    let n = rows.len();
    let mut k: usize = 0;
    while k < n
        invariant
            0 <= k <= n,
            n == rows@.len(),
            hs == views_of(headers@),
            rs == row_views(rows@),
            headers@.len() >= 1,
            forall|m: int| 0 <= m < rows@.len() ==> #[trigger] rows@[m]@.len() == headers@.len(),
            out@.len() == 1 + k,
            out@[0]@ == table_line(hs, hs, rs),
            forall|m: int| 0 <= m < k ==> #[trigger] out@[m + 1]@ == table_line(
                views_of(rows@[m]@),
                hs,
                rs,
            ),
        decreases n - k,
    {
        let row = &rows[k];
        proof {
            assert(views_of(row@) == rs[k as int]);
            assert forall|j: int| 0 <= j < views_of(row@).len() implies views_of(row@)[j].len()
                <= col_width(hs, rs, j) by {
                lemma_max_cell_width_bound(rs, j, k as int);
            }
        }
        let line = render_line(row, headers, rows);
        out.push(line);
        k += 1;
    }
    out
}

/// The string a field displays as: its value, or `-` when absent or not a
/// string.
pub open spec fn display_spec(j: Jv, key: Seq<char>) -> Seq<char> {
    match str_field_of(j, key) {
        Some(s) => s,
        None => "-"@,
    }
}

/// Extract a string field for display; `-` stands for missing or null.
pub fn display_field(j: &Jv, key: &str) -> (r: String)
    ensures
        r@ == display_spec(*j, key@),
{
    match j.str_field(key) {
        Some(s) => s.to_owned(),
        None => "-".to_owned(),
    }
}

/// What the token expiry column shows: the `expire_at` string when present
/// and non-empty, else the literal `never`.
pub open spec fn expire_spec(t: Jv) -> Seq<char> {
    match str_field_of(t, "expire_at"@) {
        Some(s) => if s.len() > 0 {
            s
        } else {
            "never"@
        },
        None => "never"@,
    }
}

/// One table row for a listed token: id, name, type, expiry.
pub open spec fn token_row_spec(t: Jv) -> Seq<Seq<char>> {
    seq![
        display_spec(t, "id"@),
        display_spec(t, "name"@),
        display_spec(t, "token_type"@),
        expire_spec(t),
    ]
}

fn token_row(t: &Jv) -> (r: Vec<String>)
    ensures
        views_of(r@) =~= token_row_spec(*t),
{
    let mut row: Vec<String> = Vec::new();
    row.push(display_field(t, "id"));
    row.push(display_field(t, "name"));
    row.push(display_field(t, "token_type"));
    let expires: String = match t.str_field("expire_at") {
        Some(s) => {
            if !s.is_empty() {
                s.to_owned()
            } else {
                "never".to_owned()
            }
        },
        None => "never".to_owned(),
    };
    row.push(expires);
    row
}

/// The table rows of a token-list response: one per element of its `tokens`
/// array, when the response has one.
pub fn token_rows(result: &Jv) -> (r: Option<Vec<Vec<String>>>)
    ensures
        r is Some <==> (field_of(*result, "tokens"@) matches Some(v) && arr_of(v) is Some),
        r matches Some(rows) ==> (field_of(*result, "tokens"@) matches Some(v) && arr_of(
            v,
        ) matches Some(toks) && rows@.len() == toks.len() && (forall|k: int|
            0 <= k < toks.len() ==> views_of(#[trigger] rows@[k]@) == token_row_spec(toks[k]))),
{
    let arr = match result.get_field("tokens") {
        Some(v) => match v.as_array() {
            Some(a) => a,
            None => {
                return None;
            },
        },
        None => {
            return None;
        },
    };
    let ghost toks = arr@;
    let n = arr.len();
    let mut rows: Vec<Vec<String>> = Vec::new();
    let mut k: usize = 0;
    while k < n
        invariant
            0 <= k <= n,
            n == toks.len(),
            arr@ == toks,
            rows@.len() == k,
            forall|m: int| 0 <= m < k ==> views_of(#[trigger] rows@[m]@) == token_row_spec(
                toks[m],
            ),
        decreases n - k,
    {
        rows.push(token_row(&arr[k]));
        k += 1;
    }
    Some(rows)
}

/// What one duckling shows inside the accounts table: `type (status)`.
pub open spec fn duckling_entry_spec(d: Jv) -> Seq<char> {
    display_spec(d, "type"@) + " ("@ + display_spec(d, "status"@) + ")"@
}

/// The duckling entries joined with a comma and a space.
pub open spec fn join_entries(ds: Seq<Jv>) -> Seq<char>
    decreases ds.len(),
{
    if ds.len() == 0 {
        Seq::empty()
    } else if ds.len() == 1 {
        duckling_entry_spec(ds[0])
    } else {
        join_entries(ds.drop_last()) + ", "@ + duckling_entry_spec(ds.last())
    }
}

/// The accounts table's second column: the account's ducklings joined, or
/// nothing when the response has no duckling array.
pub open spec fn ducklings_cell_spec(acct: Jv) -> Seq<char> {
    match field_of(acct, "ducklings"@) {
        Some(v) => match arr_of(v) {
            Some(ds) => join_entries(ds),
            None => Seq::empty(),
        },
        None => Seq::empty(),
    }
}

fn duckling_entry(d: &Jv) -> (r: String)
    ensures
        r@ == duckling_entry_spec(*d),
{
    let mut s = display_field(d, "type");
    s.append(" (");
    let st = display_field(d, "status");
    s.append(st.as_str());
    s.append(")");
    s
}

fn ducklings_cell(acct: &Jv) -> (r: String)
    ensures
        r@ == ducklings_cell_spec(*acct),
{
    let arr = match acct.get_field("ducklings") {
        Some(v) => match v.as_array() {
            Some(a) => a,
            None => {
                return String::new();
            },
        },
        None => {
            return String::new();
        },
    };
    let ghost ds = arr@;
    let n = arr.len();
    let mut s = String::new();
    proof {
        assert(ds.take(0) =~= Seq::<Jv>::empty());
    }
    let mut k: usize = 0;
    while k < n
        invariant
            0 <= k <= n,
            n == ds.len(),
            arr@ == ds,
            s@ == join_entries(ds.take(k as int)),
        decreases n - k,
    {
        proof {
            assert(ds.take(k as int + 1).drop_last() =~= ds.take(k as int));
            assert(ds.take(k as int + 1).last() == ds[k as int]);
        }
        if k > 0 {
            s.append(", ");
        }
        let e = duckling_entry(&arr[k]);
        s.append(e.as_str());
        k += 1;
    }
    proof {
        assert(ds.take(n as int) =~= ds);
    }
    s
}

/// One table row for an active account: username and its ducklings.
pub open spec fn account_row_spec(acct: Jv) -> Seq<Seq<char>> {
    seq![display_spec(acct, "username"@), ducklings_cell_spec(acct)]
}

/// The table rows of an active-accounts response: one per element of its
/// `accounts` array, when the response has one.
pub fn account_rows(result: &Jv) -> (r: Option<Vec<Vec<String>>>)
    ensures
        r is Some <==> (field_of(*result, "accounts"@) matches Some(v) && arr_of(v) is Some),
        r matches Some(rows) ==> (field_of(*result, "accounts"@) matches Some(v) && arr_of(
            v,
        ) matches Some(accts) && rows@.len() == accts.len() && (forall|k: int|
            0 <= k < accts.len() ==> views_of(#[trigger] rows@[k]@) == account_row_spec(
                accts[k],
            ))),
{
    let arr = match result.get_field("accounts") {
        Some(v) => match v.as_array() {
            Some(a) => a,
            None => {
                return None;
            },
        },
        None => {
            return None;
        },
    };
    let ghost accts = arr@;
    let n = arr.len();
    let mut rows: Vec<Vec<String>> = Vec::new();
    let mut k: usize = 0;
    while k < n
        invariant
            0 <= k <= n,
            n == accts.len(),
            arr@ == accts,
            rows@.len() == k,
            forall|m: int| 0 <= m < k ==> views_of(#[trigger] rows@[m]@) == account_row_spec(
                accts[m],
            ),
        decreases n - k,
    {
        let mut row: Vec<String> = Vec::new();
        row.push(display_field(&arr[k], "username"));
        row.push(ducklings_cell(&arr[k]));
        proof {
            assert(views_of(row@) =~= account_row_spec(accts[k as int]));
        }
        rows.push(row);
        k += 1;
    }
    Some(rows)
}

/// The string the configuration display shows for a nested
/// `<k1>.instance_size` field: the value or `-`.
pub open spec fn nested_display_spec(v: Jv, k1: Seq<char>, k2: Seq<char>) -> Seq<char> {
    match field_of(v, k1) {
        Some(x) => display_spec(x, k2),
        None => "-"@,
    }
}

/// What the flock-size slot displays: the number, or `-` when absent.
pub open spec fn flock_display_spec(v: Jv) -> Seq<char> {
    match field_of(v, "read_scaling"@) {
        Some(x) => match uint_field_of(x, "flock_size"@) {
            Some(n) => dec_of(n as int),
            None => "-"@,
        },
        None => "-"@,
    }
}

/// The two lines of the configuration display.
pub open spec fn duckling_config_lines(v: Jv) -> Seq<Seq<char>> {
    seq![
        "read_write:   "@ + nested_display_spec(v, "read_write"@, "instance_size"@),
        "read_scaling: "@ + nested_display_spec(v, "read_scaling"@, "instance_size"@)
            + " (flock_size: "@ + flock_display_spec(v) + ")"@,
    ]
}

/// Render a fetched configuration as its two display lines.
pub fn render_duckling_config(v: &Jv) -> (r: Vec<String>)
    ensures
        views_of(r@) =~= duckling_config_lines(*v),
{
    let rw: String = match v.get_field("read_write") {
        Some(x) => display_field(x, "instance_size"),
        None => "-".to_owned(),
    };
    let rs: String = match v.get_field("read_scaling") {
        Some(x) => display_field(x, "instance_size"),
        None => "-".to_owned(),
    };
    let flock: String = match v.get_field("read_scaling") {
        Some(x) => match x.get_field("flock_size") {
            Some(f) => match f.as_uint() {
                Some(n) => crate::text::u64_to_dec(n),
                None => "-".to_owned(),
            },
            None => "-".to_owned(),
        },
        None => "-".to_owned(),
    };
    let mut line1: String = "read_write:   ".to_owned();
    line1.append(rw.as_str());
    let mut line2: String = "read_scaling: ".to_owned();
    line2.append(rs.as_str());
    line2.append(" (flock_size: ");
    line2.append(flock.as_str());
    line2.append(")");
    let mut out: Vec<String> = Vec::new();
    out.push(line1);
    out.push(line2);
    out
}

} // verus!
