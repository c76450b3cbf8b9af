//! The persisted-schema contract of `bouncer_resources`: exact six-column
//! shape, column order, declared type text, nullability, primary-key position
//! on `name`, and the two load-bearing CHECK constraints. A table that drifts
//! from it is reported, never repaired.
use vstd::prelude::*;
use vstd::string::{StrSliceExecFns, StringExecFns};

verus! {

/// One line of `PRAGMA table_info(bouncer_resources)`.
pub struct ColumnInfo {
    pub name: String,
    pub decl_type: String,
    pub not_null: bool,
    pub pk: i64,
}

pub struct ColumnView {
    pub name: Seq<char>,
    pub decl_type: Seq<char>,
    pub not_null: bool,
    pub pk: i64,
}

impl View for ColumnInfo {
    type V = ColumnView;

    open spec fn view(&self) -> ColumnView {
        ColumnView {
            name: self.name@,
            decl_type: self.decl_type@,
            not_null: self.not_null,
            pk: self.pk,
        }
    }
}

/// The first way in which a table departs from the expected schema.
#[allow(inconsistent_fields)]
pub enum SchemaDrift {
    ColumnCount { found: usize },
    ColumnName { position: usize, expected: String, found: String },
    DeclaredType { column: String, expected: String, found: String },
    NotNull { column: String, expected: bool, found: bool },
    PrimaryKey { column: String, expected: i64, found: i64 },
    MissingTokenCheck,
    MissingPairCheck,
}

#[allow(inconsistent_fields)]
pub enum DriftView {
    ColumnCount { found: nat },
    ColumnName { position: nat, expected: Seq<char>, found: Seq<char> },
    DeclaredType { column: Seq<char>, expected: Seq<char>, found: Seq<char> },
    NotNull { column: Seq<char>, expected: bool, found: bool },
    PrimaryKey { column: Seq<char>, expected: i64, found: i64 },
    MissingTokenCheck,
    MissingPairCheck,
}

impl View for SchemaDrift {
    type V = DriftView;

    open spec fn view(&self) -> DriftView {
        match self {
            SchemaDrift::ColumnCount { found } => DriftView::ColumnCount { found: *found as nat },
            SchemaDrift::ColumnName { position, expected, found } => DriftView::ColumnName {
                position: *position as nat,
                expected: expected@,
                found: found@,
            },
            SchemaDrift::DeclaredType { column, expected, found } => DriftView::DeclaredType {
                column: column@,
                expected: expected@,
                found: found@,
            },
            SchemaDrift::NotNull { column, expected, found } => DriftView::NotNull {
                column: column@,
                expected: *expected,
                found: *found,
            },
            SchemaDrift::PrimaryKey { column, expected, found } => DriftView::PrimaryKey {
                column: column@,
                expected: *expected,
                found: *found,
            },
            SchemaDrift::MissingTokenCheck => DriftView::MissingTokenCheck,
            SchemaDrift::MissingPairCheck => DriftView::MissingPairCheck,
        }
    }
}

pub open spec fn drift_opt_view(d: Option<SchemaDrift>) -> Option<DriftView> {
    match d {
        Some(x) => Some(x@),
        None => None,
    }
}

pub open spec fn columns_view(cols: Seq<ColumnInfo>) -> Seq<ColumnView> {
    cols.map_values(|c: ColumnInfo| c@)
}

/// The number of columns of the table.
pub open spec fn expected_column_count() -> nat {
    6
}

/// The name of the column at `position`.
pub open spec fn expected_name(position: int) -> Seq<char> {
    if position == 0 {
        "name"@
    } else if position == 1 {
        "owner"@
    } else if position == 2 {
        "token"@
    } else if position == 3 {
        "lease_expires_at_ms"@
    } else if position == 4 {
        "created_at_ms"@
    } else {
        "updated_at_ms"@
    }
}

/// The declared type text of the column at `position`.
pub open spec fn expected_type(position: int) -> Seq<char> {
    if position == 0 || position == 1 {
        "TEXT"@
    } else {
        "INTEGER"@
    }
}

/// Whether the column at `position` is declared `NOT NULL`.
pub open spec fn expected_not_null(position: int) -> bool {
    position == 2 || position == 4 || position == 5
}

/// The primary-key position of the column at `position` (0: not in the key).
pub open spec fn expected_pk(position: int) -> i64 {
    if position == 0 {
        1
    } else {
        0
    }
}

/// How the column at `position` departs from the expected one, if it does.
pub open spec fn column_drift(c: ColumnView, position: int) -> Option<DriftView> {
    if c.name != expected_name(position) {
        Some(
            DriftView::ColumnName {
                position: position as nat,
                expected: expected_name(position),
                found: c.name,
            },
        )
    } else if c.decl_type != expected_type(position) {
        Some(
            DriftView::DeclaredType {
                column: c.name,
                expected: expected_type(position),
                found: c.decl_type,
            },
        )
    } else if c.not_null != expected_not_null(position) {
        Some(
            DriftView::NotNull {
                column: c.name,
                expected: expected_not_null(position),
                found: c.not_null,
            },
        )
    } else if c.pk != expected_pk(position) {
        Some(
            DriftView::PrimaryKey { column: c.name, expected: expected_pk(position), found: c.pk },
        )
    } else {
        None
    }
}

/// The first column, from `from` on, that departs from the expected one.
pub open spec fn first_column_drift(cols: Seq<ColumnView>, from: int) -> Option<DriftView>
    decreases cols.len() - from,
{
    if from < 0 || from >= cols.len() {
        None
    } else {
        match column_drift(cols[from], from) {
            Some(d) => Some(d),
            None => first_column_drift(cols, from + 1),
        }
    }
}

pub open spec fn is_sql_space(c: char) -> bool {
    c == ' ' || c == '\n' || c == '\t' || c == '\r'
}

/// The text with every run of white space replaced by one space.
pub open spec fn collapse_space(s: Seq<char>) -> Seq<char>
    decreases s.len(),
{
    if s.len() == 0 {
        s
    } else {
        let before = collapse_space(s.drop_last());
        if is_sql_space(s.last()) {
            if before.len() > 0 && before.last() == ' ' {
                before
            } else {
                before.push(' ')
            }
        } else {
            before.push(s.last())
        }
    }
}

/// Whether `needle` occurs in `hay`.
pub open spec fn occurs_in(hay: Seq<char>, needle: Seq<char>) -> bool {
    exists|i: int| 0 <= i && i + needle.len() <= hay.len() && #[trigger] hay.subrange(i, i + needle.len()) == needle
}

/// The token constraint, as it stands in the table's SQL.
pub open spec fn token_check_text() -> Seq<char> {
    "CHECK (token >= 1)"@
}

/// The owner/expiry pairing constraint, as it stands in the table's SQL.
pub open spec fn pair_check_text() -> Seq<char> {
    "(owner IS NULL AND lease_expires_at_ms IS NULL) OR (owner IS NOT NULL AND lease_expires_at_ms IS NOT NULL)"@
}

/// The first departure of a table with columns `cols` and creation SQL `sql`
/// from the expected schema, or `None` when it has the expected schema.
pub open spec fn schema_drift_spec(cols: Seq<ColumnView>, sql: Seq<char>) -> Option<DriftView> {
    if cols.len() != expected_column_count() {
        Some(DriftView::ColumnCount { found: cols.len() })
    } else if first_column_drift(cols, 0) is Some {
        first_column_drift(cols, 0)
    } else if !occurs_in(collapse_space(sql), token_check_text()) {
        Some(DriftView::MissingTokenCheck)
    } else if !occurs_in(collapse_space(sql), pair_check_text()) {
        Some(DriftView::MissingPairCheck)
    } else {
        None
    }
}

/// The expected column at `position`: name, declared type, `NOT NULL`,
/// primary-key position.
fn expected_column(position: usize) -> (res: (&'static str, &'static str, bool, i64))
    requires
        position < 6,
    ensures
        res.0@ == expected_name(position as int),
        res.1@ == expected_type(position as int),
        res.2 == expected_not_null(position as int),
        res.3 == expected_pk(position as int),
{
    if position == 0 {
        ("name", "TEXT", false, 1)
    } else if position == 1 {
        ("owner", "TEXT", false, 0)
    } else if position == 2 {
        ("token", "INTEGER", true, 0)
    } else if position == 3 {
        ("lease_expires_at_ms", "INTEGER", false, 0)
    } else if position == 4 {
        ("created_at_ms", "INTEGER", true, 0)
    } else {
        ("updated_at_ms", "INTEGER", true, 0)
    }
}

/// Whether two texts are equal.
pub(crate) fn text_eq(a: &String, b: &str) -> (res: bool)
    ensures
        res == (a@ == b@),
{
    let b_owned = b.to_owned();
    *a == b_owned
}

/// How `c`, the column at `position`, departs from the expected one.
pub fn check_column(c: &ColumnInfo, position: usize) -> (res: Option<SchemaDrift>)
    requires
        position < 6,
    ensures
        drift_opt_view(res) == column_drift(c@, position as int),
{
    let (name, decl_type, not_null, pk) = expected_column(position);
    if !text_eq(&c.name, name) {
        Some(
            SchemaDrift::ColumnName {
                position,
                expected: name.to_owned(),
                found: c.name.clone(),
            },
        )
    } else if !text_eq(&c.decl_type, decl_type) {
        Some(
            SchemaDrift::DeclaredType {
                column: c.name.clone(),
                expected: decl_type.to_owned(),
                found: c.decl_type.clone(),
            },
        )
    } else if c.not_null != not_null {
        Some(SchemaDrift::NotNull { column: c.name.clone(), expected: not_null, found: c.not_null })
    } else if c.pk != pk {
        Some(SchemaDrift::PrimaryKey { column: c.name.clone(), expected: pk, found: c.pk })
    } else {
        None
    }
}

/// The characters of `s`.
fn text_chars(s: &str) -> (res: Vec<char>)
    ensures
        res@ == s@,
{
    let n = s.unicode_len();
    let mut out: Vec<char> = Vec::new();
    let mut i: usize = 0;
    while i < n
        invariant
            n == s@.len(),
            i <= n,
            out@ == s@.subrange(0, i as int),
        decreases n - i,
    {
        out.push(s.get_char(i));
        i = i + 1;
        assert(out@ =~= s@.subrange(0, i as int));
    }
    out
}

/// `s` with every run of white space replaced by one space.
pub fn collapse_space_text(s: &str) -> (res: Vec<char>)
    ensures
        res@ == collapse_space(s@),
{
    let n = s.unicode_len();
    let mut out: Vec<char> = Vec::new();
    let mut i: usize = 0;
    while i < n
        invariant
            n == s@.len(),
            i <= n,
            out@ == collapse_space(s@.subrange(0, i as int)),
        decreases n - i,
    {
        let c = s.get_char(i);
        let ghost prefix = s@.subrange(0, i as int);
        let ghost next = s@.subrange(0, i + 1);
        assert(next.drop_last() =~= prefix);
        assert(next.last() == c);
        if c == ' ' || c == '\n' || c == '\t' || c == '\r' {
            let n_out = out.len();
            if n_out > 0 && out[n_out - 1] == ' ' {
            } else {
                out.push(' ');
            }
        } else {
            out.push(c);
        }
        i = i + 1;
    }
    assert(s@.subrange(0, n as int) =~= s@);
    out
}

/// Whether `needle` occurs in `hay` at `at`.
fn occurs_at(hay: &Vec<char>, needle: &Vec<char>, at: usize) -> (res: bool)
    requires
        at + needle.len() <= hay.len(),
    ensures
        res == (hay@.subrange(at as int, at + needle.len()) == needle@),
{
    let mut j: usize = 0;
    while j < needle.len()
        invariant
            at + needle.len() <= hay.len(),
            j <= needle.len(),
            forall|k: int| 0 <= k < j ==> hay@[at + k] == needle@[k],
        decreases needle.len() - j,
    {
        if hay[at + j] != needle[j] {
            assert(hay@.subrange(at as int, at + needle.len())[j as int] != needle@[j as int]);
            return false;
        }
        j = j + 1;
    }
    assert(hay@.subrange(at as int, at + needle.len()) =~= needle@);
    true
}

/// Whether `needle` occurs in `hay`.
pub fn occurs(hay: &Vec<char>, needle: &Vec<char>) -> (res: bool)
    ensures
        res == occurs_in(hay@, needle@),
{
    if needle.len() > hay.len() {
        return false;
    }
    let last = hay.len() - needle.len();
    let mut i: usize = 0;
    loop
        invariant
            last == hay.len() - needle.len(),
            needle.len() <= hay.len(),
            i <= last,
            forall|k: int| 0 <= k < i ==> #[trigger] hay@.subrange(k, k + needle.len()) != needle@,
        decreases last - i,
    {
        if occurs_at(hay, needle, i) {
            return true;
        }
        if i == last {
            return false;
        }
        i = i + 1;
    }
}

/// The first departure of a table with columns `cols` and creation SQL `sql`
/// from the expected schema.
pub fn schema_drift(cols: &Vec<ColumnInfo>, sql: &str) -> (res: Option<SchemaDrift>)
    ensures
        drift_opt_view(res) == schema_drift_spec(columns_view(cols@), sql@),
{
    let ghost cv = columns_view(cols@);
    if cols.len() != 6 {
        return Some(SchemaDrift::ColumnCount { found: cols.len() });
    }
    let mut i: usize = 0;
    while i < 6
        invariant
            cols.len() == 6,
            cv == columns_view(cols@),
            i <= 6,
            first_column_drift(cv, 0) == first_column_drift(cv, i as int),
        decreases 6 - i,
    {
        let d = check_column(&cols[i], i);
        assert(cv[i as int] == cols@[i as int]@);
        match d {
            Some(drift) => {
                return Some(drift);
            },
            None => {},
        }
        i = i + 1;
    }
    let text = collapse_space_text(sql);
    let token_check = text_chars("CHECK (token >= 1)");
    if !occurs(&text, &token_check) {
        return Some(SchemaDrift::MissingTokenCheck);
    }
    let pair_check = text_chars(
        "(owner IS NULL AND lease_expires_at_ms IS NULL) OR (owner IS NOT NULL AND lease_expires_at_ms IS NOT NULL)",
    );
    if !occurs(&text, &pair_check) {
        return Some(SchemaDrift::MissingPairCheck);
    }
    None
}

pub open spec fn digit_char(d: nat) -> char {
    if d == 0 {
        '0'
    } else if d == 1 {
        '1'
    } else if d == 2 {
        '2'
    } else if d == 3 {
        '3'
    } else if d == 4 {
        '4'
    } else if d == 5 {
        '5'
    } else if d == 6 {
        '6'
    } else if d == 7 {
        '7'
    } else if d == 8 {
        '8'
    } else {
        '9'
    }
}

/// The decimal digits of `n`.
pub open spec fn decimal(n: nat) -> Seq<char>
    decreases n,
{
    if n < 10 {
        seq![digit_char(n)]
    } else {
        decimal(n / 10).push(digit_char(n % 10))
    }
}

/// The decimal text of `n`, with a sign when negative.
pub open spec fn signed_decimal(n: int) -> Seq<char> {
    if n < 0 {
        "-"@ + decimal((-n) as nat)
    } else {
        decimal(n as nat)
    }
}

pub open spec fn nullability_text(not_null: bool) -> Seq<char> {
    if not_null {
        "NOT NULL"@
    } else {
        "nullable"@
    }
}

/// The diagnostic text of a schema departure.
pub open spec fn drift_reason(d: DriftView) -> Seq<char> {
    "bouncer_resources: "@ + match d {
        DriftView::ColumnCount { found } => "expected 6 columns, found "@ + decimal(found),
        DriftView::ColumnName { position, expected, found } => "expected column `"@ + expected
            + "` at position "@ + decimal(position) + ", found `"@ + found + "`"@,
        DriftView::DeclaredType { column, expected, found } => "column `"@ + column
            + "` declared type mismatch: expected `"@ + expected + "`, found `"@ + found + "`"@,
        DriftView::NotNull { column, expected, found } => "column `"@ + column
            + "` NOT NULL mismatch: expected "@ + nullability_text(expected) + ", found "@
            + nullability_text(found),
        DriftView::PrimaryKey { column, expected, found } => "column `"@ + column
            + "` primary-key position mismatch: expected "@ + signed_decimal(expected as int)
            + ", found "@ + signed_decimal(found as int),
        DriftView::MissingTokenCheck => "missing CHECK (token >= 1)"@,
        DriftView::MissingPairCheck =>
            "missing CHECK ((owner IS NULL AND lease_expires_at_ms IS NULL) OR (owner IS NOT NULL AND lease_expires_at_ms IS NOT NULL))"@,
    }
}

fn digit_text(d: u64) -> (res: &'static str)
    requires
        d < 10,
    ensures
        res@ == seq![digit_char(d as nat)],
{
    proof {
        reveal_strlit("0");
        reveal_strlit("1");
        reveal_strlit("2");
        reveal_strlit("3");
        reveal_strlit("4");
        reveal_strlit("5");
        reveal_strlit("6");
        reveal_strlit("7");
        reveal_strlit("8");
        reveal_strlit("9");
    }
    if d == 0 {
        "0"
    } else if d == 1 {
        "1"
    } else if d == 2 {
        "2"
    } else if d == 3 {
        "3"
    } else if d == 4 {
        "4"
    } else if d == 5 {
        "5"
    } else if d == 6 {
        "6"
    } else if d == 7 {
        "7"
    } else if d == 8 {
        "8"
    } else {
        "9"
    }
}

/// Appends the decimal digits of `n` to `out`.
fn append_decimal(out: &mut String, n: u64)
    ensures
        final(out)@ == old(out)@ + decimal(n as nat),
    decreases n,
{
    if n >= 10 {
        append_decimal(out, n / 10);
        out.append(digit_text(n % 10));
        assert(decimal(n as nat) == decimal((n / 10) as nat).push(digit_char((n % 10) as nat)));
        assert(final(out)@ =~= old(out)@ + decimal(n as nat));
    } else {
        out.append(digit_text(n));
        assert(final(out)@ =~= old(out)@ + decimal(n as nat));
    }
}

/// Appends the signed decimal text of `n` to `out`.
fn append_signed_decimal(out: &mut String, n: i64)
    ensures
        final(out)@ == old(out)@ + signed_decimal(n as int),
{
    if n < 0 {
        out.append("-");
        let magnitude: u64 = (-(n as i128)) as u64;
        append_decimal(out, magnitude);
        assert(final(out)@ =~= old(out)@ + signed_decimal(n as int));
    } else {
        append_decimal(out, n as u64);
    }
}

fn nullability(not_null: bool) -> (res: &'static str)
    ensures
        res@ == nullability_text(not_null),
{
    if not_null {
        "NOT NULL"
    } else {
        "nullable"
    }
}

impl SchemaDrift {
    /// The diagnostic text of this departure.
    pub fn reason(&self) -> (res: String)
        ensures
            res@ == drift_reason(self@),
    {
        let mut out = String::new();
        out.append("bouncer_resources: ");
        let ghost head = out@;
        match self {
            SchemaDrift::ColumnCount { found } => {
                out.append("expected 6 columns, found ");
                append_decimal(&mut out, *found as u64);
            },
            SchemaDrift::ColumnName { position, expected, found } => {
                out.append("expected column `");
                out.append(expected.as_str());
                out.append("` at position ");
                append_decimal(&mut out, *position as u64);
                out.append(", found `");
                out.append(found.as_str());
                out.append("`");
            },
            SchemaDrift::DeclaredType { column, expected, found } => {
                out.append("column `");
                out.append(column.as_str());
                out.append("` declared type mismatch: expected `");
                out.append(expected.as_str());
                out.append("`, found `");
                out.append(found.as_str());
                out.append("`");
            },
            SchemaDrift::NotNull { column, expected, found } => {
                out.append("column `");
                out.append(column.as_str());
                out.append("` NOT NULL mismatch: expected ");
                out.append(nullability(*expected));
                out.append(", found ");
                out.append(nullability(*found));
            },
            SchemaDrift::PrimaryKey { column, expected, found } => {
                out.append("column `");
                out.append(column.as_str());
                out.append("` primary-key position mismatch: expected ");
                append_signed_decimal(&mut out, *expected);
                out.append(", found ");
                append_signed_decimal(&mut out, *found);
            },
            SchemaDrift::MissingTokenCheck => {
                out.append("missing CHECK (token >= 1)");
            },
            SchemaDrift::MissingPairCheck => {
                out.append(
                    "missing CHECK ((owner IS NULL AND lease_expires_at_ms IS NULL) OR (owner IS NOT NULL AND lease_expires_at_ms IS NOT NULL))",
                );
            },
        }
        assert(out@ =~= drift_reason(self@));
        out
    }
}

/// A text whose white space is single plain spaces, none at its start
/// unless the text it follows ends in something else.
pub open spec fn single_spaced(t: Seq<char>) -> bool {
    forall|i: int|
        0 <= i < t.len() ==> !is_sql_space(#[trigger] t[i]) || (t[i] == ' ' && (i == 0 || !is_sql_space(
            t[i - 1],
        )))
}

/// Collapsing white space only ever extends what it produced for a prefix.
pub proof fn lemma_collapse_prefix(s: Seq<char>, u: Seq<char>)
    ensures
        collapse_space(s).len() <= collapse_space(s + u).len(),
        collapse_space(s + u).subrange(0, collapse_space(s).len() as int) == collapse_space(s),
    decreases u.len(),
{
    if u.len() == 0 {
        assert(s + u =~= s);
    } else {
        let u1 = u.drop_last();
        lemma_collapse_prefix(s, u1);
        assert((s + u).drop_last() =~= s + u1);
        let before = collapse_space(s + u1);
        assert(collapse_space(s + u).subrange(0, before.len() as int) =~= before);
        assert(collapse_space(s + u).subrange(0, collapse_space(s).len() as int) =~= before.subrange(
            0,
            collapse_space(s).len() as int,
        ));
    }
}

/// Collapsing white space keeps a text that ends in something else than
/// white space ending in that character.
pub proof fn lemma_collapse_last(a: Seq<char>)
    requires
        a.len() > 0,
        !is_sql_space(a.last()),
    ensures
        collapse_space(a).len() > 0,
        collapse_space(a).last() == a.last(),
{
}

/// Appending a single-spaced text to one that ends in something else than
/// white space appends it unchanged to the collapsed text.
pub proof fn lemma_collapse_append_single_spaced(a: Seq<char>, t: Seq<char>)
    requires
        a.len() > 0,
        !is_sql_space(a.last()),
        single_spaced(t),
    ensures
        collapse_space(a + t) == collapse_space(a) + t,
    decreases t.len(),
{
    if t.len() == 0 {
        assert(a + t =~= a);
        assert(collapse_space(a) + t =~= collapse_space(a));
    } else {
        let t1 = t.drop_last();
        assert(single_spaced(t1)) by {
            assert forall|i: int| 0 <= i < t1.len() implies !is_sql_space(#[trigger] t1[i]) || (t1[i]
                == ' ' && (i == 0 || !is_sql_space(t1[i - 1]))) by {
                assert(t1[i] == t[i]);
                if i > 0 {
                    assert(t1[i - 1] == t[i - 1]);
                }
            }
        }
        lemma_collapse_append_single_spaced(a, t1);
        assert((a + t).drop_last() =~= a + t1);
        assert((a + t).last() == t.last());
        let before = collapse_space(a + t1);
        assert(before == collapse_space(a) + t1);
        lemma_collapse_last(a);
        let k = t.len() - 1;
        assert(t[k] == t.last());
        if is_sql_space(t.last()) {
            if k == 0 {
                assert(before.last() == a.last());
            } else {
                assert(before.last() == t1.last());
                assert(t1.last() == t[k - 1]);
            }
        }
        assert(collapse_space(a + t) =~= collapse_space(a) + t);
    }
}

} // verus!
