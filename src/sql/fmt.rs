//! Canonical formatting of SQL text.

use sql_insight::error::Error as FormatError;
use super::Error;
use super::uid::push_char;
use vstd::prelude::*;
use vstd::string::*;

verus! {

/// The statements that sql-insight reprints from `sql` in the SQLite
/// dialect, or `None` where it cannot parse `sql`.
pub uninterp spec fn reprinted_statements(sql: Seq<char>) -> Option<Seq<Seq<char>>>;

/// Relies on sql_insight::formatter::format: parses `sql` in the SQLite dialect and
/// reprints each statement; the outcome depends on the text alone.
#[verifier::external_body]
fn reprint(sql: &str) -> (r: Result<Vec<String>, FormatError>)
    ensures
        match r {
            Ok(v) => reprinted_statements(sql@) == Some(v.deep_view()),
            Err(_) => reprinted_statements(sql@) is None,
        },
{
    sql_insight::formatter::format(&sql_insight::sqlparser::dialect::SQLiteDialect {}, sql)
}

/// The statements joined by `"; "`.
pub open spec fn join_statements(st: Seq<Seq<char>>) -> Seq<char>
    decreases st.len(),
{
    if st.len() == 0 {
        seq![]
    } else if st.len() == 1 {
        st[0]
    } else {
        join_statements(st.drop_last()) + seq![';', ' '] + st.last()
    }
}

/// The canonical text of `sql`, or `None` where it does not parse.
pub open spec fn canonical_of(sql: Seq<char>) -> Option<Seq<char>> {
    match reprinted_statements(sql) {
        Some(st) => Some(join_statements(st)),
        None => None,
    }
}

/// Format SQL text: each statement reprinted, statements separated by `"; "`.
pub fn format_sql(sql: &str) -> (r: Result<String, Error>)
    ensures
        match r {
            Ok(s) => canonical_of(sql@) == Some(s@),
            Err(e) => canonical_of(sql@) is None && e is Format,
        },
{
    match reprint(sql) {
        Err(e) => Err(Error::Format(e)),
        Ok(statements) => Ok(join(&statements)),
    }
}

fn join(statements: &Vec<String>) -> (r: String)
    ensures
        r@ == join_statements(statements.deep_view()),
{
    let ghost st = statements.deep_view();
    let mut out = String::new();
    let mut i: usize = 0;
    while i < statements.len()
        invariant
            i <= statements.len(),
            st == statements.deep_view(),
            out@ == join_statements(st.subrange(0, i as int)),
        decreases statements.len() - i,
    {
        let ghost before = out@;
        if i > 0 {
            push_char(&mut out, ';');
            push_char(&mut out, ' ');
        }
        out.append(statements[i].as_str());
        proof {
            let pre = st.subrange(0, i as int + 1);
            assert(pre.drop_last() =~= st.subrange(0, i as int));
            assert(pre.last() == statements[i as int]@);
            if i == 0 {
                assert(out@ =~= pre[0]);
            } else {
                assert(out@ =~= before + seq![';', ' '] + pre.last());
            }
        }
        i = i + 1;
    }
    proof {
        assert(st.subrange(0, statements.len() as int) =~= st);
    }
    out
}

} // verus!
