//! Column-set expressions: a replacement list of column tokens joined by
//! `+`, or, starting with a sign, additions to and removals from the default
//! set; the token `default` stands for the default columns. Also the
//! automatic column-set change of a cluster-only view.

use vstd::prelude::*;
use vstd::string::StrSliceExecFns;
use crate::col::{default_cols, spec_default_cols, spec_parse_col, Col, ParseColError};
use crate::strings::str_eq;

verus! {

/// Position of the next `+` or `-` at or after `from`, or the end.
pub open spec fn spec_next_sep(s: Seq<char>, from: nat) -> int
    decreases s.len() - from,
{
    if from >= s.len() {
        s.len() as int
    } else if s[from as int] == '+' || s[from as int] == '-' {
        from as int
    } else {
        spec_next_sep(s, from + 1)
    }
}

fn next_sep(s: &str, from: usize) -> (r: usize)
    requires
        from <= s@.len(),
    ensures
        r == spec_next_sep(s@, from as nat),
        from <= r <= s@.len(),
{
    let n = s.unicode_len();
    let mut i: usize = from;
    while i < n
        invariant
            n == s@.len(),
            from <= i <= n,
            spec_next_sep(s@, from as nat) == spec_next_sep(s@, i as nat),
        decreases n - i,
    {
        let c = s.get_char(i);
        if c == '+' || c == '-' {
            return i;
        }
        i = i + 1;
    }
    n
}

/// The set with one more column, kept free of duplicates.
pub open spec fn spec_add_col(acc: Seq<Col>, c: Col) -> Seq<Col> {
    if acc.contains(c) {
        acc
    } else {
        acc.push(c)
    }
}

/// The set without one column.
pub open spec fn spec_remove_col(acc: Seq<Col>, c: Col) -> Seq<Col>
    decreases acc.len(),
{
    if acc.len() == 0 {
        Seq::empty()
    } else if acc.last() == c {
        spec_remove_col(acc.drop_last(), c)
    } else {
        spec_remove_col(acc.drop_last(), c).push(acc.last())
    }
}

/// The set with the default columns folded in, starting at position `i` of
/// the default list.
pub open spec fn spec_add_defaults(acc: Seq<Col>, i: nat) -> Seq<Col>
    decreases spec_default_cols().len() - i,
{
    if i >= spec_default_cols().len() {
        acc
    } else {
        spec_add_defaults(spec_add_col(acc, spec_default_cols()[i as int]), i + 1)
    }
}

/// The set with the default columns removed, starting at position `i` of the
/// default list.
pub open spec fn spec_remove_defaults(acc: Seq<Col>, i: nat) -> Seq<Col>
    decreases spec_default_cols().len() - i,
{
    if i >= spec_default_cols().len() {
        acc
    } else {
        spec_remove_defaults(spec_remove_col(acc, spec_default_cols()[i as int]), i + 1)
    }
}

/// One token applied to the set: `default` folds the default columns in or
/// out; any other token names one column to add or remove; an unknown token
/// fails.
pub open spec fn spec_apply_token(acc: Seq<Col>, tok: Seq<char>, add: bool) -> Option<Seq<Col>> {
    if tok == "default"@ {
        if add {
            Some(spec_add_defaults(acc, 0))
        } else {
            Some(spec_remove_defaults(acc, 0))
        }
    } else {
        match spec_parse_col(tok) {
            Some(c) => if add {
                Some(spec_add_col(acc, c))
            } else {
                Some(spec_remove_col(acc, c))
            },
            None => None,
        }
    }
}

/// The rest of a column-set expression applied to the set, one signed token
/// at a time.
pub open spec fn spec_parse_cols_from(s: Seq<char>, i: nat, add: bool, acc: Seq<Col>) -> Option<
    Seq<Col>,
>
    decreases s.len() - i,
{
    let end = spec_next_sep(s, i);
    match spec_apply_token(acc, s.subrange(i as int, end), add) {
        None => None,
        Some(acc2) => if end >= s.len() || !(i <= end) {
            Some(acc2)
        } else {
            spec_parse_cols_from(s, (end + 1) as nat, s[end] == '+', acc2)
        },
    }
}

/// The column set an expression denotes: the default set for an empty
/// expression; for one starting with a sign, the default set modified token
/// by token; otherwise the listed columns alone.
pub open spec fn spec_parse_cols(s: Seq<char>) -> Option<Seq<Col>> {
    if s.len() == 0 {
        Some(spec_default_cols())
    } else if s[0] == '+' || s[0] == '-' {
        spec_parse_cols_from(s, 1, s[0] == '+', spec_default_cols())
    } else {
        spec_parse_cols_from(s, 0, true, Seq::empty())
    }
}

/// Adds one column to the set unless it is already there.
fn add_col(acc: &mut Vec<Col>, c: Col)
    ensures
        final(acc)@ == spec_add_col(old(acc)@, c),
{
    let n = acc.len();
    let mut i: usize = 0;
    while i < n
        invariant
            n == acc@.len(),
            i <= n,
            acc@ == old(acc)@,
            forall|j: int| 0 <= j < i ==> acc@[j] != c,
        decreases n - i,
    {
        if acc[i] == c {
            proof {
                assert(acc@.contains(c));
            }
            return ;
        }
        i = i + 1;
    }
    proof {
        assert(!acc@.contains(c));
    }
    acc.push(c);
}

/// Removes every occurrence of one column from the set.
fn remove_col(acc: Vec<Col>, c: Col) -> (r: Vec<Col>)
    ensures
        r@ == spec_remove_col(acc@, c),
{
    let n = acc.len();
    let mut out: Vec<Col> = Vec::new();
    let mut i: usize = 0;
    proof {
        assert(acc@.subrange(0, 0) =~= Seq::<Col>::empty());
    }
    while i < n
        invariant
            n == acc@.len(),
            i <= n,
            out@ == spec_remove_col(acc@.subrange(0, i as int), c),
        decreases n - i,
    {
        proof {
            assert(acc@.subrange(0, i + 1 as int).drop_last() =~= acc@.subrange(0, i as int));
            assert(acc@.subrange(0, i + 1 as int).last() == acc@[i as int]);
        }
        if !(acc[i] == c) {
            out.push(acc[i]);
        }
        i = i + 1;
    }
    proof {
        assert(acc@.subrange(0, n as int) =~= acc@);
    }
    out
}

/// Folds the default columns into the set.
fn add_defaults(acc: &mut Vec<Col>)
    ensures
        final(acc)@ == spec_add_defaults(old(acc)@, 0),
{
    let defaults = default_cols();
    let n = defaults.len();
    let mut i: usize = 0;
    while i < n
        invariant
            n == spec_default_cols().len(),
            defaults@ == spec_default_cols(),
            i <= n,
            spec_add_defaults(acc@, i as nat) == spec_add_defaults(old(acc)@, 0),
        decreases n - i,
    {
        add_col(acc, defaults[i]);
        i = i + 1;
    }
}

/// Folds the default columns out of the set.
fn remove_defaults(acc: Vec<Col>) -> (r: Vec<Col>)
    ensures
        r@ == spec_remove_defaults(acc@, 0),
{
    let defaults = default_cols();
    let n = defaults.len();
    let mut out = acc;
    let mut i: usize = 0;
    while i < n
        invariant
            n == spec_default_cols().len(),
            defaults@ == spec_default_cols(),
            i <= n,
            spec_remove_defaults(out@, i as nat) == spec_remove_defaults(acc@, 0),
        decreases n - i,
    {
        out = remove_col(out, defaults[i]);
        i = i + 1;
    }
    out
}

/// Applies one token to the set.
fn apply_token(acc: Vec<Col>, tok: &str, add: bool) -> (r: Result<Vec<Col>, ParseColError>)
    ensures
        match r {
            Ok(v) => spec_apply_token(acc@, tok@, add) == Some(v@),
            Err(e) => spec_apply_token(acc@, tok@, add) is None && e.raw@ == tok@,
        },
{
    if str_eq(tok, "default") {
        if add {
            let mut out = acc;
            add_defaults(&mut out);
            Ok(out)
        } else {
            Ok(remove_defaults(acc))
        }
    } else {
        match Col::parse(tok) {
            Ok(c) => {
                if add {
                    let mut out = acc;
                    add_col(&mut out, c);
                    Ok(out)
                } else {
                    Ok(remove_col(acc, c))
                }
            },
            Err(e) => Err(e),
        }
    }
}

/// Parses a whole column-set expression.
pub fn parse_cols(s: &str) -> (r: Result<Vec<Col>, ParseColError>)
    ensures
        match r {
            Ok(v) => spec_parse_cols(s@) == Some(v@),
            Err(e) => spec_parse_cols(s@) is None && spec_parse_col(e.raw@) is None,
        },
{
    let n = s.unicode_len();
    if n == 0 {
        return Ok(default_cols());
    }
    let c0 = s.get_char(0);
    let mut i: usize = if c0 == '+' || c0 == '-' {
        1
    } else {
        0
    };
    let mut add: bool = if c0 == '+' || c0 == '-' {
        c0 == '+'
    } else {
        true
    };
    let mut acc: Vec<Col> = if c0 == '+' || c0 == '-' {
        default_cols()
    } else {
        Vec::new()
    };
    let ghost target = spec_parse_cols(s@);
    proof {
        assert(target == spec_parse_cols_from(s@, i as nat, add, acc@));
    }
    loop
        invariant
            n == s@.len(),
            n > 0,
            i <= n,
            target == spec_parse_cols(s@),
            target == spec_parse_cols_from(s@, i as nat, add, acc@),
        decreases n - i,
    {
        let end = next_sep(s, i);
        let tok = s.substring_char(i, end);
        proof {
            assert(tok@ =~= s@.subrange(i as int, end as int));
        }
        let applied = match apply_token(acc, tok, add) {
            Ok(v) => v,
            Err(e) => {
                proof {
                    assert(target is None);
                }
                return Err(e);
            },
        };
        acc = applied;
        if end >= n {
            proof {
                assert(target == Some(acc@));
            }
            return Ok(acc);
        }
        add = s.get_char(end) == '+';
        i = end + 1;
    }
}

/// The column set a cluster-only view shows by default.
pub open spec fn spec_lustre_default_cols() -> Seq<Col> {
    seq![Col::Filesystem, Col::Used, Col::Use, Col::Free, Col::Size, Col::FsName]
}

pub fn lustre_default_cols() -> (r: Vec<Col>)
    ensures
        r@ == spec_lustre_default_cols(),
{
    let mut v: Vec<Col> = Vec::new();
    v.push(Col::Filesystem);
    v.push(Col::Used);
    v.push(Col::Use);
    v.push(Col::Free);
    v.push(Col::Size);
    v.push(Col::FsName);
    proof {
        assert(v@ =~= spec_lustre_default_cols());
    }
    v
}

/// The automatic column-set change of a cluster-only view: a column set left
/// at its default is turned into the cluster-specific default; any set the
/// user chose is kept.
pub fn adjust_cols_for_cluster_view(cols: &Vec<Col>) -> (r: Option<Vec<Col>>)
    ensures
        cols@ == spec_default_cols() ==> (r matches Some(v) && v@ == spec_lustre_default_cols()),
        cols@ != spec_default_cols() ==> r is None,
{
    let defaults = default_cols();
    if cols.len() != defaults.len() {
        proof {
            assert(cols@ != spec_default_cols());
        }
        return None;
    }
    let n = cols.len();
    let mut i: usize = 0;
    while i < n
        invariant
            n == cols@.len(),
            n == defaults@.len(),
            defaults@ == spec_default_cols(),
            i <= n,
            forall|j: int| 0 <= j < i ==> cols@[j] == defaults@[j],
        decreases n - i,
    {
        if !(cols[i] == defaults[i]) {
            proof {
                assert(cols@ != spec_default_cols());
            }
            return None;
        }
        i = i + 1;
    }
    proof {
        assert(cols@ =~= spec_default_cols());
    }
    Some(lustre_default_cols())
}

} // verus!
