//! What the command-line program decides: the settings an env file makes,
//! when the chat ends, and how a plan is listed.

use vstd::prelude::*;
use vstd::string::StringExecFns;
use crate::text::{
    find_char, from_chars, lemma_find_char_at, lines, lines_of, lowercase, own, slice_range, str_eq,
    to_chars, to_lowercase, trim, trim_chars,
};
use crate::ynab::types::Plan;

verus! {

/// The setting a line of an env file makes: none for a blank line, a comment
/// (`#`) or a line without `=`; otherwise the trimmed text before the first
/// `=` and the trimmed text after it.
pub open spec fn env_entry(line: Seq<char>) -> Option<(Seq<char>, Seq<char>)> {
    let t = trim(line);
    let k = find_char(t, '=') as int;
    if t.len() == 0 || t[0] == '#' || k >= t.len() {
        None
    } else {
        Some((trim(t.take(k)), trim(t.skip(k + 1))))
    }
}

/// The settings the lines `ls` make, in order.
pub open spec fn env_entries(ls: Seq<Seq<char>>) -> Seq<(Seq<char>, Seq<char>)>
    decreases ls.len(),
{
    if ls.len() == 0 {
        Seq::empty()
    } else {
        let rest = env_entries(ls.drop_last());
        match env_entry(ls.last()) {
            Some(e) => rest.push(e),
            None => rest,
        }
    }
}

/// The settings as plain values.
pub open spec fn pair_views(v: Seq<(String, String)>) -> Seq<(Seq<char>, Seq<char>)> {
    v.map_values(|p: (String, String)| (p.0@, p.1@))
}

/// The setting one line makes.
fn line_entry(line: &[char]) -> (r: Option<(String, String)>)
    ensures
        match r {
            Some(p) => env_entry(line@) == Some((p.0@, p.1@)),
            None => env_entry(line@) is None,
        },
{
    let t = trim_chars(line);
    if t.len() == 0 || t[0] == '#' {
        return None;
    }
    let n = t.len();
    let mut k: usize = 0;
    while k < n && t[k] != '='
        invariant
            k <= n,
            n == t@.len(),
            forall|j: int| 0 <= j < k ==> t@[j] != '=',
        decreases n - k,
    {
        k = k + 1;
    }
    proof {
        lemma_find_char_at(t@, '=', k as int);
    }
    if k == n {
        return None;
    }
    let key = trim_chars(slice_range(t.as_slice(), 0, k).as_slice());
    let value = trim_chars(slice_range(t.as_slice(), k + 1, n).as_slice());
    assert(t@.subrange(0, k as int) == t@.take(k as int));
    assert(t@.subrange(k + 1, n as int) == t@.skip(k + 1));
    Some((from_chars(key.as_slice()), from_chars(value.as_slice())))
}

/// The settings in an env file's text: one per `KEY=value` line, in order;
/// blank lines, `#` comments and lines without `=` make none.
pub fn env_assignments(content: &str) -> (r: Vec<(String, String)>)
    ensures
        pair_views(r@) == env_entries(lines(content@)),
{
    let chars = to_chars(content);
    let ls = lines_of(chars.as_slice());
    let ghost lv = ls@.map_values(|l: Vec<char>| l@);
    let mut out: Vec<(String, String)> = Vec::new();
    let n = ls.len();
    let mut i: usize = 0;
    assert(lv.take(0) =~= Seq::<Seq<char>>::empty());
    assert(pair_views(out@) =~= Seq::<(Seq<char>, Seq<char>)>::empty());
    while i < n
        invariant
            i <= n,
            n == ls@.len(),
            lv == ls@.map_values(|l: Vec<char>| l@),
            pair_views(out@) == env_entries(lv.take(i as int)),
        decreases n - i,
    {
        assert(lv.take(i + 1).drop_last() == lv.take(i as int));
        assert(lv.take(i + 1).last() == ls@[i as int]@);
        let ghost before = out@;
        match line_entry(ls[i].as_slice()) {
            Some(p) => {
                out.push(p);
                assert(pair_views(out@) =~= pair_views(before).push((p.0@, p.1@)));
            },
            None => {},
        }
        i = i + 1;
    }
    assert(lv.take(n as int) == lv);
    out
}

/// The query a line typed in the chat makes, trimmed; `None` when the line is
/// blank or says `exit` in any case, which ends the chat.
pub fn chat_input(line: &str) -> (r: Option<String>)
    ensures
        ({
            let t = trim(line@);
            if t.len() == 0 || lowercase(t) == "exit"@ {
                r is None
            } else {
                r matches Some(q) && q@ == t
            }
        }),
{
    let chars = to_chars(line);
    let t = trim_chars(chars.as_slice());
    if t.len() == 0 {
        return None;
    }
    let ts = from_chars(t.as_slice());
    let lower = to_lowercase(ts.as_str());
    if str_eq(lower.as_str(), "exit") {
        return None;
    }
    Some(ts)
}

/// How `list-plans` shows a plan: `  {name} - {id}`.
pub fn plan_line(plan: &Plan) -> (r: String)
    ensures
        r@ == "  "@ + plan.name@ + " - "@ + plan.id@,
{
    let mut r = own("  ");
    r.append(plan.name.as_str());
    r.append(" - ");
    r.append(plan.id.as_str());
    r
}

} // verus!
