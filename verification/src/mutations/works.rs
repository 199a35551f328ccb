//! Work lookups: the arguments of a work search, the id list handed to the
//! database, and how result rows are keyed, grouped and joined.
use vstd::prelude::*;

use crate::text::{text_uppercase, to_uppercase};
use crate::types::IpiNameNum;

verus! {

/// A work lookup: by ISWC (in its printed form), or by track title and
/// artist.
#[derive(Debug)]
pub enum WorkSearch {
    Iswc(String),
    Track { title: String, artist: String },
}

/// The filters of a work search. Each filter that is set must match; `limit`
/// and `offset` page through the matches (`offset` counts pages).
#[derive(Debug)]
pub struct WorkSearchParams {
    /// The work's ISWC, in its printed form.
    pub iswc: Option<String>,
    /// The ISRC of a recording of the work, in its printed form.
    pub isrc: Option<String>,
    pub title: Option<String>,
    pub artist: Option<String>,
    pub party_ipi: Option<IpiNameNum>,
    pub limit: usize,
    pub offset: usize,
}

impl Default for WorkSearchParams {
    fn default() -> (r: Self)
        ensures
            r.iswc.is_none(),
            r.isrc.is_none(),
            r.title.is_none(),
            r.artist.is_none(),
            r.party_ipi.is_none(),
            r.limit == 0,
            r.offset == 0,
    {
        WorkSearchParams {
            iswc: None,
            isrc: None,
            title: None,
            artist: None,
            party_ipi: None,
            limit: 0,
            offset: 0,
        }
    }
}

/// The arguments of the work search statement, in its parameter order.
#[derive(Debug)]
pub struct WorkSearchArgs {
    pub iswc: Option<String>,
    pub title: Option<String>,
    pub artist: Option<String>,
    pub isrc: Option<String>,
    pub party_ipi: Option<i64>,
    pub limit: i64,
    pub offset: i64,
}

/// An optional text, upper-cased when present.
pub open spec fn spec_upper_opt(o: Option<String>, r: Option<String>) -> bool {
    match o {
        Some(s) => r matches Some(u) && u@ == text_uppercase(s@),
        None => r.is_none(),
    }
}

fn upper_opt(o: Option<String>) -> (r: Option<String>)
    ensures
        spec_upper_opt(o, r),
        o.is_none() ==> r.is_none(),
        o matches Some(s) ==> (r matches Some(u) && u@ == text_uppercase(s@)),
{
    match o {
        Some(s) => Some(to_uppercase(s.as_str())),
        None => None,
    }
}

/// An unset title or artist filter stays unset (so the statement does not
/// filter on it), and a set one is passed upper-cased.
pub proof fn lemma_upper_opt_keeps_unset_filters(o: Option<String>, r: Option<String>)
    requires
        spec_upper_opt(o, r),
    ensures
        o.is_none() <==> r.is_none(),
        o matches Some(s) ==> (r matches Some(u) && u@ == text_uppercase(s@)),
{
}

/// The arguments that a work search runs with: title and artist are matched
/// upper-cased, the IPI as a signed integer, and the row offset is the page
/// number times the page size.
pub fn work_search_args(q: WorkSearchParams) -> (r: WorkSearchArgs)
    requires
        q.offset * q.limit <= usize::MAX,
    ensures
        r.iswc == q.iswc,
        r.isrc == q.isrc,
        spec_upper_opt(q.title, r.title),
        spec_upper_opt(q.artist, r.artist),
        q.title.is_none() ==> r.title.is_none(),
        q.artist.is_none() ==> r.artist.is_none(),
        q.title matches Some(t) ==> (r.title matches Some(u) && u@ == text_uppercase(t@)),
        q.artist matches Some(a) ==> (r.artist matches Some(u) && u@ == text_uppercase(a@)),
        r.party_ipi == (match q.party_ipi {
            Some(i) => Some(i.0 as i64),
            None => None::<i64>,
        }),
        r.limit == q.limit as i64,
        r.offset == (q.offset * q.limit) as i64,
{
    let party_ipi = match q.party_ipi {
        Some(i) => Some(i.0 as i64),
        None => None,
    };
    let offset: usize = q.offset * q.limit;
    WorkSearchArgs {
        iswc: q.iswc,
        title: upper_opt(q.title),
        artist: upper_opt(q.artist),
        isrc: q.isrc,
        party_ipi,
        limit: q.limit as i64,
        offset: offset as i64,
    }
}

/// A lower-case hexadecimal digit.
pub open spec fn hex_digit(n: int) -> char {
    if n < 10 {
        (('0' as int) + n) as char
    } else {
        (('a' as int) + n - 10) as char
    }
}

/// How one character is written inside a JSON string: `"` and `\` behind a
/// backslash; backspace, form feed, line feed, carriage return and tab as
/// `\b \f \n \r \t`; any other control character below U+0020 as
/// `\u00xx` with lower-case hex digits; every other character as itself.
pub open spec fn json_escape_char(c: char) -> Seq<char> {
    if c == '"' {
        seq!['\\', '"']
    } else if c == '\\' {
        seq!['\\', '\\']
    } else if c == '\u{8}' {
        seq!['\\', 'b']
    } else if c == '\u{c}' {
        seq!['\\', 'f']
    } else if c == '\n' {
        seq!['\\', 'n']
    } else if c == '\r' {
        seq!['\\', 'r']
    } else if c == '\t' {
        seq!['\\', 't']
    } else if (c as int) < 0x20 {
        seq!['\\', 'u', '0', '0', hex_digit((c as int) / 16), hex_digit((c as int) % 16)]
    } else {
        seq![c]
    }
}

/// The escaped characters of a text, in order.
pub open spec fn json_escape_text(s: Seq<char>) -> Seq<char>
    decreases s.len(),
{
    if s.len() == 0 {
        Seq::empty()
    } else {
        json_escape_text(s.drop_last()) + json_escape_char(s.last())
    }
}

/// A text as a JSON string: its escaped characters between double quotes.
pub open spec fn json_string(s: Seq<char>) -> Seq<char> {
    seq!['"'] + json_escape_text(s) + seq!['"']
}

/// The JSON strings of a list of texts, separated by commas.
pub open spec fn json_string_list(items: Seq<Seq<char>>) -> Seq<char>
    decreases items.len(),
{
    if items.len() == 0 {
        Seq::empty()
    } else if items.len() == 1 {
        json_string(items[0])
    } else {
        json_string_list(items.drop_last()) + seq![','] + json_string(items.last())
    }
}

/// What `serde_json` writes for a list of strings: the compact JSON array of
/// those strings, `[` then the strings separated by commas then `]`, with no
/// white space.
pub open spec fn json_text_array(items: Seq<Seq<char>>) -> Seq<char> {
    seq!['['] + json_string_list(items) + seq![']']
}

/// Calls `serde_json::Value::from` on the list and `to_string` on the value.
/// Claims that the text is the compact JSON array of the strings of the list,
/// escaped as `serde_json`'s compact formatter escapes them
/// (`json_text_array`).
#[verifier::external_body]
fn to_json_text_array(items: &[String]) -> (r: String)
    ensures
        r@ == json_text_array(items.deep_view()),
{
    serde_json::Value::from(items.to_vec()).to_string()
}

/// The argument of a lookup by work ids: `None` for no ids (the lookup then
/// returns nothing without reaching the database), else the JSON array of the
/// ids.
pub fn work_ids_json(ids: &[String]) -> (r: Option<String>)
    ensures
        ids@.len() == 0 <==> r.is_none(),
        r matches Some(s) ==> s@ == json_text_array(ids.deep_view()),
{
    if ids.len() == 0 {
        None
    } else {
        Some(to_json_text_array(ids))
    }
}

/// The values of the rows whose key is `k`, in row order.
pub open spec fn values_with_key<V>(rows: Seq<(String, V)>, k: Seq<char>) -> Seq<V>
    decreases rows.len(),
{
    if rows.len() == 0 {
        Seq::empty()
    } else {
        let prev = values_with_key(rows.drop_last(), k);
        if rows.last().0@ == k {
            prev.push(rows.last().1)
        } else {
            prev
        }
    }
}

/// No two entries carry the same key.
pub open spec fn keys_distinct<V>(entries: Seq<(String, V)>) -> bool {
    forall|i: int, j: int|
        0 <= i < entries.len() && 0 <= j < entries.len() && i != j ==> (#[trigger] entries[i]).0@
            != (#[trigger] entries[j]).0@
}

/// Some entry carries the key `k`.
pub open spec fn has_key<V>(entries: Seq<(String, V)>, k: Seq<char>) -> bool {
    exists|j: int| 0 <= j < entries.len() && (#[trigger] entries[j]).0@ == k
}

proof fn lemma_values_with_key_push<V>(rows: Seq<(String, V)>, row: (String, V), k: Seq<char>)
    ensures
        values_with_key(rows.push(row), k) == (if row.0@ == k {
            values_with_key(rows, k).push(row.1)
        } else {
            values_with_key(rows, k)
        }),
{
    assert(rows.push(row).drop_last() =~= rows);
}

proof fn lemma_values_with_key_absent<V>(rows: Seq<(String, V)>, k: Seq<char>)
    requires
        !has_key(rows, k),
    ensures
        values_with_key(rows, k) == Seq::<V>::empty(),
    decreases rows.len(),
{
    if rows.len() > 0 {
        assert(!has_key(rows.drop_last(), k)) by {
            if has_key(rows.drop_last(), k) {
                let j = choose|j: int|
                    0 <= j < rows.drop_last().len() && (#[trigger] rows.drop_last()[j]).0@ == k;
                assert(rows[j] == rows.drop_last()[j]);
            }
        }
        lemma_values_with_key_absent(rows.drop_last(), k);
        assert(rows[rows.len() - 1] == rows.last());
    }
}

/// Groups rows by key (a result row per work and party, say): one group per
/// distinct key, holding the values of the rows with that key in row order.
pub fn group_by_key<V>(rows: Vec<(String, V)>) -> (r: Vec<(String, Vec<V>)>)
    ensures
        keys_distinct(r@),
        forall|k: Seq<char>| has_key(r@, k) <==> has_key(rows@, k),
        forall|j: int|
            0 <= j < r@.len() ==> (#[trigger] r@[j]).1@ == values_with_key(rows@, r@[j].0@),
{
    let ghost orig = rows@;
    let mut rows = rows;
    let mut groups: Vec<(String, Vec<V>)> = Vec::new();
    let n = rows.len();
    let mut i: usize = 0;
    while i < n
        invariant
            i <= n,
            n == orig.len(),
            rows@ == orig.skip(i as int),
            keys_distinct(groups@),
            forall|k: Seq<char>| has_key(groups@, k) <==> has_key(orig.take(i as int), k),
            forall|j: int|
                0 <= j < groups@.len() ==> (#[trigger] groups@[j]).1@ == values_with_key(
                    orig.take(i as int),
                    groups@[j].0@,
                ),
        decreases n - i,
    {
        let ghost before = groups@;
        let row = rows.remove(0);
        assert(row == orig[i as int]);
        assert(rows@ =~= orig.skip(i + 1));
        let ghost taken = orig.take(i as int);
        assert(orig.take(i + 1) =~= taken.push(row));
        assert(forall|key: Seq<char>| has_key(before, key) <==> has_key(taken, key));
        assert(forall|m: int|
            0 <= m < before.len() ==> (#[trigger] before[m]).1@ == values_with_key(
                taken,
                before[m].0@,
            ));
        let (k, v) = row;
        let mut found: Option<usize> = None;
        let mut j: usize = 0;
        while found.is_none() && j < groups.len()
            invariant
                j <= groups@.len(),
                groups@ == before,
                found matches Some(x) ==> x < groups@.len() && groups@[x as int].0@ == k@,
                found.is_none() ==> forall|m: int| 0 <= m < j ==> (#[trigger] groups@[m]).0@ != k@,
            decreases groups@.len() - j + (if found.is_none() { 1int } else { 0int }),
        {
            if groups[j].0 == k {
                found = Some(j);
            } else {
                j = j + 1;
            }
        }
        proof {
            lemma_values_with_key_push(taken, row, k@);
        }
        match found {
            Some(j) => {
                assert(groups@[j as int].0@ == k@);
                groups[j].1.push(v);
                assert forall|m: int| 0 <= m < groups@.len() implies (#[trigger] groups@[m]).1@
                    == values_with_key(orig.take(i + 1), groups@[m].0@) by {
                    lemma_values_with_key_push(taken, row, groups@[m].0@);
                    if m != j {
                        assert(groups@[m] == before[m]);
                    }
                }
                assert forall|key: Seq<char>| has_key(groups@, key) <==> has_key(
                    orig.take(i + 1),
                    key,
                ) by {
                    if has_key(groups@, key) {
                        let m = choose|m: int|
                            0 <= m < groups@.len() && (#[trigger] groups@[m]).0@ == key;
                        assert(before[m].0@ == key);
                        assert(has_key(before, key));
                        let t = choose|t: int|
                            0 <= t < taken.len() && (#[trigger] taken[t]).0@ == key;
                        assert(orig.take(i + 1)[t] == taken[t]);
                    }
                    if has_key(orig.take(i + 1), key) {
                        let t = choose|t: int|
                            0 <= t < orig.take(i + 1).len() && (#[trigger] orig.take(
                                i + 1,
                            )[t]).0@ == key;
                        if t < i {
                            assert(taken[t] == orig.take(i + 1)[t]);
                            assert(has_key(taken, key));
                            let m = choose|m: int|
                                0 <= m < before.len() && (#[trigger] before[m]).0@ == key;
                            assert(groups@[m].0@ == key);
                        } else {
                            assert(groups@[j as int].0@ == key);
                        }
                    }
                }
                assert(keys_distinct(groups@)) by {
                    assert forall|a: int, b: int|
                        0 <= a < groups@.len() && 0 <= b < groups@.len() && a != b implies (
                    #[trigger] groups@[a]).0@ != (#[trigger] groups@[b]).0@ by {
                        assert(groups@[a].0 == before[a].0);
                        assert(groups@[b].0 == before[b].0);
                    }
                }
            },
            None => {
                assert(!has_key(taken, k@)) by {
                    if has_key(taken, k@) {
                        let t = choose|t: int|
                            0 <= t < taken.len() && (#[trigger] taken[t]).0@ == k@;
                        assert(has_key(before, k@));
                        let m = choose|m: int|
                            0 <= m < before.len() && (#[trigger] before[m]).0@ == k@;
                    }
                }
                proof {
                    lemma_values_with_key_absent(taken, k@);
                }
                let mut vals: Vec<V> = Vec::new();
                vals.push(v);
                assert(vals@ =~= Seq::<V>::empty().push(v));
                groups.push((k, vals));
                assert forall|m: int| 0 <= m < groups@.len() implies (#[trigger] groups@[m]).1@
                    == values_with_key(orig.take(i + 1), groups@[m].0@) by {
                    lemma_values_with_key_push(taken, row, groups@[m].0@);
                    if m < before.len() {
                        assert(groups@[m] == before[m]);
                    }
                }
                assert forall|key: Seq<char>| has_key(groups@, key) <==> has_key(
                    orig.take(i + 1),
                    key,
                ) by {
                    if has_key(groups@, key) {
                        let m = choose|m: int|
                            0 <= m < groups@.len() && (#[trigger] groups@[m]).0@ == key;
                        if m < before.len() {
                            assert(before[m] == groups@[m]);
                            assert(has_key(before, key));
                            let t = choose|t: int|
                                0 <= t < taken.len() && (#[trigger] taken[t]).0@ == key;
                            assert(orig.take(i + 1)[t] == taken[t]);
                        } else {
                            assert(orig.take(i + 1)[i as int] == row);
                        }
                    }
                    if has_key(orig.take(i + 1), key) {
                        let t = choose|t: int|
                            0 <= t < orig.take(i + 1).len() && (#[trigger] orig.take(
                                i + 1,
                            )[t]).0@ == key;
                        if t < i {
                            assert(taken[t] == orig.take(i + 1)[t]);
                            assert(has_key(taken, key));
                            let m = choose|m: int|
                                0 <= m < before.len() && (#[trigger] before[m]).0@ == key;
                            assert(groups@[m] == before[m]);
                        } else {
                            assert(groups@[before.len() as int].0@ == key);
                        }
                    }
                }
                assert(keys_distinct(groups@)) by {
                    assert forall|a: int, b: int|
                        0 <= a < groups@.len() && 0 <= b < groups@.len() && a != b implies (
                    #[trigger] groups@[a]).0@ != (#[trigger] groups@[b]).0@ by {
                        if a < before.len() && b < before.len() {
                            assert(groups@[a] == before[a]);
                            assert(groups@[b] == before[b]);
                        } else if a < before.len() {
                            assert(groups@[a] == before[a]);
                        } else {
                            assert(groups@[b] == before[b]);
                        }
                    }
                }
            },
        }
        i = i + 1;
    }
    assert(orig.take(n as int) =~= orig);
    groups
}

proof fn lemma_values_with_key_present<V>(rows: Seq<(String, V)>, k: Seq<char>)
    requires
        has_key(rows, k),
    ensures
        values_with_key(rows, k).len() > 0,
    decreases rows.len(),
{
    let t = choose|t: int| 0 <= t < rows.len() && (#[trigger] rows[t]).0@ == k;
    if rows.last().0@ != k {
        assert(t < rows.len() - 1);
        assert(rows.drop_last()[t] == rows[t]);
        assert(has_key(rows.drop_last(), k));
        lemma_values_with_key_present(rows.drop_last(), k);
    }
}

/// Keeps one entry per key: the value of the last row with that key, as a
/// map keyed by work id keeps the last work inserted under an id.
pub fn keep_last_by_key<W>(rows: Vec<(String, W)>) -> (r: Vec<(String, W)>)
    ensures
        keys_distinct(r@),
        forall|k: Seq<char>| has_key(r@, k) <==> has_key(rows@, k),
        forall|j: int|
            0 <= j < r@.len() ==> (#[trigger] r@[j]).1 == values_with_key(rows@, r@[j].0@).last(),
{
    let ghost orig = rows@;
    let mut groups = group_by_key(rows);
    let ghost all = groups@;
    let n = groups.len();
    let mut out: Vec<(String, W)> = Vec::new();
    let mut i: usize = 0;
    while i < n
        invariant
            i <= n,
            n == all.len(),
            groups@ == all.skip(i as int),
            out@.len() == i,
            keys_distinct(all),
            forall|j: int| 0 <= j < i ==> (#[trigger] out@[j]).0@ == all[j].0@,
            forall|j: int|
                0 <= j < i ==> (#[trigger] out@[j]).1 == values_with_key(orig, all[j].0@).last(),
            forall|k: Seq<char>| has_key(all, k) <==> has_key(orig, k),
            forall|j: int|
                0 <= j < all.len() ==> (#[trigger] all[j]).1@ == values_with_key(orig, all[j].0@),
        decreases n - i,
    {
        let (k, mut vals) = groups.remove(0);
        assert(all[i as int] == (k, vals));
        assert(groups@ =~= all.skip(i + 1));
        assert(has_key(all, k@));
        proof {
            lemma_values_with_key_present(orig, k@);
        }
        match vals.pop() {
            Some(v) => {
                out.push((k, v));
            },
            None => {
                assert(false);
            },
        }
        i = i + 1;
    }
    assert forall|k: Seq<char>| has_key(out@, k) <==> has_key(all, k) by {
        if has_key(out@, k) {
            let j = choose|j: int| 0 <= j < out@.len() && (#[trigger] out@[j]).0@ == k;
            assert(all[j].0@ == k);
        }
        if has_key(all, k) {
            let j = choose|j: int| 0 <= j < all.len() && (#[trigger] all[j]).0@ == k;
            assert(out@[j].0@ == k);
        }
    }
    assert(keys_distinct(out@)) by {
        assert forall|a: int, b: int|
            0 <= a < out@.len() && 0 <= b < out@.len() && a != b implies (
        #[trigger] out@[a]).0@ != (#[trigger] out@[b]).0@ by {
            assert(out@[a].0@ == all[a].0@);
            assert(out@[b].0@ == all[b].0@);
        }
    }
    out
}

/// The values of the group with key `k`; empty when no group has it.
pub open spec fn group_for<P>(groups: Seq<(String, Vec<P>)>, k: Seq<char>) -> Seq<P> {
    if has_key(groups, k) {
        groups[choose|j: int| 0 <= j < groups.len() && (#[trigger] groups[j]).0@ == k].1@
    } else {
        Seq::empty()
    }
}

proof fn lemma_group_for_at<P>(groups: Seq<(String, Vec<P>)>, j: int)
    requires
        keys_distinct(groups),
        0 <= j < groups.len(),
    ensures
        group_for(groups, groups[j].0@) == groups[j].1@,
{
    let k = groups[j].0@;
    assert(has_key(groups, k));
    let c = choose|c: int| 0 <= c < groups.len() && (#[trigger] groups[c]).0@ == k;
    assert(c == j);
}

/// Some entry before position `i` carries the key `k`.
pub open spec fn key_seen_before<W>(works: Seq<(String, W)>, i: int, k: Seq<char>) -> bool {
    exists|j: int| 0 <= j < i && (#[trigger] works[j]).0@ == k
}

/// Joins each work with the group that carries its id, as a lookup that
/// removes the group it hands out: the first work with an id gets that id's
/// group (empty when there is none), a later work with the same id gets an
/// empty one.
pub fn attach_groups<W, P>(works: Vec<(String, W)>, groups: Vec<(String, Vec<P>)>) -> (r: Vec<
    (W, Vec<P>),
>)
    requires
        keys_distinct(groups@),
    ensures
        r@.len() == works@.len(),
        forall|i: int|
            0 <= i < r@.len() ==> {
                &&& (#[trigger] r@[i]).0 == works@[i].1
                &&& r@[i].1@ == (if key_seen_before(works@, i, works@[i].0@) {
                    Seq::<P>::empty()
                } else {
                    group_for(groups@, works@[i].0@)
                })
            },
{
    let ghost ws = works@;
    let ghost gs = groups@;
    let mut works = works;
    let mut groups = groups;
    let n = works.len();
    let mut out: Vec<(W, Vec<P>)> = Vec::new();
    let mut i: usize = 0;
    while i < n
        invariant
            i <= n,
            n == ws.len(),
            works@ == ws.skip(i as int),
            out@.len() == i,
            keys_distinct(gs),
            keys_distinct(groups@),
            forall|k: Seq<char>|
                #[trigger] has_key(groups@, k) ==> has_key(gs, k) && !key_seen_before(
                    ws,
                    i as int,
                    k,
                ),
            forall|k: Seq<char>|
                has_key(gs, k) && !key_seen_before(ws, i as int, k) ==> #[trigger] has_key(
                    groups@,
                    k,
                ) && group_for(groups@, k) == group_for(gs, k),
            forall|t: int|
                0 <= t < i ==> {
                    &&& (#[trigger] out@[t]).0 == ws[t].1
                    &&& out@[t].1@ == (if key_seen_before(ws, t, ws[t].0@) {
                        Seq::<P>::empty()
                    } else {
                        group_for(gs, ws[t].0@)
                    })
                },
        decreases n - i,
    {
        let ghost before = groups@;
        let (k, w) = works.remove(0);
        assert(ws[i as int] == (k, w));
        assert(works@ =~= ws.skip(i + 1));
        let mut found: Option<usize> = None;
        let mut j: usize = 0;
        while found.is_none() && j < groups.len()
            invariant
                j <= groups@.len(),
                groups@ == before,
                found matches Some(x) ==> x < groups@.len() && groups@[x as int].0@ == k@,
                found.is_none() ==> forall|m: int| 0 <= m < j ==> (#[trigger] groups@[m]).0@ != k@,
            decreases groups@.len() - j + (if found.is_none() {
                1int
            } else {
                0int
            }),
        {
            if groups[j].0 == k {
                found = Some(j);
            } else {
                j = j + 1;
            }
        }
        match found {
            Some(x) => {
                proof {
                    lemma_group_for_at(before, x as int);
                    assert(has_key(before, k@));
                }
                let (_, vals) = groups.remove(x);
                assert(!key_seen_before(ws, i as int, k@));
                assert(vals@ == group_for(gs, k@));
                out.push((w, vals));
                proof {
                    assert forall|a: int, b: int|
                        0 <= a < groups@.len() && 0 <= b < groups@.len() && a != b implies (
                    #[trigger] groups@[a]).0@ != (#[trigger] groups@[b]).0@ by {
                        let a0 = if a < x {
                            a
                        } else {
                            a + 1
                        };
                        let b0 = if b < x {
                            b
                        } else {
                            b + 1
                        };
                        assert(groups@[a] == before[a0]);
                        assert(groups@[b] == before[b0]);
                    }
                }
            },
            None => {
                proof {
                    if has_key(before, k@) {
                        let m = choose|m: int|
                            0 <= m < before.len() && (#[trigger] before[m]).0@ == k@;
                    }
                    if has_key(gs, k@) && !key_seen_before(ws, i as int, k@) {
                        assert(has_key(before, k@));
                    }
                }
                out.push((w, Vec::new()));
            },
        }
        proof {
            assert forall|key: Seq<char>|
                key_seen_before(ws, i + 1, key) == (key_seen_before(ws, i as int, key) || key
                    == k@) by {
                if key_seen_before(ws, i + 1, key) && !key_seen_before(ws, i as int, key) {
                    let t = choose|t: int| 0 <= t < i + 1 && (#[trigger] ws[t]).0@ == key;
                    assert(t == i);
                }
                if key == k@ {
                    assert(ws[i as int].0@ == key);
                }
                if key_seen_before(ws, i as int, key) {
                    let t = choose|t: int| 0 <= t < i && (#[trigger] ws[t]).0@ == key;
                    assert(ws[t].0@ == key);
                }
            }
            assert forall|key: Seq<char>| #[trigger]
                has_key(groups@, key) implies has_key(gs, key) && !key_seen_before(
                ws,
                i + 1,
                key,
            ) by {
                let m = choose|m: int| 0 <= m < groups@.len() && (#[trigger] groups@[m]).0@ == key;
                match found {
                    Some(x) => {
                        let m0 = if m < x {
                            m
                        } else {
                            m + 1
                        };
                        assert(groups@[m] == before[m0]);
                        assert(has_key(before, key));
                        assert(key != k@);
                    },
                    None => {
                        assert(groups@[m] == before[m]);
                        assert(has_key(before, key));
                        assert(key != k@);
                    },
                }
            }
            assert forall|key: Seq<char>|
                has_key(gs, key) && !key_seen_before(ws, i + 1, key) implies #[trigger] has_key(
                groups@,
                key,
            ) && group_for(groups@, key) == group_for(gs, key) by {
                assert(has_key(before, key));
                assert(group_for(before, key) == group_for(gs, key));
                let m = choose|m: int| 0 <= m < before.len() && (#[trigger] before[m]).0@ == key;
                lemma_group_for_at(before, m);
                match found {
                    Some(x) => {
                        assert(m != x);
                        let m1 = if m < x {
                            m
                        } else {
                            m - 1
                        };
                        assert(groups@[m1] == before[m]);
                        lemma_group_for_at(groups@, m1);
                    },
                    None => {
                        assert(groups@[m] == before[m]);
                        lemma_group_for_at(groups@, m);
                    },
                }
            }
        }
        i = i + 1;
    }
    out
}

} // verus!
