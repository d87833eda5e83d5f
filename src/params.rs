use vstd::prelude::*;
use crate::error::TaskError;

verus! {

/// `i` is the position of the one and only `=` in `s`.
pub open spec fn sole_eq_at(s: Seq<char>, i: int) -> bool {
    &&& 0 <= i < s.len()
    &&& s[i] == '='
    &&& forall|j: int| 0 <= j < s.len() && j != i ==> s[j] != '='
}

/// The key and value of an entry `key=value` that holds exactly one `=`;
/// `None` for any other entry.
pub open spec fn split_entry(s: Seq<char>) -> Option<(Seq<char>, Seq<char>)> {
    if exists|i: int| sole_eq_at(s, i) {
        let i = choose|i: int| sole_eq_at(s, i);
        Some((s.take(i), s.skip(i + 1)))
    } else {
        None
    }
}

/// The body after one more entry: an empty entry changes nothing, a
/// `key=value` entry sets `key`, and any other entry is an error (`None`).
pub open spec fn add_entry(m: Map<Seq<char>, Seq<char>>, p: Seq<char>) -> Option<Map<Seq<char>, Seq<char>>> {
    if p.len() == 0 {
        Some(m)
    } else {
        match split_entry(p) {
            None => None,
            Some(kv) => Some(m.insert(kv.0, kv.1)),
        }
    }
}

/// Adds the entries `ps`, in order, to the body `acc`.
pub open spec fn parse_onto(acc: Option<Map<Seq<char>, Seq<char>>>, ps: Seq<Seq<char>>) -> Option<Map<Seq<char>, Seq<char>>>
    decreases ps.len(),
{
    if ps.len() == 0 {
        acc
    } else {
        match parse_onto(acc, ps.drop_last()) {
            None => None,
            Some(m) => add_entry(m, ps.last()),
        }
    }
}

/// The request body made of a list of exec parameters: empty entries are
/// skipped, each other entry must split into a key and a value, and a
/// later key overrides an earlier one. `None` when some entry is malformed.
pub open spec fn parse_spec(ps: Seq<Seq<char>>) -> Option<Map<Seq<char>, Seq<char>>> {
    parse_onto(Some(Map::empty()), ps)
}

/// The views of a list of strings.
pub open spec fn views(ps: Seq<String>) -> Seq<Seq<char>> {
    ps.map_values(|s: String| s@)
}

/// The map that a list of pairs stands for: a later pair overrides an
/// earlier one with the same key.
pub open spec fn pairs_map(es: Seq<(String, String)>) -> Map<Seq<char>, Seq<char>>
    decreases es.len(),
{
    if es.len() == 0 {
        Map::empty()
    } else {
        pairs_map(es.drop_last()).insert(es.last().0@, es.last().1@)
    }
}

/// A string-to-string map kept as its pairs in order of insertion, with
/// no key twice.
pub struct ParamMap {
    pub entries: Vec<(String, String)>,
}

impl View for ParamMap {
    type V = Map<Seq<char>, Seq<char>>;

    open spec fn view(&self) -> Map<Seq<char>, Seq<char>> {
        pairs_map(self.entries@)
    }
}

impl ParamMap {
    /// No key occurs twice.
    pub open spec fn wf(&self) -> bool {
        forall|i: int, j: int|
            0 <= i < j < self.entries@.len() ==> self.entries@[i].0@ != self.entries@[j].0@
    }

    /// The empty map.
    pub fn new() -> (r: ParamMap)
        ensures
            r.wf(),
            r@ == Map::<Seq<char>, Seq<char>>::empty(),
    {
        ParamMap { entries: Vec::new() }
    }

    /// Sets `key` to `value`, replacing the value it had.
    pub fn insert(&mut self, key: String, value: String)
        requires
            old(self).wf(),
        ensures
            final(self).wf(),
            final(self)@ == old(self)@.insert(key@, value@),
    {
        let n = self.entries.len();
        let mut i: usize = 0;
        while i < n
            invariant
                n == self.entries.len(),
                i <= n,
                self.entries@ == old(self).entries@,
                self.wf(),
                forall|j: int| 0 <= j < i ==> self.entries@[j].0@ != key@,
            decreases n - i,
        {
            if self.entries[i].0 == key {
                let ghost before = self.entries@;
                self.entries.set(i, (key, value));
                proof {
                    assert(self.entries@[i as int].0@ == before[i as int].0@);
                    lemma_set_distinct(before, i as int, self.entries@);
                }
                return;
            }
            i = i + 1;
        }
        self.entries.push((key, value));
        proof {
            assert(self.entries@.drop_last() =~= old(self).entries@);
        }
    }
}

/// Replacing the value of a key that occurs once updates the map at that key.
proof fn lemma_set_distinct(before: Seq<(String, String)>, i: int, after: Seq<(String, String)>)
    requires
        0 <= i < before.len(),
        after.len() == before.len(),
        after[i].0@ == before[i].0@,
        forall|j: int| 0 <= j < before.len() && j != i ==> after[j] == before[j],
        forall|a: int, b: int| 0 <= a < b < before.len() ==> before[a].0@ != before[b].0@,
    ensures
        pairs_map(after) == pairs_map(before).insert(before[i].0@, after[i].1@),
    decreases before.len(),
{
    let k = before[i].0@;
    if i == before.len() - 1 {
        assert(after.drop_last() == before.drop_last());
        assert(pairs_map(after) == pairs_map(before).insert(k, after[i].1@));
    } else {
        lemma_set_distinct(before.drop_last(), i, after.drop_last());
        assert(before.last().0@ != k);
        assert(after.last() == before.last());
        assert(pairs_map(after) =~= pairs_map(before).insert(k, after[i].1@));
    }
}

/// Splits an entry at its one `=` into key and value; `None` where the
/// entry holds no `=` or more than one.
pub fn split_param(s: &String) -> (r: Option<(String, String)>)
    ensures
        match split_entry(s@) {
            Some(kv) => r matches Some(p) && p.0@ == kv.0 && p.1@ == kv.1,
            None => r is None,
        },
{
    let t = s.as_str();
    let n = t.unicode_len();
    let mut first: Option<usize> = None;
    let mut k: usize = 0;
    while k < n
        invariant
            n == s@.len(),
            t@ == s@,
            k <= n,
            first matches Some(i) ==> i < k && s@[i as int] == '=' && forall|j: int|
                0 <= j < k && j != i ==> s@[j] != '=',
            first is None ==> forall|j: int| 0 <= j < k ==> s@[j] != '=',
        decreases n - k,
    {
        if t.get_char(k) == '=' {
            if first.is_some() {
                proof {
                    let i = first.unwrap() as int;
                    assert forall|x: int| !sole_eq_at(s@, x) by {
                        if sole_eq_at(s@, x) {
                            assert(x == i || x == k as int);
                        }
                    }
                }
                return None;
            }
            first = Some(k);
        }
        k = k + 1;
    }
    match first {
        None => {
            assert(forall|x: int| !sole_eq_at(s@, x));
            None
        },
        Some(i) => {
            assert(sole_eq_at(s@, i as int));
            proof {
                let c = choose|x: int| sole_eq_at(s@, x);
                assert(c == i as int);
            }
            let key = t.substring_char(0, i).to_owned();
            let value = t.substring_char(i + 1, n).to_owned();
            Some((key, value))
        },
    }
}

/// Parses the exec parameters into a request body: empty entries are
/// skipped, every other entry must be `key=value` with exactly one `=`,
/// and a later key overrides an earlier one.
pub fn parse_exec_params(params: &Vec<String>) -> (r: Result<ParamMap, TaskError>)
    ensures
        match parse_spec(views(params@)) {
            Some(m) => r matches Ok(pm) && pm.wf() && pm@ == m,
            None => r matches Err(TaskError::Protocol(msg)) && msg@ == "The params length is wrong"@,
        },
{
    let mut body = ParamMap::new();
    let mut i: usize = 0;
    while i < params.len()
        invariant
            i <= params.len(),
            body.wf(),
            parse_spec(views(params@.take(i as int))) == Some(body@),
        decreases params.len() - i,
    {
        let ghost pre = views(params@.take(i as int));
        assert(views(params@.take(i as int + 1)).drop_last() == pre);
        let p = &params[i];
        if p.as_str().unicode_len() != 0 {
            match split_param(p) {
                None => {
                    proof {
                        lemma_parse_fails_on(views(params@), i as int + 1);
                        assert(views(params@).take(i as int + 1) == views(params@.take(i as int + 1)));
                    }
                    return Err(TaskError::Protocol("The params length is wrong".to_owned()));
                },
                Some(kv) => {
                    body.insert(kv.0, kv.1);
                },
            }
        }
        i = i + 1;
    }
    assert(params@.take(params.len() as int) == params@);
    Ok(body)
}

/// Parsing a list that is the concatenation of two lists is parsing the
/// second onto the result of the first.
proof fn lemma_parse_onto_append(acc: Option<Map<Seq<char>, Seq<char>>>, ps: Seq<Seq<char>>, qs: Seq<Seq<char>>)
    ensures
        parse_onto(acc, ps + qs) == parse_onto(parse_onto(acc, ps), qs),
    decreases qs.len(),
{
    if qs.len() == 0 {
        assert(ps + qs == ps);
    } else {
        assert((ps + qs).drop_last() == ps + qs.drop_last());
        assert((ps + qs).last() == qs.last());
        lemma_parse_onto_append(acc, ps, qs.drop_last());
    }
}

/// Nothing can be added to a failed parse.
proof fn lemma_parse_onto_failed(qs: Seq<Seq<char>>)
    ensures
        parse_onto(None, qs) is None,
    decreases qs.len(),
{
    if qs.len() > 0 {
        lemma_parse_onto_failed(qs.drop_last());
    }
}

/// Parsing onto a body `m0` gives `m0` overridden by what the entries
/// parse to on their own.
proof fn lemma_parse_onto_union(m0: Map<Seq<char>, Seq<char>>, qs: Seq<Seq<char>>)
    ensures
        parse_onto(Some(m0), qs) == match parse_spec(qs) {
            Some(m) => Some(m0.union_prefer_right(m)),
            None => None,
        },
    decreases qs.len(),
{
    if qs.len() == 0 {
        assert(m0.union_prefer_right(Map::empty()) =~= m0);
    } else {
        lemma_parse_onto_union(m0, qs.drop_last());
        match parse_spec(qs.drop_last()) {
            None => {},
            Some(m) => {
                let p = qs.last();
                if p.len() != 0 {
                    if let Some(kv) = split_entry(p) {
                        assert(m0.union_prefer_right(m).insert(kv.0, kv.1)
                            =~= m0.union_prefer_right(m.insert(kv.0, kv.1)));
                    }
                }
            },
        }
    }
}

/// Parsing the same exec parameters a second time, after the first, leaves
/// the request body as it was: parsing is idempotent.
pub proof fn lemma_parse_idempotent(ps: Seq<Seq<char>>)
    ensures
        parse_spec(ps + ps) == parse_spec(ps),
{
    lemma_parse_onto_append(Some(Map::empty()), ps, ps);
    match parse_spec(ps) {
        None => lemma_parse_onto_failed(ps),
        Some(m) => {
            lemma_parse_onto_union(m, ps);
            assert(m.union_prefer_right(m) =~= m);
        },
    }
}

/// An empty entry, wherever it stands in the list, changes nothing: it
/// never becomes a key.
pub proof fn lemma_parse_skips_empty(ps: Seq<Seq<char>>, qs: Seq<Seq<char>>)
    ensures
        parse_spec(ps.push(Seq::empty()) + qs) == parse_spec(ps + qs),
{
    lemma_parse_onto_append(Some(Map::empty()), ps.push(Seq::empty()), qs);
    lemma_parse_onto_append(Some(Map::empty()), ps, qs);
    assert(ps.push(Seq::empty()).drop_last() == ps);
}

/// An entry with two `=` or more makes the whole list fail, wherever it
/// stands.
pub proof fn lemma_parse_rejects_two_eq(ps: Seq<Seq<char>>, p: Seq<char>, qs: Seq<Seq<char>>, i: int, j: int)
    requires
        0 <= i < j < p.len(),
        p[i] == '=',
        p[j] == '=',
    ensures
        parse_spec(ps.push(p) + qs) is None,
{
    assert forall|x: int| !sole_eq_at(p, x) by {
        if sole_eq_at(p, x) {
            assert(x == i);
            assert(x == j);
        }
    }
    lemma_parse_onto_append(Some(Map::empty()), ps.push(p), qs);
    assert(ps.push(p).drop_last() == ps);
    lemma_parse_onto_failed(qs);
}

/// An entry with exactly one `=` sets its key to its value.
pub proof fn lemma_parse_single_pair(p: Seq<char>, i: int)
    requires
        sole_eq_at(p, i),
    ensures
        parse_spec(seq![p]) == Some(Map::<Seq<char>, Seq<char>>::empty().insert(p.take(i), p.skip(i + 1))),
{
    assert(seq![p].drop_last() == Seq::<Seq<char>>::empty());
    assert(seq![p].last() == p);
    assert(p.len() > 0);
    let c = choose|x: int| sole_eq_at(p, x);
    assert(c == i);
    assert(split_entry(p) == Some((p.take(i), p.skip(i + 1))));
    assert(parse_onto(Some(Map::empty()), seq![p].drop_last()) == Some(Map::<Seq<char>, Seq<char>>::empty()));
}

/// Once a prefix of the list fails to parse, the whole list does.
proof fn lemma_parse_fails_on(ps: Seq<Seq<char>>, n: int)
    requires
        0 <= n <= ps.len(),
        parse_spec(ps.take(n)) is None,
    ensures
        parse_spec(ps) is None,
    decreases ps.len() - n,
{
    if n < ps.len() {
        assert(ps.take(n + 1).drop_last() == ps.take(n));
        assert(parse_onto(Some(Map::empty()), ps.take(n + 1)) is None);
        lemma_parse_fails_on(ps, n + 1);
    } else {
        assert(ps.take(n) == ps);
    }
}

} // verus!
