//! The query-string mapping: key/value pairs extracted from a request URI,
//! with later duplicates of a key overriding earlier ones.

use vstd::prelude::*;
use vstd::string::StringExecFns;

verus! {

/// What parsing a URL yields for its query string: `None` when the URL text
/// does not parse, otherwise the percent-decoded (key, value) pairs of the
/// query in order. Parsing is a function of the URL text alone; the pairs
/// themselves are left unspecified here and pinned down only by the parser.
pub uninterp spec fn url_query_pairs(url: Seq<char>) -> Option<Seq<(Seq<char>, Seq<char>)>>;

/// Relies on `url::Url::parse` and `url::Url::query_pairs`: parsing either
/// fails, or yields a URL whose query pairs are the decoded key/value pairs
/// of its query string, in order; both are deterministic in the URL text.
#[verifier::external_body]
pub(crate) fn parse_url_query_pairs(url: &str) -> (r: Option<Vec<(String, String)>>)
    ensures
        r is Some <==> url_query_pairs(url@) is Some,
        r matches Some(v) ==> Some(v.deep_view()) == url_query_pairs(url@),
{
    match url::Url::parse(url) {
        Ok(u) => Some(u.query_pairs().map(|(k, v)| (k.into_owned(), v.into_owned())).collect()),
        Err(_) => None,
    }
}

/// The mapping that a pair sequence denotes, inserting pairs first to last,
/// so that a later pair with the same key overrides an earlier one.
pub open spec fn pairs_to_map(ps: Seq<(Seq<char>, Seq<char>)>) -> Map<Seq<char>, Seq<char>>
    decreases ps.len(),
{
    if ps.len() == 0 {
        Map::empty()
    } else {
        pairs_to_map(ps.drop_last()).insert(ps.last().0, ps.last().1)
    }
}

/// The map built from a pair sequence holds exactly the keys that occur in
/// some pair.
pub proof fn lemma_pairs_to_map_keys(ps: Seq<(Seq<char>, Seq<char>)>, k: Seq<char>)
    ensures
        pairs_to_map(ps).contains_key(k) <==> exists|i: int| 0 <= i < ps.len() && ps[i].0 == k,
    decreases ps.len(),
{
    if ps.len() > 0 {
        let dl = ps.drop_last();
        lemma_pairs_to_map_keys(dl, k);
        if ps.last().0 == k {
            assert(ps[ps.len() - 1].0 == k);
        } else {
            if pairs_to_map(ps).contains_key(k) {
                let i = choose|i: int| 0 <= i < dl.len() && dl[i].0 == k;
                assert(ps[i].0 == k);
            }
            if exists|i: int| 0 <= i < ps.len() && ps[i].0 == k {
                let i = choose|i: int| 0 <= i < ps.len() && ps[i].0 == k;
                assert(dl[i].0 == k);
            }
        }
    }
}

/// Later duplicates override earlier ones: when the pair at `i` is the last
/// one carrying its key, the map takes that pair's value for it.
pub proof fn lemma_pairs_to_map_last_wins(ps: Seq<(Seq<char>, Seq<char>)>, i: int)
    requires
        0 <= i < ps.len(),
        forall|j: int| i < j < ps.len() ==> ps[j].0 != ps[i].0,
    ensures
        pairs_to_map(ps).contains_key(ps[i].0),
        pairs_to_map(ps)[ps[i].0] == ps[i].1,
    decreases ps.len(),
{
    let dl = ps.drop_last();
    if i == ps.len() - 1 {
        assert(ps.last() == ps[i]);
    } else {
        assert(ps.last().0 != ps[i].0);
        assert(forall|j: int| i < j < dl.len() ==> dl[j].0 != dl[i].0);
        lemma_pairs_to_map_last_wins(dl, i);
    }
}

/// A query-parameter mapping derived from a request URI: string keys to
/// string values, where inserting an existing key replaces its value.
pub struct QueryMap {
    pairs: Vec<(String, String)>,
}

impl View for QueryMap {
    type V = Map<Seq<char>, Seq<char>>;

    closed spec fn view(&self) -> Map<Seq<char>, Seq<char>> {
        pairs_to_map(self.pairs.deep_view())
    }
}

impl QueryMap {
    /// The mapping with no keys.
    pub fn empty() -> (r: Self)
        ensures
            r@ == Map::<Seq<char>, Seq<char>>::empty(),
    {
        let r = QueryMap { pairs: Vec::new() };
        proof {
            assert(r.pairs.deep_view() =~= Seq::<(Seq<char>, Seq<char>)>::empty());
        }
        r
    }

    /// Bind `key` to `value`, replacing any earlier binding of `key`.
    pub fn insert(&mut self, key: String, value: String)
        ensures
            final(self)@ == old(self)@.insert(key@, value@),
    {
        let ghost old_pairs = self.pairs.deep_view();
        let ghost p = (key@, value@);
        self.pairs.push((key, value));
        proof {
            assert(self.pairs.deep_view().drop_last() =~= old_pairs);
            assert(self.pairs.deep_view().last() == p);
        }
    }

    /// The value bound to `key`, if any.
    pub fn get(&self, key: &str) -> (r: Option<&String>)
        ensures
            r matches Some(v) ==> self@.contains_key(key@) && self@[key@] == v@,
            r is None ==> !self@.contains_key(key@),
    {
        let ghost dv = self.pairs.deep_view();
        let key_string = String::from_str(key);
        let mut j = self.pairs.len();
        proof {
            assert(dv.take(j as int) =~= dv);
        }
        while j > 0
            invariant
                j <= self.pairs.len(),
                dv == self.pairs.deep_view(),
                key_string@ == key@,
                pairs_to_map(dv).contains_key(key@) <==> pairs_to_map(dv.take(j as int)).contains_key(key@),
                pairs_to_map(dv).contains_key(key@) ==> pairs_to_map(dv)[key@] == pairs_to_map(
                    dv.take(j as int),
                )[key@],
            decreases j,
        {
            j = j - 1;
            proof {
                assert(dv.take(j + 1).drop_last() =~= dv.take(j as int));
                assert(dv.take(j + 1).last() == dv[j as int]);
                assert(dv[j as int].0 == self.pairs@[j as int].0@);
            }
            if self.pairs[j].0 == key_string {
                assert(pairs_to_map(dv.take(j + 1)).contains_key(key@));
                assert(pairs_to_map(dv.take(j + 1))[key@] == dv[j as int].1);
                assert(dv[j as int].1 == self.pairs@[j as int].1@);
                return Some(&self.pairs[j].1);
            }
            assert(pairs_to_map(dv.take(j + 1)) == pairs_to_map(dv.take(j as int)).insert(
                dv[j as int].0,
                dv[j as int].1,
            ));
        }
        proof {
            assert(dv.take(0) =~= Seq::<(Seq<char>, Seq<char>)>::empty());
        }
        None
    }
}

} // verus!
