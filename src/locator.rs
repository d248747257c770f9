//! Turning a request into a validated resource locator.
use vstd::prelude::*;
use crate::query::{lemma_names_form_unchanged, CountRule, Parameter, QueryData, QueryError, QueryType};
use crate::query_text::{entry_text, lemma_query_text_push, locator_text, query_text};
use crate::text::{form_encode, form_encoded, form_unchanged, separator_free};

verus! {

/// The origin every locator is resolved against.
pub const BASE_URL: &'static str = "https://www.speedrun.com/api/v1/";

/// The resource path of an endpoint.
pub open spec fn base_path_spec(e: QueryType) -> Seq<char> {
    match e {
        QueryType::User { id } => "users/"@ + id@,
        QueryType::Users => "users"@,
        QueryType::UserPBs { id } => "users/"@ + id@ + "/personal-bests"@,
        QueryType::Games => "games"@,
    }
}

/// Resolves an endpoint into its resource path.
pub fn base_path(e: &QueryType) -> (r: String)
    ensures
        r@ == base_path_spec(*e),
{
    match e {
        QueryType::User { id } => String::from_str("users/").concat(id.as_str()),
        QueryType::Users => String::from_str("users"),
        QueryType::UserPBs { id } => {
            let s = String::from_str("users/").concat(id.as_str());
            s.concat("/personal-bests")
        },
        QueryType::Games => String::from_str("games"),
    }
}

/// The count rule of an endpoint; `None` where any count is accepted.
pub open spec fn rule_of(e: QueryType) -> Option<CountRule> {
    match e {
        QueryType::User { .. } => Some(CountRule::Exactly(0)),
        QueryType::Users => Some(CountRule::MoreThan(0)),
        QueryType::UserPBs { .. } => None,
        QueryType::Games => Some(CountRule::MoreThan(0)),
    }
}

/// True when `n` query entries meet the rule of `e`.
pub open spec fn count_ok(e: QueryType, n: nat) -> bool {
    match rule_of(e) {
        None => true,
        Some(CountRule::Exactly(k)) => n == k,
        Some(CountRule::MoreThan(k)) => n > k,
    }
}

/// Checks `count` query entries against the rule of `e`.
pub fn validate(e: &QueryType, count: usize) -> (r: Result<(), QueryError>)
    ensures
        count_ok(*e, count as nat) ==> r is Ok,
        !count_ok(*e, count as nat) ==> r == Err::<(), QueryError>(
            QueryError::WrongParameterCount { expected: rule_of(*e)->Some_0, got: count },
        ),
{
    match e {
        QueryType::User { .. } => {
            if count > 0 {
                return Err(
                    QueryError::WrongParameterCount { expected: CountRule::Exactly(0), got: count },
                );
            }
        },
        QueryType::Users | QueryType::Games => {
            if count == 0 {
                return Err(
                    QueryError::WrongParameterCount {
                        expected: CountRule::MoreThan(0),
                        got: count,
                    },
                );
            }
        },
        QueryType::UserPBs { .. } => {},
    }
    Ok(())
}

/// The form encoding of a value, which is the value itself where every
/// character is one that the encoding keeps.
pub open spec fn form_value(v: Seq<char>) -> Seq<char> {
    if forall|i: int| 0 <= i < v.len() ==> form_unchanged(#[trigger] v[i]) {
        v
    } else {
        form_encoded(v)
    }
}

/// The query entry of a parameter: its canonical name, which needs no
/// encoding, and its form-encoded value.
pub open spec fn encoded_entry(p: Parameter) -> (Seq<char>, Seq<char>) {
    (p.kind_spec().name_spec(), form_value(p.value_spec()))
}

/// The query entries of a parameter list, in order.
pub open spec fn encoded_entries(ps: Seq<Parameter>) -> Seq<(Seq<char>, Seq<char>)> {
    ps.map_values(|p: Parameter| encoded_entry(p))
}

/// A validated resource locator: a path below [`BASE_URL`] and the encoded
/// query entries, which never hold `&` or `=`.
#[derive(Clone, Debug)]
pub struct Locator {
    path: String,
    entries: Vec<(String, String)>,
}

impl View for Locator {
    type V = (Seq<char>, Seq<(Seq<char>, Seq<char>)>);

    closed spec fn view(&self) -> (Seq<char>, Seq<(Seq<char>, Seq<char>)>) {
        (self.path@, entries_view(self.entries@))
    }
}

/// The character view of a list of string pairs.
pub open spec fn entries_view(v: Seq<(String, String)>) -> Seq<(Seq<char>, Seq<char>)> {
    v.map_values(|e: (String, String)| (e.0@, e.1@))
}

/// True when no component of the entries holds a separator.
pub open spec fn entries_wf(es: Seq<(Seq<char>, Seq<char>)>) -> bool {
    forall|i: int| 0 <= i < es.len() ==> separator_free(#[trigger] es[i].0) && separator_free(es[i].1)
}

impl Locator {
    /// The locator's invariant: its entries are separator-free.
    pub open spec fn wf(&self) -> bool {
        entries_wf(self@.1)
    }

    /// The resource path.
    pub fn path(&self) -> (r: &str)
        ensures
            r@ == self@.0,
    {
        self.path.as_str()
    }

    /// The number of query entries.
    pub fn query_count(&self) -> (r: usize)
        ensures
            r == self@.1.len(),
    {
        self.entries.len()
    }

    /// The query string: the entries as `name=value`, joined by `&`.
    pub fn query_string(&self) -> (r: String)
        ensures
            r@ == query_text(self@.1),
    {
        let ghost es = self@.1;
        let mut t = String::new();
        let mut i: usize = 0;
        while i < self.entries.len()
            invariant
                es == self@.1,
                es == entries_view(self.entries@),
                i <= es.len(),
                t@ == query_text(es.take(i as int)),
            decreases es.len() - i,
        {
            let ghost before = t@;
            proof {
                reveal_strlit("&");
                reveal_strlit("=");
            }
            if i > 0 {
                t.append("&");
            }
            t.append(self.entries[i].0.as_str());
            t.append("=");
            t.append(self.entries[i].1.as_str());
            proof {
                assert(es[i as int] == (self.entries@[i as int].0@, self.entries@[i as int].1@));
                assert(es.take(i as int + 1) =~= es.take(i as int).push(es[i as int]));
                if i > 0 {
                    lemma_query_text_push(es.take(i as int), es[i as int]);
                    assert(t@ =~= before + seq!['&'] + entry_text(es[i as int]));
                } else {
                    assert(t@ =~= entry_text(es[i as int]));
                    assert(query_text(es.take(1)) == entry_text(es.take(1)[0]));
                }
            }
            i = i + 1;
        }
        assert(es.take(es.len() as int) =~= es);
        t
    }

    /// The locator's text below [`BASE_URL`]: the path, then `?` and the
    /// query string where there are entries.
    pub fn render(&self) -> (r: String)
        ensures
            r@ == locator_text(self@),
    {
        proof {
            reveal_strlit("?");
        }
        let path = self.path.clone();
        if self.entries.len() == 0 {
            path
        } else {
            let q = self.query_string();
            let with_mark = path.concat("?");
            with_mark.concat(q.as_str())
        }
    }

    /// The absolute locator: [`BASE_URL`] followed by [`Locator::render`].
    pub fn url(&self) -> (r: String)
        ensures
            r@ == BASE_URL@ + locator_text(self@),
    {
        let rel = self.render();
        String::from_str(BASE_URL).concat(rel.as_str())
    }
}

/// Builds the locator of a request: the endpoint's path, then one encoded
/// entry per parameter in append order, then the endpoint's count rule
/// checked against the number of encoded entries.
pub fn build_locator(q: &QueryData) -> (r: Result<Locator, QueryError>)
    ensures
        count_ok(q@.0, q@.1.len()) ==> (r matches Ok(l) && l.wf() && l@ == (
            base_path_spec(q@.0),
            encoded_entries(q@.1),
        )),
        !count_ok(q@.0, q@.1.len()) ==> r == Err::<Locator, QueryError>(
            QueryError::WrongParameterCount {
                expected: rule_of(q@.0)->Some_0,
                got: q@.1.len() as usize,
            },
        ),
{
    let path = base_path(q.query_type());
    let params = q.params();
    let mut entries: Vec<(String, String)> = Vec::new();
    let mut i: usize = 0;
    while i < params.len()
        invariant
            params@ == q@.1,
            i <= params@.len(),
            entries@.len() == i,
            forall|j: int|
                0 <= j < i ==> (#[trigger] entries@[j]).0@ == encoded_entry(params@[j]).0
                    && entries@[j].1@ == encoded_entry(params@[j]).1,
            forall|j: int|
                0 <= j < i ==> separator_free((#[trigger] entries@[j]).0@) && separator_free(
                    entries@[j].1@,
                ),
        decreases params@.len() - i,
    {
        let (name, value) = params[i].encode();
        proof {
            lemma_names_form_unchanged(params@[i as int].kind_spec());
        }
        let en = form_encode(name.as_str());
        let ev = form_encode(value.as_str());
        entries.push((en, ev));
        i = i + 1;
    }
    let loc = Locator { path, entries };
    assert(loc@.1 =~= encoded_entries(q@.1));
    match validate(q.query_type(), loc.entries.len()) {
        Ok(()) => Ok(loc),
        Err(e) => Err(e),
    }
}

/// The validation decision depends on the number of parameters alone: two
/// requests for one endpoint whose parameters form the same multiset, in
/// whatever order they were appended, are accepted or refused together.
pub proof fn lemma_validation_ignores_order(e: QueryType, a: Seq<Parameter>, b: Seq<Parameter>)
    requires
        a.to_multiset() == b.to_multiset(),
    ensures
        count_ok(e, a.len()) == count_ok(e, b.len()),
{
    vstd::seq_lib::to_multiset_len(a);
    vstd::seq_lib::to_multiset_len(b);
}

} // verus!
