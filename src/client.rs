//! The requests of each operation, and the unwrapping of a response body.
use vstd::prelude::*;
use crate::locator::{base_path_spec, build_locator, count_ok, encoded_entries, rule_of, Locator};
use crate::query::{
    make_param, OrderBy, OrderDirection, ParamType, ParamValue, Parameter, QueryData, QueryError,
    QueryType,
};

verus! {

#[verifier::external_type_specification]
#[verifier::external_body]
pub struct ExJsonValue(serde_json::Value);

#[verifier::external_type_specification]
#[verifier::external_body]
pub struct ExJsonError(serde_json::Error);

/// Why a request could not be prepared or its response not unwrapped.
#[derive(Debug)]
pub enum ClientError {
    /// The request could not be built or validated; nothing was sent.
    Query(QueryError),
    /// The response body did not have the expected JSON shape: `cause` holds
    /// serde_json's error as it came where the text was not accepted as JSON,
    /// and is `None` where it was accepted but holds no `data` member.
    DecodeFailure { cause: Option<serde_json::Error> },
}

/// The parameters that an optional filter of kind `t` contributes: one where
/// it is present, none where it is absent.
pub open spec fn filter_params(t: ParamType, v: Option<ParamValue>) -> Seq<Parameter> {
    match v {
        Some(x) => match make_param(t, x) {
            Some(p) => seq![p],
            None => Seq::empty(),
        },
        None => Seq::empty(),
    }
}

/// A text filter as a parameter value.
pub open spec fn text_value(o: Option<String>) -> Option<ParamValue> {
    match o {
        Some(s) => Some(ParamValue::Text(s)),
        None => None,
    }
}

/// An integer filter as a parameter value.
pub open spec fn int_value(o: Option<i32>) -> Option<ParamValue> {
    match o {
        Some(i) => Some(ParamValue::Int(i)),
        None => None,
    }
}

/// The request that fetches one user by id.
pub fn user_query(id: String) -> (r: QueryData)
    ensures
        r@ == (QueryType::User { id }, Seq::<Parameter>::empty()),
{
    QueryData::new(QueryType::User { id })
}

/// A sort key filter as a parameter value.
pub open spec fn order_value(o: Option<OrderBy>) -> Option<ParamValue> {
    match o {
        Some(x) => Some(ParamValue::Order(x)),
        None => None,
    }
}

/// A direction filter as a parameter value.
pub open spec fn dir_value(o: Option<OrderDirection>) -> Option<ParamValue> {
    match o {
        Some(x) => Some(ParamValue::Dir(x)),
        None => None,
    }
}

/// Appends the parameter of kind `t` holding `v`, where `v` is present and of
/// the type that `t` takes.
fn push_filter(q: &mut QueryData, t: ParamType, v: Option<ParamValue>)
    ensures
        final(q)@ == (old(q)@.0, old(q)@.1 + filter_params(t, v)),
{
    if let Some(x) = v {
        if let Some(p) = t.with_value(x) {
            q.push(p);
            assert(final(q)@.1 =~= old(q)@.1 + filter_params(t, v));
            return;
        }
    }
    assert(q@.1 =~= old(q)@.1 + filter_params(t, v));
}

fn text_opt(o: Option<String>) -> (r: Option<ParamValue>)
    ensures
        r == text_value(o),
{
    match o {
        Some(s) => Some(ParamValue::Text(s)),
        None => None,
    }
}

fn int_opt(o: Option<i32>) -> (r: Option<ParamValue>)
    ensures
        r == int_value(o),
{
    match o {
        Some(i) => Some(ParamValue::Int(i)),
        None => None,
    }
}

/// The parameters of a user listing, in argument order.
pub open spec fn users_params(
    lookup: Option<String>,
    name: Option<String>,
    twitch: Option<String>,
    hitbox: Option<String>,
    twitter: Option<String>,
    speedrunslive: Option<String>,
    orderby: Option<OrderBy>,
    direction: Option<OrderDirection>,
) -> Seq<Parameter> {
    filter_params(ParamType::Lookup, text_value(lookup))
        + filter_params(ParamType::Name, text_value(name))
        + filter_params(ParamType::Twitch, text_value(twitch))
        + filter_params(ParamType::Hitbox, text_value(hitbox))
        + filter_params(ParamType::Twitter, text_value(twitter))
        + filter_params(ParamType::Speedrunslive, text_value(speedrunslive))
        + filter_params(ParamType::OrderBy, order_value(orderby))
        + filter_params(ParamType::Direction, dir_value(direction))
}

/// The request that lists users; each present filter becomes one parameter
/// of its own kind, in argument order.
pub fn users_query(
    lookup: Option<String>,
    name: Option<String>,
    twitch: Option<String>,
    hitbox: Option<String>,
    twitter: Option<String>,
    speedrunslive: Option<String>,
    orderby: Option<OrderBy>,
    direction: Option<OrderDirection>,
) -> (r: QueryData)
    ensures
        r@ == (
            QueryType::Users,
            users_params(lookup, name, twitch, hitbox, twitter, speedrunslive, orderby, direction),
        ),
{
    let mut q = QueryData::new(QueryType::Users);
    push_filter(&mut q, ParamType::Lookup, text_opt(lookup));
    push_filter(&mut q, ParamType::Name, text_opt(name));
    push_filter(&mut q, ParamType::Twitch, text_opt(twitch));
    push_filter(&mut q, ParamType::Hitbox, text_opt(hitbox));
    push_filter(&mut q, ParamType::Twitter, text_opt(twitter));
    push_filter(&mut q, ParamType::Speedrunslive, text_opt(speedrunslive));
    let o = match orderby {
        Some(x) => Some(ParamValue::Order(x)),
        None => None,
    };
    push_filter(&mut q, ParamType::OrderBy, o);
    let d = match direction {
        Some(x) => Some(ParamValue::Dir(x)),
        None => None,
    };
    push_filter(&mut q, ParamType::Direction, d);
    assert(q@.1 =~= users_params(
        lookup,
        name,
        twitch,
        hitbox,
        twitter,
        speedrunslive,
        orderby,
        direction,
    ));
    q
}

/// The parameters of a personal-bests listing, in argument order.
pub open spec fn user_pbs_params(top: Option<i32>, series: Option<String>, game: Option<String>) -> Seq<
    Parameter,
> {
    filter_params(ParamType::Top, int_value(top))
        + filter_params(ParamType::Series, text_value(series))
        + filter_params(ParamType::Game, text_value(game))
}

/// The request that lists the personal bests of a user.
pub fn user_pbs_query(id: String, top: Option<i32>, series: Option<String>, game: Option<String>) -> (r:
    QueryData)
    ensures
        r@ == (QueryType::UserPBs { id }, user_pbs_params(top, series, game)),
{
    let mut q = QueryData::new(QueryType::UserPBs { id });
    push_filter(&mut q, ParamType::Top, int_opt(top));
    push_filter(&mut q, ParamType::Series, text_opt(series));
    push_filter(&mut q, ParamType::Game, text_opt(game));
    assert(q@.1 =~= user_pbs_params(top, series, game));
    q
}

/// The parameters of a game listing, in argument order.
pub open spec fn games_params(
    name: Option<String>,
    abbreviation: Option<String>,
    released: Option<i32>,
    gametype: Option<String>,
    platform: Option<String>,
    region: Option<String>,
    genre: Option<String>,
    engine: Option<String>,
    developer: Option<String>,
    publisher: Option<String>,
    moderator: Option<String>,
) -> Seq<Parameter> {
    filter_params(ParamType::Name, text_value(name))
        + filter_params(ParamType::Abbreviation, text_value(abbreviation))
        + filter_params(ParamType::Released, int_value(released))
        + filter_params(ParamType::Gametype, text_value(gametype))
        + filter_params(ParamType::Platform, text_value(platform))
        + filter_params(ParamType::Region, text_value(region))
        + filter_params(ParamType::Genre, text_value(genre))
        + filter_params(ParamType::Engine, text_value(engine))
        + filter_params(ParamType::Developer, text_value(developer))
        + filter_params(ParamType::Publisher, text_value(publisher))
        + filter_params(ParamType::Moderator, text_value(moderator))
}

/// The request that lists games.
pub fn games_query(
    name: Option<String>,
    abbreviation: Option<String>,
    released: Option<i32>,
    gametype: Option<String>,
    platform: Option<String>,
    region: Option<String>,
    genre: Option<String>,
    engine: Option<String>,
    developer: Option<String>,
    publisher: Option<String>,
    moderator: Option<String>,
) -> (r: QueryData)
    ensures
        r@ == (
            QueryType::Games,
            games_params(
                name,
                abbreviation,
                released,
                gametype,
                platform,
                region,
                genre,
                engine,
                developer,
                publisher,
                moderator,
            ),
        ),
{
    let mut q = QueryData::new(QueryType::Games);
    push_filter(&mut q, ParamType::Name, text_opt(name));
    push_filter(&mut q, ParamType::Abbreviation, text_opt(abbreviation));
    push_filter(&mut q, ParamType::Released, int_opt(released));
    push_filter(&mut q, ParamType::Gametype, text_opt(gametype));
    push_filter(&mut q, ParamType::Platform, text_opt(platform));
    push_filter(&mut q, ParamType::Region, text_opt(region));
    push_filter(&mut q, ParamType::Genre, text_opt(genre));
    push_filter(&mut q, ParamType::Engine, text_opt(engine));
    push_filter(&mut q, ParamType::Developer, text_opt(developer));
    push_filter(&mut q, ParamType::Publisher, text_opt(publisher));
    push_filter(&mut q, ParamType::Moderator, text_opt(moderator));
    assert(q@.1 =~= games_params(
        name,
        abbreviation,
        released,
        gametype,
        platform,
        region,
        genre,
        engine,
        developer,
        publisher,
        moderator,
    ));
    q
}

/// Builds and validates the locator of a request, as [`build_locator`] does,
/// with a refusal reported as [`ClientError::Query`].
pub fn prepare(q: &QueryData) -> (r: Result<Locator, ClientError>)
    ensures
        count_ok(q@.0, q@.1.len()) ==> (r matches Ok(l) && l.wf() && l@ == (
            base_path_spec(q@.0),
            encoded_entries(q@.1),
        )),
        !count_ok(q@.0, q@.1.len()) ==> r == Err::<Locator, ClientError>(
            ClientError::Query(
                QueryError::WrongParameterCount {
                    expected: rule_of(q@.0)->Some_0,
                    got: q@.1.len() as usize,
                },
            ),
        ),
{
    match build_locator(q) {
        Ok(l) => Ok(l),
        Err(e) => Err(ClientError::Query(e)),
    }
}

/// True when serde_json accepts `s` as one JSON value (well-formed, and
/// nested no deeper than its recursion limit).
pub uninterp spec fn is_json(s: Seq<char>) -> bool;

/// True when serde_json accepts `s` as a JSON object that has a member named `key`.
pub uninterp spec fn has_member(s: Seq<char>, key: Seq<char>) -> bool;

/// Relies on `serde_json::from_str` into a `serde_json::Value`, whose outcome
/// depends on the text alone, and on `serde_json::Map::remove`, which takes
/// the member named `key` out of an object; a value that is not an object has
/// no members.
#[verifier::external_body]
fn json_member(body: &str, key: &str) -> (r: Result<Option<serde_json::Value>, serde_json::Error>)
    ensures
        r is Ok <==> is_json(body@),
        (r matches Ok(Some(_))) <==> has_member(body@, key@),
{
    match serde_json::from_str(body) {
        Ok(serde_json::Value::Object(mut m)) => Ok(m.remove(key)),
        Ok(_) => Ok(None),
        Err(e) => Err(e),
    }
}

/// Unwraps the `{ "data": ... }` envelope of a response body. It succeeds
/// exactly when the body is a JSON object with a `data` member, and otherwise
/// fails with [`ClientError::DecodeFailure`], carrying serde_json's error
/// where the body is not JSON at all.
pub fn decode_envelope(body: &str) -> (r: Result<serde_json::Value, ClientError>)
    ensures
        r is Ok <==> has_member(body@, "data"@),
        r is Err ==> (r matches Err(ClientError::DecodeFailure { .. })),
        !is_json(body@) ==> (r matches Err(ClientError::DecodeFailure { cause: Some(_) })),
        is_json(body@) ==> !(r matches Err(ClientError::DecodeFailure { cause: Some(_) })),
{
    match json_member(body, "data") {
        Err(e) => Err(ClientError::DecodeFailure { cause: Some(e) }),
        Ok(Some(d)) => Ok(d),
        Ok(None) => Err(ClientError::DecodeFailure { cause: None }),
    }
}

} // verus!
