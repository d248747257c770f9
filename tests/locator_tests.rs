use srcapi_plus::client::{
    decode_envelope, games_query, prepare, user_pbs_query, user_query, users_query, ClientError,
};
use srcapi_plus::locator::{base_path, build_locator, validate, BASE_URL};
use srcapi_plus::query::{
    CountRule, OrderBy, OrderDirection, ParamType, ParamValue, Parameter, QueryData, QueryError,
    QueryType,
};
use srcapi_plus::query_text::{parse_entry, parse_query};
use srcapi_plus::text::{decimal, str_eq};

fn s(x: &str) -> String {
    x.to_string()
}

fn no_games_filters() -> QueryData {
    games_query(None, None, None, None, None, None, None, None, None, None, None)
}

#[test]
fn base_paths_of_every_endpoint() {
    assert_eq!(base_path(&QueryType::User { id: s("j0ng00m8") }), "users/j0ng00m8");
    assert_eq!(base_path(&QueryType::Users), "users");
    assert_eq!(
        base_path(&QueryType::UserPBs { id: s("abc") }),
        "users/abc/personal-bests"
    );
    assert_eq!(base_path(&QueryType::Games), "games");
}

#[test]
fn get_user_without_filters() {
    let q = user_query(s("j0ng00m8"));
    let l = build_locator(&q).unwrap();
    assert_eq!(l.render(), "users/j0ng00m8");
    assert_eq!(l.query_count(), 0);
    assert_eq!(l.url(), format!("{}users/j0ng00m8", BASE_URL));
}

#[test]
fn get_user_with_a_parameter_is_refused() {
    let mut q = user_query(s("j0ng00m8"));
    q.push(Parameter::Top(3));
    assert_eq!(
        build_locator(&q).unwrap_err(),
        QueryError::WrongParameterCount { expected: CountRule::Exactly(0), got: 1 }
    );
}

#[test]
fn list_users_without_filters_is_refused() {
    let q = users_query(None, None, None, None, None, None, None, None);
    match prepare(&q) {
        Err(ClientError::Query(e)) => assert_eq!(
            e,
            QueryError::WrongParameterCount { expected: CountRule::MoreThan(0), got: 0 }
        ),
        other => panic!("expected a count refusal, got {:?}", other),
    }
}

#[test]
fn list_users_by_name() {
    let q = users_query(None, Some(s("kyraa")), None, None, None, None, None, None);
    let l = prepare(&q).unwrap();
    assert_eq!(l.render(), "users?name=kyraa");
    assert_eq!(l.query_count(), 1);
}

#[test]
fn list_users_with_every_filter_in_order() {
    let q = users_query(
        Some(s("a")),
        Some(s("b")),
        Some(s("c")),
        Some(s("d")),
        Some(s("e")),
        Some(s("f")),
        Some(OrderBy::NameInt),
        Some(OrderDirection::Desc),
    );
    let l = build_locator(&q).unwrap();
    assert_eq!(
        l.render(),
        "users?lookup=a&name=b&twitch=c&hitbox=d&twitter=e&speedrunslive=f&orderby=name.int&direction=desc"
    );
}

#[test]
fn list_games_by_abbreviation() {
    let q = games_query(None, Some(s("mc")), None, None, None, None, None, None, None, None, None);
    let l = build_locator(&q).unwrap();
    assert_eq!(l.render(), "games?abbreviation=mc");
}

#[test]
fn list_games_without_filters_is_refused() {
    assert_eq!(
        build_locator(&no_games_filters()).unwrap_err(),
        QueryError::WrongParameterCount { expected: CountRule::MoreThan(0), got: 0 }
    );
}

#[test]
fn list_games_released_renders_decimal() {
    let q = games_query(
        None,
        None,
        Some(2009),
        None,
        None,
        None,
        None,
        None,
        None,
        None,
        Some(s("m1")),
    );
    assert_eq!(build_locator(&q).unwrap().render(), "games?released=2009&moderator=m1");
}

#[test]
fn personal_bests_without_filters() {
    let q = user_pbs_query(s("j0ng00m8"), None, None, None);
    let l = build_locator(&q).unwrap();
    assert_eq!(l.render(), "users/j0ng00m8/personal-bests");
}

#[test]
fn personal_bests_with_filters() {
    let q = user_pbs_query(s("j0ng00m8"), Some(-5), Some(s("zelda")), Some(s("oot")));
    let l = build_locator(&q).unwrap();
    assert_eq!(
        l.render(),
        "users/j0ng00m8/personal-bests?top=-5&series=zelda&game=oot"
    );
}

#[test]
fn values_are_form_encoded() {
    let q = users_query(None, Some(s("a b&c=d")), None, None, None, None, None, None);
    let l = build_locator(&q).unwrap();
    assert_eq!(l.render(), "users?name=a+b%26c%3Dd");
    assert_eq!(l.query_string(), "name=a+b%26c%3Dd");
}

#[test]
fn query_string_reads_back_as_its_entries() {
    let mut q = QueryData::new(QueryType::Users);
    q.push(Parameter::Direction(OrderDirection::Asc));
    q.push(Parameter::Lookup(s("x y")));
    q.push(Parameter::Lookup(s("z")));
    let l = build_locator(&q).unwrap();
    let back = parse_query(&l.query_string());
    assert_eq!(
        back,
        vec![(s("direction"), s("asc")), (s("lookup"), s("x+y")), (s("lookup"), s("z"))]
    );
    assert_eq!(back.len(), l.query_count());
}

#[test]
fn reordered_parameters_validate_alike() {
    let mut a = QueryData::new(QueryType::Games);
    a.push(Parameter::Genre(s("g")));
    a.push(Parameter::Platform(s("p")));
    let mut b = QueryData::new(QueryType::Games);
    b.push(Parameter::Platform(s("p")));
    b.push(Parameter::Genre(s("g")));
    let la = build_locator(&a).unwrap();
    let lb = build_locator(&b).unwrap();
    assert_eq!(la.render(), "games?genre=g&platform=p");
    assert_eq!(lb.render(), "games?platform=p&genre=g");
}

#[test]
fn duplicate_lookups_each_count() {
    let mut q = user_query(s("u"));
    q.push(Parameter::Lookup(s("a")));
    q.push(Parameter::Lookup(s("a")));
    assert_eq!(
        build_locator(&q).unwrap_err(),
        QueryError::WrongParameterCount { expected: CountRule::Exactly(0), got: 2 }
    );
}

#[test]
fn parse_query_edge_cases() {
    assert_eq!(parse_query(""), vec![]);
    assert_eq!(parse_query("a"), vec![(s("a"), s(""))]);
    assert_eq!(parse_query("a=b=c&"), vec![(s("a"), s("b=c"))]);
    assert_eq!(parse_entry("k=v"), (s("k"), s("v")));
}

#[test]
fn validate_rules() {
    assert!(validate(&QueryType::UserPBs { id: s("x") }, 0).is_ok());
    assert!(validate(&QueryType::UserPBs { id: s("x") }, 7).is_ok());
    assert!(validate(&QueryType::Users, 1).is_ok());
    assert!(validate(&QueryType::User { id: s("x") }, 0).is_ok());
}

#[test]
fn param_by_name() {
    let mut q = QueryData::new(QueryType::Users);
    q.param("name", ParamValue::Text(s("kyraa"))).unwrap();
    q.param("orderby", ParamValue::Order(OrderBy::Signup)).unwrap();
    q.param("top", ParamValue::Int(10)).unwrap();
    assert_eq!(
        q.params(),
        &[
            Parameter::Name(s("kyraa")),
            Parameter::OrderBy(OrderBy::Signup),
            Parameter::Top(10)
        ]
    );
}

#[test]
fn unknown_name_is_refused_and_request_unchanged() {
    let mut q = QueryData::new(QueryType::Users);
    q.param("lookup", ParamValue::Text(s("a"))).unwrap();
    assert_eq!(
        q.param("colour", ParamValue::Text(s("b"))),
        Err(QueryError::InvalidParameterName { name: s("colour") })
    );
    assert_eq!(q.params(), &[Parameter::Lookup(s("a"))]);
    assert_eq!(q.query_type(), &QueryType::Users);
}

#[test]
fn wrongly_typed_value_is_refused() {
    let mut q = QueryData::new(QueryType::Games);
    assert_eq!(
        q.param("released", ParamValue::Text(s("1999"))),
        Err(QueryError::InvalidParameterValue { name: s("released") })
    );
    assert!(q.params().is_empty());
}

#[test]
fn vocabulary_round_trips() {
    let kinds = [
        ParamType::Lookup,
        ParamType::Name,
        ParamType::Twitch,
        ParamType::Hitbox,
        ParamType::Twitter,
        ParamType::Speedrunslive,
        ParamType::OrderBy,
        ParamType::Direction,
        ParamType::Top,
        ParamType::Series,
        ParamType::Game,
        ParamType::Abbreviation,
        ParamType::Released,
        ParamType::Gametype,
        ParamType::Platform,
        ParamType::Region,
        ParamType::Genre,
        ParamType::Engine,
        ParamType::Developer,
        ParamType::Publisher,
        ParamType::Moderator,
    ];
    for k in kinds {
        assert_eq!(ParamType::from_name(k.name()), Some(k));
    }
    assert_eq!(ParamType::Speedrunslive.name(), "speedrunslive");
    assert_eq!(ParamType::from_name("Name"), None);
    assert_eq!(ParamType::from_name(""), None);
}

#[test]
fn tokens_and_encoding() {
    assert_eq!(OrderBy::NameJap.token(), "name.jap");
    assert_eq!(OrderBy::Role.token(), "role");
    assert_eq!(OrderDirection::Asc.token(), "asc");
    assert_eq!(Parameter::OrderBy(OrderBy::NameInt).encode(), (s("orderby"), s("name.int")));
    assert_eq!(Parameter::Released(-2147483648).value_text(), "-2147483648");
}

#[test]
fn decimal_rendering() {
    assert_eq!(decimal(0), "0");
    assert_eq!(decimal(7), "7");
    assert_eq!(decimal(1234567890), "1234567890");
    assert_eq!(decimal(i32::MAX), "2147483647");
    assert_eq!(decimal(-40), "-40");
}

#[test]
fn string_equality() {
    assert!(str_eq("héllo", "héllo"));
    assert!(!str_eq("abc", "abd"));
    assert!(!str_eq("ab", "abc"));
}

fn is_parse_failure(r: Result<serde_json::Value, ClientError>) -> bool {
    matches!(r, Err(ClientError::DecodeFailure { cause: Some(_) }))
}

fn is_missing_data(r: Result<serde_json::Value, ClientError>) -> bool {
    matches!(r, Err(ClientError::DecodeFailure { cause: None }))
}

#[test]
fn malformed_body_is_decode_failure() {
    assert!(is_parse_failure(decode_envelope("{\"data\": [1, 2")));
    assert!(is_parse_failure(decode_envelope("not json")));
    assert!(is_parse_failure(decode_envelope("")));
    assert!(is_parse_failure(decode_envelope("{\"data\": 1} trailing")));
}

#[test]
fn decode_failure_keeps_the_parser_error() {
    match decode_envelope("{\"data\": [1, 2") {
        Err(ClientError::DecodeFailure { cause: Some(e) }) => assert!(e.is_eof()),
        other => panic!("expected a parse failure, got {:?}", other),
    }
}

#[test]
fn body_without_data_is_decode_failure() {
    assert!(is_missing_data(decode_envelope("{\"items\": []}")));
    assert!(is_missing_data(decode_envelope("[1]")));
    assert!(is_missing_data(decode_envelope("\"data\"")));
}

#[test]
fn envelope_is_unwrapped() {
    let v = decode_envelope("{\"data\": {\"id\": \"j0ng00m8\"}}").unwrap();
    assert_eq!(v["id"], serde_json::Value::String(s("j0ng00m8")));
    let v = decode_envelope("{\"data\": []}").unwrap();
    assert!(v.as_array().unwrap().is_empty());
    let v = decode_envelope("{\"links\": [], \"data\": null}").unwrap();
    assert!(v.is_null());
}
