//! The request model: endpoints, the fixed parameter vocabulary, and the
//! request that pairs one endpoint with an ordered list of parameters.
use vstd::prelude::*;
use crate::text::{decimal, decimal_text, form_unchanged, str_eq};

verus! {

/// The upstream resource a request targets.
#[derive(Clone, Debug, PartialEq, Eq)]
pub enum QueryType {
    User { id: String },
    Users,
    UserPBs { id: String },
    Games,
}

/// Sort keys accepted by the user listing.
#[derive(Clone, Copy, Debug, PartialEq, Eq, Structural)]
pub enum OrderBy {
    NameInt,
    NameJap,
    Signup,
    Role,
}

/// Sort direction.
#[derive(Clone, Copy, Debug, PartialEq, Eq, Structural)]
pub enum OrderDirection {
    Asc,
    Desc,
}

impl OrderBy {
    /// The wire token of a sort key.
    pub open spec fn token_spec(self) -> Seq<char> {
        match self {
            OrderBy::NameInt => "name.int"@,
            OrderBy::NameJap => "name.jap"@,
            OrderBy::Signup => "signup"@,
            OrderBy::Role => "role"@,
        }
    }

    pub fn token(&self) -> (r: &'static str)
        ensures
            r@ == self.token_spec(),
    {
        match self {
            OrderBy::NameInt => "name.int",
            OrderBy::NameJap => "name.jap",
            OrderBy::Signup => "signup",
            OrderBy::Role => "role",
        }
    }
}

impl OrderDirection {
    /// The wire token of a direction.
    pub open spec fn token_spec(self) -> Seq<char> {
        match self {
            OrderDirection::Asc => "asc"@,
            OrderDirection::Desc => "desc"@,
        }
    }

    pub fn token(&self) -> (r: &'static str)
        ensures
            r@ == self.token_spec(),
    {
        match self {
            OrderDirection::Asc => "asc",
            OrderDirection::Desc => "desc",
        }
    }
}

/// The fixed vocabulary of query parameter names.
#[derive(Clone, Copy, Debug, PartialEq, Eq, Structural)]
pub enum ParamType {
    Lookup,
    Name,
    Twitch,
    Hitbox,
    Twitter,
    Speedrunslive,
    OrderBy,
    Direction,
    Top,
    Series,
    Game,
    Abbreviation,
    Released,
    Gametype,
    Platform,
    Region,
    Genre,
    Engine,
    Developer,
    Publisher,
    Moderator,
}

impl ParamType {
    /// The canonical query-string name of a parameter kind.
    pub open spec fn name_spec(self) -> Seq<char> {
        match self {
            ParamType::Lookup => "lookup"@,
            ParamType::Name => "name"@,
            ParamType::Twitch => "twitch"@,
            ParamType::Hitbox => "hitbox"@,
            ParamType::Twitter => "twitter"@,
            ParamType::Speedrunslive => "speedrunslive"@,
            ParamType::OrderBy => "orderby"@,
            ParamType::Direction => "direction"@,
            ParamType::Top => "top"@,
            ParamType::Series => "series"@,
            ParamType::Game => "game"@,
            ParamType::Abbreviation => "abbreviation"@,
            ParamType::Released => "released"@,
            ParamType::Gametype => "gametype"@,
            ParamType::Platform => "platform"@,
            ParamType::Region => "region"@,
            ParamType::Genre => "genre"@,
            ParamType::Engine => "engine"@,
            ParamType::Developer => "developer"@,
            ParamType::Publisher => "publisher"@,
            ParamType::Moderator => "moderator"@,
        }
    }

    pub fn name(&self) -> (r: &'static str)
        ensures
            r@ == self.name_spec(),
    {
        match self {
            ParamType::Lookup => "lookup",
            ParamType::Name => "name",
            ParamType::Twitch => "twitch",
            ParamType::Hitbox => "hitbox",
            ParamType::Twitter => "twitter",
            ParamType::Speedrunslive => "speedrunslive",
            ParamType::OrderBy => "orderby",
            ParamType::Direction => "direction",
            ParamType::Top => "top",
            ParamType::Series => "series",
            ParamType::Game => "game",
            ParamType::Abbreviation => "abbreviation",
            ParamType::Released => "released",
            ParamType::Gametype => "gametype",
            ParamType::Platform => "platform",
            ParamType::Region => "region",
            ParamType::Genre => "genre",
            ParamType::Engine => "engine",
            ParamType::Developer => "developer",
            ParamType::Publisher => "publisher",
            ParamType::Moderator => "moderator",
        }
    }

    /// Looks a name up in the vocabulary.
    pub fn from_name(name: &str) -> (r: Option<ParamType>)
        ensures
            r == param_type_of(name@),
    {
        if str_eq(name, "lookup") {
            Some(ParamType::Lookup)
        } else if str_eq(name, "name") {
            Some(ParamType::Name)
        } else if str_eq(name, "twitch") {
            Some(ParamType::Twitch)
        } else if str_eq(name, "hitbox") {
            Some(ParamType::Hitbox)
        } else if str_eq(name, "twitter") {
            Some(ParamType::Twitter)
        } else if str_eq(name, "speedrunslive") {
            Some(ParamType::Speedrunslive)
        } else if str_eq(name, "orderby") {
            Some(ParamType::OrderBy)
        } else if str_eq(name, "direction") {
            Some(ParamType::Direction)
        } else if str_eq(name, "top") {
            Some(ParamType::Top)
        } else if str_eq(name, "series") {
            Some(ParamType::Series)
        } else if str_eq(name, "game") {
            Some(ParamType::Game)
        } else if str_eq(name, "abbreviation") {
            Some(ParamType::Abbreviation)
        } else if str_eq(name, "released") {
            Some(ParamType::Released)
        } else if str_eq(name, "gametype") {
            Some(ParamType::Gametype)
        } else if str_eq(name, "platform") {
            Some(ParamType::Platform)
        } else if str_eq(name, "region") {
            Some(ParamType::Region)
        } else if str_eq(name, "genre") {
            Some(ParamType::Genre)
        } else if str_eq(name, "engine") {
            Some(ParamType::Engine)
        } else if str_eq(name, "developer") {
            Some(ParamType::Developer)
        } else if str_eq(name, "publisher") {
            Some(ParamType::Publisher)
        } else if str_eq(name, "moderator") {
            Some(ParamType::Moderator)
        } else {
            None
        }
    }
}

/// The vocabulary entry whose name is `name`, if any.
pub open spec fn param_type_of(name: Seq<char>) -> Option<ParamType> {
    if name == "lookup"@ {
        Some(ParamType::Lookup)
    } else if name == "name"@ {
        Some(ParamType::Name)
    } else if name == "twitch"@ {
        Some(ParamType::Twitch)
    } else if name == "hitbox"@ {
        Some(ParamType::Hitbox)
    } else if name == "twitter"@ {
        Some(ParamType::Twitter)
    } else if name == "speedrunslive"@ {
        Some(ParamType::Speedrunslive)
    } else if name == "orderby"@ {
        Some(ParamType::OrderBy)
    } else if name == "direction"@ {
        Some(ParamType::Direction)
    } else if name == "top"@ {
        Some(ParamType::Top)
    } else if name == "series"@ {
        Some(ParamType::Series)
    } else if name == "game"@ {
        Some(ParamType::Game)
    } else if name == "abbreviation"@ {
        Some(ParamType::Abbreviation)
    } else if name == "released"@ {
        Some(ParamType::Released)
    } else if name == "gametype"@ {
        Some(ParamType::Gametype)
    } else if name == "platform"@ {
        Some(ParamType::Platform)
    } else if name == "region"@ {
        Some(ParamType::Region)
    } else if name == "genre"@ {
        Some(ParamType::Genre)
    } else if name == "engine"@ {
        Some(ParamType::Engine)
    } else if name == "developer"@ {
        Some(ParamType::Developer)
    } else if name == "publisher"@ {
        Some(ParamType::Publisher)
    } else if name == "moderator"@ {
        Some(ParamType::Moderator)
    } else {
        None
    }
}

/// One named, typed filter or ordering directive.
#[derive(Clone, Debug, PartialEq, Eq)]
pub enum Parameter {
    Lookup(String),
    Name(String),
    Twitch(String),
    Hitbox(String),
    Twitter(String),
    Speedrunslive(String),
    OrderBy(OrderBy),
    Direction(OrderDirection),
    Top(i32),
    Series(String),
    Game(String),
    Abbreviation(String),
    Released(i32),
    Gametype(String),
    Platform(String),
    Region(String),
    Genre(String),
    Engine(String),
    Developer(String),
    Publisher(String),
    Moderator(String),
}

impl Parameter {
    /// The vocabulary entry of a parameter.
    pub open spec fn kind_spec(self) -> ParamType {
        match self {
            Parameter::Lookup(_) => ParamType::Lookup,
            Parameter::Name(_) => ParamType::Name,
            Parameter::Twitch(_) => ParamType::Twitch,
            Parameter::Hitbox(_) => ParamType::Hitbox,
            Parameter::Twitter(_) => ParamType::Twitter,
            Parameter::Speedrunslive(_) => ParamType::Speedrunslive,
            Parameter::OrderBy(_) => ParamType::OrderBy,
            Parameter::Direction(_) => ParamType::Direction,
            Parameter::Top(_) => ParamType::Top,
            Parameter::Series(_) => ParamType::Series,
            Parameter::Game(_) => ParamType::Game,
            Parameter::Abbreviation(_) => ParamType::Abbreviation,
            Parameter::Released(_) => ParamType::Released,
            Parameter::Gametype(_) => ParamType::Gametype,
            Parameter::Platform(_) => ParamType::Platform,
            Parameter::Region(_) => ParamType::Region,
            Parameter::Genre(_) => ParamType::Genre,
            Parameter::Engine(_) => ParamType::Engine,
            Parameter::Developer(_) => ParamType::Developer,
            Parameter::Publisher(_) => ParamType::Publisher,
            Parameter::Moderator(_) => ParamType::Moderator,
        }
    }

    /// The value of a parameter as it is written in a query string.
    pub open spec fn value_spec(self) -> Seq<char> {
        match self {
            Parameter::Lookup(s) => s@,
            Parameter::Name(s) => s@,
            Parameter::Twitch(s) => s@,
            Parameter::Hitbox(s) => s@,
            Parameter::Twitter(s) => s@,
            Parameter::Speedrunslive(s) => s@,
            Parameter::OrderBy(s) => s.token_spec(),
            Parameter::Direction(s) => s.token_spec(),
            Parameter::Top(s) => decimal_text(s as int),
            Parameter::Series(s) => s@,
            Parameter::Game(s) => s@,
            Parameter::Abbreviation(s) => s@,
            Parameter::Released(s) => decimal_text(s as int),
            Parameter::Gametype(s) => s@,
            Parameter::Platform(s) => s@,
            Parameter::Region(s) => s@,
            Parameter::Genre(s) => s@,
            Parameter::Engine(s) => s@,
            Parameter::Developer(s) => s@,
            Parameter::Publisher(s) => s@,
            Parameter::Moderator(s) => s@,
        }
    }

    pub fn kind(&self) -> (r: ParamType)
        ensures
            r == self.kind_spec(),
    {
        match self {
            Parameter::Lookup(_) => ParamType::Lookup,
            Parameter::Name(_) => ParamType::Name,
            Parameter::Twitch(_) => ParamType::Twitch,
            Parameter::Hitbox(_) => ParamType::Hitbox,
            Parameter::Twitter(_) => ParamType::Twitter,
            Parameter::Speedrunslive(_) => ParamType::Speedrunslive,
            Parameter::OrderBy(_) => ParamType::OrderBy,
            Parameter::Direction(_) => ParamType::Direction,
            Parameter::Top(_) => ParamType::Top,
            Parameter::Series(_) => ParamType::Series,
            Parameter::Game(_) => ParamType::Game,
            Parameter::Abbreviation(_) => ParamType::Abbreviation,
            Parameter::Released(_) => ParamType::Released,
            Parameter::Gametype(_) => ParamType::Gametype,
            Parameter::Platform(_) => ParamType::Platform,
            Parameter::Region(_) => ParamType::Region,
            Parameter::Genre(_) => ParamType::Genre,
            Parameter::Engine(_) => ParamType::Engine,
            Parameter::Developer(_) => ParamType::Developer,
            Parameter::Publisher(_) => ParamType::Publisher,
            Parameter::Moderator(_) => ParamType::Moderator,
        }
    }

    /// The value rendered as text: strings as they are, integers in decimal,
    /// sort keys and directions as their tokens.
    pub fn value_text(&self) -> (r: String)
        ensures
            r@ == self.value_spec(),
    {
        match self {
            Parameter::Lookup(s) => s.clone(),
            Parameter::Name(s) => s.clone(),
            Parameter::Twitch(s) => s.clone(),
            Parameter::Hitbox(s) => s.clone(),
            Parameter::Twitter(s) => s.clone(),
            Parameter::Speedrunslive(s) => s.clone(),
            Parameter::OrderBy(s) => String::from_str(s.token()),
            Parameter::Direction(s) => String::from_str(s.token()),
            Parameter::Top(s) => decimal(*s),
            Parameter::Series(s) => s.clone(),
            Parameter::Game(s) => s.clone(),
            Parameter::Abbreviation(s) => s.clone(),
            Parameter::Released(s) => decimal(*s),
            Parameter::Gametype(s) => s.clone(),
            Parameter::Platform(s) => s.clone(),
            Parameter::Region(s) => s.clone(),
            Parameter::Genre(s) => s.clone(),
            Parameter::Engine(s) => s.clone(),
            Parameter::Developer(s) => s.clone(),
            Parameter::Publisher(s) => s.clone(),
            Parameter::Moderator(s) => s.clone(),
        }
    }

    /// The parameter as a query entry: its canonical name and its value text.
    pub fn encode(&self) -> (r: (String, String))
        ensures
            r.0@ == self.kind_spec().name_spec(),
            r.1@ == self.value_spec(),
    {
        let name = String::from_str(self.kind().name());
        (name, self.value_text())
    }
}

/// A value handed to [`QueryData::param`] beside a parameter name.
#[derive(Clone, Debug, PartialEq, Eq)]
pub enum ParamValue {
    Text(String),
    Int(i32),
    Order(OrderBy),
    Dir(OrderDirection),
}

/// The parameter of kind `t` holding `v`, if `v` has the type that `t` takes.
pub open spec fn make_param(t: ParamType, v: ParamValue) -> Option<Parameter> {
    match (t, v) {
        (ParamType::Lookup, ParamValue::Text(s)) => Some(Parameter::Lookup(s)),
        (ParamType::Name, ParamValue::Text(s)) => Some(Parameter::Name(s)),
        (ParamType::Twitch, ParamValue::Text(s)) => Some(Parameter::Twitch(s)),
        (ParamType::Hitbox, ParamValue::Text(s)) => Some(Parameter::Hitbox(s)),
        (ParamType::Twitter, ParamValue::Text(s)) => Some(Parameter::Twitter(s)),
        (ParamType::Speedrunslive, ParamValue::Text(s)) => Some(Parameter::Speedrunslive(s)),
        (ParamType::OrderBy, ParamValue::Order(s)) => Some(Parameter::OrderBy(s)),
        (ParamType::Direction, ParamValue::Dir(s)) => Some(Parameter::Direction(s)),
        (ParamType::Top, ParamValue::Int(s)) => Some(Parameter::Top(s)),
        (ParamType::Series, ParamValue::Text(s)) => Some(Parameter::Series(s)),
        (ParamType::Game, ParamValue::Text(s)) => Some(Parameter::Game(s)),
        (ParamType::Abbreviation, ParamValue::Text(s)) => Some(Parameter::Abbreviation(s)),
        (ParamType::Released, ParamValue::Int(s)) => Some(Parameter::Released(s)),
        (ParamType::Gametype, ParamValue::Text(s)) => Some(Parameter::Gametype(s)),
        (ParamType::Platform, ParamValue::Text(s)) => Some(Parameter::Platform(s)),
        (ParamType::Region, ParamValue::Text(s)) => Some(Parameter::Region(s)),
        (ParamType::Genre, ParamValue::Text(s)) => Some(Parameter::Genre(s)),
        (ParamType::Engine, ParamValue::Text(s)) => Some(Parameter::Engine(s)),
        (ParamType::Developer, ParamValue::Text(s)) => Some(Parameter::Developer(s)),
        (ParamType::Publisher, ParamValue::Text(s)) => Some(Parameter::Publisher(s)),
        (ParamType::Moderator, ParamValue::Text(s)) => Some(Parameter::Moderator(s)),
        _ => None,
    }
}

impl ParamType {
    /// Pairs this kind with a value of the type it takes.
    pub fn with_value(self, v: ParamValue) -> (r: Option<Parameter>)
        ensures
            r == make_param(self, v),
    {
        match (self, v) {
            (ParamType::Lookup, ParamValue::Text(s)) => Some(Parameter::Lookup(s)),
            (ParamType::Name, ParamValue::Text(s)) => Some(Parameter::Name(s)),
            (ParamType::Twitch, ParamValue::Text(s)) => Some(Parameter::Twitch(s)),
            (ParamType::Hitbox, ParamValue::Text(s)) => Some(Parameter::Hitbox(s)),
            (ParamType::Twitter, ParamValue::Text(s)) => Some(Parameter::Twitter(s)),
            (ParamType::Speedrunslive, ParamValue::Text(s)) => Some(Parameter::Speedrunslive(s)),
            (ParamType::OrderBy, ParamValue::Order(s)) => Some(Parameter::OrderBy(s)),
            (ParamType::Direction, ParamValue::Dir(s)) => Some(Parameter::Direction(s)),
            (ParamType::Top, ParamValue::Int(s)) => Some(Parameter::Top(s)),
            (ParamType::Series, ParamValue::Text(s)) => Some(Parameter::Series(s)),
            (ParamType::Game, ParamValue::Text(s)) => Some(Parameter::Game(s)),
            (ParamType::Abbreviation, ParamValue::Text(s)) => Some(Parameter::Abbreviation(s)),
            (ParamType::Released, ParamValue::Int(s)) => Some(Parameter::Released(s)),
            (ParamType::Gametype, ParamValue::Text(s)) => Some(Parameter::Gametype(s)),
            (ParamType::Platform, ParamValue::Text(s)) => Some(Parameter::Platform(s)),
            (ParamType::Region, ParamValue::Text(s)) => Some(Parameter::Region(s)),
            (ParamType::Genre, ParamValue::Text(s)) => Some(Parameter::Genre(s)),
            (ParamType::Engine, ParamValue::Text(s)) => Some(Parameter::Engine(s)),
            (ParamType::Developer, ParamValue::Text(s)) => Some(Parameter::Developer(s)),
            (ParamType::Publisher, ParamValue::Text(s)) => Some(Parameter::Publisher(s)),
            (ParamType::Moderator, ParamValue::Text(s)) => Some(Parameter::Moderator(s)),
            _ => None,
        }
    }
}

/// The parameter-count constraint that an endpoint places on its query.
#[derive(Clone, Copy, Debug, PartialEq, Eq, Structural)]
pub enum CountRule {
    /// Exactly this many entries.
    Exactly(usize),
    /// More than this many entries.
    MoreThan(usize),
}

/// Why a request could not be built or validated.
#[derive(Clone, Debug, PartialEq, Eq)]
pub enum QueryError {
    /// The name is outside the parameter vocabulary.
    InvalidParameterName { name: String },
    /// The value does not have the type that the named parameter takes.
    InvalidParameterValue { name: String },
    /// The encoded query breaks the endpoint's count rule.
    WrongParameterCount { expected: CountRule, got: usize },
}

/// A request: one endpoint and the parameters appended to it, in order.
#[derive(Clone, Debug)]
pub struct QueryData {
    query_type: QueryType,
    params: Vec<Parameter>,
}

impl View for QueryData {
    type V = (QueryType, Seq<Parameter>);

    closed spec fn view(&self) -> (QueryType, Seq<Parameter>) {
        (self.query_type, self.params@)
    }
}

impl QueryData {
    /// A request for `query_type` with no parameters.
    pub fn new(query_type: QueryType) -> (r: Self)
        ensures
            r@ == (query_type, Seq::<Parameter>::empty()),
    {
        QueryData { query_type, params: Vec::new() }
    }

    /// The endpoint, fixed at construction.
    pub fn query_type(&self) -> (r: &QueryType)
        ensures
            *r == self@.0,
    {
        &self.query_type
    }

    /// The parameters in the order they were appended.
    pub fn params(&self) -> (r: &[Parameter])
        ensures
            r@ == self@.1,
    {
        self.params.as_slice()
    }

    /// Appends a parameter.
    pub fn push(&mut self, p: Parameter)
        ensures
            final(self)@ == (old(self)@.0, old(self)@.1.push(p)),
    {
        self.params.push(p);
    }

    /// Appends the parameter named `name` with `value`. A name outside the
    /// vocabulary, or a value of the wrong type for it, is refused and the
    /// request is left as it was.
    pub fn param(&mut self, name: &str, value: ParamValue) -> (r: Result<(), QueryError>)
        ensures
            match param_type_of(name@) {
                None => {
                    &&& r matches Err(QueryError::InvalidParameterName { name: n })
                    &&& n@ == name@
                    &&& final(self)@ == old(self)@
                },
                Some(t) => match make_param(t, value) {
                    None => {
                        &&& r matches Err(QueryError::InvalidParameterValue { name: n })
                        &&& n@ == name@
                        &&& final(self)@ == old(self)@
                    },
                    Some(p) => {
                        &&& r is Ok
                        &&& final(self)@ == (old(self)@.0, old(self)@.1.push(p))
                    },
                },
            },
    {
        match ParamType::from_name(name) {
            None => Err(QueryError::InvalidParameterName { name: String::from_str(name) }),
            Some(t) => match t.with_value(value) {
                None => Err(QueryError::InvalidParameterValue { name: String::from_str(name) }),
                Some(p) => {
                    self.params.push(p);
                    Ok(())
                },
            },
        }
    }
}

/// The vocabulary is a bijection: looking up the canonical name of a kind
/// gives that kind back, and a name that looks up to a kind is that kind's
/// canonical name.
pub proof fn lemma_vocabulary_bijective(t: ParamType, name: Seq<char>)
    ensures
        param_type_of(t.name_spec()) == Some(t),
        param_type_of(name) == Some(t) ==> name == t.name_spec(),
{
    match t {
        ParamType::Lookup => {
            reveal_strlit("lookup");
        },
        ParamType::Name => {
            reveal_strlit("name");
            reveal_strlit("lookup");
            assert("lookup"@.len() != "name"@.len());
        },
        ParamType::Twitch => {
            reveal_strlit("twitch");
            reveal_strlit("lookup");
            assert("lookup"@[0] != "twitch"@[0]);
            reveal_strlit("name");
            assert("name"@.len() != "twitch"@.len());
        },
        ParamType::Hitbox => {
            reveal_strlit("hitbox");
            reveal_strlit("lookup");
            assert("lookup"@[0] != "hitbox"@[0]);
            reveal_strlit("name");
            assert("name"@.len() != "hitbox"@.len());
            reveal_strlit("twitch");
            assert("twitch"@[0] != "hitbox"@[0]);
        },
        ParamType::Twitter => {
            reveal_strlit("twitter");
            reveal_strlit("lookup");
            assert("lookup"@.len() != "twitter"@.len());
            reveal_strlit("name");
            assert("name"@.len() != "twitter"@.len());
            reveal_strlit("twitch");
            assert("twitch"@.len() != "twitter"@.len());
            reveal_strlit("hitbox");
            assert("hitbox"@.len() != "twitter"@.len());
        },
        ParamType::Speedrunslive => {
            reveal_strlit("speedrunslive");
            reveal_strlit("lookup");
            assert("lookup"@.len() != "speedrunslive"@.len());
            reveal_strlit("name");
            assert("name"@.len() != "speedrunslive"@.len());
            reveal_strlit("twitch");
            assert("twitch"@.len() != "speedrunslive"@.len());
            reveal_strlit("hitbox");
            assert("hitbox"@.len() != "speedrunslive"@.len());
            reveal_strlit("twitter");
            assert("twitter"@.len() != "speedrunslive"@.len());
        },
        ParamType::OrderBy => {
            reveal_strlit("orderby");
            reveal_strlit("lookup");
            assert("lookup"@.len() != "orderby"@.len());
            reveal_strlit("name");
            assert("name"@.len() != "orderby"@.len());
            reveal_strlit("twitch");
            assert("twitch"@.len() != "orderby"@.len());
            reveal_strlit("hitbox");
            assert("hitbox"@.len() != "orderby"@.len());
            reveal_strlit("twitter");
            assert("twitter"@[0] != "orderby"@[0]);
            reveal_strlit("speedrunslive");
            assert("speedrunslive"@.len() != "orderby"@.len());
        },
        ParamType::Direction => {
            reveal_strlit("direction");
            reveal_strlit("lookup");
            assert("lookup"@.len() != "direction"@.len());
            reveal_strlit("name");
            assert("name"@.len() != "direction"@.len());
            reveal_strlit("twitch");
            assert("twitch"@.len() != "direction"@.len());
            reveal_strlit("hitbox");
            assert("hitbox"@.len() != "direction"@.len());
            reveal_strlit("twitter");
            assert("twitter"@.len() != "direction"@.len());
            reveal_strlit("speedrunslive");
            assert("speedrunslive"@.len() != "direction"@.len());
            reveal_strlit("orderby");
            assert("orderby"@.len() != "direction"@.len());
        },
        ParamType::Top => {
            reveal_strlit("top");
            reveal_strlit("lookup");
            assert("lookup"@.len() != "top"@.len());
            reveal_strlit("name");
            assert("name"@.len() != "top"@.len());
            reveal_strlit("twitch");
            assert("twitch"@.len() != "top"@.len());
            reveal_strlit("hitbox");
            assert("hitbox"@.len() != "top"@.len());
            reveal_strlit("twitter");
            assert("twitter"@.len() != "top"@.len());
            reveal_strlit("speedrunslive");
            assert("speedrunslive"@.len() != "top"@.len());
            reveal_strlit("orderby");
            assert("orderby"@.len() != "top"@.len());
            reveal_strlit("direction");
            assert("direction"@.len() != "top"@.len());
        },
        ParamType::Series => {
            reveal_strlit("series");
            reveal_strlit("lookup");
            assert("lookup"@[0] != "series"@[0]);
            reveal_strlit("name");
            assert("name"@.len() != "series"@.len());
            reveal_strlit("twitch");
            assert("twitch"@[0] != "series"@[0]);
            reveal_strlit("hitbox");
            assert("hitbox"@[0] != "series"@[0]);
            reveal_strlit("twitter");
            assert("twitter"@.len() != "series"@.len());
            reveal_strlit("speedrunslive");
            assert("speedrunslive"@.len() != "series"@.len());
            reveal_strlit("orderby");
            assert("orderby"@.len() != "series"@.len());
            reveal_strlit("direction");
            assert("direction"@.len() != "series"@.len());
            reveal_strlit("top");
            assert("top"@.len() != "series"@.len());
        },
        ParamType::Game => {
            reveal_strlit("game");
            reveal_strlit("lookup");
            assert("lookup"@.len() != "game"@.len());
            reveal_strlit("name");
            assert("name"@[0] != "game"@[0]);
            reveal_strlit("twitch");
            assert("twitch"@.len() != "game"@.len());
            reveal_strlit("hitbox");
            assert("hitbox"@.len() != "game"@.len());
            reveal_strlit("twitter");
            assert("twitter"@.len() != "game"@.len());
            reveal_strlit("speedrunslive");
            assert("speedrunslive"@.len() != "game"@.len());
            reveal_strlit("orderby");
            assert("orderby"@.len() != "game"@.len());
            reveal_strlit("direction");
            assert("direction"@.len() != "game"@.len());
            reveal_strlit("top");
            assert("top"@.len() != "game"@.len());
            reveal_strlit("series");
            assert("series"@.len() != "game"@.len());
        },
        ParamType::Abbreviation => {
            reveal_strlit("abbreviation");
            reveal_strlit("lookup");
            assert("lookup"@.len() != "abbreviation"@.len());
            reveal_strlit("name");
            assert("name"@.len() != "abbreviation"@.len());
            reveal_strlit("twitch");
            assert("twitch"@.len() != "abbreviation"@.len());
            reveal_strlit("hitbox");
            assert("hitbox"@.len() != "abbreviation"@.len());
            reveal_strlit("twitter");
            assert("twitter"@.len() != "abbreviation"@.len());
            reveal_strlit("speedrunslive");
            assert("speedrunslive"@.len() != "abbreviation"@.len());
            reveal_strlit("orderby");
            assert("orderby"@.len() != "abbreviation"@.len());
            reveal_strlit("direction");
            assert("direction"@.len() != "abbreviation"@.len());
            reveal_strlit("top");
            assert("top"@.len() != "abbreviation"@.len());
            reveal_strlit("series");
            assert("series"@.len() != "abbreviation"@.len());
            reveal_strlit("game");
            assert("game"@.len() != "abbreviation"@.len());
        },
        ParamType::Released => {
            reveal_strlit("released");
            reveal_strlit("lookup");
            assert("lookup"@.len() != "released"@.len());
            reveal_strlit("name");
            assert("name"@.len() != "released"@.len());
            reveal_strlit("twitch");
            assert("twitch"@.len() != "released"@.len());
            reveal_strlit("hitbox");
            assert("hitbox"@.len() != "released"@.len());
            reveal_strlit("twitter");
            assert("twitter"@.len() != "released"@.len());
            reveal_strlit("speedrunslive");
            assert("speedrunslive"@.len() != "released"@.len());
            reveal_strlit("orderby");
            assert("orderby"@.len() != "released"@.len());
            reveal_strlit("direction");
            assert("direction"@.len() != "released"@.len());
            reveal_strlit("top");
            assert("top"@.len() != "released"@.len());
            reveal_strlit("series");
            assert("series"@.len() != "released"@.len());
            reveal_strlit("game");
            assert("game"@.len() != "released"@.len());
            reveal_strlit("abbreviation");
            assert("abbreviation"@.len() != "released"@.len());
        },
        ParamType::Gametype => {
            reveal_strlit("gametype");
            reveal_strlit("lookup");
            assert("lookup"@.len() != "gametype"@.len());
            reveal_strlit("name");
            assert("name"@.len() != "gametype"@.len());
            reveal_strlit("twitch");
            assert("twitch"@.len() != "gametype"@.len());
            reveal_strlit("hitbox");
            assert("hitbox"@.len() != "gametype"@.len());
            reveal_strlit("twitter");
            assert("twitter"@.len() != "gametype"@.len());
            reveal_strlit("speedrunslive");
            assert("speedrunslive"@.len() != "gametype"@.len());
            reveal_strlit("orderby");
            assert("orderby"@.len() != "gametype"@.len());
            reveal_strlit("direction");
            assert("direction"@.len() != "gametype"@.len());
            reveal_strlit("top");
            assert("top"@.len() != "gametype"@.len());
            reveal_strlit("series");
            assert("series"@.len() != "gametype"@.len());
            reveal_strlit("game");
            assert("game"@.len() != "gametype"@.len());
            reveal_strlit("abbreviation");
            assert("abbreviation"@.len() != "gametype"@.len());
            reveal_strlit("released");
            assert("released"@[0] != "gametype"@[0]);
        },
        ParamType::Platform => {
            reveal_strlit("platform");
            reveal_strlit("lookup");
            assert("lookup"@.len() != "platform"@.len());
            reveal_strlit("name");
            assert("name"@.len() != "platform"@.len());
            reveal_strlit("twitch");
            assert("twitch"@.len() != "platform"@.len());
            reveal_strlit("hitbox");
            assert("hitbox"@.len() != "platform"@.len());
            reveal_strlit("twitter");
            assert("twitter"@.len() != "platform"@.len());
            reveal_strlit("speedrunslive");
            assert("speedrunslive"@.len() != "platform"@.len());
            reveal_strlit("orderby");
            assert("orderby"@.len() != "platform"@.len());
            reveal_strlit("direction");
            assert("direction"@.len() != "platform"@.len());
            reveal_strlit("top");
            assert("top"@.len() != "platform"@.len());
            reveal_strlit("series");
            assert("series"@.len() != "platform"@.len());
            reveal_strlit("game");
            assert("game"@.len() != "platform"@.len());
            reveal_strlit("abbreviation");
            assert("abbreviation"@.len() != "platform"@.len());
            reveal_strlit("released");
            assert("released"@[0] != "platform"@[0]);
            reveal_strlit("gametype");
            assert("gametype"@[0] != "platform"@[0]);
        },
        ParamType::Region => {
            reveal_strlit("region");
            reveal_strlit("lookup");
            assert("lookup"@[0] != "region"@[0]);
            reveal_strlit("name");
            assert("name"@.len() != "region"@.len());
            reveal_strlit("twitch");
            assert("twitch"@[0] != "region"@[0]);
            reveal_strlit("hitbox");
            assert("hitbox"@[0] != "region"@[0]);
            reveal_strlit("twitter");
            assert("twitter"@.len() != "region"@.len());
            reveal_strlit("speedrunslive");
            assert("speedrunslive"@.len() != "region"@.len());
            reveal_strlit("orderby");
            assert("orderby"@.len() != "region"@.len());
            reveal_strlit("direction");
            assert("direction"@.len() != "region"@.len());
            reveal_strlit("top");
            assert("top"@.len() != "region"@.len());
            reveal_strlit("series");
            assert("series"@[0] != "region"@[0]);
            reveal_strlit("game");
            assert("game"@.len() != "region"@.len());
            reveal_strlit("abbreviation");
            assert("abbreviation"@.len() != "region"@.len());
            reveal_strlit("released");
            assert("released"@.len() != "region"@.len());
            reveal_strlit("gametype");
            assert("gametype"@.len() != "region"@.len());
            reveal_strlit("platform");
            assert("platform"@.len() != "region"@.len());
        },
        ParamType::Genre => {
            reveal_strlit("genre");
            reveal_strlit("lookup");
            assert("lookup"@.len() != "genre"@.len());
            reveal_strlit("name");
            assert("name"@.len() != "genre"@.len());
            reveal_strlit("twitch");
            assert("twitch"@.len() != "genre"@.len());
            reveal_strlit("hitbox");
            assert("hitbox"@.len() != "genre"@.len());
            reveal_strlit("twitter");
            assert("twitter"@.len() != "genre"@.len());
            reveal_strlit("speedrunslive");
            assert("speedrunslive"@.len() != "genre"@.len());
            reveal_strlit("orderby");
            assert("orderby"@.len() != "genre"@.len());
            reveal_strlit("direction");
            assert("direction"@.len() != "genre"@.len());
            reveal_strlit("top");
            assert("top"@.len() != "genre"@.len());
            reveal_strlit("series");
            assert("series"@.len() != "genre"@.len());
            reveal_strlit("game");
            assert("game"@.len() != "genre"@.len());
            reveal_strlit("abbreviation");
            assert("abbreviation"@.len() != "genre"@.len());
            reveal_strlit("released");
            assert("released"@.len() != "genre"@.len());
            reveal_strlit("gametype");
            assert("gametype"@.len() != "genre"@.len());
            reveal_strlit("platform");
            assert("platform"@.len() != "genre"@.len());
            reveal_strlit("region");
            assert("region"@.len() != "genre"@.len());
        },
        ParamType::Engine => {
            reveal_strlit("engine");
            reveal_strlit("lookup");
            assert("lookup"@[0] != "engine"@[0]);
            reveal_strlit("name");
            assert("name"@.len() != "engine"@.len());
            reveal_strlit("twitch");
            assert("twitch"@[0] != "engine"@[0]);
            reveal_strlit("hitbox");
            assert("hitbox"@[0] != "engine"@[0]);
            reveal_strlit("twitter");
            assert("twitter"@.len() != "engine"@.len());
            reveal_strlit("speedrunslive");
            assert("speedrunslive"@.len() != "engine"@.len());
            reveal_strlit("orderby");
            assert("orderby"@.len() != "engine"@.len());
            reveal_strlit("direction");
            assert("direction"@.len() != "engine"@.len());
            reveal_strlit("top");
            assert("top"@.len() != "engine"@.len());
            reveal_strlit("series");
            assert("series"@[0] != "engine"@[0]);
            reveal_strlit("game");
            assert("game"@.len() != "engine"@.len());
            reveal_strlit("abbreviation");
            assert("abbreviation"@.len() != "engine"@.len());
            reveal_strlit("released");
            assert("released"@.len() != "engine"@.len());
            reveal_strlit("gametype");
            assert("gametype"@.len() != "engine"@.len());
            reveal_strlit("platform");
            assert("platform"@.len() != "engine"@.len());
            reveal_strlit("region");
            assert("region"@[0] != "engine"@[0]);
            reveal_strlit("genre");
            assert("genre"@.len() != "engine"@.len());
        },
        ParamType::Developer => {
            reveal_strlit("developer");
            reveal_strlit("lookup");
            assert("lookup"@.len() != "developer"@.len());
            reveal_strlit("name");
            assert("name"@.len() != "developer"@.len());
            reveal_strlit("twitch");
            assert("twitch"@.len() != "developer"@.len());
            reveal_strlit("hitbox");
            assert("hitbox"@.len() != "developer"@.len());
            reveal_strlit("twitter");
            assert("twitter"@.len() != "developer"@.len());
            reveal_strlit("speedrunslive");
            assert("speedrunslive"@.len() != "developer"@.len());
            reveal_strlit("orderby");
            assert("orderby"@.len() != "developer"@.len());
            reveal_strlit("direction");
            assert("direction"@[1] != "developer"@[1]);
            reveal_strlit("top");
            assert("top"@.len() != "developer"@.len());
            reveal_strlit("series");
            assert("series"@.len() != "developer"@.len());
            reveal_strlit("game");
            assert("game"@.len() != "developer"@.len());
            reveal_strlit("abbreviation");
            assert("abbreviation"@.len() != "developer"@.len());
            reveal_strlit("released");
            assert("released"@.len() != "developer"@.len());
            reveal_strlit("gametype");
            assert("gametype"@.len() != "developer"@.len());
            reveal_strlit("platform");
            assert("platform"@.len() != "developer"@.len());
            reveal_strlit("region");
            assert("region"@.len() != "developer"@.len());
            reveal_strlit("genre");
            assert("genre"@.len() != "developer"@.len());
            reveal_strlit("engine");
            assert("engine"@.len() != "developer"@.len());
        },
        ParamType::Publisher => {
            reveal_strlit("publisher");
            reveal_strlit("lookup");
            assert("lookup"@.len() != "publisher"@.len());
            reveal_strlit("name");
            assert("name"@.len() != "publisher"@.len());
            reveal_strlit("twitch");
            assert("twitch"@.len() != "publisher"@.len());
            reveal_strlit("hitbox");
            assert("hitbox"@.len() != "publisher"@.len());
            reveal_strlit("twitter");
            assert("twitter"@.len() != "publisher"@.len());
            reveal_strlit("speedrunslive");
            assert("speedrunslive"@.len() != "publisher"@.len());
            reveal_strlit("orderby");
            assert("orderby"@.len() != "publisher"@.len());
            reveal_strlit("direction");
            assert("direction"@[0] != "publisher"@[0]);
            reveal_strlit("top");
            assert("top"@.len() != "publisher"@.len());
            reveal_strlit("series");
            assert("series"@.len() != "publisher"@.len());
            reveal_strlit("game");
            assert("game"@.len() != "publisher"@.len());
            reveal_strlit("abbreviation");
            assert("abbreviation"@.len() != "publisher"@.len());
            reveal_strlit("released");
            assert("released"@.len() != "publisher"@.len());
            reveal_strlit("gametype");
            assert("gametype"@.len() != "publisher"@.len());
            reveal_strlit("platform");
            assert("platform"@.len() != "publisher"@.len());
            reveal_strlit("region");
            assert("region"@.len() != "publisher"@.len());
            reveal_strlit("genre");
            assert("genre"@.len() != "publisher"@.len());
            reveal_strlit("engine");
            assert("engine"@.len() != "publisher"@.len());
            reveal_strlit("developer");
            assert("developer"@[0] != "publisher"@[0]);
        },
        ParamType::Moderator => {
            reveal_strlit("moderator");
            reveal_strlit("lookup");
            assert("lookup"@.len() != "moderator"@.len());
            reveal_strlit("name");
            assert("name"@.len() != "moderator"@.len());
            reveal_strlit("twitch");
            assert("twitch"@.len() != "moderator"@.len());
            reveal_strlit("hitbox");
            assert("hitbox"@.len() != "moderator"@.len());
            reveal_strlit("twitter");
            assert("twitter"@.len() != "moderator"@.len());
            reveal_strlit("speedrunslive");
            assert("speedrunslive"@.len() != "moderator"@.len());
            reveal_strlit("orderby");
            assert("orderby"@.len() != "moderator"@.len());
            reveal_strlit("direction");
            assert("direction"@[0] != "moderator"@[0]);
            reveal_strlit("top");
            assert("top"@.len() != "moderator"@.len());
            reveal_strlit("series");
            assert("series"@.len() != "moderator"@.len());
            reveal_strlit("game");
            assert("game"@.len() != "moderator"@.len());
            reveal_strlit("abbreviation");
            assert("abbreviation"@.len() != "moderator"@.len());
            reveal_strlit("released");
            assert("released"@.len() != "moderator"@.len());
            reveal_strlit("gametype");
            assert("gametype"@.len() != "moderator"@.len());
            reveal_strlit("platform");
            assert("platform"@.len() != "moderator"@.len());
            reveal_strlit("region");
            assert("region"@.len() != "moderator"@.len());
            reveal_strlit("genre");
            assert("genre"@.len() != "moderator"@.len());
            reveal_strlit("engine");
            assert("engine"@.len() != "moderator"@.len());
            reveal_strlit("developer");
            assert("developer"@[0] != "moderator"@[0]);
            reveal_strlit("publisher");
            assert("publisher"@[0] != "moderator"@[0]);
        },
    }
}

/// Every canonical name is made of lower-case letters, which the form encoding
/// leaves as they are.
pub proof fn lemma_names_form_unchanged(t: ParamType)
    ensures
        forall|i: int| 0 <= i < t.name_spec().len() ==> form_unchanged(#[trigger] t.name_spec()[i]),
{
    match t {
        ParamType::Lookup => {
            reveal_strlit("lookup");
        },
        ParamType::Name => {
            reveal_strlit("name");
        },
        ParamType::Twitch => {
            reveal_strlit("twitch");
        },
        ParamType::Hitbox => {
            reveal_strlit("hitbox");
        },
        ParamType::Twitter => {
            reveal_strlit("twitter");
        },
        ParamType::Speedrunslive => {
            reveal_strlit("speedrunslive");
        },
        ParamType::OrderBy => {
            reveal_strlit("orderby");
        },
        ParamType::Direction => {
            reveal_strlit("direction");
        },
        ParamType::Top => {
            reveal_strlit("top");
        },
        ParamType::Series => {
            reveal_strlit("series");
        },
        ParamType::Game => {
            reveal_strlit("game");
        },
        ParamType::Abbreviation => {
            reveal_strlit("abbreviation");
        },
        ParamType::Released => {
            reveal_strlit("released");
        },
        ParamType::Gametype => {
            reveal_strlit("gametype");
        },
        ParamType::Platform => {
            reveal_strlit("platform");
        },
        ParamType::Region => {
            reveal_strlit("region");
        },
        ParamType::Genre => {
            reveal_strlit("genre");
        },
        ParamType::Engine => {
            reveal_strlit("engine");
        },
        ParamType::Developer => {
            reveal_strlit("developer");
        },
        ParamType::Publisher => {
            reveal_strlit("publisher");
        },
        ParamType::Moderator => {
            reveal_strlit("moderator");
        },
    }
}

} // verus!
