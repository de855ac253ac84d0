//! GraphQL requests: a document with a bag of named variables, the JSON
//! body that carries them, and how a server's reply becomes a result.
use vstd::prelude::*;
use crate::config::Config;
use crate::order::{Ranked, rank_sorted, sort_by_rank};
use crate::text::{decimal, decimal_text, joined, lemma_lex_le_total, lemma_lex_le_transitive, lex_le};

verus! {

broadcast use vstd::string::group_string_axioms;

/// The API's GraphQL endpoint.
pub const LINEAR_URL: &'static str = "https://api.linear.app/graphql";

/// A lowercase hexadecimal digit.
pub open spec fn hex_digit(n: nat) -> char {
    if n < 10 {
        crate::text::digit(n)
    } else if n == 10 {
        'a'
    } else if n == 11 {
        'b'
    } else if n == 12 {
        'c'
    } else if n == 13 {
        'd'
    } else if n == 14 {
        'e'
    } else {
        'f'
    }
}

/// How one character is written inside a JSON string: quote and backslash
/// escaped, the usual short escapes for control characters, `\u00XX` for
/// the other control characters, anything else as it is.
pub open spec fn escaped_char(c: char) -> Seq<char> {
    let n = c as u32;
    if c == '"' {
        seq!['\\', '"']
    } else if c == '\\' {
        seq!['\\', '\\']
    } else if n == 8 {
        seq!['\\', 'b']
    } else if n == 9 {
        seq!['\\', 't']
    } else if n == 10 {
        seq!['\\', 'n']
    } else if n == 12 {
        seq!['\\', 'f']
    } else if n == 13 {
        seq!['\\', 'r']
    } else if n < 32 {
        seq!['\\', 'u', '0', '0', hex_digit((n / 16) as nat), hex_digit((n % 16) as nat)]
    } else {
        seq![c]
    }
}

/// The JSON string literal that stands for a text: quotes and escapes included.
pub open spec fn json_text(s: Seq<char>) -> Seq<char> {
    seq!['"'] + s.map_values(|c: char| escaped_char(c)).flatten() + seq!['"']
}

/// Relies on serde_json::to_string for a `str`: it writes the text between
/// quotes, escaping each character by serde_json's table (`ser.rs`,
/// `ESCAPE` and `write_char_escape`). Serializing a `str` does not fail, so
/// the empty fallback is never taken.
#[verifier::external_body]
pub(crate) fn json_string(s: &str) -> (r: String)
    ensures
        r@ == json_text(s@),
{
    serde_json::to_string(s).unwrap_or_default()
}

/// The value of one GraphQL variable.
#[derive(Clone, Debug, PartialEq, Eq)]
pub enum GqlValue {
    /// A string.
    Text(String),
    /// A small integer.
    Integer(u8),
    /// A JSON value, already written out as JSON text.
    Json(String),
}

/// How a variable's value is written in the request body.
pub open spec fn value_json(v: GqlValue) -> Seq<char> {
    match v {
        GqlValue::Text(s) => json_text(s@),
        GqlValue::Integer(n) => decimal(n as nat),
        GqlValue::Json(t) => t@,
    }
}

/// How one variable is written inside the `variables` object.
pub open spec fn member_json(e: (String, GqlValue)) -> Seq<char> {
    json_text(e.0@) + ":"@ + value_json(e.1)
}

/// A JSON object with the given members, in order.
pub open spec fn object_json(members: Seq<Seq<char>>) -> Seq<char> {
    "{"@ + joined(members, ","@) + "}"@
}

/// A request body around the document, written as JSON, and the members
/// of the `variables` object.
pub open spec fn framed_body(query_json: Seq<char>, members: Seq<Seq<char>>) -> Seq<char> {
    "{\"query\":"@ + query_json + ",\"variables\":"@ + object_json(members) + "}"@
}

/// The body of a request: the document and its variables.
pub open spec fn body_json(query: Seq<char>, vars: Seq<(String, GqlValue)>) -> Seq<char> {
    framed_body(json_text(query), vars.map_values(|e: (String, GqlValue)| member_json(e)))
}

impl GqlValue {
    /// A copy of the value.
    pub fn duplicate(&self) -> (r: GqlValue)
        ensures
            r == *self,
    {
        match self {
            GqlValue::Text(s) => GqlValue::Text(s.clone()),
            GqlValue::Integer(n) => GqlValue::Integer(*n),
            GqlValue::Json(t) => GqlValue::Json(t.clone()),
        }
    }
}

/// Variables are written in the order of their names, as a JSON object
/// with sorted keys is.
impl Ranked for (String, GqlValue) {
    open spec fn rank_le(&self, other: &Self) -> bool {
        lex_le(self.0@, other.0@)
    }

    fn ranks_no_later(&self, other: &Self) -> (r: bool) {
        crate::text::text_le(self.0.as_str(), other.0.as_str())
    }

    proof fn lemma_rank_total(a: &Self, b: &Self) {
        lemma_lex_le_total(a.0@, b.0@);
    }

    proof fn lemma_rank_transitive(a: &Self, b: &Self, c: &Self) {
        lemma_lex_le_transitive(a.0@, b.0@, c.0@);
    }
}

/// `b` is the body of the request: the variables written in name order.
pub open spec fn is_body(g: Gql, b: Seq<char>) -> bool {
    exists|v: Seq<(String, GqlValue)>|
        v.to_multiset() == g.variables@.to_multiset() && rank_sorted(v) && b == body_json(
            g.query@,
            v,
        )
}

/// The variables after setting `key` to `v`: an existing entry of that key
/// gets the new value in place, otherwise the entry is added at the end.
pub open spec fn put_var(vars: Seq<(String, GqlValue)>, key: Seq<char>, v: GqlValue) -> Seq<
    (Seq<char>, GqlValue),
> {
    let keys = vars.map_values(|e: (String, GqlValue)| (e.0@, e.1));
    if exists|i: int| 0 <= i < vars.len() && vars[i].0@ == key {
        keys.update(choose|i: int| 0 <= i < vars.len() && vars[i].0@ == key, (key, v))
    } else {
        keys.push((key, v))
    }
}

/// The variables seen as (name, value) pairs.
pub open spec fn var_pairs(vars: Seq<(String, GqlValue)>) -> Seq<(Seq<char>, GqlValue)> {
    vars.map_values(|e: (String, GqlValue)| (e.0@, e.1))
}

/// Variable names are distinct.
pub open spec fn distinct_keys(vars: Seq<(String, GqlValue)>) -> bool {
    forall|i: int, j: int| 0 <= i < j < vars.len() ==> vars[i].0@ != vars[j].0@
}

/// The endpoint the client talks to: the test override if one is set.
pub open spec fn base_url(config: Config) -> Seq<char> {
    match config.mock_url {
        Some(u) => u@,
        None => LINEAR_URL@,
    }
}

/// What the server sent back for a request, as far as the client uses it.
#[derive(Clone, Debug, PartialEq, Eq)]
pub enum HttpReply {
    /// No response was received.
    NoResponse,
    /// A success status; the body, or `None` when it could not be read.
    Success(Option<String>),
    /// Any other status, with its code and what the server said.
    Failure(u16, String),
}

/// The error for a reply with a failure status.
pub open spec fn api_error(url: Seq<char>, body: Seq<char>, status: u16, said: Seq<char>) -> Seq<
    char,
> {
    "\nurl: "@ + url + "\n========\nbody: "@ + body + "\n========\nError: "@ + decimal(
        status as nat,
    ) + " "@ + said
}

/// The result of a request, given the reply.
pub open spec fn reply_result(url: Seq<char>, body: Seq<char>, reply: HttpReply) -> Result<
    Seq<char>,
    Seq<char>,
> {
    match reply {
        HttpReply::NoResponse => Err("Did not get response from server"@),
        HttpReply::Success(Some(t)) => Ok(t@),
        HttpReply::Success(None) => Err("Could not read response text"@),
        HttpReply::Failure(status, said) => Err(api_error(url, body, status, said@)),
    }
}

/// One member of a JSON object, from its name and value written as JSON.
pub fn member(key_json: &str, value_json: &str) -> (r: String)
    ensures
        r@ == key_json@ + ":"@ + value_json@,
{
    let mut r = String::from_str(key_json);
    r.append(":");
    r.append(value_json);
    r
}

/// The request body around the document, written as JSON, and the members
/// of the `variables` object.
pub fn frame_body(query_json: &str, members: &Vec<String>) -> (r: String)
    ensures
        r@ == framed_body(query_json@, crate::text::views(members@)),
{
    let inner = crate::text::join(members, ",");
    let mut r = String::from_str("{\"query\":");
    r.append(query_json);
    r.append(",\"variables\":{");
    r.append(inner.as_str());
    r.append("}}");
    proof {
        reveal_strlit("}}");
        reveal_strlit("}");
        reveal_strlit(",\"variables\":{");
        reveal_strlit(",\"variables\":");
        reveal_strlit("{");
    }
    assert(r@ =~= framed_body(query_json@, crate::text::views(members@)));
    r
}

/// The endpoint to send requests to for a configuration.
pub fn get_base_url(config: &Config) -> (r: String)
    ensures
        r@ == base_url(*config),
{
    match &config.mock_url {
        Some(u) => u.clone(),
        None => String::from_str(LINEAR_URL),
    }
}

/// Whether a progress spinner brackets a request: it is on in the
/// configuration and not turned off from the environment.
pub fn spinner_enabled(config: &Config, disabled_by_environment: bool) -> (r: bool)
    ensures
        r == (!disabled_by_environment && config.spinners == Some(true)),
{
    !disabled_by_environment && match config.spinners {
        Some(b) => b,
        None => false,
    }
}

/// A GraphQL request: endpoint, token, document and variables.
#[derive(Clone, Debug, PartialEq, Eq)]
pub struct Gql {
    pub url: String,
    pub spinners: Option<bool>,
    pub token: String,
    pub query: String,
    pub variables: Vec<(String, GqlValue)>,
}

impl Gql {
    /// The variables have distinct names.
    pub open spec fn wf(&self) -> bool {
        distinct_keys(self.variables@)
    }

    /// A request for `query` with no variables, sent where `config` says.
    pub fn new(config: &Config, token: &str, query: &str) -> (r: Gql)
        ensures
            r.wf(),
            r.url@ == base_url(*config),
            r.spinners == config.spinners,
            r.token@ == token@,
            r.query@ == query@,
            r.variables@.len() == 0,
    {
        Gql {
            url: get_base_url(config),
            spinners: config.spinners,
            token: String::from_str(token),
            query: String::from_str(query),
            variables: Vec::new(),
        }
    }

    /// Sets a variable, replacing an earlier value of the same name.
    pub fn put(self, key: &str, value: GqlValue) -> (r: Gql)
        requires
            self.wf(),
        ensures
            r.wf(),
            var_pairs(r.variables@) == put_var(self.variables@, key@, value),
            r.url == self.url && r.spinners == self.spinners,
            r.token == self.token && r.query == self.query,
    {
        let k = String::from_str(key);
        let ghost before = self.variables@;
        match self.find_var(&k) {
            Some(i) => {
                let mut g = self;
                g.variables.set(i, (k, value));
                proof {
                    assert forall|j: int| 0 <= j < before.len() && before[j].0@ == key@ implies j
                        == i by {}
                }
                assert(var_pairs(g.variables@) =~= put_var(before, key@, value));
                g
            },
            None => {
                let mut g = self;
                g.variables.push((k, value));
                assert(var_pairs(g.variables@) =~= put_var(before, key@, value));
                g
            },
        }
    }

    /// Position of the variable named `key`, if any.
    fn find_var(&self, key: &String) -> (r: Option<usize>)
        ensures
            r matches Some(i) ==> i < self.variables@.len() && self.variables@[i as int].0@
                == key@,
            r is None ==> forall|j: int|
                0 <= j < self.variables@.len() ==> self.variables@[j].0@ != key@,
    {
        let mut i: usize = 0;
        while i < self.variables.len()
            invariant
                i <= self.variables@.len(),
                forall|j: int| 0 <= j < i ==> self.variables@[j].0@ != key@,
            decreases self.variables@.len() - i,
        {
            if self.variables[i].0 == *key {
                return Some(i);
            }
            i = i + 1;
        }
        None
    }

    /// Sets a string variable.
    pub fn put_string(self, key: &str, value: String) -> (r: Gql)
        requires
            self.wf(),
        ensures
            r.wf(),
            var_pairs(r.variables@) == put_var(self.variables@, key@, GqlValue::Text(value)),
            r.url == self.url && r.spinners == self.spinners,
            r.token == self.token && r.query == self.query,
    {
        self.put(key, GqlValue::Text(value))
    }

    /// Sets an integer variable.
    pub fn put_integer(self, key: &str, value: u8) -> (r: Gql)
        requires
            self.wf(),
        ensures
            r.wf(),
            var_pairs(r.variables@) == put_var(self.variables@, key@, GqlValue::Integer(value)),
            r.url == self.url && r.spinners == self.spinners,
            r.token == self.token && r.query == self.query,
    {
        self.put(key, GqlValue::Integer(value))
    }

    /// Sets a string variable when a value is given; otherwise the
    /// variable is left out altogether.
    pub fn maybe_put_string(self, key: &str, value: Option<String>) -> (r: Gql)
        requires
            self.wf(),
        ensures
            r.wf(),
            r.url == self.url && r.spinners == self.spinners,
            r.token == self.token && r.query == self.query,
            value matches Some(v) ==> var_pairs(r.variables@) == put_var(
                self.variables@,
                key@,
                GqlValue::Text(v),
            ),
            value is None ==> r.variables@ == self.variables@,
    {
        match value {
            Some(v) => self.put(key, GqlValue::Text(v)),
            None => self,
        }
    }

    /// Sets a variable to a JSON value given as JSON text.
    pub fn put_json(self, key: &str, json: String) -> (r: Gql)
        requires
            self.wf(),
        ensures
            r.wf(),
            var_pairs(r.variables@) == put_var(self.variables@, key@, GqlValue::Json(json)),
            r.url == self.url && r.spinners == self.spinners,
            r.token == self.token && r.query == self.query,
    {
        self.put(key, GqlValue::Json(json))
    }

    /// The variables in the order of their names.
    pub fn ordered_variables(&self) -> (r: Vec<(String, GqlValue)>)
        ensures
            r@.to_multiset() == self.variables@.to_multiset(),
            rank_sorted(r@),
    {
        let mut copy: Vec<(String, GqlValue)> = Vec::new();
        let mut i: usize = 0;
        while i < self.variables.len()
            invariant
                i <= self.variables@.len(),
                copy@ =~= self.variables@.take(i as int),
            decreases self.variables@.len() - i,
        {
            copy.push((self.variables[i].0.clone(), self.variables[i].1.duplicate()));
            i = i + 1;
        }
        assert(copy@ =~= self.variables@);
        sort_by_rank(copy)
    }

    /// The JSON body sent to the server: the document and the variables,
    /// in the order of their names.
    pub fn body(&self) -> (r: String)
        ensures
            is_body(*self, r@),
    {
        let vars = self.ordered_variables();
        let mut members: Vec<String> = Vec::new();
        let mut i: usize = 0;
        while i < vars.len()
            invariant
                i <= vars@.len(),
                members@.len() == i,
                forall|j: int| 0 <= j < i ==> #[trigger] members@[j]@ == member_json(vars@[j]),
            decreases vars@.len() - i,
        {
            let k = json_string(vars[i].0.as_str());
            let v = match &vars[i].1 {
                GqlValue::Text(s) => json_string(s.as_str()),
                GqlValue::Integer(n) => decimal_text(*n as u64),
                GqlValue::Json(t) => t.clone(),
            };
            members.push(member(k.as_str(), v.as_str()));
            i = i + 1;
        }
        assert(crate::text::views(members@) =~= vars@.map_values(
            |e: (String, GqlValue)| member_json(e),
        ));
        let q = json_string(self.query.as_str());
        let r = frame_body(q.as_str(), &members);
        assert(r@ == body_json(self.query@, vars@));
        r
    }

    /// The value of the `Authorization` header.
    pub fn authorization(&self) -> (r: String)
        ensures
            r@ == "Bearer "@ + self.token@,
    {
        let mut r = String::from_str("Bearer ");
        r.append(self.token.as_str());
        r
    }

    /// The result of the request given what the server sent back: the
    /// response text on success, otherwise an error that, for a failure
    /// status, names the endpoint and the body sent.
    pub fn outcome(&self, reply: HttpReply) -> (r: Result<String, String>)
        ensures
            reply is Failure ==> (r matches Err(e) && exists|b: Seq<char>|
                is_body(*self, b) && reply_result(self.url@, b, reply) == Err::<Seq<char>, Seq<char>>(
                    e@,
                )),
            !(reply is Failure) ==> (r matches Ok(t) ==> reply_result(self.url@, Seq::empty(), reply)
                == Ok::<Seq<char>, Seq<char>>(t@)),
            !(reply is Failure) ==> (r matches Err(e) ==> reply_result(self.url@, Seq::empty(), reply)
                == Err::<Seq<char>, Seq<char>>(e@)),
    {
        match reply {
            HttpReply::NoResponse => Err(String::from_str("Did not get response from server")),
            HttpReply::Success(Some(t)) => Ok(t),
            HttpReply::Success(None) => Err(String::from_str("Could not read response text")),
            HttpReply::Failure(status, said) => {
                let mut e = String::from_str("\nurl: ");
                e.append(self.url.as_str());
                e.append("\n========\nbody: ");
                let b = self.body();
                e.append(b.as_str());
                e.append("\n========\nError: ");
                let code = decimal_text(status as u64);
                e.append(code.as_str());
                e.append(" ");
                e.append(said.as_str());
                Err(e)
            },
        }
    }
}

} // verus!
