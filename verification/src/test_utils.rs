//! A stand-in for a cluster's API that answers from a table, and the JSON that such tables hold.

use vstd::prelude::*;
use vstd::string::*;
use crate::text::{join3, str_eq};
use crate::types::string_map::{first_prefix_match, map_of, put, StringMap};

verus! {

/// The status with which a request that nothing was registered for is answered.
pub const NOT_FOUND: u16 = 404;

/// The body with which a request that nothing was registered for is answered.
pub const NOT_FOUND_BODY: &'static str =
    "{\"kind\":\"Status\",\"apiVersion\":\"v1\",\"status\":\"Failure\",\"message\":\"not found\",\"reason\":\"NotFound\",\"code\":404}";

/// What `serde_json` writes for a JSON string that holds `text`: the text in
/// double quotes, escaped as JSON asks.
pub uninterp spec fn json_literal(text: Seq<char>) -> Seq<char>;

/// Calls `to_string` on the `serde_json::Value` that holds `text` as a string:
/// the compact JSON text of that value.
#[verifier::external_body]
fn json_string(text: &str) -> (literal: String)
    ensures
        literal@ == json_literal(text@),
{
    serde_json::Value::String(text.to_owned()).to_string()
}

/// A table of answers by method and path, in place of a cluster's API.
#[derive(Debug)]
pub struct MockService {
    gets: StringMap<(u16, String)>,
    posts: StringMap<(u16, String)>,
}

/// What a `MockService` holds, as mathematical values: for each of the two
/// methods the answers in the order in which they are kept, each with its path.
pub struct MockServiceView {
    pub gets: Seq<(Seq<char>, (u16, Seq<char>))>,
    pub posts: Seq<(Seq<char>, (u16, Seq<char>))>,
}

impl MockServiceView {
    /// The answers that are registered for a method.
    pub open spec fn registered(self, method: Seq<char>) -> Seq<(Seq<char>, (u16, Seq<char>))> {
        if method == "GET"@ {
            self.gets
        } else if method == "POST"@ {
            self.posts
        } else {
            Seq::empty()
        }
    }

    /// The answer that is registered for a request: the one for exactly this
    /// path, else the first of those whose path is a prefix of this one.
    pub open spec fn find_response(self, method: Seq<char>, path: Seq<char>) -> Option<
        (u16, Seq<char>),
    > {
        let answers = map_of(self.registered(method));
        if answers.contains_key(path) {
            Some(answers[path])
        } else {
            first_prefix_match(self.registered(method), path)
        }
    }

    /// The answer to a request: the registered one, else the standing 404.
    pub open spec fn respond(self, method: Seq<char>, path: Seq<char>) -> (u16, Seq<char>) {
        match self.find_response(method, path) {
            Some(answer) => answer,
            None => (NOT_FOUND, NOT_FOUND_BODY@),
        }
    }
}

impl View for MockService {
    type V = MockServiceView;

    closed spec fn view(&self) -> MockServiceView {
        MockServiceView { gets: self.gets.entries(), posts: self.posts.entries() }
    }
}

impl MockService {
    /// A table without answers.
    pub fn new() -> (mock: Self)
        ensures
            mock@ == (MockServiceView { gets: Seq::empty(), posts: Seq::empty() }),
    {
        let mock = MockService { gets: StringMap::new(), posts: StringMap::new() };
        assert(mock@.gets =~= Seq::empty());
        assert(mock@.posts =~= Seq::empty());
        mock
    }

    /// Registers the answer to `GET` requests for `path`, in place of an earlier one.
    pub fn on_get(self, path: &str, status: u16, body: &str) -> (mock: Self)
        ensures
            mock@ == (MockServiceView {
                gets: put(self@.gets, path@, (status, body@)),
                posts: self@.posts,
            }),
    {
        let mut mock = self;
        mock.gets.insert(path.to_owned(), (status, body.to_owned()));
        mock
    }

    /// Registers the answer to `POST` requests for `path`, in place of an earlier one.
    pub fn on_post(self, path: &str, status: u16, body: &str) -> (mock: Self)
        ensures
            mock@ == (MockServiceView {
                gets: self@.gets,
                posts: put(self@.posts, path@, (status, body@)),
            }),
    {
        let mut mock = self;
        mock.posts.insert(path.to_owned(), (status, body.to_owned()));
        mock
    }

    /// The answer that is registered for a request, if there is one: the one
    /// for exactly this path, else the first whose path is a prefix of it.
    pub fn find_response(&self, method: &str, path: &str) -> (answer: Option<(u16, String)>)
        ensures
            answer.deep_view() == self@.find_response(method@, path@),
    {
        proof {
            reveal_strlit("GET");
            reveal_strlit("POST");
            assert("GET"@.len() == 3 && "POST"@.len() == 4);
        }
        if str_eq(method, "GET") {
            answer_of(&self.gets, path)
        } else if str_eq(method, "POST") {
            answer_of(&self.posts, path)
        } else {
            None
        }
    }

    /// The answer to a request: the registered one, else the standing 404.
    pub fn respond(&self, method: &str, path: &str) -> (answer: (u16, String))
        ensures
            answer.deep_view() == self@.respond(method@, path@),
    {
        match self.find_response(method, path) {
            Some(answer) => answer,
            None => (NOT_FOUND, NOT_FOUND_BODY.to_owned()),
        }
    }
}

/// The answer for `path` in one method's table: the one for exactly this
/// path, else the first whose path is a prefix of it.
fn answer_of(answers: &StringMap<(u16, String)>, path: &str) -> (answer: Option<(u16, String)>)
    ensures
        answer.deep_view() == (if answers@.contains_key(path@) {
            Some(answers@[path@])
        } else {
            first_prefix_match(answers.entries(), path@)
        }),
{
    match answers.get(path) {
        Some(exact) => Some((exact.0, exact.1.clone())),
        None => match answers.first_with_prefix_of(path) {
            Some(first) => Some((first.0, first.1.clone())),
            None => None,
        },
    }
}

impl Default for MockService {
    fn default() -> (mock: Self)
        ensures
            mock@ == (MockServiceView { gets: Seq::empty(), posts: Seq::empty() }),
    {
        MockService::new()
    }
}

/// The JSON text of a namespace of this name, given the name as a JSON string.
pub fn namespace_document(name_literal: &str) -> (json: String)
    ensures
        json@ == "{\"apiVersion\":\"v1\",\"kind\":\"Namespace\",\"metadata\":{\"name\":"@
            + name_literal@ + ",\"uid\":\"test-uid\"}}"@,
{
    join3(
        "{\"apiVersion\":\"v1\",\"kind\":\"Namespace\",\"metadata\":{\"name\":",
        name_literal,
        ",\"uid\":\"test-uid\"}}",
    )
}

/// The JSON text with which an API answers for a namespace of this name.
pub fn namespace_json(name: &str) -> (json: String)
    ensures
        json@ == "{\"apiVersion\":\"v1\",\"kind\":\"Namespace\",\"metadata\":{\"name\":"@
            + json_literal(name@) + ",\"uid\":\"test-uid\"}}"@,
{
    let literal = json_string(name);
    namespace_document(literal.as_str())
}

/// The JSON text of the status that reports something as not found, given its
/// message as a JSON string.
pub fn not_found_document(message_literal: &str) -> (json: String)
    ensures
        json@ == "{\"apiVersion\":\"v1\",\"code\":404,\"kind\":\"Status\",\"message\":"@
            + message_literal@ + ",\"reason\":\"NotFound\",\"status\":\"Failure\"}"@,
{
    join3(
        "{\"apiVersion\":\"v1\",\"code\":404,\"kind\":\"Status\",\"message\":",
        message_literal,
        ",\"reason\":\"NotFound\",\"status\":\"Failure\"}",
    )
}

/// The message that reports the resource of this kind and name as not found.
pub open spec fn not_found_message(resource: Seq<char>, name: Seq<char>) -> Seq<char> {
    resource + " \""@ + name + "\" not found"@
}

/// The JSON text with which an API answers that the resource of this kind and
/// name is not found.
pub fn not_found_json(resource: &str, name: &str) -> (json: String)
    ensures
        json@ == "{\"apiVersion\":\"v1\",\"code\":404,\"kind\":\"Status\",\"message\":"@
            + json_literal(not_found_message(resource@, name@))
            + ",\"reason\":\"NotFound\",\"status\":\"Failure\"}"@,
{
    let message = crate::text::join4(resource, " \"", name, "\" not found");
    let literal = json_string(message.as_str());
    not_found_document(literal.as_str())
}

} // verus!
