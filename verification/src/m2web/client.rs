//! The M2Web API client: which request each operation sends, and what the
//! response to it means.
//!
//! The client sends nothing itself. Every operation comes in two steps, with the
//! exchange over the network between them: a function that builds the request, or
//! fails where none may be sent, and a function, named after the operation, that
//! takes the answer of the API and returns what the operation returns. Between
//! the two, [`api_response`] reads the answer from what came back over the
//! network.

use crate::m2web::error::{
    decode_failure, decode_heading, transport_failure, Error, ErrorKind, ErrorKindView, ErrorView, TransportError,
    TransportErrorView, BAD_REQUEST, FORBIDDEN, GONE, INTERNAL, NO_CONTENT,
};
use crate::m2web::ewon::{decode_text, ApiResponse, ApiResponseView, Ewon, EwonView};
use crate::m2web::json::DecodeErrorView;
use crate::m2web::text::{decimal, decimal_digits, same_text};
use vstd::prelude::*;

verus! {

/// A query parameter: its name and its value.
pub type Parameter = (Seq<char>, Seq<char>);

/// A GET request, ready to be sent.
#[derive(Clone, Debug, PartialEq)]
pub struct Request {
    /// The address of the endpoint.
    pub url: String,
    /// The query parameters, in the order in which they are sent.
    pub query: Vec<(String, String)>,
}

/// The mathematical value of a [`Request`].
pub struct RequestView {
    pub url: Seq<char>,
    pub query: Seq<Parameter>,
}

impl View for Request {
    type V = RequestView;

    open spec fn view(&self) -> RequestView {
        RequestView { url: self.url@, query: self.query.deep_view() }
    }
}

/// An HTTP response, as far as the client reads it.
#[derive(Clone, Debug, PartialEq)]
pub struct Reply {
    /// The HTTP status code of the response.
    pub status: u16,
    /// The body of the response.
    pub body: String,
}

/// The mathematical value of a [`Reply`].
pub struct ReplyView {
    pub status: u16,
    pub body: Seq<char>,
}

impl View for Reply {
    type V = ReplyView;

    open spec fn view(&self) -> ReplyView {
        ReplyView { status: self.status, body: self.body@ }
    }
}

/// How an exchange with the API ended: with a response, or without one.
pub open spec fn outcome_view(outcome: Result<Reply, TransportError>) -> Result<
    ReplyView,
    TransportErrorView,
> {
    match outcome {
        Ok(reply) => Ok(reply@),
        Err(failure) => Err(failure@),
    }
}

/// What the API answered to a request, or why there is no answer.
pub open spec fn response_view(response: Result<ApiResponse, Error>) -> Result<
    ApiResponseView,
    ErrorView,
> {
    match response {
        Ok(envelope) => Ok(envelope@),
        Err(error) => Err(error@),
    }
}

/// M2Web API client.
///
/// Holds the connection parameters, the way to authenticate, and the session
/// once one is open.
#[derive(Debug)]
pub struct Client {
    /// The API base url.
    t2m_url: String,
    /// The Talk2M corporate account.
    t2m_account: String,
    /// The Talk2M user attached to the corporate account.
    t2m_username: String,
    /// The password attached to the username.
    t2m_password: String,
    /// The Talk2M API key used to check the user is authorized to use the API.
    t2m_developer_id: String,
    /// Authenticate statefully or not.
    stateful_auth: bool,
    /// Session id returned by the API in case of successful authentication.
    t2m_session: Option<String>,
}

/// The mathematical value of a [`Client`].
pub struct ClientView {
    pub url: Seq<char>,
    pub account: Seq<char>,
    pub username: Seq<char>,
    pub password: Seq<char>,
    pub developer_id: Seq<char>,
    pub stateful: bool,
    pub session: Option<Seq<char>>,
}

impl Client {
    /// Only a client that authenticates statefully ever holds a session.
    #[verifier::type_invariant]
    spec fn session_is_stateful(self) -> bool {
        self.t2m_session is Some ==> self.stateful_auth
    }
}

impl View for Client {
    type V = ClientView;

    closed spec fn view(&self) -> ClientView {
        ClientView {
            url: self.t2m_url@,
            account: self.t2m_account@,
            username: self.t2m_username@,
            password: self.t2m_password@,
            developer_id: self.t2m_developer_id@,
            stateful: self.stateful_auth,
            session: match self.t2m_session {
                Some(session) => Some(session@),
                None => None,
            },
        }
    }
}

impl ClientView {
    /// The client that is built where nothing is set: a placeholder account on
    /// the public API, stateless, without a session.
    pub open spec fn standard() -> ClientView {
        ClientView {
            url: "https://m2web.talk2m.com/t2mapi"@,
            account: "account1"@,
            username: "username1"@,
            password: "password1"@,
            developer_id: "731e38ec-981f-4f31-9cb5-e87f0d571816"@,
            stateful: false,
            session: None,
        }
    }

    /// The four parameters that carry the full credentials.
    pub open spec fn credentials(self) -> Seq<Parameter> {
        seq![
            ("t2maccount"@, self.account),
            ("t2musername"@, self.username),
            ("t2mpassword"@, self.password),
            ("t2mdeveloperid"@, self.developer_id),
        ]
    }

    /// The two parameters that authenticate a request within a session.
    pub open spec fn session_parameters(self, session: Seq<char>) -> Seq<Parameter> {
        seq![("t2msession"@, session), ("t2mdeveloperid"@, self.developer_id)]
    }

    /// Tells whether the client can ask the API for anything but a session: it
    /// is stateless, or has a session.
    pub open spec fn may_ask(self) -> bool {
        !self.stateful || self.session is Some
    }

    /// The parameters that authenticate a request to an endpoint.
    ///
    /// A stateless client always sends its full credentials, and so does a
    /// stateful client that logs in. Any other request of a stateful client
    /// carries the session, and cannot be made without one.
    pub open spec fn authentication(self, endpoint: Seq<char>) -> Result<Seq<Parameter>, ErrorView> {
        if !self.stateful || endpoint == "login"@ {
            Ok(self.credentials())
        } else {
            match self.session {
                Some(session) => Ok(self.session_parameters(session)),
                None => Err(no_session()),
            }
        }
    }

    /// The request that reaches an endpoint, with more parameters than those that
    /// authenticate it: the endpoint's address under the base url, and the
    /// authentication followed by the other parameters. There is none without an
    /// endpoint, and none where the client cannot authenticate.
    pub open spec fn request(self, endpoint: Seq<char>, more: Seq<Parameter>) -> Result<
        RequestView,
        ErrorView,
    > {
        if endpoint.len() == 0 {
            Err(no_endpoint())
        } else {
            match self.authentication(endpoint) {
                Err(error) => Err(error),
                Ok(authentication) => Ok(
                    RequestView {
                        url: self.url + "/"@ + endpoint,
                        query: authentication + more,
                    },
                ),
            }
        }
    }

    /// The request that opens a session.
    pub open spec fn login_request(self) -> Result<RequestView, ErrorView> {
        if !self.stateful {
            Err(stateless())
        } else {
            self.request("login"@, Seq::empty())
        }
    }

    /// The request that closes the session.
    pub open spec fn logout_request(self) -> Result<RequestView, ErrorView> {
        if !self.stateful {
            Err(stateless())
        } else {
            self.request("logout"@, Seq::empty())
        }
    }

    /// The request for the eWONs of a pool, or for all of them where the name of
    /// the pool is empty.
    pub open spec fn ewons_request(self, pool: Seq<char>) -> Result<RequestView, ErrorView> {
        self.request("getewons"@, seq![("pool"@, pool)])
    }

    /// The request for the eWON of a given name.
    pub open spec fn ewon_by_name_request(self, name: Seq<char>) -> Result<RequestView, ErrorView> {
        self.request("getewon"@, seq![("name"@, name)])
    }

    /// The request for the eWON of a given id.
    pub open spec fn ewon_by_id_request(self, id: u32) -> Result<RequestView, ErrorView> {
        self.request("getewon"@, seq![("id"@, decimal_digits(id as nat))])
    }

    /// What `login` returns: the session that the API opened.
    pub open spec fn login(self, response: Result<ApiResponseView, ErrorView>) -> Result<
        Seq<char>,
        ErrorView,
    > {
        match self.login_request() {
            Err(error) => Err(error),
            Ok(_) => match response {
                Err(error) => Err(error),
                Ok(response) => Ok(response.t2msession),
            },
        }
    }

    /// The client after `login`: with the session that the API opened, or as it
    /// was where the API opened none.
    pub open spec fn after_login(self, response: Result<ApiResponseView, ErrorView>) -> ClientView {
        match self.login(response) {
            Ok(session) => ClientView { session: Some(session), ..self },
            Err(_) => self,
        }
    }

    /// What `logout` returns: nothing, once the API has closed the session.
    pub open spec fn logout(self, response: Result<ApiResponseView, ErrorView>) -> Result<
        (),
        ErrorView,
    > {
        match self.logout_request() {
            Err(error) => Err(error),
            Ok(_) => match response {
                Err(error) => Err(error),
                Ok(_) => Ok(()),
            },
        }
    }

    /// The client after the session was asked to be closed: without a session, or
    /// as it was where the API did not close it.
    pub open spec fn after_logout(self, response: Result<ApiResponseView, ErrorView>) -> ClientView {
        match self.logout(response) {
            Ok(_) => ClientView { session: None, ..self },
            Err(_) => self,
        }
    }

    /// What `get_ewons` returns: the eWONs of the response, which are never none.
    pub open spec fn get_ewons(self, response: Result<ApiResponseView, ErrorView>) -> Result<
        Seq<EwonView>,
        ErrorView,
    > {
        match self.authentication("getewons"@) {
            Err(error) => Err(error),
            Ok(_) => match response {
                Err(error) => Err(error),
                Ok(response) => if response.ewons.len() == 0 {
                    Err(no_content())
                } else {
                    Ok(response.ewons)
                },
            },
        }
    }

    /// What `get_ewon_by_name` and `get_ewon_by_id` return: the eWON of the
    /// response.
    pub open spec fn get_ewon(self, response: Result<ApiResponseView, ErrorView>) -> Result<
        EwonView,
        ErrorView,
    > {
        match self.authentication("getewon"@) {
            Err(error) => Err(error),
            Ok(_) => match response {
                Err(error) => Err(error),
                Ok(response) => Ok(response.ewon),
            },
        }
    }
}

/// The error of a stateful client that asks for anything before it has logged in.
pub open spec fn no_session() -> ErrorView {
    ErrorView {
        code: FORBIDDEN,
        kind: ErrorKindView::InvalidCredentials(
            "No session opened, please login before requesting the API"@,
        ),
    }
}

/// The error of a stateless client that is asked to open or close a session.
pub open spec fn stateless() -> ErrorView {
    ErrorView { code: INTERNAL, kind: ErrorKindView::StatelessAuthSet("stateful_auth was not set"@) }
}

/// The error of a request without an endpoint.
pub open spec fn no_endpoint() -> ErrorView {
    ErrorView { code: INTERNAL, kind: ErrorKindView::InternalError("no API endpoint provided"@) }
}

/// The error of a list of eWONs that holds none.
pub open spec fn no_content() -> ErrorView {
    ErrorView { code: NO_CONTENT, kind: ErrorKindView::NoContent("No eWON were returned by API"@) }
}

/// What an envelope means, together with the HTTP status code that it came with.
///
/// An envelope that reports success is handed on, whatever the status code. One
/// that reports a failure becomes the error that goes with the status code: a
/// missing parameter for 400, invalid credentials for 403, an empty response for
/// 410, each with the message of the envelope; and an unknown error for every
/// other code.
pub open spec fn classify_envelope(status: u16, envelope: ApiResponseView) -> Result<
    ApiResponseView,
    ErrorView,
> {
    if envelope.success {
        Ok(envelope)
    } else if status == BAD_REQUEST {
        Err(ErrorView { code: status, kind: ErrorKindView::MissingParameter(envelope.message) })
    } else if status == FORBIDDEN {
        Err(ErrorView { code: status, kind: ErrorKindView::InvalidCredentials(envelope.message) })
    } else if status == GONE {
        Err(ErrorView { code: status, kind: ErrorKindView::EmptyResponse(envelope.message) })
    } else {
        Err(
            ErrorView {
                code: INTERNAL,
                kind: ErrorKindView::UnknownError("Unkown error occurred"@),
            },
        )
    }
}

/// What a response means, once its body has been decoded or has failed to be.
pub open spec fn classify_decoded(
    status: u16,
    decoded: Result<ApiResponseView, DecodeErrorView>,
) -> Result<ApiResponseView, ErrorView> {
    match decoded {
        Err(failure) => Err(decode_failure(failure)),
        Ok(envelope) => classify_envelope(status, envelope),
    }
}

/// What the outcome of an exchange means: the envelope of a response that
/// reports success, and an error for everything else.
pub open spec fn api_response_of(outcome: Result<ReplyView, TransportErrorView>) -> Result<
    ApiResponseView,
    ErrorView,
> {
    match outcome {
        Err(failure) => Err(transport_failure(failure)),
        Ok(reply) => classify_decoded(reply.status, decode_text(reply.body)),
    }
}

/// Tells what an envelope means, together with the HTTP status code that it came
/// with.
pub fn classify(status: u16, envelope: ApiResponse) -> (response: Result<ApiResponse, Error>)
    ensures
        response matches Ok(value) ==> classify_envelope(status, envelope@) == Ok::<
            ApiResponseView,
            ErrorView,
        >(value@),
        response matches Err(error) ==> classify_envelope(status, envelope@) == Err::<
            ApiResponseView,
            ErrorView,
        >(error@),
        response is Ok <==> envelope.success,
{
    if envelope.success {
        Ok(envelope)
    } else if status == BAD_REQUEST {
        Err(Error { code: status, kind: ErrorKind::MissingParameter(envelope.message) })
    } else if status == FORBIDDEN {
        Err(Error { code: status, kind: ErrorKind::InvalidCredentials(envelope.message) })
    } else if status == GONE {
        Err(Error { code: status, kind: ErrorKind::EmptyResponse(envelope.message) })
    } else {
        Err(
            Error {
                code: INTERNAL,
                kind: ErrorKind::UnknownError("Unkown error occurred".to_owned()),
            },
        )
    }
}

/// Tells what the outcome of an exchange means: decodes the body of the response
/// and classifies the envelope, or turns the failure of the transport into an
/// error.
pub fn api_response(outcome: Result<Reply, TransportError>) -> (response: Result<
    ApiResponse,
    Error,
>)
    ensures
        response matches Ok(value) ==> api_response_of(outcome_view(outcome)) == Ok::<
            ApiResponseView,
            ErrorView,
        >(value@),
        response matches Err(error) ==> api_response_of(outcome_view(outcome)) == Err::<
            ApiResponseView,
            ErrorView,
        >(error@),
        response matches Ok(value) ==> outcome is Ok && value.success,
{
    match outcome {
        Err(failure) => Err(Error::from(failure)),
        Ok(reply) => match ApiResponse::decode(reply.body.as_str()) {
            Err(failure) => Err(Error::from(failure)),
            Ok(envelope) => classify(reply.status, envelope),
        },
    }
}

/// Builds the error of a stateful client that has not logged in.
fn no_session_error() -> (error: Error)
    ensures
        error@ == no_session(),
{
    Error {
        code: FORBIDDEN,
        kind: ErrorKind::InvalidCredentials(
            "No session opened, please login before requesting the API".to_owned(),
        ),
    }
}

/// Builds the error of a stateless client that is asked for a session.
fn stateless_error() -> (error: Error)
    ensures
        error@ == stateless(),
{
    Error { code: INTERNAL, kind: ErrorKind::StatelessAuthSet("stateful_auth was not set".to_owned()) }
}

impl Client {
    /// Builds the parameters that authenticate a request to an endpoint.
    fn authentication(&self, endpoint: &str) -> (query: Result<Vec<(String, String)>, Error>)
        ensures
            query matches Ok(parameters) ==> self@.authentication(endpoint@) == Ok::<
                Seq<Parameter>,
                ErrorView,
            >(parameters.deep_view()),
            query matches Err(error) ==> self@.authentication(endpoint@) == Err::<
                Seq<Parameter>,
                ErrorView,
            >(error@),
    {
        let mut query: Vec<(String, String)> = Vec::new();
        if !self.stateful_auth || same_text(endpoint, "login") {
            query.push(("t2maccount".to_owned(), self.t2m_account.clone()));
            query.push(("t2musername".to_owned(), self.t2m_username.clone()));
            query.push(("t2mpassword".to_owned(), self.t2m_password.clone()));
            query.push(("t2mdeveloperid".to_owned(), self.t2m_developer_id.clone()));
            assert(query.deep_view() =~= self@.credentials());
            Ok(query)
        } else {
            match &self.t2m_session {
                Some(session) => {
                    query.push(("t2msession".to_owned(), session.clone()));
                    query.push(("t2mdeveloperid".to_owned(), self.t2m_developer_id.clone()));
                    assert(query.deep_view() =~= self@.session_parameters(session@));
                    Ok(query)
                },
                None => Err(no_session_error()),
            }
        }
    }

    /// Builds the request that reaches an endpoint: the parameters that
    /// authenticate it, followed by those given here.
    pub fn request_api(&self, url_path: &str, req_query_params: Option<Vec<(&str, &str)>>) -> (request:
        Result<Request, Error>)
        ensures
            request matches Ok(value) ==> self@.request(
                url_path@,
                more_parameters(req_query_params),
            ) == Ok::<RequestView, ErrorView>(value@),
            request matches Err(error) ==> self@.request(
                url_path@,
                more_parameters(req_query_params),
            ) == Err::<RequestView, ErrorView>(error@),
            request is Ok <==> url_path@.len() > 0 && (self@.may_ask() || url_path@ == "login"@),
    {
        if url_path.is_empty() {
            return Err(
                Error {
                    code: INTERNAL,
                    kind: ErrorKind::InternalError("no API endpoint provided".to_owned()),
                },
            );
        }
        let mut query = self.authentication(url_path)?;
        let ghost authentication = query.deep_view();
        if let Some(more) = req_query_params {
            let ghost wanted = more.deep_view();
            let mut i: usize = 0;
            while i < more.len()
                invariant
                    i <= more@.len(),
                    wanted == more.deep_view(),
                    query.deep_view() == authentication + wanted.take(i as int),
                decreases more@.len() - i,
            {
                let ghost before = query.deep_view();
                query.push((more[i].0.to_owned(), more[i].1.to_owned()));
                assert(query.deep_view() =~= before.push(wanted[i as int]));
                assert(wanted.take(i as int + 1) =~= wanted.take(i as int).push(wanted[i as int]));
                i += 1;
            }
            assert(wanted.take(i as int) =~= wanted);
        } else {
            assert(query.deep_view() =~= authentication + Seq::empty());
        }
        let mut url = self.t2m_url.clone();
        url.append("/");
        url.append(url_path);
        Ok(Request { url, query })
    }
}

/// The endpoints for eWONs have names, and neither is the one that opens a
/// session.
proof fn lemma_endpoints()
    ensures
        "getewons"@.len() > 0,
        "getewon"@.len() > 0,
        "getewons"@ != "login"@,
        "getewon"@ != "login"@,
{
    reveal_strlit("login");
    reveal_strlit("getewons");
    reveal_strlit("getewon");
    assert("login"@.len() == 5 && "getewons"@.len() == 8 && "getewon"@.len() == 7);
}

/// The parameters that a request is given beside those that authenticate it.
pub open spec fn more_parameters(given: Option<Vec<(&str, &str)>>) -> Seq<Parameter> {
    match given {
        Some(parameters) => parameters.deep_view(),
        None => Seq::empty(),
    }
}

impl Client {
    /// Builds the request that opens a session.
    ///
    /// Only a client that authenticates statefully opens sessions. The request
    /// carries the full credentials, whether a session is open already or not.
    pub fn login_request(&self) -> (request: Result<Request, Error>)
        ensures
            request matches Ok(value) ==> self@.login_request() == Ok::<RequestView, ErrorView>(
                value@,
            ),
            request matches Err(error) ==> self@.login_request() == Err::<RequestView, ErrorView>(
                error@,
            ),
            request is Ok <==> self@.stateful,
    {
        if !self.stateful_auth {
            return Err(stateless_error());
        }
        proof {
            reveal_strlit("login");
        }
        self.request_api("login", None)
    }

    /// Open a stateful session.
    ///
    /// Takes the answer to the request that [`Client::login_request`] built. Where
    /// the API opened a session, the client keeps its id for the requests to come,
    /// in place of the one it had, and returns it. Otherwise the client stays as it
    /// was.
    pub fn login(&mut self, response: Result<ApiResponse, Error>) -> (session: Result<
        String,
        Error,
    >)
        ensures
            session matches Ok(value) ==> old(self)@.login(response_view(response)) == Ok::<
                Seq<char>,
                ErrorView,
            >(value@),
            session matches Err(error) ==> old(self)@.login(response_view(response)) == Err::<
                Seq<char>,
                ErrorView,
            >(error@),
            final(self)@ == old(self)@.after_login(response_view(response)),
            session is Ok <==> old(self)@.stateful && response is Ok,
    {
        if !self.stateful_auth {
            return Err(stateless_error());
        }
        proof {
            reveal_strlit("login");
        }
        let response = response?;
        let session = response.t2msession.clone();
        self.t2m_session = Some(response.t2msession);
        Ok(session)
    }

    /// Builds the request that closes the session.
    ///
    /// Only a client that authenticates statefully has sessions, and only an open
    /// session can be closed.
    pub fn logout_request(&self) -> (request: Result<Request, Error>)
        ensures
            request matches Ok(value) ==> self@.logout_request() == Ok::<RequestView, ErrorView>(
                value@,
            ),
            request matches Err(error) ==> self@.logout_request() == Err::<RequestView, ErrorView>(
                error@,
            ),
            request is Ok <==> self@.stateful && self@.session is Some,
    {
        if !self.stateful_auth {
            return Err(stateless_error());
        }
        proof {
            reveal_strlit("login");
            reveal_strlit("logout");
            assert("login"@.len() == 5 && "logout"@.len() == 6);
        }
        self.request_api("logout", None)
    }

    /// Forgets the session once the API has closed it.
    ///
    /// Takes the answer to the request that [`Client::logout_request`] built.
    /// Where the API did not close the session, the client keeps it, so that the
    /// request can be made again.
    pub fn close_session(&mut self, response: Result<ApiResponse, Error>) -> (closed: Result<
        (),
        Error,
    >)
        ensures
            closed matches Ok(_) ==> old(self)@.logout(response_view(response)) == Ok::<
                (),
                ErrorView,
            >(()),
            closed matches Err(error) ==> old(self)@.logout(response_view(response)) == Err::<
                (),
                ErrorView,
            >(error@),
            final(self)@ == old(self)@.after_logout(response_view(response)),
            closed is Ok <==> old(self)@.stateful && old(self)@.session is Some && response is Ok,
    {
        if !self.stateful_auth {
            return Err(stateless_error());
        }
        proof {
            reveal_strlit("login");
            reveal_strlit("logout");
            assert("login"@.len() == 5 && "logout"@.len() == 6);
        }
        if self.t2m_session.is_none() {
            return Err(no_session_error());
        }
        let _ = response?;
        self.t2m_session = None;
        Ok(())
    }

    /// Close a stateful session.
    ///
    /// Takes the answer to the request that [`Client::logout_request`] built. The
    /// client is used up, whether the API closed the session or not: nothing can be
    /// asked of it after a logout.
    pub fn logout(self, response: Result<ApiResponse, Error>) -> (closed: Result<(), Error>)
        ensures
            closed matches Ok(_) ==> self@.logout(response_view(response)) == Ok::<(), ErrorView>(()),
            closed matches Err(error) ==> self@.logout(response_view(response)) == Err::<
                (),
                ErrorView,
            >(error@),
            closed is Ok <==> self@.stateful && self@.session is Some && response is Ok,
    {
        let mut client = self;
        client.close_session(response)
    }

    /// Builds the request for the eWONs registered for the corporate account: all
    /// of them, or those of one pool where a pool is named.
    pub fn get_ewons_request(&self, pool: Option<&str>) -> (request: Result<Request, Error>)
        ensures
            request matches Ok(value) ==> self@.ewons_request(pool_name(pool)) == Ok::<
                RequestView,
                ErrorView,
            >(value@),
            request matches Err(error) ==> self@.ewons_request(pool_name(pool)) == Err::<
                RequestView,
                ErrorView,
            >(error@),
            request is Ok <==> self@.may_ask(),
    {
        proof {
            lemma_endpoints();
        }
        let name = match pool {
            Some(name) => name,
            None => "",
        };
        proof {
            reveal_strlit("");
            assert(name@ =~= pool_name(pool));
        }
        let mut more: Vec<(&str, &str)> = Vec::new();
        more.push(("pool", name));
        assert(more.deep_view() =~= seq![("pool"@, name@)]);
        self.request_api("getewons", Some(more))
    }

    /// Return the list of all eWONs registered for the corporate account.
    ///
    /// Takes the answer to the request that [`Client::get_ewons_request`] built.
    /// A response without any eWON is an error of its own, never an empty list.
    pub fn get_ewons(&self, response: Result<ApiResponse, Error>) -> (ewons: Result<
        Vec<Ewon>,
        Error,
    >)
        ensures
            ewons matches Ok(value) ==> self@.get_ewons(response_view(response)) == Ok::<
                Seq<EwonView>,
                ErrorView,
            >(value.deep_view()),
            ewons matches Err(error) ==> self@.get_ewons(response_view(response)) == Err::<
                Seq<EwonView>,
                ErrorView,
            >(error@),
            ewons is Ok <==> self@.may_ask() && response is Ok && response->Ok_0.ewons.len() > 0,
    {
        proof {
            lemma_endpoints();
        }
        let _ = self.authentication("getewons")?;
        let response = response?;
        if response.ewons.is_empty() {
            Err(
                Error {
                    code: NO_CONTENT,
                    kind: ErrorKind::NoContent("No eWON were returned by API".to_owned()),
                },
            )
        } else {
            Ok(response.ewons)
        }
    }

    /// Builds the request for the eWON of a given name, which has to be the exact
    /// name of the eWON.
    pub fn get_ewon_by_name_request(&self, name: &str) -> (request: Result<Request, Error>)
        ensures
            request matches Ok(value) ==> self@.ewon_by_name_request(name@) == Ok::<
                RequestView,
                ErrorView,
            >(value@),
            request matches Err(error) ==> self@.ewon_by_name_request(name@) == Err::<
                RequestView,
                ErrorView,
            >(error@),
            request is Ok <==> self@.may_ask(),
    {
        proof {
            lemma_endpoints();
        }
        let mut more: Vec<(&str, &str)> = Vec::new();
        more.push(("name", name));
        assert(more.deep_view() =~= seq![("name"@, name@)]);
        self.request_api("getewon", Some(more))
    }

    /// Return the eWON selected by its name.
    ///
    /// Takes the answer to the request that [`Client::get_ewon_by_name_request`]
    /// built.
    pub fn get_ewon_by_name(&self, response: Result<ApiResponse, Error>) -> (ewon: Result<
        Ewon,
        Error,
    >)
        ensures
            ewon matches Ok(value) ==> self@.get_ewon(response_view(response)) == Ok::<
                EwonView,
                ErrorView,
            >(value@),
            ewon matches Err(error) ==> self@.get_ewon(response_view(response)) == Err::<
                EwonView,
                ErrorView,
            >(error@),
            ewon is Ok <==> self@.may_ask() && response is Ok,
    {
        proof {
            lemma_endpoints();
        }
        let _ = self.authentication("getewon")?;
        let response = response?;
        Ok(response.ewon)
    }

    /// Builds the request for the eWON of a given id.
    pub fn get_ewon_by_id_request(&self, id: u32) -> (request: Result<Request, Error>)
        ensures
            request matches Ok(value) ==> self@.ewon_by_id_request(id) == Ok::<
                RequestView,
                ErrorView,
            >(value@),
            request matches Err(error) ==> self@.ewon_by_id_request(id) == Err::<
                RequestView,
                ErrorView,
            >(error@),
            request is Ok <==> self@.may_ask(),
    {
        proof {
            lemma_endpoints();
        }
        let id = decimal(id);
        let mut more: Vec<(&str, &str)> = Vec::new();
        more.push(("id", id.as_str()));
        assert(more.deep_view() =~= seq![("id"@, id@)]);
        self.request_api("getewon", Some(more))
    }

    /// Return the eWON selected by its id.
    ///
    /// Takes the answer to the request that [`Client::get_ewon_by_id_request`]
    /// built.
    pub fn get_ewon_by_id(&self, response: Result<ApiResponse, Error>) -> (ewon: Result<
        Ewon,
        Error,
    >)
        ensures
            ewon matches Ok(value) ==> self@.get_ewon(response_view(response)) == Ok::<
                EwonView,
                ErrorView,
            >(value@),
            ewon matches Err(error) ==> self@.get_ewon(response_view(response)) == Err::<
                EwonView,
                ErrorView,
            >(error@),
            ewon is Ok <==> self@.may_ask() && response is Ok,
    {
        proof {
            lemma_endpoints();
        }
        let _ = self.authentication("getewon")?;
        let response = response?;
        Ok(response.ewon)
    }

    /// The session that the client holds, if it holds one. A stateless client
    /// holds none.
    pub fn session(&self) -> (session: Option<&str>)
        ensures
            session matches Some(id) ==> self@.session == Some(id@),
            session is None ==> self@.session is None,
            session is Some ==> self@.stateful,
    {
        proof {
            use_type_invariant(self);
        }
        match &self.t2m_session {
            Some(session) => Some(session.as_str()),
            None => None,
        }
    }
}

/// The name of the pool that a request for eWONs names: empty for none.
pub open spec fn pool_name(pool: Option<&str>) -> Seq<char> {
    match pool {
        Some(name) => name@,
        None => Seq::empty(),
    }
}

/// Builder for [`Client`].
///
/// Starts from a placeholder account on the public API, stateless, and replaces
/// what is set.
#[derive(Debug)]
pub struct ClientBuilder {
    t2m_url: String,
    t2m_account: String,
    t2m_username: String,
    t2m_password: String,
    t2m_developer_id: String,
    stateful_auth: bool,
}

impl ClientBuilder {
    /// The client that the builder builds. It has no session.
    pub closed spec fn configuration(&self) -> ClientView {
        ClientView {
            url: self.t2m_url@,
            account: self.t2m_account@,
            username: self.t2m_username@,
            password: self.t2m_password@,
            developer_id: self.t2m_developer_id@,
            stateful: self.stateful_auth,
            session: None,
        }
    }

    /// Sets the API base url.
    pub fn t2m_url(self, value: &str) -> (builder: ClientBuilder)
        ensures
            builder.configuration() == (ClientView { url: value@, ..self.configuration() }),
    {
        ClientBuilder { t2m_url: value.to_owned(), ..self }
    }

    /// Sets the Talk2M corporate account.
    pub fn t2m_account(self, value: &str) -> (builder: ClientBuilder)
        ensures
            builder.configuration() == (ClientView { account: value@, ..self.configuration() }),
    {
        ClientBuilder { t2m_account: value.to_owned(), ..self }
    }

    /// Sets the Talk2M user attached to the corporate account.
    pub fn t2m_username(self, value: &str) -> (builder: ClientBuilder)
        ensures
            builder.configuration() == (ClientView { username: value@, ..self.configuration() }),
    {
        ClientBuilder { t2m_username: value.to_owned(), ..self }
    }

    /// Sets the password attached to the username.
    pub fn t2m_password(self, value: &str) -> (builder: ClientBuilder)
        ensures
            builder.configuration() == (ClientView { password: value@, ..self.configuration() }),
    {
        ClientBuilder { t2m_password: value.to_owned(), ..self }
    }

    /// Sets the Talk2M API key.
    pub fn t2m_developer_id(self, value: &str) -> (builder: ClientBuilder)
        ensures
            builder.configuration() == (ClientView {
                developer_id: value@,
                ..self.configuration()
            }),
    {
        ClientBuilder { t2m_developer_id: value.to_owned(), ..self }
    }

    /// Sets whether the client authenticates statefully.
    pub fn stateful_auth(self, value: bool) -> (builder: ClientBuilder)
        ensures
            builder.configuration() == (ClientView { stateful: value, ..self.configuration() }),
    {
        ClientBuilder { stateful_auth: value, ..self }
    }

    /// Builds the client. Every parameter has a value, set or not, so this never
    /// fails.
    pub fn build(self) -> (built: Result<Client, Error>)
        ensures
            built matches Ok(client) && client@ == self.configuration(),
    {
        Ok(
            Client {
                t2m_url: self.t2m_url,
                t2m_account: self.t2m_account,
                t2m_username: self.t2m_username,
                t2m_password: self.t2m_password,
                t2m_developer_id: self.t2m_developer_id,
                stateful_auth: self.stateful_auth,
                t2m_session: None,
            },
        )
    }
}

impl Default for ClientBuilder {
    fn default() -> (builder: ClientBuilder)
        ensures
            builder.configuration() == ClientView::standard(),
    {
        ClientBuilder {
            t2m_url: "https://m2web.talk2m.com/t2mapi".to_owned(),
            t2m_account: "account1".to_owned(),
            t2m_username: "username1".to_owned(),
            t2m_password: "password1".to_owned(),
            t2m_developer_id: "731e38ec-981f-4f31-9cb5-e87f0d571816".to_owned(),
            stateful_auth: false,
        }
    }
}

/// Every request of a stateless client carries the four credentials, then the
/// parameters of the operation, and nothing else, whatever the operation and
/// whether or not a session was ever stored.
pub proof fn lemma_stateless_requests_carry_credentials(
    client: ClientView,
    endpoint: Seq<char>,
    more: Seq<Parameter>,
)
    requires
        !client.stateful,
        endpoint.len() > 0,
    ensures
        client.request(endpoint, more) == Ok::<RequestView, ErrorView>(
            RequestView { url: client.url + "/"@ + endpoint, query: client.credentials() + more },
        ),
        client.credentials().len() == 4,
        client.credentials()[0] == ("t2maccount"@, client.account),
        client.credentials()[1] == ("t2musername"@, client.username),
        client.credentials()[2] == ("t2mpassword"@, client.password),
        client.credentials()[3] == ("t2mdeveloperid"@, client.developer_id),
        (client.credentials() + more).len() == 4 + more.len(),
{
}

/// The three operations on eWONs of a stateless client each send the four
/// credentials and their own one parameter.
pub proof fn lemma_stateless_operations(client: ClientView, pool: Seq<char>, name: Seq<char>, id: u32)
    requires
        !client.stateful,
    ensures
        client.ewons_request(pool) matches Ok(request) && request.query == client.credentials()
            + seq![("pool"@, pool)],
        client.ewon_by_name_request(name) matches Ok(request) && request.query
            == client.credentials() + seq![("name"@, name)],
        client.ewon_by_id_request(id) matches Ok(request) && request.query == client.credentials()
            + seq![("id"@, decimal_digits(id as nat))],
{
    reveal_strlit("getewons");
    reveal_strlit("getewon");
}

/// A stateful client without a session can only log in: no request to another
/// endpoint is built for it, so none is sent, and every other operation fails
/// for want of a session, whatever it is handed as an answer.
pub proof fn lemma_no_session_no_request(
    client: ClientView,
    endpoint: Seq<char>,
    more: Seq<Parameter>,
    response: Result<ApiResponseView, ErrorView>,
)
    requires
        client.stateful,
        client.session is None,
        endpoint != "login"@,
    ensures
        client.request(endpoint, more) is Err,
        endpoint.len() > 0 ==> client.request(endpoint, more) == Err::<RequestView, ErrorView>(
            no_session(),
        ),
        client.logout_request() == Err::<RequestView, ErrorView>(no_session()),
        client.logout(response) == Err::<(), ErrorView>(no_session()),
        client.after_logout(response) == client,
        client.get_ewons(response) == Err::<Seq<EwonView>, ErrorView>(no_session()),
        client.get_ewon(response) == Err::<EwonView, ErrorView>(no_session()),
{
    reveal_strlit("login");
    reveal_strlit("logout");
    reveal_strlit("getewons");
    reveal_strlit("getewon");
    assert("login"@.len() == 5 && "logout"@.len() == 6);
    assert("getewons"@.len() == 8 && "getewon"@.len() == 7);
}

/// A stateless client neither opens nor closes a session: no request is built
/// for that, so none is sent, both operations fail whatever they are handed as
/// an answer, and the client stays as it was.
pub proof fn lemma_stateless_has_no_session(
    client: ClientView,
    response: Result<ApiResponseView, ErrorView>,
)
    requires
        !client.stateful,
    ensures
        client.login_request() == Err::<RequestView, ErrorView>(stateless()),
        client.login(response) == Err::<Seq<char>, ErrorView>(stateless()),
        client.after_login(response) == client,
        client.logout_request() == Err::<RequestView, ErrorView>(stateless()),
        client.logout(response) == Err::<(), ErrorView>(stateless()),
        client.after_logout(response) == client,
{
}

/// A session lasts from a login that the API accepted to a logout that the API
/// accepted. The login stores the session that the API opened, the requests that
/// follow carry it, and after the logout the client has none: again it can only
/// log in.
pub proof fn lemma_session_lifetime(
    client: ClientView,
    reply_to_login: Result<ApiResponseView, ErrorView>,
    reply_to_logout: Result<ApiResponseView, ErrorView>,
)
    requires
        client.login(reply_to_login) is Ok,
        client.after_login(reply_to_login).logout(reply_to_logout) is Ok,
    ensures
        client.stateful,
        client.after_login(reply_to_login).session == Some(client.login(reply_to_login)->Ok_0),
        client.after_login(reply_to_login).authentication("getewons"@) == Ok::<
            Seq<Parameter>,
            ErrorView,
        >(
            seq![
                ("t2msession"@, client.login(reply_to_login)->Ok_0),
                ("t2mdeveloperid"@, client.developer_id),
            ],
        ),
        client.after_login(reply_to_login).after_logout(reply_to_logout).session is None,
        client.after_login(reply_to_login).after_logout(reply_to_logout).authentication(
            "getewons"@,
        ) == Err::<Seq<Parameter>, ErrorView>(no_session()),
{
    reveal_strlit("login");
    reveal_strlit("getewons");
}

/// A response whose body cannot be decoded is a parsing error, whatever its
/// status code: the code is 500, and the message is what the decoder says, behind
/// the heading of the category of the failure.
pub proof fn lemma_undecodable_response(reply: ReplyView)
    requires
        decode_text(reply.body) is Err,
    ensures
        api_response_of(Ok(reply)) == Err::<ApiResponseView, ErrorView>(
            ErrorView {
                code: INTERNAL,
                kind: ErrorKindView::ResponseParsing(
                    decode_heading(decode_text(reply.body)->Err_0.category) + decode_text(
                        reply.body,
                    )->Err_0.detail,
                ),
            },
        ),
{
}

/// A logout that the API did not accept leaves the session as it was.
pub proof fn lemma_failed_logout_keeps_session(
    client: ClientView,
    response: Result<ApiResponseView, ErrorView>,
)
    requires
        client.logout(response) is Err,
    ensures
        client.after_logout(response) == client,
{
}

} // verus!
