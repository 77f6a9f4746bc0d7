//! The client: which request each operation sends, and what it makes of the
//! reply.
//!
//! The client does not talk to the network itself. For each operation it
//! hands out the [`Request`] to send, and it reads the body of the reply
//! once the exchange is over.

use crate::api_builder::{BuilderView, OpenShockAPIBuilder};
use crate::data_type::{
    devices_view, optional_text_view, BaseResponse, ControlRequest, ControlRequestView,
    ControlType, ListShockersResponse, SelfResponse, Shock, ShockView,
};
use crate::error::Error;
use crate::header::header_text_ok;
use crate::json::Json;
use crate::outside::{json_parse, json_text};
use crate::text::{str_eq, strip_trailing_slashes};
use crate::wire::{
    account_envelope_of, control_request_json, devices_envelope_of, text_envelope_of,
};
use vstd::prelude::*;

verus! {

/// Which list of shockers to return.
#[derive(Debug, Clone, Copy, PartialEq, Eq, Structural)]
pub enum ListShockerSource {
    /// The shockers that the account owns.
    Own,
    /// The shockers that others share with the account.
    Shared,
}

impl ListShockerSource {
    /// The part of the path that stands for the source.
    pub open spec fn path_segment(self) -> Seq<char> {
        match self {
            ListShockerSource::Own => "Own"@,
            ListShockerSource::Shared => "Shared"@,
        }
    }

    /// The source that a part of the path stands for.
    pub open spec fn of_path_segment(segment: Seq<char>) -> Option<ListShockerSource> {
        if segment == "Own"@ {
            Some(ListShockerSource::Own)
        } else if segment == "Shared"@ {
            Some(ListShockerSource::Shared)
        } else {
            None
        }
    }

    /// The source that a part of the path stands for, if it stands for one.
    pub fn from_segment(segment: &str) -> (source: Option<ListShockerSource>)
        ensures
            source == ListShockerSource::of_path_segment(segment@),
    {
        if str_eq(segment, "Own") {
            Some(ListShockerSource::Own)
        } else if str_eq(segment, "Shared") {
            Some(ListShockerSource::Shared)
        } else {
            None
        }
    }

    /// The part of the path that stands for the source.
    pub fn segment(&self) -> (segment: &'static str)
        ensures
            segment@ == self.path_segment(),
    {
        match self {
            ListShockerSource::Own => "Own",
            ListShockerSource::Shared => "Shared",
        }
    }
}

/// How a request is made.
#[derive(Debug, Clone, Copy, PartialEq, Eq, Structural)]
pub enum Method {
    Get,
    Post,
}

/// What has to be sent for one operation. Besides what is listed here
/// every request carries the headers of [`OpenShockAPI::default_headers`].
#[derive(Debug, Clone, PartialEq, Eq)]
pub struct Request {
    pub method: Method,
    pub url: String,
    /// The value of the header `OpenShockToken`.
    pub token: String,
    /// The JSON text to send as the body, if the request has one.
    pub body: Option<String>,
}

/// The view of a [`Request`].
pub struct RequestView {
    pub method: Method,
    pub url: Seq<char>,
    pub token: Seq<char>,
    pub body: Option<Seq<char>>,
}

/// The name of the header that carries the API token. The token is sent
/// in a header of its own, not as a bearer token.
pub open spec fn token_header_name() -> Seq<char> {
    "OpenShockToken"@
}

impl Request {
    /// The header that carries the API token, as name and value.
    pub fn auth_header(&self) -> (header: (&'static str, &str))
        ensures
            header.0@ == token_header_name(),
            header.1@ == self@.token,
    {
        ("OpenShockToken", self.token.as_str())
    }
}

impl View for Request {
    type V = RequestView;

    open spec fn view(&self) -> RequestView {
        RequestView {
            method: self.method,
            url: self.url@,
            token: self.token@,
            body: optional_text_view(self.body),
        }
    }
}

/// The settings of a client.
pub struct ClientConfig {
    pub base_url: Seq<char>,
    pub default_key: Seq<char>,
    pub app_name: Seq<char>,
    pub user_agent: Seq<char>,
}

impl ClientConfig {
    /// What holds of the settings of every client: the base URL does not
    /// end in a slash, there is a token, and the user agent can be sent in a
    /// header.
    pub open spec fn valid(self) -> bool {
        &&& self.base_url == strip_trailing_slashes(self.base_url)
        &&& self.default_key.len() > 0
        &&& header_text_ok(self.user_agent)
    }

    /// The token to send: the one given for the call, else the client's own.
    pub open spec fn token(self, api_key: Option<Seq<char>>) -> Seq<char> {
        match api_key {
            Some(token) => token,
            None => self.default_key,
        }
    }

    /// The request that asks for the account behind the token.
    pub open spec fn user_info_request(self, api_key: Option<Seq<char>>) -> RequestView {
        RequestView {
            method: Method::Get,
            url: self.base_url + "/1/users/self"@,
            token: self.token(api_key),
            body: None,
        }
    }

    /// The request that asks for the shockers of one source.
    pub open spec fn shockers_request(
        self,
        source: ListShockerSource,
        api_key: Option<Seq<char>>,
    ) -> RequestView {
        RequestView {
            method: Method::Get,
            url: self.base_url + "/1/shockers/"@ + source.path_segment(),
            token: self.token(api_key),
            body: None,
        }
    }

    /// The request that carries `body` to the control endpoint.
    pub open spec fn control_request(self, body: Seq<char>, api_key: Option<Seq<char>>) -> RequestView {
        RequestView {
            method: Method::Post,
            url: self.base_url + "/2/shockers/control"@,
            token: self.token(api_key),
            body: Some(body),
        }
    }

    /// What is sent to make one shocker do one thing: a single instruction,
    /// exclusive, under the name of the application.
    pub open spec fn control_batch(
        self,
        id: Seq<char>,
        control_type: ControlType,
        intensity: u8,
        duration: u16,
    ) -> ControlRequestView {
        ControlRequestView {
            shocks: seq![ShockView { id, control_type, intensity, duration, exclusive: true }],
            custom_name: self.app_name,
        }
    }
}

/// Whether an intensity and a duration are within the bounds of the API:
/// 1 to 100 percent, and 300 to 30000 milliseconds.
pub open spec fn control_parameters_ok(intensity: u8, duration: u16) -> bool {
    1 <= intensity <= 100 && 300 <= duration <= 30000
}

/// The client for the OpenShock API. Its settings are fixed once it is
/// built.
///
/// Every operation takes an optional API token to use in place of the
/// client's own.
#[derive(Debug)]
pub struct OpenShockAPI {
    base_url: String,
    default_key: String,
    app_name: String,
    user_agent: String,
}

impl View for OpenShockAPI {
    type V = ClientConfig;

    closed spec fn view(&self) -> ClientConfig {
        ClientConfig {
            base_url: self.base_url@,
            default_key: self.default_key@,
            app_name: self.app_name@,
            user_agent: self.user_agent@,
        }
    }
}

impl OpenShockAPI {
    #[verifier::type_invariant]
    closed spec fn settings_valid(self) -> bool {
        self@.valid()
    }

    /// Puts a client together from settings that have been checked.
    pub(crate) fn assemble(
        base_url: String,
        default_key: String,
        app_name: String,
        user_agent: String,
    ) -> (api: OpenShockAPI)
        requires
            base_url@ == strip_trailing_slashes(base_url@),
            default_key@.len() > 0,
            header_text_ok(user_agent@),
        ensures
            api@ == (ClientConfig {
                base_url: base_url@,
                default_key: default_key@,
                app_name: app_name@,
                user_agent: user_agent@,
            }),
            api@.valid(),
    {
        OpenShockAPI { base_url, default_key, app_name, user_agent }
    }

    /// Return a builder for the client.
    ///
    /// This is the same as [`OpenShockAPIBuilder::new`].
    pub fn builder() -> (builder: OpenShockAPIBuilder)
        ensures
            builder@ == BuilderView::empty(),
    {
        OpenShockAPIBuilder::new()
    }

    /// Create a client with a token and, optionally, the base URL of a
    /// self-hosted OpenShock API; without one the public API is used.
    /// Slashes at the end of the base URL are dropped. The token must not be
    /// empty.
    pub fn new(base_url: Option<String>, default_key: String) -> (api: OpenShockAPI)
        requires
            default_key@.len() > 0,
        ensures
            api@ == (BuilderView {
                base_url: optional_text_view(base_url),
                default_key: Some(default_key@),
                app_name: None,
                app_version: None,
            }).config(),
            api@.valid(),
    {
        let mut builder = OpenShockAPI::builder().with_default_api_token(default_key);
        if let Some(base_url) = base_url {
            builder = builder.with_base_url(base_url);
        }
        builder.build().unwrap()
    }

    /// The base URL of the API, without a slash at its end.
    pub fn base_url(&self) -> (base_url: &str)
        ensures
            base_url@ == self@.base_url,
    {
        self.base_url.as_str()
    }

    /// The token that is sent where a call names no other.
    pub fn default_key(&self) -> (token: &str)
        ensures
            token@ == self@.default_key,
    {
        self.default_key.as_str()
    }

    /// The name under which the client shows up in the OpenShock log.
    pub fn app_name(&self) -> (name: &str)
        ensures
            name@ == self@.app_name,
    {
        self.app_name.as_str()
    }

    /// The user agent that every request carries.
    pub fn user_agent(&self) -> (user_agent: &str)
        ensures
            user_agent@ == self@.user_agent,
            header_text_ok(user_agent@),
    {
        proof {
            use_type_invariant(self);
        }
        self.user_agent.as_str()
    }

    /// The headers that every request carries, as pairs of name and value:
    /// the content type, the accepted type and the user agent.
    pub fn default_headers(&self) -> (headers: Vec<(String, String)>)
        ensures
            headers@.len() == 3,
            headers@[0].0@ == "Content-type"@ && headers@[0].1@ == "application/json"@,
            headers@[1].0@ == "accept"@ && headers@[1].1@ == "application/json"@,
            headers@[2].0@ == "user-agent"@ && headers@[2].1@ == self@.user_agent,
    {
        let mut headers: Vec<(String, String)> = Vec::new();
        headers.push((String::from_str("Content-type"), String::from_str("application/json")));
        headers.push((String::from_str("accept"), String::from_str("application/json")));
        headers.push((String::from_str("user-agent"), self.user_agent.clone()));
        headers
    }

    /// The token to send with a call.
    fn token(&self, api_key: Option<String>) -> (token: String)
        ensures
            token@ == self@.token(optional_text_view(api_key)),
    {
        match api_key {
            Some(token) => token,
            None => self.default_key.clone(),
        }
    }

    /// The request that asks for the account behind the token.
    pub fn user_info_request(&self, api_key: Option<String>) -> (request: Request)
        ensures
            request@ == self@.user_info_request(optional_text_view(api_key)),
    {
        let url = self.base_url.clone().concat("/1/users/self");
        Request { method: Method::Get, url, token: self.token(api_key), body: None }
    }

    /// The request that asks for the shockers that the account owns or that
    /// are shared with it.
    pub fn shockers_request(&self, source: ListShockerSource, api_key: Option<String>) -> (request:
        Request)
        ensures
            request@ == self@.shockers_request(source, optional_text_view(api_key)),
    {
        let url = self.base_url.clone().concat("/1/shockers/").concat(source.segment());
        Request { method: Method::Get, url, token: self.token(api_key), body: None }
    }

    /// What is sent to make one shocker do one thing, once the intensity
    /// and the duration are found to be within bounds.
    pub fn control_batch(
        &self,
        id: String,
        control_type: ControlType,
        intensity: u8,
        duration: u16,
    ) -> (batch: Result<ControlRequest, Error>)
        ensures
            match batch {
                Ok(batch) => control_parameters_ok(intensity, duration) && batch@
                    == self@.control_batch(id@, control_type, intensity, duration)
                    && batch@.sendable(),
                Err(error) => error is InvalidControlParameters && !control_parameters_ok(
                    intensity,
                    duration,
                ),
            },
    {
        if intensity < 1 || intensity > 100 || duration < 300 || duration > 30000 {
            return Err(Error::InvalidControlParameters);
        }
        let mut shocks: Vec<Shock> = Vec::new();
        shocks.push(Shock { id, control_type, intensity, duration, exclusive: true });
        let batch = ControlRequest { shocks, custom_name: self.app_name.clone() };
        assert(batch@.shocks =~= self@.control_batch(
            id@,
            control_type,
            intensity,
            duration,
        ).shocks);
        Ok(batch)
    }

    /// The request that carries a control request once it is put into text,
    /// or the error that came of putting it into text.
    pub fn control_request_with(
        &self,
        written: Result<String, Error>,
        api_key: Option<String>,
    ) -> (request: Result<Request, Error>)
        ensures
            match written {
                Ok(body) => request matches Ok(request) && request@ == self@.control_request(
                    body@,
                    optional_text_view(api_key),
                ),
                Err(error) => request == Err::<Request, Error>(error),
            },
    {
        match written {
            Ok(body) => {
                let url = self.base_url.clone().concat("/2/shockers/control");
                Ok(Request { method: Method::Post, url, token: self.token(api_key), body: Some(body) })
            },
            Err(error) => Err(error),
        }
    }

    /// The request that makes one shocker do one thing.
    ///
    /// Fails, before anything is put into text, where the intensity is not
    /// within 1 to 100 or the duration not within 300 to 30000. Within
    /// bounds there is always a request: its body is the text of a control
    /// request with a single exclusive instruction under the name of the
    /// application.
    pub fn control_request(
        &self,
        id: String,
        control_type: ControlType,
        intensity: u8,
        duration: u16,
        api_key: Option<String>,
    ) -> (request: Result<Request, Error>)
        ensures
            !control_parameters_ok(intensity, duration) ==> request matches Err(
                Error::InvalidControlParameters,
            ),
            control_parameters_ok(intensity, duration) ==> (request matches Ok(request)
                && request@ == self@.control_request(
                json_text(
                    control_request_json(
                        self@.control_batch(id@, control_type, intensity, duration),
                    ),
                ),
                optional_text_view(api_key),
            )),
    {
        let batch = match self.control_batch(id, control_type, intensity, duration) {
            Ok(batch) => batch,
            Err(error) => {
                return Err(error);
            },
        };
        self.control_request_with(batch.to_text(), api_key)
    }
}

/// The account in a reply whose body has been parsed.
///
/// Fails with what came of parsing where the body was no JSON, with
/// `UnexpectedShape` where it is no envelope around an account, and with
/// `EmptyPayload` where the envelope holds no account.
pub fn user_info_from(parsed: Result<Json, Error>) -> (account: Result<SelfResponse, Error>)
    ensures
        match parsed {
            Err(error) => account == Err::<SelfResponse, Error>(error),
            Ok(document) => match account_envelope_of(document@) {
                None => account matches Err(Error::UnexpectedShape),
                Some(envelope) => match envelope.data {
                    None => account matches Err(Error::EmptyPayload),
                    Some(data) => account matches Ok(found) && found@ == data,
                },
            },
        },
{
    let document = match parsed {
        Ok(document) => document,
        Err(error) => {
            return Err(error);
        },
    };
    match BaseResponse::<SelfResponse>::from_json(&document) {
        None => Err(Error::UnexpectedShape),
        Some(envelope) => match envelope.data {
            None => Err(Error::EmptyPayload),
            Some(account) => Ok(account),
        },
    }
}

/// The devices in a reply whose body has been parsed. An empty list is a
/// list like any other.
///
/// Fails with what came of parsing where the body was no JSON, with
/// `UnexpectedShape` where it is no envelope around a list of devices, and
/// with `EmptyPayload` where the envelope holds no list.
pub fn shockers_from(parsed: Result<Json, Error>) -> (devices: Result<
    Vec<ListShockersResponse>,
    Error,
>)
    ensures
        match parsed {
            Err(error) => devices == Err::<Vec<ListShockersResponse>, Error>(error),
            Ok(document) => match devices_envelope_of(document@) {
                None => devices matches Err(Error::UnexpectedShape),
                Some(envelope) => match envelope.data {
                    None => devices matches Err(Error::EmptyPayload),
                    Some(data) => devices matches Ok(found) && devices_view(found@) == data,
                },
            },
        },
{
    let document = match parsed {
        Ok(document) => document,
        Err(error) => {
            return Err(error);
        },
    };
    match BaseResponse::<Vec<ListShockersResponse>>::from_json(&document) {
        None => Err(Error::UnexpectedShape),
        Some(envelope) => match envelope.data {
            None => Err(Error::EmptyPayload),
            Some(devices) => Ok(devices),
        },
    }
}

/// The message in the reply to a control request whose body has been
/// parsed. The message is handed on as it is; after a success the API says
/// "Successfully sent control messages".
///
/// Fails with what came of parsing where the body was no JSON, with
/// `UnexpectedShape` where it is no envelope around a text, and with
/// `EmptyPayload` where the envelope holds no message.
pub fn control_message_from(parsed: Result<Json, Error>) -> (message: Result<String, Error>)
    ensures
        match parsed {
            Err(error) => message == Err::<String, Error>(error),
            Ok(document) => match text_envelope_of(document@) {
                None => message matches Err(Error::UnexpectedShape),
                Some(envelope) => match envelope.message {
                    None => message matches Err(Error::EmptyPayload),
                    Some(text) => message matches Ok(found) && found@ == text,
                },
            },
        },
{
    let document = match parsed {
        Ok(document) => document,
        Err(error) => {
            return Err(error);
        },
    };
    match BaseResponse::<String>::from_json(&document) {
        None => Err(Error::UnexpectedShape),
        Some(envelope) => match envelope.message {
            None => Err(Error::EmptyPayload),
            Some(message) => Ok(message),
        },
    }
}

impl OpenShockAPI {
    /// The account in the body of the reply to
    /// [`OpenShockAPI::user_info_request`].
    pub fn read_user_info(body: &str) -> (account: Result<SelfResponse, Error>)
        ensures
            match json_parse(body@) {
                None => account matches Err(Error::Serde(_)),
                Some(document) => match account_envelope_of(document) {
                    None => account matches Err(Error::UnexpectedShape),
                    Some(envelope) => match envelope.data {
                        None => account matches Err(Error::EmptyPayload),
                        Some(data) => account matches Ok(found) && found@ == data,
                    },
                },
            },
    {
        user_info_from(Json::parse(body))
    }

    /// The devices in the body of the reply to
    /// [`OpenShockAPI::shockers_request`].
    pub fn read_shockers(body: &str) -> (devices: Result<Vec<ListShockersResponse>, Error>)
        ensures
            match json_parse(body@) {
                None => devices matches Err(Error::Serde(_)),
                Some(document) => match devices_envelope_of(document) {
                    None => devices matches Err(Error::UnexpectedShape),
                    Some(envelope) => match envelope.data {
                        None => devices matches Err(Error::EmptyPayload),
                        Some(data) => devices matches Ok(found) && devices_view(found@) == data,
                    },
                },
            },
    {
        shockers_from(Json::parse(body))
    }

    /// The message in the body of the reply to
    /// [`OpenShockAPI::control_request`].
    pub fn read_control_message(body: &str) -> (message: Result<String, Error>)
        ensures
            match json_parse(body@) {
                None => message matches Err(Error::Serde(_)),
                Some(document) => match text_envelope_of(document) {
                    None => message matches Err(Error::UnexpectedShape),
                    Some(envelope) => match envelope.message {
                        None => message matches Err(Error::EmptyPayload),
                        Some(text) => message matches Ok(found) && found@ == text,
                    },
                },
            },
    {
        control_message_from(Json::parse(body))
    }
}

} // verus!
