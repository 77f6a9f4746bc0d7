//! Collecting the settings of a client and checking them.

use crate::api::{ClientConfig, OpenShockAPI};
use crate::data_type::optional_text_view;
use crate::error::Error;
use crate::header::{header_text_ok, lemma_header_text, lemma_header_text_concat};
use crate::outside::parse_header_value;
use crate::text::{
    lemma_strip_trailing_slashes_twice, strip_trailing_slashes, trim_trailing_slashes,
};
use vstd::prelude::*;

verus! {

/// The address of the public OpenShock API.
pub open spec fn default_base_url() -> Seq<char> {
    "https://api.openshock.app"@
}

/// How the library names itself to the server: its name, a slash and its
/// version.
pub open spec fn library_identity() -> Seq<char> {
    "rzap/0.1.0"@
}

/// The name under which a client shows up where the application gave none.
pub open spec fn default_app_name() -> Seq<char> {
    "rzap"@
}

/// The user agent of a client: the library's identity, followed in
/// parentheses by the application's name and, where there is one, its
/// version. Without an application's name the parentheses are left out, and
/// a version alone counts for nothing.
pub open spec fn user_agent_text(app_name: Option<Seq<char>>, app_version: Option<Seq<char>>) -> Seq<
    char,
> {
    match app_name {
        None => library_identity(),
        Some(name) => match app_version {
            None => library_identity() + " ("@ + name + ")"@,
            Some(version) => library_identity() + " ("@ + name + " "@ + version + ")"@,
        },
    }
}

/// Whether the application's name and version can be sent in a header.
pub open spec fn app_identity_ok(app_name: Option<Seq<char>>, app_version: Option<Seq<char>>) -> bool {
    match app_name {
        None => true,
        Some(name) => header_text_ok(name) && match app_version {
            None => true,
            Some(version) => header_text_ok(version),
        },
    }
}

/// The user agent can be sent in a header exactly when the application's
/// name and version can.
pub proof fn lemma_user_agent_header(app_name: Option<Seq<char>>, app_version: Option<Seq<char>>)
    ensures
        header_text_ok(user_agent_text(app_name, app_version)) <==> app_identity_ok(
            app_name,
            app_version,
        ),
{
    reveal_strlit("rzap/0.1.0");
    reveal_strlit(" (");
    reveal_strlit(" ");
    reveal_strlit(")");
    let library = library_identity();
    assert(header_text_ok(library));
    assert(header_text_ok(" ("@));
    assert(header_text_ok(" "@));
    assert(header_text_ok(")"@));
    match app_name {
        None => {},
        Some(name) => {
            lemma_header_text_concat(library, " ("@);
            lemma_header_text_concat(library + " ("@, name);
            match app_version {
                None => {
                    lemma_header_text_concat(library + " ("@ + name, ")"@);
                },
                Some(version) => {
                    lemma_header_text_concat(library + " ("@ + name, " "@);
                    lemma_header_text_concat(library + " ("@ + name + " "@, version);
                    lemma_header_text_concat(library + " ("@ + name + " "@ + version, ")"@);
                },
            }
        },
    }
}

/// Builder for [`OpenShockAPI`].
#[derive(Debug, Clone)]
pub struct OpenShockAPIBuilder {
    base_url: Option<String>,
    default_key: Option<String>,
    app_name: Option<String>,
    app_version: Option<String>,
}

/// What a builder has been told so far.
pub struct BuilderView {
    pub base_url: Option<Seq<char>>,
    pub default_key: Option<Seq<char>>,
    pub app_name: Option<Seq<char>>,
    pub app_version: Option<Seq<char>>,
}

impl BuilderView {
    /// What a new builder has been told: nothing.
    pub open spec fn empty() -> BuilderView {
        BuilderView { base_url: None, default_key: None, app_name: None, app_version: None }
    }

    /// Whether a token was given, and not an empty one.
    pub open spec fn has_token(self) -> bool {
        self.default_key matches Some(token) && token.len() > 0
    }

    /// The settings of the client that the builder stands for.
    pub open spec fn config(self) -> ClientConfig {
        ClientConfig {
            base_url: strip_trailing_slashes(
                match self.base_url {
                    Some(base_url) => base_url,
                    None => default_base_url(),
                },
            ),
            default_key: match self.default_key {
                Some(token) => token,
                None => Seq::empty(),
            },
            app_name: match self.app_name {
                Some(name) => name,
                None => default_app_name(),
            },
            user_agent: user_agent_text(self.app_name, self.app_version),
        }
    }
}

impl View for OpenShockAPIBuilder {
    type V = BuilderView;

    closed spec fn view(&self) -> BuilderView {
        BuilderView {
            base_url: optional_text_view(self.base_url),
            default_key: optional_text_view(self.default_key),
            app_name: optional_text_view(self.app_name),
            app_version: optional_text_view(self.app_version),
        }
    }
}

impl OpenShockAPIBuilder {
    /// Create a new builder, which has been told nothing yet.
    pub fn new() -> (builder: Self)
        ensures
            builder@ == BuilderView::empty(),
    {
        OpenShockAPIBuilder { base_url: None, default_key: None, app_name: None, app_version: None }
    }

    /// Set the base URL to use.
    ///
    /// This is optional and can be provided to use a self-hosted instance of
    /// the OpenShock API. If left unset, the default
    /// (`https://api.openshock.app`) will be used.
    pub fn with_base_url(self, base_url: String) -> (builder: Self)
        ensures
            builder@ == (BuilderView { base_url: Some(base_url@), ..self@ }),
    {
        OpenShockAPIBuilder {
            base_url: Some(base_url),
            default_key: self.default_key,
            app_name: self.app_name,
            app_version: self.app_version,
        }
    }

    /// Set the API token to use.
    ///
    /// This must be provided, and must not be empty.
    pub fn with_default_api_token(self, default_api_token: String) -> (builder: Self)
        ensures
            builder@ == (BuilderView { default_key: Some(default_api_token@), ..self@ }),
    {
        OpenShockAPIBuilder {
            base_url: self.base_url,
            default_key: Some(default_api_token),
            app_name: self.app_name,
            app_version: self.app_version,
        }
    }

    /// Set the name and optionally the version of the app using this crate.
    ///
    /// This is optional. If provided, the information is added to the user
    /// agent of all requests, and the name is sent with every control request
    /// so that it shows up in the OpenShock log.
    pub fn with_app(self, app_name: String, app_version: Option<String>) -> (builder: Self)
        ensures
            builder@ == (BuilderView {
                app_name: Some(app_name@),
                app_version: optional_text_view(app_version),
                ..self@
            }),
    {
        OpenShockAPIBuilder {
            base_url: self.base_url,
            default_key: self.default_key,
            app_name: Some(app_name),
            app_version,
        }
    }

    /// Check the settings and build an instance of [`OpenShockAPI`].
    ///
    /// Fails without a token, and where the name or the version of the app
    /// holds a character that no header can carry. Slashes at the end of the
    /// base URL are dropped.
    pub fn build(self) -> (built: Result<OpenShockAPI, Error>)
        ensures
            match built {
                Ok(api) => self@.has_token() && app_identity_ok(self@.app_name, self@.app_version)
                    && api@ == self@.config() && api@.valid(),
                Err(Error::MissingApiToken) => !self@.has_token(),
                Err(Error::InvalidHeaderValue(_)) => self@.has_token() && !app_identity_ok(
                    self@.app_name,
                    self@.app_version,
                ),
                Err(_) => false,
            },
    {
        let default_key = match self.default_key {
            Some(token) => token,
            None => {
                return Err(Error::MissingApiToken);
            },
        };
        if default_key.as_str().unicode_len() == 0 {
            return Err(Error::MissingApiToken);
        }
        let base_url = match self.base_url {
            Some(base_url) => String::from_str(trim_trailing_slashes(base_url.as_str())),
            None => String::from_str(trim_trailing_slashes("https://api.openshock.app")),
        };
        let mut user_agent = String::from_str("rzap/0.1.0");
        let app_name = match self.app_name {
            Some(app_name) => {
                user_agent.append(" (");
                user_agent.append(app_name.as_str());
                match self.app_version {
                    Some(app_version) => {
                        user_agent.append(" ");
                        user_agent.append(app_version.as_str());
                    },
                    None => {},
                }
                user_agent.append(")");
                app_name
            },
            None => String::from_str("rzap"),
        };
        proof {
            lemma_user_agent_header(self@.app_name, self@.app_version);
            lemma_header_text(user_agent@);
            lemma_strip_trailing_slashes_twice(
                match self@.base_url {
                    Some(base_url) => base_url,
                    None => default_base_url(),
                },
            );
        }
        match parse_header_value(user_agent.as_str()) {
            Ok(_) => Ok(OpenShockAPI::assemble(base_url, default_key, app_name, user_agent)),
            Err(error) => Err(Error::InvalidHeaderValue(error)),
        }
    }
}

} // verus!
