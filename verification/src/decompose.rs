//! Taking a URL apart, and picking one part of it by name.

use vstd::prelude::*;
use crate::error::{absence_message, absence_text, CrawlError, CrawlFault};
use crate::text::{
    decimal, port_text, relative_path, relative_path_of, same_text, trim_dash_ends, trim_dashes,
};
use url::Url;

verus! {

/// Which part of a URL a caller asks for.
#[derive(Clone, Copy, Debug, PartialEq, Eq, Structural)]
pub enum ParseOption {
    HostName,
    Port,
    Protocol,
    Username,
    Password,
    Path,
    Fragment,
    Query,
}

/// The option that a bare name stands for; `"scheme"` and `"protocol"` name
/// the same one.
pub open spec fn named_option(name: Seq<char>) -> Option<ParseOption> {
    if name == "host"@ {
        Some(ParseOption::HostName)
    } else if name == "port"@ {
        Some(ParseOption::Port)
    } else if name == "protocol"@ {
        Some(ParseOption::Protocol)
    } else if name == "password"@ {
        Some(ParseOption::Password)
    } else if name == "username"@ {
        Some(ParseOption::Username)
    } else if name == "path"@ {
        Some(ParseOption::Path)
    } else if name == "fragment"@ {
        Some(ParseOption::Fragment)
    } else if name == "query"@ {
        Some(ParseOption::Query)
    } else if name == "scheme"@ {
        Some(ParseOption::Protocol)
    } else {
        None
    }
}

/// The option that an argument stands for, written with or without dashes
/// around it (`host`, `--host`).
pub open spec fn option_of(arg: Seq<char>) -> Option<ParseOption> {
    named_option(trim_dashes(arg))
}

/// The names that are read without dashes stand for these options.
pub proof fn lemma_option_names()
    ensures
        option_of("host"@) == Some(ParseOption::HostName),
        option_of("port"@) == Some(ParseOption::Port),
        option_of("protocol"@) == Some(ParseOption::Protocol),
        option_of("password"@) == Some(ParseOption::Password),
        option_of("username"@) == Some(ParseOption::Username),
        option_of("path"@) == Some(ParseOption::Path),
        option_of("fragment"@) == Some(ParseOption::Fragment),
        option_of("query"@) == Some(ParseOption::Query),
        option_of("scheme"@) == Some(ParseOption::Protocol),
{
    reveal_strlit("host");
    reveal_strlit("port");
    reveal_strlit("protocol");
    reveal_strlit("password");
    reveal_strlit("username");
    reveal_strlit("path");
    reveal_strlit("fragment");
    reveal_strlit("query");
    reveal_strlit("scheme");
    assert("host"@[0] != "port"@[0]);
    assert("host"@[0] != "path"@[0]);
    assert("port"@[1] != "path"@[1]);
    assert("protocol"@[1] != "password"@[1]);
    assert("protocol"@[0] != "username"@[0]);
    assert("password"@[0] != "username"@[0]);
    assert("protocol"@[0] != "fragment"@[0]);
    assert("password"@[0] != "fragment"@[0]);
    assert("username"@[0] != "fragment"@[0]);
}

/// The word for an option's part in messages.
pub open spec fn description_of(option: ParseOption) -> Seq<char> {
    match option {
        ParseOption::HostName => "hostname"@,
        ParseOption::Port => "port"@,
        ParseOption::Protocol => "scheme"@,
        ParseOption::Username => "username"@,
        ParseOption::Password => "password"@,
        ParseOption::Path => "path"@,
        ParseOption::Fragment => "fragment"@,
        ParseOption::Query => "query"@,
    }
}

/// The word for an option's part in messages.
pub fn description(option: ParseOption) -> (word: &'static str)
    ensures
        word@ == description_of(option),
{
    match option {
        ParseOption::HostName => "hostname",
        ParseOption::Port => "port",
        ParseOption::Protocol => "scheme",
        ParseOption::Username => "username",
        ParseOption::Password => "password",
        ParseOption::Path => "path",
        ParseOption::Fragment => "fragment",
        ParseOption::Query => "query",
    }
}

/// Reads an option's name, with or without dashes around it. `None` for a
/// name that stands for no option.
pub fn find_parse_option(arg: &str) -> (found: Option<ParseOption>)
    ensures
        found == option_of(arg@),
{
    let name = trim_dash_ends(arg);
    if same_text(name, "host") {
        Some(ParseOption::HostName)
    } else if same_text(name, "port") {
        Some(ParseOption::Port)
    } else if same_text(name, "protocol") {
        Some(ParseOption::Protocol)
    } else if same_text(name, "password") {
        Some(ParseOption::Password)
    } else if same_text(name, "username") {
        Some(ParseOption::Username)
    } else if same_text(name, "path") {
        Some(ParseOption::Path)
    } else if same_text(name, "fragment") {
        Some(ParseOption::Fragment)
    } else if same_text(name, "query") {
        Some(ParseOption::Query)
    } else if same_text(name, "scheme") {
        Some(ParseOption::Protocol)
    } else {
        None
    }
}

/// Reads an option's name. To pass a name that stands for no option is the
/// caller's mistake.
pub fn get_parse_option(arg: &str) -> (option: ParseOption)
    requires
        option_of(arg@) is Some,
    ensures
        option_of(arg@) == Some(option),
{
    match find_parse_option(arg) {
        Some(option) => option,
        None => unreached(),
    }
}

/// The parts of an absolute URL, as plain values. A value is made by
/// `decompose` alone, from a text that is a URL, and holds every part of it.
#[derive(Clone, Debug, PartialEq, Eq)]
pub struct UrlParts {
    scheme: String,
    host: Option<String>,
    port: Option<u16>,
    username: String,
    password: Option<String>,
    path: Vec<String>,
    query: Option<String>,
    fragment: Option<String>,
}

/// A `UrlParts` with each text as a sequence of characters.
///
/// `host` is the host as the URL writes it, a name or a number
/// (`example.com`, `127.0.0.1`, `[::1]`). `username` is empty where the URL
/// names no user. `path` holds the
/// segments between the slashes of the path; it is empty where the path
/// does not begin with a slash, as in a URL that cannot be a base
/// (`mailto:`, `data:`) and in one that has nothing behind its host.
pub ghost struct UrlModel {
    pub scheme: Seq<char>,
    pub host: Option<Seq<char>>,
    pub port: Option<u16>,
    pub username: Seq<char>,
    pub password: Option<Seq<char>>,
    pub path: Seq<Seq<char>>,
    pub query: Option<Seq<char>>,
    pub fragment: Option<Seq<char>>,
}

impl UrlModel {
    /// The user that the URL names, if it names one.
    pub open spec fn user(self) -> Option<Seq<char>> {
        if self.username.len() == 0 {
            None
        } else {
            Some(self.username)
        }
    }
}

impl View for UrlParts {
    type V = UrlModel;

    closed spec fn view(&self) -> UrlModel {
        UrlModel {
            scheme: self.scheme@,
            host: self.host.deep_view(),
            port: self.port,
            username: self.username@,
            password: self.password.deep_view(),
            path: self.path.deep_view(),
            query: self.query.deep_view(),
            fragment: self.fragment.deep_view(),
        }
    }
}

/// What the URL parser makes of a text: the parts of the URL that it spells,
/// or the parser's words for why it spells none.
pub uninterp spec fn url_split(input: Seq<char>) -> Result<UrlModel, Seq<char>>;

/// The outcome of a split with its texts as sequences of characters.
pub open spec fn split_model(outcome: Result<UrlParts, String>) -> Result<UrlModel, Seq<char>> {
    match outcome {
        Ok(parts) => Ok(parts@),
        Err(reason) => Err(reason@),
    }
}

/// Parses `input` with `url::Url::parse` and reads the parts off the result
/// with the accessors `scheme`, `host_str`, `port`, `username`, `password`,
/// `path_segments`, `query` and `fragment`; a parse error is given in the
/// words of its `Display`.
///
/// Trusted: that the outcome depends on the text alone, which gives it its
/// name `url_split`. Nothing is claimed of what the parts are. Where the path
/// does not begin with a slash `path_segments` is `None`, here the empty
/// list; otherwise it yields one segment at the least.
#[verifier::external_body]
fn split_url(input: &str) -> (outcome: Result<UrlParts, String>)
    ensures
        split_model(outcome) == url_split(input@),
{
    match Url::parse(input) {
        Ok(url) => Ok(UrlParts {
            scheme: url.scheme().to_string(),
            host: url.host_str().map(String::from),
            port: url.port(),
            username: url.username().to_string(),
            password: url.password().map(String::from),
            path: url.path_segments().into_iter().flatten().map(String::from).collect(),
            query: url.query().map(String::from),
            fragment: url.fragment().map(String::from),
        }),
        Err(error) => Err(error.to_string()),
    }
}

/// Whether a text is the address of a page on a host, with no user name and
/// no password in it.
pub open spec fn addressable(location: Seq<char>) -> bool {
    url_split(location) matches Ok(parts) && parts.host is Some && parts.username.len() == 0
        && parts.password is None
}

/// Whether a text is the address of a page on a host, with no user name and
/// no password in it.
pub fn is_addressable(location: &str) -> (yes: bool)
    ensures
        yes == addressable(location@),
{
    match split_url(location) {
        Ok(parts) => parts.host.is_some() && parts.username.as_str().unicode_len() == 0
            && parts.password.is_none(),
        Err(_) => false,
    }
}

/// What decomposing a text gives: the parts, or the fault that says why not.
pub open spec fn decomposed(input: Seq<char>) -> Result<UrlModel, CrawlFault> {
    match url_split(input) {
        Ok(parts) => Ok(parts),
        Err(reason) => Err(CrawlFault::MalformedUrl { description: reason }),
    }
}

/// The outcome of decomposing with its texts as sequences of characters.
pub open spec fn decompose_model(outcome: Result<UrlParts, CrawlError>) -> Result<
    UrlModel,
    CrawlFault,
> {
    match outcome {
        Ok(parts) => Ok(parts@),
        Err(error) => Err(error@),
    }
}

/// Takes an absolute URL apart. A text that is none gives `MalformedUrl`
/// with the parser's reason, and never a half-filled value.
pub fn decompose(url: &str) -> (outcome: Result<UrlParts, CrawlError>)
    ensures
        decompose_model(outcome) == decomposed(url@),
        outcome matches Ok(parts) ==> parts.parsed(),
{
    match split_url(url) {
        Ok(parts) => Ok(parts),
        Err(reason) => Err(CrawlError::MalformedUrl { description: reason }),
    }
}

/// The part of a URL that an option selects, in its string form, or `None`
/// where the URL has no such part.
pub open spec fn component_of(parts: UrlModel, option: ParseOption) -> Option<Seq<char>> {
    match option {
        ParseOption::HostName => parts.host,
        ParseOption::Port => match parts.port {
            Some(port) => Some(decimal(port as nat)),
            None => None,
        },
        ParseOption::Protocol => Some(parts.scheme),
        ParseOption::Username => parts.user(),
        ParseOption::Password => parts.password,
        ParseOption::Path => if parts.path.len() == 0 {
            None
        } else {
            Some(relative_path_of(parts.path))
        },
        ParseOption::Fragment => parts.fragment,
        ParseOption::Query => parts.query,
    }
}

/// A selected part as a result: the value, or the fault that names the part
/// that is missing.
pub open spec fn selected(parts: UrlModel, option: ParseOption) -> Result<Seq<char>, CrawlFault> {
    match component_of(parts, option) {
        Some(value) => Ok(value),
        None => Err(CrawlFault::MissingUrlComponent { component: option }),
    }
}

/// The outcome of a selection with its texts as sequences of characters.
pub open spec fn text_model(outcome: Result<String, CrawlError>) -> Result<Seq<char>, CrawlFault> {
    match outcome {
        Ok(value) => Ok(value@),
        Err(error) => Err(error@),
    }
}

fn owned(value: &Option<String>) -> (copy: Option<String>)
    ensures
        copy.deep_view() == value.deep_view(),
{
    match value {
        Some(text) => Some(text.clone()),
        None => None,
    }
}

fn borrowed(value: &Option<String>) -> (text: Option<&str>)
    ensures
        text.deep_view() == value.deep_view(),
{
    match value {
        Some(text) => Some(text.as_str()),
        None => None,
    }
}

impl UrlParts {
    /// Whether these are the parts of some URL. Of every value that
    /// `decompose` hands out they are, and no other way makes one.
    pub open spec fn parsed(&self) -> bool {
        exists|input: Seq<char>| #[trigger] url_split(input) == Ok::<UrlModel, Seq<char>>(self@)
    }

    /// The scheme, in lower case and without the colon.
    pub fn scheme(&self) -> (scheme: &str)
        ensures
            scheme@ == self@.scheme,
    {
        self.scheme.as_str()
    }

    /// The host, by name or by number, if the URL has one.
    pub fn host(&self) -> (host: Option<&str>)
        ensures
            host.deep_view() == self@.host,
    {
        borrowed(&self.host)
    }

    /// The port, if the URL gives one that is not its scheme's own.
    pub fn port(&self) -> (port: Option<u16>)
        ensures
            port == self@.port,
    {
        self.port
    }

    /// The user, if the URL names one.
    pub fn username(&self) -> (user: Option<&str>)
        ensures
            user.deep_view() == self@.user(),
    {
        if self.username.as_str().unicode_len() == 0 {
            None
        } else {
            Some(self.username.as_str())
        }
    }

    /// The password, if the URL holds one.
    pub fn password(&self) -> (password: Option<&str>)
        ensures
            password.deep_view() == self@.password,
    {
        borrowed(&self.password)
    }

    /// The segments of the path.
    pub fn path(&self) -> (path: &Vec<String>)
        ensures
            path.deep_view() == self@.path,
    {
        &self.path
    }

    /// The query, if the URL has one, without the question mark.
    pub fn query(&self) -> (query: Option<&str>)
        ensures
            query.deep_view() == self@.query,
    {
        borrowed(&self.query)
    }

    /// The fragment, if the URL has one, without the hash sign.
    pub fn fragment(&self) -> (fragment: Option<&str>)
        ensures
            fragment.deep_view() == self@.fragment,
    {
        borrowed(&self.fragment)
    }

    /// The part that `option` selects, in its string form, if the URL has it.
    pub fn find(&self, option: ParseOption) -> (value: Option<String>)
        ensures
            value.deep_view() == component_of(self@, option),
    {
        match option {
            ParseOption::HostName => owned(&self.host),
            ParseOption::Port => match self.port {
                Some(port) => Some(port_text(port)),
                None => None,
            },
            ParseOption::Protocol => Some(self.scheme.clone()),
            ParseOption::Username => if self.username.as_str().unicode_len() == 0 {
                None
            } else {
                Some(self.username.clone())
            },
            ParseOption::Password => owned(&self.password),
            ParseOption::Path => if self.path.len() == 0 {
                None
            } else {
                Some(relative_path(&self.path))
            },
            ParseOption::Fragment => owned(&self.fragment),
            ParseOption::Query => owned(&self.query),
        }
    }

    /// The part that `option` selects, or `MissingUrlComponent` where the URL
    /// has none: a part that is absent is told apart from any value.
    pub fn component(&self, option: ParseOption) -> (outcome: Result<String, CrawlError>)
        ensures
            text_model(outcome) == selected(self@, option),
    {
        match self.find(option) {
            Some(value) => Ok(value),
            None => Err(CrawlError::MissingUrlComponent { component: option }),
        }
    }
}

/// What `parse_component` gives for a part that may be absent.
pub open spec fn component_result(value: Option<Seq<char>>, description: Seq<char>) -> Result<
    Seq<char>,
    Seq<char>,
> {
    match value {
        Some(text) => Ok(text),
        None => Err(absence_message(description)),
    }
}

/// The outcome of `parse_component` with its texts as sequences of characters.
pub open spec fn result_model(outcome: Result<String, String>) -> Result<Seq<char>, Seq<char>> {
    match outcome {
        Ok(text) => Ok(text@),
        Err(text) => Err(text@),
    }
}

/// Turns a part that may be absent into a result: the part itself, or a
/// message that names what is missing, "No port found".
pub fn parse_component(option: Option<String>, description: &str) -> (outcome: Result<
    String,
    String,
>)
    ensures
        result_model(outcome) == component_result(option.deep_view(), description@),
{
    match option {
        Some(text) => Ok(text),
        None => Err(absence_text(description)),
    }
}

/// What `parse_url` answers: the selected part, or, in its place and in the
/// same type, the parser's reason or the message of absence.
pub open spec fn parse_url_text(option: Seq<char>, url: Seq<char>) -> Seq<char> {
    match url_split(url) {
        Err(reason) => reason,
        Ok(parts) => {
            let chosen = option_of(option)->Some_0;
            match component_of(parts, chosen) {
                Some(value) => value,
                None => absence_message(description_of(chosen)),
            }
        },
    }
}

/// The part of `url` that `option` names, as a string for display. A text
/// that is no URL gives the parser's reason, and a part that the URL lacks
/// gives "No ... found": value, reason and message come in one type, and a
/// caller who needs to tell them apart uses `decompose` and `component`.
///
/// To name an option that does not exist, for a text that is a URL, is the
/// caller's mistake.
pub fn parse_url(option: &str, url: &str) -> (text: String)
    requires
        option_of(option@) is Some || url_split(url@) is Err,
    ensures
        text@ == parse_url_text(option@, url@),
{
    match split_url(url) {
        Err(reason) => reason,
        Ok(parts) => {
            let chosen = get_parse_option(option);
            match parse_component(parts.find(chosen), description(chosen)) {
                Ok(value) => value,
                Err(message) => message,
            }
        },
    }
}

/// As `parse_url`, for a caller that has not checked the option's name:
/// `None` where the name stands for no option and the text is a URL.
pub fn try_parse_url(option: &str, url: &str) -> (text: Option<String>)
    ensures
        text.deep_view() == if option_of(option@) is Some || url_split(url@) is Err {
            Some(parse_url_text(option@, url@))
        } else {
            None
        },
{
    let known = find_parse_option(option).is_some();
    if known || split_url(url).is_err() {
        Some(parse_url(option, url))
    } else {
        None
    }
}

} // verus!
