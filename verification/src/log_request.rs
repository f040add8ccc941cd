//! The access log: one line for every request, in a format close to that of
//! Heroku's router, with a few more fields such as the user agent.

use crate::text::{decimal, decimal_string, ends_with, spec_ends_with, str_eq};
use crate::trace_filter::Level;
use http::{StatusCode, Uri};
use vstd::pervasive::unreached;
use vstd::prelude::*;
use vstd::string::*;

verus! {

/// A request that took longer than this many milliseconds is marked as slow.
pub const SLOW_REQUEST_THRESHOLD_MS: u128 = 1000;

/// `key=value`.
pub open spec fn field(key: Seq<char>, value: Seq<char>) -> Seq<char> {
    key + seq!['='] + value
}

/// `key="value"`.
pub open spec fn quoted_field(key: Seq<char>, value: Seq<char>) -> Seq<char> {
    key + seq!['=', '"'] + value + seq!['"']
}

/// The model of a [`LogLine`]: what was written, and whether the next item is
/// the first.
pub struct LogLineView {
    pub text: Seq<char>,
    pub first: bool,
}

impl LogLineView {
    /// The line with one more item: a space goes before every item but the
    /// first.
    pub open spec fn with_item(self, item: Seq<char>) -> LogLineView {
        LogLineView {
            text: if self.first {
                self.text + item
            } else {
                self.text + seq![' '] + item
            },
            first: false,
        }
    }
}

/// A log line under construction: items separated by single spaces.
pub struct LogLine {
    text: String,
    first: bool,
}

impl View for LogLine {
    type V = LogLineView;

    closed spec fn view(&self) -> LogLineView {
        LogLineView { text: self.text@, first: self.first }
    }
}

impl LogLine {
    /// An empty line.
    pub fn new() -> (line: LogLine)
        ensures
            line@ == (LogLineView { text: Seq::empty(), first: true }),
    {
        LogLine { text: String::new(), first: true }
    }

    /// Adds `key=value`.
    pub fn add_field(&mut self, key: &str, value: &str)
        ensures
            final(self)@ == old(self)@.with_item(field(key@, value@)),
    {
        self.start_item();
        self.text.append(key);
        self.text.append("=");
        self.text.append(value);
        proof {
            reveal_strlit("=");
            assert(self.text@ =~= old(self)@.with_item(field(key@, value@)).text);
        }
    }

    /// Adds `key="value"`. The value is written as it is: a quote inside it
    /// is not escaped.
    pub fn add_quoted_field(&mut self, key: &str, value: &str)
        ensures
            final(self)@ == old(self)@.with_item(quoted_field(key@, value@)),
    {
        self.start_item();
        self.text.append(key);
        self.text.append("=\"");
        self.text.append(value);
        self.text.append("\"");
        proof {
            reveal_strlit("=\"");
            reveal_strlit("\"");
            assert(self.text@ =~= old(self)@.with_item(quoted_field(key@, value@)).text);
        }
    }

    /// Adds `marker` as an item of its own.
    pub fn add_marker(&mut self, marker: &str)
        ensures
            final(self)@ == old(self)@.with_item(marker@),
    {
        self.start_item();
        self.text.append(marker);
        proof {
            assert(self.text@ =~= old(self)@.with_item(marker@).text);
        }
    }

    /// Begins an item: writes the separating space, unless the item is the
    /// first of the line.
    pub fn start_item(&mut self)
        ensures
            final(self)@ == old(self)@.with_item(Seq::empty()),
    {
        if !self.first {
            self.text.append(" ");
        }
        self.first = false;
        proof {
            reveal_strlit(" ");
            assert(self.text@ =~= old(self)@.with_item(Seq::empty()).text);
        }
    }

    /// The finished line.
    pub fn finish(self) -> (text: String)
        ensures
            text@ == self@.text,
    {
        self.text
    }
}

/// The value of the first pair in `pairs` whose key is `key`.
pub open spec fn first_value(
    pairs: Seq<(Seq<char>, Seq<char>)>,
    key: Seq<char>,
) -> Option<Seq<char>>
    decreases pairs.len(),
{
    if pairs.len() == 0 {
        None
    } else if pairs[0].0 == key {
        Some(pairs[0].1)
    } else {
        first_value(pairs.drop_first(), key)
    }
}

/// Annotations that the layers of one request add for its log line: pairs of
/// a key and a value, kept in the order in which they were added. A key may
/// occur more than once.
///
/// A store belongs to one request. Where several threads write to it, whoever
/// shares it puts it behind a lock.
#[derive(Debug)]
pub struct CustomMetadata {
    pairs: Vec<(&'static str, String)>,
}

impl View for CustomMetadata {
    type V = Seq<(Seq<char>, Seq<char>)>;

    closed spec fn view(&self) -> Seq<(Seq<char>, Seq<char>)> {
        Seq::new(self.pairs@.len(), |i: int| (self.pairs@[i].0@, self.pairs@[i].1@))
    }
}

impl Default for CustomMetadata {
    fn default() -> (store: CustomMetadata)
        ensures
            store@ == Seq::<(Seq<char>, Seq<char>)>::empty(),
    {
        CustomMetadata::new()
    }
}

impl CustomMetadata {
    /// An empty store.
    pub fn new() -> (store: CustomMetadata)
        ensures
            store@ == Seq::<(Seq<char>, Seq<char>)>::empty(),
    {
        let store = CustomMetadata { pairs: Vec::new() };
        assert(store@ =~= Seq::empty());
        store
    }

    /// The number of pairs.
    pub fn len(&self) -> (n: usize)
        ensures
            n == self@.len(),
    {
        self.pairs.len()
    }

    /// Appends the pair of `key` and `value`.
    pub fn add_custom_metadata(&mut self, key: &'static str, value: String)
        ensures
            final(self)@ == old(self)@.push((key@, value@)),
    {
        self.pairs.push((key, value));
        assert(self@ =~= old(self)@.push((key@, value@)));
    }

    /// The value that was first added under `key`, if any was.
    pub fn first(&self, key: &str) -> (value: Option<String>)
        ensures
            value.deep_view() == first_value(self@, key@),
    {
        let mut i: usize = 0;
        assert(self@.skip(0) =~= self@);
        while i < self.pairs.len()
            invariant
                i <= self.pairs@.len(),
                first_value(self@, key@) == first_value(self@.skip(i as int), key@),
            decreases self.pairs@.len() - i,
        {
            assert(self@.skip(i as int).drop_first() =~= self@.skip(i + 1));
            if str_eq(self.pairs[i].0, key) {
                return Some(self.pairs[i].1.clone());
            }
            i = i + 1;
        }
        None
    }
}

/// The value that was first added to `store` under `key`.
pub fn get_log_message(store: &CustomMetadata, key: &str) -> (value: String)
    requires
        first_value(store@, key@) is Some,
    ensures
        Some(value@) == first_value(store@, key@),
{
    match store.first(key) {
        Some(value) => value,
        None => unreached(),
    }
}

/// The step that runs after the handler has returned.
#[derive(Clone, Copy, Debug, Default)]
pub struct LogRequests;

impl LogRequests {
    /// Records the text of a handler's error under the key `error`, so that
    /// the request's log line shows it. Without an error nothing is recorded.
    pub fn after(&self, store: &mut CustomMetadata, error: Option<String>)
        ensures
            final(store)@ == match error {
                Some(text) => old(store)@.push(("error"@, text@)),
                None => old(store)@,
            },
    {
        if let Some(text) = error {
            store.add_custom_metadata("error", text);
        }
    }
}

/// The path of the URI that `uri` writes, as `http::Uri::path` gives it for
/// the parsed text; `None` where the text is no URI.
pub uninterp spec fn uri_path_of(uri: Seq<char>) -> Option<Seq<char>>;

/// Parses `uri` with `http::Uri` and calls `http::Uri::path` on the result.
///
/// Believed of it: whether the text parses, and the path that is found,
/// depend on the text alone.
#[verifier::external_body]
fn uri_path(uri: &str) -> (path: Option<String>)
    ensures
        path.deep_view() == uri_path_of(uri@),
{
    match uri.parse::<Uri>() {
        Ok(parsed) => Some(parsed.path().to_owned()),
        Err(_) => None,
    }
}

/// Calls `http::StatusCode::is_redirection`.
///
/// Believed of it: it holds exactly of the codes from 300 to 399.
#[verifier::external_body]
fn status_is_redirection(code: u16) -> (redirection: bool)
    requires
        100 <= code <= 999,
    ensures
        redirection == (300 <= code < 400),
{
    match StatusCode::from_u16(code) {
        Ok(status) => status.is_redirection(),
        Err(_) => false,
    }
}

/// Calls `http::StatusCode::is_server_error`.
///
/// Believed of it: it holds exactly of the codes from 500 to 599.
#[verifier::external_body]
fn status_is_server_error(code: u16) -> (server_error: bool)
    requires
        100 <= code <= 999,
    ensures
        server_error == (500 <= code < 600),
{
    match StatusCode::from_u16(code) {
        Ok(status) => status.is_server_error(),
        Err(_) => false,
    }
}

/// Calls `http::StatusCode::as_str`.
///
/// Believed of it: the text is the code in decimal, three digits, without
/// the reason phrase.
#[verifier::external_body]
fn status_as_str(code: u16) -> (text: String)
    requires
        100 <= code <= 999,
    ensures
        text@ == decimal(code as nat),
{
    match StatusCode::from_u16(code) {
        Ok(status) => status.as_str().to_owned(),
        Err(_) => String::new(),
    }
}

/// An owned copy of an optional text.
fn owned(text: Option<&str>) -> (copy: Option<String>)
    ensures
        copy.deep_view() == text.deep_view(),
{
    match text {
        Some(text) => Some(text.to_owned()),
        None => None,
    }
}

/// The model of a [`RequestMetadata`].
pub struct RequestMetadataView {
    pub method: Seq<char>,
    pub uri: Seq<char>,
    pub path: Seq<char>,
    pub original_path: Option<Seq<char>>,
    pub user_agent: Seq<char>,
    pub request_id: Option<Seq<char>>,
    pub real_ip: Option<Seq<char>>,
}

/// What the log line shows of a request, taken once when the request comes
/// in and not changed afterwards.
#[derive(Debug)]
pub struct RequestMetadata {
    method: String,
    uri: String,
    path: String,
    original_path: Option<String>,
    user_agent: String,
    request_id: Option<String>,
    real_ip: Option<String>,
}

impl View for RequestMetadata {
    type V = RequestMetadataView;

    closed spec fn view(&self) -> RequestMetadataView {
        RequestMetadataView {
            method: self.method@,
            uri: self.uri@,
            path: self.path@,
            original_path: self.original_path.deep_view(),
            user_agent: self.user_agent@,
            request_id: self.request_id.deep_view(),
            real_ip: self.real_ip.deep_view(),
        }
    }
}

impl RequestMetadata {
    /// The metadata of a request whose URI has been taken apart already:
    /// `uri` is the URI in full, `path` its path.
    ///
    /// `original_path` is the path that the client asked for, where an
    /// earlier step has normalized the URI; `request_id` and `real_ip` are
    /// the values of the request-id and forwarded-address headers.
    pub fn from_parts(
        method: &str,
        uri: &str,
        path: &str,
        original_path: Option<&str>,
        user_agent: &str,
        request_id: Option<&str>,
        real_ip: Option<&str>,
    ) -> (request: RequestMetadata)
        ensures
            request@ == (RequestMetadataView {
                method: method@,
                uri: uri@,
                path: path@,
                original_path: original_path.deep_view(),
                user_agent: user_agent@,
                request_id: request_id.deep_view(),
                real_ip: real_ip.deep_view(),
            }),
    {
        RequestMetadata {
            method: method.to_owned(),
            uri: uri.to_owned(),
            path: path.to_owned(),
            original_path: owned(original_path),
            user_agent: user_agent.to_owned(),
            request_id: owned(request_id),
            real_ip: owned(real_ip),
        }
    }

    /// The metadata of a request with the URI `uri`, or `None` where `uri`
    /// is not the text of a URI. The path is read off the URI.
    pub fn new(
        method: &str,
        uri: &str,
        original_path: Option<&str>,
        user_agent: &str,
        request_id: Option<&str>,
        real_ip: Option<&str>,
    ) -> (request: Option<RequestMetadata>)
        ensures
            match uri_path_of(uri@) {
                Some(path) => request is Some && request->0@ == (RequestMetadataView {
                    method: method@,
                    uri: uri@,
                    path,
                    original_path: original_path.deep_view(),
                    user_agent: user_agent@,
                    request_id: request_id.deep_view(),
                    real_ip: real_ip.deep_view(),
                }),
                None => request is None,
            },
    {
        match uri_path(uri) {
            Some(path) => Some(
                RequestMetadata::from_parts(
                    method,
                    uri,
                    path.as_str(),
                    original_path,
                    user_agent,
                    request_id,
                    real_ip,
                ),
            ),
            None => None,
        }
    }

    /// The path of the URI.
    pub fn path(&self) -> (path: &str)
        ensures
            path@ == self@.path,
    {
        self.path.as_str()
    }
}

/// The items of a line, joined by single spaces.
pub open spec fn join_items(items: Seq<Seq<char>>) -> Seq<char>
    decreases items.len(),
{
    if items.len() == 0 {
        Seq::empty()
    } else if items.len() == 1 {
        items[0]
    } else {
        join_items(items.drop_last()) + seq![' '] + items.last()
    }
}

/// `item` alone where it is `present`, nothing where it is not.
pub open spec fn optional(present: bool, item: Seq<char>) -> Seq<Seq<char>> {
    if present {
        seq![item]
    } else {
        Seq::empty()
    }
}

/// The text of an optional header: empty where the header is absent.
pub open spec fn or_empty(value: Option<Seq<char>>) -> Seq<char> {
    match value {
        Some(text) => text,
        None => Seq::empty(),
    }
}

/// The model of a [`Metadata`].
pub struct MetadataView {
    pub request: RequestMetadataView,
    pub status: u16,
    pub duration_ms: u128,
    pub custom_metadata: Seq<(Seq<char>, Seq<char>)>,
}

impl MetadataView {
    /// Whether the request is a redirected download: a `GET` of a path that
    /// ends in `/download`, answered with a redirection.
    ///
    /// Downloads are requested far more often than anything else, so their
    /// log lines are kept short.
    pub open spec fn is_download_redirect(self) -> bool {
        &&& spec_ends_with(self.request.path, "/download"@)
        &&& 300 <= self.status < 400
        &&& self.request.method == "GET"@
    }

    /// The items of the log line, in order.
    pub open spec fn items(self) -> Seq<Seq<char>> {
        let full = !self.is_download_redirect();
        let request = self.request;
        optional(full, field("method"@, request.method)) + seq![
            quoted_field(
                "path"@,
                match request.original_path {
                    Some(path) => path,
                    None => request.uri,
                },
            ),
        ] + optional(full, field("request_id"@, or_empty(request.request_id))) + seq![
            quoted_field("fwd"@, or_empty(request.real_ip)),
        ] + optional(
            full || self.duration_ms > 0,
            field("service"@, decimal(self.duration_ms as nat) + "ms"@),
        ) + optional(full, field("status"@, decimal(self.status as nat))) + seq![
            quoted_field("user_agent"@, request.user_agent),
        ] + optional(
            request.original_path is Some,
            quoted_field("normalized_path"@, request.uri),
        ) + self.custom_metadata.map_values(
            |pair: (Seq<char>, Seq<char>)| quoted_field(pair.0, pair.1),
        ) + optional(self.duration_ms > SLOW_REQUEST_THRESHOLD_MS, "SLOW REQUEST"@)
    }

    /// The log line.
    pub open spec fn line(self) -> Seq<char> {
        join_items(self.items())
    }
}

/// The line that holds `items` and nothing else.
spec fn line_of(items: Seq<Seq<char>>) -> LogLineView {
    LogLineView { text: join_items(items), first: items.len() == 0 }
}

/// Adding an item to a line appends it to the line's items.
proof fn lemma_line_with_item(items: Seq<Seq<char>>, item: Seq<char>)
    ensures
        line_of(items).with_item(item) == line_of(items.push(item)),
{
    assert(items.push(item).drop_last() =~= items);
    if items.len() == 0 {
        assert(Seq::<char>::empty() + item =~= item);
    }
}

/// All that the log line of one request is made of.
#[derive(Debug)]
pub struct Metadata {
    request: RequestMetadata,
    status: u16,
    duration_ms: u128,
    custom_metadata: CustomMetadata,
}

impl View for Metadata {
    type V = MetadataView;

    closed spec fn view(&self) -> MetadataView {
        MetadataView {
            request: self.request@,
            status: self.status,
            duration_ms: self.duration_ms,
            custom_metadata: self.custom_metadata@,
        }
    }
}

impl Metadata {
    /// A status code has three digits.
    #[verifier::type_invariant]
    spec fn valid_status(&self) -> bool {
        100 <= self.status <= 999
    }

    /// The metadata of a request that was answered with `status` after
    /// `duration_ms` milliseconds; `None` where `status` is no status code,
    /// that is, outside 100 to 999.
    pub fn new(
        request: RequestMetadata,
        status: u16,
        duration_ms: u128,
        custom_metadata: CustomMetadata,
    ) -> (metadata: Option<Metadata>)
        ensures
            metadata is Some <==> 100 <= status <= 999,
            metadata is Some ==> metadata->0@ == (MetadataView {
                request: request@,
                status,
                duration_ms,
                custom_metadata: custom_metadata@,
            }),
    {
        if 100 <= status && status <= 999 {
            Some(Metadata { request, status, duration_ms, custom_metadata })
        } else {
            None
        }
    }

    /// The severity at which the line is logged: an error where the server
    /// failed (a status from 500 to 599), informational otherwise.
    pub fn level(&self) -> (level: Level)
        ensures
            level == if 500 <= self@.status < 600 {
                Level::Error
            } else {
                Level::Info
            },
    {
        proof {
            use_type_invariant(self);
        }
        if status_is_server_error(self.status) {
            Level::Error
        } else {
            Level::Info
        }
    }

    /// Writes the log line.
    pub fn to_string(&self) -> (line: String)
        ensures
            line@ == self@.line(),
    {
        proof {
            use_type_invariant(self);
        }
        let request = &self.request;
        let mut line = LogLine::new();
        let ghost mut items: Seq<Seq<char>> = Seq::empty();

        // Downloads are requested more often than everything else by one or
        // two orders of magnitude, and logs are paid for by volume: their
        // lines leave out what is not needed.
        let is_download_endpoint = ends_with(request.path.as_str(), "/download");
        let is_download_redirect = is_download_endpoint && status_is_redirection(self.status)
            && str_eq(request.method.as_str(), "GET");
        assert(is_download_redirect == self@.is_download_redirect());

        if !is_download_redirect {
            line.add_field("method", request.method.as_str());
            proof {
                lemma_line_with_item(items, field("method"@, request.method@));
                items = items.push(field("method"@, request.method@));
            }
        }
        let ghost shown_path = match self@.request.original_path {
            Some(path) => path,
            None => self@.request.uri,
        };
        match &request.original_path {
            Some(original_path) => line.add_quoted_field("path", original_path.as_str()),
            None => line.add_quoted_field("path", request.uri.as_str()),
        }
        proof {
            lemma_line_with_item(items, quoted_field("path"@, shown_path));
            items = items.push(quoted_field("path"@, shown_path));
        }
        if !is_download_redirect {
            match &request.request_id {
                Some(id) => line.add_field("request_id", id.as_str()),
                None => line.add_field("request_id", ""),
            }
            proof {
                reveal_strlit("");
                let item = field("request_id"@, or_empty(request.request_id.deep_view()));
                lemma_line_with_item(items, item);
                items = items.push(item);
            }
        }
        match &request.real_ip {
            Some(ip) => line.add_quoted_field("fwd", ip.as_str()),
            None => line.add_quoted_field("fwd", ""),
        }
        proof {
            reveal_strlit("");
            let item = quoted_field("fwd"@, or_empty(request.real_ip.deep_view()));
            lemma_line_with_item(items, item);
            items = items.push(item);
        }
        if !is_download_redirect || self.duration_ms > 0 {
            let mut service = decimal_string(self.duration_ms);
            service.append("ms");
            line.add_field("service", service.as_str());
            proof {
                lemma_line_with_item(items, field("service"@, service@));
                items = items.push(field("service"@, service@));
            }
        }
        if !is_download_redirect {
            let status = status_as_str(self.status);
            line.add_field("status", status.as_str());
            proof {
                lemma_line_with_item(items, field("status"@, status@));
                items = items.push(field("status"@, status@));
            }
        }
        line.add_quoted_field("user_agent", request.user_agent.as_str());
        proof {
            lemma_line_with_item(items, quoted_field("user_agent"@, request.user_agent@));
            items = items.push(quoted_field("user_agent"@, request.user_agent@));
        }
        if request.original_path.is_some() {
            line.add_quoted_field("normalized_path", request.uri.as_str());
            proof {
                lemma_line_with_item(items, quoted_field("normalized_path"@, request.uri@));
                items = items.push(quoted_field("normalized_path"@, request.uri@));
            }
        }
        let ghost fixed = items;
        let ghost quote = |pair: (Seq<char>, Seq<char>)| quoted_field(pair.0, pair.1);
        let pairs = &self.custom_metadata.pairs;
        let mut i: usize = 0;
        assert(self.custom_metadata@.take(0).map_values(quote) =~= Seq::empty());
        assert(fixed + Seq::<Seq<char>>::empty() =~= fixed);
        while i < pairs.len()
            invariant
                i <= pairs@.len(),
                pairs == &self.custom_metadata.pairs,
                quote == |pair: (Seq<char>, Seq<char>)| quoted_field(pair.0, pair.1),
                line@ == line_of(items),
                items == fixed + self.custom_metadata@.take(i as int).map_values(quote),
            decreases pairs@.len() - i,
        {
            line.add_quoted_field(pairs[i].0, pairs[i].1.as_str());
            proof {
                let custom = self.custom_metadata@;
                let item = quoted_field(custom[i as int].0, custom[i as int].1);
                lemma_line_with_item(items, item);
                assert(custom.take(i + 1).map_values(quote) =~= custom.take(i as int).map_values(
                    quote,
                ).push(item));
                assert(fixed + custom.take(i + 1).map_values(quote) =~= items.push(item));
                items = items.push(item);
            }
            i = i + 1;
        }
        assert(self.custom_metadata@.take(i as int) =~= self.custom_metadata@);
        if self.duration_ms > SLOW_REQUEST_THRESHOLD_MS {
            line.add_marker("SLOW REQUEST");
            proof {
                lemma_line_with_item(items, "SLOW REQUEST"@);
                items = items.push("SLOW REQUEST"@);
            }
        }
        assert(items =~= self@.items());
        line.finish()
    }
}

/// What is logged for a request that was answered with `status` after
/// `duration_ms` milliseconds: the severity and the line. Nothing is logged
/// where `status` is no status code, that is, outside 100 to 999.
///
/// The line goes to the error log where the server failed (a status from 500
/// to 599), and to the informational log otherwise.
pub fn log_requests(
    request: RequestMetadata,
    status: u16,
    duration_ms: u128,
    custom_metadata: CustomMetadata,
) -> (record: Option<(Level, String)>)
    ensures
        record is Some <==> 100 <= status <= 999,
        match record {
            Some((level, line)) => {
                &&& level == if 500 <= status < 600 {
                    Level::Error
                } else {
                    Level::Info
                }
                &&& line@ == (MetadataView {
                    request: request@,
                    status,
                    duration_ms,
                    custom_metadata: custom_metadata@,
                }).line()
            },
            None => true,
        },
{
    match Metadata::new(request, status, duration_ms, custom_metadata) {
        Some(metadata) => Some((metadata.level(), metadata.to_string())),
        None => None,
    }
}

/// The log line of a redirected download is short: it has no `method`, no
/// `request_id` and no `status`, and it has `service` only where the time
/// taken is not zero milliseconds. What is left is the path, the forwarded
/// address, the user agent, the normalized path where the path was
/// normalized, the custom metadata, and the mark of a slow request.
pub proof fn lemma_download_redirect_line(metadata: MetadataView)
    requires
        spec_ends_with(metadata.request.path, "/download"@),
        metadata.request.method == "GET"@,
        300 <= metadata.status < 400,
    ensures
        metadata.items() == seq![
            quoted_field(
                "path"@,
                match metadata.request.original_path {
                    Some(path) => path,
                    None => metadata.request.uri,
                },
            ),
            quoted_field("fwd"@, or_empty(metadata.request.real_ip)),
        ] + optional(
            metadata.duration_ms > 0,
            field("service"@, decimal(metadata.duration_ms as nat) + "ms"@),
        ) + seq![quoted_field("user_agent"@, metadata.request.user_agent)] + optional(
            metadata.request.original_path is Some,
            quoted_field("normalized_path"@, metadata.request.uri),
        ) + metadata.custom_metadata.map_values(
            |pair: (Seq<char>, Seq<char>)| quoted_field(pair.0, pair.1),
        ) + optional(metadata.duration_ms > SLOW_REQUEST_THRESHOLD_MS, "SLOW REQUEST"@),
{
    let quote = |pair: (Seq<char>, Seq<char>)| quoted_field(pair.0, pair.1);
    let short = seq![
        quoted_field(
            "path"@,
            match metadata.request.original_path {
                Some(path) => path,
                None => metadata.request.uri,
            },
        ),
        quoted_field("fwd"@, or_empty(metadata.request.real_ip)),
    ] + optional(
        metadata.duration_ms > 0,
        field("service"@, decimal(metadata.duration_ms as nat) + "ms"@),
    ) + seq![quoted_field("user_agent"@, metadata.request.user_agent)] + optional(
        metadata.request.original_path is Some,
        quoted_field("normalized_path"@, metadata.request.uri),
    ) + metadata.custom_metadata.map_values(quote) + optional(
        metadata.duration_ms > SLOW_REQUEST_THRESHOLD_MS,
        "SLOW REQUEST"@,
    );
    assert(metadata.items() =~= short);
}

/// A line of two or more items ends with its last item, and where that item
/// is not empty, the line's last character is the item's.
proof fn lemma_join_ends_with_last(items: Seq<Seq<char>>)
    requires
        items.len() >= 2,
    ensures
        spec_ends_with(join_items(items), seq![' '] + items.last()),
        items.last().len() > 0 ==> join_items(items).last() == items.last().last(),
{
    let line = join_items(items);
    let tail = seq![' '] + items.last();
    assert(line == join_items(items.drop_last()) + seq![' '] + items.last());
    assert(line.subrange(line.len() - tail.len(), line.len() as int) =~= tail);
}

/// A request that took more than 1000 milliseconds has a log line that ends
/// with the mark `SLOW REQUEST`, set off by a space. The log line of any
/// other request does not end with the mark.
pub proof fn lemma_slow_request_mark(metadata: MetadataView)
    ensures
        metadata.duration_ms > 1000 ==> spec_ends_with(metadata.line(), " SLOW REQUEST"@),
        metadata.duration_ms <= 1000 ==> !spec_ends_with(metadata.line(), "SLOW REQUEST"@),
{
    reveal_strlit("SLOW REQUEST");
    reveal_strlit(" SLOW REQUEST");
    let items = metadata.items();
    let line = metadata.line();
    let mark = "SLOW REQUEST"@;
    let custom = metadata.custom_metadata;
    let quote = |pair: (Seq<char>, Seq<char>)| quoted_field(pair.0, pair.1);
    assert(items.len() >= 2);
    lemma_join_ends_with_last(items);
    if metadata.duration_ms > 1000 {
        assert(items.last() == mark);
        assert(seq![' '] + mark =~= " SLOW REQUEST"@);
    } else {
        let user_agent = quoted_field("user_agent"@, metadata.request.user_agent);
        let normalized = quoted_field("normalized_path"@, metadata.request.uri);
        assert(items.last() == if custom.len() > 0 {
            quote(custom.last())
        } else if metadata.request.original_path is Some {
            normalized
        } else {
            user_agent
        });
        assert(items.last().len() > 0 && items.last().last() == '"');
        assert(line.last() == '"');
        if spec_ends_with(line, mark) {
            let end = line.subrange(line.len() - mark.len(), line.len() as int);
            assert(end.last() == line.last());
            assert(mark.last() == 'T');
        }
    }
}

} // verus!
