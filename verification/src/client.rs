//! The OpenRouter client's settings, its builder, the keys it holds, and
//! the domain clients that turn calls into HTTP requests.
use vstd::prelude::*;

use crate::error::OpenRouterError;
use crate::http::{
    bearer_header, client_headers, headers_view, opt_strings_view, opt_text, HttpMethod,
    HttpRequestPlan,
};
use crate::images::{
    image_generation_request, image_model_endpoints_request, image_models_request, request_json,
    lemma_request_body_fields, request_entries, ImageGenerationRequest, ImageRequestFields,
};
use crate::json::{clone_opt_string, json_bool_value, json_object_value, lookup};
use crate::responses::{
    lemma_responses_body_fields, metadata_opt_in_headers, responses_entries, responses_json,
    responses_request, ResponsesFields, ResponsesRequest,
};
use crate::text::{percent_encode, strings_view};
use vstd::utf8::encode_utf8;

verus! {

/// `reqwest::Client`, carried as an opaque value.
#[verifier::external_type_specification]
#[verifier::external_body]
pub struct ExHttpClient(reqwest::Client);

/// `reqwest::Error`, carried as an opaque value.
#[verifier::external_type_specification]
#[verifier::external_body]
pub struct ExHttpError(reqwest::Error);

/// `reqwest::Client` derives `Clone` over the shared handle to its
/// connection pool and settings: the copy is the same client.
pub assume_specification [<reqwest::Client as Clone>::clone] (c: &reqwest::Client) -> (r: reqwest::Client)
    ensures
        r == *c,
;

/// Calls `reqwest::Client::builder().build()`, which creates an HTTP client
/// with default settings or fails where the TLS backend or system
/// configuration cannot be loaded. Which of the two happens depends on the
/// machine, so nothing is stated of the result.
#[verifier::external_body]
fn new_http_client() -> (r: Result<reqwest::Client, reqwest::Error>)
{
    reqwest::Client::builder().build()
}

/// The OpenRouter base URL used when none is set.
pub open spec fn default_base_url() -> Seq<char> {
    "https://openrouter.ai/api/v1"@
}

/// The application title sent when none is set.
pub open spec fn default_x_title() -> Seq<char> {
    "openrouter-rs"@
}

/// A client's settings, each taken by its view.
pub struct ClientSettings {
    pub base_url: Seq<char>,
    pub api_key: Option<Seq<char>>,
    pub management_key: Option<Seq<char>>,
    pub http_referer: Option<Seq<char>>,
    pub x_title: Option<Seq<char>>,
    pub app_categories: Option<Seq<Seq<char>>>,
    /// The HTTP client requests are sent with.
    pub http_client: reqwest::Client,
}

/// The settings a builder has been given; `None` where a setting is unset.
pub struct BuilderSettings {
    pub base_url: Option<Seq<char>>,
    pub api_key: Option<Seq<char>>,
    pub management_key: Option<Seq<char>>,
    pub http_referer: Option<Seq<char>>,
    pub x_title: Option<Seq<char>>,
    pub app_categories: Option<Seq<Seq<char>>>,
    /// The HTTP client given, if any.
    pub http_client: Option<reqwest::Client>,
}

/// The settings a builder builds, where `fresh` is the HTTP client created
/// when none was given: unset base URL and title take their defaults; the
/// other unset settings stay unset.
pub open spec fn built_settings(b: BuilderSettings, fresh: reqwest::Client) -> ClientSettings {
    ClientSettings {
        base_url: match b.base_url {
            Some(u) => u,
            None => default_base_url(),
        },
        api_key: b.api_key,
        management_key: b.management_key,
        http_referer: b.http_referer,
        x_title: match b.x_title {
            Some(t) => Some(t),
            None => Some(default_x_title()),
        },
        app_categories: b.app_categories,
        http_client: match b.http_client {
            Some(h) => h,
            None => fresh,
        },
    }
}

/// The settings with the API key set.
pub open spec fn with_api_key(c: ClientSettings, k: Seq<char>) -> ClientSettings {
    ClientSettings { api_key: Some(k), ..c }
}

/// The settings with the API key cleared.
pub open spec fn without_api_key(c: ClientSettings) -> ClientSettings {
    ClientSettings { api_key: None, ..c }
}

/// The settings with the management key set.
pub open spec fn with_management_key(c: ClientSettings, k: Seq<char>) -> ClientSettings {
    ClientSettings { management_key: Some(k), ..c }
}

/// The settings with the management key cleared.
pub open spec fn without_management_key(c: ClientSettings) -> ClientSettings {
    ClientSettings { management_key: None, ..c }
}

/// What an operation that needs a key is given: the key, or
/// `KeyNotConfigured` where the client holds none.
pub open spec fn key_result(key: Option<Seq<char>>, r: Result<String, OpenRouterError>) -> bool {
    match key {
        Some(k) => r matches Ok(s) && s@ == k,
        None => r matches Err(e) && e is KeyNotConfigured,
    }
}

/// The headers of a request made with the client's API key.
pub open spec fn settings_headers(c: ClientSettings, key: Seq<char>) -> Seq<(Seq<char>, Seq<char>)> {
    client_headers(key, c.x_title, c.http_referer, c.app_categories)
}

/// After `set_api_key(k)`, operations that need an API key are given `k`;
/// the other settings are unchanged.
pub proof fn lemma_set_api_key_then_require(c: ClientSettings, k: Seq<char>, r: Result<String, OpenRouterError>)
    requires
        key_result(with_api_key(c, k).api_key, r),
    ensures
        r matches Ok(s) && s@ == k,
        with_api_key(c, k).management_key == c.management_key,
        with_api_key(c, k).base_url == c.base_url,
        with_api_key(c, k).x_title == c.x_title,
        with_api_key(c, k).http_referer == c.http_referer,
        with_api_key(c, k).app_categories == c.app_categories,
        with_api_key(c, k).http_client == c.http_client,
{
}

/// After `clear_api_key()`, operations that need an API key are refused
/// with `KeyNotConfigured`, whatever key was set before.
pub proof fn lemma_clear_api_key_then_require(c: ClientSettings, r: Result<String, OpenRouterError>)
    requires
        key_result(without_api_key(c).api_key, r),
    ensures
        r matches Err(e) && e is KeyNotConfigured,
        without_api_key(c).management_key == c.management_key,
        without_api_key(c).http_client == c.http_client,
        without_api_key(without_api_key(c)) == without_api_key(c),
{
}

/// After `set_management_key(k)`, operations that need a management key are
/// given `k`; the API key is unchanged.
pub proof fn lemma_set_management_key_then_require(c: ClientSettings, k: Seq<char>, r: Result<String, OpenRouterError>)
    requires
        key_result(with_management_key(c, k).management_key, r),
    ensures
        r matches Ok(s) && s@ == k,
        with_management_key(c, k).api_key == c.api_key,
        with_management_key(c, k).http_client == c.http_client,
{
}

/// After `clear_management_key()`, operations that need a management key
/// are refused with `KeyNotConfigured`; the API key is unchanged.
pub proof fn lemma_clear_management_key_then_require(c: ClientSettings, r: Result<String, OpenRouterError>)
    requires
        key_result(without_management_key(c).management_key, r),
    ensures
        r matches Err(e) && e is KeyNotConfigured,
        without_management_key(c).api_key == c.api_key,
        without_management_key(c).http_client == c.http_client,
{
}

/// Setting a key and then clearing it leaves the settings as clearing alone
/// would.
pub proof fn lemma_set_then_clear_api_key(c: ClientSettings, k: Seq<char>)
    ensures
        without_api_key(with_api_key(c, k)) == without_api_key(c),
        c.api_key is None ==> without_api_key(with_api_key(c, k)) == c,
{
}

/// Clearing the management key undoes setting it: a client that held none,
/// given one and cleared again, has the settings and HTTP client it began
/// with.
pub proof fn lemma_set_then_clear_management_key(c: ClientSettings, k: Seq<char>)
    ensures
        without_management_key(with_management_key(c, k)) == without_management_key(c),
        c.management_key is None ==> without_management_key(with_management_key(c, k)) == c,
{
}

/// A client built with nothing set talks to `https://openrouter.ai/api/v1`,
/// sends the title `openrouter-rs`, holds no key, referer or category, and
/// sends with the HTTP client created for it.
pub proof fn lemma_builder_defaults(fresh: reqwest::Client)
    ensures
        built_settings(empty_builder(), fresh).base_url == default_base_url(),
        built_settings(empty_builder(), fresh).base_url == "https://openrouter.ai/api/v1"@,
        built_settings(empty_builder(), fresh).x_title == Some(default_x_title()),
        built_settings(empty_builder(), fresh).x_title == Some("openrouter-rs"@),
        built_settings(empty_builder(), fresh).api_key is None,
        built_settings(empty_builder(), fresh).management_key is None,
        built_settings(empty_builder(), fresh).http_referer is None,
        built_settings(empty_builder(), fresh).app_categories is None,
        built_settings(empty_builder(), fresh).http_client == fresh,
{
}

/// A client built from a builder given an HTTP client sends with that
/// client.
pub proof fn lemma_builder_keeps_given_http_client(b: BuilderSettings, h: reqwest::Client, fresh: reqwest::Client)
    requires
        b.http_client == Some(h),
    ensures
        built_settings(b, fresh).http_client == h,
{
}

/// Client for the OpenRouter API: base URL, keys, request metadata and the
/// HTTP client requests are sent with.
#[derive(Debug)]
pub struct OpenRouterClient {
    base_url: String,
    api_key: Option<String>,
    management_key: Option<String>,
    http_referer: Option<String>,
    x_title: Option<String>,
    app_categories: Option<Vec<String>>,
    http_client: reqwest::Client,
}

impl View for OpenRouterClient {
    type V = ClientSettings;

    closed spec fn view(&self) -> ClientSettings {
        ClientSettings {
            base_url: self.base_url@,
            api_key: opt_text(self.api_key),
            management_key: opt_text(self.management_key),
            http_referer: opt_text(self.http_referer),
            x_title: opt_text(self.x_title),
            app_categories: opt_strings_view(self.app_categories),
            http_client: self.http_client,
        }
    }
}

/// Builder for [`OpenRouterClient`].
#[derive(Debug, Clone)]
pub struct OpenRouterClientBuilder {
    base_url: Option<String>,
    api_key: Option<String>,
    management_key: Option<String>,
    http_referer: Option<String>,
    x_title: Option<String>,
    app_categories: Option<Vec<String>>,
    http_client: Option<reqwest::Client>,
}

impl View for OpenRouterClientBuilder {
    type V = BuilderSettings;

    closed spec fn view(&self) -> BuilderSettings {
        BuilderSettings {
            base_url: opt_text(self.base_url),
            api_key: opt_text(self.api_key),
            management_key: opt_text(self.management_key),
            http_referer: opt_text(self.http_referer),
            x_title: opt_text(self.x_title),
            app_categories: opt_strings_view(self.app_categories),
            http_client: self.http_client,
        }
    }
}

/// A builder with nothing set.
pub open spec fn empty_builder() -> BuilderSettings {
    BuilderSettings {
        base_url: None,
        api_key: None,
        management_key: None,
        http_referer: None,
        x_title: None,
        app_categories: None,
        http_client: None,
    }
}

fn clone_opt_strings(o: &Option<Vec<String>>) -> (r: Option<Vec<String>>)
    ensures
        opt_strings_view(r) == opt_strings_view(*o),
{
    match o {
        Some(v) => {
            let c = v.clone();
            assert(strings_view(c@) =~= strings_view(v@));
            Some(c)
        },
        None => None,
    }
}

impl OpenRouterClientBuilder {
    /// Set the base URL.
    pub fn base_url(&mut self, base_url: &str) -> (r: &mut Self)
        ensures
            r@ == (BuilderSettings { base_url: Some(base_url@), ..old(self)@ }),
            *final(self) == *final(r),
    {
        self.base_url = Some(base_url.to_string());
        self
    }

    /// Set the API key.
    pub fn api_key(&mut self, api_key: &str) -> (r: &mut Self)
        ensures
            r@ == (BuilderSettings { api_key: Some(api_key@), ..old(self)@ }),
            *final(self) == *final(r),
    {
        self.api_key = Some(api_key.to_string());
        self
    }

    /// Set the management key.
    pub fn management_key(&mut self, management_key: &str) -> (r: &mut Self)
        ensures
            r@ == (BuilderSettings { management_key: Some(management_key@), ..old(self)@ }),
            *final(self) == *final(r),
    {
        self.management_key = Some(management_key.to_string());
        self
    }

    /// Set the `HTTP-Referer` sent with requests.
    pub fn http_referer(&mut self, http_referer: &str) -> (r: &mut Self)
        ensures
            r@ == (BuilderSettings { http_referer: Some(http_referer@), ..old(self)@ }),
            *final(self) == *final(r),
    {
        self.http_referer = Some(http_referer.to_string());
        self
    }

    /// Set the application title sent with requests.
    pub fn x_title(&mut self, x_title: &str) -> (r: &mut Self)
        ensures
            r@ == (BuilderSettings { x_title: Some(x_title@), ..old(self)@ }),
            *final(self) == *final(r),
    {
        self.x_title = Some(x_title.to_string());
        self
    }

    /// Set the application categories sent with requests.
    pub fn app_categories(&mut self, categories: &[&str]) -> (r: &mut Self)
        ensures
            r@ == (BuilderSettings {
                app_categories: Some(categories@.map_values(|c: &str| c@)),
                ..old(self)@
            }),
            *final(self) == *final(r),
    {
        let mut v: Vec<String> = Vec::new();
        let mut i: usize = 0;
        while i < categories.len()
            invariant
                i <= categories@.len(),
                v@.len() == i,
                forall|j: int| 0 <= j < i ==> (#[trigger] v@[j])@ == categories@[j]@,
            decreases categories@.len() - i,
        {
            v.push(categories[i].to_string());
            i = i + 1;
        }
        assert(strings_view(v@) =~= categories@.map_values(|c: &str| c@));
        self.app_categories = Some(v);
        self
    }

    /// Set the HTTP client requests are sent with.
    pub fn http_client(&mut self, http_client: reqwest::Client) -> (r: &mut Self)
        ensures
            r@ == (BuilderSettings { http_client: Some(http_client), ..old(self)@ }),
            *final(self) == *final(r),
    {
        self.http_client = Some(http_client);
        self
    }

    /// Build the client: an unset base URL is
    /// `https://openrouter.ai/api/v1`, an unset title is `openrouter-rs`,
    /// and without a given HTTP client a new one is created; where that
    /// fails, the build fails with `Http`.
    pub fn build(&self) -> (r: Result<OpenRouterClient, OpenRouterError>)
        ensures
            r matches Ok(c) ==> c@ == built_settings(self@, c@.http_client),
            r matches Err(e) ==> e is Http && self@.http_client is None,
            self@.http_client is Some ==> r is Ok,
    {
        let http_client = match &self.http_client {
            Some(c) => c.clone(),
            None => match new_http_client() {
                Ok(c) => c,
                Err(e) => {
                    return Err(OpenRouterError::Http(e));
                },
            },
        };
        let base_url = match &self.base_url {
            Some(u) => u.clone(),
            None => "https://openrouter.ai/api/v1".to_string(),
        };
        let x_title = match &self.x_title {
            Some(t) => Some(t.clone()),
            None => Some("openrouter-rs".to_string()),
        };
        Ok(OpenRouterClient {
            base_url,
            api_key: clone_opt_string(&self.api_key),
            management_key: clone_opt_string(&self.management_key),
            http_referer: clone_opt_string(&self.http_referer),
            x_title,
            app_categories: clone_opt_strings(&self.app_categories),
            http_client,
        })
    }
}

impl OpenRouterClient {
    /// A builder with nothing set.
    pub fn builder() -> (b: OpenRouterClientBuilder)
        ensures
            b@ == empty_builder(),
    {
        OpenRouterClientBuilder {
            base_url: None,
            api_key: None,
            management_key: None,
            http_referer: None,
            x_title: None,
            app_categories: None,
            http_client: None,
        }
    }

    /// The HTTP client requests are sent with.
    pub fn http_client(&self) -> (r: &reqwest::Client)
        ensures
            *r == self@.http_client,
    {
        &self.http_client
    }

    /// Sets the API key after client construction.
    pub fn set_api_key(&mut self, api_key: &str)
        ensures
            final(self)@ == with_api_key(old(self)@, api_key@),
    {
        self.api_key = Some(api_key.to_string());
    }

    /// Clears the currently set API key.
    pub fn clear_api_key(&mut self)
        ensures
            final(self)@ == without_api_key(old(self)@),
    {
        self.api_key = None;
    }

    /// Sets the management key after client construction.
    pub fn set_management_key(&mut self, management_key: &str)
        ensures
            final(self)@ == with_management_key(old(self)@, management_key@),
    {
        self.management_key = Some(management_key.to_string());
    }

    /// Clears the currently set management key.
    pub fn clear_management_key(&mut self)
        ensures
            final(self)@ == without_management_key(old(self)@),
    {
        self.management_key = None;
    }

    /// The API key for an operation that needs one; `KeyNotConfigured`
    /// where the client holds none.
    pub fn require_api_key(&self) -> (r: Result<String, OpenRouterError>)
        ensures
            key_result(self@.api_key, r),
    {
        match &self.api_key {
            Some(k) => Ok(k.clone()),
            None => Err(OpenRouterError::KeyNotConfigured),
        }
    }

    /// The management key for an operation that needs one;
    /// `KeyNotConfigured` where the client holds none.
    pub fn require_management_key(&self) -> (r: Result<String, OpenRouterError>)
        ensures
            key_result(self@.management_key, r),
    {
        match &self.management_key {
            Some(k) => Ok(k.clone()),
            None => Err(OpenRouterError::KeyNotConfigured),
        }
    }

    /// The base URL requests are sent under.
    pub fn base_url(&self) -> (r: &str)
        ensures
            r@ == self@.base_url,
    {
        self.base_url.as_str()
    }

    /// Domain client for Responses API operations.
    pub fn responses(&self) -> (r: ResponsesClient<'_>)
        ensures
            r.client == self,
    {
        ResponsesClient { client: self }
    }

    /// Domain client for image generation operations.
    pub fn images(&self) -> (r: ImagesClient<'_>)
        ensures
            r.client == self,
    {
        ImagesClient { client: self }
    }
}

impl Clone for OpenRouterClient {
    /// A copy with the same settings and the same HTTP client.
    fn clone(&self) -> (r: OpenRouterClient)
        ensures
            r@ == self@,
    {
        OpenRouterClient {
            base_url: self.base_url.clone(),
            api_key: clone_opt_string(&self.api_key),
            management_key: clone_opt_string(&self.management_key),
            http_referer: clone_opt_string(&self.http_referer),
            x_title: clone_opt_string(&self.x_title),
            app_categories: clone_opt_strings(&self.app_categories),
            http_client: self.http_client.clone(),
        }
    }
}

/// Domain client for image generation endpoints.
#[derive(Debug, Clone, Copy)]
pub struct ImagesClient<'a> {
    pub client: &'a OpenRouterClient,
}

/// Domain client for the Responses API.
#[derive(Debug, Clone, Copy)]
pub struct ResponsesClient<'a> {
    pub client: &'a OpenRouterClient,
}

/// The request that submits an image generation for a client, with the
/// streaming flag set to `stream`.
pub open spec fn image_generation_plan(
    c: ClientSettings,
    key: Seq<char>,
    request: ImageRequestFields,
    stream: bool,
    p: HttpRequestPlan,
) -> bool {
    &&& p.method == HttpMethod::Post
    &&& p.url@ == c.base_url + "/images"@
    &&& headers_view(p.headers@) == settings_headers(c, key)
    &&& p.body == Some(request_json(ImageRequestFields { stream: Some(stream), ..request }))
}

impl<'a> ImagesClient<'a> {
    fn generation_request(&self, request: &ImageGenerationRequest, stream: bool) -> (r: Result<HttpRequestPlan, OpenRouterError>)
        ensures
            r is Ok <==> self.client@.api_key is Some,
            r matches Err(e) ==> e is KeyNotConfigured,
            r matches Ok(p) ==> image_generation_plan(self.client@, self.client@.api_key->0, request@, stream, p),
    {
        let client = self.client;
        let key = client.require_api_key()?;
        Ok(image_generation_request(
            client.base_url.as_str(),
            key.as_str(),
            &client.x_title,
            &client.http_referer,
            &client.app_categories,
            request,
            stream,
        ))
    }

    /// The request that submits an image generation (`POST /images`,
    /// `stream=false`); `KeyNotConfigured` without an API key.
    pub fn create_request(&self, request: &ImageGenerationRequest) -> (r: Result<HttpRequestPlan, OpenRouterError>)
        ensures
            r is Ok <==> self.client@.api_key is Some,
            r matches Err(e) ==> e is KeyNotConfigured,
            r matches Ok(p) ==> image_generation_plan(self.client@, self.client@.api_key->0, request@, false, p),
    {
        self.generation_request(request, false)
    }

    /// The request that streams an image generation (`POST /images`,
    /// `stream=true`); `KeyNotConfigured` without an API key.
    pub fn stream_request(&self, request: &ImageGenerationRequest) -> (r: Result<HttpRequestPlan, OpenRouterError>)
        ensures
            r is Ok <==> self.client@.api_key is Some,
            r matches Err(e) ==> e is KeyNotConfigured,
            r matches Ok(p) ==> image_generation_plan(self.client@, self.client@.api_key->0, request@, true, p),
    {
        self.generation_request(request, true)
    }

    /// The request that lists image models (`GET /images/models`);
    /// `KeyNotConfigured` without an API key.
    pub fn list_models_request(&self) -> (r: Result<HttpRequestPlan, OpenRouterError>)
        ensures
            r is Ok <==> self.client@.api_key is Some,
            r matches Err(e) ==> e is KeyNotConfigured,
            r matches Ok(p) ==> {
                &&& p.method == HttpMethod::Get
                &&& p.url@ == self.client@.base_url + "/images/models"@
                &&& headers_view(p.headers@) == seq![bearer_header(self.client@.api_key->0)]
                &&& p.body is None
            },
    {
        let client = self.client;
        let key = client.require_api_key()?;
        Ok(image_models_request(client.base_url.as_str(), key.as_str()))
    }

    /// The request that lists one image model's provider endpoints
    /// (`GET /images/models/{author}/{slug}/endpoints`, both percent-encoded);
    /// `KeyNotConfigured` without an API key.
    pub fn list_model_endpoints_request(&self, author: &str, slug: &str) -> (r: Result<HttpRequestPlan, OpenRouterError>)
        ensures
            r is Ok <==> self.client@.api_key is Some,
            r matches Err(e) ==> e is KeyNotConfigured,
            r matches Ok(p) ==> {
                &&& p.method == HttpMethod::Get
                &&& p.url@ == self.client@.base_url + "/images/models/"@ + percent_encode(encode_utf8(author@))
                    + "/"@ + percent_encode(encode_utf8(slug@)) + "/endpoints"@
                &&& headers_view(p.headers@) == seq![bearer_header(self.client@.api_key->0)]
                &&& p.body is None
            },
    {
        let client = self.client;
        let key = client.require_api_key()?;
        Ok(image_model_endpoints_request(client.base_url.as_str(), key.as_str(), author, slug))
    }
}

/// The request sent to the Responses API for a client, with the streaming
/// flag set to `stream`.
pub open spec fn responses_plan(
    c: ClientSettings,
    key: Seq<char>,
    request: ResponsesFields,
    stream: bool,
    p: HttpRequestPlan,
) -> bool {
    &&& p.method == HttpMethod::Post
    &&& p.url@ == c.base_url + "/responses"@
    &&& headers_view(p.headers@) == settings_headers(c, key) + metadata_opt_in_headers(request.experimental_metadata)
    &&& p.body == Some(responses_json(ResponsesFields { stream: Some(stream), ..request }))
}

impl<'a> ResponsesClient<'a> {
    fn responses_call(&self, request: &ResponsesRequest, stream: bool) -> (r: Result<HttpRequestPlan, OpenRouterError>)
        ensures
            r is Ok <==> self.client@.api_key is Some,
            r matches Err(e) ==> e is KeyNotConfigured,
            r matches Ok(p) ==> responses_plan(self.client@, self.client@.api_key->0, request@, stream, p),
    {
        let client = self.client;
        let key = client.require_api_key()?;
        Ok(responses_request(
            client.base_url.as_str(),
            key.as_str(),
            &client.x_title,
            &client.http_referer,
            &client.app_categories,
            request,
            stream,
        ))
    }

    /// The request that creates a response (`POST /responses`,
    /// `stream=false`); `KeyNotConfigured` without an API key.
    pub fn create_request(&self, request: &ResponsesRequest) -> (r: Result<HttpRequestPlan, OpenRouterError>)
        ensures
            r is Ok <==> self.client@.api_key is Some,
            r matches Err(e) ==> e is KeyNotConfigured,
            r matches Ok(p) ==> responses_plan(self.client@, self.client@.api_key->0, request@, false, p),
    {
        self.responses_call(request, false)
    }

    /// The request that streams response events (`POST /responses`,
    /// `stream=true`); `KeyNotConfigured` without an API key.
    pub fn stream_request(&self, request: &ResponsesRequest) -> (r: Result<HttpRequestPlan, OpenRouterError>)
        ensures
            r is Ok <==> self.client@.api_key is Some,
            r matches Err(e) ==> e is KeyNotConfigured,
            r matches Ok(p) ==> responses_plan(self.client@, self.client@.api_key->0, request@, true, p),
    {
        self.responses_call(request, true)
    }
}

/// A client's image generation request is `POST {base}/images`, sent with
/// the client's headers for the key, and its body is the request's JSON
/// with `"stream"` set to the streaming flag asked for.
pub proof fn lemma_image_generation_plan_fields(
    c: ClientSettings,
    key: Seq<char>,
    request: ImageRequestFields,
    stream: bool,
    p: HttpRequestPlan,
)
    requires
        image_generation_plan(c, key, request, stream, p),
    ensures
        p.method == HttpMethod::Post,
        p.url@ == c.base_url + "/images"@,
        headers_view(p.headers@) == client_headers(key, c.x_title, c.http_referer, c.app_categories),
        p.body == Some(json_object_value(request_entries(ImageRequestFields { stream: Some(stream), ..request }))),
        lookup(request_entries(ImageRequestFields { stream: Some(stream), ..request }), "stream"@)
            == Some(json_bool_value(stream)),
{
    lemma_request_body_fields(ImageRequestFields { stream: Some(stream), ..request });
}

/// A client's Responses API request is `POST {base}/responses`, sent with
/// the client's headers for the key followed, exactly where the routing
/// metadata opt-in is set, by `X-OpenRouter-Metadata: enabled`; its body is
/// the request's JSON with `"stream"` set to the streaming flag asked for.
pub proof fn lemma_responses_plan_fields(
    c: ClientSettings,
    key: Seq<char>,
    request: ResponsesFields,
    stream: bool,
    p: HttpRequestPlan,
)
    requires
        responses_plan(c, key, request, stream, p),
    ensures
        p.method == HttpMethod::Post,
        p.url@ == c.base_url + "/responses"@,
        request.experimental_metadata is None ==> headers_view(p.headers@) == client_headers(
            key,
            c.x_title,
            c.http_referer,
            c.app_categories,
        ),
        request.experimental_metadata is Some ==> headers_view(p.headers@) == client_headers(
            key,
            c.x_title,
            c.http_referer,
            c.app_categories,
        ).push(("X-OpenRouter-Metadata"@, "enabled"@)),
        p.body == Some(json_object_value(responses_entries(ResponsesFields { stream: Some(stream), ..request }))),
        lookup(responses_entries(ResponsesFields { stream: Some(stream), ..request }), "stream"@)
            == Some(json_bool_value(stream)),
{
    lemma_responses_body_fields(ResponsesFields { stream: Some(stream), ..request });
    let h = client_headers(key, c.x_title, c.http_referer, c.app_categories);
    match request.experimental_metadata {
        Some(m) => {
            assert(h + metadata_opt_in_headers(request.experimental_metadata) =~= h.push(("X-OpenRouter-Metadata"@, "enabled"@)));
        },
        None => {
            assert(h + metadata_opt_in_headers(request.experimental_metadata) =~= h);
        },
    }
}


/// A client built from a builder keeps every setting the builder was given:
/// base URL, keys, referer, title, categories and HTTP client; only unset
/// settings take defaults.
pub proof fn lemma_builder_keeps_given_settings(b: BuilderSettings, fresh: reqwest::Client)
    ensures
        b.base_url matches Some(u) ==> built_settings(b, fresh).base_url == u,
        b.x_title matches Some(t) ==> built_settings(b, fresh).x_title == Some(t),
        built_settings(b, fresh).api_key == b.api_key,
        built_settings(b, fresh).management_key == b.management_key,
        built_settings(b, fresh).http_referer == b.http_referer,
        built_settings(b, fresh).app_categories == b.app_categories,
        b.http_client matches Some(h) ==> built_settings(b, fresh).http_client == h,
        b.base_url is None ==> built_settings(b, fresh).base_url == "https://openrouter.ai/api/v1"@,
        b.x_title is None ==> built_settings(b, fresh).x_title == Some("openrouter-rs"@),
        b.http_client is None ==> built_settings(b, fresh).http_client == fresh,
{
}

} // verus!
