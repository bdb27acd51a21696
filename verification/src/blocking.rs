//! The synchronous client: one long-lived HTTP transport, one mutable
//! session-token cell, the three private-API call shapes, the catalog call
//! with its default page size, and the cursor-pagination walk.

use vstd::prelude::*;
use vstd::string::StringSliceAdditionalSpecFns;

use crate::{
    is_sentinel, sentinel_token, DeezerError, API_URL, GW_API_URL, TOKEN_SENTINEL,
    USER_AGENT_HEADER, USER_DATA_METHOD,
};
use crate::decode::{bytes_to_string, json_of, lossy_utf8, parse_json};
use crate::form::{gw_params, param_views, spec_gw_params};
use crate::http::{
    build_http_client, http_get, http_post_form, http_post_json, resolve_url, url_append_params,
    url_joined,
};
use crate::json::{
    envelope_error, json_field_or_null, remote_error, spec_render, take_field, into_array,
    into_string, Json,
};
use crate::query::{id_path, search_path, text_path, track_stage_path, with_default_limit};
use crate::text::{bytes_eq, copy_bytes, u64_to_dec};

verus! {

/// The most pages one pagination walk will follow. The protocol itself puts
/// no bound on a `next` chain, so a cyclic chain would never end; this bound
/// is the one safety stop added over the wire behaviour.
pub const MAX_PAGES: u64 = 1000000;

/// One private-API request as the client shaped it: the full parameter map
/// (the caller's fields with the bookkeeping merged in) and, for the
/// JSON-bodied variant, the value sent as the request body.
pub struct GwRequest {
    pub fields: Seq<(Seq<u8>, Seq<u8>)>,
    pub body: Option<Json>,
}

/// The client: a reusable transport handle and the session-token cell,
/// together with two pieces of ghost bookkeeping the contracts are stated
/// over: the count of token refreshes performed, and the log of private-API
/// requests shaped and handed to the transport, in order.
pub struct Deezer {
    client: reqwest::blocking::Client,
    token: String,
    refreshes: Ghost<int>,
    sent: Ghost<Seq<GwRequest>>,
}

impl Deezer {
    /// The stored session token.
    pub closed spec fn spec_token(&self) -> Seq<char> {
        self.token@
    }

    /// How many refresh requests this client has issued.
    pub closed spec fn refresh_count(&self) -> int {
        self.refreshes@
    }

    /// The transport handle, for stating that calls leave it alone.
    pub closed spec fn spec_client(&self) -> reqwest::blocking::Client {
        self.client
    }

    /// The private-API requests this client has shaped and handed to the
    /// transport, in order.
    pub closed spec fn requests(&self) -> Seq<GwRequest> {
        self.sent@
    }
}

/// When the lazy-refresh policy fires: the stored token is the sentinel and
/// the method is not the user-data method.
pub open spec fn refresh_cond(pre: Deezer, method: Seq<char>) -> bool {
    is_sentinel(pre.spec_token()) && vstd::utf8::encode_utf8(method)
        != USER_DATA_METHOD.spec_bytes()
}

/// The request a token refresh dispatches: the user-data method with the
/// literal sentinel as its token and no extra parameters.
pub open spec fn user_data_request() -> GwRequest {
    GwRequest {
        fields: spec_gw_params(
            Seq::empty(),
            TOKEN_SENTINEL.spec_bytes(),
            USER_DATA_METHOD.spec_bytes(),
        ),
        body: None,
    }
}

/// The `api_token` a call dispatches: the literal sentinel for the
/// user-data method, the stored token for every other method.
pub open spec fn gw_token_used(post: Deezer, method: Seq<char>) -> Seq<u8> {
    if vstd::utf8::encode_utf8(method) == USER_DATA_METHOD.spec_bytes() {
        TOKEN_SENTINEL.spec_bytes()
    } else {
        vstd::utf8::encode_utf8(post.spec_token())
    }
}

/// What one private-API call adds to the request log: the refresh's
/// user-data request when the policy fired, then the method's own request —
/// its map the caller's parameters with the bookkeeping merged in over the
/// dispatched token, which is the token still stored when the call returns.
pub open spec fn gw_dispatched(
    pre: Deezer,
    post: Deezer,
    method: Seq<char>,
    extras: Seq<(Seq<u8>, Seq<u8>)>,
    body: Option<Json>,
) -> bool {
    post.requests() == (if refresh_cond(pre, method) {
        pre.requests().push(user_data_request())
    } else {
        pre.requests()
    }).push(
        GwRequest {
            fields: spec_gw_params(
                extras,
                gw_token_used(post, method),
                vstd::utf8::encode_utf8(method),
            ),
            body,
        },
    )
}

/// The session policy, stated by every private-API method: when the
/// stored token is the sentinel and the method is not the user-data method,
/// exactly one refresh is issued; otherwise the token cell and the refresh
/// count are untouched.
pub open spec fn gw_session_step(pre: Deezer, post: Deezer, method: Seq<char>) -> bool {
    &&& post.spec_client() == pre.spec_client()
    &&& if is_sentinel(pre.spec_token()) && vstd::utf8::encode_utf8(method)
        != USER_DATA_METHOD.spec_bytes() {
        post.refresh_count() == pre.refresh_count() + 1
    } else {
        post.refresh_count() == pre.refresh_count() && post.spec_token() == pre.spec_token()
    }
}

/// An envelope that the JSON parse of some response text yields.
pub open spec fn is_parsed_envelope(env: Json) -> bool {
    exists|body: Seq<char>| #[trigger] json_of(body) == Some(env)
}

/// What a private-API call hands back on success: the `results` member of
/// the parse of some response text that carried no remote-reported error.
pub open spec fn is_gw_results(res: Json) -> bool {
    exists|body: Seq<char>|
        {
            &&& #[trigger] json_of(body) matches Some(env)
            &&& remote_error(env) is None
            &&& res == json_field_or_null(env, "results".spec_bytes())
        }
}

/// What a failure carrying remote-reported text looks like: the rendered
/// error object of the parse of some response text.
pub open spec fn is_remote_error_text(m: Seq<char>) -> bool {
    exists|body: Seq<char>|
        {
            &&& #[trigger] json_of(body) matches Some(env)
            &&& remote_error(env) matches Some(e)
            &&& m == lossy_utf8(spec_render(e))
        }
}

/// The items of a list envelope's `data` member, when that member is an
/// array.
pub open spec fn page_items(env: Json) -> Option<Seq<Json>> {
    match json_field_or_null(env, "data".spec_bytes()) {
        Json::Arr(v) => Some(v@),
        _ => None,
    }
}

/// The follow-up path of a list envelope: present exactly when the envelope
/// binds `next` to a string.
pub open spec fn page_next(env: Json) -> Option<Seq<u8>> {
    match crate::json::json_get(env, "next".spec_bytes()) {
        Some(Json::Str(b)) => Some(b@),
        _ => None,
    }
}

/// A complete pagination walk: a non-empty run of
/// error-free envelopes, every one carrying an array `data` member, every
/// one but the last carrying a string `next`, the last carrying none.
pub open spec fn page_chain(envs: Seq<Json>, pages: Seq<Seq<Json>>) -> bool {
    &&& envs.len() == pages.len()
    &&& envs.len() >= 1
    &&& forall|i: int| 0 <= i < envs.len() ==> is_parsed_envelope(#[trigger] envs[i])
    &&& forall|i: int| 0 <= i < envs.len() ==> remote_error(#[trigger] envs[i]) is None
    &&& forall|i: int| 0 <= i < envs.len() ==> page_items(#[trigger] envs[i]) == Some(pages[i])
    &&& forall|i: int| 0 <= i < envs.len() - 1 ==> page_next(#[trigger] envs[i]) is Some
    &&& page_next(envs[envs.len() - 1]) is None
}

/// What a list call hands back on success: the concatenation, in
/// server-supplied order, of the pages of some complete pagination walk.
pub open spec fn is_page_concat(items: Seq<Json>) -> bool {
    exists|envs: Seq<Json>, pages: Seq<Seq<Json>>| page_chain(envs, pages) && items == pages.flatten()
}

/// The envelope-parsing stage, applied to every response of either API:
/// parse the body as JSON, then reject envelopes whose `error` member is an
/// object, surfacing that object's rendered text; an `error` that is
/// absent, null, a scalar, a string or an array passes.
pub fn parse_response_to_value(body: &str) -> (r: Result<Json, DeezerError>)
    ensures
        (match json_of(body@) {
            Some(doc) => match remote_error(doc) {
                Some(e) => r matches Err(DeezerError::ApiError(m)) && m@ == lossy_utf8(
                    spec_render(e),
                ),
                None => r matches Ok(o) && o == doc,
            },
            None => r matches Err(DeezerError::JsonError(_)),
        }),
        r matches Err(DeezerError::ApiError(m)) ==> is_remote_error_text(m@),
        r matches Err(e) ==> (e is ApiError || e is JsonError),
{
    let env = match parse_json(body) {
        Ok(j) => j,
        Err(e) => {
            return Err(DeezerError::JsonError(e));
        },
    };
    match envelope_error(&env) {
        Some(m) => Err(DeezerError::ApiError(bytes_to_string(&m))),
        None => Ok(env),
    }
}

/// The request target of one catalog call: the relative path resolved
/// against the fixed base, with the default page size injected into the
/// query. Fails, without any request, exactly when the path does not
/// resolve.
pub fn catalog_request_target(path: &Vec<u8>) -> (r: Result<Vec<u8>, DeezerError>)
    ensures
        (match url_joined(API_URL@, path@) {
            Some(u) => r matches Ok(t) && t@ == crate::query::spec_with_default_limit(u),
            None => r matches Err(DeezerError::ParseError(_)),
        }),
{
    match resolve_url(API_URL, path) {
        Ok(u) => Ok(with_default_limit(u.as_slice())),
        Err(e) => Err(DeezerError::ParseError(e)),
    }
}


/// Whether this method name is the user-data method.
fn is_user_data_method(method: &str) -> (r: bool)
    ensures
        r == (method.spec_bytes() == USER_DATA_METHOD.spec_bytes()),
{
    bytes_eq(method.as_bytes(), USER_DATA_METHOD.as_bytes())
}

impl Deezer {
    /// Sends one private-API request: the caller's parameters with the
    /// bookkeeping fields merged in, form-encoded, posted to the fixed
    /// endpoint; the shaped map is appended to the request log.
    fn gw_dispatch_form(
        &mut self,
        method: &str,
        api_token: &str,
        extras: Vec<(Vec<u8>, Vec<u8>)>,
    ) -> (r: Result<String, String>)
        ensures
            final(self).spec_client() == old(self).spec_client(),
            final(self).spec_token() == old(self).spec_token(),
            final(self).refresh_count() == old(self).refresh_count(),
            final(self).requests() == old(self).requests().push(
                GwRequest {
                    fields: spec_gw_params(
                        param_views(extras@),
                        api_token.spec_bytes(),
                        method.spec_bytes(),
                    ),
                    body: None,
                },
            ),
    {
        let mut params = extras;
        gw_params(&mut params, api_token.as_bytes(), method.as_bytes());
        self.sent = Ghost(
            self.sent@.push(GwRequest { fields: param_views(params@), body: None }),
        );
        http_post_form(&self.client, GW_API_URL, &params)
    }

    /// Whether the stored token is still the sentinel.
    fn token_is_sentinel(&self) -> (r: bool)
        ensures
            r == is_sentinel(self.spec_token()),
    {
        bytes_eq(self.token.as_str().as_bytes(), TOKEN_SENTINEL.as_bytes())
    }

    /// A client over a fresh transport: fixed identity header, fixed `en`
    /// language preference, cookie persistence, a fifteen-second timeout,
    /// and the sentinel in the token cell. Fails only when the transport
    /// itself cannot be built.
    pub fn new() -> (r: Result<Deezer, DeezerError>)
        ensures
            r matches Ok(d) ==> is_sentinel(d.spec_token()) && d.refresh_count() == 0
                && d.requests() == Seq::<GwRequest>::empty(),
    {
        match build_http_client(USER_AGENT_HEADER, "en", 15) {
            Ok(client) => Ok(
                Deezer {
                    client,
                    token: sentinel_token(),
                    refreshes: Ghost(0int),
                    sent: Ghost(Seq::empty()),
                },
            ),
            Err(e) => Err(DeezerError::RequestError(e)),
        }
    }

    /// The token the user-data envelope issues: the `results.checkForm`
    /// member, decoded as text — `None` when that member is missing or not
    /// a string.
    pub fn token_from_user_data(env: Json) -> (r: Option<String>)
        ensures
            (match json_field_or_null(
                json_field_or_null(env, "results".spec_bytes()),
                "checkForm".spec_bytes(),
            ) {
                Json::Str(b) => r is Some && r->0@ == lossy_utf8(b@),
                _ => r is None,
            }),
    {
        let check = take_field(take_field(env, "results"), "checkForm");
        match into_string(check) {
            Some(b) => Some(bytes_to_string(&b)),
            None => None,
        }
    }

    /// Unconditionally asks the user-data method for a fresh token. On any
    /// failure — transport, parse, or a missing or non-string
    /// `results.checkForm` — the sentinel is returned and the stored token
    /// is left exactly as it was, so a failed attempt never overwrites a
    /// previously obtained token. On success the issued token is stored and
    /// returned.
    pub fn refresh_token(&mut self) -> (r: String)
        ensures
            final(self).spec_client() == old(self).spec_client(),
            final(self).refresh_count() == old(self).refresh_count() + 1,
            final(self).requests() == old(self).requests().push(user_data_request()),
            (r@ == TOKEN_SENTINEL@ && final(self).spec_token() == old(self).spec_token())
                || final(self).spec_token() == r@,
    {
        self.refreshes = Ghost(self.refreshes@ + 1);
        let outcome = self.gw_dispatch_form(USER_DATA_METHOD, TOKEN_SENTINEL, Vec::new());
        proof {
            assert(param_views(Seq::<(Vec<u8>, Vec<u8>)>::empty()) =~= Seq::<
                (Seq<u8>, Seq<u8>),
            >::empty());
        }
        match outcome {
            Ok(body) => {
                match parse_json(body.as_str()) {
                    Ok(env) => {
                        match Self::token_from_user_data(env) {
                            Some(t) => {
                                self.token = t.clone();
                                t
                            },
                            None => sentinel_token(),
                        }
                    },
                    Err(_) => sentinel_token(),
                }
            },
            Err(_) => sentinel_token(),
        }
    }

    /// The lazy-refresh policy: one refresh, issued exactly when the stored
    /// token is the sentinel and the method is not the user-data method; the
    /// call then proceeds with whatever token is now stored.
    fn ensure_session(&mut self, method: &str)
        ensures
            gw_session_step(*old(self), *final(self), method@),
            final(self).requests() == if refresh_cond(*old(self), method@) {
                old(self).requests().push(user_data_request())
            } else {
                old(self).requests()
            },
    {
        if self.token_is_sentinel() && !is_user_data_method(method) {
            let _ = self.refresh_token();
        }
    }

    /// One private-API call with form-encoded parameters: refreshes the
    /// token if needed, merges the bookkeeping fields, dispatches, checks
    /// the envelope, and hands back its `results` member.
    pub fn gw_call(&mut self, method: &str, extras: Vec<(Vec<u8>, Vec<u8>)>) -> (r: Result<
        Json,
        DeezerError,
    >)
        ensures
            gw_session_step(*old(self), *final(self), method@),
            gw_dispatched(*old(self), *final(self), method@, param_views(extras@), None),
            r matches Ok(res) ==> is_gw_results(res),
            r matches Err(DeezerError::ApiError(m)) ==> is_remote_error_text(m@),
            r matches Err(e) ==> (e is RequestError || e is JsonError || e is ApiError),
    {
        self.ensure_session(method);
        let api_token: String = if is_user_data_method(method) {
            sentinel_token()
        } else {
            self.token.clone()
        };
        let body = match self.gw_dispatch_form(method, api_token.as_str(), extras) {
            Ok(b) => b,
            Err(e) => {
                return Err(DeezerError::RequestError(e));
            },
        };
        let env = match parse_response_to_value(body.as_str()) {
            Ok(env) => env,
            Err(e) => {
                return Err(e);
            },
        };
        let ghost genv = env;
        let res = take_field(env, "results");
        proof {
            assert(json_of(body@) == Some(genv) && remote_error(genv) is None && res
                == json_field_or_null(genv, "results".spec_bytes()));
        }
        Ok(res)
    }

    /// One private-API call with a JSON request body: the bookkeeping fields
    /// travel as URL query parameters instead, and the caller's value is the
    /// body. Used by the multi-song lookup.
    pub fn gw_call_json(&mut self, method: &str, body: &Json) -> (r: Result<Json, DeezerError>)
        ensures
            gw_session_step(*old(self), *final(self), method@),
            gw_dispatched(*old(self), *final(self), method@, Seq::empty(), Some(*body)),
            r matches Ok(res) ==> is_gw_results(res),
            r matches Err(DeezerError::ApiError(m)) ==> is_remote_error_text(m@),
            r matches Err(e) ==> (e is ParseError || e is RequestError || e is JsonError
                || e is ApiError),
    {
        self.ensure_session(method);
        let api_token: String = if is_user_data_method(method) {
            sentinel_token()
        } else {
            self.token.clone()
        };
        let mut params: Vec<(Vec<u8>, Vec<u8>)> = Vec::new();
        gw_params(&mut params, api_token.as_str().as_bytes(), method.as_bytes());
        self.sent = Ghost(
            self.sent@.push(GwRequest { fields: param_views(params@), body: Some(*body) }),
        );
        proof {
            assert(param_views(Seq::<(Vec<u8>, Vec<u8>)>::empty()) =~= Seq::<
                (Seq<u8>, Seq<u8>),
            >::empty());
        }
        let url = match url_append_params(GW_API_URL, &params) {
            Ok(u) => u,
            Err(e) => {
                return Err(DeezerError::ParseError(e));
            },
        };
        let rendered = crate::json::render(body);
        let text = match http_post_json(&self.client, &url, rendered) {
            Ok(b) => b,
            Err(e) => {
                return Err(DeezerError::RequestError(e));
            },
        };
        let env = match parse_response_to_value(text.as_str()) {
            Ok(env) => env,
            Err(e) => {
                return Err(e);
            },
        };
        let ghost genv = env;
        let res = take_field(env, "results");
        proof {
            assert(json_of(text@) == Some(genv) && remote_error(genv) is None && res
                == json_field_or_null(genv, "results".spec_bytes()));
        }
        Ok(res)
    }

    /// One catalog GET: the relative path resolved against the fixed base,
    /// the default page size injected, the envelope checked. On success the
    /// whole envelope comes back, guaranteed free of a remote-reported
    /// error; a path that does not resolve is rejected without any request.
    pub fn api_call(&self, path: &Vec<u8>) -> (r: Result<Json, DeezerError>)
        ensures
            r matches Ok(env) ==> remote_error(env) is None && is_parsed_envelope(env),
            url_joined(API_URL@, path@) is None <==> r matches Err(DeezerError::ParseError(_)),
            r matches Err(DeezerError::ApiError(m)) ==> is_remote_error_text(m@),
            r matches Err(e) ==> (e is ParseError || e is RequestError || e is JsonError
                || e is ApiError),
    {
        let url = match catalog_request_target(path) {
            Ok(u) => u,
            Err(e) => {
                return Err(e);
            },
        };
        let body = match http_get(&self.client, &url) {
            Ok(b) => b,
            Err(e) => {
                return Err(DeezerError::RequestError(e));
            },
        };
        parse_response_to_value(body.as_str())
    }

    /// A catalog list call: follows the envelopes' `next` paths, in order,
    /// concatenating every page's `data` array, and stops the first time
    /// `next` is missing or not a string. A failure anywhere discards what
    /// was accumulated. The walk refuses to follow more than [`MAX_PAGES`]
    /// links, the one guard this client adds over the wire protocol.
    pub fn api_list_call(&self, path: &Vec<u8>) -> (r: Result<Vec<Json>, DeezerError>)
        ensures
            r matches Ok(items) ==> is_page_concat(items@),
            r matches Err(DeezerError::ApiError(m)) ==> is_remote_error_text(m@) || m@
                == "pagination limit exceeded"@,
            r matches Err(e) ==> (e is ParseError || e is RequestError || e is JsonError
                || e is ApiError),
    {
        broadcast use vstd::seq_lib::group_seq_properties;

        let mut items: Vec<Json> = Vec::new();
        let mut cur: Vec<u8> = copy_bytes(path);
        let mut fetched: u64 = 0;
        let ghost mut envs: Seq<Json> = Seq::empty();
        let ghost mut pages: Seq<Seq<Json>> = Seq::empty();
        loop
            invariant
                items@ == pages.flatten(),
                envs.len() == pages.len(),
                forall|i: int| 0 <= i < envs.len() ==> is_parsed_envelope(#[trigger] envs[i]),
                forall|i: int| 0 <= i < envs.len() ==> remote_error(#[trigger] envs[i]) is None,
                forall|i: int|
                    0 <= i < envs.len() ==> page_items(#[trigger] envs[i]) == Some(pages[i]),
                forall|i: int| 0 <= i < envs.len() ==> page_next(#[trigger] envs[i]) is Some,
                fetched <= MAX_PAGES,
            decreases MAX_PAGES - fetched,
        {
            let env = match self.api_call(&cur) {
                Ok(e) => e,
                Err(err) => {
                    return Err(err);
                },
            };
            let ghost genv = env;
            let (data, next) = crate::json::split_page(env);
            let mut page = match into_array(data) {
                Some(v) => v,
                None => {
                    return Err(
                        DeezerError::JsonError("the data member is not an array".to_owned()),
                    );
                },
            };
            let ghost gpage = page@;
            items.append(&mut page);
            proof {
                pages.lemma_flatten_push(gpage);
                envs = envs.push(genv);
                pages = pages.push(gpage);
            }
            match next {
                Some(p) => {
                    if fetched == MAX_PAGES {
                        return Err(
                            DeezerError::ApiError("pagination limit exceeded".to_owned()),
                        );
                    }
                    fetched = fetched + 1;
                    cur = p;
                },
                None => {
                    proof {
                        assert(page_chain(envs, pages)) by {
                            assert(envs[envs.len() - 1] == genv);
                            assert(page_next(genv) is None);
                        }
                    }
                    return Ok(items);
                },
            }
        }
    }

    /// The multi-stage track search: the full three-term quoted query, then
    /// track and artist, then the track term alone; the first hit of the
    /// first non-empty stage wins, and when every stage comes back empty the
    /// fixed not-found failure is reported.
    pub fn search_track(&self, track: &str, artist: &str, album: &str, strict: bool) -> (r:
        Result<Json, DeezerError>)
        ensures
            r matches Ok(t) ==> exists|items: Seq<Json>|
                {
                    &&& #[trigger] is_page_concat(items)
                    &&& items.len() >= 1
                    &&& t == items[0]
                },
            r matches Err(DeezerError::ApiError(m)) ==> is_remote_error_text(m@) || m@
                == "pagination limit exceeded"@ || m@ == "No Track Found"@,
            r matches Err(e) ==> (e is ParseError || e is RequestError || e is JsonError
                || e is ApiError),
    {
        let path = track_stage_path(
            track.as_bytes(),
            Some(artist.as_bytes()),
            Some(album.as_bytes()),
            strict,
        );
        let hits = self.api_list_call(&path)?;
        match first_hit(hits) {
            Some(t) => {
                return Ok(t);
            },
            None => {},
        }
        let path = track_stage_path(track.as_bytes(), Some(artist.as_bytes()), None, strict);
        let hits = self.api_list_call(&path)?;
        match first_hit(hits) {
            Some(t) => {
                return Ok(t);
            },
            None => {},
        }
        let path = track_stage_path(track.as_bytes(), None, None, strict);
        let hits = self.api_list_call(&path)?;
        match first_hit(hits) {
            Some(t) => {
                return Ok(t);
            },
            None => {},
        }
        Err(DeezerError::ApiError("No Track Found".to_owned()))
    }
}

impl Deezer {
    /// The track page of the private API.
    pub fn gw_track(&mut self, song_id: u64) -> (r: Result<Json, DeezerError>)
        ensures
            gw_session_step(*old(self), *final(self), "deezer.pageTrack"@),
            gw_dispatched(
                *old(self),
                *final(self),
                "deezer.pageTrack"@,
                seq![("sng_id".spec_bytes(), crate::text::dec_digits(song_id as nat))],
                None,
            ),
            r matches Ok(res) ==> is_gw_results(res),
            r matches Err(DeezerError::ApiError(m)) ==> is_remote_error_text(m@),
    {
        let mut extras: Vec<(Vec<u8>, Vec<u8>)> = Vec::new();
        extras.push((vstd::slice::slice_to_vec("sng_id".as_bytes()), u64_to_dec(song_id)));
        proof {
            assert(param_views(extras@) =~= seq![
                ("sng_id".spec_bytes(), crate::text::dec_digits(song_id as nat)),
            ]);
        }
        self.gw_call("deezer.pageTrack", extras)
    }

    /// One song's raw record from the private API.
    pub fn gw_song(&mut self, song_id: u64) -> (r: Result<Json, DeezerError>)
        ensures
            gw_session_step(*old(self), *final(self), "song.getData"@),
            gw_dispatched(
                *old(self),
                *final(self),
                "song.getData"@,
                seq![("sng_id".spec_bytes(), crate::text::dec_digits(song_id as nat))],
                None,
            ),
            r matches Ok(res) ==> is_gw_results(res),
            r matches Err(DeezerError::ApiError(m)) ==> is_remote_error_text(m@),
    {
        let mut extras: Vec<(Vec<u8>, Vec<u8>)> = Vec::new();
        extras.push((vstd::slice::slice_to_vec("sng_id".as_bytes()), u64_to_dec(song_id)));
        proof {
            assert(param_views(extras@) =~= seq![
                ("sng_id".spec_bytes(), crate::text::dec_digits(song_id as nat)),
            ]);
        }
        self.gw_call("song.getData", extras)
    }

    /// The multi-song batch lookup: the ids travel as a JSON body.
    pub fn gw_songs(&mut self, song_ids: &Vec<u64>) -> (r: Result<Json, DeezerError>)
        ensures
            gw_session_step(*old(self), *final(self), "song.getListData"@),
            exists|b: Json|
                #[trigger] is_sng_ids_body(b, song_ids@) && gw_dispatched(
                    *old(self),
                    *final(self),
                    "song.getListData"@,
                    Seq::empty(),
                    Some(b),
                ),
            r matches Ok(res) ==> is_gw_results(res),
            r matches Err(DeezerError::ApiError(m)) ==> is_remote_error_text(m@),
    {
        let body = sng_ids_body(song_ids);
        self.gw_call_json("song.getListData", &body)
    }

    /// An album's songs from the private API.
    pub fn gw_songs_from_album(&mut self, album_id: u64) -> (r: Result<Json, DeezerError>)
        ensures
            gw_session_step(*old(self), *final(self), "song.getListByAlbum"@),
            gw_dispatched(
                *old(self),
                *final(self),
                "song.getListByAlbum"@,
                seq![("alb_id".spec_bytes(), crate::text::dec_digits(album_id as nat))],
                None,
            ),
            r matches Ok(res) ==> is_gw_results(res),
            r matches Err(DeezerError::ApiError(m)) ==> is_remote_error_text(m@),
    {
        let mut extras: Vec<(Vec<u8>, Vec<u8>)> = Vec::new();
        extras.push((vstd::slice::slice_to_vec("alb_id".as_bytes()), u64_to_dec(album_id)));
        proof {
            assert(param_views(extras@) =~= seq![
                ("alb_id".spec_bytes(), crate::text::dec_digits(album_id as nat)),
            ]);
        }
        self.gw_call("song.getListByAlbum", extras)
    }

    /// An album's raw record from the private API.
    pub fn gw_album(&mut self, album_id: u64) -> (r: Result<Json, DeezerError>)
        ensures
            gw_session_step(*old(self), *final(self), "album.getData"@),
            gw_dispatched(
                *old(self),
                *final(self),
                "album.getData"@,
                seq![("alb_id".spec_bytes(), crate::text::dec_digits(album_id as nat))],
                None,
            ),
            r matches Ok(res) ==> is_gw_results(res),
            r matches Err(DeezerError::ApiError(m)) ==> is_remote_error_text(m@),
    {
        let mut extras: Vec<(Vec<u8>, Vec<u8>)> = Vec::new();
        extras.push((vstd::slice::slice_to_vec("alb_id".as_bytes()), u64_to_dec(album_id)));
        proof {
            assert(param_views(extras@) =~= seq![
                ("alb_id".spec_bytes(), crate::text::dec_digits(album_id as nat)),
            ]);
        }
        self.gw_call("album.getData", extras)
    }

    /// A song's lyrics from the private API.
    pub fn gw_lyrics(&mut self, song_id: u64) -> (r: Result<Json, DeezerError>)
        ensures
            gw_session_step(*old(self), *final(self), "song.getLyrics"@),
            gw_dispatched(
                *old(self),
                *final(self),
                "song.getLyrics"@,
                seq![("sng_id".spec_bytes(), crate::text::dec_digits(song_id as nat))],
                None,
            ),
            r matches Ok(res) ==> is_gw_results(res),
            r matches Err(DeezerError::ApiError(m)) ==> is_remote_error_text(m@),
    {
        let mut extras: Vec<(Vec<u8>, Vec<u8>)> = Vec::new();
        extras.push((vstd::slice::slice_to_vec("sng_id".as_bytes()), u64_to_dec(song_id)));
        proof {
            assert(param_views(extras@) =~= seq![
                ("sng_id".spec_bytes(), crate::text::dec_digits(song_id as nat)),
            ]);
        }
        self.gw_call("song.getLyrics", extras)
    }

    /// One track by id.
    pub fn track(&self, song_id: u64) -> (r: Result<Json, DeezerError>)
        ensures
            r matches Ok(env) ==> remote_error(env) is None,
            r matches Err(DeezerError::ApiError(m)) ==> is_remote_error_text(m@),
    {
        self.api_call(&id_path("track/", song_id, ""))
    }

    /// One track by its recording code.
    pub fn track_from_isrc(&self, isrc: &str) -> (r: Result<Json, DeezerError>)
        ensures
            r matches Ok(env) ==> remote_error(env) is None,
            r matches Err(DeezerError::ApiError(m)) ==> is_remote_error_text(m@),
    {
        self.api_call(&text_path("track/isrc:", isrc))
    }

    /// One album by id.
    pub fn album(&self, album_id: u64) -> (r: Result<Json, DeezerError>)
        ensures
            r matches Ok(env) ==> remote_error(env) is None,
            r matches Err(DeezerError::ApiError(m)) ==> is_remote_error_text(m@),
    {
        self.api_call(&id_path("album/", album_id, ""))
    }

    /// One album by its product code.
    pub fn album_from_upc(&self, upc: u64) -> (r: Result<Json, DeezerError>)
        ensures
            r matches Ok(env) ==> remote_error(env) is None,
            r matches Err(DeezerError::ApiError(m)) ==> is_remote_error_text(m@),
    {
        self.api_call(&id_path("album/upc:", upc, ""))
    }

    /// An album's tracks, across all pages.
    pub fn album_tracks(&self, album_id: u64) -> (r: Result<Vec<Json>, DeezerError>)
        ensures
            r matches Ok(items) ==> is_page_concat(items@),
    {
        self.api_list_call(&id_path("album/", album_id, "/tracks"))
    }

    /// One artist by id.
    pub fn artist(&self, artist_id: u64) -> (r: Result<Json, DeezerError>)
        ensures
            r matches Ok(env) ==> remote_error(env) is None,
            r matches Err(DeezerError::ApiError(m)) ==> is_remote_error_text(m@),
    {
        self.api_call(&id_path("artist/", artist_id, ""))
    }

    /// An artist's albums, across all pages.
    pub fn artist_albums(&self, artist_id: u64) -> (r: Result<Vec<Json>, DeezerError>)
        ensures
            r matches Ok(items) ==> is_page_concat(items@),
    {
        self.api_list_call(&id_path("artist/", artist_id, "/albums"))
    }

    /// An artist's top tracks, across all pages.
    pub fn artist_top_tracks(&self, artist_id: u64) -> (r: Result<Vec<Json>, DeezerError>)
        ensures
            r matches Ok(items) ==> is_page_concat(items@),
    {
        self.api_list_call(&id_path("artist/", artist_id, "/top"))
    }

    /// Artists related to one artist, across all pages.
    pub fn artist_related_artists(&self, artist_id: u64) -> (r: Result<Vec<Json>, DeezerError>)
        ensures
            r matches Ok(items) ==> is_page_concat(items@),
    {
        self.api_list_call(&id_path("artist/", artist_id, "/related"))
    }

    /// An artist's radio tracks, across all pages.
    pub fn artist_radio(&self, artist_id: u64) -> (r: Result<Vec<Json>, DeezerError>)
        ensures
            r matches Ok(items) ==> is_page_concat(items@),
    {
        self.api_list_call(&id_path("artist/", artist_id, "/radio"))
    }

    /// An artist's playlists, across all pages.
    pub fn artist_playlists(&self, artist_id: u64) -> (r: Result<Vec<Json>, DeezerError>)
        ensures
            r matches Ok(items) ==> is_page_concat(items@),
    {
        self.api_list_call(&id_path("artist/", artist_id, "/playlists"))
    }

    /// The editorial selections, across all pages.
    pub fn editorial(&self) -> (r: Result<Vec<Json>, DeezerError>)
        ensures
            r matches Ok(items) ==> is_page_concat(items@),
    {
        self.api_list_call(&text_path("editorial", ""))
    }

    /// One genre's editorial selection.
    pub fn editorial_from_genre(&self, genre_id: u64) -> (r: Result<Json, DeezerError>)
        ensures
            r matches Ok(env) ==> remote_error(env) is None,
            r matches Err(DeezerError::ApiError(m)) ==> is_remote_error_text(m@),
    {
        self.api_call(&id_path("editorial/", genre_id, ""))
    }

    /// Every genre, across all pages.
    pub fn genres(&self) -> (r: Result<Vec<Json>, DeezerError>)
        ensures
            r matches Ok(items) ==> is_page_concat(items@),
    {
        self.api_list_call(&text_path("genre", ""))
    }

    /// One genre by id.
    pub fn genre(&self, genre_id: u64) -> (r: Result<Json, DeezerError>)
        ensures
            r matches Ok(env) ==> remote_error(env) is None,
            r matches Err(DeezerError::ApiError(m)) ==> is_remote_error_text(m@),
    {
        self.api_call(&id_path("genre/", genre_id, ""))
    }

    /// A genre's artists, across all pages.
    pub fn genre_artists(&self, genre_id: u64) -> (r: Result<Vec<Json>, DeezerError>)
        ensures
            r matches Ok(items) ==> is_page_concat(items@),
    {
        self.api_list_call(&id_path("genre/", genre_id, "/artists"))
    }

    /// A genre's radios, across all pages.
    pub fn genre_radios(&self, genre_id: u64) -> (r: Result<Vec<Json>, DeezerError>)
        ensures
            r matches Ok(items) ==> is_page_concat(items@),
    {
        self.api_list_call(&id_path("genre/", genre_id, "/radios"))
    }

    /// The service's infos record.
    pub fn infos(&self) -> (r: Result<Json, DeezerError>)
        ensures
            r matches Ok(env) ==> remote_error(env) is None,
            r matches Err(DeezerError::ApiError(m)) ==> is_remote_error_text(m@),
    {
        self.api_call(&text_path("infos", ""))
    }

    /// Every radio, across all pages.
    pub fn radios(&self) -> (r: Result<Vec<Json>, DeezerError>)
        ensures
            r matches Ok(items) ==> is_page_concat(items@),
    {
        self.api_list_call(&text_path("radio", ""))
    }

    /// One radio by id.
    pub fn radio(&self, radio_id: u64) -> (r: Result<Json, DeezerError>)
        ensures
            r matches Ok(env) ==> remote_error(env) is None,
            r matches Err(DeezerError::ApiError(m)) ==> is_remote_error_text(m@),
    {
        self.api_call(&id_path("radio/", radio_id, ""))
    }

    /// A radio's tracks, across all pages.
    pub fn radio_tracks(&self, radio_id: u64) -> (r: Result<Vec<Json>, DeezerError>)
        ensures
            r matches Ok(items) ==> is_page_concat(items@),
    {
        self.api_list_call(&id_path("radio/", radio_id, "/tracks"))
    }

    /// The radios grouped by genre, across all pages.
    pub fn radio_genres(&self) -> (r: Result<Vec<Json>, DeezerError>)
        ensures
            r matches Ok(items) ==> is_page_concat(items@),
    {
        self.api_list_call(&text_path("radio/genres", ""))
    }

    /// The top radios, across all pages.
    pub fn radio_top(&self) -> (r: Result<Vec<Json>, DeezerError>)
        ensures
            r matches Ok(items) ==> is_page_concat(items@),
    {
        self.api_list_call(&text_path("radio/top", ""))
    }

    /// The radio lists, across all pages.
    pub fn radio_lists(&self) -> (r: Result<Vec<Json>, DeezerError>)
        ensures
            r matches Ok(items) ==> is_page_concat(items@),
    {
        self.api_list_call(&text_path("radio/lists", ""))
    }

    /// A track search with a free-text query, across all pages.
    pub fn search(&self, query: &str, strict: bool) -> (r: Result<Vec<Json>, DeezerError>)
        ensures
            r matches Ok(items) ==> is_page_concat(items@),
    {
        self.api_list_call(&search_path("search", query.as_bytes(), strict))
    }

    /// An album search, across all pages.
    pub fn search_album(&self, query: &str, strict: bool) -> (r: Result<Vec<Json>, DeezerError>)
        ensures
            r matches Ok(items) ==> is_page_concat(items@),
    {
        self.api_list_call(&search_path("search/album", query.as_bytes(), strict))
    }

    /// An artist search, across all pages.
    pub fn search_artist(&self, query: &str, strict: bool) -> (r: Result<Vec<Json>, DeezerError>)
        ensures
            r matches Ok(items) ==> is_page_concat(items@),
    {
        self.api_list_call(&search_path("search/artist", query.as_bytes(), strict))
    }

    /// A playlist search, across all pages.
    pub fn search_playlist(&self, query: &str, strict: bool) -> (r: Result<
        Vec<Json>,
        DeezerError,
    >)
        ensures
            r matches Ok(items) ==> is_page_concat(items@),
    {
        self.api_list_call(&search_path("search/playlist", query.as_bytes(), strict))
    }

    /// A user search, across all pages.
    pub fn search_user(&self, query: &str, strict: bool) -> (r: Result<Vec<Json>, DeezerError>)
        ensures
            r matches Ok(items) ==> is_page_concat(items@),
    {
        self.api_list_call(&search_path("search/user", query.as_bytes(), strict))
    }
}

/// Whether a value is the decimal lexeme of `id`.
pub open spec fn is_id_lexeme(j: Json, id: u64) -> bool {
    match j {
        Json::Num(d) => d@ == crate::text::dec_digits(id as nat),
        _ => false,
    }
}

/// Whether a value is the batch-lookup request body: the one-member object
/// binding `sng_ids` to the array of the ids' decimal lexemes, in order.
pub open spec fn is_sng_ids_body(j: Json, ids: Seq<u64>) -> bool {
    match j {
        Json::Obj(fields) => {
            &&& fields@.len() == 1
            &&& fields@[0].0@ == "sng_ids".spec_bytes()
            &&& (match fields@[0].1 {
                Json::Arr(elems) => elems@.len() == ids.len() && (forall|i: int|
                    0 <= i < ids.len() ==> is_id_lexeme(#[trigger] elems@[i], ids[i])),
                _ => false,
            })
        },
        _ => false,
    }
}

/// Builds the batch-lookup request body for the given ids.
pub fn sng_ids_body(song_ids: &Vec<u64>) -> (r: Json)
    ensures
        is_sng_ids_body(r, song_ids@),
{
    let mut ids: Vec<Json> = Vec::new();
    let mut i: usize = 0;
    while i < song_ids.len()
        invariant
            i <= song_ids@.len(),
            ids@.len() == i,
            forall|k: int| 0 <= k < i ==> is_id_lexeme(#[trigger] ids@[k], song_ids@[k]),
        decreases song_ids@.len() - i,
    {
        ids.push(Json::Num(u64_to_dec(song_ids[i])));
        i += 1;
    }
    let mut fields: Vec<(Vec<u8>, Json)> = Vec::new();
    fields.push((vstd::slice::slice_to_vec("sng_ids".as_bytes()), Json::Arr(ids)));
    Json::Obj(fields)
}

/// The stage decision of the track search: a non-empty stage stops the
/// search with its first hit, an empty one falls through.
pub fn first_hit(items: Vec<Json>) -> (r: Option<Json>)
    ensures
        match r {
            Some(t) => items@.len() >= 1 && t == items@[0],
            None => items@.len() == 0,
        },
{
    let mut items = items;
    if items.len() > 0 {
        Some(items.remove(0))
    } else {
        None
    }
}

} // verus!
