//! Store configuration: resolves the replicated store's credentials and
//! endpoints from the values the process environment supplied. Reading the
//! environment is the caller's job; which values are accepted, which
//! fallbacks apply and which absence is fatal is decided here.

use vstd::prelude::*;

use crate::types::clone_opt_string;

verus! {

/// The resolved store configuration: application id, playground token, and
/// the authentication and websocket endpoints.
#[derive(Debug)]
pub struct StoreEnv {
    pub app_id: String,
    pub playground_token: String,
    pub auth_url: String,
    pub websocket_url: String,
}

/// Resolves the store configuration. The application id falls back from
/// DITTO_APP_ID to DITTO_DATABASE_ID, the token from DITTO_PLAYGROUND_TOKEN
/// to DITTO_SHARED_TOKEN; the two endpoints have no fallback. A missing
/// value is a fatal configuration error, reported in this order: id, token,
/// auth endpoint, websocket endpoint.
pub fn resolve_store_env(
    app_id: Option<String>,
    database_id: Option<String>,
    playground_token: Option<String>,
    shared_token: Option<String>,
    auth_url: Option<String>,
    websocket_url: Option<String>,
) -> (r: Result<StoreEnv, String>)
    ensures
        app_id is None && database_id is None ==> r is Err && r->Err_0@
            == "Missing DITTO_APP_ID (or DITTO_DATABASE_ID)"@,
        (app_id is Some || database_id is Some) && playground_token is None && shared_token is None
            ==> r is Err && r->Err_0@ == "Missing DITTO_PLAYGROUND_TOKEN (or DITTO_SHARED_TOKEN)"@,
        (app_id is Some || database_id is Some) && (playground_token is Some
            || shared_token is Some) && auth_url is None ==> r is Err && r->Err_0@
            == "Missing DITTO_AUTH_URL"@,
        (app_id is Some || database_id is Some) && (playground_token is Some
            || shared_token is Some) && auth_url is Some && websocket_url is None ==> r is Err
            && r->Err_0@ == "Missing DITTO_WEBSOCKET_URL"@,
        (app_id is Some || database_id is Some) && (playground_token is Some
            || shared_token is Some) && auth_url is Some && websocket_url is Some ==> r is Ok && {
            let e = r->Ok_0;
            &&& e.app_id@ == (if app_id is Some {
                app_id->0@
            } else {
                database_id->0@
            })
            &&& e.playground_token@ == (if playground_token is Some {
                playground_token->0@
            } else {
                shared_token->0@
            })
            &&& e.auth_url@ == auth_url->0@
            &&& e.websocket_url@ == websocket_url->0@
        },
{
    let resolved_app_id = match clone_opt_string(&app_id) {
        Some(v) => v,
        None => match clone_opt_string(&database_id) {
            Some(v) => v,
            None => {
                return Err("Missing DITTO_APP_ID (or DITTO_DATABASE_ID)".to_owned());
            }
        },
    };
    let resolved_token = match clone_opt_string(&playground_token) {
        Some(v) => v,
        None => match clone_opt_string(&shared_token) {
            Some(v) => v,
            None => {
                return Err("Missing DITTO_PLAYGROUND_TOKEN (or DITTO_SHARED_TOKEN)".to_owned());
            }
        },
    };
    let resolved_auth_url = match clone_opt_string(&auth_url) {
        Some(v) => v,
        None => {
            return Err("Missing DITTO_AUTH_URL".to_owned());
        }
    };
    let resolved_websocket_url = match clone_opt_string(&websocket_url) {
        Some(v) => v,
        None => {
            return Err("Missing DITTO_WEBSOCKET_URL".to_owned());
        }
    };
    Ok(StoreEnv {
        app_id: resolved_app_id,
        playground_token: resolved_token,
        auth_url: resolved_auth_url,
        websocket_url: resolved_websocket_url,
    })
}

} // verus!
