use vstd::prelude::*;

use crate::dispatch::{
    dispatch_plan, fan_out_messages, push_views, validate, PushMessage, PushMessageView,
    ValidationError,
};
use crate::outside::{hex_encode, hex_of, random_bytes, strip_once, strip_prefix_once, unix_time_secs, ID_BYTES};
use crate::registry::{string_views, Registry};
use crate::token::{Token, TokenView};

verus! {

/// Prefix stripped from a presented admin credential.
pub const BEARER_PREFIX: &'static str = "Bearer ";

/// Greeting sent by a self-test notification.
pub const TEST_MESSAGE: &'static str = "テスト通知です";

/// Url carried by a self-test notification.
pub const TEST_URL: &'static str = "https://bouzuya.net/";

/// Proof that the caller presented the admin secret; only
/// `App::authorize` makes one.
pub struct AdminAuth {
    granted: (),
}

/// Why an admin request was refused.
#[derive(Clone, Copy, Debug, PartialEq, Eq)]
pub enum AuthError {
    /// No credential was presented.
    Unauthorized,
    /// A credential was presented and it is not the secret.
    Forbidden,
}

/// A failure inside the service: no random source or no clock.
#[derive(Clone, Copy, Debug, PartialEq, Eq)]
pub enum ServiceError {
    Internal,
}

/// Body of an admin notification request.
pub struct CreateRequestBody {
    pub message: String,
    pub token_ids: Vec<String>,
    pub url: String,
}

/// Body of the answer to an admin notification request.
pub struct CreateResponseBody {}

/// Body of the admin token listing.
pub struct ListResponseBody {
    pub tokens: Vec<ListResponseBodyToken>,
}

/// One entry of the admin token listing: never the push token itself.
pub struct ListResponseBodyToken {
    pub created_at: u64,
    pub id: String,
}

/// The service: the token registry and the admin secret.
pub struct App {
    secret: String,
    tokens: Registry,
}

/// The credential that a header value presents: the value with one leading
/// `Bearer ` taken off, where it has one.
pub open spec fn presented_secret(header: Seq<char>) -> Seq<char> {
    strip_once(header, BEARER_PREFIX@)
}

/// The outcome of presenting `header` to a gate that holds `secret`.
pub open spec fn auth_outcome(secret: Seq<char>, header: Option<Seq<char>>) -> Result<(), AuthError> {
    match header {
        None => Err(AuthError::Unauthorized),
        Some(h) => if presented_secret(h) == secret {
            Ok(())
        } else {
            Err(AuthError::Forbidden)
        },
    }
}

impl App {
    /// The admin secret.
    pub closed spec fn secret_view(&self) -> Seq<char> {
        self.secret@
    }

    /// The registered tokens, keyed by id.
    pub closed spec fn tokens_view(&self) -> Map<Seq<char>, TokenView> {
        self.tokens@
    }

    pub closed spec fn wf(&self) -> bool {
        self.tokens.wf() && self.tokens@.dom().finite()
    }

    /// A service with the given admin secret and no tokens.
    pub fn new(secret: String) -> (r: App)
        ensures
            r.wf(),
            r.tokens_view().dom().finite(),
            r.secret_view() == secret@,
            r.tokens_view() == Map::<Seq<char>, TokenView>::empty(),
    {
        App { secret, tokens: Registry::new() }
    }

    /// Whether `secret` is the admin secret.
    pub fn is_admin(&self, secret: &str) -> (r: bool)
        ensures
            r == (secret@ == self.secret_view()),
    {
        self.secret == secret.to_string()
    }

    /// The admin gate over an authorization header value, `None` where the
    /// request carries none that is readable.
    pub fn authorize(&self, header: Option<&str>) -> (r: Result<AdminAuth, AuthError>)
        ensures
            auth_outcome(
                self.secret_view(),
                match header {
                    Some(h) => Some(h@),
                    None => None,
                },
            ) == match r {
                Ok(_) => Ok(()),
                Err(e) => Err(e),
            },
    {
        match header {
            None => Err(AuthError::Unauthorized),
            Some(h) => {
                let presented = strip_prefix_once(h, BEARER_PREFIX);
                if self.is_admin(presented.as_str()) {
                    Ok(AdminAuth { granted: () })
                } else {
                    Err(AuthError::Forbidden)
                }
            },
        }
    }

    /// A snapshot of every registered token.
    pub fn list_tokens(&self) -> (r: Vec<Token>)
        requires
            self.wf(),
        ensures
            forall|i: int|
                0 <= i < r@.len() ==> self.tokens_view().contains_key(#[trigger] r@[i].id@)
                    && self.tokens_view()[r@[i].id@] == r@[i]@,
            forall|i: int, j: int| 0 <= i < j < r@.len() ==> r@[i].id@ != r@[j].id@,
            forall|k: Seq<char>|
                #[trigger] self.tokens_view().contains_key(k) ==> exists|i: int|
                    0 <= i < r@.len() && r@[i].id@ == k,
    {
        self.tokens.list_all()
    }

    /// The admin listing: the id and creation time of every registered token.
    pub fn list(&self, auth: AdminAuth) -> (r: ListResponseBody)
        requires
            self.wf(),
        ensures
            forall|i: int|
                0 <= i < r.tokens@.len() ==> self.tokens_view().contains_key(
                    #[trigger] r.tokens@[i].id@,
                ) && self.tokens_view()[r.tokens@[i].id@].created_at == r.tokens@[i].created_at,
            forall|i: int, j: int|
                0 <= i < j < r.tokens@.len() ==> r.tokens@[i].id@ != r.tokens@[j].id@,
            forall|k: Seq<char>|
                #[trigger] self.tokens_view().contains_key(k) ==> exists|i: int|
                    0 <= i < r.tokens@.len() && r.tokens@[i].id@ == k,
    {
        let all = self.list_tokens();
        let mut out: Vec<ListResponseBodyToken> = Vec::new();
        let mut i: usize = 0;
        while i < all.len()
            invariant
                i <= all@.len(),
                out@.len() == i,
                forall|j: int|
                    0 <= j < i ==> (#[trigger] out@[j]).id@ == all@[j].id@ && out@[j].created_at
                        == all@[j].created_at,
            decreases all@.len() - i,
        {
            out.push(ListResponseBodyToken { created_at: all[i].created_at, id: all[i].id.clone() });
            i = i + 1;
        }
        assert forall|k: Seq<char>| #[trigger] self.tokens_view().contains_key(k) implies exists|
            j: int,
        | 0 <= j < out@.len() && out@[j].id@ == k by {
            let j = choose|j: int| 0 <= j < all@.len() && all@[j].id@ == k;
            assert(out@[j].id@ == all@[j].id@);
            assert(0 <= j < out@.len() && out@[j].id@ == k);
        }
        assert forall|a: int, b: int| 0 <= a < b < out@.len() implies out@[a].id@
            != out@[b].id@ by {
            assert(out@[a].id@ == all@[a].id@);
            assert(out@[b].id@ == all@[b].id@);
        }
        assert forall|a: int| 0 <= a < out@.len() implies self.tokens_view().contains_key(
            #[trigger] out@[a].id@,
        ) && self.tokens_view()[out@[a].id@].created_at == out@[a].created_at by {
            assert(out@[a].id@ == all@[a].id@);
        }
        let r = ListResponseBody { tokens: out };
        assert(r.tokens@ == out@);
        r
    }

    /// Validates a notification and plans one delivery for each id that
    /// names a registered token.
    pub fn create_notification(&self, token_ids: Vec<String>, message: String, url: String) -> (r:
        Result<Vec<PushMessage>, ValidationError>)
        requires
            self.wf(),
        ensures
            dispatch_plan(self.tokens_view(), string_views(token_ids@), message@, url@) == match r {
                Ok(v) => Ok(push_views(v@)),
                Err(e) => Err::<Seq<PushMessageView>, ValidationError>(e),
            },
    {
        match validate(&message, &url) {
            Err(e) => Err(e),
            Ok(()) => {
                let tokens = self.tokens.resolve(&token_ids);
                Ok(fan_out_messages(tokens, &message, &url))
            },
        }
    }

    /// The self-test notification to the token registered under `token_id`.
    pub fn create_test_notification(&self, token_id: String) -> (r: Result<
        Vec<PushMessage>,
        ValidationError,
    >)
        requires
            self.wf(),
        ensures
            dispatch_plan(self.tokens_view(), seq![token_id@], TEST_MESSAGE@, TEST_URL@)
                == match r {
                Ok(v) => Ok(push_views(v@)),
                Err(e) => Err::<Seq<PushMessageView>, ValidationError>(e),
            },
    {
        let ids = vec![token_id];
        assert(string_views(ids@) =~= seq![ids@[0]@]);
        self.create_notification(ids, TEST_MESSAGE.to_string(), TEST_URL.to_string())
    }

    /// Registers `token` under the id spelled by `bytes` in hexadecimal,
    /// created at `created_at`, and returns the id. Where the id is taken
    /// already the registry is left as it was.
    pub fn register_drawn(&mut self, bytes: &Vec<u8>, created_at: u64, token: String) -> (r: String)
        requires
            old(self).wf(),
        ensures
            final(self).wf(),
            final(self).tokens_view().dom().finite(),
            final(self).secret_view() == old(self).secret_view(),
            r@ == hex_of(bytes@),
            old(self).tokens_view().contains_key(r@) ==> final(self).tokens_view()
                == old(self).tokens_view(),
            !old(self).tokens_view().contains_key(r@) ==> final(self).tokens_view()
                == old(self).tokens_view().insert(
                r@,
                TokenView { created_at, id: r@, token: token@ },
            ),
    {
        let id = hex_encode(bytes);
        let _ = self.tokens.insert(id.clone(), created_at, token);
        id
    }

    /// Registers `token` under a fresh random id and returns the id. Where the
    /// id is taken already the registry is left as it was.
    pub fn create_token(&mut self, token: String) -> (r: Result<String, ServiceError>)
        requires
            old(self).wf(),
        ensures
            final(self).wf(),
            final(self).tokens_view().dom().finite(),
            final(self).secret_view() == old(self).secret_view(),
            match r {
                Ok(id) => {
                    &&& id@.len() == 2 * ID_BYTES
                    &&& exists|b: Seq<u8>| b.len() == ID_BYTES && id@ == hex_of(b)
                    &&& old(self).tokens_view().contains_key(id@) ==> final(self).tokens_view()
                        == old(self).tokens_view()
                    &&& !old(self).tokens_view().contains_key(id@) ==> exists|t: u64|
                        final(self).tokens_view() == old(self).tokens_view().insert(
                            id@,
                            TokenView { created_at: t, id: id@, token: token@ },
                        )
                },
                Err(_) => final(self).tokens_view() == old(self).tokens_view(),
            },
    {
        let bytes = match random_bytes(ID_BYTES) {
            Some(b) => b,
            None => return Err(ServiceError::Internal),
        };
        let created_at = match unix_time_secs() {
            Some(t) => t,
            None => return Err(ServiceError::Internal),
        };
        let id = self.register_drawn(&bytes, created_at, token);
        assert(id@.len() == 2 * ID_BYTES);
        Ok(id)
    }

    /// Removes the token registered under `token_id`, if any.
    pub fn delete_token(&mut self, token_id: String)
        requires
            old(self).wf(),
        ensures
            final(self).wf(),
            final(self).tokens_view().dom().finite(),
            final(self).secret_view() == old(self).secret_view(),
            final(self).tokens_view() == old(self).tokens_view().remove(token_id@),
    {
        self.tokens.delete(&token_id);
    }
}

/// Sends a device its self-test notification.
pub trait CreateNotificationService {
    spec fn ready(&self) -> bool;

    /// The registered tokens, keyed by id.
    spec fn tokens(&self) -> Map<Seq<char>, TokenView>;

    fn create_test_notification(&self, token_id: String) -> (r: Result<
        Vec<PushMessage>,
        ValidationError,
    >)
        requires
            self.ready(),
        ensures
            dispatch_plan(self.tokens(), seq![token_id@], TEST_MESSAGE@, TEST_URL@) == match r {
                Ok(v) => Ok(push_views(v@)),
                Err(e) => Err::<Seq<PushMessageView>, ValidationError>(e),
            },
    ;
}

/// Registers push tokens.
pub trait CreateTokenService {
    spec fn ready(&self) -> bool;

    /// The registered tokens, keyed by id.
    spec fn tokens(&self) -> Map<Seq<char>, TokenView>;

    fn create_token(&mut self, token: String) -> (r: Result<String, ServiceError>)
        requires
            old(self).ready(),
        ensures
            final(self).ready(),
            final(self).tokens().dom().finite(),
            match r {
                Ok(id) => {
                    &&& old(self).tokens().contains_key(id@) ==> final(self).tokens() == old(
                        self,
                    ).tokens()
                    &&& !old(self).tokens().contains_key(id@) ==> exists|t: u64|
                        final(self).tokens() == old(self).tokens().insert(
                            id@,
                            TokenView { created_at: t, id: id@, token: token@ },
                        )
                },
                Err(_) => final(self).tokens() == old(self).tokens(),
            },
    ;
}

/// Removes push tokens.
pub trait DeleteTokenService {
    spec fn ready(&self) -> bool;

    /// The registered tokens, keyed by id.
    spec fn tokens(&self) -> Map<Seq<char>, TokenView>;

    fn delete_token(&mut self, token_id: String) -> (r: Result<(), ServiceError>)
        requires
            old(self).ready(),
        ensures
            final(self).ready(),
            r is Ok,
            final(self).tokens() == old(self).tokens().remove(token_id@),
    ;
}

impl CreateNotificationService for App {
    closed spec fn ready(&self) -> bool {
        self.wf()
    }

    open spec fn tokens(&self) -> Map<Seq<char>, TokenView> {
        self.tokens_view()
    }

    fn create_test_notification(&self, token_id: String) -> (r: Result<
        Vec<PushMessage>,
        ValidationError,
    >) {
        App::create_test_notification(self, token_id)
    }
}

impl CreateTokenService for App {
    closed spec fn ready(&self) -> bool {
        self.wf()
    }

    open spec fn tokens(&self) -> Map<Seq<char>, TokenView> {
        self.tokens_view()
    }

    fn create_token(&mut self, token: String) -> (r: Result<String, ServiceError>) {
        App::create_token(self, token)
    }
}

impl DeleteTokenService for App {
    closed spec fn ready(&self) -> bool {
        self.wf()
    }

    open spec fn tokens(&self) -> Map<Seq<char>, TokenView> {
        self.tokens_view()
    }

    fn delete_token(&mut self, token_id: String) -> (r: Result<(), ServiceError>) {
        App::delete_token(self, token_id);
        Ok(())
    }
}

} // verus!
