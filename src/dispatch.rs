use vstd::prelude::*;

use crate::outside::{has_prefix, starts_with};
use crate::registry::resolved;
use crate::token::{Token, TokenView};

verus! {

/// Title of every notification.
pub const NOTIFICATION_TITLE: &'static str = "bouzuya.net からのお知らせ";

/// Icon of every notification.
pub const NOTIFICATION_ICON: &'static str = "https://bouzuya.net/images/favicon.png";

/// Origin of the root site.
pub const SITE_ORIGIN: &'static str = "https://bouzuya.net";

/// Origin of the blog.
pub const BLOG_ORIGIN: &'static str = "https://blog.bouzuya.net";

/// Why a notification was refused before any delivery.
#[derive(Clone, Copy, Debug, PartialEq, Eq)]
pub enum ValidationError {
    InvalidMessage,
    InvalidUrl,
}

impl ValidationError {
    /// The message that describes the error.
    pub fn describe(&self) -> (r: &'static str)
        ensures
            *self == ValidationError::InvalidMessage ==> r@ == "invalid message"@,
            *self == ValidationError::InvalidUrl ==> r@ == "invalid url"@,
    {
        match self {
            ValidationError::InvalidMessage => "invalid message",
            ValidationError::InvalidUrl => "invalid url",
        }
    }
}

/// One delivery for the push gateway: a device token and what to show on it.
#[derive(Clone, Debug)]
pub struct PushMessage {
    pub token: String,
    pub title: String,
    pub body: String,
    pub url: String,
    pub icon: String,
    pub require_interaction: bool,
}

/// The mathematical value of a `PushMessage`.
pub ghost struct PushMessageView {
    pub token: Seq<char>,
    pub title: Seq<char>,
    pub body: Seq<char>,
    pub url: Seq<char>,
    pub icon: Seq<char>,
    pub require_interaction: bool,
}

impl View for PushMessage {
    type V = PushMessageView;

    open spec fn view(&self) -> PushMessageView {
        PushMessageView {
            token: self.token@,
            title: self.title@,
            body: self.body@,
            url: self.url@,
            icon: self.icon@,
            require_interaction: self.require_interaction,
        }
    }
}

/// Whether `url` lies under one of the two allowed origins.
pub open spec fn url_allowed(url: Seq<char>) -> bool {
    has_prefix(url, SITE_ORIGIN@) || has_prefix(url, BLOG_ORIGIN@)
}

/// The outcome of validating a notification's message and url, in that order.
pub open spec fn validation(message: Seq<char>, url: Seq<char>) -> Result<(), ValidationError> {
    if message.len() == 0 {
        Err(ValidationError::InvalidMessage)
    } else if !url_allowed(url) {
        Err(ValidationError::InvalidUrl)
    } else {
        Ok(())
    }
}

/// The delivery of `body` and `url` to the device `token`.
pub open spec fn push_model(token: Seq<char>, body: Seq<char>, url: Seq<char>) -> PushMessageView {
    PushMessageView {
        token,
        title: NOTIFICATION_TITLE@,
        body,
        url,
        icon: NOTIFICATION_ICON@,
        require_interaction: true,
    }
}

/// The deliveries of `body` and `url` to each of `tokens`, in order.
pub open spec fn fan_out(tokens: Seq<TokenView>, body: Seq<char>, url: Seq<char>) -> Seq<
    PushMessageView,
> {
    tokens.map_values(|t: TokenView| push_model(t.token, body, url))
}

/// What a notification to `ids` comes to against the registry `m`: the
/// validation error, or one delivery for each id that names a record.
pub open spec fn dispatch_plan(
    m: Map<Seq<char>, TokenView>,
    ids: Seq<Seq<char>>,
    message: Seq<char>,
    url: Seq<char>,
) -> Result<Seq<PushMessageView>, ValidationError> {
    match validation(message, url) {
        Err(e) => Err(e),
        Ok(()) => Ok(fan_out(resolved(m, ids), message, url)),
    }
}

/// The views of a sequence of deliveries.
pub open spec fn push_views(v: Seq<PushMessage>) -> Seq<PushMessageView> {
    v.map_values(|p: PushMessage| p@)
}

/// Checks the message, then the url.
pub fn validate(message: &String, url: &String) -> (r: Result<(), ValidationError>)
    ensures
        r == validation(message@, url@),
{
    if message.as_str().is_empty() {
        return Err(ValidationError::InvalidMessage);
    }
    if !(starts_with(url.as_str(), SITE_ORIGIN) || starts_with(url.as_str(), BLOG_ORIGIN)) {
        return Err(ValidationError::InvalidUrl);
    }
    Ok(())
}

/// The delivery of `body` and `url` to the device `token`.
pub fn push_message(token: String, body: &String, url: &String) -> (r: PushMessage)
    ensures
        r@ == push_model(token@, body@, url@),
{
    PushMessage {
        token,
        title: NOTIFICATION_TITLE.to_string(),
        body: body.clone(),
        url: url.clone(),
        icon: NOTIFICATION_ICON.to_string(),
        require_interaction: true,
    }
}

/// One delivery for each of `tokens`, in order.
pub fn fan_out_messages(tokens: Vec<Token>, body: &String, url: &String) -> (r: Vec<PushMessage>)
    ensures
        push_views(r@) == fan_out(tokens@.map_values(|t: Token| t@), body@, url@),
{
    let mut out: Vec<PushMessage> = Vec::new();
    let mut i: usize = 0;
    while i < tokens.len()
        invariant
            i <= tokens@.len(),
            push_views(out@) == fan_out(
                tokens@.subrange(0, i as int).map_values(|t: Token| t@),
                body@,
                url@,
            ),
        decreases tokens@.len() - i,
    {
        let m = push_message(tokens[i].token.clone(), body, url);
        let ghost before = out@;
        out.push(m);
        assert(push_views(out@) =~= push_views(before).push(m@));
        assert(fan_out(tokens@.subrange(0, i + 1).map_values(|t: Token| t@), body@, url@)
            =~= fan_out(tokens@.subrange(0, i as int).map_values(|t: Token| t@), body@, url@).push(
            m@,
        ));
        i = i + 1;
    }
    assert(tokens@.subrange(0, tokens@.len() as int) =~= tokens@);
    out
}

} // verus!
