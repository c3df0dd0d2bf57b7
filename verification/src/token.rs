//! Access tokens and how long they stay valid.

use crate::response::{find_i64, find_string, find_u64, i64_field, string_field, u64_field, ParseError};
use crate::time::{lemma_instant_view_injective, Instant, MAX_CLOCK_SECS};
use rustc_serialize::json::Json;
use vstd::prelude::*;
use vstd::std_specs::cmp::PartialEqSpecImpl;

verus! {

/// The instant at which an access token stops being valid.
///
/// Its view is that instant, in nanoseconds since the Unix epoch. Two lifetimes
/// are equal exactly where they end at the same instant.
#[derive(Debug, PartialEq, Eq, Clone, Copy, Structural)]
pub struct AccessTokenLifetime {
    expires: Instant,
}

impl View for AccessTokenLifetime {
    type V = int;

    closed spec fn view(&self) -> int {
        self.expires@
    }
}

/// What reading `expires_in` at the instant `now` gives: the end of the
/// lifetime in nanoseconds since the epoch, or the reason why there is none.
pub open spec fn lifetime_result(expires_in: Option<i64>, now: Instant) -> Result<int, ParseError> {
    match expires_in {
        None => Err(ParseError::ExpectedFieldType("expires_in", "i64")),
        Some(seconds) => if i64::MIN <= now.spec_timestamp() + seconds <= i64::MAX {
            Ok(now@ + seconds * 1_000_000_000)
        } else {
            Err(ParseError::ExpectedFieldValue("expires_in", "seconds within the range of the clock"))
        },
    }
}

/// Whether a lifetime of `expires_in` seconds ends within the range of the
/// clock at whatever instant the clock is read.
pub open spec fn fits_every_reading(expires_in: i64) -> bool {
    i64::MIN + MAX_CLOCK_SECS <= expires_in <= i64::MAX - MAX_CLOCK_SECS
}

/// Whether `result` is what reading the lifetime out of the response `json`
/// at `now` gives.
pub open spec fn lifetime_read_at(
    result: Result<AccessTokenLifetime, ParseError>,
    json: Json,
    now: Instant,
) -> bool {
    match result {
        Ok(lifetime) => lifetime_result(i64_field(json, "expires_in"@), now) == Ok::<
            int,
            ParseError,
        >(lifetime@),
        Err(error) => lifetime_result(i64_field(json, "expires_in"@), now) == Err::<
            int,
            ParseError,
        >(error),
    }
}

impl AccessTokenLifetime {
    /// The invariant of the type: the end of the lifetime is a valid instant.
    #[verifier::type_invariant]
    pub closed spec fn wf(self) -> bool {
        self.expires.wf()
    }

    /// The instant at which the lifetime ends.
    pub closed spec fn spec_expires(&self) -> Instant {
        self.expires
    }

    /// Whether the lifetime has ended at the instant `now`.
    pub open spec fn spec_expired_at(&self, now: Instant) -> bool {
        self@ <= now@
    }

    /// The lifetime that ends when the second `timestamp` begins.
    pub fn from_timestamp(timestamp: i64) -> (lifetime: AccessTokenLifetime)
        ensures
            lifetime.wf(),
            lifetime@ == timestamp * 1_000_000_000,
            lifetime.spec_expires().spec_timestamp() == timestamp,
    {
        AccessTokenLifetime { expires: Instant::from_timestamp(timestamp) }
    }

    /// The lifetime of a token that is issued at `now` and stays valid for
    /// `expires_in` seconds, or `None` where it would end outside the range of
    /// the clock.
    pub fn issued_at(now: Instant, expires_in: i64) -> (lifetime: Option<AccessTokenLifetime>)
        ensures
            lifetime is Some <==> i64::MIN <= now.spec_timestamp() + expires_in <= i64::MAX,
            lifetime matches Some(l) ==> l.wf() && l@ == now@ + expires_in * 1_000_000_000,
    {
        match now.checked_add_seconds(expires_in) {
            Some(expires) => Some(AccessTokenLifetime { expires }),
            None => None,
        }
    }

    /// Reads a lifetime from what a response holds under `expires_in`, for a
    /// response that arrived at `now`.
    pub fn from_expires_in(expires_in: Option<i64>, now: Instant) -> (result: Result<
        AccessTokenLifetime,
        ParseError,
    >)
        ensures
            match result {
                Ok(lifetime) => lifetime.wf() && lifetime_result(expires_in, now) == Ok::<
                    int,
                    ParseError,
                >(lifetime@),
                Err(error) => lifetime_result(expires_in, now) == Err::<int, ParseError>(error),
            },
    {
        match expires_in {
            None => Err(ParseError::ExpectedFieldType("expires_in", "i64")),
            Some(seconds) => match AccessTokenLifetime::issued_at(now, seconds) {
                Some(lifetime) => Ok(lifetime),
                None => Err(
                    ParseError::ExpectedFieldValue(
                        "expires_in",
                        "seconds within the range of the clock",
                    ),
                ),
            },
        }
    }

    /// Reads a lifetime from a response that arrived at `now`.
    pub fn from_response_at(json: &Json, now: Instant) -> (result: Result<
        AccessTokenLifetime,
        ParseError,
    >)
        ensures
            lifetime_read_at(result, *json, now),
            result matches Ok(lifetime) ==> lifetime.wf(),
    {
        AccessTokenLifetime::from_expires_in(find_i64(json, "expires_in"), now)
    }

    /// Reads a lifetime from a response that arrives now: the result is that
    /// of [`AccessTokenLifetime::from_response_at`] for some reading of the
    /// system clock.
    ///
    /// Whatever the clock says, a response without an integer under
    /// `expires_in` is refused, and one whose `expires_in` fits every reading
    /// gives a lifetime.
    pub fn from_response(json: &Json) -> (result: Result<AccessTokenLifetime, ParseError>)
        ensures
            exists|now: Instant| now.is_reading() && #[trigger] lifetime_read_at(result, *json, now),
            result matches Ok(lifetime) ==> lifetime.wf(),
            i64_field(*json, "expires_in"@) is None ==> result == Err::<
                AccessTokenLifetime,
                ParseError,
            >(ParseError::ExpectedFieldType("expires_in", "i64")),
            i64_field(*json, "expires_in"@) matches Some(seconds) && fits_every_reading(seconds)
                ==> result is Ok,
    {
        let now = Instant::now();
        let result = AccessTokenLifetime::from_response_at(json, now);
        assert(lifetime_read_at(result, *json, now));
        result
    }

    /// The instant at which the lifetime ends.
    #[verifier::when_used_as_spec(spec_expires)]
    pub fn expires(&self) -> (instant: Instant)
        ensures
            instant == self.spec_expires(),
            instant@ == self@,
            instant.wf(),
    {
        proof {
            use_type_invariant(self);
        }
        self.expires
    }

    /// The Unix timestamp of the second in which the lifetime ends.
    pub fn timestamp(&self) -> (timestamp: i64)
        ensures
            timestamp == self.spec_expires().spec_timestamp(),
            timestamp == self@ / 1_000_000_000,
    {
        proof {
            use_type_invariant(self);
            crate::time::lemma_instant_parts(self.expires);
        }
        self.expires.timestamp()
    }

    /// Whether the lifetime has ended at the instant `now`.
    #[verifier::when_used_as_spec(spec_expired_at)]
    pub fn expired_at(&self, now: Instant) -> (expired: bool)
        ensures
            expired == (self@ <= now@),
    {
        self.expires.le(&now)
    }

    /// Whether the lifetime has ended by now: the answer is that of
    /// [`AccessTokenLifetime::expired_at`] for some reading of the system
    /// clock.
    pub fn expired(&self) -> (expired: bool)
        ensures
            exists|now: Instant| now.is_reading() && expired == #[trigger] self.spec_expired_at(now),
    {
        let now = Instant::now();
        let expired = self.expired_at(now);
        assert(expired == self.spec_expired_at(now));
        expired
    }
}

/// The mathematical content of an access token.
pub struct AccessTokenView {
    /// The e-mail address of the user, where the provider gave one.
    pub email: Option<Seq<char>>,
    /// The identifier of the user.
    pub user_id: u64,
    /// The opaque credential.
    pub access_token: Seq<char>,
    /// The end of the lifetime, in nanoseconds since the Unix epoch.
    pub expires: int,
}

/// What reading a token response at the instant `now` gives, from what the
/// response holds under `email`, `user_id`, `access_token` and `expires_in`.
///
/// The e-mail address may be missing. The other three are required, and the
/// first of them that is missing, in this order, decides the error.
pub open spec fn token_result(
    email: Option<Seq<char>>,
    user_id: Option<u64>,
    access_token: Option<Seq<char>>,
    expires_in: Option<i64>,
    now: Instant,
) -> Result<AccessTokenView, ParseError> {
    match user_id {
        None => Err(ParseError::ExpectedFieldType("user_id", "u64")),
        Some(id) => match access_token {
            None => Err(ParseError::ExpectedFieldType("access_token", "string")),
            Some(token) => match lifetime_result(expires_in, now) {
                Err(error) => Err(error),
                Ok(expires) => Ok(
                    AccessTokenView { email, user_id: id, access_token: token, expires },
                ),
            },
        },
    }
}

/// What reading the token response `json` at the instant `now` gives.
pub open spec fn response_result(json: Json, now: Instant) -> Result<AccessTokenView, ParseError> {
    token_result(
        string_field(json, "email"@),
        u64_field(json, "user_id"@),
        string_field(json, "access_token"@),
        i64_field(json, "expires_in"@),
        now,
    )
}

/// The error of the first required field that the response `json` lacks, in
/// the order `user_id`, `access_token`, `expires_in`; `None` where it has all
/// three.
pub open spec fn missing_field(json: Json) -> Option<ParseError> {
    if u64_field(json, "user_id"@) is None {
        Some(ParseError::ExpectedFieldType("user_id", "u64"))
    } else if string_field(json, "access_token"@) is None {
        Some(ParseError::ExpectedFieldType("access_token", "string"))
    } else if i64_field(json, "expires_in"@) is None {
        Some(ParseError::ExpectedFieldType("expires_in", "i64"))
    } else {
        None
    }
}

/// Whether `result` is what reading the response `json` at `now` gives.
pub open spec fn read_at(result: Result<AccessToken, ParseError>, json: Json, now: Instant) -> bool {
    match result {
        Ok(token) => response_result(json, now) == Ok::<AccessTokenView, ParseError>(token@),
        Err(error) => response_result(json, now) == Err::<AccessTokenView, ParseError>(error),
    }
}

/// The views of an optional string.
pub open spec fn optional_text(text: Option<String>) -> Option<Seq<char>> {
    match text {
        Some(s) => Some(s@),
        None => None,
    }
}

/// The credential that the provider issued, with the identity of its user and
/// its lifetime. A token is made once, from a response, and never changes.
#[derive(Debug, Eq)]
pub struct AccessToken {
    email: Option<String>,
    user_id: u64,
    access_token: String,
    lifetime: AccessTokenLifetime,
}

impl View for AccessToken {
    type V = AccessTokenView;

    closed spec fn view(&self) -> AccessTokenView {
        AccessTokenView {
            email: optional_text(self.email),
            user_id: self.user_id,
            access_token: self.access_token@,
            expires: self.lifetime@,
        }
    }
}

impl PartialEq for AccessToken {
    /// Two tokens are equal where they agree in e-mail address, user,
    /// credential and the end of their lifetime.
    fn eq(&self, other: &AccessToken) -> (equal: bool) {
        proof {
            use_type_invariant(&self.lifetime);
            use_type_invariant(&other.lifetime);
            if self.lifetime@ == other.lifetime@ {
                lemma_instant_view_injective(self.lifetime.expires, other.lifetime.expires);
            }
        }
        let same_email = match (&self.email, &other.email) {
            (Some(a), Some(b)) => *a == *b,
            (None, None) => true,
            _ => false,
        };
        same_email && self.user_id == other.user_id && self.access_token == other.access_token
            && self.lifetime == other.lifetime
    }
}

impl PartialEqSpecImpl for AccessToken {
    open spec fn obeys_eq_spec() -> bool {
        true
    }

    open spec fn eq_spec(&self, other: &AccessToken) -> bool {
        self@ == other@
    }
}

impl Clone for AccessToken {
    fn clone(&self) -> (copy: AccessToken)
        ensures
            copy@ == self@,
            copy.spec_lifetime() == self.spec_lifetime(),
    {
        let email = match &self.email {
            Some(s) => Some(s.clone()),
            None => None,
        };
        AccessToken {
            email,
            user_id: self.user_id,
            access_token: self.access_token.clone(),
            lifetime: self.lifetime,
        }
    }
}

impl AccessToken {
    /// The lifetime of a token.
    pub closed spec fn spec_lifetime(&self) -> AccessTokenLifetime {
        self.lifetime
    }

    /// Whether the token has expired at the instant `now`.
    pub open spec fn spec_expired_at(&self, now: Instant) -> bool {
        self@.expires <= now@
    }

    /// Builds a token from what a response held under `email`, `user_id`,
    /// `access_token` and `expires_in`, for a response that arrived at `now`.
    pub fn from_fields(
        email: Option<String>,
        user_id: Option<u64>,
        access_token: Option<String>,
        expires_in: Option<i64>,
        now: Instant,
    ) -> (result: Result<AccessToken, ParseError>)
        ensures
            match result {
                Ok(token) => token.spec_lifetime().wf() && token_result(
                    optional_text(email),
                    user_id,
                    optional_text(access_token),
                    expires_in,
                    now,
                ) == Ok::<AccessTokenView, ParseError>(token@),
                Err(error) => token_result(
                    optional_text(email),
                    user_id,
                    optional_text(access_token),
                    expires_in,
                    now,
                ) == Err::<AccessTokenView, ParseError>(error),
            },
    {
        let user_id = match user_id {
            Some(id) => id,
            None => {
                return Err(ParseError::ExpectedFieldType("user_id", "u64"));
            },
        };
        let access_token = match access_token {
            Some(token) => token,
            None => {
                return Err(ParseError::ExpectedFieldType("access_token", "string"));
            },
        };
        let lifetime = match AccessTokenLifetime::from_expires_in(expires_in, now) {
            Ok(lifetime) => lifetime,
            Err(error) => {
                return Err(error);
            },
        };
        Ok(AccessToken { email, user_id, access_token, lifetime })
    }

    /// Reads a token from a response that arrived at `now`.
    pub fn from_response_at(json: &Json, now: Instant) -> (result: Result<AccessToken, ParseError>)
        ensures
            read_at(result, *json, now),
            result matches Ok(token) ==> token.spec_lifetime().wf(),
    {
        let email = find_string(json, "email");
        let user_id = find_u64(json, "user_id");
        let access_token = find_string(json, "access_token");
        let expires_in = find_i64(json, "expires_in");
        AccessToken::from_fields(email, user_id, access_token, expires_in, now)
    }

    /// Reads a token from a response that arrives now: the result is that of
    /// [`AccessToken::from_response_at`] for some reading of the system clock.
    ///
    /// Whatever the clock says, a response that lacks a required field is
    /// refused with the error of the first one that it lacks, and a response
    /// that has all three, with an `expires_in` that fits every reading,
    /// gives a token.
    pub fn from_response(json: &Json) -> (result: Result<AccessToken, ParseError>)
        ensures
            exists|now: Instant| now.is_reading() && #[trigger] read_at(result, *json, now),
            result matches Ok(token) ==> token.spec_lifetime().wf(),
            missing_field(*json) matches Some(error) ==> result == Err::<AccessToken, ParseError>(
                error,
            ),
            i64_field(*json, "expires_in"@) matches Some(seconds) && missing_field(*json) is None
                && fits_every_reading(seconds) ==> result is Ok,
    {
        let now = Instant::now();
        let result = AccessToken::from_response_at(json, now);
        assert(read_at(result, *json, now));
        result
    }

    /// The e-mail address of the user, where the provider gave one.
    pub fn email(&self) -> (email: Option<&str>)
        ensures
            email is Some <==> self@.email is Some,
            email matches Some(s) ==> self@.email == Some(s@),
    {
        match &self.email {
            Some(s) => Some(s.as_str()),
            None => None,
        }
    }

    /// The identifier of the user.
    pub fn user_id(&self) -> (id: u64)
        ensures
            id == self@.user_id,
    {
        self.user_id
    }

    /// The opaque credential.
    pub fn access_token(&self) -> (token: &str)
        ensures
            token@ == self@.access_token,
    {
        self.access_token.as_str()
    }

    /// The scope of the token. A token keeps none: what it grants is what was
    /// asked for.
    pub fn scope(&self) -> (scope: Option<&str>)
        ensures
            scope is None,
    {
        None
    }

    /// The lifetime of the token.
    pub fn lifetime(&self) -> (lifetime: &AccessTokenLifetime)
        ensures
            *lifetime == self.spec_lifetime(),
            lifetime@ == self@.expires,
            lifetime.wf(),
    {
        proof {
            use_type_invariant(&self.lifetime);
        }
        &self.lifetime
    }

    /// Whether the token has expired at the instant `now`.
    #[verifier::when_used_as_spec(spec_expired_at)]
    pub fn expired_at(&self, now: Instant) -> (expired: bool)
        ensures
            expired == (self@.expires <= now@),
    {
        self.lifetime.expired_at(now)
    }

    /// Whether the token has expired by now: the answer is that of
    /// [`AccessToken::expired_at`] for some reading of the system clock.
    pub fn expired(&self) -> (expired: bool)
        ensures
            exists|now: Instant| now.is_reading() && expired == #[trigger] self.spec_expired_at(now),
    {
        let now = Instant::now();
        let expired = self.expired_at(now);
        assert(expired == self.spec_expired_at(now));
        expired
    }
}

/// A lifetime has not ended when it begins, if it lasts for a positive number
/// of seconds; it has ended at once, if it lasts for none or for a negative
/// number; and once it has ended, it has ended at every later instant.
pub proof fn lemma_lifetime_expiry(
    lifetime: AccessTokenLifetime,
    now: Instant,
    expires_in: i64,
    later: Instant,
)
    requires
        lifetime@ == now@ + expires_in * 1_000_000_000,
    ensures
        expires_in > 0 ==> !lifetime.spec_expired_at(now),
        expires_in <= 0 ==> lifetime.spec_expired_at(now),
        lifetime@ <= later@ ==> lifetime.spec_expired_at(later),
        lifetime.spec_expired_at(now) && now@ <= later@ ==> lifetime.spec_expired_at(later),
{
}

/// Two lifetimes are equal exactly where they end at the same instant.
pub proof fn lemma_lifetime_equality(a: AccessTokenLifetime, b: AccessTokenLifetime)
    requires
        a.wf(),
        b.wf(),
    ensures
        (a == b) <==> (a@ == b@),
{
    if a@ == b@ {
        lemma_instant_view_injective(a.expires, b.expires);
    }
}

/// Writing a lifetime down as a timestamp and reading it back gives a lifetime
/// that ends at the beginning of the second in which the first one ended.
pub proof fn lemma_timestamp_round_trip(lifetime: AccessTokenLifetime, timestamp: i64)
    requires
        lifetime@ == timestamp * 1_000_000_000,
    ensures
        lifetime@ / 1_000_000_000 == timestamp,
{
}

} // verus!
