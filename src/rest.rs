use vstd::prelude::*;
use crate::allow_list::AllowList;
use crate::errors::{label_of, ForestError, ForestResult};
use crate::pipe::{all_accept, runs_to, Pipe, Pipeline};
use crate::text::{has_prefix, strip_prefix};

verus! {

#[verifier::external_type_specification]
#[verifier::external_body]
pub struct ExJsonValue(serde_json::Value);

#[verifier::external_type_specification]
#[verifier::external_body]
pub struct ExDecodingKey(jsonwebtoken::DecodingKey);

#[verifier::external_type_specification]
#[verifier::external_body]
pub struct ExJwtError(jsonwebtoken::errors::Error);

/// Whether `pem` holds an elliptic-curve public key in PEM form.
pub uninterp spec fn ec_pem_parses(pem: Seq<u8>) -> bool;

/// Relies on jsonwebtoken::DecodingKey::from_ec_pem: reads an elliptic-curve
/// public key written in PEM form; the outcome depends on the bytes alone.
#[verifier::external_body]
fn ec_decoding_key(pem: &[u8]) -> (r: Result<jsonwebtoken::DecodingKey, jsonwebtoken::errors::Error>)
    ensures
        r is Ok <==> ec_pem_parses(pem@),
{
    jsonwebtoken::DecodingKey::from_ec_pem(pem)
}

/// Relies on jsonwebtoken::decode, with the validation that
/// jsonwebtoken::Validation::new gives ES256: checks the token's signature
/// against `key` and hands back the token's claims as JSON.
#[verifier::external_body]
fn decode_es256(token: &str, key: &jsonwebtoken::DecodingKey) -> (r: Result<
    serde_json::Value,
    jsonwebtoken::errors::Error,
>) {
    let validation = jsonwebtoken::Validation::new(jsonwebtoken::Algorithm::ES256);
    jsonwebtoken::decode::<serde_json::Value>(token, key, &validation).map(|data| data.claims)
}

/// Relies on serde_json::Value::get and serde_json::Value::as_str: the text
/// held under `field`, if there is text there.
#[verifier::external_body]
fn json_text_field(v: &serde_json::Value, field: &str) -> (r: Option<String>) {
    v.get(field).and_then(serde_json::Value::as_str).map(String::from)
}

/// Relies on serde_json::Value::get and serde_json::Value::as_i64: the
/// integer held under `field`, if there is one there that fits in `i64`.
#[verifier::external_body]
fn json_int_field(v: &serde_json::Value, field: &str) -> (r: Option<i64>) {
    v.get(field).and_then(serde_json::Value::as_i64)
}

/// The claims a bearer token carries: its subject (the sender's public key),
/// when it expires and when it was issued, in unix seconds.
#[derive(Debug, Clone, PartialEq, Eq)]
pub struct JwtClaims {
    pub sub: String,
    pub exp: i64,
    pub iat: i64,
}

/// What the ingress stage is built from.
#[derive(Debug, Clone)]
pub struct RestPipeConfig {
    pub port: u16,
    pub allowed_keys: Vec<String>,
    pub allow_all: bool,
    /// The elliptic-curve public key, in PEM form, that signs the tokens.
    pub public_key_pem: Vec<u8>,
}

/// A message admitted for delivery: to whom, and what.
#[derive(Debug, Clone, PartialEq, Eq)]
pub struct Envelope {
    pub recipient: String,
    pub payload: String,
}

/// The answer to a submission.
#[derive(Debug, Clone, PartialEq, Eq)]
pub enum SubmitResponse {
    Sent,
    Unauthorized(String),
    Forbidden(String),
    Failed(String),
}

pub const STATUS_OK: u16 = 200;

pub const STATUS_UNAUTHORIZED: u16 = 401;

pub const STATUS_FORBIDDEN: u16 = 403;

pub const STATUS_FAILED: u16 = 500;

impl SubmitResponse {
    pub open spec fn spec_status(&self) -> u16 {
        match self {
            SubmitResponse::Sent => STATUS_OK,
            SubmitResponse::Unauthorized(_) => STATUS_UNAUTHORIZED,
            SubmitResponse::Forbidden(_) => STATUS_FORBIDDEN,
            SubmitResponse::Failed(_) => STATUS_FAILED,
        }
    }

    /// The HTTP status of the answer.
    pub fn status(&self) -> (r: u16)
        ensures
            r == self.spec_status(),
    {
        match self {
            SubmitResponse::Sent => STATUS_OK,
            SubmitResponse::Unauthorized(_) => STATUS_UNAUTHORIZED,
            SubmitResponse::Forbidden(_) => STATUS_FORBIDDEN,
            SubmitResponse::Failed(_) => STATUS_FAILED,
        }
    }

    pub open spec fn spec_body(&self) -> Seq<char> {
        match self {
            SubmitResponse::Sent => "Message sent successfully"@,
            SubmitResponse::Unauthorized(m) => m@,
            SubmitResponse::Forbidden(m) => m@,
            SubmitResponse::Failed(m) => m@,
        }
    }

    /// The body of the answer.
    pub fn body(&self) -> (r: String)
        ensures
            r@ == self.spec_body(),
    {
        match self {
            SubmitResponse::Sent => "Message sent successfully".to_owned(),
            SubmitResponse::Unauthorized(m) => m.clone(),
            SubmitResponse::Forbidden(m) => m.clone(),
            SubmitResponse::Failed(m) => m.clone(),
        }
    }
}

/// The claims are in force at `now`: issued at or before it, expiring after it.
pub open spec fn is_current(c: JwtClaims, now: i64) -> bool {
    c.iat <= now && now < c.exp
}

/// Admission of a request whose token decoded to `decoded`, at `now`: the
/// claims, or the status that refuses the request.
pub open spec fn admission(
    allow_all: bool,
    allowed: Set<Seq<char>>,
    decoded: ForestResult<JwtClaims>,
    now: i64,
) -> Result<JwtClaims, u16> {
    match decoded {
        Err(_) => Err(STATUS_UNAUTHORIZED),
        Ok(c) => if !is_current(c, now) {
            Err(STATUS_UNAUTHORIZED)
        } else if !allow_all && !allowed.contains(c.sub@) {
            Err(STATUS_FORBIDDEN)
        } else {
            Ok(c)
        },
    }
}

/// Why claims that are not in force at `now` are refused.
pub open spec fn claims_refusal(c: JwtClaims, now: i64) -> Seq<char> {
    if now < c.iat {
        "Token is not yet valid"@
    } else {
        "Token has expired"@
    }
}

/// Claims in force at `now` pass, unchanged; any others fail with an
/// authentication error.
pub fn check_claims(claims: JwtClaims, now: i64) -> (r: ForestResult<JwtClaims>)
    ensures
        r is Ok <==> is_current(claims, now),
        r is Ok ==> r->Ok_0 == claims,
        r is Err ==> r->Err_0 is AuthenticationError,
        r is Err ==> r->Err_0.reason() == claims_refusal(claims, now),
{
    if now < claims.iat {
        Err(ForestError::AuthenticationError("Token is not yet valid".to_owned()))
    } else if now >= claims.exp {
        Err(ForestError::AuthenticationError("Token has expired".to_owned()))
    } else {
        Ok(claims)
    }
}

/// The token of an `Authorization` header of the form `Bearer <token>`.
pub fn bearer_token<'a>(header: Option<&'a str>) -> (r: Option<&'a str>)
    ensures
        r is Some <==> header is Some && has_prefix(header->0@, "Bearer "@),
        r is Some ==> r->0@ == header->0@.subrange(7, header->0@.len() as int),
{
    match header {
        None => None,
        Some(h) => {
            proof {
                reveal_strlit("Bearer ");
            }
            strip_prefix(h, "Bearer ")
        },
    }
}

/// The claims made of a token's subject, expiry and issue time, when it
/// carries all three.
pub fn claims_from_fields(sub: Option<String>, exp: Option<i64>, iat: Option<i64>) -> (r:
    ForestResult<JwtClaims>)
    ensures
        r is Ok <==> sub is Some && exp is Some && iat is Some,
        r is Ok ==> r->Ok_0 == (JwtClaims { sub: sub->0, exp: exp->0, iat: iat->0 }),
        r is Err ==> r->Err_0 is AuthenticationError,
        r is Err ==> r->Err_0.reason() == "Token claims are incomplete"@,
{
    match (sub, exp, iat) {
        (Some(sub), Some(exp), Some(iat)) => Ok(JwtClaims { sub, exp, iat }),
        _ => Err(ForestError::AuthenticationError("Token claims are incomplete".to_owned())),
    }
}

fn claims_from_json(v: &serde_json::Value) -> (r: ForestResult<JwtClaims>)
    ensures
        r is Err ==> r->Err_0 is AuthenticationError,
{
    claims_from_fields(json_text_field(v, "sub"), json_int_field(v, "exp"), json_int_field(v, "iat"))
}

/// The network-facing stage that authenticates senders and admits their
/// messages.
pub struct RestPipe {
    config: RestPipeConfig,
    key: Option<jsonwebtoken::DecodingKey>,
    allowed_keys: AllowList,
}

impl RestPipe {
    pub closed spec fn allow_all(&self) -> bool {
        self.config.allow_all
    }

    pub closed spec fn port(&self) -> u16 {
        self.config.port
    }

    /// The identities admitted when not every sender is.
    pub closed spec fn allowed(&self) -> Set<Seq<char>> {
        self.allowed_keys@
    }

    pub closed spec fn wf(&self) -> bool {
        self.allowed_keys.wf()
    }

    /// The configured key was read, so tokens can be checked at all.
    pub closed spec fn has_key(&self) -> bool {
        self.key is Some
    }

    /// Whether the stage admits messages from `sender`.
    pub open spec fn admits(&self, sender: Seq<char>) -> bool {
        self.allow_all() || self.allowed().contains(sender)
    }

    pub fn new(config: RestPipeConfig) -> (r: Self)
        ensures
            r.wf(),
            r.allow_all() == config.allow_all,
            r.port() == config.port,
            r.allowed() == config.allowed_keys@.map_values(|k: String| k@).to_set(),
            r.has_key() == ec_pem_parses(config.public_key_pem@),
    {
        let allowed_keys = AllowList::from_keys(config.allowed_keys.clone());
        let key = match ec_decoding_key(config.public_key_pem.as_slice()) {
            Ok(k) => Some(k),
            Err(_) => None,
        };
        RestPipe { config, key, allowed_keys }
    }

    /// As `new`, but a key that does not read as an elliptic-curve public key
    /// in PEM form is a configuration error.
    pub fn try_new(config: RestPipeConfig) -> (r: ForestResult<Self>)
        ensures
            r is Ok <==> ec_pem_parses(config.public_key_pem@),
            r is Ok ==> r->Ok_0.wf() && r->Ok_0.has_key(),
            r is Ok ==> r->Ok_0.allow_all() == config.allow_all && r->Ok_0.port() == config.port,
            r is Ok ==> r->Ok_0.allowed() == config.allowed_keys@.map_values(|k: String| k@).to_set(),
            r is Err ==> r->Err_0 is ConfigurationError,
    {
        let pipe = RestPipe::new(config);
        if pipe.key.is_none() {
            return Err(ForestError::ConfigurationError("Invalid public key".to_owned()));
        }
        Ok(pipe)
    }

    /// The port the stage listens on.
    pub fn port_number(&self) -> (r: u16)
        ensures
            r == self.port(),
    {
        self.config.port
    }

    /// Admits `public_key` from now on.
    pub fn add_allowed_key(&mut self, public_key: String)
        requires
            old(self).wf(),
        ensures
            final(self).wf(),
            final(self).allowed() == old(self).allowed().insert(public_key@),
            final(self).allow_all() == old(self).allow_all(),
            final(self).port() == old(self).port(),
    {
        self.allowed_keys.insert(public_key);
    }

    /// No longer admits `public_key` (unless every sender is admitted).
    pub fn remove_allowed_key(&mut self, public_key: &str)
        requires
            old(self).wf(),
        ensures
            final(self).wf(),
            final(self).allowed() == old(self).allowed().remove(public_key@),
            final(self).allow_all() == old(self).allow_all(),
            final(self).port() == old(self).port(),
    {
        self.allowed_keys.remove(public_key);
    }

    /// Checks the token's signature against the configured key and reads its
    /// claims. Whatever the outcome, a failure is an authentication error.
    pub fn decode_claims(&self, token: &str) -> (r: ForestResult<JwtClaims>)
        ensures
            r is Err ==> r->Err_0 is AuthenticationError,
    {
        match &self.key {
            None => Err(ForestError::AuthenticationError("No verification key".to_owned())),
            Some(key) => match decode_es256(token, key) {
                Err(_) => Err(ForestError::AuthenticationError("Invalid JWT".to_owned())),
                Ok(v) => claims_from_json(&v),
            },
        }
    }

    /// Verifies the token: a signature that the configured key accepts, and
    /// claims in force at `now`. Claims that come back are in force at `now`.
    pub fn verify_jwt(&self, token: &str, now: i64) -> (r: ForestResult<JwtClaims>)
        ensures
            r is Ok ==> is_current(r->Ok_0, now),
            r is Err ==> r->Err_0 is AuthenticationError,
    {
        match self.decode_claims(token) {
            Ok(c) => check_claims(c, now),
            Err(e) => Err(e),
        }
    }

    /// Succeeds when messages from `public_key` are admitted; else an
    /// authentication error.
    pub fn verify_sender(&self, public_key: &str) -> (r: ForestResult<()>)
        ensures
            r is Ok <==> self.admits(public_key@),
            r is Err ==> r->Err_0 is AuthenticationError,
            r is Err ==> r->Err_0.reason() == "Sender's public key is not in the allowed list"@,
    {
        if self.config.allow_all {
            return Ok(());
        }
        if !self.allowed_keys.contains(public_key) {
            return Err(
                ForestError::AuthenticationError(
                    "Sender's public key is not in the allowed list".to_owned(),
                ),
            );
        }
        Ok(())
    }

    /// Admits or refuses a request whose token decoded to `decoded`, at `now`.
    pub fn admit_claims(&self, decoded: ForestResult<JwtClaims>, now: i64) -> (r: Result<
        JwtClaims,
        SubmitResponse,
    >)
        ensures
            r is Ok ==> admission(self.allow_all(), self.allowed(), decoded, now) == Ok::<
                JwtClaims,
                u16,
            >(r->Ok_0),
            r is Err ==> admission(self.allow_all(), self.allowed(), decoded, now) == Err::<
                JwtClaims,
                u16,
            >(r->Err_0.spec_status()),
            r is Err ==> r->Err_0.spec_body() == refusal_body(decoded, now),
    {
        let claims = match decoded {
            Err(e) => {
                return Err(SubmitResponse::Unauthorized(e.to_text()));
            },
            Ok(c) => c,
        };
        let claims = match check_claims(claims, now) {
            Err(e) => {
                return Err(SubmitResponse::Unauthorized(e.to_text()));
            },
            Ok(c) => c,
        };
        match self.verify_sender(claims.sub.as_str()) {
            Err(e) => {
                proof {
                    reveal_strlit("Authentication error: ");
                    reveal_strlit("Sender's public key is not in the allowed list");
                    reveal_strlit("Authentication error: Sender's public key is not in the allowed list");
                    assert("Authentication error: "@ + "Sender's public key is not in the allowed list"@
                        =~= "Authentication error: Sender's public key is not in the allowed list"@);
                }
                Err(SubmitResponse::Forbidden(e.to_text()))
            },
            Ok(()) => Ok(claims),
        }
    }

    /// Answers a request whose token decoded to `decoded`, at `now`: a
    /// refused request is answered with the refusal; an admitted one is
    /// handed to `pipeline` once, and the answer says whether it went through.
    pub fn respond<P: Pipe<Envelope>>(
        &self,
        pipeline: &Pipeline<P>,
        decoded: ForestResult<JwtClaims>,
        recipient: String,
        body: String,
        now: i64,
    ) -> (r: SubmitResponse)
        requires
            all_accept(pipeline.stages()),
        ensures
            response_for(
                self.allow_all(),
                self.allowed(),
                pipeline.stages(),
                decoded,
                now,
                Envelope { recipient: recipient, payload: body },
                r,
            ),
    {
        match self.admit_claims(decoded, now) {
            Err(refusal) => refusal,
            Ok(_) => {
                let ghost env = Envelope { recipient: recipient, payload: body };
                match pipeline.execute(Envelope { recipient, payload: body }) {
                    Ok(out) => {
                        assert(runs_to(pipeline.stages(), env, Ok::<Envelope, ForestError>(out)));
                        SubmitResponse::Sent
                    },
                    Err(e) => {
                        let text = e.to_text();
                        assert(runs_to(pipeline.stages(), env, Err::<Envelope, ForestError>(e)));
                        SubmitResponse::Failed(text)
                    },
                }
            },
        }
    }

    /// Handles `POST /message/{recipient}`: takes the bearer token from the
    /// `Authorization` header, has its signature checked and its claims read,
    /// and answers as `respond` does on what came back.
    pub fn send_message<P: Pipe<Envelope>>(
        &self,
        pipeline: &Pipeline<P>,
        recipient: String,
        auth_header: Option<&str>,
        body: String,
        now: i64,
    ) -> (r: SubmitResponse)
        requires
            all_accept(pipeline.stages()),
        ensures
            (r is Unauthorized && r.spec_body() == MISSING_HEADER@) <==> !(auth_header is Some
                && has_prefix(auth_header->0@, "Bearer "@)),
            auth_header is Some && has_prefix(auth_header->0@, "Bearer "@) ==> exists|
                decoded: ForestResult<JwtClaims>,
            |
                (decoded is Err ==> decoded->Err_0 is AuthenticationError) && #[trigger] response_for(
                    self.allow_all(),
                    self.allowed(),
                    pipeline.stages(),
                    decoded,
                    now,
                    Envelope { recipient: recipient, payload: body },
                    r,
                ),
    {
        proof {
            reveal_strlit("Missing or invalid Authorization header");
            reveal_strlit("Authentication error: ");
        }
        let token = match bearer_token(auth_header) {
            None => {
                return SubmitResponse::Unauthorized(MISSING_HEADER.to_owned());
            },
            Some(t) => t,
        };
        let decoded = self.decode_claims(token);
        let r = self.respond(pipeline, decoded, recipient, body, now);
        proof {
            if r is Unauthorized {
                assert(r.spec_body()[0] == 'A');
                assert(MISSING_HEADER@[0] == 'M');
            }
        }
        r
    }
}

/// The answer to a missing or malformed `Authorization` header.
pub const MISSING_HEADER: &'static str = "Missing or invalid Authorization header";

/// The body of the answer that refuses a request whose token decoded to
/// `decoded`, at `now`.
pub open spec fn refusal_body(decoded: ForestResult<JwtClaims>, now: i64) -> Seq<char> {
    match decoded {
        Err(e) => label_of(e) + e.reason(),
        Ok(c) => if !is_current(c, now) {
            "Authentication error: "@ + claims_refusal(c, now)
        } else {
            "Authentication error: Sender's public key is not in the allowed list"@
        },
    }
}

/// `r` answers a request for `env` whose token decoded to `decoded`, at
/// `now`: a refusal carries the refusing status and says why; an admitted
/// request was run through `stages`, and is answered `Sent` when they all
/// succeeded, or `Failed` with the error of the stage that failed.
pub open spec fn response_for<P: Pipe<Envelope>>(
    allow_all: bool,
    allowed: Set<Seq<char>>,
    stages: Seq<P>,
    decoded: ForestResult<JwtClaims>,
    now: i64,
    env: Envelope,
    r: SubmitResponse,
) -> bool {
    match admission(allow_all, allowed, decoded, now) {
        Err(status) => r.spec_status() == status && r.spec_body() == refusal_body(decoded, now),
        Ok(_) => {
            ||| r is Sent && exists|out: Envelope|
                #[trigger] runs_to(stages, env, Ok::<Envelope, ForestError>(out))
            ||| r is Failed && exists|e: ForestError|
                #[trigger] runs_to(stages, env, Err::<Envelope, ForestError>(e))
                    && r.spec_body() == label_of(e) + e.reason()
        },
    }
}

impl Pipe<String> for RestPipe {
    open spec fn accepts(&self, input: String) -> bool {
        true
    }

    /// Passes the message on as it came.
    open spec fn yields(&self, input: String, output: ForestResult<String>) -> bool {
        output == Ok::<String, ForestError>(input)
    }

    fn process(&self, input: String) -> (r: ForestResult<String>) {
        Ok(input)
    }
}

/// A token in force whose sender is admitted passes, and the claims that
/// come back are the token's own.
pub proof fn lemma_current_token_admitted(
    allow_all: bool,
    allowed: Set<Seq<char>>,
    c: JwtClaims,
    now: i64,
)
    requires
        is_current(c, now),
        allow_all || allowed.contains(c.sub@),
    ensures
        admission(allow_all, allowed, Ok(c), now) == Ok::<JwtClaims, u16>(c),
{
}

/// A token that expires at or before `now` is refused as unauthorized,
/// whatever else holds, and its claims fail with an authentication error.
pub proof fn lemma_expired_token_refused(
    allow_all: bool,
    allowed: Set<Seq<char>>,
    c: JwtClaims,
    now: i64,
)
    requires
        c.exp <= now,
    ensures
        admission(allow_all, allowed, Ok(c), now) == Err::<JwtClaims, u16>(STATUS_UNAUTHORIZED),
        !is_current(c, now),
{
}

/// Without allow-all, a sender that is not on the list is forbidden; once
/// the sender is added, the same request is admitted.
pub proof fn lemma_adding_sender_admits(allowed: Set<Seq<char>>, c: JwtClaims, now: i64)
    requires
        is_current(c, now),
        !allowed.contains(c.sub@),
    ensures
        admission(false, allowed, Ok(c), now) == Err::<JwtClaims, u16>(STATUS_FORBIDDEN),
        admission(false, allowed.insert(c.sub@), Ok(c), now) == Ok::<JwtClaims, u16>(c),
{
}

} // verus!
