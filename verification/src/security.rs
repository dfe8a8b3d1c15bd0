//! Authentication tokens: who holds which permissions until when, and the
//! rules by which a presented token is accepted, revoked and forgotten.

use vstd::prelude::*;
use vstd::string::*;
use crate::clock::Timestamp;
use crate::config::SecurityConfig;
use crate::table::{entry_of, has_key, upsert, without_key, Entry, Keyed, Table};
use crate::text::join2;

verus! {

/// What was told of a token that is not active.
pub const TOKEN_NOT_FOUND: &'static str = "Token not found";

/// What is told of a token that was revoked.
pub const TOKEN_REVOKED: &'static str = "Token has been revoked";

/// What is told of a token whose time is over.
pub const TOKEN_EXPIRED: &'static str = "Token has expired";

/// What is told of a session timeout that leads beyond the end of time.
pub const TIMEOUT_OUT_OF_RANGE: &'static str = "Session timeout is out of range";

/// What is told of a token that is too long to encode.
pub const TOKEN_TOO_LONG: &'static str = "Token is too long to encode";

/// The longest serialized token, in bytes, that is encoded.
pub const MAX_SERIALIZED_TOKEN_BYTES: usize = 0x1000_0000;

/// Milliseconds in one minute.
pub const MILLIS_PER_MINUTE: i64 = 60_000;

/// The kind of entity that holds a token.
#[derive(Clone, Copy, Debug, PartialEq, Eq, Structural)]
pub enum EntityType {
    Node,
    User,
    Service,
    Agent,
}

/// What the holder of a token may do.
#[derive(Clone, Copy, Debug, PartialEq, Eq, Structural)]
pub enum Permission {
    RegisterNode,
    UpdateNodeStatus,
    DeployAgent,
    StopAgent,
    ViewFabricStatus,
    ManageFabric,
    ViewTelemetry,
    ManageTelemetry,
    ManageUsers,
    ManageSecurityPolicy,
    ViewAuditLogs,
    SystemControl,
    EmergencyAccess,
}

/// Why a request was refused on grounds of security.
#[derive(Debug)]
pub enum SecurityError {
    Certificate(String),
    Authentication(String),
    Authorization(String),
    Token(String),
}

/// What a [`SecurityError`] holds, as mathematical values.
pub enum SecurityErrorView {
    Certificate(Seq<char>),
    Authentication(Seq<char>),
    Authorization(Seq<char>),
    Token(Seq<char>),
}

impl View for SecurityError {
    type V = SecurityErrorView;

    open spec fn view(&self) -> SecurityErrorView {
        match *self {
            SecurityError::Certificate(message) => SecurityErrorView::Certificate(message@),
            SecurityError::Authentication(message) => SecurityErrorView::Authentication(message@),
            SecurityError::Authorization(message) => SecurityErrorView::Authorization(message@),
            SecurityError::Token(message) => SecurityErrorView::Token(message@),
        }
    }
}

/// A token: the entity it was issued to, what it permits, and until when.
#[derive(Debug)]
pub struct AuthToken {
    pub token_id: String,
    pub entity_id: String,
    pub entity_type: EntityType,
    pub permissions: Vec<Permission>,
    pub issued_at: Timestamp,
    pub expires_at: Timestamp,
    pub metadata: Vec<(String, String)>,
}

/// What an [`AuthToken`] holds, as mathematical values.
pub struct AuthTokenView {
    pub token_id: Seq<char>,
    pub entity_id: Seq<char>,
    pub entity_type: EntityType,
    pub permissions: Seq<Permission>,
    pub issued_at: Timestamp,
    pub expires_at: Timestamp,
    pub metadata: Seq<(Seq<char>, Seq<char>)>,
}

impl View for AuthToken {
    type V = AuthTokenView;

    open spec fn view(&self) -> AuthTokenView {
        AuthTokenView {
            token_id: self.token_id@,
            entity_id: self.entity_id@,
            entity_type: self.entity_type,
            permissions: self.permissions@,
            issued_at: self.issued_at,
            expires_at: self.expires_at,
            metadata: Seq::new(
                self.metadata@.len(),
                |i: int| (self.metadata@[i].0@, self.metadata@[i].1@),
            ),
        }
    }
}

impl AuthTokenView {
    /// Whether the token's time is over at `now`.
    pub open spec fn expired_at(self, now: Timestamp) -> bool {
        now.millis > self.expires_at.millis
    }

    /// Whether the token permits `permission`.
    pub open spec fn permits(self, permission: Permission) -> bool {
        self.permissions.contains(permission)
    }
}

impl Clone for AuthToken {
    fn clone(&self) -> (copy: Self)
        ensures
            copy@ == self@,
    {
        let mut permissions: Vec<Permission> = Vec::new();
        let mut i: usize = 0;
        while i < self.permissions.len()
            invariant
                i <= self.permissions@.len(),
                permissions@ == self.permissions@.take(i as int),
            decreases self.permissions@.len() - i,
        {
            permissions.push(self.permissions[i]);
            i = i + 1;
        }
        assert(permissions@ =~= self.permissions@);
        let mut metadata: Vec<(String, String)> = Vec::new();
        let mut j: usize = 0;
        while j < self.metadata.len()
            invariant
                j <= self.metadata@.len(),
                metadata@.len() == j,
                forall|k: int|
                    0 <= k < j ==> (#[trigger] metadata@[k]).0@ == self.metadata@[k].0@
                        && metadata@[k].1@ == self.metadata@[k].1@,
            decreases self.metadata@.len() - j,
        {
            metadata.push((self.metadata[j].0.clone(), self.metadata[j].1.clone()));
            j = j + 1;
        }
        let copy = AuthToken {
            token_id: self.token_id.clone(),
            entity_id: self.entity_id.clone(),
            entity_type: self.entity_type,
            permissions,
            issued_at: self.issued_at,
            expires_at: self.expires_at,
            metadata,
        };
        assert(copy@.metadata =~= self@.metadata);
        copy
    }
}

impl AuthToken {
    /// Whether the token permits `permission`.
    pub fn permits(&self, permission: Permission) -> (permitted: bool)
        ensures
            permitted == self@.permits(permission),
    {
        let mut i: usize = 0;
        while i < self.permissions.len()
            invariant
                i <= self.permissions@.len(),
                forall|k: int| 0 <= k < i ==> self.permissions@[k] != permission,
            decreases self.permissions@.len() - i,
        {
            if self.permissions[i] == permission {
                return true;
            }
            i = i + 1;
        }
        false
    }

    /// Whether the token's time is over at `now`.
    pub fn is_expired_at(&self, now: Timestamp) -> (expired: bool)
        ensures
            expired == self@.expired_at(now),
    {
        now.millis > self.expires_at.millis
    }
}

/// A token that is in force, under the text by which it is presented.
#[derive(Debug)]
pub struct ActiveToken {
    pub token_string: String,
    pub token: AuthToken,
}

/// What an [`ActiveToken`] holds, as mathematical values.
pub struct ActiveTokenView {
    pub token_string: Seq<char>,
    pub token: AuthTokenView,
}

impl View for ActiveToken {
    type V = ActiveTokenView;

    open spec fn view(&self) -> ActiveTokenView {
        ActiveTokenView { token_string: self.token_string@, token: self.token@ }
    }
}

impl Keyed for ActiveTokenView {
    open spec fn key(self) -> Seq<char> {
        self.token_string
    }
}

impl Entry for ActiveToken {
    fn key_text(&self) -> (k: &String) {
        &self.token_string
    }
}

/// The base64 text, in the standard alphabet with padding, of the UTF-8
/// bytes of `input`.
pub uninterp spec fn base64_text(input: Seq<char>) -> Seq<char>;

/// The base64 text of `input`.
///
/// Trusted: calls `base64::encode`, which encodes the bytes of its argument
/// with the standard engine. The result is a function of the input alone. The
/// bound keeps away from inputs whose encoded length does not fit in `usize`,
/// on which the call panics.
#[verifier::external_body]
fn base64_encode(input: &str) -> (encoded: String)
    requires
        input.spec_bytes().len() <= MAX_SERIALIZED_TOKEN_BYTES,
    ensures
        encoded@ == base64_text(input@),
{
    #[allow(deprecated)]
    base64::encode(input)
}

/// The text by which a token is presented: the secret, a colon, and the
/// encoded token.
pub fn token_text(secret: &str, encoded: &str) -> (text: String)
    ensures
        text@ == secret@ + ":"@ + encoded@,
{
    let mut text = join2(secret, ":");
    text.append(encoded);
    text
}

/// The time at which a token issued at `issued_at` expires under a session
/// timeout of `timeout_minutes`, where that time can be told in milliseconds.
pub open spec fn expiry(issued_at: Timestamp, timeout_minutes: u64) -> Option<Timestamp> {
    if issued_at.millis + timeout_minutes * MILLIS_PER_MINUTE <= i64::MAX {
        Some(Timestamp { millis: (issued_at.millis + timeout_minutes * MILLIS_PER_MINUTE) as i64 })
    } else {
        None
    }
}

/// The test that tells the active tokens whose time is over at `now`.
pub open spec fn expired_at(now: Timestamp) -> spec_fn(ActiveTokenView) -> bool {
    |active: ActiveTokenView| active.token.expired_at(now)
}

/// The test that tells the active tokens whose time is not over at `now`.
pub open spec fn valid_at(now: Timestamp) -> spec_fn(ActiveTokenView) -> bool {
    |active: ActiveTokenView| !active.token.expired_at(now)
}

/// What presenting the token `token_string` at `now` gives: the token, or
/// the reason for which it is refused. A token that is not active is not
/// found; an active one may have been revoked, or its time may be over.
pub open spec fn validation(
    active: Seq<ActiveTokenView>,
    revoked: Seq<Seq<char>>,
    token_string: Seq<char>,
    now: Timestamp,
) -> Result<AuthTokenView, SecurityErrorView> {
    if !has_key(active, token_string) {
        Err(SecurityErrorView::Authentication(TOKEN_NOT_FOUND@))
    } else {
        let token = entry_of(active, token_string).token;
        if revoked.contains(token.token_id) {
            Err(SecurityErrorView::Authentication(TOKEN_REVOKED@))
        } else if token.expired_at(now) {
            Err(SecurityErrorView::Authentication(TOKEN_EXPIRED@))
        } else {
            Ok(token)
        }
    }
}

/// What is told where mutual TLS is on but no server certificate is named.
pub const NO_SERVER_CERTIFICATE: &'static str = "Server certificate path not configured";

/// What is told where mutual TLS is on but no server key is named.
pub const NO_SERVER_KEY: &'static str = "Server key path not configured";

/// What is told where a key file holds no private key.
pub const NO_PRIVATE_KEY: &'static str = "No private key found";

/// The files from which a server's TLS settings are read.
#[derive(Debug)]
pub struct ServerTlsPlan {
    pub cert_path: String,
    pub key_path: String,
    /// The authority that client certificates are checked against, if any.
    pub ca_cert_path: Option<String>,
}

/// The files from which a client's TLS settings are read.
#[derive(Debug)]
pub struct ClientTlsPlan {
    pub domain_name: String,
    /// Certificate and key of the client, where both are named.
    pub identity: Option<(String, String)>,
    /// The authority that the server's certificate is checked against, if any.
    pub ca_cert_path: Option<String>,
}

/// A copy of an optional text.
fn copy_of(text: &Option<String>) -> (copy: Option<String>)
    ensures
        match *text {
            Some(t) => copy matches Some(c) && c@ == t@,
            None => copy is None,
        },
{
    match text {
        Some(t) => Some(t.clone()),
        None => None,
    }
}

/// The files from which the server's TLS settings are read under `config`:
/// none where mutual TLS is off; an error where it is on and the certificate
/// or, after that, the key is not named.
pub fn server_tls_plan(config: &SecurityConfig) -> (result: Result<Option<ServerTlsPlan>, SecurityError>)
    ensures
        if !config.enable_mtls {
            result matches Ok(None)
        } else if config.server_cert_path is None {
            result matches Err(error) && error@ == SecurityErrorView::Certificate(
                NO_SERVER_CERTIFICATE@,
            )
        } else if config.server_key_path is None {
            result matches Err(error) && error@ == SecurityErrorView::Certificate(NO_SERVER_KEY@)
        } else {
            result matches Ok(Some(plan)) && {
                &&& plan.cert_path@ == config.server_cert_path->Some_0@
                &&& plan.key_path@ == config.server_key_path->Some_0@
                &&& match config.ca_cert_path {
                    Some(path) => plan.ca_cert_path matches Some(p) && p@ == path@,
                    None => plan.ca_cert_path is None,
                }
            }
        },
{
    if !config.enable_mtls {
        return Ok(None);
    }
    let cert_path = match &config.server_cert_path {
        Some(path) => path.clone(),
        None => {
            return Err(SecurityError::Certificate(String::from_str(NO_SERVER_CERTIFICATE)));
        },
    };
    let key_path = match &config.server_key_path {
        Some(path) => path.clone(),
        None => {
            return Err(SecurityError::Certificate(String::from_str(NO_SERVER_KEY)));
        },
    };
    Ok(Some(ServerTlsPlan { cert_path, key_path, ca_cert_path: copy_of(&config.ca_cert_path) }))
}

/// The files from which a client's TLS settings for the server
/// `server_name` are read under `config`: none where mutual TLS is off; else
/// the client's certificate and key where both are named, and the authority
/// where it is named.
pub fn client_tls_plan(config: &SecurityConfig, server_name: &str) -> (plan: Option<ClientTlsPlan>)
    ensures
        plan is Some <==> config.enable_mtls,
        plan matches Some(p) ==> {
            &&& p.domain_name@ == server_name@
            &&& match (config.client_cert_path, config.client_key_path) {
                (Some(cert), Some(key)) => p.identity matches Some(pair) && pair.0@ == cert@
                    && pair.1@ == key@,
                _ => p.identity is None,
            }
            &&& match config.ca_cert_path {
                Some(path) => p.ca_cert_path matches Some(c) && c@ == path@,
                None => p.ca_cert_path is None,
            }
        },
{
    if !config.enable_mtls {
        return None;
    }
    let identity = match (&config.client_cert_path, &config.client_key_path) {
        (Some(cert), Some(key)) => Some((cert.clone(), key.clone())),
        _ => None,
    };
    Some(
        ClientTlsPlan {
            domain_name: String::from_str(server_name),
            identity,
            ca_cert_path: copy_of(&config.ca_cert_path),
        },
    )
}

/// The first of the private keys `keys` that a key file held; an error where
/// it held none.
pub fn first_private_key(keys: Vec<Vec<u8>>) -> (result: Result<Vec<u8>, SecurityError>)
    ensures
        if keys@.len() == 0 {
            result matches Err(error) && error@ == SecurityErrorView::Certificate(NO_PRIVATE_KEY@)
        } else {
            result matches Ok(key) && key == keys@[0]
        },
{
    let mut keys = keys;
    if keys.len() == 0 {
        Err(SecurityError::Certificate(String::from_str(NO_PRIVATE_KEY)))
    } else {
        Ok(keys.swap_remove(0))
    }
}

/// The keeper of the tokens.
pub struct SecurityManager {
    pub config: SecurityConfig,
    pub active_tokens: Table<ActiveToken>,
    pub revoked_tokens: Vec<String>,
}

impl SecurityManager {
    /// The identifiers of the revoked tokens, as character sequences.
    pub open spec fn revoked(&self) -> Seq<Seq<char>> {
        Seq::new(self.revoked_tokens@.len(), |i: int| self.revoked_tokens@[i]@)
    }

    /// A keeper without any token.
    pub fn new(config: SecurityConfig) -> (manager: Self)
        ensures
            manager.config == config,
            manager.active_tokens@.len() == 0,
            manager.revoked().len() == 0,
    {
        SecurityManager { config, active_tokens: Table::new(), revoked_tokens: Vec::new() }
    }

    /// A token for the entity `entity_id`, issued at `now` under the
    /// identifier `token_id`, in force for the configured session timeout.
    /// Refused where the timeout leads beyond what a timestamp can tell.
    pub fn compose_token(
        &self,
        entity_id: String,
        entity_type: EntityType,
        permissions: Vec<Permission>,
        token_id: String,
        now: Timestamp,
    ) -> (result: Result<AuthToken, SecurityError>)
        ensures
            match expiry(now, self.config.session_timeout_minutes) {
                Some(expires_at) => result matches Ok(token) && token@ == (AuthTokenView {
                    token_id: token_id@,
                    entity_id: entity_id@,
                    entity_type,
                    permissions: permissions@,
                    issued_at: now,
                    expires_at,
                    metadata: Seq::empty(),
                }),
                None => result matches Err(error) && error@ == SecurityErrorView::Token(
                    TIMEOUT_OUT_OF_RANGE@,
                ),
            },
    {
        let total: i128 = (now.millis as i128) + (self.config.session_timeout_minutes as i128) * (
        MILLIS_PER_MINUTE as i128);
        if total > i64::MAX as i128 {
            return Err(SecurityError::Token(String::from_str(TIMEOUT_OUT_OF_RANGE)));
        }
        let expires_at = Timestamp { millis: total as i64 };
        let token = AuthToken {
            token_id,
            entity_id,
            entity_type,
            permissions,
            issued_at: now,
            expires_at,
            metadata: Vec::new(),
        };
        assert(token@.metadata =~= Seq::empty());
        Ok(token)
    }

    /// The text by which a token is presented, made from its serialized
    /// form: the configured secret, a colon, and the base64 text of the
    /// serialized token. Refused where the serialized token is longer than
    /// [`MAX_SERIALIZED_TOKEN_BYTES`].
    pub fn encode_token(&self, serialized: &str) -> (result: Result<String, SecurityError>)
        ensures
            if serialized.spec_bytes().len() <= MAX_SERIALIZED_TOKEN_BYTES {
                result matches Ok(text) && text@ == self.config.auth_token_secret@ + ":"@
                    + base64_text(serialized@)
            } else {
                result matches Err(error) && error@ == SecurityErrorView::Token(TOKEN_TOO_LONG@)
            },
    {
        if serialized.as_bytes().len() > MAX_SERIALIZED_TOKEN_BYTES {
            return Err(SecurityError::Token(String::from_str(TOKEN_TOO_LONG)));
        }
        let encoded = base64_encode(serialized);
        Ok(token_text(self.config.auth_token_secret.as_str(), encoded.as_str()))
    }

    /// Puts `token` in force under the text `token_string`, in place of a
    /// token that was in force under it.
    pub fn activate(&mut self, token_string: String, token: AuthToken)
        ensures
            final(self).active_tokens@ == upsert(
                old(self).active_tokens@,
                ActiveTokenView { token_string: token_string@, token: token@ },
            ),
            final(self).revoked() == old(self).revoked(),
            final(self).config == old(self).config,
    {
        self.active_tokens.upsert(ActiveToken { token_string, token });
    }

    /// Checks the token presented as `token_string` at `now`.
    pub fn validate_token_at(&self, token_string: &String, now: Timestamp) -> (result: Result<
        AuthToken,
        SecurityError,
    >)
        ensures
            match validation(self.active_tokens@, self.revoked(), token_string@, now) {
                Ok(token) => result matches Ok(found) && found@ == token,
                Err(reason) => result matches Err(error) && error@ == reason,
            },
    {
        let active = match self.active_tokens.get(token_string) {
            None => {
                return Err(SecurityError::Authentication(String::from_str(TOKEN_NOT_FOUND)));
            },
            Some(active) => active,
        };
        if self.is_revoked(&active.token.token_id) {
            return Err(SecurityError::Authentication(String::from_str(TOKEN_REVOKED)));
        }
        if active.token.is_expired_at(now) {
            return Err(SecurityError::Authentication(String::from_str(TOKEN_EXPIRED)));
        }
        Ok(active.token.clone())
    }

    /// Checks the token presented as `token_string` as of the current time.
    pub fn validate_token(&self, token_string: &String) -> (result: Result<AuthToken, SecurityError>)
        ensures
            exists|now: Timestamp|
                match #[trigger] validation(
                    self.active_tokens@,
                    self.revoked(),
                    token_string@,
                    now,
                ) {
                    Ok(token) => result matches Ok(found) && found@ == token,
                    Err(reason) => result matches Err(error) && error@ == reason,
                },
    {
        let now = Timestamp::now();
        self.validate_token_at(token_string, now)
    }

    /// Whether the token with the identifier `token_id` was revoked.
    pub fn is_revoked(&self, token_id: &String) -> (revoked: bool)
        ensures
            revoked == self.revoked().contains(token_id@),
    {
        let mut i: usize = 0;
        while i < self.revoked_tokens.len()
            invariant
                i <= self.revoked_tokens@.len(),
                forall|k: int| 0 <= k < i ==> self.revoked()[k] != token_id@,
            decreases self.revoked_tokens@.len() - i,
        {
            if self.revoked_tokens[i] == *token_id {
                assert(self.revoked()[i as int] == token_id@);
                return true;
            }
            i = i + 1;
        }
        false
    }

    /// Whether the token presented as `token_string` at `now` is accepted
    /// and permits `required_permission`; the reason where it is refused.
    pub fn check_permission_at(
        &self,
        token_string: &String,
        required_permission: Permission,
        now: Timestamp,
    ) -> (result: Result<bool, SecurityError>)
        ensures
            match validation(self.active_tokens@, self.revoked(), token_string@, now) {
                Ok(token) => result == Ok::<bool, SecurityError>(
                    token.permits(required_permission),
                ),
                Err(reason) => result matches Err(error) && error@ == reason,
            },
    {
        match self.validate_token_at(token_string, now) {
            Ok(token) => Ok(token.permits(required_permission)),
            Err(error) => Err(error),
        }
    }

    /// Whether the token presented as `token_string` is accepted as of the
    /// current time and permits `required_permission`.
    pub fn check_permission(&self, token_string: &String, required_permission: Permission) -> (result:
        Result<bool, SecurityError>)
        ensures
            exists|now: Timestamp|
                match #[trigger] validation(
                    self.active_tokens@,
                    self.revoked(),
                    token_string@,
                    now,
                ) {
                    Ok(token) => result == Ok::<bool, SecurityError>(
                        token.permits(required_permission),
                    ),
                    Err(reason) => result matches Err(error) && error@ == reason,
                },
    {
        let now = Timestamp::now();
        self.check_permission_at(token_string, required_permission, now)
    }

    /// Revokes the token presented as `token_string`: it is no longer in
    /// force, and its identifier is remembered as revoked. A token that is
    /// not in force changes nothing.
    pub fn revoke_token(&mut self, token_string: &String)
        ensures
            final(self).active_tokens@ == without_key(old(self).active_tokens@, token_string@),
            final(self).revoked() == if has_key(old(self).active_tokens@, token_string@) {
                old(self).revoked().push(
                    entry_of(old(self).active_tokens@, token_string@).token.token_id,
                )
            } else {
                old(self).revoked()
            },
            final(self).config == old(self).config,
    {
        match self.active_tokens.remove(token_string) {
            Some(active) => {
                self.revoked_tokens.push(active.token.token_id);
            },
            None => {
            },
        }
    }

    /// Forgets the tokens whose time is over at `now`, and tells how many
    /// they were.
    pub fn cleanup_expired_tokens_at(&mut self, now: Timestamp) -> (count: usize)
        ensures
            final(self).active_tokens@ == old(self).active_tokens@.filter(valid_at(now)),
            count == old(self).active_tokens@.filter(expired_at(now)).len(),
            final(self).revoked() == old(self).revoked(),
            final(self).config == old(self).config,
    {
        let over = |active: &ActiveToken| -> (expired: bool)
            ensures
                expired == active.token@.expired_at(now),
            { active.token.is_expired_at(now) };
        let gone = self.active_tokens.extract(over, Ghost(expired_at(now)), Ghost(valid_at(now)));
        gone.len()
    }

    /// Forgets the tokens whose time is over as of the current time, and
    /// tells how many they were.
    pub fn cleanup_expired_tokens(&mut self) -> (count: usize)
        ensures
            exists|now: Timestamp|
                final(self).active_tokens@ == old(self).active_tokens@.filter(
                    #[trigger] valid_at(now),
                ) && count == old(self).active_tokens@.filter(expired_at(now)).len(),
            final(self).revoked() == old(self).revoked(),
            final(self).config == old(self).config,
    {
        let now = Timestamp::now();
        self.cleanup_expired_tokens_at(now)
    }
}

} // verus!
