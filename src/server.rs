//! Reaching the agent's local server: its address and the credentials that
//! requests to it carry.

use base64::Engine;
use rand::Rng;
use crate::text::{decimal, to_decimal};
use vstd::prelude::*;
use vstd::string::*;
use vstd::utf8::*;

verus! {

/// The address of the agent's server listening on `port` of the loopback
/// interface.
pub open spec fn server_address(port: u16) -> Seq<char> {
    "http://127.0.0.1:"@ + decimal(port as nat)
}

/// The base address of the server on `port`.
pub fn server_url(port: u16) -> (r: String)
    ensures
        r@ == server_address(port),
{
    String::from_str("http://127.0.0.1:").concat(to_decimal(port as u64).as_str())
}

/// An ASCII letter or digit.
pub open spec fn is_alphanumeric(c: char) -> bool {
    ('A' <= c <= 'Z') || ('a' <= c <= 'z') || ('0' <= c <= '9')
}

/// Relies on `rand::thread_rng` sampled through
/// `rand::distributions::Alphanumeric`, which draws ASCII letters and
/// digits: `len` of them.
#[verifier::external_body]
fn random_alphanumeric(len: usize) -> (r: String)
    ensures
        r@.len() == len,
        forall|i: int| 0 <= i < len ==> is_alphanumeric(#[trigger] r@[i]),
{
    rand::thread_rng().sample_iter(&rand::distributions::Alphanumeric).take(len).map(char::from).collect()
}

/// What `base64::engine::general_purpose::STANDARD` encodes `b` as.
pub uninterp spec fn base64_of(b: Seq<u8>) -> Seq<char>;

/// Relies on `base64::Engine::encode` of the standard engine (standard
/// alphabet, with padding): a function of the bytes. It panics only when
/// the encoded length overflows `usize`.
#[verifier::external_body]
fn base64_encode(bytes: &[u8]) -> (r: String)
    requires
        bytes@.len() <= usize::MAX / 2,
    ensures
        r@ == base64_of(bytes@),
{
    base64::engine::general_purpose::STANDARD.encode(bytes)
}

/// The bytes of an ASCII text.
pub open spec fn ascii_bytes(s: Seq<char>) -> Seq<u8> {
    Seq::new(s.len(), |i: int| s[i] as u8)
}

/// The user name that requests to the server carry.
pub const SERVER_USERNAME: &'static str = "passepartout";

/// How many characters a generated password has.
pub const PASSWORD_LENGTH: usize = 64;

/// The longest user name and password, together, that a header is made of.
pub const MAX_CREDENTIALS_LENGTH: usize = 1024;

/// The user name and password that the server is started with, and that
/// each request to it presents.
pub struct ServerAuth {
    username: String,
    password: String,
}

/// Credentials that fit in a header: ASCII text of bounded length.
pub open spec fn usable_credentials(username: Seq<char>, password: Seq<char>) -> bool {
    is_ascii_chars(username) && is_ascii_chars(password) && username.len() + password.len()
        <= MAX_CREDENTIALS_LENGTH
}

/// The value of the `Authorization` header for `username` and `password`.
pub open spec fn basic_auth(username: Seq<char>, password: Seq<char>) -> Seq<char> {
    "Basic "@ + base64_of(ascii_bytes(username + ":"@ + password))
}

impl ServerAuth {
    /// The user name.
    pub closed spec fn user(&self) -> Seq<char> {
        self.username@
    }

    /// The password.
    pub closed spec fn secret(&self) -> Seq<char> {
        self.password@
    }

    /// The credentials fit in a header.
    pub open spec fn wf(&self) -> bool {
        usable_credentials(self.user(), self.secret())
    }

    /// Fresh credentials: the fixed user name and a random password of
    /// ASCII letters and digits.
    pub fn generate() -> (r: ServerAuth)
        ensures
            r.wf(),
            r.user() == SERVER_USERNAME@,
            r.secret().len() == PASSWORD_LENGTH,
            forall|i: int| 0 <= i < PASSWORD_LENGTH ==> is_alphanumeric(#[trigger] r.secret()[i]),
    {
        proof {
            reveal_strlit("passepartout");
        }
        let password = random_alphanumeric(PASSWORD_LENGTH);
        let r = ServerAuth { username: SERVER_USERNAME.to_owned(), password };
        assert(is_ascii_chars(r.password@)) by {
            assert forall|i: int| 0 <= i < r.password@.len() implies '\0' <= #[trigger] r.password@[i]
                <= '\u{7f}' by {
                assert(is_alphanumeric(r.password@[i]));
            }
        }
        r
    }

    /// The credentials `username` and `password`, when they fit in a header.
    pub fn from_parts(username: &str, password: &str) -> (r: Option<ServerAuth>)
        ensures
            r is Some <==> usable_credentials(username@, password@),
            r matches Some(a) ==> a.user() == username@ && a.secret() == password@,
    {
        if !username.is_ascii() || !password.is_ascii() {
            return None;
        }
        let ul = username.unicode_len();
        let pl = password.unicode_len();
        if ul > MAX_CREDENTIALS_LENGTH || pl > MAX_CREDENTIALS_LENGTH - ul {
            return None;
        }
        Some(ServerAuth { username: username.to_owned(), password: password.to_owned() })
    }

    /// The user name.
    pub fn username(&self) -> (r: &str)
        ensures
            r@ == self.user(),
    {
        self.username.as_str()
    }

    /// The password.
    pub fn password(&self) -> (r: &str)
        ensures
            r@ == self.secret(),
    {
        self.password.as_str()
    }

    /// The `Authorization` header value for these credentials.
    pub fn auth_header(&self) -> (r: String)
        requires
            self.wf(),
        ensures
            r@ == basic_auth(self.user(), self.secret()),
    {
        let joined = self.username.clone().concat(":").concat(self.password.as_str());
        proof {
            reveal_strlit(":");
            let j = joined@;
            assert(is_ascii_chars(j)) by {
                assert forall|i: int| 0 <= i < j.len() implies '\0' <= #[trigger] j[i] <= '\u{7f}' by {
                    if i < self.username@.len() {
                        assert(j[i] == self.username@[i]);
                    } else if i == self.username@.len() {
                        assert(j[i] == ':');
                    } else {
                        assert(j[i] == self.password@[i - self.username@.len() - 1]);
                    }
                }
            }
        }
        let text = joined.as_str();
        proof {
            vstd::string::is_ascii_spec_bytes(text);
        }
        let bytes = text.as_bytes();
        assert(bytes@ =~= ascii_bytes(joined@));
        String::from_str("Basic ").concat(base64_encode(bytes).as_str())
    }
}

} // verus!
