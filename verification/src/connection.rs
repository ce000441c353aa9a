//! The configurable arguments of a connection between Core and a
//! Periphery agent, and the check of the public key Periphery presents.
use vstd::prelude::*;

verus! {

/// `<str as PartialEq>::eq`: whether two strings hold the same characters.
#[verifier::external_body]
pub(crate) fn str_eq(a: &str, b: &str) -> (r: bool)
    ensures
        r == (a@ == b@),
{
    a == b
}

/// `None` for an empty string, else the string: how an unset
/// configuration field is read.
pub fn optional_str(s: &str) -> (r: Option<&str>)
    ensures
        s@.len() == 0 ==> r is None,
        s@.len() != 0 ==> r == Some(s),
{
    if s.unicode_len() == 0 {
        None
    } else {
        Some(s)
    }
}

/// The view of an optional string.
pub open spec fn opt_str_view(s: Option<&str>) -> Option<Seq<char>> {
    match s {
        Some(s) => Some(s@),
        None => None,
    }
}

/// The view of an optional owned string.
pub open spec fn opt_string_view(s: Option<String>) -> Option<Seq<char>> {
    match s {
        Some(s) => Some(s@),
        None => None,
    }
}

/// The value of a set of connection arguments.
pub struct ConnectionArgsView {
    pub id: Seq<char>,
    pub address: Option<Seq<char>>,
    pub periphery_public_key: Option<Seq<char>>,
    pub passkey: Option<Seq<char>>,
}

/// The configurable arguments of a connection, borrowed.
#[derive(Debug, Clone, Copy)]
pub struct PeripheryConnectionArgs<'a> {
    /// Usually the server id.
    pub id: &'a str,
    /// Where Core connects to Periphery; `None` when Periphery connects in.
    pub address: Option<&'a str>,
    periphery_public_key: Option<&'a str>,
    /// Legacy passkey, only for Core -> Periphery connections.
    passkey: Option<&'a str>,
}

impl<'a> View for PeripheryConnectionArgs<'a> {
    type V = ConnectionArgsView;

    closed spec fn view(&self) -> ConnectionArgsView {
        ConnectionArgsView {
            id: self.id@,
            address: opt_str_view(self.address),
            periphery_public_key: opt_str_view(self.periphery_public_key),
            passkey: opt_str_view(self.passkey),
        }
    }
}

/// The connection-related configuration of a server.
pub struct ServerConnectionConfig {
    pub id: String,
    pub address: String,
    pub public_key: String,
    pub passkey: String,
}

/// The configuration of a builder that connects to a fixed address.
pub struct UrlBuilderConfig {
    pub address: String,
    pub periphery_public_key: String,
    pub passkey: String,
}

/// The configuration of a builder that launches a cloud instance.
pub struct AwsBuilderConfig {
    pub periphery_public_key: String,
}

/// Fields that are empty read as unset.
pub open spec fn non_empty(s: Seq<char>) -> Option<Seq<char>> {
    if s.len() == 0 {
        None
    } else {
        Some(s)
    }
}

/// Why a public key presented by Periphery was refused.
#[derive(Clone, Copy, Debug, PartialEq, Eq, Structural)]
pub enum PublicKeyError {
    /// The key is not the one expected for this connection.
    Invalid,
}

impl PublicKeyError {
    /// The message shown for a refused `public_key`: the context first,
    /// then the cause, separated by `: `.
    pub fn message(&self, public_key: &str) -> (m: String)
        ensures
            m@ == "Core failed to validate Periphery public key: Ensure public key matches configured Periphery Public Key: "@
                + public_key@ + " is invalid"@,
    {
        match self {
            PublicKeyError::Invalid => "Core failed to validate Periphery public key: Ensure public key matches configured Periphery Public Key: ".to_owned().concat(
                public_key,
            ).concat(" is invalid"),
        }
    }
}

/// Whether Core accepts `public_key` from Periphery on a connection:
/// an expected key must match exactly; without one, outbound
/// connections accept any key, and inbound ones any key listed in the
/// Core configuration (none when the list is not configured).
pub open spec fn public_key_accepted(
    args: ConnectionArgsView,
    public_key: Seq<char>,
    configured: Option<Seq<Seq<char>>>,
) -> bool {
    match args.periphery_public_key {
        Some(expected) => public_key == expected,
        None => args.address is Some || (configured matches Some(keys) && keys.contains(public_key)),
    }
}

impl<'a> PeripheryConnectionArgs<'a> {
    /// The arguments of a connection to a server; empty fields are unset.
    pub fn from_server(server: &'a ServerConnectionConfig) -> (args: PeripheryConnectionArgs<'a>)
        ensures
            args@ == (ConnectionArgsView {
                id: server.id@,
                address: non_empty(server.address@),
                periphery_public_key: non_empty(server.public_key@),
                passkey: non_empty(server.passkey@),
            }),
    {
        PeripheryConnectionArgs {
            id: server.id.as_str(),
            address: optional_str(server.address.as_str()),
            periphery_public_key: optional_str(server.public_key.as_str()),
            passkey: optional_str(server.passkey.as_str()),
        }
    }

    /// The arguments of a connection to a builder at a fixed address.
    pub fn from_url_builder(id: &'a str, config: &'a UrlBuilderConfig) -> (args: PeripheryConnectionArgs<'a>)
        ensures
            args@ == (ConnectionArgsView {
                id: id@,
                address: non_empty(config.address@),
                periphery_public_key: non_empty(config.periphery_public_key@),
                passkey: non_empty(config.passkey@),
            }),
    {
        PeripheryConnectionArgs {
            id,
            address: optional_str(config.address.as_str()),
            periphery_public_key: optional_str(config.periphery_public_key.as_str()),
            passkey: optional_str(config.passkey.as_str()),
        }
    }

    /// The arguments of a connection to a launched cloud builder.
    pub fn from_aws_builder(id: &'a str, address: &'a str, config: &'a AwsBuilderConfig) -> (args:
        PeripheryConnectionArgs<'a>)
        ensures
            args@ == (ConnectionArgsView {
                id: id@,
                address: Some(address@),
                periphery_public_key: non_empty(config.periphery_public_key@),
                passkey: None,
            }),
    {
        PeripheryConnectionArgs {
            id,
            address: Some(address),
            periphery_public_key: optional_str(config.periphery_public_key.as_str()),
            passkey: None,
        }
    }

    /// The id of the connection (usually the server id), as the view
    /// holds it.
    pub fn id(&self) -> (id: &'a str)
        ensures
            id@ == self@.id,
    {
        self.id
    }

    /// Where Core connects to Periphery, as the view holds it; `None`
    /// when Periphery connects in.
    pub fn address(&self) -> (address: Option<&'a str>)
        ensures
            opt_str_view(address) == self@.address,
    {
        self.address
    }

    /// The public key expected from Periphery, if one is set.
    pub fn periphery_public_key(&self) -> (key: Option<&'a str>)
        ensures
            opt_str_view(key) == self@.periphery_public_key,
    {
        self.periphery_public_key
    }

    /// The legacy passkey, if one is set.
    pub fn passkey(&self) -> (key: Option<&'a str>)
        ensures
            opt_str_view(key) == self@.passkey,
    {
        self.passkey
    }

    /// The same arguments, owned.
    pub fn to_owned(self) -> (owned: OwnedPeripheryConnectionArgs)
        ensures
            owned@ == self@,
    {
        OwnedPeripheryConnectionArgs {
            id: self.id.to_owned(),
            address: owned_opt(self.address),
            periphery_public_key: owned_opt(self.periphery_public_key),
            passkey: owned_opt(self.passkey),
        }
    }

    /// Whether both hold the same arguments.
    pub fn matches<'b>(self, args: PeripheryConnectionArgs<'b>) -> (r: bool)
        ensures
            r == (self@ == args@),
    {
        str_eq(self.id, args.id) && opt_str_eq(self.address, args.address) && opt_str_eq(
            self.periphery_public_key,
            args.periphery_public_key,
        ) && opt_str_eq(self.passkey, args.passkey)
    }

    /// Checks the public key Periphery presents on this connection and
    /// hands it back when accepted; `configured` is the list of keys
    /// the Core configuration accepts for inbound connections.
    pub fn validate(&self, public_key: String, configured: Option<&Vec<String>>) -> (r: Result<
        String,
        PublicKeyError,
    >)
        ensures
            r is Ok <==> public_key_accepted(self@, public_key@, configured_view(configured)),
            r matches Ok(key) ==> key@ == public_key@,
            r is Err ==> r == Err::<String, PublicKeyError>(PublicKeyError::Invalid),
    {
        match self.periphery_public_key {
            Some(expected) => {
                if str_eq(public_key.as_str(), expected) {
                    Ok(public_key)
                } else {
                    Err(PublicKeyError::Invalid)
                }
            },
            None => {
                if self.address.is_some() {
                    return Ok(public_key);
                }
                match configured {
                    None => Err(PublicKeyError::Invalid),
                    Some(keys) => {
                        let mut i: usize = 0;
                        while i < keys.len()
                            invariant
                                i <= keys.len(),
                                forall|j: int| 0 <= j < i ==> keys@[j]@ != public_key@,
                                self.periphery_public_key is None,
                                self.address is None,
                                configured == Some(keys),
                            decreases keys.len() - i,
                        {
                            if str_eq(public_key.as_str(), keys[i].as_str()) {
                                proof {
                                    let seqs = keys@.map_values(|k: String| k@);
                                    assert(seqs[i as int] == public_key@);
                                    assert(seqs.contains(public_key@));
                                }
                                return Ok(public_key);
                            }
                            i = i + 1;
                        }
                        proof {
                            let seqs = keys@.map_values(|k: String| k@);
                            if seqs.contains(public_key@) {
                                let j = choose|j: int| 0 <= j < seqs.len() && seqs[j] == public_key@;
                                assert(keys@[j]@ == public_key@);
                            }
                        }
                        Err(PublicKeyError::Invalid)
                    },
                }
            },
        }
    }
}

/// The keys of the Core configuration as character sequences.
pub open spec fn configured_view(configured: Option<&Vec<String>>) -> Option<Seq<Seq<char>>> {
    match configured {
        Some(keys) => Some(keys@.map_values(|k: String| k@)),
        None => None,
    }
}

/// An owned copy of an optional string.
fn owned_opt(s: Option<&str>) -> (r: Option<String>)
    ensures
        opt_string_view(r) == opt_str_view(s),
{
    match s {
        Some(s) => Some(s.to_owned()),
        None => None,
    }
}

/// Whether two optional strings are equal.
fn opt_str_eq(a: Option<&str>, b: Option<&str>) -> (r: bool)
    ensures
        r == (opt_str_view(a) == opt_str_view(b)),
{
    match (a, b) {
        (Some(a), Some(b)) => str_eq(a, b),
        (None, None) => true,
        _ => false,
    }
}

/// A borrowed view of an optional owned string.
fn borrowed_opt(s: &Option<String>) -> (r: Option<&str>)
    ensures
        opt_str_view(r) == opt_string_view(*s),
{
    match s {
        Some(s) => Some(s.as_str()),
        None => None,
    }
}

/// The configurable arguments of a connection, owned.
#[derive(Debug, Clone)]
pub struct OwnedPeripheryConnectionArgs {
    /// Usually the server id.
    pub id: String,
    /// Where Core connects to Periphery; `None` when Periphery connects in.
    pub address: Option<String>,
    /// The public key to expect from Periphery.
    pub periphery_public_key: Option<String>,
    /// Legacy passkey, only for Core -> Periphery connections.
    pub passkey: Option<String>,
}

impl View for OwnedPeripheryConnectionArgs {
    type V = ConnectionArgsView;

    open spec fn view(&self) -> ConnectionArgsView {
        ConnectionArgsView {
            id: self.id@,
            address: opt_string_view(self.address),
            periphery_public_key: opt_string_view(self.periphery_public_key),
            passkey: opt_string_view(self.passkey),
        }
    }
}

impl OwnedPeripheryConnectionArgs {
    /// The same arguments, borrowed.
    pub fn borrow(&self) -> (args: PeripheryConnectionArgs<'_>)
        ensures
            args@ == self@,
    {
        PeripheryConnectionArgs {
            id: self.id.as_str(),
            address: borrowed_opt(&self.address),
            periphery_public_key: borrowed_opt(&self.periphery_public_key),
            passkey: borrowed_opt(&self.passkey),
        }
    }
}

// ---------------------------------------------------------------------
// Laws
// ---------------------------------------------------------------------

/// An outbound connection without an expected key accepts any key.
pub proof fn law_outbound_without_key_accepts_any(
    args: ConnectionArgsView,
    public_key: Seq<char>,
    configured: Option<Seq<Seq<char>>>,
)
    requires
        args.periphery_public_key is None,
        args.address is Some,
    ensures
        public_key_accepted(args, public_key, configured),
{
}

/// With an expected key, exactly that key is accepted, whatever the
/// configuration lists.
pub proof fn law_expected_key_decides(
    args: ConnectionArgsView,
    public_key: Seq<char>,
    configured: Option<Seq<Seq<char>>>,
)
    requires
        args.periphery_public_key is Some,
    ensures
        public_key_accepted(args, public_key, configured) <==> public_key == args.periphery_public_key->0,
{
}

/// An inbound connection without an expected key is refused when the
/// configuration lists no keys.
pub proof fn law_inbound_needs_configured_keys(args: ConnectionArgsView, public_key: Seq<char>)
    requires
        args.periphery_public_key is None,
        args.address is None,
    ensures
        !public_key_accepted(args, public_key, None),
{
}

// ---------------------------------------------------------------------
// The query a server's connection is authenticated with
// ---------------------------------------------------------------------

/// The bytes a URL keeps as they are: ASCII letters and digits, and
/// `-`, `.`, `_`, `~`.
pub open spec fn url_unreserved(b: u8) -> bool {
    (48 <= b <= 57) || (65 <= b <= 90) || (97 <= b <= 122) || b == 45 || b == 46 || b == 95 || b == 126
}

/// The upper-case hexadecimal digit of `d`, for `d < 16`.
pub open spec fn hex_digit(d: u8) -> char {
    if d < 10 {
        (48 + d) as char
    } else {
        (55 + d) as char
    }
}

/// The URL encoding of some bytes: each byte a URL keeps stands for
/// itself, every other byte is written `%` and two upper-case
/// hexadecimal digits.
pub open spec fn percent_encoded(bytes: Seq<u8>) -> Seq<char>
    decreases bytes.len(),
{
    if bytes.len() == 0 {
        Seq::empty()
    } else {
        let b = bytes.last();
        percent_encoded(bytes.drop_last()) + if url_unreserved(b) {
            seq![b as char]
        } else {
            seq!['%', hex_digit(b / 16), hex_digit(b % 16)]
        }
    }
}

/// `urlencoding::encode`: the URL encoding of the UTF-8 bytes of `s`.
#[verifier::external_body]
fn url_encode(s: &str) -> (r: String)
    ensures
        r@ == percent_encoded(vstd::utf8::encode_utf8(s@)),
{
    urlencoding::encode(s).into_owned()
}

/// The query that identifies the server a connection is for, in the
/// identifiers a connection is authenticated with: `server=` and the
/// URL encoding of the server's name or id.
pub fn server_auth_query(server_query: &str) -> (q: String)
    ensures
        q@ == "server="@ + percent_encoded(vstd::utf8::encode_utf8(server_query@)),
{
    let encoded = url_encode(server_query);
    "server=".to_owned().concat(encoded.as_str())
}

/// A name made only of bytes a URL keeps is sent as it is.
pub proof fn law_unreserved_names_unchanged(bytes: Seq<u8>)
    requires
        forall|i: int| 0 <= i < bytes.len() ==> url_unreserved(#[trigger] bytes[i]),
    ensures
        percent_encoded(bytes) == bytes.map_values(|b: u8| b as char),
    decreases bytes.len(),
{
    if bytes.len() > 0 {
        let rest = bytes.drop_last();
        assert forall|i: int| 0 <= i < rest.len() implies url_unreserved(#[trigger] rest[i]) by {
            assert(rest[i] == bytes[i]);
        }
        law_unreserved_names_unchanged(rest);
        assert(url_unreserved(bytes.last()));
        assert(bytes.map_values(|b: u8| b as char) =~= rest.map_values(|b: u8| b as char) + seq![
            bytes.last() as char,
        ]);
    }
}

} // verus!
