//! Deploying a deployment: the image a deployment of a build runs, and
//! which registry account is used to pull it.
use vstd::prelude::*;

verus! {

/// `String::push`: appends one character.
#[verifier::external_body]
pub(crate) fn string_push(s: &mut String, c: char)
    ensures
        final(s)@ == old(s)@.push(c),
{
    s.push(c);
}

/// The decimal digit of `d`, for `0 <= d < 10`.
pub open spec fn digit_char(d: int) -> char {
    if d == 0 {
        '0'
    } else if d == 1 {
        '1'
    } else if d == 2 {
        '2'
    } else if d == 3 {
        '3'
    } else if d == 4 {
        '4'
    } else if d == 5 {
        '5'
    } else if d == 6 {
        '6'
    } else if d == 7 {
        '7'
    } else if d == 8 {
        '8'
    } else {
        '9'
    }
}

/// The decimal digits of a natural number, most significant first.
pub open spec fn decimal_nat(n: nat) -> Seq<char>
    decreases n,
{
    if n < 10 {
        seq![digit_char(n as int)]
    } else {
        decimal_nat(n / 10) + seq![digit_char((n % 10) as int)]
    }
}

/// The decimal form of an integer, with `-` before negative ones.
pub open spec fn decimal(n: int) -> Seq<char> {
    if n < 0 {
        seq!['-'] + decimal_nat((-n) as nat)
    } else {
        decimal_nat(n as nat)
    }
}

/// The decimal digit of `d`.
fn digit(d: u64) -> (c: char)
    requires
        d < 10,
    ensures
        c == digit_char(d as int),
{
    if d == 0 {
        '0'
    } else if d == 1 {
        '1'
    } else if d == 2 {
        '2'
    } else if d == 3 {
        '3'
    } else if d == 4 {
        '4'
    } else if d == 5 {
        '5'
    } else if d == 6 {
        '6'
    } else if d == 7 {
        '7'
    } else if d == 8 {
        '8'
    } else {
        '9'
    }
}

/// Appends the decimal digits of `n`.
fn push_decimal_nat(s: &mut String, n: u64)
    ensures
        final(s)@ == old(s)@ + decimal_nat(n as nat),
    decreases n,
{
    if n < 10 {
        string_push(s, digit(n));
        assert(decimal_nat(n as nat) =~= seq![digit_char(n as int)]);
    } else {
        push_decimal_nat(s, n / 10);
        string_push(s, digit(n % 10));
        assert(old(s)@ + decimal_nat((n / 10) as nat) + seq![digit_char((n % 10) as int)] =~= old(s)@ + decimal_nat(
            n as nat,
        ));
    }
}

/// Appends the decimal form of `n`.
pub fn push_decimal(s: &mut String, n: i32)
    ensures
        final(s)@ == old(s)@ + decimal(n as int),
{
    if n < 0 {
        string_push(s, '-');
        let magnitude: u64 = (0 - (n as i64)) as u64;
        push_decimal_nat(s, magnitude);
        assert(old(s)@.push('-') + decimal_nat(magnitude as nat) =~= old(s)@ + decimal(n as int));
    } else {
        push_decimal_nat(s, n as u64);
    }
}

/// A version `major.minor.patch`; all zero means unset.
#[derive(Clone, Copy, Debug, PartialEq, Eq, Structural)]
pub struct Version {
    pub major: i32,
    pub minor: i32,
    pub patch: i32,
}

/// The text of a version: `major.minor.patch`.
pub open spec fn version_text(v: Version) -> Seq<char> {
    decimal(v.major as int) + seq!['.'] + decimal(v.minor as int) + seq!['.'] + decimal(v.patch as int)
}

impl Version {
    /// Whether the version is unset: all parts zero.
    pub fn is_none(&self) -> (r: bool)
        ensures
            r == (self.major == 0 && self.minor == 0 && self.patch == 0),
    {
        self.major == 0 && self.minor == 0 && self.patch == 0
    }

    /// The text of the version.
    pub fn to_text(&self) -> (s: String)
        ensures
            s@ == version_text(*self),
    {
        let mut s = String::new();
        push_decimal(&mut s, self.major);
        string_push(&mut s, '.');
        push_decimal(&mut s, self.minor);
        string_push(&mut s, '.');
        push_decimal(&mut s, self.patch);
        assert(s@ =~= version_text(*self));
        s
    }
}

/// The version a deployment of a build runs: its own version, or the
/// build's when its own is unset.
pub open spec fn deploy_version(deployment_version: Version, build_version: Version) -> Version {
    if deployment_version.major == 0 && deployment_version.minor == 0 && deployment_version.patch == 0 {
        build_version
    } else {
        deployment_version
    }
}

/// The image a deployment of a build runs: `{image}:{version}`, with
/// `-{tag}` after the version when the build sets an image tag.
pub open spec fn build_image_text(image_name: Seq<char>, version: Version, image_tag: Seq<char>) -> Seq<char> {
    let version_str = if image_tag.len() == 0 {
        version_text(version)
    } else {
        version_text(version) + seq!['-'] + image_tag
    };
    image_name + seq![':'] + version_str
}

/// The image and version a deployment of a build runs, from the
/// build's first image name, the deployment's and the build's
/// versions, and the build's image tag.
pub fn build_deploy_image(image_name: &str, deployment_version: Version, build_version: Version, image_tag: &str) -> (r: (
    String,
    Version,
))
    ensures
        r.1 == deploy_version(deployment_version, build_version),
        r.0@ == build_image_text(image_name@, r.1, image_tag@),
{
    let version = if deployment_version.is_none() {
        build_version
    } else {
        deployment_version
    };
    let mut image = image_name.to_owned();
    string_push(&mut image, ':');
    let version_str = version.to_text();
    image = image.concat(version_str.as_str());
    if image_tag.unicode_len() != 0 {
        string_push(&mut image, '-');
        image = image.concat(image_tag);
    }
    assert(image@ =~= build_image_text(image_name@, version, image_tag@));
    (image, version)
}

/// The registry account used to pull a build's image.
#[derive(Debug)]
pub struct RegistryChoice {
    /// The deployment's registry account afterwards.
    pub account: String,
    /// Whether a token for that account is looked up.
    pub fetch_token: bool,
}

/// The registry account of a deployment of a build: without a registry
/// domain on the build no token is used; otherwise the deployment's
/// account, or the registry's when the deployment sets none, and a
/// token is looked up when that account is set.
pub fn build_registry_choice(registry_domain: &str, registry_account: &str, deployment_account: String) -> (c:
    RegistryChoice)
    ensures
        registry_domain@.len() == 0 ==> c.account@ == deployment_account@ && !c.fetch_token,
        registry_domain@.len() != 0 ==> c.account@ == (if deployment_account@.len() == 0 {
            registry_account@
        } else {
            deployment_account@
        }) && c.fetch_token == (c.account@.len() != 0),
{
    if registry_domain.unicode_len() == 0 {
        return RegistryChoice { account: deployment_account, fetch_token: false };
    }
    let account = if deployment_account.as_str().unicode_len() == 0 {
        registry_account.to_owned()
    } else {
        deployment_account
    };
    let fetch_token = account.as_str().unicode_len() != 0;
    RegistryChoice { account, fetch_token }
}

/// How long the result of an image pull is reused, in milliseconds.
pub const PULL_TIMEOUT_MS: i64 = 5_000;

/// Whether the last pull of an image on a server, done at `last_ts`, is
/// recent enough that its result is returned instead of pulling again.
pub fn pull_result_reused(last_ts: i64, now: i64) -> (r: bool)
    requires
        last_ts <= i64::MAX - PULL_TIMEOUT_MS,
    ensures
        r == (last_ts + PULL_TIMEOUT_MS > now),
{
    last_ts + PULL_TIMEOUT_MS > now
}

/// A deployment pinned to a version runs that version; an unpinned one
/// (all parts zero) runs the build's.
pub proof fn law_pinned_version_wins(deployment_version: Version, build_version: Version)
    ensures
        !(deployment_version.major == 0 && deployment_version.minor == 0 && deployment_version.patch == 0)
            ==> deploy_version(deployment_version, build_version) == deployment_version,
        deployment_version == (Version { major: 0, minor: 0, patch: 0 }) ==> deploy_version(
            deployment_version,
            build_version,
        ) == build_version,
{
}

} // verus!
