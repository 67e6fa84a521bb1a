//! The descriptor builder: validates a credential/security combination and
//! serializes it into the standardized Wi-Fi connection descriptor string
//! `WIFI:T:<sec>;S:<name>;P:<pass>;H:<true|false>;;`.

use vstd::prelude::*;

use crate::error::QrError;

verus! {

/// The enumerated Wi-Fi security standards.
#[derive(Clone, Copy, Debug, PartialEq, Eq, Structural)]
pub enum SecurityTypes {
    Wep,
    Wpa,
    Wpa2,
    Wpa3,
}

impl SecurityTypes {
    /// The protocol token for this security standard, as a character sequence.
    pub open spec fn spec_token(self) -> Seq<char> {
        match self {
            SecurityTypes::Wep => "Wep"@,
            SecurityTypes::Wpa => "Wpa"@,
            SecurityTypes::Wpa2 => "Wpa2"@,
            SecurityTypes::Wpa3 => "Wpa3"@,
        }
    }

    /// The protocol token for this security standard.
    pub fn token(self) -> (r: String)
        ensures
            r@ == self.spec_token(),
    {
        match self {
            SecurityTypes::Wep => "Wep".to_owned(),
            SecurityTypes::Wpa => "Wpa".to_owned(),
            SecurityTypes::Wpa2 => "Wpa2".to_owned(),
            SecurityTypes::Wpa3 => "Wpa3".to_owned(),
        }
    }
}

/// Wi-Fi credentials: network name, optional password, optional security
/// standard (absent means an open network), and the hidden flag.
pub struct Credentials {
    pub ssid: String,
    pub psw: Option<String>,
    pub sec: Option<SecurityTypes>,
    pub hidden: bool,
}

impl Credentials {
    /// The password text, with an absent password read as the empty text.
    pub open spec fn spec_password(&self) -> Seq<char> {
        match self.psw {
            Some(p) => p@,
            None => Seq::<char>::empty(),
        }
    }

    /// The exact descriptor text these credentials serialize to, once the
    /// security field has been resolved.
    pub open spec fn spec_descriptor_of(&self) -> Seq<char> {
        spec_descriptor(
            spec_resolved_security(self.sec, self.spec_password()),
            self.ssid@,
            self.spec_password(),
            self.hidden,
        )
    }
}

/// A stated security standard demands a password; every other combination is
/// accepted.
pub open spec fn spec_valid_combination(sec: Option<SecurityTypes>, psw: Seq<char>) -> bool {
    !(sec is Some && psw.len() == 0)
}

/// The security token actually emitted: a stated standard is emitted as-is; an
/// absent one resolves to "Wpa2" when a password is present and to the empty
/// token (an open network) when it is not.
pub open spec fn spec_resolved_security(sec: Option<SecurityTypes>, psw: Seq<char>) -> Seq<char> {
    match sec {
        Some(s) => s.spec_token(),
        None => if psw.len() > 0 {
            "Wpa2"@
        } else {
            Seq::<char>::empty()
        },
    }
}

/// The literal text of the hidden flag.
pub open spec fn spec_hidden_token(hidden: bool) -> Seq<char> {
    if hidden {
        "true"@
    } else {
        "false"@
    }
}

/// The exact descriptor template: `WIFI:T:<sec>;S:<name>;P:<pass>;H:<hidden>;;`,
/// with the name and password emitted verbatim and nothing else added.
pub open spec fn spec_descriptor(
    sec: Seq<char>,
    name: Seq<char>,
    psw: Seq<char>,
    hidden: bool,
) -> Seq<char> {
    "WIFI:T:"@ + sec + ";S:"@ + name + ";P:"@ + psw + ";H:"@ + spec_hidden_token(hidden) + ";;"@
}

/// Serializes credentials into the connection descriptor string, or fails when
/// a security standard was stated without a password.
pub fn assemble_qr_string(creds: &Credentials) -> (r: Result<String, QrError>)
    ensures
        r is Ok <==> spec_valid_combination(creds.sec, creds.spec_password()),
        r is Ok ==> r->Ok_0@ == creds.spec_descriptor_of(),
        r is Err ==> (r->Err_0 matches QrError::MissingPassword(s) && creds.sec == Some(s)),
{
    let psw: String = match &creds.psw {
        Some(x) => x.clone(),
        None => String::new(),
    };
    let sec: String = match creds.sec {
        Some(s) => {
            if psw.as_str().is_empty() {
                return Err(QrError::MissingPassword(s));
            }
            s.token()
        },
        None => {
            if psw.as_str().is_empty() {
                String::new()
            } else {
                SecurityTypes::Wpa2.token()
            }
        },
    };
    let mut out: String = String::new();
    out.append("WIFI:T:");
    out.append(sec.as_str());
    out.append(";S:");
    out.append(creds.ssid.as_str());
    out.append(";P:");
    out.append(psw.as_str());
    out.append(";H:");
    if creds.hidden {
        out.append("true");
    } else {
        out.append("false");
    }
    out.append(";;");
    proof {
        assert(out@ =~= creds.spec_descriptor_of());
    }
    Ok(out)
}

/// A present, non-empty password with no stated standard resolves to exactly
/// the "Wpa2" token: a password is taken to imply at least WPA2-class
/// protection.
pub proof fn lemma_password_defaults_to_wpa2(psw: Seq<char>)
    requires
        psw.len() > 0,
    ensures
        spec_resolved_security(Option::<SecurityTypes>::None, psw) == "Wpa2"@,
{
}

/// A stated security standard with an absent (or empty) password is an invalid
/// combination: building the descriptor fails rather than silently correcting.
pub proof fn lemma_protected_needs_password(s: SecurityTypes)
    ensures
        !spec_valid_combination(Some(s), Seq::<char>::empty()),
{
}

/// With neither a security standard nor a password, the resolved security
/// field is the empty token, which scanners read as an open network.
pub proof fn lemma_open_network_empty_token()
    ensures
        spec_resolved_security(Option::<SecurityTypes>::None, Seq::<char>::empty())
            == Seq::<char>::empty(),
{
}

} // verus!
