//! What a client decides of the certificates of a TLS session. The
//! session itself is the business of the transport.

use vstd::prelude::*;

use crate::tcp::der::{copy_bytes, spec_views};

verus! {

/// How the certificate of the peer is judged.
#[derive(Clone, Copy, Debug, PartialEq, Eq, Structural)]
pub enum CertificateMode {
    /// The chain of the peer is held against trusted roots, and its name
    /// against the name expected.
    AuthorityBased,
    /// The certificate of the peer must be, byte for byte, the one
    /// configured.
    SelfSigned,
}

/// Lowest version of TLS that a session may use.
#[derive(Clone, Copy, Debug, PartialEq, Eq, Structural)]
pub enum MinTlsVersion {
    V1_2,
    V1_3,
}

/// Why the configured certificates of the peer are refused.
#[derive(Clone, Copy, Debug, PartialEq, Eq, Structural)]
pub enum PeerCertificateError {
    /// Self-signed mode needs a certificate to compare with.
    NoPeerCertificate,
    /// Self-signed mode compares with one certificate only.
    MoreThanOnePeerCertificate,
}

/// Why the certificate that a peer presents is refused in self-signed
/// mode.
#[derive(Clone, Copy, Debug, PartialEq, Eq, Structural)]
pub enum CertificateRejection {
    /// The peer sent so many intermediate certificates, where none is
    /// expected.
    UnexpectedIntermediates(usize),
    /// The certificate is not the one configured.
    CertificateMismatch,
    /// The certificate cannot be parsed.
    UnparsableCertificate,
    /// The clock stands before 1970.
    FailedToGetCurrentTime,
    /// The present lies outside the validity of the certificate.
    NotCurrentlyValid,
}

/// The validity that a DER-encoded X.509 certificate states: the seconds
/// since 1970 before which and after which it does not hold; `None` for
/// bytes that are no such certificate.
pub uninterp spec fn spec_certificate_validity(der: Seq<u8>) -> Option<(u64, u64)>;

/// Calls `rx509::x509::Certificate::parse` on the bytes and picks the two
/// bounds of the validity of the certificate. The result is taken to
/// depend on the bytes alone; nothing else is claimed of it.
#[verifier::external_body]
fn certificate_validity(der: &[u8]) -> (r: Option<(u64, u64)>)
    ensures
        r == spec_certificate_validity(der@),
{
    match rx509::x509::Certificate::parse(der) {
        Ok(cert) => {
            let validity = &cert.tbs_certificate.value.validity;
            Some((validity.not_before.value, validity.not_after.value))
        },
        Err(_) => None,
    }
}

/// Calls `rx509::x509::Validity::is_valid`, which holds the time given
/// against both bounds, each of which counts as within.
#[verifier::external_body]
fn validity_holds(not_before: u64, not_after: u64, now: u64) -> (r: bool)
    ensures
        r == (not_before <= now && now <= not_after),
{
    let validity = rx509::x509::Validity {
        not_before: rx509::der::UtcTime::from_seconds_since_epoch(not_before),
        not_after: rx509::der::UtcTime::from_seconds_since_epoch(not_after),
    };
    validity.is_valid(rx509::der::UtcTime::from_seconds_since_epoch(now))
}

/// Whether so many configured certificates of the peer serve the mode.
pub open spec fn spec_check_peer_certificates(mode: CertificateMode, count: nat) -> Result<
    (),
    PeerCertificateError,
> {
    if mode == CertificateMode::SelfSigned && count == 0 {
        Err(PeerCertificateError::NoPeerCertificate)
    } else if mode == CertificateMode::SelfSigned && count > 1 {
        Err(PeerCertificateError::MoreThanOnePeerCertificate)
    } else {
        Ok(())
    }
}

/// Decides whether the configured certificates of the peer serve the
/// mode: self-signed mode takes exactly one, to compare with;
/// authority-based mode takes any number of roots.
pub fn check_peer_certificates(mode: CertificateMode, count: usize) -> (r: Result<
    (),
    PeerCertificateError,
>)
    ensures
        r == spec_check_peer_certificates(mode, count as nat),
{
    match mode {
        CertificateMode::AuthorityBased => Ok(()),
        CertificateMode::SelfSigned => {
            if count == 0 {
                Err(PeerCertificateError::NoPeerCertificate)
            } else if count > 1 {
                Err(PeerCertificateError::MoreThanOnePeerCertificate)
            } else {
                Ok(())
            }
        },
    }
}

/// Whether two runs of bytes are the same.
pub fn bytes_equal(left: &[u8], right: &[u8]) -> (same: bool)
    ensures
        same == (left@ == right@),
{
    if left.len() != right.len() {
        return false;
    }
    let len: usize = left.len();
    let mut i: usize = 0;
    while i < len
        invariant
            i <= len,
            len == left@.len(),
            len == right@.len(),
            left@.take(i as int) == right@.take(i as int),
        decreases len - i,
    {
        if left[i] != right[i] {
            return false;
        }
        assert(left@.take(i + 1) =~= left@.take(i as int).push(left@[i as int]));
        assert(right@.take(i + 1) =~= right@.take(i as int).push(right@[i as int]));
        i = i + 1;
    }
    assert(left@ =~= left@.take(len as int));
    assert(right@ =~= right@.take(len as int));
    true
}

/// The judgement of a certificate presented in self-signed mode, from
/// what is known of it: the number of intermediate certificates sent with
/// it; whether it is the certificate configured; the validity it states,
/// if it can be parsed; and the present in seconds since 1970, if the
/// clock gives one. The first of these to fail decides.
pub open spec fn spec_judge_self_signed(
    intermediates: nat,
    matches: bool,
    validity: Option<(u64, u64)>,
    now: Option<u64>,
) -> Result<(), CertificateRejection> {
    if intermediates != 0 {
        Err(CertificateRejection::UnexpectedIntermediates(intermediates as usize))
    } else if !matches {
        Err(CertificateRejection::CertificateMismatch)
    } else {
        match (validity, now) {
            (None, _) => Err(CertificateRejection::UnparsableCertificate),
            (Some(_), None) => Err(CertificateRejection::FailedToGetCurrentTime),
            (Some((not_before, not_after)), Some(seconds)) => if not_before <= seconds && seconds
                <= not_after {
                Ok(())
            } else {
                Err(CertificateRejection::NotCurrentlyValid)
            },
        }
    }
}

/// Judges a certificate presented in self-signed mode from what is known
/// of it.
pub fn judge_self_signed(
    intermediates: usize,
    matches: bool,
    validity: Option<(u64, u64)>,
    now: Option<u64>,
) -> (r: Result<(), CertificateRejection>)
    ensures
        r == spec_judge_self_signed(intermediates as nat, matches, validity, now),
{
    // no intermediate certificates may be present
    if intermediates != 0 {
        return Err(CertificateRejection::UnexpectedIntermediates(intermediates));
    }
    // the certificate must be, byte for byte, the one expected
    if !matches {
        return Err(CertificateRejection::CertificateMismatch);
    }
    let (not_before, not_after) = match validity {
        Some(bounds) => bounds,
        None => {
            return Err(CertificateRejection::UnparsableCertificate);
        },
    };
    let seconds: u64 = match now {
        Some(seconds) => seconds,
        None => {
            return Err(CertificateRejection::FailedToGetCurrentTime);
        },
    };
    if !validity_holds(not_before, not_after, seconds) {
        return Err(CertificateRejection::NotCurrentlyValid);
    }
    // the name is not checked: to present the very certificate is enough
    Ok(())
}

/// Judges the certificate that a peer presents in self-signed mode:
/// `end_entity` with so many intermediate certificates, held against the
/// certificate `expected`, at the time `now` in seconds since 1970, or
/// `None` where the clock stands before that. The certificate is parsed
/// only once it is known to be the one expected.
pub fn verify_self_signed(
    end_entity: &[u8],
    intermediates: usize,
    expected: &[u8],
    now: Option<u64>,
) -> (r: Result<(), CertificateRejection>)
    ensures
        r == spec_judge_self_signed(
            intermediates as nat,
            end_entity@ == expected@,
            spec_certificate_validity(end_entity@),
            now,
        ),
{
    if intermediates != 0 {
        return judge_self_signed(intermediates, false, None, now);
    }
    if !bytes_equal(end_entity, expected) {
        return judge_self_signed(intermediates, false, None, now);
    }
    let validity = certificate_validity(end_entity);
    judge_self_signed(intermediates, true, validity, now)
}

/// Why the names of a certificate do not serve.
#[derive(Clone, Copy, Debug, PartialEq, Eq, Structural)]
pub enum NameRejection {
    /// None of the names is the one expected.
    NameMismatch,
    /// The certificate carries no name to go by.
    NoName,
}

/// Whether one of the names is the one expected.
pub open spec fn spec_names_contain(names: Seq<Vec<u8>>, expected: Seq<u8>) -> bool {
    exists|i: int| 0 <= i < names.len() && (#[trigger] names[i])@ == expected
}

/// Whether a certificate with these names is one for the name expected:
/// where it lists alternative names, one of them must be that name; where
/// it lists none, its common name must be.
pub open spec fn spec_verify_dns_name(
    expected: Seq<u8>,
    alternative_names: Option<Seq<Vec<u8>>>,
    common_name: Option<Seq<u8>>,
) -> Result<(), NameRejection> {
    match alternative_names {
        Some(names) => if spec_names_contain(names, expected) {
            Ok(())
        } else {
            Err(NameRejection::NameMismatch)
        },
        None => match common_name {
            Some(name) => if name == expected {
                Ok(())
            } else {
                Err(NameRejection::NameMismatch)
            },
            None => Err(NameRejection::NoName),
        },
    }
}

/// Holds the names of a certificate against the name expected. The
/// alternative names decide where the certificate lists any; the common
/// name is the fallback where it lists none.
#[verifier::loop_isolation(false)]
pub fn verify_dns_name(
    expected: &[u8],
    alternative_names: Option<&[Vec<u8>]>,
    common_name: Option<&[u8]>,
) -> (r: Result<(), NameRejection>)
    ensures
        r == spec_verify_dns_name(
            expected@,
            match alternative_names {
                Some(names) => Some(names@),
                None => None,
            },
            match common_name {
                Some(name) => Some(name@),
                None => None,
            },
        ),
{
    match alternative_names {
        Some(names) => {
            let len: usize = names.len();
            let mut i: usize = 0;
            while i < len
                invariant
                    i <= len,
                    len == names@.len(),
                    forall|k: int| 0 <= k < i ==> (#[trigger] names@[k])@ != expected@,
                decreases len - i,
            {
                if bytes_equal(names[i].as_slice(), expected) {
                    assert(names@[i as int]@ == expected@);
                    return Ok(());
                }
                i = i + 1;
            }
            Err(NameRejection::NameMismatch)
        },
        None => match common_name {
            Some(name) => if bytes_equal(name, expected) {
                Ok(())
            } else {
                Err(NameRejection::NameMismatch)
            },
            None => Err(NameRejection::NoName),
        },
    }
}

/// A name that a certificate lists as an alternative to its subject.
#[derive(Clone, Debug, PartialEq, Eq)]
pub enum GeneralName {
    /// A DNS name.
    Dns(Vec<u8>),
    /// A name of any other kind.
    Other,
}

/// The DNS names among some alternative names, in order.
pub open spec fn spec_dns_names(names: Seq<GeneralName>) -> Seq<Seq<u8>>
    decreases names.len(),
{
    if names.len() == 0 {
        Seq::empty()
    } else {
        let front = spec_dns_names(names.drop_last());
        match names.last() {
            GeneralName::Dns(name) => front.push(name@),
            GeneralName::Other => front,
        }
    }
}

/// The DNS names of all the lists of alternative names, in order.
pub open spec fn spec_all_dns_names(lists: Seq<Vec<GeneralName>>) -> Seq<Seq<u8>>
    decreases lists.len(),
{
    if lists.len() == 0 {
        Seq::empty()
    } else {
        spec_all_dns_names(lists.drop_last()) + spec_dns_names(lists.last()@)
    }
}

/// The alternative names that count for a certificate with these lists of
/// alternative names: none where it has no list; else the DNS names of
/// its lists, in order.
pub open spec fn spec_pick_dns_names(lists: Seq<Vec<GeneralName>>) -> Option<Seq<Seq<u8>>> {
    if lists.len() == 0 {
        None
    } else {
        Some(spec_all_dns_names(lists))
    }
}

/// Picks the alternative names that count for a certificate: the DNS
/// names of its lists of alternative names, one list for each extension
/// that carries such names; `None` for a certificate without such an
/// extension.
pub fn pick_dns_names(lists: &[Vec<GeneralName>]) -> (r: Option<Vec<Vec<u8>>>)
    ensures
        match r {
            Some(names) => spec_pick_dns_names(lists@) == Some(spec_views(names@)),
            None => spec_pick_dns_names(lists@).is_none(),
        },
{
    let count: usize = lists.len();
    if count == 0 {
        return None;
    }
    let mut picked: Vec<Vec<u8>> = Vec::new();
    let mut i: usize = 0;
    assert(lists@.take(0) =~= Seq::<Vec<GeneralName>>::empty());
    while i < count
        invariant
            i <= count,
            count == lists@.len(),
            spec_views(picked@) == spec_all_dns_names(lists@.take(i as int)),
        decreases count - i,
    {
        let names: &Vec<GeneralName> = &lists[i];
        let len: usize = names.len();
        let ghost before = spec_views(picked@);
        let mut j: usize = 0;
        assert(names@.take(0) =~= Seq::<GeneralName>::empty());
        while j < len
            invariant
                j <= len,
                len == names@.len(),
                spec_views(picked@) == before + spec_dns_names(names@.take(j as int)),
            decreases len - j,
        {
            assert(names@.take(j + 1).drop_last() =~= names@.take(j as int));
            let ghost sofar = spec_views(picked@);
            match &names[j] {
                GeneralName::Dns(name) => {
                    let copy = copy_bytes(name.as_slice());
                    picked.push(copy);
                    assert(spec_views(picked@) =~= sofar.push(name@));
                    assert(spec_views(picked@) =~= before + spec_dns_names(
                        names@.take(j + 1),
                    ));
                },
                GeneralName::Other => {},
            }
            j = j + 1;
        }
        assert(names@.take(len as int) =~= names@);
        assert(lists@.take(i + 1).drop_last() =~= lists@.take(i as int));
        i = i + 1;
    }
    assert(lists@.take(count as int) =~= lists@);
    Some(picked)
}

/// Whether a certificate with these lists of alternative names and this
/// common name is one for the name expected.
pub open spec fn spec_verify_certificate_names(
    expected: Seq<u8>,
    lists: Seq<Vec<GeneralName>>,
    common_name: Option<Seq<u8>>,
) -> Result<(), NameRejection> {
    match spec_pick_dns_names(lists) {
        Some(names) => if names.contains(expected) {
            Ok(())
        } else {
            Err(NameRejection::NameMismatch)
        },
        None => match common_name {
            Some(name) => if name == expected {
                Ok(())
            } else {
                Err(NameRejection::NameMismatch)
            },
            None => Err(NameRejection::NoName),
        },
    }
}

/// Holds what a certificate carries as names against the name expected:
/// the DNS names of its alternative names where it has any list of
/// alternative names, else its common name.
pub fn verify_certificate_names(
    expected: &[u8],
    lists: &[Vec<GeneralName>],
    common_name: Option<&[u8]>,
) -> (r: Result<(), NameRejection>)
    ensures
        r == spec_verify_certificate_names(
            expected@,
            lists@,
            match common_name {
                Some(name) => Some(name@),
                None => None,
            },
        ),
{
    match pick_dns_names(lists) {
        Some(names) => {
            proof {
                let views = spec_views(names@);
                if spec_names_contain(names@, expected@) {
                    let i = choose|i: int|
                        0 <= i < names@.len() && (#[trigger] names@[i])@ == expected@;
                    assert(views[i] == expected@);
                }
                if views.contains(expected@) {
                    let i = choose|i: int| 0 <= i < views.len() && views[i] == expected@;
                    assert(names@[i]@ == expected@);
                }
            }
            verify_dns_name(expected, Some(names.as_slice()), common_name)
        },
        None => verify_dns_name(expected, None, common_name),
    }
}

/// The parts of a certificate that make a trust anchor.
#[derive(Debug, Clone)]
pub struct OwnedTrustAnchor {
    /// the subject of the certificate
    pub subject: Vec<u8>,
    /// the public key of the subject, with its algorithm
    pub spki: Vec<u8>,
    /// the name constraints of the certificate, if it has any
    pub name_constraints: Option<Vec<u8>>,
}

/// Why the certificates of the peer make no trust anchors: the place of
/// the first that makes none, and what the parser said of it.
#[derive(Debug, Clone)]
pub struct TrustAnchorError {
    pub index: usize,
    pub cause: String,
}

impl OwnedTrustAnchor {
    /// The parts as bytes.
    pub open spec fn spec_parts(&self) -> (Seq<u8>, Seq<u8>, Option<Seq<u8>>) {
        (
            self.subject@,
            self.spki@,
            match self.name_constraints {
                Some(constraints) => Some(constraints@),
                None => None,
            },
        )
    }
}

/// The subject, the public key and the name constraints that a
/// DER-encoded certificate makes a trust anchor of; `None` for bytes that
/// make none.
pub uninterp spec fn spec_trust_anchor(der: Seq<u8>) -> Option<(Seq<u8>, Seq<u8>, Option<Seq<u8>>)>;

/// Calls `webpki::TrustAnchor::try_from_cert_der` on the bytes and copies
/// the three parts of the anchor, or gives the error in words. Whether
/// there is an anchor, and its parts, are taken to depend on the bytes
/// alone; nothing else is claimed of them, and nothing of the words.
#[verifier::external_body]
fn trust_anchor_of(der: &[u8]) -> (r: Result<OwnedTrustAnchor, String>)
    ensures
        match r {
            Ok(anchor) => spec_trust_anchor(der@) == Some(anchor.spec_parts()),
            Err(_) => spec_trust_anchor(der@).is_none(),
        },
{
    match tokio_rustls::webpki::TrustAnchor::try_from_cert_der(der) {
        Ok(anchor) => Ok(
            OwnedTrustAnchor {
                subject: anchor.subject.to_vec(),
                spki: anchor.spki.to_vec(),
                name_constraints: match anchor.name_constraints {
                    Some(constraints) => Some(constraints.to_vec()),
                    None => None,
                },
            },
        ),
        Err(err) => Err(err.to_string()),
    }
}

/// Makes a trust anchor of each certificate, in order, and stops at the
/// first that makes none.
pub fn trust_anchors(certificates: &[Vec<u8>]) -> (r: Result<
    Vec<OwnedTrustAnchor>,
    TrustAnchorError,
>)
    ensures
        match r {
            Ok(anchors) => anchors@.len() == certificates@.len() && forall|i: int|
                0 <= i < anchors@.len() ==> spec_trust_anchor(certificates@[i]@) == Some(
                    (#[trigger] anchors@[i]).spec_parts(),
                ),
            Err(err) => err.index < certificates@.len() && spec_trust_anchor(
                certificates@[err.index as int]@,
            ).is_none() && forall|i: int|
                0 <= i < err.index ==> spec_trust_anchor(
                    (#[trigger] certificates@[i])@,
                ).is_some(),
        },
{
    let count: usize = certificates.len();
    let mut anchors: Vec<OwnedTrustAnchor> = Vec::with_capacity(count);
    let mut i: usize = 0;
    while i < count
        invariant
            i <= count,
            count == certificates@.len(),
            anchors@.len() == i,
            forall|k: int|
                0 <= k < i ==> spec_trust_anchor((#[trigger] certificates@[k])@) == Some(
                    anchors@[k].spec_parts(),
                ),
        decreases count - i,
    {
        match trust_anchor_of(certificates[i].as_slice()) {
            Ok(anchor) => {
                anchors.push(anchor);
            },
            Err(cause) => {
                return Err(TrustAnchorError { index: i, cause });
            },
        }
        i = i + 1;
    }
    Ok(anchors)
}

} // verus!
