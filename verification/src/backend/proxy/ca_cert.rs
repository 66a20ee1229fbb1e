use vstd::prelude::*;
use vstd::utf8::is_ascii_chars;
use vstd::string::StringExecFns;
use crate::strings::{views, copy_strings, find_text, contains_text, starts_with, ends_with};

verus! {

/// The name of the proxy's certificate authority.
pub const CA_NAME: &'static str = "GT TRAV CA";

/// The organization named in the certificates issued for sites.
pub const SERVER_ORGANIZATION: &'static str = "GT TRAV Server";

/// The country named in every certificate.
pub const COUNTRY: &'static str = "CN";

/// Where the authority's certificate is kept.
pub const CA_CERT_FILE: &'static str = "ca.crt";

/// Where the authority's private key is kept.
pub const CA_KEY_FILE: &'static str = "ca.key";

/// Where the authority's certificate is installed on Linux.
pub const LINUX_CA_PATH: &'static str = "/usr/local/share/ca-certificates/gt_trav_ca.crt";

/// How long a certificate is valid: 3650 days.
pub const VALIDITY_DAYS: u64 = 3650;

/// Whether a certificate may issue others.
#[derive(Clone, Copy, Debug, PartialEq, Eq, Structural)]
pub enum CaKind {
    /// A certificate authority with no limit on the chain below it.
    Unconstrained,
    /// Explicitly not a certificate authority.
    ExplicitNoCa,
}

/// What the key of a certificate may be used for.
#[derive(Clone, Copy, Debug, PartialEq, Eq, Structural)]
pub enum KeyUsage {
    KeyCertSign,
    CrlSign,
    DigitalSignature,
    KeyEncipherment,
}

/// The purposes a certificate is valid for.
#[derive(Clone, Copy, Debug, PartialEq, Eq, Structural)]
pub enum ExtendedKeyUsage {
    ServerAuth,
    ClientAuth,
}

/// The kinds of entries of a distinguished name used here.
#[derive(Clone, Copy, Debug, PartialEq, Eq, Structural)]
pub enum DnField {
    OrganizationName,
    CommonName,
    CountryName,
}

/// An entry of a distinguished name.
pub struct DnEntry {
    pub field: DnField,
    pub value: String,
}

/// Everything that a certificate issued here states, but its keys and
/// dates.
pub struct CertificateProfile {
    pub subject_alt_names: Vec<String>,
    pub is_ca: CaKind,
    pub key_usages: Vec<KeyUsage>,
    pub extended_key_usages: Vec<ExtendedKeyUsage>,
    pub distinguished_name: Vec<DnEntry>,
    /// Seconds from the moment of issue to the end of validity.
    pub validity_secs: u64,
    pub use_authority_key_identifier: bool,
}

/// The entries of a distinguished name as fields and texts.
pub open spec fn dn_view(entries: Seq<DnEntry>) -> Seq<(DnField, Seq<char>)> {
    entries.map_values(|e: DnEntry| (e.field, e.value@))
}

/// The validity of every certificate, in seconds.
pub open spec fn validity_secs() -> int {
    VALIDITY_DAYS * 24 * 60 * 60
}

/// What the authority's own certificate states.
pub open spec fn is_ca_profile(p: CertificateProfile) -> bool {
    &&& views(p.subject_alt_names@) == seq![CA_NAME@]
    &&& p.is_ca == CaKind::Unconstrained
    &&& p.key_usages@ == seq![KeyUsage::KeyCertSign, KeyUsage::CrlSign]
    &&& p.extended_key_usages@ == Seq::<ExtendedKeyUsage>::empty()
    &&& dn_view(p.distinguished_name@) == seq![
        (DnField::OrganizationName, CA_NAME@),
        (DnField::CommonName, CA_NAME@),
        (DnField::CountryName, COUNTRY@),
    ]
    &&& p.validity_secs == validity_secs()
    &&& !p.use_authority_key_identifier
}

/// What the certificate issued for the site `host` states.
pub open spec fn is_server_profile(p: CertificateProfile, host: Seq<char>) -> bool {
    &&& views(p.subject_alt_names@) == seq![host]
    &&& p.is_ca == CaKind::ExplicitNoCa
    &&& p.key_usages@ == seq![KeyUsage::DigitalSignature, KeyUsage::KeyEncipherment]
    &&& p.extended_key_usages@ == seq![ExtendedKeyUsage::ServerAuth, ExtendedKeyUsage::ClientAuth]
    &&& dn_view(p.distinguished_name@) == seq![
        (DnField::CommonName, host),
        (DnField::OrganizationName, SERVER_ORGANIZATION@),
        (DnField::CountryName, COUNTRY@),
    ]
    &&& p.validity_secs == validity_secs()
    &&& p.use_authority_key_identifier
}

fn dn_entry(field: DnField, value: &str) -> (e: DnEntry)
    ensures
        e.field == field,
        e.value@ == value@,
{
    DnEntry { field, value: value.to_string() }
}

/// The profile of the authority's own certificate.
pub fn ca_profile() -> (p: CertificateProfile)
    ensures
        is_ca_profile(p),
{
    let names = vec![CA_NAME.to_string()];
    let dn = vec![
        dn_entry(DnField::OrganizationName, CA_NAME),
        dn_entry(DnField::CommonName, CA_NAME),
        dn_entry(DnField::CountryName, COUNTRY),
    ];
    let p = CertificateProfile {
        subject_alt_names: names,
        is_ca: CaKind::Unconstrained,
        key_usages: vec![KeyUsage::KeyCertSign, KeyUsage::CrlSign],
        extended_key_usages: Vec::new(),
        distinguished_name: dn,
        validity_secs: VALIDITY_DAYS * 24 * 60 * 60,
        use_authority_key_identifier: false,
    };
    assert(views(p.subject_alt_names@) =~= seq![CA_NAME@]);
    assert(dn_view(p.distinguished_name@) =~= seq![
        (DnField::OrganizationName, CA_NAME@),
        (DnField::CommonName, CA_NAME@),
        (DnField::CountryName, COUNTRY@),
    ]);
    p
}

/// The profile of the certificate issued for the site `host`.
pub fn server_profile(host: &str) -> (p: CertificateProfile)
    ensures
        is_server_profile(p, host@),
{
    let names = vec![host.to_string()];
    let dn = vec![
        dn_entry(DnField::CommonName, host),
        dn_entry(DnField::OrganizationName, SERVER_ORGANIZATION),
        dn_entry(DnField::CountryName, COUNTRY),
    ];
    let p = CertificateProfile {
        subject_alt_names: names,
        is_ca: CaKind::ExplicitNoCa,
        key_usages: vec![KeyUsage::DigitalSignature, KeyUsage::KeyEncipherment],
        extended_key_usages: vec![ExtendedKeyUsage::ServerAuth, ExtendedKeyUsage::ClientAuth],
        distinguished_name: dn,
        validity_secs: VALIDITY_DAYS * 24 * 60 * 60,
        use_authority_key_identifier: true,
    };
    assert(views(p.subject_alt_names@) =~= seq![host@]);
    assert(dn_view(p.distinguished_name@) =~= seq![
        (DnField::CommonName, host@),
        (DnField::OrganizationName, SERVER_ORGANIZATION@),
        (DnField::CountryName, COUNTRY@),
    ]);
    p
}

/// Where the authority's certificate comes from.
#[derive(Clone, Copy, Debug, PartialEq, Eq, Structural)]
pub enum CaSource {
    /// Both files are there: load them.
    LoadExisting,
    /// Generate a new authority and save it.
    GenerateNew,
}

/// The authority is loaded when both its certificate and its key are on
/// disk, and generated anew otherwise.
pub fn ca_source(cert_exists: bool, key_exists: bool) -> (s: CaSource)
    ensures
        s == (if cert_exists && key_exists { CaSource::LoadExisting } else { CaSource::GenerateNew }),
{
    if cert_exists && key_exists {
        CaSource::LoadExisting
    } else {
        CaSource::GenerateNew
    }
}

#[verifier::external_type_specification]
#[verifier::external_body]
pub struct ExCertificateParams(rcgen::CertificateParams);

#[verifier::external_type_specification]
#[verifier::external_body]
pub struct ExRcgenError(rcgen::Error);

#[verifier::external_type_specification]
#[verifier::external_body]
pub struct ExKeyPair(rcgen::KeyPair);

#[verifier::external_type_specification]
#[verifier::external_body]
pub struct ExCertificate(rcgen::Certificate);

#[verifier::external_type_specification]
#[verifier::external_body]
pub struct ExSystemTime(std::time::SystemTime);

/// The last second (9999-12-31 23:59:59 UTC, as seconds since 1970) that
/// the `time` crate, which holds rcgen's dates, can represent.
pub const LATEST_VALIDITY_SECS: u64 = 253402300799;

/// What certificate parameters say, as far as this library writes them.
#[verifier::ext_equal]
pub struct ParamsModel {
    /// The subject alternative names.
    pub names: Seq<Seq<char>>,
    /// `None` while rcgen's default (no basic constraints) stands.
    pub is_ca: Option<CaKind>,
    pub key_usages: Seq<KeyUsage>,
    pub extended_key_usages: Seq<ExtendedKeyUsage>,
    /// The subject's distinguished name: its entries of the kinds in
    /// `DnField`, in order, each with its text.
    pub distinguished_name: Seq<(DnField, Seq<char>)>,
    /// Start and end of validity in seconds since 1970; `None` while
    /// rcgen's default dates stand.
    pub validity: Option<(u64, u64)>,
    pub authority_key_identifier: bool,
}

/// What `CertificateParams::new` gives for `names`: rcgen's defaults, whose
/// distinguished name is the common name "rcgen self signed cert".
pub open spec fn default_model(names: Seq<Seq<char>>) -> ParamsModel {
    ParamsModel {
        names,
        is_ca: None,
        key_usages: seq![],
        extended_key_usages: seq![],
        distinguished_name: seq![(DnField::CommonName, "rcgen self signed cert"@)],
        validity: None,
        authority_key_identifier: false,
    }
}

/// A distinguished name after `DistinguishedName::push`: the value of an
/// entry of that kind is replaced in place, or a new entry is appended.
pub open spec fn dn_push(
    dn: Seq<(DnField, Seq<char>)>,
    field: DnField,
    value: Seq<char>,
) -> Seq<(DnField, Seq<char>)> {
    if exists|i: int| 0 <= i < dn.len() && dn[i].0 == field {
        let i = choose|i: int| 0 <= i < dn.len() && dn[i].0 == field;
        dn.update(i, (field, value))
    } else {
        dn.push((field, value))
    }
}

/// The distinguished name made by pushing `entries` in turn onto an empty
/// one.
pub open spec fn dn_fill(entries: Seq<(DnField, Seq<char>)>) -> Seq<(DnField, Seq<char>)>
    decreases entries.len(),
{
    if entries.len() == 0 {
        seq![]
    } else {
        dn_push(dn_fill(entries.drop_last()), entries.last().0, entries.last().1)
    }
}

/// The parameters `old` after `apply_profile` wrote `profile` into them
/// with a validity starting at `start`.
pub open spec fn applied(old: ParamsModel, profile: CertificateProfile, start: u64) -> ParamsModel {
    ParamsModel {
        names: old.names,
        is_ca: Some(profile.is_ca),
        key_usages: old.key_usages + profile.key_usages@,
        extended_key_usages: old.extended_key_usages + profile.extended_key_usages@,
        distinguished_name: dn_fill(dn_view(profile.distinguished_name@)),
        validity: Some((start, (start + profile.validity_secs) as u64)),
        authority_key_identifier: profile.use_authority_key_identifier,
    }
}

/// Certificate parameters of rcgen, with what this library wrote into them.
pub struct CertParams {
    inner: rcgen::CertificateParams,
    model: Ghost<ParamsModel>,
}

impl CertParams {
    pub closed spec fn model(&self) -> ParamsModel {
        self.model@
    }
}

/// A key pair made here: generated, or read from a PEM text. Such keys are
/// always local (never rcgen's remote keys), so they can be serialized.
pub struct LocalKey {
    key: rcgen::KeyPair,
    der: Ghost<Seq<u8>>,
}

impl LocalKey {
    /// The key in PKCS#8 DER form, which identifies it.
    pub closed spec fn der(&self) -> Seq<u8> {
        self.der@
    }
}

/// A certificate rcgen made, with its DER bytes, the parameters it was made
/// from, the key it certifies, and the key and name it was signed with.
pub struct IssuedCert {
    cert: rcgen::Certificate,
    der: Ghost<Seq<u8>>,
    params: Ghost<ParamsModel>,
    subject_key: Ghost<Seq<u8>>,
    issuer_key: Ghost<Seq<u8>>,
    issuer_name: Ghost<Seq<(DnField, Seq<char>)>>,
}

impl IssuedCert {
    /// The certificate in DER form, as `Certificate::der` gives it.
    pub closed spec fn der(&self) -> Seq<u8> {
        self.der@
    }

    pub closed spec fn params(&self) -> ParamsModel {
        self.params@
    }

    pub closed spec fn subject_key(&self) -> Seq<u8> {
        self.subject_key@
    }

    pub closed spec fn issuer_key(&self) -> Seq<u8> {
        self.issuer_key@
    }

    pub closed spec fn issuer_name(&self) -> Seq<(DnField, Seq<char>)> {
        self.issuer_name@
    }
}

/// Calls `rcgen::CertificateParams::new`. Claimed, as its source shows:
/// each name becomes an IP address or, failing that, a DNS name, which
/// must be ASCII; so the call succeeds exactly when every name is ASCII,
/// and the other parameters are rcgen's defaults (`default_model`).
#[verifier::external_body]
fn new_params(names: Vec<String>) -> (r: Result<CertParams, rcgen::Error>)
    ensures
        r is Ok <==> forall|i: int| 0 <= i < names@.len() ==> is_ascii_chars(#[trigger] names@[i]@),
        r matches Ok(p) ==> p.model() == default_model(views(names@)),
{
    rcgen::CertificateParams::new(names).map(|inner| CertParams { inner, model: Ghost(arbitrary()) })
}

/// Why a certificate could not be made or loaded.
#[derive(Clone, Copy, Debug, PartialEq, Eq, Structural)]
pub enum CertError {
    /// A name is not ASCII, so it cannot stand in a certificate.
    InvalidName,
    /// The clock reads before 1970, or the end of the validity is past what
    /// can be represented.
    Validity,
    /// Signing the certificate failed.
    Signing,
    /// The stored certificate could not be parsed.
    InvalidCertificate,
    /// The key text could not be parsed.
    InvalidKey,
}

/// The parameters `rcgen` starts from for a certificate with this profile:
/// its names are set, the rest comes from `apply_profile`.
pub fn certificate_params(profile: &CertificateProfile) -> (r: Result<CertParams, CertError>)
    ensures
        r is Ok <==> forall|i: int|
            0 <= i < profile.subject_alt_names@.len() ==> is_ascii_chars(
                #[trigger] profile.subject_alt_names@[i]@,
            ),
        r matches Err(e) ==> e == CertError::InvalidName,
        r matches Ok(p) ==> p.model() == default_model(views(profile.subject_alt_names@)),
{
    match new_params(copy_strings(&profile.subject_alt_names)) {
        Ok(params) => Ok(params),
        Err(_) => Err(CertError::InvalidName),
    }
}

/// Writes `is_ca` of the parameters from `kind`: `Ca(Unconstrained)` or
/// `ExplicitNoCa`. Claimed: only that entry of the model changes.
#[verifier::external_body]
fn set_is_ca(params: &mut CertParams, kind: CaKind)
    ensures
        final(params).model() == (ParamsModel { is_ca: Some(kind), ..old(params).model() }),
{
    params.inner.is_ca = match kind {
        CaKind::Unconstrained => rcgen::IsCa::Ca(rcgen::BasicConstraints::Unconstrained),
        CaKind::ExplicitNoCa => rcgen::IsCa::ExplicitNoCa,
    };
}

/// Appends `usage` to `key_usages` of the parameters. Claimed: only that
/// entry of the model changes, by the push.
#[verifier::external_body]
fn add_key_usage(params: &mut CertParams, usage: KeyUsage)
    ensures
        final(params).model() == (ParamsModel {
            key_usages: old(params).model().key_usages.push(usage),
            ..old(params).model()
        }),
{
    params.inner.key_usages.push(
        match usage {
            KeyUsage::KeyCertSign => rcgen::KeyUsagePurpose::KeyCertSign,
            KeyUsage::CrlSign => rcgen::KeyUsagePurpose::CrlSign,
            KeyUsage::DigitalSignature => rcgen::KeyUsagePurpose::DigitalSignature,
            KeyUsage::KeyEncipherment => rcgen::KeyUsagePurpose::KeyEncipherment,
        },
    );
}

/// Appends `usage` to `extended_key_usages` of the parameters. Claimed:
/// only that entry of the model changes, by the push.
#[verifier::external_body]
fn add_extended_key_usage(params: &mut CertParams, usage: ExtendedKeyUsage)
    ensures
        final(params).model() == (ParamsModel {
            extended_key_usages: old(params).model().extended_key_usages.push(usage),
            ..old(params).model()
        }),
{
    params.inner.extended_key_usages.push(
        match usage {
            ExtendedKeyUsage::ServerAuth => rcgen::ExtendedKeyUsagePurpose::ServerAuth,
            ExtendedKeyUsage::ClientAuth => rcgen::ExtendedKeyUsagePurpose::ClientAuth,
        },
    );
}

/// Writes a new, empty `rcgen::DistinguishedName` (from
/// `DistinguishedName::new`) into the parameters. Claimed: the model's
/// distinguished name becomes empty, nothing else changes.
#[verifier::external_body]
fn clear_distinguished_name(params: &mut CertParams)
    ensures
        final(params).model() == (ParamsModel { distinguished_name: seq![], ..old(params).model() }),
{
    params.inner.distinguished_name = rcgen::DistinguishedName::new();
}

/// Calls `DistinguishedName::push` on the parameters' distinguished name.
/// Claimed, as its source shows: an entry of the same kind has its value
/// replaced in place, otherwise the entry is appended (`dn_push`).
#[verifier::external_body]
fn push_dn_entry(params: &mut CertParams, field: DnField, value: &str)
    ensures
        final(params).model() == (ParamsModel {
            distinguished_name: dn_push(old(params).model().distinguished_name, field, value@),
            ..old(params).model()
        }),
{
    let ty = match field {
        DnField::OrganizationName => rcgen::DnType::OrganizationName,
        DnField::CommonName => rcgen::DnType::CommonName,
        DnField::CountryName => rcgen::DnType::CountryName,
    };
    params.inner.distinguished_name.push(ty, value);
}

/// Writes `use_authority_key_identifier_extension` of the parameters.
/// Claimed: only that entry of the model changes.
#[verifier::external_body]
fn set_authority_key_identifier(params: &mut CertParams, on: bool)
    ensures
        final(params).model() == (ParamsModel { authority_key_identifier: on, ..old(params).model() }),
{
    params.inner.use_authority_key_identifier_extension = on;
}

/// Calls `std::time::SystemTime::now`. Nothing is claimed of the time.
#[verifier::external_body]
fn system_now() -> std::time::SystemTime {
    std::time::SystemTime::now()
}

/// Calls `SystemTime::duration_since` with `UNIX_EPOCH` and gives the whole
/// seconds. Nothing is claimed: the time is opaque here. The result is
/// `None` for a time before 1970.
#[verifier::external_body]
fn seconds_since_epoch(time: &std::time::SystemTime) -> Option<u64> {
    time.duration_since(std::time::UNIX_EPOCH).ok().map(|d| d.as_secs())
}

/// Writes `not_before` and `not_after` of the parameters as the given
/// seconds since 1970, converted through `SystemTime` and
/// `From<SystemTime> for time::OffsetDateTime`. That conversion panics past
/// the year 9999, which the bound rules out. Claimed: only the model's
/// validity changes.
#[verifier::external_body]
fn set_validity(params: &mut CertParams, start: u64, end: u64)
    requires
        start <= end <= LATEST_VALIDITY_SECS,
    ensures
        final(params).model() == (ParamsModel { validity: Some((start, end)), ..old(params).model() }),
{
    params.inner.not_before = (std::time::UNIX_EPOCH + std::time::Duration::from_secs(start)).into();
    params.inner.not_after = (std::time::UNIX_EPOCH + std::time::Duration::from_secs(end)).into();
}

/// Calls `CertificateParams::self_signed`. The signature is randomized, so
/// nothing is claimed of when signing fails, nor of the DER bytes. Claimed,
/// as its source shows: the certificate is made from these parameters (its
/// subject is their distinguished name), certifies `key`, and is signed
/// with `key` under the parameters' own distinguished name.
#[verifier::external_body]
fn self_sign(params: CertParams, key: &LocalKey) -> (r: Result<IssuedCert, rcgen::Error>)
    ensures
        r matches Ok(c) ==> c.params() == params.model() && c.subject_key() == key.der()
            && c.issuer_key() == key.der() && c.issuer_name() == params.model().distinguished_name,
{
    params.inner.self_signed(&key.key).map(
        |cert|
            IssuedCert {
                cert,
                der: Ghost(arbitrary()),
                params: Ghost(arbitrary()),
                subject_key: Ghost(arbitrary()),
                issuer_key: Ghost(arbitrary()),
                issuer_name: Ghost(arbitrary()),
            },
    )
}

/// Calls `CertificateParams::signed_by`. The signature is randomized, so
/// nothing is claimed of when signing fails, nor of the DER bytes. Claimed,
/// as its source shows: the certificate is made from these parameters (its
/// subject is their distinguished name), certifies `key`, and is signed
/// with `issuer_key` under the issuer's distinguished name.
#[verifier::external_body]
fn sign_with(
    params: CertParams,
    key: &LocalKey,
    issuer: &IssuedCert,
    issuer_key: &LocalKey,
) -> (r: Result<IssuedCert, rcgen::Error>)
    ensures
        r matches Ok(c) ==> c.params() == params.model() && c.subject_key() == key.der()
            && c.issuer_key() == issuer_key.der() && c.issuer_name()
            == issuer.params().distinguished_name,
{
    params.inner.signed_by(&key.key, &issuer.cert, &issuer_key.key).map(
        |cert|
            IssuedCert {
                cert,
                der: Ghost(arbitrary()),
                params: Ghost(arbitrary()),
                subject_key: Ghost(arbitrary()),
                issuer_key: Ghost(arbitrary()),
                issuer_name: Ghost(arbitrary()),
            },
    )
}

/// What `CertificateParams::from_ca_cert_pem` of `rcgen` reads from `pem`
/// (the first PEM block, parsed by `x509-parser` as a DER certificate),
/// taken as a `ParamsModel`; `None` where it fails.
pub uninterp spec fn pem_ca_params(pem: Seq<char>) -> Option<ParamsModel>;

/// Calls `CertificateParams::from_ca_cert_pem`. Claimed: what it gives is
/// a function of the text alone (`pem_ca_params`), since parsing reads
/// nothing but its argument and the entries it does not read are rcgen's
/// fixed defaults.
#[verifier::external_body]
fn ca_params_from_pem(pem: &str) -> (r: Result<CertParams, rcgen::Error>)
    ensures
        r is Ok <==> pem_ca_params(pem@) is Some,
        r matches Ok(p) ==> pem_ca_params(pem@) == Some(p.model()),
{
    rcgen::CertificateParams::from_ca_cert_pem(pem).map(|inner| CertParams { inner, model: Ghost(arbitrary()) })
}

/// The bytes that the first PEM block of `pem` holds, as `pem::parse`
/// reads them.
pub uninterp spec fn pem_contents(pem: Seq<char>) -> Seq<u8>;

/// Calls `KeyPair::from_pem`. Claimed, as its source shows: the key it
/// reads is the one whose PKCS#8 DER the PEM block holds (it keeps those
/// bytes as its serialization). When it fails is not claimed: ring draws
/// random bytes while loading the key.
#[verifier::external_body]
fn key_from_pem(pem: &str) -> (r: Result<LocalKey, rcgen::Error>)
    ensures
        r matches Ok(k) ==> k.der() == pem_contents(pem@),
{
    rcgen::KeyPair::from_pem(pem).map(|key| LocalKey { key, der: Ghost(arbitrary()) })
}

/// Whether `text` is one PEM block labelled `label`, as the `pem` crate
/// writes it: it starts with the `-----BEGIN label-----` line and ends with
/// the `-----END label-----` line and its line ending (`\n`, or `\r\n` on
/// Windows).
pub open spec fn pem_framed(text: Seq<char>, label: Seq<char>) -> bool {
    let begin = "-----BEGIN "@ + label + "-----"@;
    let end = "-----END "@ + label + "-----"@;
    &&& starts_with(text, begin)
    &&& (ends_with(text, end + "\n"@) || ends_with(text, end + "\r\n"@))
}

/// Calls `Certificate::pem`. Claimed, as rcgen's and the `pem` crate's
/// source show (`pem::encode_config` with the tag "CERTIFICATE"): the text
/// is one PEM block, framed by the BEGIN and END lines, holding the
/// certificate's DER bytes; and where `from_ca_cert_pem` reads it back, it
/// reads the subject that rcgen wrote (`write_distinguished_name` and
/// `DistinguishedName::from_name` keep each entry's kind, text and place).
#[verifier::external_body]
fn certificate_pem(cert: &IssuedCert) -> (r: String)
    ensures
        pem_framed(r@, "CERTIFICATE"@),
        pem_contents(r@) == cert.der(),
        pem_ca_params(r@) matches Some(m) ==> m.distinguished_name == cert.params().distinguished_name,
{
    cert.cert.pem()
}

/// Calls `KeyPair::serialize_pem`, which panics only for remote keys; a
/// `LocalKey` never holds one. Claimed, as rcgen's and the `pem` crate's
/// source show: the text is one PEM block labelled PRIVATE KEY holding the
/// key's PKCS#8 DER.
#[verifier::external_body]
fn key_pem(key: &LocalKey) -> (r: String)
    ensures
        pem_framed(r@, "PRIVATE KEY"@),
        pem_contents(r@) == key.der(),
{
    key.key.serialize_pem()
}

/// A certificate together with its key pair.
pub struct CertifiedKey {
    cert: IssuedCert,
    key_pair: LocalKey,
}

impl CertifiedKey {
    /// The parameters the certificate was made from.
    pub closed spec fn cert_params(&self) -> ParamsModel {
        self.cert.params()
    }

    /// The key the certificate certifies.
    pub closed spec fn subject_key(&self) -> Seq<u8> {
        self.cert.subject_key()
    }

    /// The key the certificate was signed with.
    pub closed spec fn issuer_key(&self) -> Seq<u8> {
        self.cert.issuer_key()
    }

    /// The name the certificate was signed under.
    pub closed spec fn issuer_name(&self) -> Seq<(DnField, Seq<char>)> {
        self.cert.issuer_name()
    }

    /// The certificate in DER form.
    pub closed spec fn cert_der(&self) -> Seq<u8> {
        self.cert.der()
    }

    /// The key pair held with the certificate.
    pub closed spec fn key_der(&self) -> Seq<u8> {
        self.key_pair.der()
    }

    /// The certificate in PEM form: one block labelled CERTIFICATE, holding
    /// this certificate, whose subject is read back where it parses.
    pub fn cert_pem(&self) -> (text: String)
        ensures
            pem_framed(text@, "CERTIFICATE"@),
            pem_contents(text@) == self.cert_der(),
            pem_ca_params(text@) matches Some(m) ==> m.distinguished_name
                == self.cert_params().distinguished_name,
    {
        certificate_pem(&self.cert)
    }

    /// The private key in PEM form: one block labelled PRIVATE KEY, holding
    /// this key.
    pub fn key_pem(&self) -> (text: String)
        ensures
            pem_framed(text@, "PRIVATE KEY"@),
            pem_contents(text@) == self.key_der(),
    {
        key_pem(&self.key_pair)
    }
}

/// Whether the certificate holder is signed with its own key under its own
/// name.
pub open spec fn self_signed_by_own_key(ck: CertifiedKey) -> bool {
    &&& ck.subject_key() == ck.key_der()
    &&& ck.issuer_key() == ck.key_der()
    &&& ck.issuer_name() == ck.cert_params().distinguished_name
}

/// The validity of a certificate issued at `now` (whole seconds since
/// 1970, `None` for a clock that reads before 1970) and valid for `secs`
/// seconds: from `now` to `now + secs`. It must end by
/// `LATEST_VALIDITY_SECS`, the last second that can be written.
pub fn validity_window(now: Option<u64>, secs: u64) -> (r: Result<(u64, u64), CertError>)
    ensures
        r is Ok <==> (now matches Some(start) && start + secs <= LATEST_VALIDITY_SECS),
        r matches Ok(w) ==> now == Some(w.0) && w.1 == w.0 + secs,
        r matches Err(e) ==> e == CertError::Validity,
{
    match now {
        Some(start) => {
            if start <= LATEST_VALIDITY_SECS && secs <= LATEST_VALIDITY_SECS - start {
                Ok((start, start + secs))
            } else {
                Err(CertError::Validity)
            }
        },
        None => Err(CertError::Validity),
    }
}

/// The current reading of the clock in whole seconds since 1970, `None`
/// when it reads before 1970. Nothing is known of the reading.
fn clock_seconds() -> Option<u64> {
    let now = system_now();
    seconds_since_epoch(&now)
}

/// Writes every part of `profile` but its names (set by
/// `certificate_params`) into the parameters, with the validity that
/// `validity_window` gives for `now` and the profile's length. Gives the
/// start of that validity. Where there is no such validity, nothing is
/// written.
pub fn apply_profile(params: &mut CertParams, profile: &CertificateProfile, now: Option<u64>) -> (r: Result<u64, CertError>)
    ensures
        r is Ok <==> (now matches Some(start) && start + profile.validity_secs <= LATEST_VALIDITY_SECS),
        r matches Ok(start) ==> now == Some(start) && final(params).model() == applied(
            old(params).model(),
            *profile,
            start,
        ),
        r matches Err(e) ==> e == CertError::Validity && final(params).model() == old(params).model(),
{
    let (start, end) = match validity_window(now, profile.validity_secs) {
        Ok(w) => w,
        Err(e) => return Err(e),
    };
    let ghost old_model = params.model();
    set_is_ca(params, profile.is_ca);
    let mut i: usize = 0;
    while i < profile.key_usages.len()
        invariant
            i <= profile.key_usages@.len(),
            params.model() == (ParamsModel {
                is_ca: Some(profile.is_ca),
                key_usages: old_model.key_usages + profile.key_usages@.take(i as int),
                ..old_model
            }),
        decreases profile.key_usages@.len() - i,
    {
        add_key_usage(params, profile.key_usages[i]);
        assert(profile.key_usages@.take(i as int + 1) =~= profile.key_usages@.take(i as int).push(
            profile.key_usages@[i as int],
        ));
        assert(old_model.key_usages + profile.key_usages@.take(i as int + 1) =~= (old_model.key_usages
            + profile.key_usages@.take(i as int)).push(profile.key_usages@[i as int]));
        i = i + 1;
    }
    assert(profile.key_usages@.take(i as int) =~= profile.key_usages@);
    let ghost mid_model = params.model();
    let mut j: usize = 0;
    while j < profile.extended_key_usages.len()
        invariant
            j <= profile.extended_key_usages@.len(),
            params.model() == (ParamsModel {
                extended_key_usages: mid_model.extended_key_usages
                    + profile.extended_key_usages@.take(j as int),
                ..mid_model
            }),
        decreases profile.extended_key_usages@.len() - j,
    {
        add_extended_key_usage(params, profile.extended_key_usages[j]);
        assert(profile.extended_key_usages@.take(j as int + 1) =~= profile.extended_key_usages@.take(
            j as int,
        ).push(profile.extended_key_usages@[j as int]));
        assert(mid_model.extended_key_usages + profile.extended_key_usages@.take(j as int + 1)
            =~= (mid_model.extended_key_usages + profile.extended_key_usages@.take(j as int)).push(
            profile.extended_key_usages@[j as int],
        ));
        j = j + 1;
    }
    assert(profile.extended_key_usages@.take(j as int) =~= profile.extended_key_usages@);
    set_validity(params, start, end);
    clear_distinguished_name(params);
    let ghost dn_entries = dn_view(profile.distinguished_name@);
    let ghost before_dn = params.model();
    let mut k: usize = 0;
    assert(dn_entries.take(0) =~= Seq::<(DnField, Seq<char>)>::empty());
    while k < profile.distinguished_name.len()
        invariant
            k <= profile.distinguished_name@.len(),
            dn_entries == dn_view(profile.distinguished_name@),
            params.model() == (ParamsModel {
                distinguished_name: dn_fill(dn_entries.take(k as int)),
                ..before_dn
            }),
        decreases profile.distinguished_name@.len() - k,
    {
        let entry = &profile.distinguished_name[k];
        push_dn_entry(params, entry.field, entry.value.as_str());
        assert(dn_entries.take(k as int + 1).drop_last() =~= dn_entries.take(k as int));
        assert(dn_entries[k as int] == (entry.field, entry.value@));
        k = k + 1;
    }
    assert(dn_entries.take(k as int) =~= dn_entries);
    set_authority_key_identifier(params, profile.use_authority_key_identifier);
    assert(params.model() =~= applied(old_model, *profile, start));
    Ok(start)
}

/// What the authority's own certificate is made from, given the start of
/// its validity.
pub open spec fn is_ca_params(m: ParamsModel) -> bool {
    &&& m.names == seq![CA_NAME@]
    &&& m.is_ca == Some(CaKind::Unconstrained)
    &&& m.key_usages == seq![KeyUsage::KeyCertSign, KeyUsage::CrlSign]
    &&& m.extended_key_usages == Seq::<ExtendedKeyUsage>::empty()
    &&& m.distinguished_name == seq![
        (DnField::OrganizationName, CA_NAME@),
        (DnField::CommonName, CA_NAME@),
        (DnField::CountryName, COUNTRY@),
    ]
    &&& m.validity matches Some((start, end)) && end == start + validity_secs()
    &&& !m.authority_key_identifier
}

/// What the certificate for the site `host` is made from.
pub open spec fn is_server_params(m: ParamsModel, host: Seq<char>) -> bool {
    &&& m.names == seq![host]
    &&& m.is_ca == Some(CaKind::ExplicitNoCa)
    &&& m.key_usages == seq![KeyUsage::DigitalSignature, KeyUsage::KeyEncipherment]
    &&& m.extended_key_usages == seq![ExtendedKeyUsage::ServerAuth, ExtendedKeyUsage::ClientAuth]
    &&& m.distinguished_name == seq![
        (DnField::CommonName, host),
        (DnField::OrganizationName, SERVER_ORGANIZATION@),
        (DnField::CountryName, COUNTRY@),
    ]
    &&& m.validity matches Some((start, end)) && end == start + validity_secs()
    &&& m.authority_key_identifier
}

proof fn lemma_dn_fill_three(
    a: (DnField, Seq<char>),
    b: (DnField, Seq<char>),
    c: (DnField, Seq<char>),
)
    requires
        a.0 != b.0,
        a.0 != c.0,
        b.0 != c.0,
    ensures
        dn_fill(seq![a, b, c]) == seq![a, b, c],
{
    let s = seq![a, b, c];
    assert(s.drop_last() =~= seq![a, b]);
    assert(seq![a, b].drop_last() =~= seq![a]);
    assert(seq![a].drop_last() =~= Seq::<(DnField, Seq<char>)>::empty());
    assert(dn_fill(Seq::<(DnField, Seq<char>)>::empty()) == Seq::<(DnField, Seq<char>)>::empty());
    assert(dn_fill(seq![a]) =~= seq![a]);
    assert(!(exists|i: int| 0 <= i < seq![a].len() && seq![a][i].0 == b.0));
    assert(dn_fill(seq![a, b]) =~= seq![a, b]);
    assert(!(exists|i: int| 0 <= i < seq![a, b].len() && seq![a, b][i].0 == c.0)) by {
        if exists|i: int| 0 <= i < seq![a, b].len() && seq![a, b][i].0 == c.0 {
            let i = choose|i: int| 0 <= i < seq![a, b].len() && seq![a, b][i].0 == c.0;
            assert(i == 0 || i == 1);
        }
    }
    assert(dn_fill(s) =~= s);
}

/// Whether a validity window starting at the clock reading `now` and
/// lasting `validity_secs()` can be written.
pub open spec fn window_fits(now: Option<u64>) -> bool {
    now matches Some(t) && t + validity_secs() <= LATEST_VALIDITY_SECS
}

/// A new certificate authority for the key that `key_pem` holds (PEM text
/// of a PKCS#8 key, freshly generated by the caller), issued at the clock
/// reading `now` (whole seconds since 1970, `None` before 1970): a
/// certificate made from the authority's profile, valid from exactly `now`
/// to `now` plus 3650 days, and signed with that key under the authority's
/// own name.
pub fn new_ca_certificate_at(key_pem: &str, now: Option<u64>) -> (r: Result<CertifiedKey, CertError>)
    ensures
        r matches Err(e) ==> e == CertError::InvalidKey || e == CertError::Validity || e
            == CertError::Signing,
        (r matches Err(e) && e == CertError::Validity) ==> !window_fits(now),
        !window_fits(now) ==> r is Err,
        r matches Ok(ck) ==> is_ca_params(ck.cert_params()) && self_signed_by_own_key(ck)
            && ck.key_der() == pem_contents(key_pem@),
        r matches Ok(ck) ==> (now matches Some(t) && ck.cert_params().validity == Some(
            (t, (t + 3650 * 24 * 60 * 60) as u64),
        )),
{
    let key_pair = match key_from_pem(key_pem) {
        Ok(k) => k,
        Err(_) => return Err(CertError::InvalidKey),
    };
    let profile = ca_profile();
    proof {
        reveal_strlit("GT TRAV CA");
        assert(views(profile.subject_alt_names@).len() == 1);
        assert(views(profile.subject_alt_names@)[0] == profile.subject_alt_names@[0]@);
        assert(profile.subject_alt_names@[0]@ == CA_NAME@);
        assert(is_ascii_chars(CA_NAME@));
    }
    let mut params = match certificate_params(&profile) {
        Ok(p) => p,
        Err(e) => return Err(e),
    };
    match apply_profile(&mut params, &profile, now) {
        Ok(_) => {},
        Err(e) => return Err(e),
    }
    proof {
        lemma_dn_fill_three(
            (DnField::OrganizationName, CA_NAME@),
            (DnField::CommonName, CA_NAME@),
            (DnField::CountryName, COUNTRY@),
        );
        assert(params.model().key_usages =~= seq![KeyUsage::KeyCertSign, KeyUsage::CrlSign]);
        assert(params.model().extended_key_usages =~= Seq::<ExtendedKeyUsage>::empty());
    }
    match self_sign(params, &key_pair) {
        Ok(cert) => Ok(CertifiedKey { cert, key_pair }),
        Err(_) => Err(CertError::Signing),
    }
}

/// A new certificate authority for the key that `key_pem` holds (PEM text
/// of a PKCS#8 key, freshly generated by the caller), issued now: what
/// `new_ca_certificate_at` makes at the current reading of the clock.
pub fn new_ca_certificate(key_pem: &str) -> (r: Result<CertifiedKey, CertError>)
    ensures
        r matches Err(e) ==> e == CertError::InvalidKey || e == CertError::Validity || e
            == CertError::Signing,
        r matches Ok(ck) ==> is_ca_params(ck.cert_params()) && self_signed_by_own_key(ck)
            && ck.key_der() == pem_contents(key_pem@),
        r matches Ok(ck) ==> (ck.cert_params().validity matches Some((t, e)) && e == t + 3650 * 24
            * 60 * 60),
{
    new_ca_certificate_at(key_pem, clock_seconds())
}

/// The stored authority: its parameters are read from `cert_pem`, its key
/// from `key_pem`, and the certificate is signed again with that key under
/// the stored name. A certificate that does not parse is reported as such,
/// before the key is looked at. A key text that does not parse is reported
/// as `InvalidKey` rather than ending the program; a caller for which the
/// stored key must parse stops there.
pub fn load_ca_certificate(cert_pem: &str, key_pem: &str) -> (r: Result<CertifiedKey, CertError>)
    ensures
        (r matches Err(e) && e == CertError::InvalidCertificate) <==> pem_ca_params(cert_pem@) is None,
        r matches Err(e) ==> e == CertError::InvalidCertificate || e == CertError::InvalidKey || e
            == CertError::Signing,
        r matches Ok(ck) ==> pem_ca_params(cert_pem@) == Some(ck.cert_params()) && ck.key_der()
            == pem_contents(key_pem@) && self_signed_by_own_key(ck),
{
    let params = match ca_params_from_pem(cert_pem) {
        Ok(p) => p,
        Err(_) => return Err(CertError::InvalidCertificate),
    };
    let key_pair = match key_from_pem(key_pem) {
        Ok(k) => k,
        Err(_) => return Err(CertError::InvalidKey),
    };
    match self_sign(params, &key_pair) {
        Ok(cert) => Ok(CertifiedKey { cert, key_pair }),
        Err(_) => Err(CertError::Signing),
    }
}

/// Reloading a saved authority gives back the same authority. Let
/// `cert_text` and `key_text` be what `cert_pem` and `key_pem` wrote for
/// `saved`, and `loaded` what `load_ca_certificate` made of them. Then
/// `loaded` holds the same key, its certificate certifies that key, and it
/// names the same subject, under which the certificates it issues are
/// signed.
pub proof fn lemma_reload_same_authority(
    saved: CertifiedKey,
    cert_text: Seq<char>,
    key_text: Seq<char>,
    loaded: CertifiedKey,
)
    requires
        pem_ca_params(cert_text) matches Some(m) ==> m.distinguished_name
            == saved.cert_params().distinguished_name,
        pem_contents(key_text) == saved.key_der(),
        pem_ca_params(cert_text) == Some(loaded.cert_params()),
        loaded.key_der() == pem_contents(key_text),
        self_signed_by_own_key(loaded),
    ensures
        loaded.key_der() == saved.key_der(),
        loaded.subject_key() == saved.key_der(),
        loaded.cert_params().distinguished_name == saved.cert_params().distinguished_name,
        loaded.issuer_name() == saved.cert_params().distinguished_name,
{
}

/// A certificate for the site `host`, for the key that `key_pem` holds
/// (freshly generated by the caller), signed by the authority `ca` and
/// issued at the clock reading `now` (whole seconds since 1970, `None`
/// before 1970): a certificate made from the site's profile, valid from
/// exactly `now` to `now` plus 3650 days, and signed with the authority's
/// key under the authority's name. A host that is not ASCII cannot be named
/// in a certificate; that is checked first.
pub fn generate_signed_cert_at(ca: &CertifiedKey, host: String, key_pem: &str, now: Option<u64>) -> (r: Result<CertifiedKey, CertError>)
    ensures
        (r matches Err(e) && e == CertError::InvalidName) <==> !is_ascii_chars(host@),
        r matches Err(e) ==> e == CertError::InvalidName || e == CertError::InvalidKey || e
            == CertError::Validity || e == CertError::Signing,
        (r matches Err(e) && e == CertError::Validity) ==> !window_fits(now),
        !window_fits(now) ==> r is Err,
        r matches Ok(ck) ==> is_server_params(ck.cert_params(), host@) && ck.subject_key()
            == ck.key_der() && ck.key_der() == pem_contents(key_pem@) && ck.issuer_key()
            == ca.key_der() && ck.issuer_name() == ca.cert_params().distinguished_name,
        r matches Ok(ck) ==> (now matches Some(t) && ck.cert_params().validity == Some(
            (t, (t + 3650 * 24 * 60 * 60) as u64),
        )),
{
    let profile = server_profile(host.as_str());
    assert(profile.subject_alt_names@.len() == 1 && profile.subject_alt_names@[0]@ == host@) by {
        assert(views(profile.subject_alt_names@).len() == 1);
        assert(views(profile.subject_alt_names@)[0] == profile.subject_alt_names@[0]@);
    }
    let mut params = match certificate_params(&profile) {
        Ok(p) => p,
        Err(e) => return Err(e),
    };
    let key_pair = match key_from_pem(key_pem) {
        Ok(k) => k,
        Err(_) => return Err(CertError::InvalidKey),
    };
    match apply_profile(&mut params, &profile, now) {
        Ok(_) => {},
        Err(e) => return Err(e),
    }
    proof {
        reveal_strlit("GT TRAV Server");
        reveal_strlit("CN");
        lemma_dn_fill_three(
            (DnField::CommonName, host@),
            (DnField::OrganizationName, SERVER_ORGANIZATION@),
            (DnField::CountryName, COUNTRY@),
        );
        assert(params.model().names =~= seq![host@]);
        assert(params.model().key_usages =~= seq![KeyUsage::DigitalSignature, KeyUsage::KeyEncipherment]);
        assert(params.model().extended_key_usages =~= seq![ExtendedKeyUsage::ServerAuth, ExtendedKeyUsage::ClientAuth]);
    }
    match sign_with(params, &key_pair, &ca.cert, &ca.key_pair) {
        Ok(cert) => Ok(CertifiedKey { cert, key_pair }),
        Err(_) => Err(CertError::Signing),
    }
}


/// A certificate for the site `host`, for the key that `key_pem` holds
/// (freshly generated by the caller), signed by the authority `ca` and
/// issued now: what `generate_signed_cert_at` makes at the current reading
/// of the clock.
pub fn generate_signed_cert(ca: &CertifiedKey, host: String, key_pem: &str) -> (r: Result<CertifiedKey, CertError>)
    ensures
        (r matches Err(e) && e == CertError::InvalidName) <==> !is_ascii_chars(host@),
        r matches Err(e) ==> e == CertError::InvalidName || e == CertError::InvalidKey || e
            == CertError::Validity || e == CertError::Signing,
        r matches Ok(ck) ==> is_server_params(ck.cert_params(), host@) && ck.subject_key()
            == ck.key_der() && ck.key_der() == pem_contents(key_pem@) && ck.issuer_key()
            == ca.key_der() && ck.issuer_name() == ca.cert_params().distinguished_name,
        r matches Ok(ck) ==> (ck.cert_params().validity matches Some((t, e)) && e == t + 3650 * 24
            * 60 * 60),
{
    generate_signed_cert_at(ca, host, key_pem, clock_seconds())
}

/// The operating systems the authority can be installed on.
#[derive(Clone, Copy, Debug, PartialEq, Eq, Structural)]
pub enum Platform {
    Windows,
    Linux,
    MacOs,
}

/// A command to run, and what to report when it fails.
pub struct CommandSpec {
    pub program: String,
    pub args: Vec<String>,
    /// The start of the error reported when the command fails.
    pub failure: String,
}

/// A command as texts.
pub open spec fn command_view(c: CommandSpec) -> (Seq<char>, Seq<Seq<char>>, Seq<char>) {
    (c.program@, views(c.args@), c.failure@)
}

/// A list of commands as texts.
pub open spec fn commands_view(cs: Seq<CommandSpec>) -> Seq<(Seq<char>, Seq<Seq<char>>, Seq<char>)> {
    cs.map_values(|c: CommandSpec| command_view(c))
}

fn command(program: &str, args: Vec<String>, failure: &str) -> (c: CommandSpec)
    ensures
        c.program@ == program@,
        c.args == args,
        c.failure@ == failure@,
{
    CommandSpec { program: program.to_string(), args, failure: failure.to_string() }
}

fn strings2(a: &str, b: &str) -> (v: Vec<String>)
    ensures
        views(v@) == seq![a@, b@],
{
    let v = vec![a.to_string(), b.to_string()];
    assert(views(v@) =~= seq![a@, b@]);
    v
}

fn strings3(a: &str, b: &str, c: &str) -> (v: Vec<String>)
    ensures
        views(v@) == seq![a@, b@, c@],
{
    let v = vec![a.to_string(), b.to_string(), c.to_string()];
    assert(views(v@) =~= seq![a@, b@, c@]);
    v
}

fn strings4(a: &str, b: &str, c: &str, d: &str) -> (v: Vec<String>)
    ensures
        views(v@) == seq![a@, b@, c@, d@],
{
    let v = vec![a.to_string(), b.to_string(), c.to_string(), d.to_string()];
    assert(views(v@) =~= seq![a@, b@, c@, d@]);
    v
}

/// The message reported when installing fails on Windows or macOS.
pub const INSTALL_FAILED: &'static str = "安装证书失败";
/// The message reported when copying the certificate fails on Linux.
pub const COPY_FAILED: &'static str = "复制证书失败";
/// The message reported when refreshing the store fails on Linux.
pub const UPDATE_FAILED: &'static str = "更新证书存储失败";
/// The message reported when uninstalling fails on Windows or macOS.
pub const UNINSTALL_FAILED: &'static str = "卸载证书失败";
/// The message reported when removing the certificate fails on Linux.
pub const DELETE_FAILED: &'static str = "删除证书失败";
/// The message reported when there is no certificate to install.
pub const MISSING_CERTIFICATE: &'static str = "证书文件不存在";
/// What `certutil` prints when the store holds no such certificate.
pub const NOT_FOUND_MARK: &'static str = "未找到证书";

/// The commands that install the certificate at `cert_path`, in order.
pub open spec fn install_plan(platform: Platform, cert_path: Seq<char>) -> Seq<(Seq<char>, Seq<Seq<char>>, Seq<char>)> {
    match platform {
        Platform::Windows => seq![
            ("certutil"@, seq!["-addstore"@, "-f"@, "ROOT"@, cert_path], INSTALL_FAILED@),
        ],
        Platform::Linux => seq![
            ("sudo"@, seq!["cp"@, cert_path, LINUX_CA_PATH@], COPY_FAILED@),
            ("sudo"@, seq!["update-ca-certificates"@], UPDATE_FAILED@),
        ],
        Platform::MacOs => seq![
            (
                "security"@,
                seq![
                    "add-trusted-cert"@,
                    "-d"@,
                    "-r"@,
                    "trustRoot"@,
                    "-k"@,
                    "/Library/Keychains/System.keychain"@,
                    cert_path,
                ],
                INSTALL_FAILED@,
            ),
        ],
    }
}

/// The commands that remove the authority, in order.
pub open spec fn uninstall_plan(platform: Platform) -> Seq<(Seq<char>, Seq<Seq<char>>, Seq<char>)> {
    match platform {
        Platform::Windows => seq![
            ("certutil"@, seq!["-delstore"@, "ROOT"@, CA_NAME@], UNINSTALL_FAILED@),
        ],
        Platform::Linux => seq![
            ("sudo"@, seq!["rm"@, LINUX_CA_PATH@], DELETE_FAILED@),
            ("sudo"@, seq!["update-ca-certificates"@], UPDATE_FAILED@),
        ],
        Platform::MacOs => seq![
            ("security"@, seq!["delete-certificate"@, "-c"@, CA_NAME@], UNINSTALL_FAILED@),
        ],
    }
}

/// On Linux one file stands for the installed authority: installing copies
/// the certificate to it, uninstalling removes it, and the authority counts
/// as installed exactly when it exists (`installed_check`,
/// `is_installed_from`).
pub proof fn lemma_linux_install_file(cert_path: Seq<char>)
    ensures
        install_plan(Platform::Linux, cert_path)[0].1 == seq!["cp"@, cert_path, LINUX_CA_PATH@],
        uninstall_plan(Platform::Linux)[0].1 == seq!["rm"@, LINUX_CA_PATH@],
{
}

/// On Linux both plans run every command through `sudo`, and both end by
/// refreshing the store with `update-ca-certificates` right after the one
/// change to `LINUX_CA_PATH`: installing first copies the certificate
/// there, uninstalling first removes it.
pub proof fn lemma_linux_plans_elevated_then_refresh(cert_path: Seq<char>)
    ensures
        install_plan(Platform::Linux, cert_path).len() == 2,
        uninstall_plan(Platform::Linux).len() == 2,
        forall|k: int|
            0 <= k < install_plan(Platform::Linux, cert_path).len() ==> (#[trigger] install_plan(
                Platform::Linux,
                cert_path,
            )[k]).0 == "sudo"@,
        forall|k: int|
            0 <= k < uninstall_plan(Platform::Linux).len() ==> (#[trigger] uninstall_plan(
                Platform::Linux,
            )[k]).0 == "sudo"@,
        install_plan(Platform::Linux, cert_path)[0].1 == seq!["cp"@, cert_path, LINUX_CA_PATH@],
        uninstall_plan(Platform::Linux)[0].1 == seq!["rm"@, LINUX_CA_PATH@],
        install_plan(Platform::Linux, cert_path)[1].1 == seq!["update-ca-certificates"@],
        uninstall_plan(Platform::Linux)[1].1 == seq!["update-ca-certificates"@],
{
}

/// The commands that install the certificate at `cert_path`; each is run
/// in turn and the first that fails ends the installation with its error.
pub fn install_commands(platform: Platform, cert_path: &str) -> (cs: Vec<CommandSpec>)
    ensures
        commands_view(cs@) == install_plan(platform, cert_path@),
        platform == Platform::Linux ==> cs@.len() == 2 && (forall|k: int|
            0 <= k < cs@.len() ==> (#[trigger] cs@[k]).program@ == "sudo"@) && views(cs@[0].args@)
            == seq!["cp"@, cert_path@, LINUX_CA_PATH@] && views(cs@[1].args@)
            == seq!["update-ca-certificates"@],
{
    let cs = match platform {
        Platform::Windows => {
            vec![command("certutil", strings4("-addstore", "-f", "ROOT", cert_path), INSTALL_FAILED)]
        },
        Platform::Linux => {
            vec![
                command("sudo", strings3("cp", cert_path, LINUX_CA_PATH), COPY_FAILED),
                command("sudo", vec!["update-ca-certificates".to_string()], UPDATE_FAILED),
            ]
        },
        Platform::MacOs => {
            let mut args = strings4("add-trusted-cert", "-d", "-r", "trustRoot");
            let tail = strings3("-k", "/Library/Keychains/System.keychain", cert_path);
            let ghost head = views(args@);
            let ghost rest = views(tail@);
            let mut i: usize = 0;
            while i < tail.len()
                invariant
                    i <= tail@.len(),
                    rest == views(tail@),
                    views(args@) == head + rest.take(i as int),
                decreases tail@.len() - i,
            {
                let ghost before = views(args@);
                args.push(tail[i].clone());
                assert(rest.take(i as int + 1) =~= rest.take(i as int).push(rest[i as int]));
                assert(views(args@) =~= before.push(tail@[i as int]@));
                i = i + 1;
            }
            assert(rest.take(3) =~= rest);
            vec![command("security", args, INSTALL_FAILED)]
        },
    };
    assert(commands_view(cs@) =~= install_plan(platform, cert_path@)) by {
        match platform {
            Platform::Windows => {},
            Platform::Linux => {
                assert(views(cs@[1].args@) =~= seq!["update-ca-certificates"@]);
            },
            Platform::MacOs => {
                assert(views(cs@[0].args@) =~= seq![
                    "add-trusted-cert"@,
                    "-d"@,
                    "-r"@,
                    "trustRoot"@,
                    "-k"@,
                    "/Library/Keychains/System.keychain"@,
                    cert_path@,
                ]);
            },
        }
    }
    cs
}

/// The commands that remove the authority; each is run in turn and the
/// first that fails ends the removal with its error.
pub fn uninstall_commands(platform: Platform) -> (cs: Vec<CommandSpec>)
    ensures
        commands_view(cs@) == uninstall_plan(platform),
        platform == Platform::Linux ==> cs@.len() == 2 && (forall|k: int|
            0 <= k < cs@.len() ==> (#[trigger] cs@[k]).program@ == "sudo"@) && views(cs@[0].args@)
            == seq!["rm"@, LINUX_CA_PATH@] && views(cs@[1].args@)
            == seq!["update-ca-certificates"@],
{
    let cs = match platform {
        Platform::Windows => {
            vec![command("certutil", strings3("-delstore", "ROOT", CA_NAME), UNINSTALL_FAILED)]
        },
        Platform::Linux => {
            vec![
                command("sudo", strings2("rm", LINUX_CA_PATH), DELETE_FAILED),
                command("sudo", vec!["update-ca-certificates".to_string()], UPDATE_FAILED),
            ]
        },
        Platform::MacOs => {
            vec![command("security", strings3("delete-certificate", "-c", CA_NAME), UNINSTALL_FAILED)]
        },
    };
    assert(commands_view(cs@) =~= uninstall_plan(platform)) by {
        if platform == Platform::Linux {
            assert(views(cs@[1].args@) =~= seq!["update-ca-certificates"@]);
        }
    }
    cs
}

/// How to tell whether the authority is installed.
pub enum InstalledCheck {
    /// Run the command and read its output.
    Run(CommandSpec),
    /// See whether this file exists.
    FileExists(String),
}

/// How to tell, on `platform`, whether the authority is installed.
pub fn installed_check(platform: Platform) -> (c: InstalledCheck)
    ensures
        match c {
            InstalledCheck::Run(cmd) => (platform == Platform::Windows && cmd.program@ == "certutil"@
                && views(cmd.args@) == seq!["-store"@, "ROOT"@, CA_NAME@]) || (platform
                == Platform::MacOs && cmd.program@ == "security"@ && views(cmd.args@) == seq![
                "find-certificate"@,
                "-c"@,
                CA_NAME@,
                "-a"@,
            ]),
            InstalledCheck::FileExists(path) => platform == Platform::Linux && path@
                == LINUX_CA_PATH@,
        },
{
    match platform {
        Platform::Windows => InstalledCheck::Run(
            command("certutil", strings3("-store", "ROOT", CA_NAME), INSTALL_FAILED),
        ),
        Platform::Linux => InstalledCheck::FileExists(LINUX_CA_PATH.to_string()),
        Platform::MacOs => InstalledCheck::Run(
            command("security", strings4("find-certificate", "-c", CA_NAME, "-a"), INSTALL_FAILED),
        ),
    }
}

/// Whether the authority is installed, from what the check found: on
/// Windows, whether the output of `certutil` does not say that nothing was
/// found; on Linux, whether the file exists; on macOS, whether the command
/// succeeded.
pub fn is_installed_from(platform: Platform, stdout: &str, succeeded: bool, file_exists: bool) -> (installed: bool)
    ensures
        installed == match platform {
            Platform::Windows => !contains_text(stdout@, NOT_FOUND_MARK@),
            Platform::Linux => file_exists,
            Platform::MacOs => succeeded,
        },
{
    match platform {
        Platform::Windows => !find_text(stdout, NOT_FOUND_MARK),
        Platform::Linux => file_exists,
        Platform::MacOs => succeeded,
    }
}

/// The error reported for a failed command: its message, a colon, a space
/// and what the command wrote to its error stream.
pub fn failure_message(failure: &str, stderr: &str) -> (m: String)
    ensures
        m@ == failure@ + ": "@ + stderr@,
{
    let mut m = failure.to_string();
    m.append(": ");
    m.append(stderr);
    m
}

/// What to do next while running a list of commands.
#[derive(Debug)]
pub enum PlanStep {
    /// Run the command at this index.
    Run(usize),
    /// Every command succeeded.
    Done,
    /// A command failed; this is the error to report.
    Failed(String),
}

/// The first step of running `plan`.
pub fn first_step(plan: &Vec<CommandSpec>) -> (step: PlanStep)
    ensures
        plan@.len() > 0 ==> step == PlanStep::Run(0),
        plan@.len() == 0 ==> step is Done,
{
    if plan.len() > 0 {
        PlanStep::Run(0)
    } else {
        PlanStep::Done
    }
}

/// The step after the command at `ran` finished: its failure ends the run
/// with its message and what it wrote to its error stream; its success
/// moves on to the next command, or ends the run when it was the last.
pub fn next_step(plan: &Vec<CommandSpec>, ran: usize, succeeded: bool, stderr: &str) -> (step: PlanStep)
    requires
        ran < plan@.len(),
    ensures
        !succeeded ==> (step matches PlanStep::Failed(m) && m@ == plan@[ran as int].failure@
            + ": "@ + stderr@),
        succeeded && ran + 1 < plan@.len() ==> step == PlanStep::Run((ran + 1) as usize),
        succeeded && ran + 1 == plan@.len() ==> step is Done,
{
    if !succeeded {
        PlanStep::Failed(failure_message(plan[ran].failure.as_str(), stderr))
    } else if ran < plan.len() - 1 {
        PlanStep::Run(ran + 1)
    } else {
        PlanStep::Done
    }
}

} // verus!
