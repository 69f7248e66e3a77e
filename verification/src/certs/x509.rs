//! Trusted boundary around the OpenSSL X.509 machinery.
//!
//! Every X.509 object that runs through the certificate builders is opaque to
//! the verifier, so each one gets a mathematical model: a distinguished name
//! is a sequence of (attribute tag, value) pairs, an extension is a tuple of
//! (kind, criticality, flag bits, alternative names), and a certificate under
//! construction is a record of the fields set so far. The functions in this
//! module are `external_body` wrappers, one per OpenSSL operation (plus the
//! short conversion chains OpenSSL forces, such as drawing a serial through
//! `BigNum`); their contracts state, over those models, exactly what the
//! wrapped call does to the structure being built.

use vstd::prelude::*;
use openssl::error::ErrorStack;
use openssl::pkey::PKey;
use openssl::pkey::Private;
use openssl::rsa::Rsa;
use openssl::x509::X509;
use openssl::x509::X509Builder;
use openssl::x509::X509Extension;
use openssl::x509::X509Name;
use openssl::x509::X509NameBuilder;
use openssl::x509::X509Req;
use openssl::x509::X509ReqBuilder;
use openssl::x509::extension::SubjectAlternativeName;

verus! {

// ---------------------------------------------------------------------------
// Declared OpenSSL types. Each is opaque: the verifier carries values of
// these types through, and learns about them only what the wrappers below
// state over the model functions.
// ---------------------------------------------------------------------------

#[verifier::external_type_specification]
#[verifier::external_body]
pub struct ExErrorStack(ErrorStack);

#[verifier::external_type_specification]
#[verifier::external_body]
pub struct ExPrivate(Private);

#[verifier::external_type_specification]
#[verifier::external_body]
#[verifier::reject_recursive_types(T)]
pub struct ExRsa<T>(Rsa<T>);

#[verifier::external_type_specification]
#[verifier::external_body]
#[verifier::reject_recursive_types(T)]
pub struct ExPKey<T>(PKey<T>);

#[verifier::external_type_specification]
#[verifier::external_body]
pub struct ExX509Name(X509Name);

#[verifier::external_type_specification]
#[verifier::external_body]
pub struct ExX509NameBuilder(X509NameBuilder);

#[verifier::external_type_specification]
#[verifier::external_body]
pub struct ExX509Req(X509Req);

#[verifier::external_type_specification]
#[verifier::external_body]
pub struct ExX509ReqBuilder(X509ReqBuilder);

#[verifier::external_type_specification]
#[verifier::external_body]
pub struct ExX509(X509);

#[verifier::external_type_specification]
#[verifier::external_body]
pub struct ExX509Builder(X509Builder);

#[verifier::external_type_specification]
#[verifier::external_body]
pub struct ExX509Extension(X509Extension);

#[verifier::external_type_specification]
#[verifier::external_body]
pub struct ExSubjectAlternativeName(SubjectAlternativeName);

/// An owned stack of X.509 extensions, as handed to a certificate request.
/// The verifier refuses a declaration of openssl's own `Stack` type (its
/// element bound is a trait of that crate), so the stack lives in a hidden
/// field here and is spoken of only through `stack_ext_items`.
#[verifier::external_body]
pub struct ExtensionStack {
    inner: openssl::stack::Stack<X509Extension>,
}

// ---------------------------------------------------------------------------
// Attribute tags. The values mirror OpenSSL's numeric identifiers for the
// five name attributes this library writes, so that the model of a name reads
// the same as OpenSSL's own view of it.
// ---------------------------------------------------------------------------

/// Tag of the commonName attribute.
pub open spec fn nid_common_name() -> int {
    13
}

/// Tag of the countryName attribute.
pub open spec fn nid_country_name() -> int {
    14
}

/// Tag of the organizationName attribute.
pub open spec fn nid_organization_name() -> int {
    17
}

/// Tag of the organizationalUnitName attribute.
pub open spec fn nid_organizational_unit() -> int {
    18
}

/// Tag of the description attribute.
pub open spec fn nid_description() -> int {
    107
}

// ---------------------------------------------------------------------------
// Extension models. An extension is modelled as the tuple
// (kind, critical, bits, names): `kind` says which extension it is, `bits`
// carries the extension's flags (key-usage bits, the CA flag, the context
// flags of the key identifiers), and `names` carries the alternative names
// of a subjectAltName extension, each as (is_ip, value).
// ---------------------------------------------------------------------------

/// Kind code of a basicConstraints extension.
pub open spec fn ext_kind_basic_constraints() -> int {
    1
}

/// Kind code of a keyUsage extension.
pub open spec fn ext_kind_key_usage() -> int {
    2
}

/// Kind code of a subjectKeyIdentifier extension.
pub open spec fn ext_kind_subject_key_id() -> int {
    3
}

/// Kind code of an authorityKeyIdentifier extension.
pub open spec fn ext_kind_authority_key_id() -> int {
    4
}

/// Kind code of a subjectAltName extension.
pub open spec fn ext_kind_subject_alt_name() -> int {
    5
}

/// Key-usage flag: digitalSignature.
pub open spec fn ku_digital_signature() -> int {
    1
}

/// Key-usage flag: nonRepudiation.
pub open spec fn ku_non_repudiation() -> int {
    2
}

/// Key-usage flag: keyEncipherment.
pub open spec fn ku_key_encipherment() -> int {
    4
}

/// Key-usage flag: keyCertSign.
pub open spec fn ku_key_cert_sign() -> int {
    8
}

/// Key-usage flag: cRLSign.
pub open spec fn ku_crl_sign() -> int {
    16
}

/// A basicConstraints extension with the given CA flag and criticality.
pub open spec fn ext_basic_constraints(ca: bool, critical: bool) -> (
    int,
    bool,
    int,
    Seq<(bool, Seq<char>)>,
) {
    (ext_kind_basic_constraints(), critical, if ca { 1int } else { 0int }, Seq::empty())
}

/// A keyUsage extension with the given usage bits and criticality.
pub open spec fn ext_key_usage(bits: int, critical: bool) -> (
    int,
    bool,
    int,
    Seq<(bool, Seq<char>)>,
) {
    (ext_kind_key_usage(), critical, bits, Seq::empty())
}

/// A non-critical subjectKeyIdentifier extension; `issuer_aware` says whether
/// it was computed in a context that references an issuer certificate.
pub open spec fn ext_subject_key_id(issuer_aware: bool) -> (
    int,
    bool,
    int,
    Seq<(bool, Seq<char>)>,
) {
    (ext_kind_subject_key_id(), false, if issuer_aware { 1int } else { 0int }, Seq::empty())
}

/// A non-critical authorityKeyIdentifier extension built with both the
/// key-identifier and issuer-name population flags in their non-mandatory
/// form: each is copied from the issuer when available, not required.
pub open spec fn ext_authority_key_id_minimal() -> (int, bool, int, Seq<(bool, Seq<char>)>) {
    (ext_kind_authority_key_id(), false, 0, Seq::empty())
}

/// A non-critical subjectAltName extension holding the given entries, each
/// (is_ip, value).
pub open spec fn ext_subject_alt_name(names: Seq<(bool, Seq<char>)>) -> (
    int,
    bool,
    int,
    Seq<(bool, Seq<char>)>,
) {
    (ext_kind_subject_alt_name(), false, 0, names)
}

// ---------------------------------------------------------------------------
// Model functions over the opaque types.
// ---------------------------------------------------------------------------

/// The (tag, value) entries accumulated in a name builder, in order.
pub uninterp spec fn name_builder_entries(b: X509NameBuilder) -> Seq<(int, Seq<char>)>;

/// The (tag, value) entries of a finished name, in order.
pub uninterp spec fn name_entries(n: X509Name) -> Seq<(int, Seq<char>)>;

/// The (is_ip, value) entries accumulated in a subjectAltName builder.
pub uninterp spec fn san_items(s: SubjectAlternativeName) -> Seq<(bool, Seq<char>)>;

/// The model of a finished X.509 extension object.
pub uninterp spec fn ext_item(e: X509Extension) -> (int, bool, int, Seq<(bool, Seq<char>)>);

/// The version field of a certificate request under construction.
pub uninterp spec fn req_builder_version(b: X509ReqBuilder) -> int;

/// The subject name of a certificate request under construction.
pub uninterp spec fn req_builder_subject(b: X509ReqBuilder) -> Seq<(int, Seq<char>)>;

/// The extensions of a certificate request under construction, in order.
pub uninterp spec fn req_builder_exts(b: X509ReqBuilder) -> Seq<
    (int, bool, int, Seq<(bool, Seq<char>)>),
>;

/// The version field of a finished certificate request.
pub uninterp spec fn req_version(r: X509Req) -> int;

/// The subject name of a finished certificate request.
pub uninterp spec fn req_subject(r: X509Req) -> Seq<(int, Seq<char>)>;

/// The extensions of a finished certificate request, in order.
pub uninterp spec fn req_exts(r: X509Req) -> Seq<(int, bool, int, Seq<(bool, Seq<char>)>)>;

/// The PEM serialization of a certificate request. A finished request is
/// immutable and its PEM encoding is a function of the request alone, so the
/// encoding gets a name rather than a page of ASN.1.
pub uninterp spec fn pem_of_req(r: X509Req) -> Seq<u8>;

/// The version field of a certificate under construction.
pub uninterp spec fn cert_builder_version(b: X509Builder) -> int;

/// The subject name of a certificate under construction.
pub uninterp spec fn cert_builder_subject(b: X509Builder) -> Seq<(int, Seq<char>)>;

/// The issuer name of a certificate under construction.
pub uninterp spec fn cert_builder_issuer(b: X509Builder) -> Seq<(int, Seq<char>)>;

/// The bit width the serial number was randomly drawn with, once set.
pub uninterp spec fn cert_builder_serial_bits(b: X509Builder) -> Option<int>;

/// The notBefore instant as an offset in days from the moment it was set.
pub uninterp spec fn cert_builder_not_before_days(b: X509Builder) -> Option<int>;

/// The notAfter instant as an offset in days from the moment it was set.
pub uninterp spec fn cert_builder_not_after_days(b: X509Builder) -> Option<int>;

/// The extensions of a certificate under construction, in order.
pub uninterp spec fn cert_builder_exts(b: X509Builder) -> Seq<
    (int, bool, int, Seq<(bool, Seq<char>)>),
>;

/// The version field of a finished certificate.
pub uninterp spec fn cert_version(c: X509) -> int;

/// The subject name of a finished certificate.
pub uninterp spec fn cert_subject(c: X509) -> Seq<(int, Seq<char>)>;

/// The issuer name of a finished certificate.
pub uninterp spec fn cert_issuer(c: X509) -> Seq<(int, Seq<char>)>;

/// The bit width the serial number of a finished certificate was drawn with.
pub uninterp spec fn cert_serial_bits(c: X509) -> Option<int>;

/// The notBefore instant of a finished certificate, as a day offset.
pub uninterp spec fn cert_not_before_days(c: X509) -> Option<int>;

/// The notAfter instant of a finished certificate, as a day offset.
pub uninterp spec fn cert_not_after_days(c: X509) -> Option<int>;

/// The extensions of a finished certificate, in order.
pub uninterp spec fn cert_exts(c: X509) -> Seq<(int, bool, int, Seq<(bool, Seq<char>)>)>;

/// Whether a key pair is a 2048-bit RSA key.
pub uninterp spec fn rsa_is_2048(k: Rsa<Private>) -> bool;

/// Whether a general-purpose key wraps a 2048-bit RSA key.
pub uninterp spec fn pkey_is_rsa_2048(k: PKey<Private>) -> bool;

/// A label for a key pair: two keys carry one label exactly when they are
/// the same key value. Contracts use it to say which key a structure is
/// bound to or signed with, without writing key material into a model.
pub uninterp spec fn key_id(k: PKey<Private>) -> int;

/// The label of the key whose public half the request under construction is
/// bound to, once one was set.
pub uninterp spec fn req_builder_pubkey(b: X509ReqBuilder) -> Option<int>;

/// The label of the key the request under construction was last signed
/// with, once a signature was made.
pub uninterp spec fn req_builder_signed_with(b: X509ReqBuilder) -> Option<int>;

/// The label of the key whose public half a finished request is bound to.
pub uninterp spec fn req_pubkey(r: X509Req) -> Option<int>;

/// The label of the key a finished request was signed with.
pub uninterp spec fn req_signed_with(r: X509Req) -> Option<int>;

/// The label of the key whose public half the certificate under
/// construction is bound to, once one was set.
pub uninterp spec fn cert_builder_pubkey(b: X509Builder) -> Option<int>;

/// The label of the key the certificate under construction was last signed
/// with, once a signature was made.
pub uninterp spec fn cert_builder_signed_with(b: X509Builder) -> Option<int>;

/// The label of the key whose public half a finished certificate carries.
pub uninterp spec fn cert_pubkey(c: X509) -> Option<int>;

/// The label of the key a finished certificate was signed with.
pub uninterp spec fn cert_signed_with(c: X509) -> Option<int>;

/// The most characters a string handed to one of the bindings below may
/// hold. The bindings measure byte lengths against the C `int` length type
/// (`append_entry_by_nid` asserts it, the general-name constructor unwraps a
/// conversion into it), and a character spends at most four UTF-8 bytes, so
/// this many characters keep every byte length within `i32::MAX`.
pub open spec fn c_length_limit() -> int {
    0x1FFFFFFF
}

/// The most characters one distinguished-name attribute value may hold:
/// generous against the standard's own attribute bounds (a common name is
/// capped at 64 bytes), and small enough that a whole name stays a few
/// kibibytes.
pub open spec fn dn_attribute_limit() -> int {
    4096
}

// ---------------------------------------------------------------------------
// Key generation.
// ---------------------------------------------------------------------------

/// Relies on openssl's `Rsa::generate`: generates a fresh RSA private key of
/// the requested width, here fixed to 2048 bits.
#[verifier::external_body]
pub(crate) fn rsa_generate_2048() -> (r: Result<Rsa<Private>, ErrorStack>)
    ensures
        r is Ok ==> rsa_is_2048(r->Ok_0),
{
    Rsa::generate(2048)
}

/// Relies on openssl's `PKey::from_rsa`: wraps an RSA key in a
/// general-purpose key without altering it.
#[verifier::external_body]
pub(crate) fn pkey_from_rsa_private(rsa: Rsa<Private>) -> (r: Result<PKey<Private>, ErrorStack>)
    ensures
        r is Ok && rsa_is_2048(rsa) ==> pkey_is_rsa_2048(r->Ok_0),
{
    PKey::from_rsa(rsa)
}

// ---------------------------------------------------------------------------
// Name building.
// ---------------------------------------------------------------------------

/// Relies on openssl's `X509Name::builder` (`X509_NAME_new`): a fresh name
/// holds no entries.
#[verifier::external_body]
pub(crate) fn name_builder_new() -> (r: Result<X509NameBuilder, ErrorStack>)
    ensures
        r is Ok ==> name_builder_entries(r->Ok_0) == Seq::<(int, Seq<char>)>::empty(),
{
    X509Name::builder()
}

/// Relies on openssl's `X509NameBuilder::append_entry_by_nid`
/// (`X509_NAME_add_entry_by_NID`): on success the commonName entry is
/// appended after the existing entries. The binding asserts that the
/// value's byte length fits the C length type before calling, so callers
/// must stay within `c_length_limit`.
#[verifier::external_body]
pub(crate) fn name_append_common_name(b: &mut X509NameBuilder, value: &str) -> (r: Result<
    (),
    ErrorStack,
>)
    requires
        value@.len() <= c_length_limit(),
    ensures
        r is Ok ==> name_builder_entries(*final(b)) == name_builder_entries(*old(b)).push(
            (nid_common_name(), value@),
        ),
{
    b.append_entry_by_nid(openssl::nid::Nid::COMMONNAME, value)
}

/// Relies on openssl's `X509NameBuilder::append_entry_by_nid`: on success the
/// countryName entry is appended after the existing entries. The binding
/// asserts that the value's byte length fits the C length type before
/// calling, so callers must stay within `c_length_limit`.
#[verifier::external_body]
pub(crate) fn name_append_country(b: &mut X509NameBuilder, value: &str) -> (r: Result<
    (),
    ErrorStack,
>)
    requires
        value@.len() <= c_length_limit(),
    ensures
        r is Ok ==> name_builder_entries(*final(b)) == name_builder_entries(*old(b)).push(
            (nid_country_name(), value@),
        ),
{
    b.append_entry_by_nid(openssl::nid::Nid::COUNTRYNAME, value)
}

/// Relies on openssl's `X509NameBuilder::append_entry_by_nid`: on success the
/// organizationName entry is appended after the existing entries. The binding
/// asserts that the value's byte length fits the C length type before
/// calling, so callers must stay within `c_length_limit`.
#[verifier::external_body]
pub(crate) fn name_append_organization(b: &mut X509NameBuilder, value: &str) -> (r: Result<
    (),
    ErrorStack,
>)
    requires
        value@.len() <= c_length_limit(),
    ensures
        r is Ok ==> name_builder_entries(*final(b)) == name_builder_entries(*old(b)).push(
            (nid_organization_name(), value@),
        ),
{
    b.append_entry_by_nid(openssl::nid::Nid::ORGANIZATIONNAME, value)
}

/// Relies on openssl's `X509NameBuilder::append_entry_by_nid`: on success the
/// organizationalUnitName entry is appended after the existing entries. The binding
/// asserts that the value's byte length fits the C length type before
/// calling, so callers must stay within `c_length_limit`.
#[verifier::external_body]
pub(crate) fn name_append_org_unit(b: &mut X509NameBuilder, value: &str) -> (r: Result<
    (),
    ErrorStack,
>)
    requires
        value@.len() <= c_length_limit(),
    ensures
        r is Ok ==> name_builder_entries(*final(b)) == name_builder_entries(*old(b)).push(
            (nid_organizational_unit(), value@),
        ),
{
    b.append_entry_by_nid(openssl::nid::Nid::ORGANIZATIONALUNITNAME, value)
}

/// Relies on openssl's `X509NameBuilder::append_entry_by_nid`: on success the
/// description entry is appended after the existing entries. The binding
/// asserts that the value's byte length fits the C length type before
/// calling, so callers must stay within `c_length_limit`.
#[verifier::external_body]
pub(crate) fn name_append_description(b: &mut X509NameBuilder, value: &str) -> (r: Result<
    (),
    ErrorStack,
>)
    requires
        value@.len() <= c_length_limit(),
    ensures
        r is Ok ==> name_builder_entries(*final(b)) == name_builder_entries(*old(b)).push(
            (nid_description(), value@),
        ),
{
    b.append_entry_by_nid(openssl::nid::Nid::DESCRIPTION, value)
}

/// Relies on openssl's `X509NameBuilder::build`: finishing a name keeps its
/// entries. The binding's body re-encodes the finished name through DER and
/// re-parses it, unwrapping both conversions; the bounds below keep the
/// whole name a few kibibytes, minute against the sizes the name encoder
/// and parser handle, so the round-trip does not fail.
#[verifier::external_body]
pub(crate) fn name_build(b: X509NameBuilder) -> (n: X509Name)
    requires
        name_builder_entries(b).len() <= 8,
        forall|j: int|
            0 <= j < name_builder_entries(b).len() ==> (
            #[trigger] name_builder_entries(b)[j]).1.len() <= dn_attribute_limit(),
    ensures
        name_entries(n) == name_builder_entries(b),
{
    b.build()
}

// ---------------------------------------------------------------------------
// subjectAltName assembly.
// ---------------------------------------------------------------------------

/// Relies on openssl's `SubjectAlternativeName::new`: a fresh builder holds
/// no entries.
#[verifier::external_body]
pub(crate) fn san_new() -> (s: SubjectAlternativeName)
    ensures
        san_items(s) == Seq::<(bool, Seq<char>)>::empty(),
{
    SubjectAlternativeName::new()
}

/// Relies on openssl's `SubjectAlternativeName::dns`: appends a DNS-name
/// entry after the existing entries.
#[verifier::external_body]
pub(crate) fn san_push_dns(s: &mut SubjectAlternativeName, name: &str)
    ensures
        san_items(*final(s)) == san_items(*old(s)).push((false, name@)),
{
    s.dns(name);
}

/// Relies on openssl's `SubjectAlternativeName::ip`: appends an IP-address
/// entry after the existing entries.
#[verifier::external_body]
pub(crate) fn san_push_ip(s: &mut SubjectAlternativeName, name: &str)
    ensures
        san_items(*final(s)) == san_items(*old(s)).push((true, name@)),
{
    s.ip(name);
}

/// Relies on openssl's `SubjectAlternativeName::build` together with
/// `X509ReqBuilder::x509v3_context`: builds a non-critical subjectAltName
/// extension holding exactly the builder's entries. The context object only
/// carries the request being built and does not alter the entries. The
/// general-name constructor the build runs through unwraps a conversion of
/// each value's byte length into the C length type, so callers must keep
/// every entry within `c_length_limit`.
#[verifier::external_body]
pub(crate) fn san_build_for_req(s: &SubjectAlternativeName, b: &X509ReqBuilder) -> (r: Result<
    X509Extension,
    ErrorStack,
>)
    requires
        forall|j: int|
            0 <= j < san_items(*s).len() ==> (#[trigger] san_items(*s)[j]).1.len()
                <= c_length_limit(),
    ensures
        r is Ok ==> ext_item(r->Ok_0) == ext_subject_alt_name(san_items(*s)),
{
    s.build(&b.x509v3_context(None))
}

/// Relies on openssl's `SubjectAlternativeName::build` together with
/// `X509Builder::x509v3_context`: builds a non-critical subjectAltName
/// extension holding exactly the builder's entries, in a context that
/// references the issuer certificate. The general-name constructor the
/// build runs through unwraps a conversion of each value's byte length into
/// the C length type, so callers must keep every entry within
/// `c_length_limit`.
#[verifier::external_body]
pub(crate) fn san_build_for_cert(
    s: &SubjectAlternativeName,
    b: &X509Builder,
    issuer: &X509,
) -> (r: Result<X509Extension, ErrorStack>)
    requires
        forall|j: int|
            0 <= j < san_items(*s).len() ==> (#[trigger] san_items(*s)[j]).1.len()
                <= c_length_limit(),
    ensures
        r is Ok ==> ext_item(r->Ok_0) == ext_subject_alt_name(san_items(*s)),
{
    s.build(&b.x509v3_context(Some(issuer), None))
}

// ---------------------------------------------------------------------------
// The fixed extensions.
// ---------------------------------------------------------------------------

/// Relies on openssl's `KeyUsage` builder: a keyUsage extension, not
/// critical, with exactly the digitalSignature and keyEncipherment bits set.
#[verifier::external_body]
pub(crate) fn build_key_usage_for_request() -> (r: Result<X509Extension, ErrorStack>)
    ensures
        r is Ok ==> ext_item(r->Ok_0) == ext_key_usage(
            ku_digital_signature() + ku_key_encipherment(),
            false,
        ),
{
    openssl::x509::extension::KeyUsage::new().digital_signature().key_encipherment().build()
}

/// Relies on openssl's `KeyUsage` builder: a critical keyUsage extension
/// with exactly the keyCertSign and cRLSign bits set.
#[verifier::external_body]
pub(crate) fn build_key_usage_for_ca() -> (r: Result<X509Extension, ErrorStack>)
    ensures
        r is Ok ==> ext_item(r->Ok_0) == ext_key_usage(
            ku_key_cert_sign() + ku_crl_sign(),
            true,
        ),
{
    openssl::x509::extension::KeyUsage::new().critical().key_cert_sign().crl_sign().build()
}

/// Relies on openssl's `KeyUsage` builder: a critical keyUsage extension
/// with exactly the nonRepudiation, digitalSignature and keyEncipherment
/// bits set.
#[verifier::external_body]
pub(crate) fn build_key_usage_for_leaf() -> (r: Result<X509Extension, ErrorStack>)
    ensures
        r is Ok ==> ext_item(r->Ok_0) == ext_key_usage(
            ku_non_repudiation() + ku_digital_signature() + ku_key_encipherment(),
            true,
        ),
{
    openssl::x509::extension::KeyUsage::new()
        .critical()
        .non_repudiation()
        .digital_signature()
        .key_encipherment()
        .build()
}

/// Relies on openssl's `BasicConstraints` builder: a critical
/// basicConstraints extension with the CA flag set.
#[verifier::external_body]
pub(crate) fn build_basic_constraints_ca() -> (r: Result<X509Extension, ErrorStack>)
    ensures
        r is Ok ==> ext_item(r->Ok_0) == ext_basic_constraints(true, true),
{
    openssl::x509::extension::BasicConstraints::new().critical().ca().build()
}

/// Relies on openssl's `BasicConstraints` builder: a non-critical
/// basicConstraints extension with the CA flag clear.
#[verifier::external_body]
pub(crate) fn build_basic_constraints_plain() -> (r: Result<X509Extension, ErrorStack>)
    ensures
        r is Ok ==> ext_item(r->Ok_0) == ext_basic_constraints(false, false),
{
    openssl::x509::extension::BasicConstraints::new().build()
}

/// Relies on openssl's `SubjectKeyIdentifier::build` together with
/// `X509Builder::x509v3_context` without an issuer: a non-critical
/// subjectKeyIdentifier derived from the certificate's own public key in
/// self-signed context.
#[verifier::external_body]
pub(crate) fn build_subject_key_id_self(b: &X509Builder) -> (r: Result<X509Extension, ErrorStack>)
    ensures
        r is Ok ==> ext_item(r->Ok_0) == ext_subject_key_id(false),
{
    openssl::x509::extension::SubjectKeyIdentifier::new().build(&b.x509v3_context(None, None))
}

/// Relies on openssl's `SubjectKeyIdentifier::build` together with
/// `X509Builder::x509v3_context` with an issuer: a non-critical
/// subjectKeyIdentifier derived from the certificate's own public key in a
/// context that references the issuer certificate.
#[verifier::external_body]
pub(crate) fn build_subject_key_id_issuer(b: &X509Builder, issuer: &X509) -> (r: Result<
    X509Extension,
    ErrorStack,
>)
    ensures
        r is Ok ==> ext_item(r->Ok_0) == ext_subject_key_id(true),
{
    openssl::x509::extension::SubjectKeyIdentifier::new().build(
        &b.x509v3_context(Some(issuer), None),
    )
}

/// Relies on openssl's `AuthorityKeyIdentifier::build` with the keyid and
/// issuer flags in their non-mandatory form: a non-critical
/// authorityKeyIdentifier whose fields are copied from the issuer
/// certificate when available rather than required.
#[verifier::external_body]
pub(crate) fn build_authority_key_id_minimal(b: &X509Builder, issuer: &X509) -> (r: Result<
    X509Extension,
    ErrorStack,
>)
    ensures
        r is Ok ==> ext_item(r->Ok_0) == ext_authority_key_id_minimal(),
{
    openssl::x509::extension::AuthorityKeyIdentifier::new().keyid(false).issuer(false).build(
        &b.x509v3_context(Some(issuer), None),
    )
}

// ---------------------------------------------------------------------------
// The extension stack of a certificate request.
// ---------------------------------------------------------------------------

/// The extensions held by a stack, in order.
pub uninterp spec fn stack_ext_items(s: ExtensionStack) -> Seq<
    (int, bool, int, Seq<(bool, Seq<char>)>),
>;

/// Relies on openssl's `Stack::new`: a fresh stack is empty.
#[verifier::external_body]
pub(crate) fn ext_stack_new() -> (r: Result<ExtensionStack, ErrorStack>)
    ensures
        r is Ok ==> stack_ext_items(r->Ok_0).len() == 0,
{
    Ok(ExtensionStack { inner: openssl::stack::Stack::new()? })
}

/// Relies on openssl's `StackRef::push`: on success the extension is
/// appended after the existing ones.
#[verifier::external_body]
pub(crate) fn ext_stack_push(s: &mut ExtensionStack, e: X509Extension) -> (r: Result<
    (),
    ErrorStack,
>)
    ensures
        r is Ok ==> stack_ext_items(*final(s)) == stack_ext_items(*old(s)).push(ext_item(e)),
{
    s.inner.push(e)
}

// ---------------------------------------------------------------------------
// Certificate request assembly.
// ---------------------------------------------------------------------------

/// Relies on openssl's `X509Req::builder` (`X509_REQ_new`): a fresh request
/// has version zero, an empty subject and no extensions.
#[verifier::external_body]
pub(crate) fn req_builder_new() -> (r: Result<X509ReqBuilder, ErrorStack>)
    ensures
        r is Ok ==> req_builder_version(r->Ok_0) == 0,
        r is Ok ==> req_builder_subject(r->Ok_0) == Seq::<(int, Seq<char>)>::empty(),
        r is Ok ==> req_builder_exts(r->Ok_0).len() == 0,
        r is Ok ==> req_builder_pubkey(r->Ok_0) is None,
        r is Ok ==> req_builder_signed_with(r->Ok_0) is None,
{
    X509Req::builder()
}

/// Relies on openssl's `X509ReqBuilder::set_version`
/// (`X509_REQ_set_version`): on success the version field holds the given
/// value and nothing else changes.
#[verifier::external_body]
pub(crate) fn req_set_version(b: &mut X509ReqBuilder, version: i32) -> (r: Result<(), ErrorStack>)
    ensures
        r is Ok ==> req_builder_version(*final(b)) == version as int,
        r is Ok ==> req_builder_subject(*final(b)) == req_builder_subject(*old(b)),
        r is Ok ==> req_builder_exts(*final(b)) == req_builder_exts(*old(b)),
        r is Ok ==> req_builder_pubkey(*final(b)) == req_builder_pubkey(*old(b)),
        r is Ok ==> req_builder_signed_with(*final(b)) == req_builder_signed_with(*old(b)),
{
    b.set_version(version)
}

/// Relies on openssl's `X509ReqBuilder::set_subject_name`
/// (`X509_REQ_set_subject_name`): on success the subject is a copy of the
/// given name and nothing else changes.
#[verifier::external_body]
pub(crate) fn req_set_subject_name(b: &mut X509ReqBuilder, name: &X509Name) -> (r: Result<
    (),
    ErrorStack,
>)
    ensures
        r is Ok ==> req_builder_subject(*final(b)) == name_entries(*name),
        r is Ok ==> req_builder_version(*final(b)) == req_builder_version(*old(b)),
        r is Ok ==> req_builder_exts(*final(b)) == req_builder_exts(*old(b)),
        r is Ok ==> req_builder_pubkey(*final(b)) == req_builder_pubkey(*old(b)),
        r is Ok ==> req_builder_signed_with(*final(b)) == req_builder_signed_with(*old(b)),
{
    b.set_subject_name(name)
}

/// Relies on openssl's `X509ReqBuilder::set_pubkey` (`X509_REQ_set_pubkey`):
/// on success the request is bound to the given key's public half; the other
/// modelled fields are untouched.
#[verifier::external_body]
pub(crate) fn req_set_pubkey(b: &mut X509ReqBuilder, key: &PKey<Private>) -> (r: Result<
    (),
    ErrorStack,
>)
    ensures
        r is Ok ==> req_builder_pubkey(*final(b)) == Some(key_id(*key)),
        r is Ok ==> req_builder_version(*final(b)) == req_builder_version(*old(b)),
        r is Ok ==> req_builder_subject(*final(b)) == req_builder_subject(*old(b)),
        r is Ok ==> req_builder_exts(*final(b)) == req_builder_exts(*old(b)),
        r is Ok ==> req_builder_signed_with(*final(b)) == req_builder_signed_with(*old(b)),
{
    b.set_pubkey(key)
}

/// Relies on openssl's `X509ReqBuilder::add_extensions`
/// (`X509_REQ_add_extensions`): on success the stack's extensions are
/// appended, in their order, after the existing ones, and nothing else
/// changes.
#[verifier::external_body]
pub(crate) fn req_add_extensions(b: &mut X509ReqBuilder, exts: &ExtensionStack) -> (r: Result<
    (),
    ErrorStack,
>)
    ensures
        r is Ok ==> req_builder_exts(*final(b)) == req_builder_exts(*old(b)) + stack_ext_items(
            *exts,
        ),
        r is Ok ==> req_builder_version(*final(b)) == req_builder_version(*old(b)),
        r is Ok ==> req_builder_subject(*final(b)) == req_builder_subject(*old(b)),
        r is Ok ==> req_builder_pubkey(*final(b)) == req_builder_pubkey(*old(b)),
        r is Ok ==> req_builder_signed_with(*final(b)) == req_builder_signed_with(*old(b)),
{
    b.add_extensions(&exts.inner)
}

/// Relies on openssl's `X509ReqBuilder::sign` (`X509_REQ_sign`) with the
/// SHA-256 digest: on success the request carries a signature made with the
/// given private key; the other modelled fields are untouched.
#[verifier::external_body]
pub(crate) fn req_sign_sha256(b: &mut X509ReqBuilder, key: &PKey<Private>) -> (r: Result<
    (),
    ErrorStack,
>)
    ensures
        r is Ok ==> req_builder_signed_with(*final(b)) == Some(key_id(*key)),
        r is Ok ==> req_builder_version(*final(b)) == req_builder_version(*old(b)),
        r is Ok ==> req_builder_subject(*final(b)) == req_builder_subject(*old(b)),
        r is Ok ==> req_builder_exts(*final(b)) == req_builder_exts(*old(b)),
        r is Ok ==> req_builder_pubkey(*final(b)) == req_builder_pubkey(*old(b)),
{
    b.sign(key, openssl::hash::MessageDigest::sha256())
}

/// Relies on openssl's `X509ReqBuilder::build`: finishing a request keeps
/// the fields that were set.
#[verifier::external_body]
pub(crate) fn req_build(b: X509ReqBuilder) -> (r: X509Req)
    ensures
        req_version(r) == req_builder_version(b),
        req_subject(r) == req_builder_subject(b),
        req_exts(r) == req_builder_exts(b),
        req_pubkey(r) == req_builder_pubkey(b),
        req_signed_with(r) == req_builder_signed_with(b),
{
    b.build()
}

/// Relies on openssl's `X509ReqRef::to_pem` (`PEM_write_bio_X509_REQ`): the
/// PEM serialization of a finished request is a function of the request
/// alone, and PEM output is 7-bit ASCII (base64 between textual header and
/// footer lines).
#[verifier::external_body]
pub(crate) fn req_to_pem(req: &X509Req) -> (r: Result<Vec<u8>, ErrorStack>)
    ensures
        r is Ok ==> r->Ok_0@ == pem_of_req(*req),
        r is Ok ==> forall|i: int| 0 <= i < r->Ok_0@.len() ==> r->Ok_0@[i] < 128,
{
    req.to_pem()
}

// ---------------------------------------------------------------------------
// Certificate assembly.
// ---------------------------------------------------------------------------

/// Relies on openssl's `X509::builder` (`X509_new`): a fresh certificate has
/// version zero, empty subject and issuer, no serial, no validity instants
/// and no extensions.
#[verifier::external_body]
pub(crate) fn cert_builder_new() -> (r: Result<X509Builder, ErrorStack>)
    ensures
        r is Ok ==> cert_builder_version(r->Ok_0) == 0,
        r is Ok ==> cert_builder_subject(r->Ok_0) == Seq::<(int, Seq<char>)>::empty(),
        r is Ok ==> cert_builder_issuer(r->Ok_0) == Seq::<(int, Seq<char>)>::empty(),
        r is Ok ==> cert_builder_serial_bits(r->Ok_0) is None,
        r is Ok ==> cert_builder_not_before_days(r->Ok_0) is None,
        r is Ok ==> cert_builder_not_after_days(r->Ok_0) is None,
        r is Ok ==> cert_builder_exts(r->Ok_0).len() == 0,
        r is Ok ==> cert_builder_pubkey(r->Ok_0) is None,
        r is Ok ==> cert_builder_signed_with(r->Ok_0) is None,
{
    X509Builder::new()
}

/// Relies on openssl's `X509Builder::set_version` (`X509_set_version`): on
/// success the version field holds the given value and nothing else changes.
#[verifier::external_body]
pub(crate) fn cert_set_version(b: &mut X509Builder, version: i32) -> (r: Result<(), ErrorStack>)
    ensures
        r is Ok ==> cert_builder_version(*final(b)) == version as int,
        r is Ok ==> cert_builder_subject(*final(b)) == cert_builder_subject(*old(b)),
        r is Ok ==> cert_builder_issuer(*final(b)) == cert_builder_issuer(*old(b)),
        r is Ok ==> cert_builder_serial_bits(*final(b)) == cert_builder_serial_bits(*old(b)),
        r is Ok ==> cert_builder_not_before_days(*final(b)) == cert_builder_not_before_days(
            *old(b),
        ),
        r is Ok ==> cert_builder_not_after_days(*final(b)) == cert_builder_not_after_days(*old(b)),
        r is Ok ==> cert_builder_exts(*final(b)) == cert_builder_exts(*old(b)),
        r is Ok ==> cert_builder_pubkey(*final(b)) == cert_builder_pubkey(*old(b)),
        r is Ok ==> cert_builder_signed_with(*final(b)) == cert_builder_signed_with(*old(b)),
{
    b.set_version(version)
}

/// Relies on openssl's `BigNum::new`, `BigNumRef::rand` with the
/// most-significant-bit policy that permits a leading zero bit,
/// `BigNumRef::to_asn1_integer` and `X509Builder::set_serial_number`: on
/// success the serial number is a fresh random integer of at most `bits`
/// bits, and nothing else changes.
#[verifier::external_body]
pub(crate) fn cert_set_random_serial(b: &mut X509Builder, bits: i32) -> (r: Result<
    (),
    ErrorStack,
>)
    ensures
        r is Ok ==> cert_builder_serial_bits(*final(b)) == Some(bits as int),
        r is Ok ==> cert_builder_version(*final(b)) == cert_builder_version(*old(b)),
        r is Ok ==> cert_builder_subject(*final(b)) == cert_builder_subject(*old(b)),
        r is Ok ==> cert_builder_issuer(*final(b)) == cert_builder_issuer(*old(b)),
        r is Ok ==> cert_builder_not_before_days(*final(b)) == cert_builder_not_before_days(
            *old(b),
        ),
        r is Ok ==> cert_builder_not_after_days(*final(b)) == cert_builder_not_after_days(*old(b)),
        r is Ok ==> cert_builder_exts(*final(b)) == cert_builder_exts(*old(b)),
        r is Ok ==> cert_builder_pubkey(*final(b)) == cert_builder_pubkey(*old(b)),
        r is Ok ==> cert_builder_signed_with(*final(b)) == cert_builder_signed_with(*old(b)),
{
    let serial = {
        let mut bn = openssl::bn::BigNum::new()?;
        bn.rand(bits, openssl::bn::MsbOption::MAYBE_ZERO, false)?;
        bn.to_asn1_integer()?
    };
    b.set_serial_number(&serial)
}

/// Relies on openssl's `X509Builder::set_subject_name`
/// (`X509_set_subject_name`): on success the subject is a copy of the given
/// name and nothing else changes.
#[verifier::external_body]
pub(crate) fn cert_set_subject_name(b: &mut X509Builder, name: &X509Name) -> (r: Result<
    (),
    ErrorStack,
>)
    ensures
        r is Ok ==> cert_builder_subject(*final(b)) == name_entries(*name),
        r is Ok ==> cert_builder_version(*final(b)) == cert_builder_version(*old(b)),
        r is Ok ==> cert_builder_issuer(*final(b)) == cert_builder_issuer(*old(b)),
        r is Ok ==> cert_builder_serial_bits(*final(b)) == cert_builder_serial_bits(*old(b)),
        r is Ok ==> cert_builder_not_before_days(*final(b)) == cert_builder_not_before_days(
            *old(b),
        ),
        r is Ok ==> cert_builder_not_after_days(*final(b)) == cert_builder_not_after_days(*old(b)),
        r is Ok ==> cert_builder_exts(*final(b)) == cert_builder_exts(*old(b)),
        r is Ok ==> cert_builder_pubkey(*final(b)) == cert_builder_pubkey(*old(b)),
        r is Ok ==> cert_builder_signed_with(*final(b)) == cert_builder_signed_with(*old(b)),
{
    b.set_subject_name(name)
}

/// Relies on openssl's `X509Builder::set_subject_name` together with
/// `X509ReqRef::subject_name` (`X509_REQ_get_subject_name`): on success the
/// subject is a copy of the request's subject and nothing else changes.
#[verifier::external_body]
pub(crate) fn cert_set_subject_from_req(b: &mut X509Builder, req: &X509Req) -> (r: Result<
    (),
    ErrorStack,
>)
    ensures
        r is Ok ==> cert_builder_subject(*final(b)) == req_subject(*req),
        r is Ok ==> cert_builder_version(*final(b)) == cert_builder_version(*old(b)),
        r is Ok ==> cert_builder_issuer(*final(b)) == cert_builder_issuer(*old(b)),
        r is Ok ==> cert_builder_serial_bits(*final(b)) == cert_builder_serial_bits(*old(b)),
        r is Ok ==> cert_builder_not_before_days(*final(b)) == cert_builder_not_before_days(
            *old(b),
        ),
        r is Ok ==> cert_builder_not_after_days(*final(b)) == cert_builder_not_after_days(*old(b)),
        r is Ok ==> cert_builder_exts(*final(b)) == cert_builder_exts(*old(b)),
        r is Ok ==> cert_builder_pubkey(*final(b)) == cert_builder_pubkey(*old(b)),
        r is Ok ==> cert_builder_signed_with(*final(b)) == cert_builder_signed_with(*old(b)),
{
    b.set_subject_name(req.subject_name())
}

/// Relies on openssl's `X509Builder::set_issuer_name`
/// (`X509_set_issuer_name`): on success the issuer is a copy of the given
/// name and nothing else changes.
#[verifier::external_body]
pub(crate) fn cert_set_issuer_name(b: &mut X509Builder, name: &X509Name) -> (r: Result<
    (),
    ErrorStack,
>)
    ensures
        r is Ok ==> cert_builder_issuer(*final(b)) == name_entries(*name),
        r is Ok ==> cert_builder_version(*final(b)) == cert_builder_version(*old(b)),
        r is Ok ==> cert_builder_subject(*final(b)) == cert_builder_subject(*old(b)),
        r is Ok ==> cert_builder_serial_bits(*final(b)) == cert_builder_serial_bits(*old(b)),
        r is Ok ==> cert_builder_not_before_days(*final(b)) == cert_builder_not_before_days(
            *old(b),
        ),
        r is Ok ==> cert_builder_not_after_days(*final(b)) == cert_builder_not_after_days(*old(b)),
        r is Ok ==> cert_builder_exts(*final(b)) == cert_builder_exts(*old(b)),
        r is Ok ==> cert_builder_pubkey(*final(b)) == cert_builder_pubkey(*old(b)),
        r is Ok ==> cert_builder_signed_with(*final(b)) == cert_builder_signed_with(*old(b)),
{
    b.set_issuer_name(name)
}

/// Relies on openssl's `X509Builder::set_issuer_name` together with
/// `X509Ref::subject_name` (`X509_get_subject_name`): on success the issuer
/// is a copy of the issuing certificate's subject and nothing else changes.
#[verifier::external_body]
pub(crate) fn cert_set_issuer_from_cert(b: &mut X509Builder, issuer: &X509) -> (r: Result<
    (),
    ErrorStack,
>)
    ensures
        r is Ok ==> cert_builder_issuer(*final(b)) == cert_subject(*issuer),
        r is Ok ==> cert_builder_version(*final(b)) == cert_builder_version(*old(b)),
        r is Ok ==> cert_builder_subject(*final(b)) == cert_builder_subject(*old(b)),
        r is Ok ==> cert_builder_serial_bits(*final(b)) == cert_builder_serial_bits(*old(b)),
        r is Ok ==> cert_builder_not_before_days(*final(b)) == cert_builder_not_before_days(
            *old(b),
        ),
        r is Ok ==> cert_builder_not_after_days(*final(b)) == cert_builder_not_after_days(*old(b)),
        r is Ok ==> cert_builder_exts(*final(b)) == cert_builder_exts(*old(b)),
        r is Ok ==> cert_builder_pubkey(*final(b)) == cert_builder_pubkey(*old(b)),
        r is Ok ==> cert_builder_signed_with(*final(b)) == cert_builder_signed_with(*old(b)),
{
    b.set_issuer_name(issuer.subject_name())
}

/// Relies on openssl's `X509Builder::set_pubkey` (`X509_set_pubkey`): on
/// success the certificate is bound to the given key's public half; the
/// other modelled fields are untouched.
#[verifier::external_body]
pub(crate) fn cert_set_pubkey(b: &mut X509Builder, key: &PKey<Private>) -> (r: Result<
    (),
    ErrorStack,
>)
    ensures
        r is Ok ==> cert_builder_pubkey(*final(b)) == Some(key_id(*key)),
        r is Ok ==> cert_builder_version(*final(b)) == cert_builder_version(*old(b)),
        r is Ok ==> cert_builder_subject(*final(b)) == cert_builder_subject(*old(b)),
        r is Ok ==> cert_builder_issuer(*final(b)) == cert_builder_issuer(*old(b)),
        r is Ok ==> cert_builder_serial_bits(*final(b)) == cert_builder_serial_bits(*old(b)),
        r is Ok ==> cert_builder_not_before_days(*final(b)) == cert_builder_not_before_days(
            *old(b),
        ),
        r is Ok ==> cert_builder_not_after_days(*final(b)) == cert_builder_not_after_days(*old(b)),
        r is Ok ==> cert_builder_exts(*final(b)) == cert_builder_exts(*old(b)),
        r is Ok ==> cert_builder_signed_with(*final(b)) == cert_builder_signed_with(*old(b)),
{
    b.set_pubkey(key)
}

/// Relies on openssl's `Asn1Time::days_from_now` and
/// `X509Builder::set_not_before` (`X509_set1_notBefore`): on success the
/// notBefore instant lies the given number of days from now, and nothing
/// else changes.
#[verifier::external_body]
pub(crate) fn cert_set_not_before_days_from_now(b: &mut X509Builder, days: u32) -> (r: Result<
    (),
    ErrorStack,
>)
    ensures
        r is Ok ==> cert_builder_not_before_days(*final(b)) == Some(days as int),
        r is Ok ==> cert_builder_version(*final(b)) == cert_builder_version(*old(b)),
        r is Ok ==> cert_builder_subject(*final(b)) == cert_builder_subject(*old(b)),
        r is Ok ==> cert_builder_issuer(*final(b)) == cert_builder_issuer(*old(b)),
        r is Ok ==> cert_builder_serial_bits(*final(b)) == cert_builder_serial_bits(*old(b)),
        r is Ok ==> cert_builder_not_after_days(*final(b)) == cert_builder_not_after_days(*old(b)),
        r is Ok ==> cert_builder_exts(*final(b)) == cert_builder_exts(*old(b)),
        r is Ok ==> cert_builder_pubkey(*final(b)) == cert_builder_pubkey(*old(b)),
        r is Ok ==> cert_builder_signed_with(*final(b)) == cert_builder_signed_with(*old(b)),
{
    let t = openssl::asn1::Asn1Time::days_from_now(days)?;
    b.set_not_before(&t)
}

/// Relies on openssl's `Asn1Time::days_from_now` and
/// `X509Builder::set_not_after` (`X509_set1_notAfter`): on success the
/// notAfter instant lies the given number of days from now, and nothing
/// else changes.
#[verifier::external_body]
pub(crate) fn cert_set_not_after_days_from_now(b: &mut X509Builder, days: u32) -> (r: Result<
    (),
    ErrorStack,
>)
    ensures
        r is Ok ==> cert_builder_not_after_days(*final(b)) == Some(days as int),
        r is Ok ==> cert_builder_version(*final(b)) == cert_builder_version(*old(b)),
        r is Ok ==> cert_builder_subject(*final(b)) == cert_builder_subject(*old(b)),
        r is Ok ==> cert_builder_issuer(*final(b)) == cert_builder_issuer(*old(b)),
        r is Ok ==> cert_builder_serial_bits(*final(b)) == cert_builder_serial_bits(*old(b)),
        r is Ok ==> cert_builder_not_before_days(*final(b)) == cert_builder_not_before_days(
            *old(b),
        ),
        r is Ok ==> cert_builder_exts(*final(b)) == cert_builder_exts(*old(b)),
        r is Ok ==> cert_builder_pubkey(*final(b)) == cert_builder_pubkey(*old(b)),
        r is Ok ==> cert_builder_signed_with(*final(b)) == cert_builder_signed_with(*old(b)),
{
    let t = openssl::asn1::Asn1Time::days_from_now(days)?;
    b.set_not_after(&t)
}

/// Relies on openssl's `X509Builder::append_extension` (`X509_add_ext`): on
/// success the extension is appended after the existing ones and nothing
/// else changes.
#[verifier::external_body]
pub(crate) fn cert_append_extension(b: &mut X509Builder, e: X509Extension) -> (r: Result<
    (),
    ErrorStack,
>)
    ensures
        r is Ok ==> cert_builder_exts(*final(b)) == cert_builder_exts(*old(b)).push(ext_item(e)),
        r is Ok ==> cert_builder_version(*final(b)) == cert_builder_version(*old(b)),
        r is Ok ==> cert_builder_subject(*final(b)) == cert_builder_subject(*old(b)),
        r is Ok ==> cert_builder_issuer(*final(b)) == cert_builder_issuer(*old(b)),
        r is Ok ==> cert_builder_serial_bits(*final(b)) == cert_builder_serial_bits(*old(b)),
        r is Ok ==> cert_builder_not_before_days(*final(b)) == cert_builder_not_before_days(
            *old(b),
        ),
        r is Ok ==> cert_builder_not_after_days(*final(b)) == cert_builder_not_after_days(*old(b)),
        r is Ok ==> cert_builder_pubkey(*final(b)) == cert_builder_pubkey(*old(b)),
        r is Ok ==> cert_builder_signed_with(*final(b)) == cert_builder_signed_with(*old(b)),
{
    b.append_extension(e)
}

/// Relies on openssl's `X509Builder::sign` (`X509_sign`) with the SHA-256
/// digest: on success the certificate carries a signature made with the
/// given private key; the other modelled fields are untouched.
#[verifier::external_body]
pub(crate) fn cert_sign_sha256(b: &mut X509Builder, key: &PKey<Private>) -> (r: Result<
    (),
    ErrorStack,
>)
    ensures
        r is Ok ==> cert_builder_signed_with(*final(b)) == Some(key_id(*key)),
        r is Ok ==> cert_builder_version(*final(b)) == cert_builder_version(*old(b)),
        r is Ok ==> cert_builder_subject(*final(b)) == cert_builder_subject(*old(b)),
        r is Ok ==> cert_builder_issuer(*final(b)) == cert_builder_issuer(*old(b)),
        r is Ok ==> cert_builder_serial_bits(*final(b)) == cert_builder_serial_bits(*old(b)),
        r is Ok ==> cert_builder_not_before_days(*final(b)) == cert_builder_not_before_days(
            *old(b),
        ),
        r is Ok ==> cert_builder_not_after_days(*final(b)) == cert_builder_not_after_days(*old(b)),
        r is Ok ==> cert_builder_exts(*final(b)) == cert_builder_exts(*old(b)),
        r is Ok ==> cert_builder_pubkey(*final(b)) == cert_builder_pubkey(*old(b)),
{
    b.sign(key, openssl::hash::MessageDigest::sha256())
}

/// Relies on openssl's `X509Builder::build`: finishing a certificate keeps
/// the fields that were set.
#[verifier::external_body]
pub(crate) fn cert_build(b: X509Builder) -> (c: X509)
    ensures
        cert_version(c) == cert_builder_version(b),
        cert_subject(c) == cert_builder_subject(b),
        cert_issuer(c) == cert_builder_issuer(b),
        cert_serial_bits(c) == cert_builder_serial_bits(b),
        cert_not_before_days(c) == cert_builder_not_before_days(b),
        cert_not_after_days(c) == cert_builder_not_after_days(b),
        cert_exts(c) == cert_builder_exts(b),
        cert_pubkey(c) == cert_builder_pubkey(b),
        cert_signed_with(c) == cert_builder_signed_with(b),
{
    b.build()
}

} // verus!
