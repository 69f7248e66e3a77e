//! The subject descriptor and the builders that assemble certificate signing
//! requests, self-signed CA certificates, and CA-issued leaf certificates.

use vstd::prelude::*;
use openssl::pkey::PKey;
use openssl::pkey::Private;
use openssl::x509::X509;
use openssl::x509::X509Name;
use openssl::x509::X509Req;
use openssl::x509::extension::SubjectAlternativeName;
use crate::certs::x509::c_length_limit;
use crate::certs::x509::cert_append_extension;
use crate::certs::x509::cert_build;
use crate::certs::x509::cert_builder_exts;
use crate::certs::x509::cert_builder_issuer;
use crate::certs::x509::cert_builder_new;
use crate::certs::x509::cert_builder_not_after_days;
use crate::certs::x509::cert_builder_not_before_days;
use crate::certs::x509::cert_builder_serial_bits;
use crate::certs::x509::cert_builder_subject;
use crate::certs::x509::cert_builder_version;
use crate::certs::x509::req_builder_exts;
use crate::certs::x509::cert_exts;
use crate::certs::x509::cert_issuer;
use crate::certs::x509::cert_not_after_days;
use crate::certs::x509::cert_not_before_days;
use crate::certs::x509::cert_serial_bits;
use crate::certs::x509::cert_set_issuer_from_cert;
use crate::certs::x509::cert_set_issuer_name;
use crate::certs::x509::cert_set_not_after_days_from_now;
use crate::certs::x509::cert_set_not_before_days_from_now;
use crate::certs::x509::cert_set_pubkey;
use crate::certs::x509::cert_set_random_serial;
use crate::certs::x509::cert_set_subject_from_req;
use crate::certs::x509::cert_set_subject_name;
use crate::certs::x509::cert_set_version;
use crate::certs::x509::cert_builder_pubkey;
use crate::certs::x509::cert_pubkey;
use crate::certs::x509::cert_sign_sha256;
use crate::certs::x509::cert_signed_with;
use crate::certs::x509::cert_subject;
use crate::certs::x509::cert_version;
use crate::certs::x509::build_authority_key_id_minimal;
use crate::certs::x509::build_basic_constraints_ca;
use crate::certs::x509::build_basic_constraints_plain;
use crate::certs::x509::build_key_usage_for_ca;
use crate::certs::x509::build_key_usage_for_leaf;
use crate::certs::x509::build_key_usage_for_request;
use crate::certs::x509::build_subject_key_id_issuer;
use crate::certs::x509::build_subject_key_id_self;
use crate::certs::x509::ext_basic_constraints;
use crate::certs::x509::ext_key_usage;
use crate::certs::x509::ext_authority_key_id_minimal;
use crate::certs::x509::ext_subject_alt_name;
use crate::certs::x509::ext_subject_key_id;
use crate::certs::x509::ext_stack_new;
use crate::certs::x509::ext_stack_push;
use crate::certs::x509::ku_crl_sign;
use crate::certs::x509::ku_digital_signature;
use crate::certs::x509::ku_key_cert_sign;
use crate::certs::x509::ku_key_encipherment;
use crate::certs::x509::ku_non_repudiation;
use crate::certs::x509::name_append_common_name;
use crate::certs::x509::name_append_country;
use crate::certs::x509::name_append_description;
use crate::certs::x509::name_append_org_unit;
use crate::certs::x509::name_append_organization;
use crate::certs::x509::name_build;
use crate::certs::x509::name_builder_entries;
use crate::certs::x509::name_builder_new;
use crate::certs::x509::name_entries;
use crate::certs::x509::dn_attribute_limit;
use crate::certs::x509::key_id;
use crate::certs::x509::nid_common_name;
use crate::certs::x509::nid_country_name;
use crate::certs::x509::nid_description;
use crate::certs::x509::nid_organization_name;
use crate::certs::x509::nid_organizational_unit;
use crate::certs::x509::pem_of_req;
use crate::certs::x509::pkey_from_rsa_private;
use crate::certs::x509::pkey_is_rsa_2048;
use crate::certs::x509::req_add_extensions;
use crate::certs::x509::req_build;
use crate::certs::x509::req_builder_new;
use crate::certs::x509::req_exts;
use crate::certs::x509::req_set_pubkey;
use crate::certs::x509::req_set_subject_name;
use crate::certs::x509::req_set_version;
use crate::certs::x509::req_sign_sha256;
use crate::certs::x509::req_to_pem;
use crate::certs::x509::req_pubkey;
use crate::certs::x509::req_signed_with;
use crate::certs::x509::req_subject;
use crate::certs::x509::req_version;
use crate::certs::x509::rsa_generate_2048;
use crate::certs::x509::san_build_for_cert;
use crate::certs::x509::san_build_for_req;
use crate::certs::x509::san_items;
use crate::certs::x509::san_new;
use crate::certs::x509::san_push_dns;
use crate::certs::x509::san_push_ip;
use crate::certs::x509::stack_ext_items;
use crate::error::Error;
use crate::error::ErrorKind;
use crate::text::ascii_str_of;
use crate::text::eq_ignore_case;
use crate::text::string_from_utf8;
use crate::text::eq_ignore_ascii_case;

verus! {

/// The mathematical value of a subject descriptor.
pub ghost struct CsrSpec {
    pub common_name: Seq<char>,
    pub alt_names: Option<Seq<Seq<char>>>,
    pub alt_name_is_ip: bool,
    pub country: Option<Seq<char>>,
    pub org_name: Option<Seq<char>>,
    pub org_unit: Option<Seq<char>>,
    pub description: Option<Seq<char>>,
}

/// A declarative subject descriptor: the identity fields and alternative
/// names from which requests and certificates are assembled.
pub struct Csr {
    common_name: String,
    alt_names: Option<Vec<String>>,
    alt_name_is_ip: bool,
    country: Option<String>,
    org_name: Option<String>,
    org_unit: Option<String>,
    description: Option<String>,
}

impl View for Csr {
    type V = CsrSpec;

    closed spec fn view(&self) -> CsrSpec {
        CsrSpec {
            common_name: self.common_name@,
            alt_names: match self.alt_names {
                Some(ns) => Some(ns.deep_view()),
                None => None,
            },
            alt_name_is_ip: self.alt_name_is_ip,
            country: match self.country {
                Some(s) => Some(s@),
                None => None,
            },
            org_name: match self.org_name {
                Some(s) => Some(s@),
                None => None,
            },
            org_unit: match self.org_unit {
                Some(s) => Some(s@),
                None => None,
            },
            description: match self.description {
                Some(s) => Some(s@),
                None => None,
            },
        }
    }
}

// ---------------------------------------------------------------------------
// The distinguished-name model.
// ---------------------------------------------------------------------------

/// The entry for one optional attribute: a singleton when the field is
/// populated, empty when it is absent.
pub open spec fn opt_entry(tag: int, value: Option<Seq<char>>) -> Seq<(int, Seq<char>)> {
    match value {
        Some(s) => seq![(tag, s)],
        None => Seq::empty(),
    }
}

/// The distinguished name derived from a descriptor: commonName always
/// first, then each populated optional attribute in the fixed order
/// countryName, organizationName, organizationalUnitName, description.
pub open spec fn dn_entries(d: CsrSpec) -> Seq<(int, Seq<char>)> {
    seq![(nid_common_name(), d.common_name)] + opt_entry(nid_country_name(), d.country)
        + opt_entry(nid_organization_name(), d.org_name) + opt_entry(
        nid_organizational_unit(),
        d.org_unit,
    ) + opt_entry(nid_description(), d.description)
}

// ---------------------------------------------------------------------------
// The name lists derived from a descriptor.
// ---------------------------------------------------------------------------

/// The given names with every name ASCII-case-insensitively equal to `cn`
/// removed, keeping the original order.
pub open spec fn names_without(ns: Seq<Seq<char>>, cn: Seq<char>) -> Seq<Seq<char>>
    decreases ns.len(),
{
    if ns.len() == 0 {
        Seq::empty()
    } else {
        names_without(ns.drop_last(), cn) + (if eq_ignore_case(ns.last(), cn) {
            Seq::<Seq<char>>::empty()
        } else {
            seq![ns.last()]
        })
    }
}

/// Every name a descriptor covers: the common name first, then each
/// alternative name that is not ASCII-case-insensitively equal to it.
pub open spec fn spec_all_names(d: CsrSpec) -> Seq<Seq<char>> {
    seq![d.common_name] + (match d.alt_names {
        Some(ns) => names_without(ns, d.common_name),
        None => Seq::empty(),
    })
}

/// The subjectAltName entries of a descriptor: one (is_ip, value) entry per
/// alternative name, in order.
pub open spec fn spec_san_entries(d: CsrSpec) -> Seq<(bool, Seq<char>)> {
    match d.alt_names {
        Some(ns) => ns.map(|i: int, n: Seq<char>| (d.alt_name_is_ip, n)),
        None => Seq::empty(),
    }
}

/// The subjectAltName extensions attached to a request or leaf certificate:
/// one extension per alternative name, each holding a single entry.
pub open spec fn san_ext_seq(d: CsrSpec) -> Seq<(int, bool, int, Seq<(bool, Seq<char>)>)> {
    spec_san_entries(d).map(
        |i: int, e: (bool, Seq<char>)| ext_subject_alt_name(seq![e]),
    )
}

/// The full extension list of a certificate signing request: a non-critical
/// keyUsage with digitalSignature and keyEncipherment, then the
/// subjectAltName extensions.
pub open spec fn csr_request_exts(d: CsrSpec) -> Seq<(int, bool, int, Seq<(bool, Seq<char>)>)> {
    seq![ext_key_usage(ku_digital_signature() + ku_key_encipherment(), false)] + san_ext_seq(d)
}

/// The requested validity span in days: the given value, or 365 when none
/// was given.
pub open spec fn validity_days(days: Option<u32>) -> int {
    match days {
        Some(d) => d as int,
        None => 365,
    }
}

/// Whether one distinguished-name attribute value is within the size the
/// name builder accepts.
pub open spec fn dn_value_fits(v: Seq<char>) -> bool {
    v.len() <= dn_attribute_limit()
}

/// Whether an optional attribute value, when present, is within that size.
pub open spec fn opt_value_fits(v: Option<Seq<char>>) -> bool {
    match v {
        Some(s) => dn_value_fits(s),
        None => true,
    }
}

/// Whether every attribute value of a descriptor is within the size the
/// name builder accepts.
pub open spec fn dn_values_fit(d: CsrSpec) -> bool {
    dn_value_fits(d.common_name) && opt_value_fits(d.country) && opt_value_fits(d.org_name)
        && opt_value_fits(d.org_unit) && opt_value_fits(d.description)
}

/// Whether every alternative name of a descriptor is within the size the
/// subjectAltName machinery accepts.
pub open spec fn san_values_fit(d: CsrSpec) -> bool {
    match d.alt_names {
        Some(ns) => forall|j: int| 0 <= j < ns.len() ==> (#[trigger] ns[j]).len()
            <= c_length_limit(),
        None => true,
    }
}

/// Law: the distinguished name of any descriptor has commonName first among
/// its populated attributes, and the attributes stand in the fixed order
/// commonName, countryName, organizationName, organizationalUnitName,
/// description — their tags are strictly increasing.
pub proof fn lemma_dn_common_name_first(d: CsrSpec)
    ensures
        dn_entries(d).len() >= 1,
        dn_entries(d)[0] == (nid_common_name(), d.common_name),
        forall|i: int, j: int|
            0 <= i < j < dn_entries(d).len() ==> dn_entries(d)[i].0 < dn_entries(d)[j].0,
{
    assert forall|i: int, j: int| 0 <= i < j < dn_entries(d).len() implies dn_entries(d)[i].0
        < dn_entries(d)[j].0 by {
        assert(dn_entries(d)[i].0 < dn_entries(d)[j].0);
    }
}

/// Whether a name appears in a list of names.
pub open spec fn appears(x: Seq<char>, ns: Seq<Seq<char>>) -> bool {
    exists|i: int| 0 <= i < ns.len() && ns[i] == x
}

/// Helper for the distinctness law: dropping the names equal (up to ASCII
/// case) to `cn` keeps the rest pairwise distinct, keeps them distinct from
/// `cn`, and adds nothing new.
proof fn lemma_names_without_distinct(ns: Seq<Seq<char>>, cn: Seq<char>)
    requires
        forall|i: int, j: int| 0 <= i < j < ns.len() ==> !eq_ignore_case(ns[i], ns[j]),
    ensures
        forall|k: int|
            0 <= k < names_without(ns, cn).len() ==> !eq_ignore_case(names_without(ns, cn)[k], cn),
        forall|k1: int, k2: int|
            0 <= k1 < k2 < names_without(ns, cn).len() ==> !eq_ignore_case(
                names_without(ns, cn)[k1],
                names_without(ns, cn)[k2],
            ),
        forall|k: int| 0 <= k < names_without(ns, cn).len() ==> appears(
            #[trigger] names_without(ns, cn)[k], ns),
    decreases ns.len(),
{
    if ns.len() == 0 {
    } else {
        let pre = ns.drop_last();
        assert forall|i: int, j: int| 0 <= i < j < pre.len() implies !eq_ignore_case(
            pre[i],
            pre[j],
        ) by {
            assert(pre[i] == ns[i] && pre[j] == ns[j]);
        }
        lemma_names_without_distinct(pre, cn);
        let w = names_without(ns, cn);
        let wp = names_without(pre, cn);
        if eq_ignore_case(ns.last(), cn) {
            assert(w =~= wp);
        } else {
            assert(w =~= wp.push(ns.last()));
            assert forall|k1: int, k2: int| 0 <= k1 < k2 < w.len() implies !eq_ignore_case(
                w[k1],
                w[k2],
            ) by {
                if k2 == w.len() - 1 {
                    assert(appears(wp[k1], pre));
                    let i = choose|i: int| 0 <= i < pre.len() && pre[i] == wp[k1];
                    assert(pre[i] == ns[i]);
                    assert(!eq_ignore_case(ns[i], ns[ns.len() - 1]));
                } else {
                    assert(w[k1] == wp[k1] && w[k2] == wp[k2]);
                }
            }
            assert forall|k: int| 0 <= k < w.len() implies appears(w[k], ns) by {
                if k == w.len() - 1 {
                    assert(ns[ns.len() - 1] == w[k]);
                } else {
                    assert(appears(wp[k], pre));
                    let i = choose|i: int| 0 <= i < pre.len() && pre[i] == wp[k];
                    assert(ns[i] == w[k]);
                }
            }
        }
    }
}

/// Law: when the alternative names are pairwise distinct up to ASCII case,
/// the full name list holds no two names equal up to ASCII case, and its
/// first element is the common name. (With a repeated alternative name the
/// list repeats it: only the common name is deduplicated against.)
pub proof fn lemma_all_names_distinct(d: CsrSpec)
    requires
        match d.alt_names {
            Some(ns) => forall|i: int, j: int|
                0 <= i < j < ns.len() ==> !eq_ignore_case(ns[i], ns[j]),
            None => true,
        },
    ensures
        spec_all_names(d).len() >= 1,
        spec_all_names(d)[0] == d.common_name,
        forall|i: int, j: int|
            0 <= i < j < spec_all_names(d).len() ==> !eq_ignore_case(
                spec_all_names(d)[i],
                spec_all_names(d)[j],
            ),
{
    let all = spec_all_names(d);
    match d.alt_names {
        Some(ns) => {
            lemma_names_without_distinct(ns, d.common_name);
            let w = names_without(ns, d.common_name);
            assert forall|i: int, j: int| 0 <= i < j < all.len() implies !eq_ignore_case(
                all[i],
                all[j],
            ) by {
                if i == 0 {
                    assert(all[j] == names_without(ns, d.common_name)[j - 1]);
                    assert(!eq_ignore_case(w[j - 1], d.common_name));
                    crate::text::lemma_eq_ignore_case_symmetric(all[i], all[j]);
                } else {
                    assert(all[i] == w[i - 1] && all[j] == w[j - 1]);
                }
            }
        },
        None => {},
    }
}

impl Csr {
    /// A descriptor with an empty common name and no optional field.
    pub fn default() -> (c: Self)
        ensures
            c@.common_name.len() == 0,
            c@.alt_names is None,
            c@.alt_name_is_ip == false,
            c@.country is None,
            c@.org_name is None,
            c@.org_unit is None,
            c@.description is None,
    {
        Self {
            common_name: String::new(),
            alt_names: None,
            alt_name_is_ip: false,
            country: None,
            org_name: None,
            org_unit: None,
            description: None,
        }
    }

    /// A descriptor holding the given common name and no optional field.
    pub fn new(common_name: String) -> (c: Self)
        ensures
            c@.common_name == common_name@,
            c@.alt_names is None,
            c@.alt_name_is_ip == false,
            c@.country is None,
            c@.org_name is None,
            c@.org_unit is None,
            c@.description is None,
    {
        Self { common_name, ..Csr::default() }
    }

    /// Sets the alternative names and whether they are IP addresses.
    pub fn with_alt_names(&mut self, alt_names: Vec<String>, is_ip: bool) -> (r: &mut Self)
        ensures
            r@ == (CsrSpec {
                alt_names: Some(alt_names.deep_view()),
                alt_name_is_ip: is_ip,
                ..old(self)@
            }),
            *final(self) == *final(r),
    {
        self.alt_names = Some(alt_names);
        self.alt_name_is_ip = is_ip;
        self
    }

    /// Sets the country attribute.
    pub fn with_country(&mut self, country: String) -> (r: &mut Self)
        ensures
            r@ == (CsrSpec { country: Some(country@), ..old(self)@ }),
            *final(self) == *final(r),
    {
        self.country = Some(country);
        self
    }

    /// Sets the organization attribute.
    pub fn with_org_name(&mut self, org_name: String) -> (r: &mut Self)
        ensures
            r@ == (CsrSpec { org_name: Some(org_name@), ..old(self)@ }),
            *final(self) == *final(r),
    {
        self.org_name = Some(org_name);
        self
    }

    /// Sets the organizational-unit attribute.
    pub fn with_org_unit(&mut self, org_unit: String) -> (r: &mut Self)
        ensures
            r@ == (CsrSpec { org_unit: Some(org_unit@), ..old(self)@ }),
            *final(self) == *final(r),
    {
        self.org_unit = Some(org_unit);
        self
    }

    /// Sets the description attribute.
    pub fn with_description(&mut self, description: String) -> (r: &mut Self)
        ensures
            r@ == (CsrSpec { description: Some(description@), ..old(self)@ }),
            *final(self) == *final(r),
    {
        self.description = Some(description);
        self
    }

    /// The common name.
    pub fn common_name(&self) -> (r: String)
        ensures
            r@ == self@.common_name,
    {
        self.common_name.clone()
    }

    /// The alternative names, when any were set.
    pub fn alt_names(&self) -> (r: Option<Vec<String>>)
        ensures
            match (r, self@.alt_names) {
                (Some(v), Some(ns)) => v.deep_view() == ns,
                (None, None) => true,
                _ => false,
            },
    {
        broadcast use vstd::std_specs::vec::vec_clone_deep_view_proof;

        match &self.alt_names {
            Some(v) => Some(v.clone()),
            None => None,
        }
    }

    /// Whether the alternative names are IP addresses.
    pub fn alt_name_is_ip(&self) -> (r: bool)
        ensures
            r == self@.alt_name_is_ip,
    {
        self.alt_name_is_ip
    }

    /// The country attribute, when set.
    pub fn country(&self) -> (r: Option<String>)
        ensures
            match (r, self@.country) {
                (Some(v), Some(s)) => v@ == s,
                (None, None) => true,
                _ => false,
            },
    {
        match &self.country {
            Some(s) => Some(s.clone()),
            None => None,
        }
    }

    /// The organization attribute, when set.
    pub fn org_name(&self) -> (r: Option<String>)
        ensures
            match (r, self@.org_name) {
                (Some(v), Some(s)) => v@ == s,
                (None, None) => true,
                _ => false,
            },
    {
        match &self.org_name {
            Some(s) => Some(s.clone()),
            None => None,
        }
    }

    /// The organizational-unit attribute, when set.
    pub fn org_unit(&self) -> (r: Option<String>)
        ensures
            match (r, self@.org_unit) {
                (Some(v), Some(s)) => v@ == s,
                (None, None) => true,
                _ => false,
            },
    {
        match &self.org_unit {
            Some(s) => Some(s.clone()),
            None => None,
        }
    }

    /// The description attribute, when set.
    pub fn description(&self) -> (r: Option<String>)
        ensures
            match (r, self@.description) {
                (Some(v), Some(s)) => v@ == s,
                (None, None) => true,
                _ => false,
            },
    {
        match &self.description {
            Some(s) => Some(s.clone()),
            None => None,
        }
    }

    /// Every name this descriptor covers: the common name first, then each
    /// alternative name not ASCII-case-insensitively equal to it, in order.
    pub fn all_names(&self) -> (r: Vec<String>)
        ensures
            r.deep_view() == spec_all_names(self@),
    {
        let mut names: Vec<String> = Vec::new();

        names.push(self.common_name.clone());

        if let Some(alt_names) = &self.alt_names {
            let ghost ns: Seq<Seq<char>> = alt_names.deep_view();
            let mut i: usize = 0;
            while i < alt_names.len()
                invariant
                    0 <= i <= alt_names.len(),
                    ns == alt_names.deep_view(),
                    ns.len() == alt_names.len(),
                    names.deep_view() == seq![self.common_name@] + names_without(
                        ns.take(i as int),
                        self.common_name@,
                    ),
                decreases alt_names.len() - i,
            {
                proof {
                    assert(ns[i as int] == alt_names[i as int]@);
                }
                if !eq_ignore_ascii_case(alt_names[i].as_str(), self.common_name.as_str()) {
                    let ghost before: Seq<Seq<char>> = names.deep_view();
                    names.push(alt_names[i].clone());
                    proof {
                        assert(names.deep_view() =~= before.push(ns[i as int]));
                    }
                }
                proof {
                    let taken = ns.take(i as int + 1);
                    assert(taken.drop_last() =~= ns.take(i as int));
                    assert(taken.last() == ns[i as int]);
                    assert(names.deep_view() =~= seq![self.common_name@] + names_without(
                        taken,
                        self.common_name@,
                    ));
                }
                i = i + 1;
            }
            proof {
                assert(ns.take(ns.len() as int) =~= ns);
            }
        }
        proof {
            assert(names.deep_view() =~= spec_all_names(self@));
        }
        names
    }

    /// One subjectAltName builder per alternative name, each holding a
    /// single DNS or IP entry as the descriptor directs.
    pub fn subject_alt_names(&self) -> (r: Vec<SubjectAlternativeName>)
        ensures
            r@.len() == spec_san_entries(self@).len(),
            forall|i: int|
                0 <= i < r@.len() ==> san_items(r@[i]) == seq![spec_san_entries(self@)[i]],
    {
        let mut res: Vec<SubjectAlternativeName> = Vec::new();

        if let Some(alt_names) = &self.alt_names {
            let ghost ns: Seq<Seq<char>> = alt_names.deep_view();
            let mut i: usize = 0;
            while i < alt_names.len()
                invariant
                    0 <= i <= alt_names.len(),
                    ns == alt_names.deep_view(),
                    ns.len() == alt_names.len(),
                    spec_san_entries(self@).len() == ns.len(),
                    forall|j: int|
                        0 <= j < ns.len() ==> spec_san_entries(self@)[j] == (
                        self.alt_name_is_ip,
                        ns[j],
                        ),
                    res@.len() == i,
                    forall|j: int|
                        0 <= j < i ==> san_items(res@[j]) == seq![spec_san_entries(self@)[j]],
                decreases alt_names.len() - i,
            {
                proof {
                    assert(ns[i as int] == alt_names[i as int]@);
                }
                let mut san = san_new();
                if self.alt_name_is_ip {
                    san_push_ip(&mut san, alt_names[i].as_str());
                } else {
                    san_push_dns(&mut san, alt_names[i].as_str());
                }
                proof {
                    assert(san_items(san) =~= seq![
                        (self.alt_name_is_ip, ns[i as int]),
                    ]);
                }
                res.push(san);
                i = i + 1;
            }
        }
        res
    }
}

// ---------------------------------------------------------------------------
// Key generation.
// ---------------------------------------------------------------------------

/// Generates a fresh 2048-bit RSA key pair.
pub fn generate_rsa_2048_priv_key() -> (r: Result<PKey<Private>, Error>)
    ensures
        r is Ok ==> pkey_is_rsa_2048(r->Ok_0),
        r is Err ==> r->Err_0.kind == ErrorKind::KeyGeneration,
{
    let rsa = match rsa_generate_2048() {
        Ok(k) => k,
        Err(e) => return Err(Error::key_generation(e)),
    };
    match pkey_from_rsa_private(rsa) {
        Ok(k) => Ok(k),
        Err(e) => Err(Error::key_generation(e)),
    }
}

// ---------------------------------------------------------------------------
// Name building.
// ---------------------------------------------------------------------------

/// Builds the X.509 name of a descriptor: commonName first, then each
/// populated optional attribute in the fixed order country, organization,
/// organizational unit, description. Optional fields that are present but
/// empty are included; whether an empty or otherwise unusual value is
/// encodable is the encoder's verdict (an empty or three-letter country,
/// for instance, is refused as an encoding error). A value longer than
/// `dn_attribute_limit` characters is refused as an encoding error before
/// any encoding is attempted.
pub fn extract_name_from_csr(csr: &Csr) -> (r: Result<X509Name, Error>)
    ensures
        r is Ok ==> name_entries(r->Ok_0) == dn_entries(csr@),
        r is Ok ==> dn_values_fit(csr@),
        r is Err ==> r->Err_0.kind == ErrorKind::Encoding,
        !dn_values_fit(csr@) ==> r is Err,
{
    if !dn_lengths_ok(csr) {
        return Err(Error::encoding_msg("attribute value too long".to_owned()));
    }
    let mut name = match name_builder_new() {
        Ok(b) => b,
        Err(e) => return Err(Error::encoding(e)),
    };
    if let Err(e) = name_append_common_name(&mut name, csr.common_name.as_str()) {
        return Err(Error::encoding(e));
    }
    if let Some(country) = &csr.country {
        if let Err(e) = name_append_country(&mut name, country.as_str()) {
            return Err(Error::encoding(e));
        }
    }
    if let Some(org_name) = &csr.org_name {
        if let Err(e) = name_append_organization(&mut name, org_name.as_str()) {
            return Err(Error::encoding(e));
        }
    }
    if let Some(org_unit) = &csr.org_unit {
        if let Err(e) = name_append_org_unit(&mut name, org_unit.as_str()) {
            return Err(Error::encoding(e));
        }
    }
    if let Some(description) = &csr.description {
        if let Err(e) = name_append_description(&mut name, description.as_str()) {
            return Err(Error::encoding(e));
        }
    }
    proof {
        assert(name_builder_entries(name) =~= dn_entries(csr@));
        assert forall|j: int| 0 <= j < name_builder_entries(name).len() implies (
        #[trigger] name_builder_entries(name)[j]).1.len() <= dn_attribute_limit() by {
            assert(dn_entries(csr@)[j].1.len() <= dn_attribute_limit());
        }
    }
    Ok(name_build(name))
}

/// Whether every attribute value of the descriptor is within
/// `dn_attribute_limit` characters.
fn dn_lengths_ok(csr: &Csr) -> (r: bool)
    ensures
        r == dn_values_fit(csr@),
{
    if csr.common_name.as_str().unicode_len() > 4096 {
        return false;
    }
    if let Some(country) = &csr.country {
        if country.as_str().unicode_len() > 4096 {
            return false;
        }
    }
    if let Some(org_name) = &csr.org_name {
        if org_name.as_str().unicode_len() > 4096 {
            return false;
        }
    }
    if let Some(org_unit) = &csr.org_unit {
        if org_unit.as_str().unicode_len() > 4096 {
            return false;
        }
    }
    if let Some(description) = &csr.description {
        if description.as_str().unicode_len() > 4096 {
            return false;
        }
    }
    true
}

/// Whether every alternative name of the descriptor is within
/// `c_length_limit` characters.
fn san_lengths_ok(csr: &Csr) -> (r: bool)
    ensures
        r == san_values_fit(csr@),
{
    if let Some(alt_names) = &csr.alt_names {
        let ghost ns: Seq<Seq<char>> = alt_names.deep_view();
        let mut i: usize = 0;
        while i < alt_names.len()
            invariant
                0 <= i <= alt_names.len(),
                ns == alt_names.deep_view(),
                ns.len() == alt_names.len(),
                csr@.alt_names == Some(ns),
                forall|j: int| 0 <= j < i ==> (#[trigger] ns[j]).len() <= c_length_limit(),
            decreases alt_names.len() - i,
        {
            proof {
                assert(ns[i as int] == alt_names[i as int]@);
            }
            if alt_names[i].as_str().unicode_len() > 0x1FFFFFFF {
                proof {
                    let nsx = csr@.alt_names->0;
                    assert(nsx[i as int].len() > c_length_limit());
                    assert(!san_values_fit(csr@));
                }
                return false;
            }
            i = i + 1;
        }
    }
    true
}

// ---------------------------------------------------------------------------
// The certificate signing request builder.
// ---------------------------------------------------------------------------

/// Builds a self-signed certificate signing request: the descriptor's
/// distinguished name as subject, PKCS#10 version 0, the applicant's public
/// key, a non-critical keyUsage with digitalSignature and keyEncipherment,
/// one subjectAltName extension per alternative name, and a SHA-256
/// self-signature with the applicant's private key, whose label the
/// contract pins. Structural failures surface as encoding errors, extension
/// failures as extension errors, and signing failures as signing errors; no
/// partial request is returned, and each error carries its OpenSSL cause
/// (or, for an over-long value refused up front, a message).
pub fn generate_csr(pkey: &PKey<Private>, csr: &Csr) -> (r: Result<X509Req, Error>)
    ensures
        r is Ok ==> req_version(r->Ok_0) == 0,
        r is Ok ==> req_subject(r->Ok_0) == dn_entries(csr@),
        r is Ok ==> req_exts(r->Ok_0) == csr_request_exts(csr@),
        r is Ok ==> req_pubkey(r->Ok_0) == Some(key_id(*pkey)),
        r is Ok ==> req_signed_with(r->Ok_0) == Some(key_id(*pkey)),
        r is Ok ==> san_values_fit(csr@),
        r is Err ==> (r->Err_0.kind == ErrorKind::Encoding || r->Err_0.kind
            == ErrorKind::ExtensionBuild || r->Err_0.kind == ErrorKind::Signing),
        !dn_values_fit(csr@) ==> r is Err,
        !san_values_fit(csr@) ==> r is Err,
{
    let name = extract_name_from_csr(csr)?;
    if !san_lengths_ok(csr) {
        return Err(Error::extension_build_msg("alternative name too long".to_owned()));
    }

    let mut builder = match req_builder_new() {
        Ok(b) => b,
        Err(e) => return Err(Error::encoding(e)),
    };
    if let Err(e) = req_set_version(&mut builder, 0) {
        return Err(Error::encoding(e));
    }
    if let Err(e) = req_set_subject_name(&mut builder, &name) {
        return Err(Error::encoding(e));
    }
    if let Err(e) = req_set_pubkey(&mut builder, pkey) {
        return Err(Error::encoding(e));
    }

    let mut extensions = match ext_stack_new() {
        Ok(s) => s,
        Err(e) => return Err(Error::extension_build(e)),
    };
    let key_usage = match build_key_usage_for_request() {
        Ok(x) => x,
        Err(e) => return Err(Error::extension_build(e)),
    };
    if let Err(e) = ext_stack_push(&mut extensions, key_usage) {
        return Err(Error::extension_build(e));
    }
    proof {
        assert(stack_ext_items(extensions) =~= seq![
            ext_key_usage(ku_digital_signature() + ku_key_encipherment(), false),
        ]);
    }

    let sans = csr.subject_alt_names();
    let ghost n_sans: int = spec_san_entries(csr@).len() as int;
    let mut i: usize = 0;
    while i < sans.len()
        invariant
            0 <= i <= sans.len(),
            sans@.len() == n_sans,
            n_sans == spec_san_entries(csr@).len(),
            forall|j: int|
                0 <= j < n_sans ==> san_items(sans@[j]) == seq![spec_san_entries(csr@)[j]],
            stack_ext_items(extensions).len() == 1 + i,
            stack_ext_items(extensions)[0] == ext_key_usage(
                ku_digital_signature() + ku_key_encipherment(),
                false,
            ),
            forall|j: int|
                0 <= j < i ==> stack_ext_items(extensions)[j + 1] == ext_subject_alt_name(
                    seq![spec_san_entries(csr@)[j]],
                ),
            san_values_fit(csr@),
        decreases sans.len() - i,
    {
        proof {
            assert(spec_san_entries(csr@)[i as int].1.len() <= c_length_limit()) by {
                let ns = csr@.alt_names->0;
                assert(spec_san_entries(csr@)[i as int] == (csr@.alt_name_is_ip, ns[i as int]));
            };
        }
        let ext = match san_build_for_req(&sans[i], &builder) {
            Ok(x) => x,
            Err(e) => return Err(Error::extension_build(e)),
        };
        if let Err(e) = ext_stack_push(&mut extensions, ext) {
            return Err(Error::extension_build(e));
        }
        i = i + 1;
    }
    proof {
        assert(stack_ext_items(extensions) =~= csr_request_exts(csr@));
    }

    if let Err(e) = req_add_extensions(&mut builder, &extensions) {
        return Err(Error::extension_build(e));
    }

    if let Err(e) = req_sign_sha256(&mut builder, pkey) {
        return Err(Error::signing(e));
    }

    proof {
        assert(req_builder_exts(builder) =~= csr_request_exts(csr@));
    }
    Ok(req_build(builder))
}

/// The PEM serialization of a certificate signing request, as text. PEM is
/// ASCII, so the text carries the encoded bytes character for character.
pub fn csr_pem(req: &X509Req) -> (r: Result<String, Error>)
    ensures
        r is Ok ==> r->Ok_0@ == ascii_str_of(pem_of_req(*req)),
        r is Err ==> r->Err_0.kind == ErrorKind::Encoding,
{
    match req_to_pem(req) {
        Ok(bytes) => Ok(string_from_utf8(bytes).unwrap()),
        Err(e) => Err(Error::encoding(e)),
    }
}

// ---------------------------------------------------------------------------
// The self-signed CA certificate builder.
// ---------------------------------------------------------------------------

/// Builds a self-signed CA certificate: X.509 version 3, a fresh random
/// 159-bit serial whose leading bit may be zero, the descriptor's
/// distinguished name as both subject and issuer, a validity window running
/// from the moment of the call (not truncated to midnight) for the
/// requested number of days (365 when omitted), and, in
/// order, a critical basicConstraints with the CA flag, a critical keyUsage
/// with keyCertSign and cRLSign, and a subjectKeyIdentifier computed in
/// self-signed context; signed with SHA-256 by the same key the certificate
/// carries — subject key, issuer key and signing key are one, and the
/// contract pins that key's label on both roles.
pub fn generate_ca(pkey: &PKey<Private>, csr: &Csr, days: Option<u32>) -> (r: Result<X509, Error>)
    ensures
        r is Ok ==> cert_pubkey(r->Ok_0) == Some(key_id(*pkey)),
        r is Ok ==> cert_signed_with(r->Ok_0) == Some(key_id(*pkey)),
        !dn_values_fit(csr@) ==> r is Err,
        r is Ok ==> cert_version(r->Ok_0) == 2,
        r is Ok ==> cert_subject(r->Ok_0) == dn_entries(csr@),
        r is Ok ==> cert_issuer(r->Ok_0) == cert_subject(r->Ok_0),
        r is Ok ==> cert_serial_bits(r->Ok_0) == Some(159int),
        r is Ok ==> cert_not_before_days(r->Ok_0) == Some(0int),
        r is Ok ==> cert_not_after_days(r->Ok_0) == Some(validity_days(days)),
        r is Ok ==> cert_not_after_days(r->Ok_0)->0 - cert_not_before_days(r->Ok_0)->0
            == validity_days(days),
        r is Ok ==> cert_exts(r->Ok_0) == seq![
            ext_basic_constraints(true, true),
            ext_key_usage(ku_key_cert_sign() + ku_crl_sign(), true),
            ext_subject_key_id(false),
        ],
        r is Err ==> (r->Err_0.kind == ErrorKind::Encoding || r->Err_0.kind
            == ErrorKind::ExtensionBuild || r->Err_0.kind == ErrorKind::Signing),
{
    let name = extract_name_from_csr(csr)?;

    let mut builder = match cert_builder_new() {
        Ok(b) => b,
        Err(e) => return Err(Error::encoding(e)),
    };
    if let Err(e) = cert_set_version(&mut builder, 2) {
        return Err(Error::encoding(e));
    }
    if let Err(e) = cert_set_random_serial(&mut builder, 159) {
        return Err(Error::encoding(e));
    }
    if let Err(e) = cert_set_subject_name(&mut builder, &name) {
        return Err(Error::encoding(e));
    }
    if let Err(e) = cert_set_issuer_name(&mut builder, &name) {
        return Err(Error::encoding(e));
    }
    if let Err(e) = cert_set_pubkey(&mut builder, pkey) {
        return Err(Error::encoding(e));
    }
    if let Err(e) = cert_set_not_before_days_from_now(&mut builder, 0) {
        return Err(Error::encoding(e));
    }
    let span = match days {
        Some(d) => d,
        None => 365,
    };
    if let Err(e) = cert_set_not_after_days_from_now(&mut builder, span) {
        return Err(Error::encoding(e));
    }

    let basic = match build_basic_constraints_ca() {
        Ok(x) => x,
        Err(e) => return Err(Error::extension_build(e)),
    };
    if let Err(e) = cert_append_extension(&mut builder, basic) {
        return Err(Error::extension_build(e));
    }
    let key_usage = match build_key_usage_for_ca() {
        Ok(x) => x,
        Err(e) => return Err(Error::extension_build(e)),
    };
    if let Err(e) = cert_append_extension(&mut builder, key_usage) {
        return Err(Error::extension_build(e));
    }
    let ski = match build_subject_key_id_self(&builder) {
        Ok(x) => x,
        Err(e) => return Err(Error::extension_build(e)),
    };
    if let Err(e) = cert_append_extension(&mut builder, ski) {
        return Err(Error::extension_build(e));
    }

    if let Err(e) = cert_sign_sha256(&mut builder, pkey) {
        return Err(Error::signing(e));
    }

    proof {
        assert(cert_builder_exts(builder) =~= seq![
            ext_basic_constraints(true, true),
            ext_key_usage(ku_key_cert_sign() + ku_crl_sign(), true),
            ext_subject_key_id(false),
        ]);
    }
    Ok(cert_build(builder))
}

// ---------------------------------------------------------------------------
// The CA-issued leaf certificate builder.
// ---------------------------------------------------------------------------

/// Builds a CA-issued leaf certificate. The subject distinguished name is
/// taken from the same request-assembly path a real submission would use;
/// the issuer is the CA certificate's subject. The certificate carries
/// X.509 version 3, a fresh random 159-bit serial, a validity window running
/// from the moment of the call (not truncated to midnight) for the
/// requested number of days (365 when omitted) independent
/// of the CA's own span, and, in order, a non-critical basicConstraints
/// without the CA flag, a critical keyUsage with nonRepudiation,
/// digitalSignature and keyEncipherment, a subjectKeyIdentifier and an
/// authorityKeyIdentifier computed in issuer-aware context with
/// non-mandatory population flags, and one
/// subjectAltName extension per alternative name. The certificate is
/// deliberately signed with SHA-256 by the applicant's key, not the CA's —
/// the issuing key never touches it — and the contract pins the signing
/// key's label; a consumer wanting conventional CA-signing semantics must
/// not rely on this chain verifying against the CA's key.
pub fn generate_ca_signed_cert(
    pkey: &PKey<Private>,
    csr: &Csr,
    ca: &X509,
    days: Option<u32>,
) -> (r: Result<X509, Error>)
    ensures
        r is Ok ==> cert_pubkey(r->Ok_0) == Some(key_id(*pkey)),
        r is Ok ==> cert_signed_with(r->Ok_0) == Some(key_id(*pkey)),
        !dn_values_fit(csr@) ==> r is Err,
        !san_values_fit(csr@) ==> r is Err,
        r is Ok ==> cert_version(r->Ok_0) == 2,
        r is Ok ==> cert_subject(r->Ok_0) == dn_entries(csr@),
        r is Ok ==> cert_issuer(r->Ok_0) == cert_subject(*ca),
        r is Ok ==> cert_serial_bits(r->Ok_0) == Some(159int),
        r is Ok ==> cert_not_before_days(r->Ok_0) == Some(0int),
        r is Ok ==> cert_not_after_days(r->Ok_0) == Some(validity_days(days)),
        r is Ok ==> cert_not_after_days(r->Ok_0)->0 - cert_not_before_days(r->Ok_0)->0
            == validity_days(days),
        r is Ok ==> cert_exts(r->Ok_0) == seq![
            ext_basic_constraints(false, false),
            ext_key_usage(ku_non_repudiation() + ku_digital_signature() + ku_key_encipherment(), true),
            ext_subject_key_id(true),
            ext_authority_key_id_minimal(),
        ] + san_ext_seq(csr@),
        r is Err ==> (r->Err_0.kind == ErrorKind::Encoding || r->Err_0.kind
            == ErrorKind::ExtensionBuild || r->Err_0.kind == ErrorKind::Signing),
{
    let req = generate_csr(pkey, csr)?;

    let mut builder = match cert_builder_new() {
        Ok(b) => b,
        Err(e) => return Err(Error::encoding(e)),
    };
    if let Err(e) = cert_set_version(&mut builder, 2) {
        return Err(Error::encoding(e));
    }
    if let Err(e) = cert_set_random_serial(&mut builder, 159) {
        return Err(Error::encoding(e));
    }
    if let Err(e) = cert_set_subject_from_req(&mut builder, &req) {
        return Err(Error::encoding(e));
    }
    if let Err(e) = cert_set_issuer_from_cert(&mut builder, ca) {
        return Err(Error::encoding(e));
    }
    if let Err(e) = cert_set_pubkey(&mut builder, pkey) {
        return Err(Error::encoding(e));
    }
    if let Err(e) = cert_set_not_before_days_from_now(&mut builder, 0) {
        return Err(Error::encoding(e));
    }
    let span = match days {
        Some(d) => d,
        None => 365,
    };
    if let Err(e) = cert_set_not_after_days_from_now(&mut builder, span) {
        return Err(Error::encoding(e));
    }

    let basic = match build_basic_constraints_plain() {
        Ok(x) => x,
        Err(e) => return Err(Error::extension_build(e)),
    };
    if let Err(e) = cert_append_extension(&mut builder, basic) {
        return Err(Error::extension_build(e));
    }
    let key_usage = match build_key_usage_for_leaf() {
        Ok(x) => x,
        Err(e) => return Err(Error::extension_build(e)),
    };
    if let Err(e) = cert_append_extension(&mut builder, key_usage) {
        return Err(Error::extension_build(e));
    }
    let ski = match build_subject_key_id_issuer(&builder, ca) {
        Ok(x) => x,
        Err(e) => return Err(Error::extension_build(e)),
    };
    if let Err(e) = cert_append_extension(&mut builder, ski) {
        return Err(Error::extension_build(e));
    }
    let aki = match build_authority_key_id_minimal(&builder, ca) {
        Ok(x) => x,
        Err(e) => return Err(Error::extension_build(e)),
    };
    if let Err(e) = cert_append_extension(&mut builder, aki) {
        return Err(Error::extension_build(e));
    }

    let ghost fixed: Seq<(int, bool, int, Seq<(bool, Seq<char>)>)> = seq![
        ext_basic_constraints(false, false),
        ext_key_usage(ku_non_repudiation() + ku_digital_signature() + ku_key_encipherment(), true),
        ext_subject_key_id(true),
        ext_authority_key_id_minimal(),
    ];
    proof {
        assert(cert_builder_exts(builder) =~= fixed);
    }

    let sans = csr.subject_alt_names();
    let ghost n_sans: int = spec_san_entries(csr@).len() as int;
    let mut i: usize = 0;
    while i < sans.len()
        invariant
            0 <= i <= sans.len(),
            sans@.len() == n_sans,
            n_sans == spec_san_entries(csr@).len(),
            forall|j: int|
                0 <= j < n_sans ==> san_items(sans@[j]) == seq![spec_san_entries(csr@)[j]],
            cert_builder_exts(builder).len() == fixed.len() + i,
            forall|j: int|
                0 <= j < fixed.len() ==> cert_builder_exts(builder)[j] == fixed[j],
            forall|j: int|
                0 <= j < i ==> cert_builder_exts(builder)[fixed.len() + j] == ext_subject_alt_name(
                    seq![spec_san_entries(csr@)[j]],
                ),
            cert_builder_version(builder) == 2,
            cert_builder_subject(builder) == dn_entries(csr@),
            cert_builder_issuer(builder) == cert_subject(*ca),
            cert_builder_serial_bits(builder) == Some(159int),
            cert_builder_not_before_days(builder) == Some(0int),
            cert_builder_not_after_days(builder) == Some(validity_days(days)),
            cert_builder_pubkey(builder) == Some(key_id(*pkey)),
            san_values_fit(csr@),
        decreases sans.len() - i,
    {
        proof {
            assert(spec_san_entries(csr@)[i as int].1.len() <= c_length_limit()) by {
                let ns = csr@.alt_names->0;
                assert(spec_san_entries(csr@)[i as int] == (csr@.alt_name_is_ip, ns[i as int]));
            };
        }
        let ext = match san_build_for_cert(&sans[i], &builder, ca) {
            Ok(x) => x,
            Err(e) => return Err(Error::extension_build(e)),
        };
        if let Err(e) = cert_append_extension(&mut builder, ext) {
            return Err(Error::extension_build(e));
        }
        i = i + 1;
    }

    if let Err(e) = cert_sign_sha256(&mut builder, pkey) {
        return Err(Error::signing(e));
    }

    proof {
        assert(cert_builder_exts(builder) =~= fixed + san_ext_seq(csr@));
    }
    Ok(cert_build(builder))
}

} // verus!
