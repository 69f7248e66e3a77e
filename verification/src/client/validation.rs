//! The domain-validation material a certificate record carries, and the
//! extraction of the file-validation identifier from its URLs.

use vstd::prelude::*;
use crate::text::extract_url_file_stem;
use crate::text::url_file_stem;

verus! {

/// How a certificate's domains are validated.
#[derive(Debug, Clone, Copy, PartialEq, Eq, Structural)]
pub enum ValidationType {
    Email,
    CnameCsrHash,
    HttpCsrHash,
    HttpsCsrHash,
}

/// The validation material of one domain: the file-validation URLs and
/// content, and the CNAME pair.
#[derive(Debug, Clone)]
pub struct OtherValidation {
    pub file_validation_url_http: Option<String>,
    pub file_validation_url_https: Option<String>,
    pub file_validation_content: Option<Vec<String>>,
    pub cname_validation_p1: Option<String>,
    pub cname_validation_p2: Option<String>,
}

/// Whether a validation record carries file-validation material: both the
/// HTTPS URL and the content lines.
pub open spec fn spec_has_file_validation(v: OtherValidation) -> bool {
    v.file_validation_url_https is Some && v.file_validation_content is Some
}

/// The file-validation identifier of a record: the file name of its HTTPS
/// URL, up to the first dot.
pub open spec fn spec_file_validation_id(v: OtherValidation) -> Seq<char> {
    url_file_stem(v.file_validation_url_https->0@)
}

impl OtherValidation {
    /// The file-validation identifier and content of this record: the file
    /// name of the HTTPS URL up to its first dot, paired with the content
    /// lines. Nothing when either the URL or the content is absent.
    pub fn file_validation(&self) -> (r: Option<(String, Vec<String>)>)
        ensures
            r is Some <==> spec_has_file_validation(*self),
            r is Some ==> (r->0).0@ == spec_file_validation_id(*self),
            r is Some ==> (r->0).1.deep_view() == self.file_validation_content->0.deep_view(),
    {
        broadcast use vstd::std_specs::vec::vec_clone_deep_view_proof;

        if let Some(url) = &self.file_validation_url_https {
            if let Some(content) = &self.file_validation_content {
                let id = extract_url_file_stem(url.as_str());
                return Some((id, content.clone()));
            }
        }
        None
    }
}

/// The validation options of a certificate record: material for e-mail
/// validation and for the other methods, each keyed by domain.
#[derive(Debug, Clone)]
pub struct ValidationOptions {
    pub email_validation: Option<Vec<(String, Vec<String>)>>,
    pub other_methods: Option<Vec<(String, OtherValidation)>>,
}

/// The first record stored under the given domain, when one exists.
pub open spec fn spec_lookup(
    entries: Seq<(String, OtherValidation)>,
    domain: Seq<char>,
) -> Option<OtherValidation>
    decreases entries.len(),
{
    if entries.len() == 0 {
        None
    } else if entries[0].0@ == domain {
        Some(entries[0].1)
    } else {
        spec_lookup(entries.drop_first(), domain)
    }
}

/// The file-validation material of a validation-options value for a domain:
/// the identifier and content of the domain's record, when the record exists
/// and carries them.
pub open spec fn spec_options_file_validation(
    v: ValidationOptions,
    domain: Seq<char>,
) -> Option<(Seq<char>, Seq<Seq<char>>)> {
    match v.other_methods {
        Some(entries) => match spec_lookup(entries@, domain) {
            Some(other) => if spec_has_file_validation(other) {
                Some(
                    (
                        spec_file_validation_id(other),
                        other.file_validation_content->0.deep_view(),
                    ),
                )
            } else {
                None
            },
            None => None,
        },
        None => None,
    }
}

impl ValidationOptions {
    /// The file-validation identifier and content for the given domain, when
    /// its record exists and carries them.
    pub fn file_validation(&self, domain: &String) -> (r: Option<(String, Vec<String>)>)
        ensures
            r is Some <==> spec_options_file_validation(*self, domain@) is Some,
            r is Some ==> (r->0).0@ == (spec_options_file_validation(*self, domain@)->0).0,
            r is Some ==> (r->0).1.deep_view() == (spec_options_file_validation(
                *self,
                domain@,
            )->0).1,
    {
        if let Some(other_methods) = &self.other_methods {
            let ghost entries: Seq<(String, OtherValidation)> = other_methods@;
            proof {
                assert(entries.skip(0) =~= entries);
            }
            let mut i: usize = 0;
            while i < other_methods.len()
                invariant
                    0 <= i <= other_methods.len(),
                    entries == other_methods@,
                    self.other_methods is Some,
                    self.other_methods->0@ == entries,
                    spec_lookup(entries, domain@) == spec_lookup(
                        entries.skip(i as int),
                        domain@,
                    ),
                decreases other_methods.len() - i,
            {
                proof {
                    assert(entries.skip(i as int)[0] == entries[i as int]);
                }
                if other_methods[i].0.eq(domain) {
                    proof {
                        assert(spec_lookup(entries.skip(i as int), domain@) == Some(
                            entries[i as int].1,
                        ));
                        assert(self.other_methods->0@ == entries);
                        assert(spec_lookup(entries, domain@) == Some(entries[i as int].1));
                    }
                    let found = other_methods[i].1.file_validation();
                    proof {
                        let other = entries[i as int].1;
                        assert(found is Some <==> spec_has_file_validation(other));
                        assert(spec_options_file_validation(*self, domain@) == (if spec_has_file_validation(other) {
                            Some((spec_file_validation_id(other), other.file_validation_content->0.deep_view()))
                        } else {
                            None
                        }));
                    }
                    return found;
                }
                proof {
                    assert(entries.skip(i as int).drop_first() =~= entries.skip(i as int + 1));
                }
                i = i + 1;
            }
            proof {
                assert(entries.skip(entries.len() as int).len() == 0);
            }
        }
        None
    }
}

} // verus!
