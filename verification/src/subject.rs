use crate::config::CSRConfig;
use vstd::prelude::*;
use vstd::string::StringExecFns;

verus! {

/// The characters of an optional field: those of the string when it was
/// supplied, none otherwise.
pub open spec fn opt_chars(field: Option<String>) -> Seq<char> {
    match field {
        Some(s) => s@,
        None => Seq::<char>::empty(),
    }
}

/// The distinguished-name encoding of a record, with its fixed field order.
/// Two deliberate quirks of this design are preserved: the organizational
/// unit (OU) slot carries the common name (the record has no distinct
/// organizational-unit field), and the emailAddress slot carries the
/// password; the email field is accepted and stored but never emitted.
pub open spec fn spec_subject(c: CSRConfig) -> Seq<char> {
    spec_subject_prefix(c) + "/emailAddress="@ + opt_chars(c.password)
}

/// Everything of the encoding up to and excluding the emailAddress slot.
pub open spec fn spec_subject_prefix(c: CSRConfig) -> Seq<char> {
    "/C="@ + c.country@ + "/ST="@ + c.state_or_province@ + "/L="@ + c.locality@ + "/O="@
        + c.org_name@ + "/OU="@ + c.common_name@ + "/CN="@ + c.common_name@
}

/// The private-key output path derived from a common name.
pub open spec fn spec_key_path(common_name: Seq<char>) -> Seq<char> {
    common_name + ".key"@
}

/// The CSR output path derived from a common name.
pub open spec fn spec_csr_path(common_name: Seq<char>) -> Seq<char> {
    common_name + ".csr"@
}

/// Derive the private-key file name: the common name followed by `.key`.
pub fn key_path(common_name: &str) -> (r: String)
    ensures
        r@ == spec_key_path(common_name@),
{
    let mut path = common_name.to_owned();
    path.append(".key");
    path
}

/// Derive the CSR file name: the common name followed by `.csr`.
pub fn csr_path(common_name: &str) -> (r: String)
    ensures
        r@ == spec_csr_path(common_name@),
{
    let mut path = common_name.to_owned();
    path.append(".csr");
    path
}

impl CSRConfig {
    /// Encode the record as a distinguished-name string.
    pub fn to_string(&self) -> (r: String)
        ensures
            r@ == spec_subject(*self),
    {
        let mut s = String::new();
        s.append("/C=");
        s.append(self.country.as_str());
        s.append("/ST=");
        s.append(self.state_or_province.as_str());
        s.append("/L=");
        s.append(self.locality.as_str());
        s.append("/O=");
        s.append(self.org_name.as_str());
        s.append("/OU=");
        s.append(self.common_name.as_str());
        s.append("/CN=");
        s.append(self.common_name.as_str());
        s.append("/emailAddress=");
        match &self.password {
            Some(p) => s.append(p.as_str()),
            None => (),
        }
        proof {
            assert(s@ =~= spec_subject(*self));
        }
        s
    }
}

/// With no password supplied, the emailAddress slot renders empty: the
/// encoding is exactly the prefix followed by `/emailAddress=`, with nothing
/// after it.
pub proof fn lemma_empty_email_slot(c: CSRConfig)
    requires
        c.password is None,
    ensures
        spec_subject(c) == spec_subject_prefix(c) + "/emailAddress="@,
{
    assert(spec_subject(c) =~= spec_subject_prefix(c) + "/emailAddress="@);
}

/// The email field never reaches the encoding: two records that differ only
/// in `email` encode to the same subject string.
pub proof fn lemma_email_not_emitted(a: CSRConfig, b: CSRConfig)
    requires
        a.country == b.country,
        a.state_or_province == b.state_or_province,
        a.locality == b.locality,
        a.org_name == b.org_name,
        a.common_name == b.common_name,
        a.password == b.password,
    ensures
        spec_subject(a) == spec_subject(b),
{
}

/// The argument list handed to the external toolkit: request a new
/// unencrypted 2048-bit RSA key pair, write the key and the CSR to the paths
/// derived from the common name, and pass the encoded subject.
pub fn openssl_args(c: &CSRConfig) -> (r: Vec<String>)
    ensures
        r@.len() == 10,
        r@[0]@ == "req"@,
        r@[1]@ == "-newkey"@,
        r@[2]@ == "rsa:2048"@,
        r@[3]@ == "-nodes"@,
        r@[4]@ == "-keyout"@,
        r@[5]@ == spec_key_path(c.common_name@),
        r@[6]@ == "-out"@,
        r@[7]@ == spec_csr_path(c.common_name@),
        r@[8]@ == "-subj"@,
        r@[9]@ == spec_subject(*c),
{
    let mut args: Vec<String> = Vec::new();
    args.push("req".to_owned());
    args.push("-newkey".to_owned());
    args.push("rsa:2048".to_owned());
    args.push("-nodes".to_owned());
    args.push("-keyout".to_owned());
    args.push(key_path(c.common_name.as_str()));
    args.push("-out".to_owned());
    args.push(csr_path(c.common_name.as_str()));
    args.push("-subj".to_owned());
    args.push(c.to_string());
    args
}

} // verus!
