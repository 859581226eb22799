use vstd::prelude::*;

verus! {

/// A validated subject record. The five required fields always hold
/// non-empty text once a value of this type exists; `email` and `password`
/// are optional and default to absent.
#[derive(Debug)]
pub struct CSRConfig {
    pub country: String,
    pub state_or_province: String,
    pub locality: String,
    pub org_name: String,
    pub common_name: String,
    pub email: Option<String>,
    pub password: Option<String>,
}

/// The raw input bundle, as it arrives from the command line: every field is
/// optional here, including the file selector.
#[derive(Debug)]
pub struct CSRConfigCommand {
    pub from_file: Option<String>,
    pub country: Option<String>,
    pub state_or_province: Option<String>,
    pub locality: Option<String>,
    pub org_name: Option<String>,
    pub common_name: Option<String>,
    pub email: Option<String>,
    pub password: Option<String>,
}

/// Why resolution failed.
#[derive(Debug)]
pub enum ConfigError {
    /// Flag mode: one of the five required fields was not supplied, or was
    /// supplied empty.
    InvalidArguments,
    /// File mode: the file's contents are not a JSON document; carries the
    /// decoder's description of the failure.
    MalformedFile(String),
    /// File mode: the document lacks a required field, that field's value is
    /// not a string, or it is an empty string.
    MissingField,
}

impl ConfigError {
    /// A description of the failure, fit for reporting to the caller.
    pub fn message(&self) -> (r: String)
        ensures
            self is InvalidArguments ==> r@ == "invalid arguments"@,
            self matches ConfigError::MalformedFile(m) ==> r@ == m@,
            self is MissingField ==> r@ == "missing required field in configuration file"@,
    {
        match self {
            ConfigError::InvalidArguments => "invalid arguments".to_owned(),
            ConfigError::MalformedFile(m) => m.clone(),
            ConfigError::MissingField => "missing required field in configuration file".to_owned(),
        }
    }
}

/// Where the resolver must take the configuration from.
#[derive(Debug)]
pub enum ConfigSource {
    /// Read and decode the file at this path; individually supplied fields
    /// are ignored.
    File(String),
    /// Build the record from the individually supplied fields.
    Flags,
}

/// True when the flag bundle supplies every required field as non-empty
/// text.
pub open spec fn has_required_fields(cmd: CSRConfigCommand) -> bool {
    &&& (cmd.country matches Some(s) && s@.len() > 0)
    &&& (cmd.state_or_province matches Some(s) && s@.len() > 0)
    &&& (cmd.locality matches Some(s) && s@.len() > 0)
    &&& (cmd.org_name matches Some(s) && s@.len() > 0)
    &&& (cmd.common_name matches Some(s) && s@.len() > 0)
}

/// The source a command resolves from: the file selector takes precedence
/// whenever it is present, whatever else was supplied beside it.
pub open spec fn spec_chosen_source(cmd: CSRConfigCommand) -> ConfigSource {
    match cmd.from_file {
        Some(path) => ConfigSource::File(path),
        None => ConfigSource::Flags,
    }
}

/// Decide which source resolution uses.
pub fn chosen_source(cmd: &CSRConfigCommand) -> (r: ConfigSource)
    ensures
        r == spec_chosen_source(*cmd),
{
    match &cmd.from_file {
        Some(path) => ConfigSource::File(path.clone()),
        None => ConfigSource::Flags,
    }
}

/// A file selector is never resolved from the flags: two commands with the
/// same `from_file` choose the same source, however their other fields
/// differ.
pub proof fn lemma_file_precedence(a: CSRConfigCommand, b: CSRConfigCommand)
    requires
        a.from_file == b.from_file,
    ensures
        spec_chosen_source(a) == spec_chosen_source(b),
{
}

impl CSRConfig {
    /// The data-model invariant: each of the five required fields holds
    /// non-empty text.
    pub open spec fn wf(self) -> bool {
        &&& self.country@.len() > 0
        &&& self.state_or_province@.len() > 0
        &&& self.locality@.len() > 0
        &&& self.org_name@.len() > 0
        &&& self.common_name@.len() > 0
    }

    /// Flag-mode resolution: turn the raw bundle into a validated record.
    /// Fails with `InvalidArguments` exactly when one of the five required
    /// fields is absent or empty; the file selector plays no part here, and
    /// the optional fields are carried over as supplied.
    pub fn try_from(cmd: CSRConfigCommand) -> (r: Result<CSRConfig, ConfigError>)
        ensures
            r is Ok <==> has_required_fields(cmd),
            r matches Ok(c) ==> {
                &&& c.wf()
                &&& Some(c.country) == cmd.country
                &&& Some(c.state_or_province) == cmd.state_or_province
                &&& Some(c.locality) == cmd.locality
                &&& Some(c.org_name) == cmd.org_name
                &&& Some(c.common_name) == cmd.common_name
                &&& c.email == cmd.email
                &&& c.password == cmd.password
            },
            r matches Err(e) ==> e is InvalidArguments,
    {
        let country = match cmd.country {
            Some(v) => v,
            None => {
                return Err(ConfigError::InvalidArguments);
            },
        };
        let state_or_province = match cmd.state_or_province {
            Some(v) => v,
            None => {
                return Err(ConfigError::InvalidArguments);
            },
        };
        let locality = match cmd.locality {
            Some(v) => v,
            None => {
                return Err(ConfigError::InvalidArguments);
            },
        };
        let org_name = match cmd.org_name {
            Some(v) => v,
            None => {
                return Err(ConfigError::InvalidArguments);
            },
        };
        let common_name = match cmd.common_name {
            Some(v) => v,
            None => {
                return Err(ConfigError::InvalidArguments);
            },
        };
        if country.as_str().is_empty() || state_or_province.as_str().is_empty()
            || locality.as_str().is_empty() || org_name.as_str().is_empty()
            || common_name.as_str().is_empty() {
            return Err(ConfigError::InvalidArguments);
        }
        Ok(CSRConfig {
            country,
            state_or_province,
            locality,
            org_name,
            common_name,
            email: cmd.email,
            password: cmd.password,
        })
    }
}

} // verus!
