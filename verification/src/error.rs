use vstd::prelude::*;

use crate::text::{dec_digits, push_decimal};

verus! {

/// The failure taxonomy of the build pipeline. Every component reports its
/// first error immediately; the orchestrator turns it into a terminal state.
///
/// Causes that arise outside the library (filesystem, network, version
/// control, configuration parsing) are carried as plain description strings
/// so that contracts can speak of them directly.
#[derive(Debug, Clone, PartialEq, Eq)]
pub enum BuildError {
    /// An input/output failure, with the underlying description.
    Io(String),
    /// A failure to format or parse a timestamp.
    Time(String),
    /// A failure while walking a directory tree.
    WalkDir(String),
    /// The configuration text could not be parsed.
    TomlParse(String),
    /// A parsed configuration section could not be decoded into a descriptor.
    TomlDecode(String),
    /// A version-control operation failed.
    Git(String),
    /// An HTTP transport failure.
    Hyper(String),
    /// The named file is not a recognized configuration file.
    NonToml(String),
    /// The named descriptor section is missing from the configuration.
    NoDesc(String),
    /// An HTTP response carried a non-success status for the given URL.
    HttpNoFile(u32, String),
    /// A required digest for the named file is missing or empty.
    NoHash(String),
    /// The named file's computed digest differs from the declared one;
    /// the second field carries the computed digest for diagnostics.
    HashMismatch(String, String),
}

/// The fixed, short description of each error kind.
pub open spec fn spec_description(e: &BuildError) -> Seq<char> {
    match e {
        BuildError::Io(_) => "i/o error"@,
        BuildError::Time(_) => "time error"@,
        BuildError::WalkDir(_) => "directory walking error"@,
        BuildError::TomlParse(_) => "toml parsing error"@,
        BuildError::TomlDecode(_) => "toml decoding error"@,
        BuildError::Git(_) => "git error"@,
        BuildError::Hyper(_) => "hyper error"@,
        BuildError::NonToml(_) => "toml file error"@,
        BuildError::NoDesc(_) => "no 'package' nor 'clean' section found in PKG.toml"@,
        BuildError::HttpNoFile(_, _) => "http file error"@,
        BuildError::NoHash(_) => "missing digest"@,
        BuildError::HashMismatch(_, _) => "hash mismatch"@,
    }
}

/// The full user-visible message of each error: its description together
/// with the carried cause or diagnostic values.
pub open spec fn spec_message(e: &BuildError) -> Seq<char> {
    match e {
        BuildError::Io(s) => "i/o error, "@ + s@,
        BuildError::Time(s) => "time error, "@ + s@,
        BuildError::WalkDir(s) => "directory walking error, "@ + s@,
        BuildError::TomlParse(s) => "toml parsing error, "@ + s@,
        BuildError::TomlDecode(s) => "toml decoding error, "@ + s@,
        BuildError::Git(s) => "git error "@ + s@,
        BuildError::Hyper(s) => "hyper error "@ + s@,
        BuildError::NonToml(f) => "'"@ + f@ + "' is not a toml file"@,
        BuildError::NoDesc(n) => "no '"@ + n@ + "' section found in PKG.toml"@,
        BuildError::HttpNoFile(c, u) => "HTTP: "@ + dec_digits(*c as int) + " from '"@ + u@
            + "'"@,
        BuildError::NoHash(f) => "missing digest for '"@ + f@ + "'"@,
        BuildError::HashMismatch(f, h) => "hash mismatch: '"@ + f@ + "' : '"@ + h@ + "'"@,
    }
}

impl BuildError {
    /// An exact copy of the error.
    pub fn dup(&self) -> (r: BuildError)
        ensures
            r == *self,
    {
        match self {
            BuildError::Io(s) => BuildError::Io(s.clone()),
            BuildError::Time(s) => BuildError::Time(s.clone()),
            BuildError::WalkDir(s) => BuildError::WalkDir(s.clone()),
            BuildError::TomlParse(s) => BuildError::TomlParse(s.clone()),
            BuildError::TomlDecode(s) => BuildError::TomlDecode(s.clone()),
            BuildError::Git(s) => BuildError::Git(s.clone()),
            BuildError::Hyper(s) => BuildError::Hyper(s.clone()),
            BuildError::NonToml(s) => BuildError::NonToml(s.clone()),
            BuildError::NoDesc(s) => BuildError::NoDesc(s.clone()),
            BuildError::HttpNoFile(c, s) => BuildError::HttpNoFile(*c, s.clone()),
            BuildError::NoHash(s) => BuildError::NoHash(s.clone()),
            BuildError::HashMismatch(f, h) => BuildError::HashMismatch(f.clone(), h.clone()),
        }
    }

    /// The full user-visible message: the kind's description together with
    /// the carried cause or diagnostic values.
    pub fn message(&self) -> (r: String)
        ensures
            r@ == spec_message(self),
    {
        match self {
            BuildError::Io(s) => {
                let mut out = String::from_str("i/o error, ");
                out.append(s.as_str());
                out
            },
            BuildError::Time(s) => {
                let mut out = String::from_str("time error, ");
                out.append(s.as_str());
                out
            },
            BuildError::WalkDir(s) => {
                let mut out = String::from_str("directory walking error, ");
                out.append(s.as_str());
                out
            },
            BuildError::TomlParse(s) => {
                let mut out = String::from_str("toml parsing error, ");
                out.append(s.as_str());
                out
            },
            BuildError::TomlDecode(s) => {
                let mut out = String::from_str("toml decoding error, ");
                out.append(s.as_str());
                out
            },
            BuildError::Git(s) => {
                let mut out = String::from_str("git error ");
                out.append(s.as_str());
                out
            },
            BuildError::Hyper(s) => {
                let mut out = String::from_str("hyper error ");
                out.append(s.as_str());
                out
            },
            BuildError::NonToml(f) => {
                let mut out = String::from_str("'");
                out.append(f.as_str());
                out.append("' is not a toml file");
                proof {
                    assert(out@ =~= spec_message(self));
                }
                out
            },
            BuildError::NoDesc(n) => {
                let mut out = String::from_str("no '");
                out.append(n.as_str());
                out.append("' section found in PKG.toml");
                proof {
                    assert(out@ =~= spec_message(self));
                }
                out
            },
            BuildError::HttpNoFile(c, u) => {
                let mut out = String::from_str("HTTP: ");
                push_decimal(*c as u64, &mut out);
                out.append(" from '");
                out.append(u.as_str());
                out.append("'");
                proof {
                    assert(out@ =~= spec_message(self));
                }
                out
            },
            BuildError::NoHash(f) => {
                let mut out = String::from_str("missing digest for '");
                out.append(f.as_str());
                out.append("'");
                proof {
                    assert(out@ =~= spec_message(self));
                }
                out
            },
            BuildError::HashMismatch(f, h) => {
                let mut out = String::from_str("hash mismatch: '");
                out.append(f.as_str());
                out.append("' : '");
                out.append(h.as_str());
                out.append("'");
                proof {
                    assert(out@ =~= spec_message(self));
                }
                out
            },
        }
    }

    /// A short, fixed description of the error kind.
    pub fn description(&self) -> (r: &'static str)
        ensures
            r@ == spec_description(self),
    {
        match self {
            BuildError::Io(_) => "i/o error",
            BuildError::Time(_) => "time error",
            BuildError::WalkDir(_) => "directory walking error",
            BuildError::TomlParse(_) => "toml parsing error",
            BuildError::TomlDecode(_) => "toml decoding error",
            BuildError::Git(_) => "git error",
            BuildError::Hyper(_) => "hyper error",
            BuildError::NonToml(_) => "toml file error",
            BuildError::NoDesc(_) => "no 'package' nor 'clean' section found in PKG.toml",
            BuildError::HttpNoFile(_, _) => "http file error",
            BuildError::NoHash(_) => "missing digest",
            BuildError::HashMismatch(_, _) => "hash mismatch",
        }
    }
}

} // verus!
