//! The two strings that identify a plugin.

use vstd::prelude::*;
use crate::json::{json_string_member, read_string_member};
use crate::text::{has_substring, str_contains};

verus! {

/// Why a pair of strings is no plugin identity.
#[derive(Clone, Copy, Debug, PartialEq, Eq)]
pub enum ManifestInvalid {
    /// The metadata section holds no string under `plugin_name`.
    PluginNameMissing,
    /// The metadata section holds no string under `identifier`.
    IdentifierMissing,
    PluginNameEmpty,
    PluginNameUnsafe,
    IdentifierEmpty,
    IdentifierUnsafe,
}

/// The text holds no path separator, of either platform.
pub open spec fn filesystem_safe(s: Seq<char>) -> bool {
    !has_substring(s, "/"@) && !has_substring(s, "\\"@)
}

/// The first reason for which the pair is refused, if any.
pub open spec fn identity_defect(name: Seq<char>, identifier: Seq<char>) -> Option<ManifestInvalid> {
    if name.len() == 0 {
        Some(ManifestInvalid::PluginNameEmpty)
    } else if !filesystem_safe(name) {
        Some(ManifestInvalid::PluginNameUnsafe)
    } else if identifier.len() == 0 {
        Some(ManifestInvalid::IdentifierEmpty)
    } else if !filesystem_safe(identifier) {
        Some(ManifestInvalid::IdentifierUnsafe)
    } else {
        None
    }
}

/// The first reason for which a metadata section's two members are refused,
/// if any: a missing member comes before any defect of a present one.
pub open spec fn fields_defect(
    name: Option<Seq<char>>,
    identifier: Option<Seq<char>>,
) -> Option<ManifestInvalid> {
    if name is None {
        Some(ManifestInvalid::PluginNameMissing)
    } else if identifier is None {
        Some(ManifestInvalid::IdentifierMissing)
    } else {
        identity_defect(name->0, identifier->0)
    }
}

/// `r` is the identity made of the two members, or their first defect.
pub open spec fn identity_meets(
    r: Result<PluginIdentity, ManifestInvalid>,
    name: Option<Seq<char>>,
    identifier: Option<Seq<char>>,
) -> bool {
    match fields_defect(name, identifier) {
        Some(e) => r == Err::<PluginIdentity, ManifestInvalid>(e),
        None => r is Ok && r->Ok_0.name() == name->0 && r->Ok_0.identifier() == identifier->0,
    }
}

/// A plugin's display name and its bundle identifier: both non-empty, both
/// free of path separators.
#[derive(Debug, PartialEq, Eq)]
pub struct PluginIdentity {
    plugin_name: String,
    bundle_identifier: String,
}

impl PluginIdentity {
    #[verifier::type_invariant]
    spec fn valid(&self) -> bool {
        identity_defect(self.plugin_name@, self.bundle_identifier@) is None
    }

    /// The plugin's name.
    pub closed spec fn name(&self) -> Seq<char> {
        self.plugin_name@
    }

    /// The bundle identifier.
    pub closed spec fn identifier(&self) -> Seq<char> {
        self.bundle_identifier@
    }

    /// Accepts the pair if it has no defect, and keeps both strings as given.
    pub fn new(plugin_name: &str, identifier: &str) -> (r: Result<PluginIdentity, ManifestInvalid>)
        ensures
            match identity_defect(plugin_name@, identifier@) {
                Some(e) => r == Err::<PluginIdentity, ManifestInvalid>(e),
                None => r is Ok && r->Ok_0.name() == plugin_name@ && r->Ok_0.identifier()
                    == identifier@,
            },
    {
        if plugin_name.is_empty() {
            return Err(ManifestInvalid::PluginNameEmpty);
        }
        if str_contains(plugin_name, "/") || str_contains(plugin_name, "\\") {
            return Err(ManifestInvalid::PluginNameUnsafe);
        }
        if identifier.is_empty() {
            return Err(ManifestInvalid::IdentifierEmpty);
        }
        if str_contains(identifier, "/") || str_contains(identifier, "\\") {
            return Err(ManifestInvalid::IdentifierUnsafe);
        }
        Ok(
            PluginIdentity {
                plugin_name: String::from_str(plugin_name),
                bundle_identifier: String::from_str(identifier),
            },
        )
    }

    /// The identity made of the two members of a metadata section, as far as
    /// the section holds them.
    pub fn from_fields(name: Option<String>, identifier: Option<String>) -> (r: Result<
        PluginIdentity,
        ManifestInvalid,
    >)
        ensures
            identity_meets(
                r,
                match name {
                    Some(n) => Some(n@),
                    None => None,
                },
                match identifier {
                    Some(i) => Some(i@),
                    None => None,
                },
            ),
    {
        match name {
            None => Err(ManifestInvalid::PluginNameMissing),
            Some(n) => match identifier {
                None => Err(ManifestInvalid::IdentifierMissing),
                Some(i) => PluginIdentity::new(n.as_str(), i.as_str()),
            },
        }
    }

    /// The identity that a package's metadata section declares. `section` is
    /// the section as JSON text; its members `plugin_name` and `identifier`
    /// are read, and any other is ignored.
    pub fn from_metadata(section: &str) -> (r: Result<PluginIdentity, ManifestInvalid>)
        ensures
            identity_meets(
                r,
                json_string_member(section@, "plugin_name"@),
                json_string_member(section@, "identifier"@),
            ),
    {
        let name = read_string_member(section, "plugin_name");
        let identifier = read_string_member(section, "identifier");
        PluginIdentity::from_fields(name, identifier)
    }

    /// The plugin's name. Every identity is free of defects.
    pub fn plugin_name(&self) -> (r: &str)
        ensures
            r@ == self.name(),
            identity_defect(self.name(), self.identifier()) is None,
    {
        proof {
            use_type_invariant(self);
        }
        self.plugin_name.as_str()
    }

    /// The bundle identifier. Every identity is free of defects.
    pub fn bundle_identifier(&self) -> (r: &str)
        ensures
            r@ == self.identifier(),
            identity_defect(self.name(), self.identifier()) is None,
    {
        proof {
            use_type_invariant(self);
        }
        self.bundle_identifier.as_str()
    }
}

} // verus!
