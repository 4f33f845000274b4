//! Access levels and the permission claims carried by a verified token.

use vstd::prelude::*;

verus! {

/// A route's required permission tier. Holding `Write` also satisfies a
/// `Read` requirement; no other implication exists between levels.
#[derive(Debug, Clone, Copy, PartialEq, Eq, Structural)]
pub enum AccessLevel {
    Write,
    Read,
}

/// The string form of a level, as it appears among a token's permission
/// claims.
pub open spec fn level_str(level: AccessLevel) -> Seq<char> {
    match level {
        AccessLevel::Write => "Write"@,
        AccessLevel::Read => "Read"@,
    }
}

impl AccessLevel {
    /// The string form of the level.
    pub fn as_string(&self) -> (r: String)
        ensures
            r@ == level_str(*self),
    {
        match self {
            AccessLevel::Write => "Write".to_owned(),
            AccessLevel::Read => "Read".to_owned(),
        }
    }
}

/// The permission claims of a verified token. `None` means the token carried
/// no permission set at all, which is treated as holding no permissions.
#[derive(Debug, Clone)]
pub struct Claims {
    pub permissions: Option<Vec<String>>,
}

/// Whether a permission set grants a required permission string: the set must
/// contain the required string itself, or contain `"Write"`, which implies
/// every level. An absent set grants nothing.
pub open spec fn spec_validate_permissions(
    permissions: Option<Seq<Seq<char>>>,
    required: Seq<char>,
) -> bool {
    match permissions {
        None => false,
        Some(perms) => perms.contains(required) || perms.contains("Write"@),
    }
}

impl Claims {
    /// The permission strings as a mathematical sequence, if any were carried.
    pub open spec fn perms_view(&self) -> Option<Seq<Seq<char>>> {
        match self.permissions {
            None => None,
            Some(perms) => Some(perms.deep_view()),
        }
    }

    /// Decides whether these claims grant the required permission: the
    /// permission set must contain `required_access_level` or `"Write"`.
    pub fn validate_permissions(&self, required_access_level: String) -> (r: bool)
        ensures
            r == spec_validate_permissions(self.perms_view(), required_access_level@),
    {
        match &self.permissions {
            None => false,
            Some(perms) => {
                let write_level: String = "Write".to_owned();
                let mut found: bool = false;
                let mut i: usize = 0;
                while i < perms.len()
                    invariant
                        0 <= i <= perms.len(),
                        write_level@ == "Write"@,
                        found == exists|j: int|
                            0 <= j < i && (perms.deep_view()[j] == required_access_level@
                                || perms.deep_view()[j] == "Write"@),
                    decreases perms.len() - i,
                {
                    proof {
                        assert(perms.deep_view()[i as int] == perms@[i as int]@);
                    }
                    if perms[i] == required_access_level || perms[i] == write_level {
                        found = true;
                    }
                    i = i + 1;
                }
                proof {
                    let perm_seq = perms.deep_view();
                    assert(found == (perm_seq.contains(required_access_level@)
                        || perm_seq.contains("Write"@)));
                }
                found
            },
        }
    }
}

/// Law: holding `Write` grants access at every required level.
pub proof fn lemma_write_grants_all(perms: Seq<Seq<char>>, level: AccessLevel)
    requires
        perms.contains("Write"@),
    ensures
        spec_validate_permissions(Some(perms), level_str(level)),
{
}

/// Law: a token that carries no permission set is denied at every level.
pub proof fn lemma_no_permissions_denies(level: AccessLevel)
    ensures
        !spec_validate_permissions(None, level_str(level)),
{
}

/// Law: a permission set without `Write` never satisfies a `Write`
/// requirement, whatever else it holds.
pub proof fn lemma_without_write_denied(perms: Seq<Seq<char>>)
    requires
        !perms.contains("Write"@),
    ensures
        !spec_validate_permissions(Some(perms), level_str(AccessLevel::Write)),
{
}

} // verus!
