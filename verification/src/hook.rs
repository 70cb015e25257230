//! When the hook acts at all.

use vstd::prelude::*;

verus! {

/// Whether the skill named in the hook input is `audit`, the one skill the
/// hook acts on. `None` is an input that names no skill (or that could not
/// be read).
pub fn is_audit_skill(skill: &Option<String>) -> (r: bool)
    ensures
        r == (skill matches Some(s) && s@ == "audit"@),
{
    match skill {
        Some(s) => {
            let audit = String::from_str("audit");
            s.eq(&audit)
        },
        None => false,
    }
}

} // verus!
