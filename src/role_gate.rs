use vstd::prelude::*;
use vstd::string::StringExecFns;

verus! {

/// The bracketed label shown for a role tag. Only `system_admin` and
/// `remote_agent` have labels of their own; an absent or unrecognised tag
/// falls back to the least-privileged display label, `user_admin`'s.
pub open spec fn role_label(role: Option<Seq<char>>) -> Seq<char> {
    match role {
        Some(r) => if r == "system_admin"@ {
            "[System Admin]"@
        } else if r == "remote_agent"@ {
            "[Remote Agent]"@
        } else {
            "[User Admin]"@
        },
        None => "[User Admin]"@,
    }
}

/// What `respond` returns for `instruction` under `role`.
pub open spec fn response_text(instruction: Seq<char>, role: Option<Seq<char>>) -> Seq<char> {
    role_label(role) + " Agent received: "@ + instruction
}

pub open spec fn opt_str_view(role: Option<&str>) -> Option<Seq<char>> {
    match role {
        Some(s) => Some(s@),
        None => None,
    }
}

/// Whether two string slices hold the same characters.
pub fn same_text(a: &str, b: &str) -> (r: bool)
    ensures
        r == (a@ == b@),
{
    let x: String = a.to_owned();
    let y: String = b.to_owned();
    x == y
}

/// Echoes `instruction`, prefixed with the label of `role`.
pub fn respond(instruction: &str, role: Option<&str>) -> (r: String)
    ensures
        r@ == response_text(instruction@, opt_str_view(role)),
{
    let mut out = match role {
        Some(tag) => {
            if same_text(tag, "system_admin") {
                String::from_str("[System Admin]")
            } else if same_text(tag, "remote_agent") {
                String::from_str("[Remote Agent]")
            } else {
                String::from_str("[User Admin]")
            }
        },
        None => String::from_str("[User Admin]"),
    };
    out.append(" Agent received: ");
    out.append(instruction);
    out
}

} // verus!
