//! Auto-resolution policy for permission prompts.
//!
//! The engine never shows a dialog: a permission request from the agent is
//! answered at once by a fixed policy.  An option marked "allow once" is
//! preferred; failing that, one marked "allow always"; failing that, the
//! first option offered.  With no options at all the prompt is cancelled.

use vstd::prelude::*;

verus! {

/// The kind of a permission option, as offered by the agent.
#[derive(Clone, Copy, Debug, PartialEq, Eq, Structural)]
pub enum PermissionOptionKind {
    AllowOnce,
    AllowAlways,
    RejectOnce,
    RejectAlways,
}

/// One option of a permission prompt.
pub struct PermissionOption {
    pub option_id: String,
    pub name: String,
    pub kind: PermissionOptionKind,
}

/// The reply to a permission prompt.
pub enum PermissionOutcome {
    Selected { option_id: String },
    Cancelled,
}

/// No option with index below `n` has kind `k`.
pub open spec fn none_of_kind_before(
    opts: Seq<PermissionOption>,
    k: PermissionOptionKind,
    n: int,
) -> bool {
    forall|j: int| 0 <= j < n ==> opts[j].kind != k
}

/// Index `i` holds the option the policy picks: the first "allow once"
/// option; else, with no "allow once" offered, the first "allow always"
/// option; else, with neither offered, the first option.
pub open spec fn is_preferred_choice(opts: Seq<PermissionOption>, i: int) -> bool {
    &&& 0 <= i < opts.len()
    &&& {
        ||| (opts[i].kind == PermissionOptionKind::AllowOnce && none_of_kind_before(
            opts,
            PermissionOptionKind::AllowOnce,
            i,
        ))
        ||| (opts[i].kind == PermissionOptionKind::AllowAlways && none_of_kind_before(
            opts,
            PermissionOptionKind::AllowOnce,
            opts.len() as int,
        ) && none_of_kind_before(opts, PermissionOptionKind::AllowAlways, i))
        ||| (i == 0 && none_of_kind_before(opts, PermissionOptionKind::AllowOnce, opts.len() as int)
            && none_of_kind_before(opts, PermissionOptionKind::AllowAlways, opts.len() as int))
    }
}

/// Answers a permission prompt by the fixed policy.  With no options the
/// prompt is cancelled; otherwise the selected id is that of the preferred
/// option.
pub fn handle_permission(options: &Vec<PermissionOption>) -> (r: PermissionOutcome)
    ensures
        match r {
            PermissionOutcome::Cancelled => options@.len() == 0,
            PermissionOutcome::Selected { option_id } => exists|i: int|
                is_preferred_choice(options@, i) && option_id@ == options@[i].option_id@,
        },
{
    let n = options.len();
    let mut i: usize = 0;
    while i < n
        invariant
            i <= n,
            n == options@.len(),
            forall|j: int| 0 <= j < i ==> options@[j].kind != PermissionOptionKind::AllowOnce,
        decreases n - i,
    {
        if options[i].kind == PermissionOptionKind::AllowOnce {
            proof {
                assert(is_preferred_choice(options@, i as int));
            }
            return PermissionOutcome::Selected { option_id: options[i].option_id.clone() };
        }
        i += 1;
    }
    let mut k: usize = 0;
    while k < n
        invariant
            k <= n,
            n == options@.len(),
            forall|j: int| 0 <= j < n ==> options@[j].kind != PermissionOptionKind::AllowOnce,
            forall|j: int| 0 <= j < k ==> options@[j].kind != PermissionOptionKind::AllowAlways,
        decreases n - k,
    {
        if options[k].kind == PermissionOptionKind::AllowAlways {
            proof {
                assert(is_preferred_choice(options@, k as int));
            }
            return PermissionOutcome::Selected { option_id: options[k].option_id.clone() };
        }
        k += 1;
    }
    if n > 0 {
        proof {
            assert(is_preferred_choice(options@, 0));
        }
        PermissionOutcome::Selected { option_id: options[0].option_id.clone() }
    } else {
        PermissionOutcome::Cancelled
    }
}

} // verus!
