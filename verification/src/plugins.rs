//! The capability plugins that the application shell registers at startup,
//! and the fixed order in which it registers them.

use vstd::prelude::*;

verus! {

/// One OS/platform-level capability granted to the rest of the application
/// by a pre-built plugin of the host framework.
#[derive(Clone, Copy, Debug, PartialEq, Eq, Structural)]
pub enum Capability {
    /// Shell/process execution.
    ShellExecution,
    /// Process management (exit, restart).
    ProcessManagement,
    /// Native file dialogs.
    Dialog,
    /// OS notifications.
    Notification,
    /// Outbound HTTP fetching.
    HttpFetch,
    /// Structured logging, filtered at informational severity and above.
    Logging,
}

/// The fixed order in which the bootstrapper registers the six capability
/// plugins. Registration follows this sequence exactly.
pub open spec fn registration_order() -> Seq<Capability> {
    seq![
        Capability::ShellExecution,
        Capability::ProcessManagement,
        Capability::Dialog,
        Capability::Notification,
        Capability::HttpFetch,
        Capability::Logging,
    ]
}

/// The registration plan as an ordered list of capability descriptors,
/// to be applied in sequence to the host framework's builder.
pub fn registration_plan() -> (plan: Vec<Capability>)
    ensures
        plan@ == registration_order(),
{
    let mut plan: Vec<Capability> = Vec::new();
    plan.push(Capability::ShellExecution);
    plan.push(Capability::ProcessManagement);
    plan.push(Capability::Dialog);
    plan.push(Capability::Notification);
    plan.push(Capability::HttpFetch);
    plan.push(Capability::Logging);
    proof {
        assert(plan@ =~= registration_order());
    }
    plan
}

/// Every capability is granted by the full registration plan: a lookup for
/// any capability inside the setup callback finds it registered.
pub proof fn lemma_order_covers_all_capabilities(c: Capability)
    ensures
        registration_order().contains(c),
{
    match c {
        Capability::ShellExecution => {
            assert(registration_order()[0] == c);
        }
        Capability::ProcessManagement => {
            assert(registration_order()[1] == c);
        }
        Capability::Dialog => {
            assert(registration_order()[2] == c);
        }
        Capability::Notification => {
            assert(registration_order()[3] == c);
        }
        Capability::HttpFetch => {
            assert(registration_order()[4] == c);
        }
        Capability::Logging => {
            assert(registration_order()[5] == c);
        }
    }
}

} // verus!
