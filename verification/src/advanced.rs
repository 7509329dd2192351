use vstd::prelude::*;

use crate::error::Error;

verus! {

/// The contract that demonstrates invoker authorization, dynamic dispatch and
/// deployment; all of its entry points are calls into the ledger host.
pub struct Advanced;

/// A custom account contract that attests on behalf of the pool.
pub struct AttestAccount;

/// The kind of an authorization context that the host asks an account to
/// approve.
#[derive(Clone, Copy, Debug, PartialEq, Eq, Structural)]
pub enum ContextKind {
    /// A call of a contract function.
    Contract,
    /// The creation of a contract whose constructor takes no arguments.
    CreateContractHostFn,
    /// The creation of a contract whose constructor takes arguments.
    CreateContractWithCtorHostFn,
}

/// Whether some context in `contexts` creates a contract.
pub open spec fn creates_contract(contexts: Seq<ContextKind>) -> bool {
    exists|i: int| 0 <= i < contexts.len() && contexts[i] != ContextKind::Contract
}

/// The account's policy looks at every context: a list in which the context
/// at any index creates a contract is refused with `NotInitialized`, wherever
/// that context stands, and only a list of nothing but contract calls is
/// accepted.
pub proof fn lemma_policy_checks_every_context(contexts: Seq<ContextKind>, i: int)
    requires
        0 <= i < contexts.len(),
    ensures
        contexts[i] != ContextKind::Contract ==> creates_contract(contexts),
        !creates_contract(contexts) ==> contexts[i] == ContextKind::Contract,
        creates_contract(contexts.subrange(0, i + 1)) ==> creates_contract(contexts),
        creates_contract(contexts) <==> exists|k: int|
            0 <= k < contexts.len() && #[trigger] contexts[k] != ContextKind::Contract,
{
    if creates_contract(contexts.subrange(0, i + 1)) {
        let k = choose|k: int|
            0 <= k < i + 1 && #[trigger] contexts.subrange(0, i + 1)[k] != ContextKind::Contract;
        assert(contexts[k] != ContextKind::Contract);
    }
}

impl AttestAccount {
    /// The account's policy on the contexts it is asked to authorize: it
    /// signs only for contract calls, and refuses with `NotInitialized` as
    /// soon as one context would create a contract. Signatures are checked
    /// only after this policy has passed.
    pub fn check_auth_contexts(contexts: &Vec<ContextKind>) -> (r: Result<(), Error>)
        ensures
            creates_contract(contexts@) ==> r == Err::<(), Error>(Error::NotInitialized),
            !creates_contract(contexts@) ==> r == Ok::<(), Error>(()),
            forall|i: int|
                0 <= i < contexts@.len() && #[trigger] contexts@[i] != ContextKind::Contract
                    ==> r == Err::<(), Error>(Error::NotInitialized),
            r == Ok::<(), Error>(()) <==> forall|i: int|
                0 <= i < contexts@.len() ==> #[trigger] contexts@[i] == ContextKind::Contract,
            r is Err ==> r == Err::<(), Error>(Error::NotInitialized),
    {
        let mut i: usize = 0;
        while i < contexts.len()
            invariant
                0 <= i <= contexts@.len(),
                forall|k: int| 0 <= k < i ==> contexts@[k] == ContextKind::Contract,
            decreases contexts@.len() - i,
        {
            match contexts[i] {
                ContextKind::Contract => {},
                ContextKind::CreateContractHostFn => {
                    return Err(Error::NotInitialized);
                },
                ContextKind::CreateContractWithCtorHostFn => {
                    return Err(Error::NotInitialized);
                },
            }
            i = i + 1;
        }
        Ok(())
    }
}

} // verus!
