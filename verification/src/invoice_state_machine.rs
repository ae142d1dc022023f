//! The invoice lifecycle:
//!
//!   Created → Listed → Funded → Repaid
//!                           └→ Defaulted
//!
//! Each transition function accepts exactly one source status; every other
//! pair of statuses is rejected. The laws at the end of this file prove, for
//! every status, that nothing outside the documented edges is reachable.
use vstd::prelude::*;

verus! {

/// Status of an invoice NFT.
#[derive(Clone, Copy, Debug, PartialEq, Eq, Structural)]
pub enum InvoiceStatus {
    Created,
    Listed,
    Funded,
    Repaid,
    Defaulted,
}

/// Why a transition was refused.
#[derive(Clone, Copy, Debug, PartialEq, Eq, Structural)]
pub enum TransitionError {
    /// The invoice is not in the status the transition starts from.
    InvalidInvoiceStatus,
    /// `set_defaulted` on a funded invoice whose due date has not passed.
    NotYetDue,
}

/// The result of `set_listed` on `status`.
pub open spec fn listed_from(status: InvoiceStatus) -> Result<InvoiceStatus, TransitionError> {
    if status == InvoiceStatus::Created {
        Ok(InvoiceStatus::Listed)
    } else {
        Err(TransitionError::InvalidInvoiceStatus)
    }
}

/// The result of `set_funded` on `status`.
pub open spec fn funded_from(status: InvoiceStatus) -> Result<InvoiceStatus, TransitionError> {
    if status == InvoiceStatus::Listed {
        Ok(InvoiceStatus::Funded)
    } else {
        Err(TransitionError::InvalidInvoiceStatus)
    }
}

/// The result of `set_repaid` on `status`.
pub open spec fn repaid_from(status: InvoiceStatus) -> Result<InvoiceStatus, TransitionError> {
    if status == InvoiceStatus::Funded {
        Ok(InvoiceStatus::Repaid)
    } else {
        Err(TransitionError::InvalidInvoiceStatus)
    }
}

/// The result of `set_defaulted` on `status`, given whether the due date has passed.
pub open spec fn defaulted_from(status: InvoiceStatus, past_due: bool) -> Result<
    InvoiceStatus,
    TransitionError,
> {
    if status != InvoiceStatus::Funded {
        Err(TransitionError::InvalidInvoiceStatus)
    } else if !past_due {
        Err(TransitionError::NotYetDue)
    } else {
        Ok(InvoiceStatus::Defaulted)
    }
}

/// The documented edges of the lifecycle.
pub open spec fn valid_transition(from: InvoiceStatus, to: InvoiceStatus) -> bool {
    ||| from == InvoiceStatus::Created && to == InvoiceStatus::Listed
    ||| from == InvoiceStatus::Listed && to == InvoiceStatus::Funded
    ||| from == InvoiceStatus::Funded && to == InvoiceStatus::Repaid
    ||| from == InvoiceStatus::Funded && to == InvoiceStatus::Defaulted
}

/// Statuses from which no transition leads anywhere.
pub open spec fn terminal(status: InvoiceStatus) -> bool {
    status == InvoiceStatus::Repaid || status == InvoiceStatus::Defaulted
}

/// The status that selector `selector` stands for: the variants in declaration
/// order, indexed by `selector % 5`.
pub open spec fn status_of_selector(selector: u8) -> InvoiceStatus {
    let k = selector % 5;
    if k == 0 {
        InvoiceStatus::Created
    } else if k == 1 {
        InvoiceStatus::Listed
    } else if k == 2 {
        InvoiceStatus::Funded
    } else if k == 3 {
        InvoiceStatus::Repaid
    } else {
        InvoiceStatus::Defaulted
    }
}

/// Transition Created → Listed.
pub fn set_listed(status: InvoiceStatus) -> (r: Result<InvoiceStatus, TransitionError>)
    ensures
        r == listed_from(status),
{
    if status != InvoiceStatus::Created {
        return Err(TransitionError::InvalidInvoiceStatus);
    }
    Ok(InvoiceStatus::Listed)
}

/// Transition Listed → Funded.
pub fn set_funded(status: InvoiceStatus) -> (r: Result<InvoiceStatus, TransitionError>)
    ensures
        r == funded_from(status),
{
    if status != InvoiceStatus::Listed {
        return Err(TransitionError::InvalidInvoiceStatus);
    }
    Ok(InvoiceStatus::Funded)
}

/// Transition Funded → Repaid.
pub fn set_repaid(status: InvoiceStatus) -> (r: Result<InvoiceStatus, TransitionError>)
    ensures
        r == repaid_from(status),
{
    if status != InvoiceStatus::Funded {
        return Err(TransitionError::InvalidInvoiceStatus);
    }
    Ok(InvoiceStatus::Repaid)
}

/// Transition Funded → Defaulted, only once the due date has passed.
pub fn set_defaulted(status: InvoiceStatus, past_due: bool) -> (r: Result<
    InvoiceStatus,
    TransitionError,
>)
    ensures
        r == defaulted_from(status, past_due),
{
    if status != InvoiceStatus::Funded {
        return Err(TransitionError::InvalidInvoiceStatus);
    }
    if !past_due {
        return Err(TransitionError::NotYetDue);
    }
    Ok(InvoiceStatus::Defaulted)
}

/// Whether `(from, to)` is one of the documented edges.
pub fn is_valid_transition(from: InvoiceStatus, to: InvoiceStatus) -> (r: bool)
    ensures
        r == valid_transition(from, to),
{
    match (from, to) {
        (InvoiceStatus::Created, InvoiceStatus::Listed) => true,
        (InvoiceStatus::Listed, InvoiceStatus::Funded) => true,
        (InvoiceStatus::Funded, InvoiceStatus::Repaid) => true,
        (InvoiceStatus::Funded, InvoiceStatus::Defaulted) => true,
        _ => false,
    }
}

/// Whether `status` is terminal (Repaid or Defaulted).
pub fn is_terminal(status: InvoiceStatus) -> (r: bool)
    ensures
        r == terminal(status),
{
    match status {
        InvoiceStatus::Repaid | InvoiceStatus::Defaulted => true,
        _ => false,
    }
}

/// Map an integer selector onto a status, covering every variant.
pub fn any_status(selector: u8) -> (r: InvoiceStatus)
    ensures
        r == status_of_selector(selector),
{
    let k: u8 = selector % 5;
    if k == 0 {
        InvoiceStatus::Created
    } else if k == 1 {
        InvoiceStatus::Listed
    } else if k == 2 {
        InvoiceStatus::Funded
    } else if k == 3 {
        InvoiceStatus::Repaid
    } else {
        InvoiceStatus::Defaulted
    }
}

/// Every transition that any transition function accepts is one of the
/// documented edges.
pub proof fn verify_only_valid_transitions_forward(from: InvoiceStatus, past_due: bool)
    ensures
        listed_from(from) is Ok ==> valid_transition(from, listed_from(from)->Ok_0),
        funded_from(from) is Ok ==> valid_transition(from, funded_from(from)->Ok_0),
        repaid_from(from) is Ok ==> valid_transition(from, repaid_from(from)->Ok_0),
        defaulted_from(from, past_due) is Ok ==> valid_transition(
            from,
            defaulted_from(from, past_due)->Ok_0,
        ),
{
}

/// Each transition function rejects every status other than its one source status.
pub proof fn verify_invalid_transitions_are_rejected(from: InvoiceStatus, past_due: bool)
    ensures
        from != InvoiceStatus::Created ==> listed_from(from) is Err,
        from != InvoiceStatus::Listed ==> funded_from(from) is Err,
        from != InvoiceStatus::Funded ==> repaid_from(from) is Err,
        from != InvoiceStatus::Funded ==> defaulted_from(from, past_due) is Err,
{
}

/// No transition function accepts a terminal status.
pub proof fn verify_terminal_states_are_immutable(status: InvoiceStatus, past_due: bool)
    requires
        terminal(status),
    ensures
        listed_from(status) is Err,
        funded_from(status) is Err,
        repaid_from(status) is Err,
        defaulted_from(status, past_due) is Err,
{
}

/// The happy paths Created → Listed → Funded → Repaid and
/// Created → Listed → Funded → Defaulted succeed step by step, only the last
/// status of each is terminal.
pub proof fn verify_transition_sequence_happy_path()
    ensures
        listed_from(InvoiceStatus::Created) == Ok::<InvoiceStatus, TransitionError>(
            InvoiceStatus::Listed,
        ),
        !terminal(InvoiceStatus::Listed),
        funded_from(InvoiceStatus::Listed) == Ok::<InvoiceStatus, TransitionError>(
            InvoiceStatus::Funded,
        ),
        !terminal(InvoiceStatus::Funded),
        repaid_from(InvoiceStatus::Funded) == Ok::<InvoiceStatus, TransitionError>(
            InvoiceStatus::Repaid,
        ),
        terminal(InvoiceStatus::Repaid),
        defaulted_from(InvoiceStatus::Funded, true) == Ok::<InvoiceStatus, TransitionError>(
            InvoiceStatus::Defaulted,
        ),
        terminal(InvoiceStatus::Defaulted),
{
}

/// A funded invoice cannot default before its due date.
pub proof fn verify_defaulted_requires_past_due()
    ensures
        defaulted_from(InvoiceStatus::Funded, false) == Err::<InvoiceStatus, TransitionError>(
            TransitionError::NotYetDue,
        ),
{
}

/// The valid edges are exactly the transitions that some transition function
/// performs: every documented edge is taken by one of them.
pub proof fn lemma_every_valid_edge_is_taken(from: InvoiceStatus, to: InvoiceStatus)
    requires
        valid_transition(from, to),
    ensures
        listed_from(from) == Ok::<InvoiceStatus, TransitionError>(to) || funded_from(from) == Ok::<
            InvoiceStatus,
            TransitionError,
        >(to) || repaid_from(from) == Ok::<InvoiceStatus, TransitionError>(to) || defaulted_from(
            from,
            true,
        ) == Ok::<InvoiceStatus, TransitionError>(to),
{
}

/// Any sequence of accepted transitions moves strictly forward: a status, once
/// left, is never reached again (the lifecycle has no cycles).
pub open spec fn rank(status: InvoiceStatus) -> int {
    match status {
        InvoiceStatus::Created => 0,
        InvoiceStatus::Listed => 1,
        InvoiceStatus::Funded => 2,
        InvoiceStatus::Repaid => 3,
        InvoiceStatus::Defaulted => 3,
    }
}

/// Every valid edge increases the rank, so no status is ever revisited.
pub proof fn lemma_valid_transitions_increase_rank(from: InvoiceStatus, to: InvoiceStatus)
    requires
        valid_transition(from, to),
    ensures
        rank(from) < rank(to),
{
}

} // verus!
