//! A bounded audit log of administrative actions: a ring buffer of the most
//! recent `MAX_AUDIT_LOG_SIZE` entries, read back newest first, page by page.
use vstd::prelude::*;
use std::collections::HashMap;
use crate::types::{Addr, ParameterKey, WasmHash};
use crate::access_control::Role;

verus! {

broadcast use vstd::std_specs::hash::group_hash_axioms;

/// Number of slots of the ring buffer.
pub const MAX_AUDIT_LOG_SIZE: u64 = 100;

/// Largest page that a read returns.
pub const MAX_PAGE_SIZE: u32 = 50;

/// Kind of administrative action recorded.
#[derive(Clone, Copy, Debug, PartialEq, Eq, Structural)]
pub enum AdminActionType {
    Pause,
    Unpause,
    GrantRole,
    RevokeRole,
    TransferAdmin,
    ConfigureMultisig,
    MultisigExecuteAction,
    ProposeParameter,
    ExecuteParameter,
    ProposeUpgrade,
    ExecuteUpgrade,
}

/// Contract that recorded an entry.
#[derive(Clone, Copy, Debug, PartialEq, Eq, Structural)]
pub enum AuditSource {
    AccessControl,
}

/// What an entry records beyond its kind.
#[derive(Clone, Copy, Debug, PartialEq, Eq)]
pub enum AuditDetails {
    /// No payload (pause, unpause).
    Empty,
    /// The address a role was granted to or revoked from, and the role.
    AddressRole(Addr, Role),
    /// The new admin.
    Address(Addr),
    /// A signer threshold and the number of signers.
    Counts(u32, u32),
    /// The multisig proposal that was executed.
    ProposalId(u64),
    /// A governed parameter and its value.
    Parameter(ParameterKey, u32),
    /// The code hash of an upgrade.
    Wasm(WasmHash),
}

impl AuditDetails {
    /// Whether the entry carries no payload.
    pub fn is_empty(&self) -> (r: bool)
        ensures
            r <==> *self == AuditDetails::Empty,
    {
        match self {
            AuditDetails::Empty => true,
            _ => false,
        }
    }
}

/// One recorded administrative action.
#[derive(Clone, Copy, Debug, PartialEq, Eq)]
pub struct AdminAuditEntry {
    /// Number of actions recorded before this one.
    pub sequence: u64,
    pub timestamp: u64,
    pub actor: Addr,
    pub action: AdminActionType,
    pub source: AuditSource,
    pub details: AuditDetails,
}

/// The ring buffer.
pub struct AuditLog {
    /// Slot that the next entry is written to.
    pub head: u64,
    /// Number of entries ever recorded.
    pub total: u64,
    /// Entries by slot.
    pub entries: HashMap<u64, AdminAuditEntry>,
}

/// Mathematical content of an `AuditLog`.
#[verifier::ext_equal]
pub struct AuditLogView {
    pub head: u64,
    pub total: u64,
    pub entries: Map<u64, AdminAuditEntry>,
}

impl View for AuditLog {
    type V = AuditLogView;

    open spec fn view(&self) -> AuditLogView {
        AuditLogView { head: self.head, total: self.total, entries: self.entries@ }
    }
}

/// `page_size` clamped to 1..=50.
pub open spec fn clamp_page_size(page_size: u32) -> int {
    if page_size < 1 {
        1
    } else if page_size > MAX_PAGE_SIZE {
        MAX_PAGE_SIZE as int
    } else {
        page_size as int
    }
}

/// Slot of the entry `offset` places before the newest one.
pub open spec fn slot_back(head: u64, offset: int) -> int {
    (head + MAX_AUDIT_LOG_SIZE - 1 - offset) % (MAX_AUDIT_LOG_SIZE as int)
}

impl AuditLogView {
    /// The slot invariant: the head is a slot of the ring.
    pub open spec fn wf(self) -> bool {
        self.head < MAX_AUDIT_LOG_SIZE
    }

    /// Whether another entry can be counted.
    pub open spec fn has_room(self) -> bool {
        self.total < u64::MAX
    }

    /// The log after recording `entry`'s action at the head.
    pub open spec fn appended(
        self,
        timestamp: u64,
        actor: Addr,
        action: AdminActionType,
        details: AuditDetails,
    ) -> AuditLogView {
        AuditLogView {
            head: ((self.head + 1) % (MAX_AUDIT_LOG_SIZE as int)) as u64,
            total: (self.total + 1) as u64,
            entries: self.entries.insert(
                self.head,
                AdminAuditEntry {
                    sequence: self.total,
                    timestamp,
                    actor,
                    action,
                    source: AuditSource::AccessControl,
                    details,
                },
            ),
        }
    }

    /// Number of entries still held: the total, at most the ring's size.
    pub open spec fn stored(self) -> int {
        if self.total < MAX_AUDIT_LOG_SIZE {
            self.total as int
        } else {
            MAX_AUDIT_LOG_SIZE as int
        }
    }

    /// The entries at offsets `skip .. skip + n` back from the newest, those
    /// slots that hold an entry, newest first.
    pub open spec fn walk_back(self, skip: int, n: int) -> Seq<AdminAuditEntry>
        decreases n,
    {
        if n <= 0 {
            Seq::empty()
        } else {
            let prev = self.walk_back(skip, n - 1);
            let pos = slot_back(self.head, skip + n - 1);
            if self.entries.contains_key(pos as u64) {
                prev.push(self.entries[pos as u64])
            } else {
                prev
            }
        }
    }

    /// Page `page` of the log, newest first, `page_size` clamped to 1..=50.
    pub open spec fn page(self, page: u32, page_size: u32) -> Seq<AdminAuditEntry> {
        let size = clamp_page_size(page_size);
        let skip = page * size;
        let avail = self.stored() - skip;
        let n = if avail < 0 {
            0
        } else if avail < size {
            avail
        } else {
            size
        };
        self.walk_back(skip, n)
    }
}

impl AuditLog {
    /// An empty log.
    pub fn new() -> (r: AuditLog)
        ensures
            r@.head == 0,
            r@.total == 0,
            r@.entries == Map::<u64, AdminAuditEntry>::empty(),
            r@.wf(),
    {
        AuditLog { head: 0, total: 0, entries: HashMap::new() }
    }

    /// Record an action at the head and advance it.
    pub fn append(&mut self, timestamp: u64, actor: Addr, action: AdminActionType, details: AuditDetails)
        requires
            old(self)@.wf(),
            old(self)@.has_room(),
        ensures
            final(self)@ == old(self)@.appended(timestamp, actor, action, details),
            final(self)@.wf(),
    {
        let entry = AdminAuditEntry {
            sequence: self.total,
            timestamp,
            actor,
            action,
            source: AuditSource::AccessControl,
            details,
        };
        self.entries.insert(self.head, entry);
        self.head = (self.head + 1) % MAX_AUDIT_LOG_SIZE;
        self.total = self.total + 1;
    }

    /// A page of entries, newest first. `page` is 0-indexed and `page_size`
    /// is clamped to 1..=50.
    pub fn page(&self, page: u32, page_size: u32) -> (r: Vec<AdminAuditEntry>)
        requires
            self@.wf(),
        ensures
            r@ == self@.page(page, page_size),
    {
        let size: u64 = if page_size < 1 {
            1
        } else if page_size > MAX_PAGE_SIZE {
            MAX_PAGE_SIZE as u64
        } else {
            page_size as u64
        };
        let stored: u64 = if self.total < MAX_AUDIT_LOG_SIZE {
            self.total
        } else {
            MAX_AUDIT_LOG_SIZE
        };
        assert((page as u64) * size <= u32::MAX * 50) by (nonlinear_arith)
            requires
                page <= u32::MAX,
                1 <= size <= 50,
        ;
        // The product stays far below u64::MAX, so it never saturates.
        let skip: u64 = (page as u64) * size;
        let n: u64 = if stored <= skip {
            0
        } else if stored - skip < size {
            stored - skip
        } else {
            size
        };
        let mut results: Vec<AdminAuditEntry> = Vec::new();
        let mut i: u64 = 0;
        while i < n
            invariant
                self@.wf(),
                1 <= size <= 50,
                size == clamp_page_size(page_size),
                stored == self@.stored(),
                skip == page * size,
                i <= n,
                n + skip <= stored || n == 0,
                results@ == self@.walk_back(skip as int, i as int),
            decreases n - i,
        {
            let offset = skip + i;
            let pos = (self.head + MAX_AUDIT_LOG_SIZE - 1 - offset) % MAX_AUDIT_LOG_SIZE;
            match self.entries.get(&pos) {
                Some(entry) => {
                    results.push(*entry);
                },
                None => {},
            }
            i = i + 1;
        }
        results
    }
}


/// Walking back fewer entries gives a prefix of walking back more.
pub proof fn lemma_walk_back_prefix(log: AuditLogView, skip: int, m: int, n: int)
    requires
        0 <= m <= n,
    ensures
        log.walk_back(skip, m).len() <= log.walk_back(skip, n).len(),
        forall|k: int|
            0 <= k < log.walk_back(skip, m).len() ==> #[trigger] log.walk_back(skip, n)[k]
                == log.walk_back(skip, m)[k],
    decreases n - m,
{
    if m < n {
        lemma_walk_back_prefix(log, skip, m, n - 1);
    }
}

/// The entry that an append records comes first on page 0, numbered with
/// the count of entries recorded before it.
pub proof fn law_newest_entry_first(
    log: AuditLogView,
    timestamp: u64,
    actor: Addr,
    action: AdminActionType,
    details: AuditDetails,
    page_size: u32,
)
    requires
        log.wf(),
        log.has_room(),
    ensures
        ({
            let p = log.appended(timestamp, actor, action, details).page(0, page_size);
            &&& p.len() >= 1
            &&& p[0] == (AdminAuditEntry {
                sequence: log.total,
                timestamp,
                actor,
                action,
                source: AuditSource::AccessControl,
                details,
            })
        }),
{
    let l = log.appended(timestamp, actor, action, details);
    let size = clamp_page_size(page_size);
    let n = if l.stored() < size {
        l.stored()
    } else {
        size
    };
    assert(n >= 1);
    assert(slot_back(l.head, 0) == log.head);
    assert(l.walk_back(0, 1) == l.walk_back(0, 0).push(l.entries[log.head]));
    lemma_walk_back_prefix(l, 0, 1, n);
}

} // verus!
