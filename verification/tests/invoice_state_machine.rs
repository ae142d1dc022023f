use kora_protocol::invoice_state_machine::{
    is_terminal, is_valid_transition, set_defaulted, set_funded, set_listed, set_repaid, any_status,
    InvoiceStatus, TransitionError,
};

const ALL_STATUSES: [InvoiceStatus; 5] = [
    InvoiceStatus::Created,
    InvoiceStatus::Listed,
    InvoiceStatus::Funded,
    InvoiceStatus::Repaid,
    InvoiceStatus::Defaulted,
];

#[test]
fn set_listed_accepts_only_created() {
    for &s in &ALL_STATUSES {
        let r = set_listed(s);
        if s == InvoiceStatus::Created {
            assert_eq!(r, Ok(InvoiceStatus::Listed), "Created→Listed must succeed");
        } else {
            assert!(r.is_err(), "set_listed must reject {:?}, got {:?}", s, r);
        }
    }
}

#[test]
fn set_funded_accepts_only_listed() {
    for &s in &ALL_STATUSES {
        let r = set_funded(s);
        if s == InvoiceStatus::Listed {
            assert_eq!(r, Ok(InvoiceStatus::Funded), "Listed→Funded must succeed");
        } else {
            assert!(r.is_err(), "set_funded must reject {:?}", s);
        }
    }
}

#[test]
fn set_repaid_accepts_only_funded() {
    for &s in &ALL_STATUSES {
        let r = set_repaid(s);
        if s == InvoiceStatus::Funded {
            assert_eq!(r, Ok(InvoiceStatus::Repaid), "Funded→Repaid must succeed");
        } else {
            assert!(r.is_err(), "set_repaid must reject {:?}", s);
        }
    }
}

#[test]
fn set_defaulted_accepts_only_funded_and_past_due() {
    for &s in &ALL_STATUSES {
        for &past_due in &[true, false] {
            let r = set_defaulted(s, past_due);
            if s == InvoiceStatus::Funded && past_due {
                assert_eq!(r, Ok(InvoiceStatus::Defaulted));
            } else if s == InvoiceStatus::Funded && !past_due {
                assert_eq!(r, Err(TransitionError::NotYetDue));
            } else {
                assert_eq!(r, Err(TransitionError::InvalidInvoiceStatus));
            }
        }
    }
}

#[test]
fn terminal_states_reject_all_transitions() {
    for &terminal in &[InvoiceStatus::Repaid, InvoiceStatus::Defaulted] {
        assert!(set_listed(terminal).is_err(), "set_listed must reject terminal {:?}", terminal);
        assert!(set_funded(terminal).is_err(), "set_funded must reject terminal {:?}", terminal);
        assert!(set_repaid(terminal).is_err(), "set_repaid must reject terminal {:?}", terminal);
        assert!(set_defaulted(terminal, true).is_err(), "set_defaulted must reject terminal {:?}", terminal);
    }
}

#[test]
fn is_valid_transition_covers_exactly_the_documented_edges() {
    assert!(is_valid_transition(InvoiceStatus::Created, InvoiceStatus::Listed));
    assert!(is_valid_transition(InvoiceStatus::Listed, InvoiceStatus::Funded));
    assert!(is_valid_transition(InvoiceStatus::Funded, InvoiceStatus::Repaid));
    assert!(is_valid_transition(InvoiceStatus::Funded, InvoiceStatus::Defaulted));

    let invalid_pairs: &[(InvoiceStatus, InvoiceStatus)] = &[
        (InvoiceStatus::Created, InvoiceStatus::Created),
        (InvoiceStatus::Created, InvoiceStatus::Funded),
        (InvoiceStatus::Created, InvoiceStatus::Repaid),
        (InvoiceStatus::Created, InvoiceStatus::Defaulted),
        (InvoiceStatus::Listed, InvoiceStatus::Created),
        (InvoiceStatus::Listed, InvoiceStatus::Listed),
        (InvoiceStatus::Listed, InvoiceStatus::Repaid),
        (InvoiceStatus::Listed, InvoiceStatus::Defaulted),
        (InvoiceStatus::Funded, InvoiceStatus::Created),
        (InvoiceStatus::Funded, InvoiceStatus::Listed),
        (InvoiceStatus::Funded, InvoiceStatus::Funded),
        (InvoiceStatus::Repaid, InvoiceStatus::Created),
        (InvoiceStatus::Repaid, InvoiceStatus::Listed),
        (InvoiceStatus::Repaid, InvoiceStatus::Funded),
        (InvoiceStatus::Repaid, InvoiceStatus::Repaid),
        (InvoiceStatus::Repaid, InvoiceStatus::Defaulted),
        (InvoiceStatus::Defaulted, InvoiceStatus::Created),
        (InvoiceStatus::Defaulted, InvoiceStatus::Listed),
        (InvoiceStatus::Defaulted, InvoiceStatus::Funded),
        (InvoiceStatus::Defaulted, InvoiceStatus::Repaid),
        (InvoiceStatus::Defaulted, InvoiceStatus::Defaulted),
    ];
    for &(from, to) in invalid_pairs {
        assert!(!is_valid_transition(from, to), "Expected {:?}→{:?} to be invalid", from, to);
    }
}

#[test]
fn happy_path_created_listed_funded_repaid() {
    let s = InvoiceStatus::Created;
    let s = set_listed(s).unwrap();
    assert_eq!(s, InvoiceStatus::Listed);
    let s = set_funded(s).unwrap();
    assert_eq!(s, InvoiceStatus::Funded);
    let s = set_repaid(s).unwrap();
    assert_eq!(s, InvoiceStatus::Repaid);
    assert!(is_terminal(s));
}

#[test]
fn happy_path_created_listed_funded_defaulted() {
    let s = InvoiceStatus::Created;
    let s = set_listed(s).unwrap();
    let s = set_funded(s).unwrap();
    let s = set_defaulted(s, true).unwrap();
    assert_eq!(s, InvoiceStatus::Defaulted);
    assert!(is_terminal(s));
}

#[test]
fn repaid_invoice_cannot_be_defaulted() {
    let s = InvoiceStatus::Created;
    let s = set_listed(s).unwrap();
    let s = set_funded(s).unwrap();
    let s = set_repaid(s).unwrap();
    assert!(set_defaulted(s, true).is_err());
}

#[test]
fn defaulted_invoice_cannot_be_repaid() {
    let s = InvoiceStatus::Created;
    let s = set_listed(s).unwrap();
    let s = set_funded(s).unwrap();
    let s = set_defaulted(s, true).unwrap();
    assert!(set_repaid(s).is_err());
}

#[test]
fn all_accepted_transitions_land_in_valid_transition_set() {
    for &from in &ALL_STATUSES {
        if let Ok(to) = set_listed(from) {
            assert!(is_valid_transition(from, to));
        }
        if let Ok(to) = set_funded(from) {
            assert!(is_valid_transition(from, to));
        }
        if let Ok(to) = set_repaid(from) {
            assert!(is_valid_transition(from, to));
        }
        for &past_due in &[true, false] {
            if let Ok(to) = set_defaulted(from, past_due) {
                assert!(is_valid_transition(from, to));
            }
        }
    }
}

#[test]
fn any_status_maps_selectors_in_declaration_order() {
    assert_eq!(any_status(0), InvoiceStatus::Created);
    assert_eq!(any_status(1), InvoiceStatus::Listed);
    assert_eq!(any_status(2), InvoiceStatus::Funded);
    assert_eq!(any_status(3), InvoiceStatus::Repaid);
    assert_eq!(any_status(4), InvoiceStatus::Defaulted);
    assert_eq!(any_status(5), InvoiceStatus::Created);
    assert_eq!(any_status(253), InvoiceStatus::Repaid);
}

#[test]
fn terminal_statuses_are_exactly_repaid_and_defaulted() {
    assert!(!is_terminal(InvoiceStatus::Created));
    assert!(!is_terminal(InvoiceStatus::Listed));
    assert!(!is_terminal(InvoiceStatus::Funded));
    assert!(is_terminal(InvoiceStatus::Repaid));
    assert!(is_terminal(InvoiceStatus::Defaulted));
}
