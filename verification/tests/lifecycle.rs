use requests::types::{RequestStatus, UrgencyLevel};

#[test]
fn test_urgency_level_max_fulfillment_time() {
    assert_eq!(UrgencyLevel::Critical.max_fulfillment_time(), 3600);
    assert_eq!(UrgencyLevel::Urgent.max_fulfillment_time(), 21600);
    assert_eq!(UrgencyLevel::Normal.max_fulfillment_time(), 86400);
}

#[test]
fn test_request_status_transitions() {
    assert!(RequestStatus::Pending.can_transition_to(&RequestStatus::Approved));
    assert!(RequestStatus::Pending.can_transition_to(&RequestStatus::Rejected));
    assert!(RequestStatus::Pending.can_transition_to(&RequestStatus::Cancelled));

    assert!(RequestStatus::Approved.can_transition_to(&RequestStatus::Fulfilled));
    assert!(RequestStatus::Approved.can_transition_to(&RequestStatus::Cancelled));

    assert!(RequestStatus::Fulfilled.can_transition_to(&RequestStatus::Completed));

    assert!(!RequestStatus::Pending.can_transition_to(&RequestStatus::Fulfilled));
    assert!(!RequestStatus::Rejected.can_transition_to(&RequestStatus::Approved));
    assert!(!RequestStatus::Completed.can_transition_to(&RequestStatus::Approved));
    assert!(!RequestStatus::Cancelled.can_transition_to(&RequestStatus::Fulfilled));
}

#[test]
fn test_request_status_is_terminal() {
    assert!(!RequestStatus::Pending.is_terminal());
    assert!(!RequestStatus::Approved.is_terminal());
    assert!(!RequestStatus::Fulfilled.is_terminal());

    assert!(RequestStatus::Completed.is_terminal());
    assert!(RequestStatus::Rejected.is_terminal());
    assert!(RequestStatus::Cancelled.is_terminal());
}

const ALL_STATUSES: [RequestStatus; 6] = [
    RequestStatus::Pending,
    RequestStatus::Approved,
    RequestStatus::Fulfilled,
    RequestStatus::Completed,
    RequestStatus::Rejected,
    RequestStatus::Cancelled,
];

#[test]
fn the_lifecycle_has_six_edges() {
    let edges = [
        (RequestStatus::Pending, RequestStatus::Approved),
        (RequestStatus::Pending, RequestStatus::Rejected),
        (RequestStatus::Pending, RequestStatus::Cancelled),
        (RequestStatus::Approved, RequestStatus::Fulfilled),
        (RequestStatus::Approved, RequestStatus::Cancelled),
        (RequestStatus::Fulfilled, RequestStatus::Completed),
    ];
    let mut allowed = 0;
    for from in ALL_STATUSES.iter() {
        for to in ALL_STATUSES.iter() {
            let expected = edges.contains(&(*from, *to));
            assert_eq!(from.can_transition_to(to), expected);
            if expected {
                allowed += 1;
            }
        }
    }
    assert_eq!(allowed, 6);
}

#[test]
fn no_status_leads_to_itself_or_back_to_pending() {
    for status in ALL_STATUSES.iter() {
        assert!(!status.can_transition_to(status));
        assert!(!status.can_transition_to(&RequestStatus::Pending));
    }
}

#[test]
fn a_status_is_terminal_exactly_when_nothing_follows_it() {
    for from in ALL_STATUSES.iter() {
        let follows = ALL_STATUSES.iter().any(|to| from.can_transition_to(to));
        assert_eq!(from.is_terminal(), !follows);
    }
}

#[test]
fn urgency_is_ordered_by_severity() {
    assert!(UrgencyLevel::Critical < UrgencyLevel::Urgent);
    assert!(UrgencyLevel::Urgent < UrgencyLevel::Normal);
    assert!(UrgencyLevel::Critical < UrgencyLevel::Normal);
    assert!(UrgencyLevel::Normal > UrgencyLevel::Critical);
    assert!(UrgencyLevel::Urgent <= UrgencyLevel::Urgent);
    assert!(!(UrgencyLevel::Normal < UrgencyLevel::Normal));
    let all = [UrgencyLevel::Critical, UrgencyLevel::Urgent, UrgencyLevel::Normal];
    for a in all.iter() {
        for b in all.iter() {
            assert_eq!(a.partial_cmp(b), Some(a.cmp(b)));
            assert_eq!(a < b, a.max_fulfillment_time() < b.max_fulfillment_time());
        }
    }
    let mut shuffled = vec![UrgencyLevel::Normal, UrgencyLevel::Critical, UrgencyLevel::Urgent];
    shuffled.sort();
    assert_eq!(shuffled, vec![UrgencyLevel::Critical, UrgencyLevel::Urgent, UrgencyLevel::Normal]);
}
