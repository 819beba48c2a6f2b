use me_rpc::consts::RESPONSE_QUEUE_CAPACITY;
use me_rpc::registry::{ConnRegistry, MeResponse, RouteOutcome};

#[test]
fn register_returns_distinct_monotonic_ids() {
    let mut reg = ConnRegistry::new();
    let a = reg.register();
    let b = reg.register();
    let c = reg.register();
    assert_eq!(a, 1);
    assert_eq!(b, 2);
    assert_eq!(c, 3);
    assert!(a != b && b != c && a != c);
}

#[test]
fn unregister_makes_route_absent() {
    let mut reg = ConnRegistry::new();
    let id = reg.register();
    assert_eq!(reg.route(id, MeResponse::Ack(1)), RouteOutcome::Delivered);
    reg.unregister(id);
    assert_eq!(reg.route(id, MeResponse::Ack(2)), RouteOutcome::Absent);
}

#[test]
fn unregister_is_idempotent() {
    let mut reg = ConnRegistry::new();
    let id = reg.register();
    reg.unregister(id);
    reg.unregister(id);
    assert_eq!(reg.route(id, MeResponse::Close), RouteOutcome::Absent);
}

#[test]
fn route_to_unknown_id_is_absent() {
    let mut reg = ConnRegistry::new();
    assert_eq!(reg.route(42, MeResponse::Close), RouteOutcome::Absent);
}

#[test]
fn responses_arrive_in_order() {
    let mut reg = ConnRegistry::new();
    let id = reg.register();
    assert_eq!(
        reg.route(id, MeResponse::Data(vec![1])),
        RouteOutcome::Delivered
    );
    assert_eq!(reg.route(id, MeResponse::Ack(9)), RouteOutcome::Delivered);
    assert_eq!(reg.route(id, MeResponse::Close), RouteOutcome::Delivered);
    assert!(matches!(reg.take_next(id), Some(MeResponse::Data(d)) if d == vec![1]));
    assert!(matches!(reg.take_next(id), Some(MeResponse::Ack(9))));
    assert!(matches!(reg.take_next(id), Some(MeResponse::Close)));
    assert!(reg.take_next(id).is_none());
}

#[test]
fn full_queue_reports_full_until_drained() {
    let mut reg = ConnRegistry::new();
    let id = reg.register();
    for i in 0..RESPONSE_QUEUE_CAPACITY {
        assert_eq!(
            reg.route(id, MeResponse::Ack(i as u32)),
            RouteOutcome::Delivered
        );
    }
    assert_eq!(reg.route(id, MeResponse::Ack(9999)), RouteOutcome::Full);
    assert_eq!(reg.route(id, MeResponse::Ack(9999)), RouteOutcome::Full);
    assert!(matches!(reg.take_next(id), Some(MeResponse::Ack(0))));
    assert_eq!(reg.route(id, MeResponse::Ack(9999)), RouteOutcome::Delivered);
}

#[test]
fn sessions_do_not_disturb_each_other() {
    let mut reg = ConnRegistry::new();
    let a = reg.register();
    let b = reg.register();
    assert_eq!(
        reg.route(a, MeResponse::Data(vec![7])),
        RouteOutcome::Delivered
    );
    assert!(reg.take_next(b).is_none());
    assert!(matches!(reg.take_next(a), Some(MeResponse::Data(d)) if d == vec![7]));
    assert!(reg.take_next(a).is_none());
}
