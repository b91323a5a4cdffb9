use std::sync::atomic::{AtomicUsize, Ordering};
use std::sync::Arc;

use futures::Future;
use rpc_calls::calls::{
    Invocation, MethodWithMetaFn, NotificationWithMetaFn, RemoteProcedure,
};
use rpc_calls::values::{Error, Params, Value};

type Noop = NotificationWithMetaFn<fn(Params, ())>;

#[test]
fn clones_invoke_one_shared_handler() {
    let calls_seen = Arc::new(AtomicUsize::new(0));
    let counter = calls_seen.clone();
    let entry = RemoteProcedure::<_, Noop>::Method(Arc::new(MethodWithMetaFn::new(
        move |p: Params, _m: ()| -> Result<Value, Error> {
            counter.fetch_add(1, Ordering::SeqCst);
            Ok(p.into_value())
        },
    )));

    let first = entry.clone();
    let second = entry.clone();

    let a = match first.invoke(Params::new(Value::from_text("a")), ()) {
        Invocation::Response(c) => c.wait(),
        _ => panic!("a method entry must yield a response"),
    };
    let b = match second.invoke(Params::new(Value::from_text("a")), ()) {
        Invocation::Response(c) => c.wait(),
        _ => panic!("a method entry must yield a response"),
    };

    assert_eq!(a, b);
    assert_eq!(a, Ok(Value::from_text("a")));
    // Both clones hit the one shared handler: its state was not duplicated.
    assert_eq!(calls_seen.load(Ordering::SeqCst), 2);
}

#[test]
fn method_renders_as_opaque_marker() {
    let entry = RemoteProcedure::<_, Noop>::Method(Arc::new(MethodWithMetaFn::new(
        |p: Params, _m: ()| -> Result<Value, Error> { Ok(p.into_value()) },
    )));
    assert_eq!(entry.debug_string(), "<method>");
}

#[test]
fn notification_renders_as_distinct_marker() {
    fn noop(_p: Params, _m: ()) {}
    let entry = RemoteProcedure::<MethodWithMetaFn<fn(Params, ()) -> Result<Value, Error>>, _>::Notification(
        Arc::new(NotificationWithMetaFn::new(noop as fn(Params, ()))),
    );
    assert_eq!(entry.debug_string(), "<notification>");
}

#[test]
fn alias_renders_its_target_name() {
    let entry = RemoteProcedure::<MethodWithMetaFn<fn(Params, ()) -> Result<Value, Error>>, Noop>::Alias(
        "foo".to_string(),
    );
    assert_eq!(entry.debug_string(), "alias => \"foo\"");
}

#[test]
fn notification_invocation_yields_no_response() {
    let executed = Arc::new(AtomicUsize::new(0));
    let counter = executed.clone();
    let entry = RemoteProcedure::<MethodWithMetaFn<fn(Params, ()) -> Result<Value, Error>>, _>::Notification(
        Arc::new(NotificationWithMetaFn::new(move |_p: Params, _m: ()| {
            counter.fetch_add(1, Ordering::SeqCst);
        })),
    );

    match entry.invoke(Params::new(Value::from_text("{}")), ()) {
        Invocation::NoResponse => {}
        _ => panic!("a notification entry must yield no response"),
    }
    assert_eq!(executed.load(Ordering::SeqCst), 1);
}
