use std::sync::Arc;

use futures::Future;
use rpc_calls::calls::{
    Invocation, MethodWithMetaFn, NotificationWithMetaFn, RemoteProcedure,
};
use rpc_calls::registry::Registry;
use rpc_calls::values::{Error, Params, Value};

fn echo_entry<N>() -> RemoteProcedure<
    MethodWithMetaFn<impl Fn(Params, ()) -> Result<Value, Error> + 'static>,
    N,
> {
    RemoteProcedure::Method(Arc::new(MethodWithMetaFn::new(
        |p: Params, _m: ()| -> Result<Value, Error> { Ok(p.into_value()) },
    )))
}

#[test]
fn echo_method_resolves_to_params() {
    let mut reg = Registry::new();
    reg.register("echo".to_string(), echo_entry());
    reg.register(
        "note".to_string(),
        RemoteProcedure::Notification(Arc::new(NotificationWithMetaFn::new(
            |_p: Params, _m: ()| {},
        ))),
    );

    let entry = reg.resolve("echo").expect("echo is registered");
    let params = Params::new(Value::from_text("{\"x\":1}"));
    match entry.invoke(params, ()) {
        Invocation::Response(c) => {
            let outcome = c.wait();
            assert_eq!(outcome, Ok(Value::from_text("{\"x\":1}")));
        }
        _ => panic!("a method entry must yield a response"),
    }
}

#[test]
fn alias_resolution_behaves_like_direct_invocation() {
    let mut reg = Registry::new();
    reg.register("echo".to_string(), echo_entry());
    reg.register(
        "note".to_string(),
        RemoteProcedure::Notification(Arc::new(NotificationWithMetaFn::new(
            |_p: Params, _m: ()| {},
        ))),
    );
    reg.register("ping".to_string(), RemoteProcedure::Alias("echo".to_string()));

    let direct = {
        let entry = reg.resolve("echo").expect("echo is registered");
        match entry.invoke(Params::new(Value::from_text("{\"x\":1}")), ()) {
            Invocation::Response(c) => c.wait(),
            _ => panic!("a method entry must yield a response"),
        }
    };

    let via_alias = {
        let entry = reg.resolve("ping").expect("ping is registered");
        match entry.invoke(Params::new(Value::from_text("{\"x\":1}")), ()) {
            Invocation::Unresolved(target) => {
                assert_eq!(target, "echo");
                let entry = reg.resolve(&target).expect("the alias target is registered");
                match entry.invoke(Params::new(Value::from_text("{\"x\":1}")), ()) {
                    Invocation::Response(c) => c.wait(),
                    _ => panic!("the alias target is a method"),
                }
            }
            _ => panic!("an alias entry must be handed back unresolved"),
        }
    };

    assert_eq!(direct, via_alias);
}

#[test]
fn call_resolves_to_exactly_one_outcome() {
    let entry = echo_entry::<NotificationWithMetaFn<fn(Params, ())>>();
    match entry.invoke(Params::new(Value::from_text("payload")), ()) {
        Invocation::Response(c) => {
            let outcome = c.wait();
            assert!(outcome.is_ok() != outcome.is_err());
        }
        _ => panic!("a method entry must yield a response"),
    }
}

#[test]
fn error_outcome_propagates_unchanged() {
    let failing = RemoteProcedure::<_, NotificationWithMetaFn<fn(Params, ())>>::Method(Arc::new(
        MethodWithMetaFn::new(|_p: Params, _m: ()| -> Result<Value, Error> {
            Err(Error::new(-32600, "Invalid Request"))
        }),
    ));
    match failing.invoke(Params::new(Value::from_text("{}")), ()) {
        Invocation::Response(c) => {
            let outcome = c.wait();
            assert_eq!(outcome, Err(Error::new(-32600, "Invalid Request")));
        }
        _ => panic!("a method entry must yield a response"),
    }
}
