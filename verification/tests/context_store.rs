use tracectx::context::Context;
use tracectx::context::ContextStore;
use tracectx::context::current_context;

#[test]
fn it_works() {
    let result = tracectx::add(2, 2);
    assert_eq!(result, 4);
}

#[test]
fn fresh_store_is_root() {
    let store = ContextStore::new();
    let c = current_context(&store);
    assert_eq!(c, Context { trace_id: 0, span_id: 0 });
}

#[test]
fn root_context_is_zero_zero() {
    let c = Context::root();
    assert_eq!(c.trace_id, 0);
    assert_eq!(c.span_id, 0);
}

#[test]
fn set_overwrites_unconditionally() {
    let mut store = ContextStore::new();
    store.set(Context { trace_id: 5, span_id: 6 });
    assert_eq!(store.get(), Context { trace_id: 5, span_id: 6 });
    store.set(Context { trace_id: 1, span_id: 2 });
    assert_eq!(store.get(), Context { trace_id: 1, span_id: 2 });
}

#[test]
fn replace_installs_and_returns_previous() {
    let mut store = ContextStore::new();
    store.set(Context { trace_id: 3, span_id: 4 });
    let prev = store.replace(Context { trace_id: 8, span_id: 9 });
    assert_eq!(prev, Context { trace_id: 3, span_id: 4 });
    assert_eq!(store.get(), Context { trace_id: 8, span_id: 9 });
}

#[test]
fn get_has_no_side_effects() {
    let mut store = ContextStore::new();
    store.set(Context { trace_id: 7, span_id: 7 });
    let first = store.get();
    let second = store.get();
    assert_eq!(first, second);
    assert_eq!(second, Context { trace_id: 7, span_id: 7 });
}
