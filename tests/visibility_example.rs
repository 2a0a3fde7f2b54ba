use state_shift::example;

#[test]
fn test_method_builder() {
    let myparentobj = example::MyParentObject::new();

    // using the clean builder pattern within the parent
    let meth = myparentobj.method().set_slot_a(42).build();
    let res = meth.start();
    assert!(res.is_ok())
}

#[test]
fn method_builder_starts_directly() {
    let myparentobj = example::MyParentObject::new();
    let res = myparentobj.method().set_slot_a(42).start();
    assert!(res.is_ok());
}
