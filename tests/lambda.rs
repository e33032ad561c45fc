use tagless::lambda::{test_expr, Eval, Form, Fun, Identity, Length};

#[test]
fn length_of_self_application() {
    assert_eq!(test_expr::<Length, u64>(), 3);
}

#[test]
fn eval_of_self_application_runs() {
    let f: Identity = test_expr::<Eval, ()>();
    f.apply(());
}

#[test]
fn length_builders() {
    assert_eq!(<Length as Form<u64, u64, Identity>>::lam(Identity), 1);
    assert_eq!(<Length as Form<u64, u64, Identity>>::appl(4, 5), 10);
}

#[test]
fn eval_builders_apply_body() {
    let f = <Eval as Form<i32, i32, Identity>>::lam(Identity);
    assert_eq!(<Eval as Form<i32, i32, Identity>>::appl(f, 17), 17);
}
