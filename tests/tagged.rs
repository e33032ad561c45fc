use tagless::tagged::{tagged_ast, TaggedNode, TaggedValue};

#[test]
fn tagged_sample_evaluates_to_eleven() {
    assert_eq!(tagged_ast().eval(), TaggedValue::Int(11));
}

#[test]
fn tagged_add() {
    let n = TaggedNode::add(TaggedNode::integer(-4), TaggedNode::integer(9));
    assert_eq!(n.eval(), TaggedValue::Int(5));
}

#[test]
fn tagged_if_takes_else_branch() {
    let n = TaggedNode::if_stmt(
        TaggedNode::bool(false),
        TaggedNode::bool(true),
        TaggedNode::bool(false),
    );
    assert_eq!(n.eval(), TaggedValue::Bool(false));
}

#[test]
fn tagged_value_leaf() {
    assert_eq!(TaggedNode::bool(true).eval(), TaggedValue::Bool(true));
    assert_eq!(TaggedNode::integer(i32::MIN).eval(), TaggedValue::Int(i32::MIN));
}
