use vstd::prelude::*;

verus! {

/// A value of the expression language, tagged with its type.
#[derive(Clone, Copy, Debug, PartialEq, Eq, Structural)]
pub enum TaggedValue {
    Int(i32),
    Bool(bool),
}

/// An expression tree whose nodes carry their kind at run time.
#[derive(Debug)]
pub enum TaggedNode {
    Value(TaggedValue),
    Add(Box<TaggedNode>, Box<TaggedNode>),
    /// A condition and the two branches.
    IfStmt(Box<TaggedNode>, Box<TaggedNode>, Box<TaggedNode>),
}

/// The value of a tree, or `None` when it adds a boolean, branches on an
/// integer, or overflows `i32` in some addition. Both branches of a
/// conditional are evaluated, so both must have a value.
pub open spec fn tagged_value(node: TaggedNode) -> Option<TaggedValue>
    decreases node,
{
    match node {
        TaggedNode::Value(v) => Some(v),
        TaggedNode::Add(a, b) => match (tagged_value(*a), tagged_value(*b)) {
            (Some(TaggedValue::Int(x)), Some(TaggedValue::Int(y))) => {
                if i32::MIN <= x + y <= i32::MAX {
                    Some(TaggedValue::Int((x + y) as i32))
                } else {
                    None
                }
            },
            _ => None,
        },
        TaggedNode::IfStmt(c, a, b) => match (tagged_value(*c), tagged_value(*a), tagged_value(*b)) {
            (Some(TaggedValue::Bool(cv)), Some(av), Some(bv)) => Some(
                if cv {
                    av
                } else {
                    bv
                },
            ),
            _ => None,
        },
    }
}

impl TaggedNode {
    pub fn integer(x: i32) -> (r: Box<Self>)
        ensures
            *r == TaggedNode::Value(TaggedValue::Int(x)),
    {
        Box::new(TaggedNode::Value(TaggedValue::Int(x)))
    }

    pub fn bool(b: bool) -> (r: Box<Self>)
        ensures
            *r == TaggedNode::Value(TaggedValue::Bool(b)),
    {
        Box::new(TaggedNode::Value(TaggedValue::Bool(b)))
    }

    pub fn add(a: Box<TaggedNode>, b: Box<TaggedNode>) -> (r: Box<Self>)
        ensures
            *r == TaggedNode::Add(a, b),
    {
        Box::new(TaggedNode::Add(a, b))
    }

    pub fn if_stmt(c: Box<TaggedNode>, a: Box<TaggedNode>, b: Box<TaggedNode>) -> (r: Box<Self>)
        ensures
            *r == TaggedNode::IfStmt(c, a, b),
    {
        Box::new(TaggedNode::IfStmt(c, a, b))
    }

    /// Evaluates the tree by walking it, checking each node's tags.
    pub fn eval(&self) -> (r: TaggedValue)
        requires
            tagged_value(*self) is Some,
        ensures
            tagged_value(*self) == Some(r),
        decreases self,
    {
        match self {
            TaggedNode::Value(v) => *v,
            TaggedNode::Add(a, b) => {
                let av = a.eval();
                let bv = b.eval();
                match (av, bv) {
                    (TaggedValue::Int(x), TaggedValue::Int(y)) => TaggedValue::Int(x + y),
                    _ => {
                        proof {
                            assert(false);
                        }
                        av
                    },
                }
            },
            TaggedNode::IfStmt(c, a, b) => {
                let cv = c.eval();
                let av = a.eval();
                let bv = b.eval();
                match cv {
                    TaggedValue::Bool(true) => av,
                    TaggedValue::Bool(false) => bv,
                    _ => {
                        proof {
                            assert(false);
                        }
                        av
                    },
                }
            },
        }
    }
}

/// The sample program `if (if false then false else true) then 10 + 1 else -3`
/// as a tagged tree; it evaluates to `11`.
pub fn tagged_ast() -> (r: Box<TaggedNode>)
    ensures
        tagged_value(*r) == Some(TaggedValue::Int(11)),
{
    proof {
        reveal_with_fuel(tagged_value, 2);
    }
    let c = TaggedNode::if_stmt(
        TaggedNode::bool(false),
        TaggedNode::bool(false),
        TaggedNode::bool(true),
    );
    assert(tagged_value(*c) == Some(TaggedValue::Bool(true)));
    let a = TaggedNode::add(TaggedNode::integer(10), TaggedNode::integer(1));
    assert(tagged_value(*a) == Some(TaggedValue::Int(11)));
    let b = TaggedNode::integer(-3);
    assert(tagged_value(*b) == Some(TaggedValue::Int(-3 as i32)));
    TaggedNode::if_stmt(c, a, b)
}

} // verus!
