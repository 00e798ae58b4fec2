use vstd::prelude::*;
use crate::ast::{Node, Place, SNode, SPlace, nodes_view, places_view, lemma_nodes_view_index,
    lemma_places_view_index};

verus! {

broadcast use vstd::std_specs::vec::group_vec_axioms;

#[derive(Debug, Clone, PartialEq)]
pub enum CheckErrorKind {
    NotInLoop,
    /// Reserved: `if` / `else` chains are not checked.
    MissingIf,
    NotPlace,
}

/// Whether an assignment target is valid: every single target is a name or an index.
pub open spec fn place_valid(p: SPlace) -> bool
    decreases p,
{
    match p {
        SPlace::Single(b) => match *b {
            SNode::Name(_) | SNode::Index { .. } => true,
            _ => false,
        },
        SPlace::Multi(ps) => places_valid(ps),
    }
}

pub open spec fn places_valid(ps: Seq<SPlace>) -> bool
    decreases ps,
{
    if ps.len() == 0 {
        true
    } else {
        places_valid(ps.drop_last()) && place_valid(ps.last())
    }
}

/// The outcome of one step followed by the next: the first failure stops the walk.
pub open spec fn chain(first: (Result<(), CheckErrorKind>, bool), next: (Result<(), CheckErrorKind>, bool)) -> (Result<(), CheckErrorKind>, bool) {
    match first.0 {
        Err(e) => (Err(e), first.1),
        Ok(_) => next,
    }
}

/// Checking `n` with the loop flag at `in_loop`: the outcome, and the flag
/// afterwards. Every child is walked in order with the current flag; a loop
/// body is walked with the flag set, and the flag is cleared on every exit
/// from it (a single flag, not a depth).
pub open spec fn check_node(n: SNode, in_loop: bool) -> (Result<(), CheckErrorKind>, bool)
    decreases n, 2nat,
{
    match n {
        SNode::Stmt(b) => check_node(*b, in_loop),
        SNode::Block(ls) => check_seq(ls, in_loop),
        SNode::Catch(ls) => check_seq(ls, in_loop),
        SNode::Assn { lhs, rhs } => if place_valid(lhs) {
            check_node(*rhs, in_loop)
        } else {
            (Err(CheckErrorKind::NotPlace), in_loop)
        },
        SNode::If { cond, body, els } => {
            let a = check_node(*cond, in_loop);
            let b = chain(a, check_seq(body, a.1));
            chain(
                b,
                match els {
                    Option::Some(e) => check_node(*e, b.1),
                    Option::None => (Ok(()), b.1),
                },
            )
        },
        SNode::ElseIf { cond, body } => {
            let a = check_node(*cond, in_loop);
            chain(a, check_seq(body, a.1))
        },
        SNode::Else { body } => check_seq(body, in_loop),
        SNode::For { expr, body, .. } => chain(check_node(*expr, in_loop), check_loop_body(body)),
        SNode::While { expr, body } => chain(check_node(*expr, in_loop), check_loop_body(body)),
        SNode::Loop { body } => check_loop_body(body),
        SNode::Return(o) => match o {
            Option::Some(v) => check_node(*v, in_loop),
            Option::None => (Ok(()), in_loop),
        },
        SNode::Break | SNode::Continue => if in_loop {
            (Ok(()), in_loop)
        } else {
            (Err(CheckErrorKind::NotInLoop), in_loop)
        },
        SNode::Index { lhs, rhs } => {
            let a = check_node(*lhs, in_loop);
            chain(a, check_node(*rhs, a.1))
        },
        SNode::BinExpr { lhs, rhs, .. } => {
            let a = check_node(*lhs, in_loop);
            chain(a, check_node(*rhs, a.1))
        },
        SNode::Method { owner, method, args } => {
            let a = check_node(*owner, in_loop);
            let b = chain(a, check_node(*method, a.1));
            chain(b, check_seq(args, b.1))
        },
        SNode::Call { func, args } => {
            let a = check_node(*func, in_loop);
            chain(a, check_seq(args, a.1))
        },
        SNode::Func { body, .. } => check_seq(body, in_loop),
        SNode::Lambda { expr, .. } => check_node(*expr, in_loop),
        SNode::UnExpr { val, .. } => check_node(*val, in_loop),
        _ => (Ok(()), in_loop),
    }
}

/// A loop body is walked with the flag set; afterwards the flag is clear,
/// whether the body passed or not.
pub open spec fn check_loop_body(body: Seq<SNode>) -> (Result<(), CheckErrorKind>, bool)
    decreases body, 1nat,
{
    (check_seq(body, true).0, false)
}

/// Checking the statements of `ls` in order, stopping at the first failure.
pub open spec fn check_seq(ls: Seq<SNode>, in_loop: bool) -> (Result<(), CheckErrorKind>, bool)
    decreases ls, 0nat,
{
    if ls.len() == 0 {
        (Ok(()), in_loop)
    } else {
        let (r, f) = check_seq(ls.drop_last(), in_loop);
        match r {
            Ok(_) => check_node(ls.last(), f),
            Err(e) => (Err(e), f),
        }
    }
}

/// Once a prefix of the statements fails, the rest are not looked at.
pub proof fn lemma_check_seq_stops(ls: Seq<SNode>, k: int, in_loop: bool)
    requires
        0 <= k <= ls.len(),
        check_seq(ls.take(k), in_loop).0 is Err,
    ensures
        check_seq(ls, in_loop) == check_seq(ls.take(k), in_loop),
    decreases ls.len(),
{
    if ls.len() == k {
        assert(ls.take(k) =~= ls);
    } else {
        assert(ls.drop_last().take(k) =~= ls.take(k));
        lemma_check_seq_stops(ls.drop_last(), k, in_loop);
    }
}

/// A list of targets is valid exactly when each of its targets is.
pub proof fn lemma_places_valid_all(ps: Seq<SPlace>)
    ensures
        places_valid(ps) == forall|i: int| 0 <= i < ps.len() ==> #[trigger] place_valid(ps[i]),
    decreases ps.len(),
{
    if ps.len() > 0 {
        let dl = ps.drop_last();
        lemma_places_valid_all(dl);
        assert forall|i: int| 0 <= i < dl.len() implies #[trigger] dl[i] == ps[i] by {}
        if places_valid(ps) {
            assert forall|i: int| 0 <= i < ps.len() implies #[trigger] place_valid(ps[i]) by {
                if i < ps.len() - 1 {
                    assert(place_valid(dl[i]));
                }
            }
        } else if place_valid(ps.last()) {
            let i = choose|i: int| 0 <= i < dl.len() && !#[trigger] place_valid(dl[i]);
            assert(!place_valid(ps[i]));
        } else {
            assert(!place_valid(ps[ps.len() - 1]));
        }
    }
}

/// Checking with the loop flag clear leaves it clear.
pub proof fn lemma_flag_stays_clear(n: SNode)
    ensures
        !check_node(n, false).1,
    decreases n, 2nat,
{
    match n {
        SNode::Stmt(b) => lemma_flag_stays_clear(*b),
        SNode::Block(ls) => lemma_seq_flag_stays_clear(ls),
        SNode::Catch(ls) => lemma_seq_flag_stays_clear(ls),
        SNode::Assn { rhs, .. } => lemma_flag_stays_clear(*rhs),
        SNode::If { cond, body, els } => {
            lemma_flag_stays_clear(*cond);
            lemma_seq_flag_stays_clear(body);
            match els {
                Option::Some(e) => lemma_flag_stays_clear(*e),
                Option::None => {},
            }
        },
        SNode::ElseIf { cond, body } => {
            lemma_flag_stays_clear(*cond);
            lemma_seq_flag_stays_clear(body);
        },
        SNode::Else { body } => lemma_seq_flag_stays_clear(body),
        SNode::For { expr, body, .. } => {
            lemma_flag_stays_clear(*expr);
            assert(!check_loop_body(body).1);
        },
        SNode::While { expr, body } => {
            lemma_flag_stays_clear(*expr);
            assert(!check_loop_body(body).1);
        },
        SNode::Loop { body } => assert(!check_loop_body(body).1),
        SNode::Return(o) => match o {
            Option::Some(v) => lemma_flag_stays_clear(*v),
            Option::None => {},
        },
        SNode::Index { lhs, rhs } => {
            lemma_flag_stays_clear(*lhs);
            lemma_flag_stays_clear(*rhs);
        },
        SNode::BinExpr { lhs, rhs, .. } => {
            lemma_flag_stays_clear(*lhs);
            lemma_flag_stays_clear(*rhs);
        },
        SNode::Method { owner, method, args } => {
            lemma_flag_stays_clear(*owner);
            lemma_flag_stays_clear(*method);
            lemma_seq_flag_stays_clear(args);
        },
        SNode::Call { func, args } => {
            lemma_flag_stays_clear(*func);
            lemma_seq_flag_stays_clear(args);
        },
        SNode::Func { body, .. } => lemma_seq_flag_stays_clear(body),
        SNode::Lambda { expr, .. } => lemma_flag_stays_clear(*expr),
        SNode::UnExpr { val, .. } => lemma_flag_stays_clear(*val),
        _ => {},
    }
}

/// Statements checked with the loop flag clear leave it clear.
pub proof fn lemma_seq_flag_stays_clear(ls: Seq<SNode>)
    ensures
        !check_seq(ls, false).1,
    decreases ls, 0nat,
{
    if ls.len() > 0 {
        lemma_seq_flag_stays_clear(ls.drop_last());
        lemma_flag_stays_clear(ls.last());
    }
}

/// A `break` or `continue` among the top-level statements of a program, with
/// no loop around it, makes the check fail; the failure is `NotInLoop` unless
/// an earlier statement failed first.
pub proof fn lemma_break_outside_loop(stmts: Seq<SNode>, i: int)
    requires
        0 <= i < stmts.len(),
        stmts[i] is Break || stmts[i] is Continue,
    ensures
        check_node(SNode::Block(stmts), false).0 is Err,
        check_seq(stmts.take(i), false).0 is Ok
            ==> check_node(SNode::Block(stmts), false).0 == Err::<(), CheckErrorKind>(CheckErrorKind::NotInLoop),
{
    let t = stmts.take(i + 1);
    assert(t.drop_last() =~= stmts.take(i));
    assert(t.last() == stmts[i]);
    lemma_seq_flag_stays_clear(stmts.take(i));
    if check_seq(stmts.take(i), false).0 is Ok {
        assert(check_node(stmts[i], false).0 == Err::<(), CheckErrorKind>(CheckErrorKind::NotInLoop));
        assert(check_seq(t, false).0 == Err::<(), CheckErrorKind>(CheckErrorKind::NotInLoop));
    } else {
        assert(check_seq(t, false).0 is Err);
    }
    lemma_check_seq_stops(stmts, i + 1, false);
}

/// Walks a tree and enforces its structural rules: `break` and `continue`
/// only inside a loop body, and assignments only to names and indexes.
#[derive(Debug, Clone, PartialEq)]
pub struct SemChecker {
    in_loop: bool,
    has_if: bool,
}

impl SemChecker {
    /// Whether the walk is inside a loop body.
    pub closed spec fn looping(&self) -> bool {
        self.in_loop
    }

    pub fn new() -> (r: SemChecker)
        ensures
            !r.looping(),
    {
        SemChecker { in_loop: false, has_if: false }
    }

    /// Checks `node`, which is left as it was. Each call starts outside any
    /// loop, and the flag is clear again afterwards, whatever the outcome.
    pub fn check(&mut self, node: &mut Node) -> (r: Result<(), CheckErrorKind>)
        ensures
            *final(node) == *old(node),
            r == check_node(old(node)@, false).0,
            !final(self).looping(),
    {
        let n: &Node = node;
        let (r, _) = Self::walk(n, false);
        self.in_loop = false;
        r
    }

    fn walk(node: &Node, in_loop: bool) -> (r: (Result<(), CheckErrorKind>, bool))
        ensures
            r == check_node(node@, in_loop),
        decreases node, 2nat,
    {
        match node {
            Node::Stmt(bx) => Self::walk(bx, in_loop),
            Node::Block(ls) => Self::walk_all(ls, in_loop),
            Node::Catch(ls) => Self::walk_all(ls, in_loop),
            Node::Assn { lhs, rhs } => {
                if let Err(e) = Self::check_place(lhs) {
                    return (Err(e), in_loop);
                }
                Self::walk(rhs, in_loop)
            },
            Node::If { .. } | Node::ElseIf { .. } | Node::Else { .. } | Node::For { .. } | Node::While { .. }
            | Node::Loop { .. } => Self::walk_control(node, in_loop),
            Node::Return(o) => match o {
                Some(v) => Self::walk(v, in_loop),
                None => (Ok(()), in_loop),
            },
            Node::Break | Node::Continue => {
                if !in_loop {
                    return (Err(CheckErrorKind::NotInLoop), in_loop);
                }
                (Ok(()), in_loop)
            },
            Node::Index { .. } | Node::BinExpr { .. } | Node::Method { .. } | Node::Call { .. } | Node::Func { .. }
            | Node::Lambda { .. } | Node::UnExpr { .. } => Self::walk_expr(node, in_loop),
            _ => (Ok(()), in_loop),
        }
    }

    /// Conditionals and loops.
    fn walk_control(node: &Node, in_loop: bool) -> (r: (Result<(), CheckErrorKind>, bool))
        requires
            node is If || node is ElseIf || node is Else || node is For || node is While || node is Loop,
        ensures
            r == check_node(node@, in_loop),
        decreases node, 1nat,
    {
        match node {
            Node::If { cond, body, els } => {
                let (r, f1) = Self::walk(cond, in_loop);
                if let Err(e) = r {
                    return (Err(e), f1);
                }
                let (r, f2) = Self::walk_all(body, f1);
                if let Err(e) = r {
                    return (Err(e), f2);
                }
                match els {
                    Some(e) => Self::walk(e, f2),
                    None => (Ok(()), f2),
                }
            },
            Node::ElseIf { cond, body } => {
                let (r, f1) = Self::walk(cond, in_loop);
                if let Err(e) = r {
                    return (Err(e), f1);
                }
                Self::walk_all(body, f1)
            },
            Node::Else { body } => Self::walk_all(body, in_loop),
            Node::For { expr, body, .. } => {
                let (r, f1) = Self::walk(expr, in_loop);
                if let Err(e) = r {
                    return (Err(e), f1);
                }
                Self::walk_loop_body(body)
            },
            Node::While { expr, body } => {
                let (r, f1) = Self::walk(expr, in_loop);
                if let Err(e) = r {
                    return (Err(e), f1);
                }
                Self::walk_loop_body(body)
            },
            Node::Loop { body } => Self::walk_loop_body(body),
            _ => (Ok(()), in_loop),
        }
    }

    /// Expressions with sub-expressions, and function literals.
    fn walk_expr(node: &Node, in_loop: bool) -> (r: (Result<(), CheckErrorKind>, bool))
        requires
            node is Index || node is BinExpr || node is Method || node is Call || node is Func || node is Lambda
                || node is UnExpr,
        ensures
            r == check_node(node@, in_loop),
        decreases node, 1nat,
    {
        match node {
            Node::Index { lhs, rhs } | Node::BinExpr { lhs, rhs, .. } => {
                let (r, f1) = Self::walk(lhs, in_loop);
                if let Err(e) = r {
                    return (Err(e), f1);
                }
                Self::walk(rhs, f1)
            },
            Node::Method { owner, method, args } => {
                let (r, f1) = Self::walk(owner, in_loop);
                if let Err(e) = r {
                    return (Err(e), f1);
                }
                let (r, f2) = Self::walk(method, f1);
                if let Err(e) = r {
                    return (Err(e), f2);
                }
                Self::walk_all(args, f2)
            },
            Node::Call { func, args } => {
                let (r, f1) = Self::walk(func, in_loop);
                if let Err(e) = r {
                    return (Err(e), f1);
                }
                Self::walk_all(args, f1)
            },
            Node::Func { body, .. } => Self::walk_all(body, in_loop),
            Node::Lambda { expr, .. } => Self::walk(expr, in_loop),
            Node::UnExpr { val, .. } => Self::walk(val, in_loop),
            _ => (Ok(()), in_loop),
        }
    }

    /// A loop body is walked with the flag set; the flag is clear after it,
    /// whether the body passed or not.
    fn walk_loop_body(body: &Vec<Node>) -> (r: (Result<(), CheckErrorKind>, bool))
        ensures
            r == check_loop_body(nodes_view(body@)),
        decreases body, 1nat,
    {
        let (r, _) = Self::walk_all(body, true);
        (r, false)
    }

    fn walk_all(ls: &Vec<Node>, start: bool) -> (r: (Result<(), CheckErrorKind>, bool))
        ensures
            r == check_seq(nodes_view(ls@), start),
        decreases ls, 0nat,
    {
        proof {
            lemma_nodes_view_index(ls@);
        }
        let mut in_loop = start;
        let mut i: usize = 0;
        while i < ls.len()
            invariant
                i <= ls.len(),
                nodes_view(ls@).len() == ls.len(),
                forall|k: int| 0 <= k < ls.len() ==> #[trigger] nodes_view(ls@)[k] == ls@[k]@,
                check_seq(nodes_view(ls@).take(i as int), start) == (Ok::<(), CheckErrorKind>(()), in_loop),
            decreases ls.len() - i,
        {
            let ghost t = nodes_view(ls@).take(i + 1);
            proof {
                assert(t.drop_last() =~= nodes_view(ls@).take(i as int));
                assert(t.last() == nodes_view(ls@)[i as int]);
                assert(decreases_to!(ls => ls@[i as int]));
            }
            let (r, after) = Self::walk(&ls[i], in_loop);
            proof {
                assert(check_seq(t, start) == (r, after));
            }
            match r {
                Err(e) => {
                    proof {
                        lemma_check_seq_stops(nodes_view(ls@), i + 1, start);
                    }
                    return (Err(e), after);
                },
                Ok(u) => {
                    proof {
                        assert(u == ());
                    }
                },
            }
            in_loop = after;
            i = i + 1;
            proof {
                assert(nodes_view(ls@).take(i as int) == t);
            }
        }
        proof {
            assert(nodes_view(ls@).take(i as int) =~= nodes_view(ls@));
        }
        (Ok(()), in_loop)
    }

    fn check_place(place: &Place) -> (r: Result<(), CheckErrorKind>)
        ensures
            r == if place_valid(place@) { Ok::<(), CheckErrorKind>(()) } else { Err(CheckErrorKind::NotPlace) },
        decreases place, 1nat,
    {
        match place {
            Place::Single(node) => Self::is_place(node),
            Place::Multi(places) => Self::check_places(places),
        }
    }

    fn check_places(places: &Vec<Place>) -> (r: Result<(), CheckErrorKind>)
        ensures
            r == if places_valid(places_view(places@)) { Ok::<(), CheckErrorKind>(()) } else { Err(CheckErrorKind::NotPlace) },
        decreases places, 0nat,
    {
        proof {
            lemma_places_view_index(places@);
        }
        let mut i: usize = 0;
        while i < places.len()
            invariant
                i <= places.len(),
                places_view(places@).len() == places.len(),
                forall|k: int| 0 <= k < places.len() ==> #[trigger] places_view(places@)[k] == places@[k]@,
                forall|k: int| 0 <= k < i ==> #[trigger] place_valid(places_view(places@)[k]),
            decreases places.len() - i,
        {
            proof {
                assert(decreases_to!(places => places@[i as int]));
            }
            let r = Self::check_place(&places[i]);
            if let Err(e) = r {
                proof {
                    lemma_places_valid_all(places_view(places@));
                    assert(!place_valid(places_view(places@)[i as int]));
                }
                return Err(e);
            }
            i = i + 1;
        }
        proof {
            lemma_places_valid_all(places_view(places@));
        }
        Ok(())
    }

    fn is_place(node: &Node) -> (r: Result<(), CheckErrorKind>)
        ensures
            r == if (node@ is Name || node@ is Index) { Ok::<(), CheckErrorKind>(()) } else { Err(CheckErrorKind::NotPlace) },
    {
        match node {
            Node::Name(_) | Node::Index { .. } => Ok(()),
            _ => Err(CheckErrorKind::NotPlace),
        }
    }
}

} // verus!
