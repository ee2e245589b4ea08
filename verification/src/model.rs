//! The mathematical model of scoped operations.
//!
//! Each supported operation is described twice: `*_applied` says what the
//! operation does to the sequence when a handle is constructed, and `*_undone`
//! says what releasing the handle does. Where an operation must remember
//! something to invert itself (the element a pop removed, the value an
//! assignment overwrote), a `*_saved` function says what is remembered.
//! The lemmas at the end are the undo-correctness laws: every single operation
//! round-trips, and in a nested chain every unwind step restores exactly the
//! sequence that existed before the corresponding operation was applied.

use vstd::prelude::*;

verus! {

/// The sequence after an element is pushed onto the end.
pub open spec fn push_applied<T>(s: Seq<T>, value: T) -> Seq<T> {
    s.push(value)
}

/// Undoing a push removes the last element.
pub open spec fn push_undone<T>(t: Seq<T>) -> Seq<T> {
    t.drop_last()
}

/// The sequence after its last element is popped; popping an empty sequence
/// is a no-op, not an error.
pub open spec fn pop_applied<T>(s: Seq<T>) -> Seq<T> {
    if s.len() == 0 {
        s
    } else {
        s.drop_last()
    }
}

/// What a pop remembers: the removed element, or nothing if the sequence was
/// already empty.
pub open spec fn pop_saved<T>(s: Seq<T>) -> Option<T> {
    if s.len() == 0 {
        None
    } else {
        Some(s.last())
    }
}

/// Undoing a pop appends the saved element back, or does nothing if nothing
/// was popped.
pub open spec fn pop_undone<T>(t: Seq<T>, saved: Option<T>) -> Seq<T> {
    match saved {
        Some(value) => t.push(value),
        None => t,
    }
}

/// The sequence after the element at `i` is replaced by `value`.
pub open spec fn assign_applied<T>(s: Seq<T>, i: int, value: T) -> Seq<T> {
    s.update(i, value)
}

/// Undoing an assignment restores the overwritten element at the same index.
pub open spec fn assign_undone<T>(t: Seq<T>, i: int, previous: T) -> Seq<T> {
    t.update(i, previous)
}

/// A scoped operation, in the abstract: what a handle does to the sequence.
pub enum Op<T> {
    /// Append the element to the end.
    Push(T),
    /// Remove the last element, if any.
    Pop,
    /// Replace the element at the index by the value.
    Assign(usize, T),
    /// Leave the sequence as it is.
    Noop,
}

/// An operation is valid on a sequence when its arguments make sense there:
/// only an assignment constrains them, to an in-bounds index.
pub open spec fn op_valid<T>(op: Op<T>, s: Seq<T>) -> bool {
    match op {
        Op::Assign(i, _) => i < s.len(),
        _ => true,
    }
}

/// The sequence after the operation is applied.
pub open spec fn op_apply<T>(op: Op<T>, s: Seq<T>) -> Seq<T> {
    match op {
        Op::Push(value) => push_applied(s, value),
        Op::Pop => pop_applied(s),
        Op::Assign(i, value) => assign_applied(s, i as int, value),
        Op::Noop => s,
    }
}

/// What the operation's handle saves at construction in order to invert it.
pub open spec fn op_saved<T>(op: Op<T>, s: Seq<T>) -> Option<T> {
    match op {
        Op::Push(_) => None,
        Op::Pop => pop_saved(s),
        Op::Assign(i, _) => if i < s.len() {
            Some(s[i as int])
        } else {
            None
        },
        Op::Noop => None,
    }
}

/// The sequence after the operation is undone on `t`, given what was saved.
pub open spec fn op_undo<T>(op: Op<T>, saved: Option<T>, t: Seq<T>) -> Seq<T> {
    match op {
        Op::Push(_) => push_undone(t),
        Op::Pop => pop_undone(t, saved),
        Op::Assign(i, _) => match saved {
            Some(previous) => assign_undone(t, i as int, previous),
            None => t,
        },
        Op::Noop => t,
    }
}

/// Law: a push followed by its undo restores the original sequence.
pub proof fn lemma_push_round_trip<T>(s: Seq<T>, value: T)
    ensures
        push_undone(push_applied(s, value)) == s,
{
    assert(push_applied(s, value).drop_last() =~= s);
}

/// Law: a pop followed by its undo restores the original sequence, whether or
/// not the sequence had an element to pop.
pub proof fn lemma_pop_round_trip<T>(s: Seq<T>)
    ensures
        pop_undone(pop_applied(s), pop_saved(s)) == s,
{
    if s.len() > 0 {
        assert(s.drop_last().push(s.last()) =~= s);
    }
}

/// Law: popping an empty sequence leaves it empty, saves nothing, and its
/// undo leaves it empty again.
pub proof fn lemma_pop_empty_round_trip<T>(s: Seq<T>)
    requires
        s.len() == 0,
    ensures
        pop_applied(s) == s,
        pop_saved(s) is None,
        pop_undone(pop_applied(s), pop_saved(s)) == s,
{
}

/// Law: an in-bounds assignment followed by its undo (restoring the
/// overwritten element) gives back the original sequence.
pub proof fn lemma_assign_round_trip<T>(s: Seq<T>, i: int, value: T)
    requires
        0 <= i < s.len(),
    ensures
        assign_undone(assign_applied(s, i, value), i, s[i]) == s,
{
    assert(s.update(i, value).update(i, s[i]) =~= s);
}

/// Law: applying any single valid operation and then releasing it yields the
/// sequence it started from.
pub proof fn lemma_op_round_trip<T>(op: Op<T>, s: Seq<T>)
    requires
        op_valid(op, s),
    ensures
        op_undo(op, op_saved(op, s), op_apply(op, s)) == s,
{
    match op {
        Op::Push(value) => lemma_push_round_trip(s, value),
        Op::Pop => lemma_pop_round_trip(s),
        Op::Assign(i, value) => lemma_assign_round_trip(s, i as int, value),
        Op::Noop => {},
    }
}

/// The sequence after a chain of operations is applied in order, each nested
/// inside the previous.
pub open spec fn chain_apply<T>(ops: Seq<Op<T>>, s: Seq<T>) -> Seq<T>
    decreases ops.len(),
{
    if ops.len() == 0 {
        s
    } else {
        chain_apply(ops.skip(1), op_apply(ops[0], s))
    }
}

/// A chain is valid on a sequence when each operation is valid on the state
/// it is applied to.
pub open spec fn chain_valid<T>(ops: Seq<Op<T>>, s: Seq<T>) -> bool
    decreases ops.len(),
{
    ops.len() == 0 || (op_valid(ops[0], s) && chain_valid(ops.skip(1), op_apply(ops[0], s)))
}

/// Applying one more operation of the chain extends `chain_apply` by one
/// `op_apply` step.
proof fn lemma_chain_apply_step<T>(ops: Seq<Op<T>>, s: Seq<T>, i: int)
    requires
        0 <= i < ops.len(),
    ensures
        chain_apply(ops.take(i + 1), s) == op_apply(ops[i], chain_apply(ops.take(i), s)),
    decreases i,
{
    if i == 0 {
        let pre = ops.take(1);
        assert(pre.len() == 1);
        assert(pre[0] == ops[0]);
        assert(chain_apply(pre, s) == chain_apply(pre.skip(1), op_apply(pre[0], s)));
        assert(pre.skip(1) =~= ops.take(0));
        assert(ops.take(0).len() == 0);
        assert(chain_apply(ops.take(0), s) == s);
        assert(chain_apply(pre.skip(1), op_apply(pre[0], s)) == op_apply(ops[0], s));
    } else {
        let rest = ops.skip(1);
        let s1 = op_apply(ops[0], s);
        lemma_chain_apply_step(rest, s1, i - 1);
        assert(ops.take(i + 1)[0] == ops[0]);
        assert(ops.take(i)[0] == ops[0]);
        assert(rest[i - 1] == ops[i]);
        assert(ops.take(i + 1).skip(1) =~= rest.take(i));
        assert(ops.take(i).skip(1) =~= rest.take(i - 1));
    }
}

/// In a valid chain, each operation is valid on the state that the operations
/// before it produced.
proof fn lemma_chain_valid_at<T>(ops: Seq<Op<T>>, s: Seq<T>, i: int)
    requires
        chain_valid(ops, s),
        0 <= i < ops.len(),
    ensures
        op_valid(ops[i], chain_apply(ops.take(i), s)),
    decreases i,
{
    if i > 0 {
        let rest = ops.skip(1);
        let s1 = op_apply(ops[0], s);
        lemma_chain_valid_at(rest, s1, i - 1);
        assert(ops.take(i).skip(1) =~= rest.take(i - 1));
    }
}

/// A prefix of a valid chain is itself valid.
proof fn lemma_chain_valid_prefix<T>(ops: Seq<Op<T>>, s: Seq<T>, n: int)
    requires
        chain_valid(ops, s),
        0 <= n <= ops.len(),
    ensures
        chain_valid(ops.take(n), s),
    decreases n,
{
    if n > 0 {
        let rest = ops.skip(1);
        let s1 = op_apply(ops[0], s);
        lemma_chain_valid_prefix(rest, s1, n - 1);
        assert(ops.take(n).skip(1) =~= rest.take(n - 1));
    }
}

/// Law: nesting commutes with reversal order. In a valid chain, undoing the
/// operation at position `i` — from the state the chain's first `i + 1`
/// operations produced, with what that operation saved — yields exactly the
/// state that existed immediately before it was applied.
pub proof fn lemma_nested_unwind<T>(ops: Seq<Op<T>>, s: Seq<T>, i: int)
    requires
        chain_valid(ops, s),
        0 <= i < ops.len(),
    ensures
        op_undo(
            ops[i],
            op_saved(ops[i], chain_apply(ops.take(i), s)),
            chain_apply(ops.take(i + 1), s),
        ) == chain_apply(ops.take(i), s),
{
    lemma_chain_valid_at(ops, s, i);
    lemma_chain_apply_step(ops, s, i);
    lemma_op_round_trip(ops[i], chain_apply(ops.take(i), s));
}

/// The state after unwinding a whole chain from `t`: the last operation is
/// undone first, with what it saved when it was applied, and so on backwards.
pub open spec fn chain_unwind<T>(ops: Seq<Op<T>>, s: Seq<T>, t: Seq<T>) -> Seq<T>
    decreases ops.len(),
{
    if ops.len() == 0 {
        t
    } else {
        let prior = chain_apply(ops.drop_last(), s);
        chain_unwind(ops.drop_last(), s, op_undo(ops.last(), op_saved(ops.last(), prior), t))
    }
}

/// Law: releasing every handle of a valid chain, in reverse creation order,
/// restores the sequence the chain started from.
pub proof fn lemma_chain_round_trip<T>(ops: Seq<Op<T>>, s: Seq<T>)
    requires
        chain_valid(ops, s),
    ensures
        chain_unwind(ops, s, chain_apply(ops, s)) == s,
    decreases ops.len(),
{
    if ops.len() > 0 {
        let n = ops.len() - 1;
        lemma_nested_unwind(ops, s, n);
        assert(ops.take(n + 1) =~= ops);
        assert(ops.take(n) =~= ops.drop_last());
        lemma_chain_valid_prefix(ops, s, n);
        lemma_chain_round_trip(ops.drop_last(), s);
    }
}

} // verus!
