use vstd::prelude::*;
use vstd::arithmetic::div_mod::lemma_mod_add_multiples_vanish;
use vstd::arithmetic::div_mod::lemma_mod_sub_multiples_vanish;
use vstd::arithmetic::div_mod::lemma_small_mod;
use crate::dispatch::Tool;
use crate::dispatch::apply_tool;

verus! {

/// The value left by a run of tool calls applied one at a time, first call
/// first: the serialization of the run.
pub open spec fn apply_tools(v: int, ops: Seq<Tool>) -> int
    decreases ops.len(),
{
    if ops.len() == 0 {
        v
    } else {
        apply_tools(apply_tool(v, ops[0]), ops.drop_first())
    }
}

/// How many calls of a run are increments.
pub open spec fn increment_count(ops: Seq<Tool>) -> int
    decreases ops.len(),
{
    if ops.len() == 0 {
        0
    } else {
        (if ops[0] is Increment { 1int } else { 0int }) + increment_count(ops.drop_first())
    }
}

/// How many calls of a run are decrements.
pub open spec fn decrement_count(ops: Seq<Tool>) -> int
    decreases ops.len(),
{
    if ops.len() == 0 {
        0
    } else {
        (if ops[0] is Decrement { 1int } else { 0int }) + decrement_count(ops.drop_first())
    }
}

/// The representative of a number in `i32` range, modulo 2^32.
pub open spec fn wrap_to_range(n: int) -> int {
    ((n + 0x8000_0000) % 0x1_0000_0000) - 0x8000_0000
}

proof fn lemma_wrap_to_range_identity(n: int)
    requires
        i32::MIN <= n <= i32::MAX,
    ensures
        wrap_to_range(n) == n,
{
    lemma_small_mod((n + 0x8000_0000) as nat, 0x1_0000_0000);
}

proof fn lemma_wrap_to_range_shift(n: int)
    ensures
        wrap_to_range(n + 0x1_0000_0000) == wrap_to_range(n),
        wrap_to_range(n - 0x1_0000_0000) == wrap_to_range(n),
{
    lemma_mod_add_multiples_vanish(n + 0x8000_0000, 0x1_0000_0000);
    lemma_mod_sub_multiples_vanish(n + 0x8000_0000, 0x1_0000_0000);
}

/// Serializability: whatever order a run of tool calls executes in, only the
/// number of increments and the number of decrements decides the final
/// value — their net sum, wrapped into `i32` range.
pub proof fn lemma_net_effect(v: int, ops: Seq<Tool>)
    requires
        i32::MIN <= v <= i32::MAX,
    ensures
        apply_tools(v, ops) == wrap_to_range(v + increment_count(ops) - decrement_count(ops)),
    decreases ops.len(),
{
    if ops.len() == 0 {
        lemma_wrap_to_range_identity(v);
    } else {
        let t = ops[0];
        let v1 = apply_tool(v, t);
        let rest = ops.drop_first();
        lemma_net_effect(v1, rest);
        let full_net = v + increment_count(ops) - decrement_count(ops);
        match t {
            Tool::Increment => {
                if v == i32::MAX {
                    lemma_wrap_to_range_shift(full_net);
                }
            },
            Tool::Decrement => {
                if v == i32::MIN {
                    lemma_wrap_to_range_shift(full_net);
                }
            },
            Tool::GetCounter => {},
        }
    }
}

/// A run of `a` increments and `b` decrements whose net sum stays in `i32`
/// range ends exactly at the initial value plus `a` minus `b`, in every
/// interleaving.
pub proof fn lemma_net_effect_in_range(v: int, ops: Seq<Tool>)
    requires
        i32::MIN <= v <= i32::MAX,
        i32::MIN <= v + increment_count(ops) - decrement_count(ops) <= i32::MAX,
    ensures
        apply_tools(v, ops) == v + increment_count(ops) - decrement_count(ops),
{
    lemma_net_effect(v, ops);
    lemma_wrap_to_range_identity(v + increment_count(ops) - decrement_count(ops));
}

proof fn lemma_uniform_run_counts(ops: Seq<Tool>, t: Tool)
    requires
        forall|i: int| 0 <= i < ops.len() ==> ops[i] == t,
    ensures
        increment_count(ops) == if t is Increment { ops.len() as int } else { 0 },
        decrement_count(ops) == if t is Decrement { ops.len() as int } else { 0 },
    decreases ops.len(),
{
    if ops.len() > 0 {
        lemma_uniform_run_counts(ops.drop_first(), t);
    }
}

/// A run of nothing but increments, short enough not to overflow, raises the
/// value by exactly its length.
pub proof fn lemma_increments_add(v: int, ops: Seq<Tool>)
    requires
        i32::MIN <= v <= i32::MAX,
        forall|i: int| 0 <= i < ops.len() ==> ops[i] is Increment,
        v + ops.len() <= i32::MAX,
    ensures
        apply_tools(v, ops) == v + ops.len(),
{
    lemma_uniform_run_counts(ops, Tool::Increment);
    lemma_net_effect_in_range(v, ops);
}

/// A run of nothing but decrements, short enough not to underflow, lowers
/// the value by exactly its length.
pub proof fn lemma_decrements_subtract(v: int, ops: Seq<Tool>)
    requires
        i32::MIN <= v <= i32::MAX,
        forall|i: int| 0 <= i < ops.len() ==> ops[i] is Decrement,
        i32::MIN <= v - ops.len(),
    ensures
        apply_tools(v, ops) == v - ops.len(),
{
    lemma_uniform_run_counts(ops, Tool::Decrement);
    lemma_net_effect_in_range(v, ops);
}

/// Reading never mutates: a run of nothing but `get_counter` calls leaves
/// the value exactly where it was.
pub proof fn lemma_reads_preserve_value(v: int, ops: Seq<Tool>)
    requires
        forall|i: int| 0 <= i < ops.len() ==> ops[i] is GetCounter,
    ensures
        apply_tools(v, ops) == v,
    decreases ops.len(),
{
    if ops.len() > 0 {
        lemma_reads_preserve_value(v, ops.drop_first());
    }
}

} // verus!
