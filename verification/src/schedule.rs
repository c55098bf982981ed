use vstd::prelude::*;

verus! {

/// One invocation made during a suite run, identified by the kind of
/// procedure invoked and its position in its own collection.
#[derive(Clone, Copy, PartialEq, Eq, Structural, Debug)]
pub enum Step {
    /// The before-all procedure at this position runs.
    BeforeAll(usize),
    /// The before-each procedure at this position runs, ahead of one test.
    BeforeEach(usize),
    /// The test at this position runs.
    RunTest(usize),
    /// The after-each procedure at this position runs, after one test.
    AfterEach(usize),
    /// The after-all procedure at this position runs.
    AfterAll(usize),
}

/// The invocations surrounding and including test `t`, in order: the `e`
/// before-each procedures in list order, the test itself, then the `a`
/// after-each procedures in list order.
pub open spec fn test_block(t: usize, e: usize, a: usize) -> Seq<Step> {
    Seq::new(e as nat, |i: int| Step::BeforeEach(i as usize)) + seq![Step::RunTest(t)]
        + Seq::new(a as nat, |i: int| Step::AfterEach(i as usize))
}

/// The invocations of the first `n` tests, each surrounded by its hook
/// block, in test order.
pub open spec fn test_blocks(n: nat, e: usize, a: usize) -> Seq<Step>
    decreases n,
{
    if n == 0 {
        Seq::empty()
    } else {
        test_blocks((n - 1) as nat, e, a) + test_block((n - 1) as usize, e, a)
    }
}

/// The exact order in which a suite with `b` before-all procedures, `e`
/// before-each procedures, `n` tests, `a` after-each procedures and `z`
/// after-all procedures is executed: every before-all in queue order,
/// then every test in queue order (each preceded by the whole before-each
/// list and followed by the whole after-each list), then every after-all
/// in queue order.
pub open spec fn run_order(b: usize, e: usize, n: usize, a: usize, z: usize) -> Seq<Step> {
    Seq::new(b as nat, |i: int| Step::BeforeAll(i as usize)) + test_blocks(n as nat, e, a)
        + Seq::new(z as nat, |i: int| Step::AfterAll(i as usize))
}

/// How many times step `x` occurs in `s`.
pub open spec fn step_count(s: Seq<Step>, x: Step) -> nat
    decreases s.len(),
{
    if s.len() == 0 {
        0
    } else {
        step_count(s.drop_last(), x) + (if s.last() == x {
            1nat
        } else {
            0nat
        })
    }
}

/// Occurrences in a concatenation are the occurrences in the parts.
proof fn lemma_step_count_add(s1: Seq<Step>, s2: Seq<Step>, x: Step)
    ensures
        step_count(s1 + s2, x) == step_count(s1, x) + step_count(s2, x),
    decreases s2.len(),
{
    if s2.len() == 0 {
        assert(s1 + s2 =~= s1);
    } else {
        lemma_step_count_add(s1, s2.drop_last(), x);
        assert((s1 + s2).drop_last() =~= s1 + s2.drop_last());
        assert((s1 + s2).last() == s2.last());
    }
}

/// A step that no position of the map produces does not occur in the
/// sequence built from the map.
proof fn lemma_step_count_miss(m: nat, f: spec_fn(int) -> Step, x: Step)
    requires
        forall|i: int| 0 <= i < m ==> #[trigger] f(i) != x,
    ensures
        step_count(Seq::new(m, f), x) == 0,
    decreases m,
{
    if m > 0 {
        lemma_step_count_miss((m - 1) as nat, f, x);
        assert(Seq::new(m, f).drop_last() =~= Seq::new((m - 1) as nat, f));
        assert(Seq::new(m, f).last() == f(m - 1));
    }
}

/// A step that exactly one position of the map produces occurs exactly
/// once in the sequence built from the map.
proof fn lemma_step_count_hit(m: nat, f: spec_fn(int) -> Step, k: int)
    requires
        0 <= k < m,
        forall|i: int| 0 <= i < m && i != k ==> #[trigger] f(i) != f(k),
    ensures
        step_count(Seq::new(m, f), f(k)) == 1,
    decreases m,
{
    assert(Seq::new(m, f).drop_last() =~= Seq::new((m - 1) as nat, f));
    assert(Seq::new(m, f).last() == f(m - 1));
    if k == m - 1 {
        lemma_step_count_miss((m - 1) as nat, f, f(k));
    } else {
        lemma_step_count_hit((m - 1) as nat, f, k);
    }
}

/// Occurrences of each step in one test's block: each before-each and
/// after-each position once, the test itself once, nothing else.
proof fn lemma_test_block_count(t: usize, e: usize, a: usize, x: Step)
    ensures
        step_count(test_block(t, e, a), x) == match x {
            Step::BeforeEach(j) => if j < e {
                1nat
            } else {
                0nat
            },
            Step::RunTest(s) => if s == t {
                1nat
            } else {
                0nat
            },
            Step::AfterEach(j) => if j < a {
                1nat
            } else {
                0nat
            },
            _ => 0nat,
        },
{
    let fb = |i: int| Step::BeforeEach(i as usize);
    let fa = |i: int| Step::AfterEach(i as usize);
    let befores = Seq::new(e as nat, fb);
    let afters = Seq::new(a as nat, fa);
    let one = seq![Step::RunTest(t)];
    assert(test_block(t, e, a) =~= befores + one + afters);
    lemma_step_count_add(befores + one, afters, x);
    lemma_step_count_add(befores, one, x);
    assert(one.len() == 1);
    assert(one.drop_last() =~= Seq::<Step>::empty());
    assert(one.last() == Step::RunTest(t));
    assert(step_count(one.drop_last(), x) == 0);
    assert(step_count(one, x) == step_count(one.drop_last(), x) + (if one.last() == x {
        1nat
    } else {
        0nat
    }));
    match x {
        Step::BeforeEach(j) => {
            if j < e {
                assert(fb(j as int) == x);
                lemma_step_count_hit(e as nat, fb, j as int);
            } else {
                lemma_step_count_miss(e as nat, fb, x);
            }
            lemma_step_count_miss(a as nat, fa, x);
        },
        Step::AfterEach(j) => {
            lemma_step_count_miss(e as nat, fb, x);
            if j < a {
                assert(fa(j as int) == x);
                lemma_step_count_hit(a as nat, fa, j as int);
            } else {
                lemma_step_count_miss(a as nat, fa, x);
            }
        },
        _ => {
            lemma_step_count_miss(e as nat, fb, x);
            lemma_step_count_miss(a as nat, fa, x);
        },
    }
}

/// Occurrences of each step across the blocks of the first `n` tests.
proof fn lemma_test_blocks_count(n: nat, e: usize, a: usize, x: Step)
    requires
        n <= usize::MAX,
    ensures
        step_count(test_blocks(n, e, a), x) == match x {
            Step::BeforeEach(j) => if j < e {
                n
            } else {
                0nat
            },
            Step::RunTest(s) => if s < n {
                1nat
            } else {
                0nat
            },
            Step::AfterEach(j) => if j < a {
                n
            } else {
                0nat
            },
            _ => 0nat,
        },
    decreases n,
{
    if n > 0 {
        lemma_test_blocks_count((n - 1) as nat, e, a, x);
        lemma_step_count_add(
            test_blocks((n - 1) as nat, e, a),
            test_block((n - 1) as usize, e, a),
            x,
        );
        lemma_test_block_count((n - 1) as usize, e, a, x);
    }
}

/// Hook cardinality: in a run of a suite with `b` before-all procedures,
/// `e` before-each procedures, `n` tests, `a` after-each procedures and
/// `z` after-all procedures, each before-all and after-all procedure is
/// invoked exactly once, each test is run exactly once, and each
/// before-each and after-each procedure is invoked exactly once per test,
/// `n` times in all; nothing else is invoked.
pub proof fn lemma_hook_cardinality(b: usize, e: usize, n: usize, a: usize, z: usize, x: Step)
    ensures
        step_count(run_order(b, e, n, a, z), x) == match x {
            Step::BeforeAll(i) => if i < b {
                1nat
            } else {
                0nat
            },
            Step::BeforeEach(j) => if j < e {
                n as nat
            } else {
                0nat
            },
            Step::RunTest(t) => if t < n {
                1nat
            } else {
                0nat
            },
            Step::AfterEach(j) => if j < a {
                n as nat
            } else {
                0nat
            },
            Step::AfterAll(i) => if i < z {
                1nat
            } else {
                0nat
            },
        },
{
    let fb = |i: int| Step::BeforeAll(i as usize);
    let fz = |i: int| Step::AfterAll(i as usize);
    let before_alls = Seq::new(b as nat, fb);
    let after_alls = Seq::new(z as nat, fz);
    let middle = test_blocks(n as nat, e, a);
    assert(run_order(b, e, n, a, z) =~= before_alls + middle + after_alls);
    lemma_step_count_add(before_alls + middle, after_alls, x);
    lemma_step_count_add(before_alls, middle, x);
    lemma_test_blocks_count(n as nat, e, a, x);
    match x {
        Step::BeforeAll(i) => {
            if i < b {
                assert(fb(i as int) == x);
                lemma_step_count_hit(b as nat, fb, i as int);
            } else {
                lemma_step_count_miss(b as nat, fb, x);
            }
            lemma_step_count_miss(z as nat, fz, x);
        },
        Step::AfterAll(i) => {
            lemma_step_count_miss(b as nat, fb, x);
            if i < z {
                assert(fz(i as int) == x);
                lemma_step_count_hit(z as nat, fz, i as int);
            } else {
                lemma_step_count_miss(z as nat, fz, x);
            }
        },
        _ => {
            lemma_step_count_miss(b as nat, fb, x);
            lemma_step_count_miss(z as nat, fz, x);
        },
    }
}

/// Computes the exact execution order of a suite with `b` before-all
/// procedures, `e` before-each procedures, `n` tests, `a` after-each
/// procedures and `z` after-all procedures, as [`run_order`] states it.
#[verifier::loop_isolation(false)]
pub fn execution_order(b: usize, e: usize, n: usize, a: usize, z: usize) -> (r: Vec<Step>)
    ensures
        r@ == run_order(b, e, n, a, z),
{
    let mut r: Vec<Step> = Vec::new();
    let ghost before_alls = Seq::new(b as nat, |i: int| Step::BeforeAll(i as usize));

    let mut i: usize = 0;
    while i < b
        invariant
            i <= b,
            r@ =~= before_alls.take(i as int),
        decreases b - i,
    {
        r.push(Step::BeforeAll(i));
        i = i + 1;
    }
    proof {
        assert(r@ =~= before_alls);
    }

    let mut t: usize = 0;
    while t < n
        invariant
            t <= n,
            r@ =~= before_alls + test_blocks(t as nat, e, a),
        decreases n - t,
    {
        let ghost prefix = before_alls + test_blocks(t as nat, e, a);

        let mut j: usize = 0;
        while j < e
            invariant
                j <= e,
                r@ =~= prefix + Seq::new(j as nat, |i: int| Step::BeforeEach(i as usize)),
            decreases e - j,
        {
            r.push(Step::BeforeEach(j));
            j = j + 1;
        }

        r.push(Step::RunTest(t));
        let ghost mid = prefix + Seq::new(e as nat, |i: int| Step::BeforeEach(i as usize)) + seq![
            Step::RunTest(t),
        ];
        proof {
            assert(r@ =~= mid);
        }

        let mut j: usize = 0;
        while j < a
            invariant
                j <= a,
                r@ =~= mid + Seq::new(j as nat, |i: int| Step::AfterEach(i as usize)),
            decreases a - j,
        {
            r.push(Step::AfterEach(j));
            j = j + 1;
        }

        proof {
            assert(r@ =~= before_alls + test_blocks((t + 1) as nat, e, a));
        }
        t = t + 1;
    }

    let mut i: usize = 0;
    while i < z
        invariant
            i <= z,
            r@ =~= before_alls + test_blocks(n as nat, e, a) + Seq::new(
                i as nat,
                |k: int| Step::AfterAll(k as usize),
            ),
        decreases z - i,
    {
        r.push(Step::AfterAll(i));
        i = i + 1;
    }
    proof {
        assert(r@ =~= run_order(b, e, n, a, z));
    }
    r
}

} // verus!
