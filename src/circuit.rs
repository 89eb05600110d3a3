use vstd::prelude::*;
use crate::engine::{Engine, bit_values};

verus! {

/// The operator of one instruction of a gate program.
#[derive(Clone, Copy, Debug, PartialEq, Eq, Structural)]
pub enum GateOp {
    Xor,
    And,
    /// Reads `lhs` only.
    Not,
}

/// One instruction: its result is the next wire of the program.
#[derive(Clone, Copy, Debug, PartialEq, Eq, Structural)]
pub struct Gate {
    pub op: GateOp,
    pub lhs: usize,
    pub rhs: usize,
}

/// A straight-line gate program over numbered wires. Wires `0..n_inputs` are
/// the inputs; instruction `k` writes wire `n_inputs + k`; `outputs` names the
/// wires that are read out at the end.
pub struct Program {
    pub n_inputs: usize,
    pub gates: Vec<Gate>,
    pub outputs: Vec<usize>,
}

/// Why a gate program is malformed.
#[derive(Clone, Copy, Debug, PartialEq, Eq, Structural)]
pub enum ProgramError {
    /// The wires cannot all be numbered by a `usize`.
    TooManyWires,
    /// Instruction `gate` reads a wire that no earlier instruction wrote.
    DanglingOperand { gate: usize },
    /// Output number `index` names a wire that the program never writes.
    MissingOutput { index: usize },
}

pub open spec fn gate_value(op: GateOp, a: bool, b: bool) -> bool {
    match op {
        GateOp::Xor => a != b,
        GateOp::And => a && b,
        GateOp::Not => !a,
    }
}

impl Program {
    pub open spec fn n_wires(&self) -> int {
        self.n_inputs + self.gates@.len()
    }

    /// Instruction `k` reads only inputs and the results of earlier instructions.
    pub open spec fn gate_ok(&self, k: int) -> bool {
        &&& self.gates@[k].lhs < self.n_inputs + k
        &&& self.gates@[k].rhs < self.n_inputs + k
    }

    /// Every operand is written before it is read, and every output is written.
    pub open spec fn wf(&self) -> bool {
        &&& self.n_wires() <= usize::MAX
        &&& forall|k: int| 0 <= k < self.gates@.len() ==> #[trigger] self.gate_ok(k)
        &&& forall|i: int|
            0 <= i < self.outputs@.len() ==> #[trigger] self.outputs@[i] < self.n_wires()
    }

    /// Wire `n_inputs + k` of `w` is what instruction `k` computes from `w`.
    pub open spec fn gate_holds(&self, w: Seq<bool>, k: int) -> bool {
        let g = self.gates@[k];
        w[self.n_inputs + k] == gate_value(g.op, w[g.lhs as int], w[g.rhs as int])
    }

    /// `w` is the wire table of this program run on `inputs`.
    pub open spec fn consistent(&self, inputs: Seq<bool>, w: Seq<bool>) -> bool {
        &&& w.len() == self.n_wires()
        &&& inputs.len() == self.n_inputs
        &&& w.subrange(0, self.n_inputs as int) == inputs
        &&& forall|k: int| 0 <= k < self.gates@.len() ==> #[trigger] self.gate_holds(w, k)
    }

    /// The values that the outputs read from the wire table `w`.
    pub open spec fn read_outputs(&self, w: Seq<bool>) -> Seq<bool> {
        Seq::new(self.outputs@.len(), |i: int| w[self.outputs@[i] as int])
    }

    /// Checks the program once before it is run.
    pub fn check(&self) -> (r: Result<(), ProgramError>)
        ensures
            r is Ok <==> self.wf(),
            r matches Err(ProgramError::TooManyWires) ==> self.n_wires() > usize::MAX,
            r matches Err(ProgramError::DanglingOperand { gate }) ==> gate < self.gates@.len()
                && !self.gate_ok(gate as int),
            r matches Err(ProgramError::MissingOutput { index }) ==> index < self.outputs@.len()
                && self.outputs@[index as int] >= self.n_wires(),
    {
        if self.gates.len() > usize::MAX - self.n_inputs {
            return Err(ProgramError::TooManyWires);
        }
        let mut k: usize = 0;
        while k < self.gates.len()
            invariant
                self.n_wires() <= usize::MAX,
                k <= self.gates@.len(),
                forall|j: int| 0 <= j < k ==> #[trigger] self.gate_ok(j),
            decreases self.gates@.len() - k,
        {
            let g = self.gates[k];
            if g.lhs >= self.n_inputs + k || g.rhs >= self.n_inputs + k {
                assert(!self.gate_ok(k as int));
                return Err(ProgramError::DanglingOperand { gate: k });
            }
            k = k + 1;
        }
        let mut i: usize = 0;
        while i < self.outputs.len()
            invariant
                self.n_wires() <= usize::MAX,
                forall|j: int| 0 <= j < self.gates@.len() ==> #[trigger] self.gate_ok(j),
                i <= self.outputs@.len(),
                forall|j: int| 0 <= j < i ==> #[trigger] self.outputs@[j] < self.n_wires(),
            decreases self.outputs@.len() - i,
        {
            if self.outputs[i] >= self.n_inputs + self.gates.len() {
                assert(!(self.outputs@[i as int] < self.n_wires()));
                return Err(ProgramError::MissingOutput { index: i });
            }
            i = i + 1;
        }
        Ok(())
    }
}

/// Runs a well-formed program on `inputs` with the engine's gates, one
/// instruction after another, and returns the whole wire table.
pub fn execute<E: Engine>(e: &E, p: &Program, inputs: Vec<E::Bit>) -> (w: Vec<E::Bit>)
    requires
        p.wf(),
        inputs@.len() == p.n_inputs,
    ensures
        w@.len() == p.n_wires(),
        e.is_clear() ==> p.consistent(bit_values(e, inputs@), bit_values(e, w@)),
{
    let ghost ins = inputs@;
    let mut w = inputs;
    let mut k: usize = 0;
    while k < p.gates.len()
        invariant
            p.wf(),
            ins.len() == p.n_inputs,
            k <= p.gates@.len(),
            w@.len() == p.n_inputs + k,
            w@.subrange(0, p.n_inputs as int) == ins,
            e.is_clear() ==> forall|j: int|
                0 <= j < k ==> #[trigger] p.gate_holds(bit_values(e, w@), j),
        decreases p.gates@.len() - k,
    {
        let g = p.gates[k];
        assert(p.gate_ok(k as int));
        let v = match g.op {
            GateOp::Xor => e.bit_xor(&w[g.lhs], &w[g.rhs]),
            GateOp::And => e.bit_and(&w[g.lhs], &w[g.rhs]),
            GateOp::Not => e.bit_not(&w[g.lhs]),
        };
        let ghost before = w@;
        w.push(v);
        proof {
            assert(w@.subrange(0, p.n_inputs as int) =~= before.subrange(0, p.n_inputs as int));
            if e.is_clear() {
                let bv = bit_values(e, w@);
                let bb = bit_values(e, before);
                assert forall|j: int| 0 <= j <= k implies #[trigger] p.gate_holds(bv, j) by {
                    assert(p.gate_ok(j));
                    if j < k {
                        assert(p.gate_holds(bb, j));
                    }
                }
            }
        }
        k = k + 1;
    }
    proof {
        if e.is_clear() {
            assert(bit_values(e, w@).subrange(0, p.n_inputs as int) =~= bit_values(e, ins));
        }
    }
    w
}

/// Copies the output wires out of a wire table.
pub fn read_outputs<E: Engine>(e: &E, p: &Program, w: &Vec<E::Bit>) -> (r: Vec<E::Bit>)
    requires
        p.wf(),
        w@.len() == p.n_wires(),
    ensures
        r@.len() == p.outputs@.len(),
        e.is_clear() ==> bit_values(e, r@) == p.read_outputs(bit_values(e, w@)),
{
    let mut r: Vec<E::Bit> = Vec::new();
    let mut i: usize = 0;
    while i < p.outputs.len()
        invariant
            p.wf(),
            w@.len() == p.n_wires(),
            i <= p.outputs@.len(),
            r@.len() == i,
            e.is_clear() ==> forall|j: int|
                0 <= j < i ==> e.bit_value(#[trigger] &r@[j]) == e.bit_value(
                    &w@[p.outputs@[j] as int],
                ),
        decreases p.outputs@.len() - i,
    {
        assert(p.outputs@[i as int] < p.n_wires());
        let b = e.bit_copy(&w[p.outputs[i]]);
        r.push(b);
        i = i + 1;
    }
    proof {
        if e.is_clear() {
            assert(bit_values(e, r@) =~= p.read_outputs(bit_values(e, w@)));
        }
    }
    r
}

/// Runs a program and returns its outputs.
pub fn evaluate<E: Engine>(e: &E, p: &Program, inputs: Vec<E::Bit>) -> (r: Vec<E::Bit>)
    requires
        p.wf(),
        inputs@.len() == p.n_inputs,
    ensures
        r@.len() == p.outputs@.len(),
        e.is_clear() ==> exists|w: Seq<bool>|
            p.consistent(bit_values(e, inputs@), w) && bit_values(e, r@) == p.read_outputs(w),
{
    let ghost ins = inputs@;
    let w = execute(e, p, inputs);
    let r = read_outputs(e, p, &w);
    proof {
        if e.is_clear() {
            assert(p.consistent(bit_values(e, ins), bit_values(e, w@)));
        }
    }
    r
}

/// The plain value of a wire that may not be computed yet.
pub open spec fn slot_value<E: Engine>(e: &E, o: Option<E::Bit>) -> bool {
    match o {
        Some(b) => e.bit_value(&b),
        None => false,
    }
}

/// The plain values of a partly computed wire table.
pub open spec fn slot_values<E: Engine>(e: &E, t: Seq<Option<E::Bit>>) -> Seq<bool> {
    Seq::new(t.len(), |i: int| slot_value(e, t[i]))
}

impl Program {
    /// Instruction `k` has been computed in `t`, after its operands, and its
    /// value is what it computes from them.
    pub open spec fn slot_sound<E: Engine>(&self, e: &E, t: Seq<Option<E::Bit>>, k: int) -> bool {
        let g = self.gates@[k];
        t[self.n_inputs + k] is Some ==> {
            &&& t[g.lhs as int] is Some
            &&& t[g.rhs as int] is Some
            &&& e.is_clear() ==> slot_value(e, t[self.n_inputs + k]) == gate_value(
                g.op,
                slot_value(e, t[g.lhs as int]),
                slot_value(e, t[g.rhs as int]),
            )
        }
    }
}

/// Runs the program the way a pool of `workers` would. Each round looks at
/// the instructions in program order and evaluates up to `workers` of those
/// whose operands were all computed when the round began. The first
/// instruction not yet computed always has its operands ready, so every
/// round makes progress.
pub fn execute_pooled<E: Engine>(e: &E, p: &Program, inputs: Vec<E::Bit>, workers: usize) -> (w: Vec<E::Bit>)
    requires
        p.wf(),
        inputs@.len() == p.n_inputs,
        workers >= 1,
    ensures
        w@.len() == p.n_wires(),
        e.is_clear() ==> p.consistent(bit_values(e, inputs@), bit_values(e, w@)),
{
    let n = p.n_inputs;
    let m = p.gates.len();
    let mut table: Vec<Option<E::Bit>> = Vec::new();
    let mut i: usize = 0;
    while i < n
        invariant
            inputs@.len() == n,
            i <= n,
            table@.len() == i,
            forall|j: int| 0 <= j < i ==> #[trigger] table@[j] is Some,
            e.is_clear() ==> forall|j: int|
                0 <= j < i ==> #[trigger] slot_value(e, table@[j]) == e.bit_value(&inputs@[j]),
        decreases n - i,
    {
        table.push(Some(e.bit_copy(&inputs[i])));
        i = i + 1;
    }
    let mut k: usize = 0;
    while k < m
        invariant
            p.wf(),
            inputs@.len() == n,
            n == p.n_inputs,
            m == p.gates@.len(),
            k <= m,
            table@.len() == n + k,
            forall|j: int| 0 <= j < n ==> #[trigger] table@[j] is Some,
            e.is_clear() ==> forall|j: int|
                0 <= j < n ==> #[trigger] slot_value(e, table@[j]) == e.bit_value(&inputs@[j]),
            forall|j: int| n <= j < n + k ==> #[trigger] table@[j] is None,
        decreases m - k,
    {
        table.push(None);
        k = k + 1;
    }
    assert forall|j: int| 0 <= j < m implies #[trigger] p.slot_sound(e, table@, j) by {
        assert(table@[n + j] is None);
    }
    let mut lo: usize = 0;
    while lo < m
        invariant
            p.wf(),
            inputs@.len() == n,
            workers >= 1,
            n == p.n_inputs,
            m == p.gates@.len(),
            lo <= m,
            table@.len() == p.n_wires(),
            forall|j: int| 0 <= j < n ==> #[trigger] table@[j] is Some,
            e.is_clear() ==> forall|j: int|
                0 <= j < n ==> #[trigger] slot_value(e, table@[j]) == e.bit_value(&inputs@[j]),
            forall|j: int| 0 <= j < lo ==> #[trigger] table@[n + j] is Some,
            forall|j: int| 0 <= j < m ==> #[trigger] p.slot_sound(e, table@, j),
        decreases m - lo,
    {
        if table[n + lo].is_none() {
            let mut ready: Vec<bool> = Vec::new();
            let mut x: usize = 0;
            while x < n + m
                invariant
                    n + m <= usize::MAX,
                    table@.len() == n + m,
                    x <= n + m,
                    ready@.len() == x,
                    forall|y: int| 0 <= y < x ==> #[trigger] ready@[y] == table@[y] is Some,
                decreases n + m - x,
            {
                ready.push(table[x].is_some());
                x = x + 1;
            }
            let mut picked: usize = 0;
            let mut j: usize = lo;
            while j < m && picked < workers
                invariant
                    p.wf(),
                    inputs@.len() == n,
                    workers >= 1,
                    n == p.n_inputs,
                    m == p.gates@.len(),
                    lo < m,
                    lo <= j <= m,
                    table@.len() == p.n_wires(),
                    ready@.len() == p.n_wires(),
                    forall|y: int| 0 <= y < n + m && #[trigger] ready@[y] ==> table@[y] is Some,
                    forall|q: int| 0 <= q < lo ==> #[trigger] ready@[n + q],
                    forall|q: int| 0 <= q < n ==> #[trigger] ready@[q],
                    j == lo ==> picked == 0,
                    j > lo ==> table@[n + lo] is Some,
                    forall|q: int| 0 <= q < n ==> #[trigger] table@[q] is Some,
                    e.is_clear() ==> forall|q: int|
                        0 <= q < n ==> #[trigger] slot_value(e, table@[q]) == e.bit_value(&inputs@[q]),
                    forall|q: int| 0 <= q < lo ==> #[trigger] table@[n + q] is Some,
                    forall|q: int| 0 <= q < m ==> #[trigger] p.slot_sound(e, table@, q),
                decreases m - j,
            {
                let g = p.gates[j];
                proof {
                    assert(p.gate_ok(j as int));
                    if j == lo {
                        if g.lhs >= n {
                            assert(ready@[n + (g.lhs - n)]);
                        }
                        if g.rhs >= n {
                            assert(ready@[n + (g.rhs - n)]);
                        }
                    }
                }
                if table[n + j].is_none() && ready[g.lhs] && ready[g.rhs] {
                    let v = match (&table[g.lhs], &table[g.rhs]) {
                        (Some(a), Some(b)) => match g.op {
                            GateOp::Xor => e.bit_xor(a, b),
                            GateOp::And => e.bit_and(a, b),
                            GateOp::Not => e.bit_not(a),
                        },
                        _ => {
                            proof {
                                assert(false);
                            }
                            e.bit_copy(&inputs[0])
                        },
                    };
                    let ghost old_table = table@;
                    table.set(n + j, Some(v));
                    proof {
                        assert forall|q: int| 0 <= q < m implies #[trigger] p.slot_sound(e, table@, q) by {
                            assert(p.slot_sound(e, old_table, q));
                            assert(p.gate_ok(q));
                        }
                        assert forall|y: int| 0 <= y < n + m && #[trigger] ready@[y] implies table@[y] is Some by {
                            assert(old_table[y] is Some);
                        }
                    }
                    picked = picked + 1;
                }
                j = j + 1;
            }
        }
        lo = lo + 1;
    }
    assert forall|j: int| 0 <= j < n + m implies #[trigger] table@[j] is Some by {
        if j >= n {
            assert(table@[n + (j - n)] is Some);
        }
    }
    let mut w: Vec<E::Bit> = Vec::new();
    let mut x: usize = 0;
    while x < n + m
        invariant
            n + m <= usize::MAX,
            table@.len() == n + m,
            x <= n + m,
            w@.len() == x,
            forall|j: int| 0 <= j < n + m ==> #[trigger] table@[j] is Some,
            e.is_clear() ==> forall|j: int|
                0 <= j < x ==> #[trigger] e.bit_value(&w@[j]) == slot_value(e, table@[j]),
        decreases n + m - x,
    {
        match &table[x] {
            Some(b) => {
                w.push(e.bit_copy(b));
            },
            None => {
                assert(false);
            },
        }
        x = x + 1;
    }
    proof {
        if e.is_clear() {
            let bw = bit_values(e, w@);
            assert(bw == slot_values(e, table@));
            assert(bw.subrange(0, n as int) =~= bit_values(e, inputs@));
            assert forall|k: int| 0 <= k < m implies #[trigger] p.gate_holds(bw, k) by {
                assert(p.slot_sound(e, table@, k));
                assert(table@[n + k] is Some);
                assert(p.gate_ok(k));
            }
        }
    }
    w
}

/// A wire table that fits the program and its inputs is unique: whatever
/// order the instructions were evaluated in, and by however many workers,
/// a table in which every instruction's result stands under its name holds
/// the same values.
pub proof fn lemma_wire_table_unique(p: &Program, inputs: Seq<bool>, w1: Seq<bool>, w2: Seq<bool>)
    requires
        p.wf(),
        p.consistent(inputs, w1),
        p.consistent(inputs, w2),
    ensures
        w1 == w2,
{
    assert forall|j: int| 0 <= j < w1.len() implies w1[j] == w2[j] by {
        lemma_wire_agrees(p, inputs, w1, w2, j);
    }
    assert(w1 =~= w2);
}

proof fn lemma_wire_agrees(p: &Program, inputs: Seq<bool>, w1: Seq<bool>, w2: Seq<bool>, j: int)
    requires
        p.wf(),
        p.consistent(inputs, w1),
        p.consistent(inputs, w2),
        0 <= j < w1.len(),
    ensures
        w1[j] == w2[j],
    decreases j,
{
    if j < p.n_inputs {
        assert(w1[j] == w1.subrange(0, p.n_inputs as int)[j]);
        assert(w2[j] == w2.subrange(0, p.n_inputs as int)[j]);
    } else {
        let k = j - p.n_inputs;
        assert(p.gate_ok(k));
        assert(p.gate_holds(w1, k));
        assert(p.gate_holds(w2, k));
        let g = p.gates@[k];
        lemma_wire_agrees(p, inputs, w1, w2, g.lhs as int);
        lemma_wire_agrees(p, inputs, w1, w2, g.rhs as int);
    }
}

} // verus!
