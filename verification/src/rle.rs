//! The lines of a chunk of code in run-length form: for each run of
//! instructions of one line, how far the line lies behind that of the run
//! before, and how many instructions the run has.

use vstd::prelude::*;

verus! {

#[derive(Clone, Copy, Debug, PartialEq, Eq, Structural)]
pub enum MarshalError {
    /// Invalid bytecode
    InvalidBytecode,
    InvalidPrecedence,
}

#[derive(Clone, Copy, Debug, PartialEq, Eq, Structural)]
pub enum OpCode {
    Constant,
    Negate,
    Add,
    Sub,
    Mul,
    Div,
    Return,
}

impl OpCode {
    /// The byte of the operation.
    pub open spec fn byte(self) -> u8 {
        match self {
            OpCode::Constant => 0,
            OpCode::Negate => 1,
            OpCode::Add => 2,
            OpCode::Sub => 3,
            OpCode::Mul => 4,
            OpCode::Div => 5,
            OpCode::Return => 6,
        }
    }

    pub fn into_byte(self) -> (b: u8)
        ensures
            b == self.byte(),
    {
        match self {
            OpCode::Constant => 0,
            OpCode::Negate => 1,
            OpCode::Add => 2,
            OpCode::Sub => 3,
            OpCode::Mul => 4,
            OpCode::Div => 5,
            OpCode::Return => 6,
        }
    }

    /// The operation of the byte `value`; a byte that is that of no
    /// operation is invalid bytecode.
    pub fn try_from_byte(value: u8) -> (r: Result<OpCode, MarshalError>)
        ensures
            match r {
                Ok(op) => op.byte() == value,
                Err(e) => e == MarshalError::InvalidBytecode && value > 6,
            },
    {
        match value {
            0 => Ok(OpCode::Constant),
            1 => Ok(OpCode::Negate),
            2 => Ok(OpCode::Add),
            3 => Ok(OpCode::Sub),
            4 => Ok(OpCode::Mul),
            5 => Ok(OpCode::Div),
            6 => Ok(OpCode::Return),
            _ => Err(MarshalError::InvalidBytecode),
        }
    }
}

pub struct RleArr {
    pub base_ln: usize,
    pub curr_ln: usize,
    pub deltas: Vec<u8>,
    pub counts: Vec<u8>,
}

/// The sum of the first `n` bytes of `bytes`.
pub open spec fn sum_upto(bytes: Seq<u8>, n: int) -> int
    decreases n,
{
    if n <= 0 || n > bytes.len() {
        0
    } else {
        sum_upto(bytes, n - 1) + bytes[n - 1]
    }
}

/// The index from `from` on of the first run that reaches behind the
/// instruction `offset`; the number of runs where there is none.
pub open spec fn run_of(counts: Seq<u8>, offset: int, from: int) -> int
    decreases counts.len() - from,
{
    if from < 0 || from >= counts.len() {
        counts.len() as int
    } else if offset < sum_upto(counts, from + 1) {
        from
    } else {
        run_of(counts, offset, from + 1)
    }
}

impl RleArr {
    /// Every run has its delta and its count, and no line number
    /// overflows.
    pub open spec fn well_formed(&self) -> bool {
        &&& self.deltas.len() == self.counts.len()
        &&& self.base_ln + 255 * self.deltas.len() <= usize::MAX
        &&& self.curr_ln < usize::MAX
    }

    /// The line of the instruction `offset`: the base line and the deltas
    /// up to the run of the instruction; the base line for an instruction
    /// behind the last run.
    pub open spec fn line_of(&self, offset: int) -> int {
        let run = run_of(self.counts@, offset, 0);
        if run < self.counts.len() {
            self.base_ln + sum_upto(self.deltas@, run + 1)
        } else {
            self.base_ln as int
        }
    }

    pub fn new() -> (rle: Self)
        ensures
            rle.well_formed(),
            rle.base_ln == 0,
            rle.curr_ln == 0,
            rle.deltas@ == Seq::<u8>::empty(),
            rle.counts@ == Seq::<u8>::empty(),
    {
        Self { base_ln: 0, curr_ln: 0, deltas: Vec::new(), counts: Vec::new() }
    }

    /// Increases the count of the last run: one more instruction on the
    /// line of the one before.
    pub fn incr_count(&mut self)
        requires
            old(self).counts.len() > 0 ==> old(self).counts@.last() < 255,
        ensures
            final(self).base_ln == old(self).base_ln,
            final(self).curr_ln == old(self).curr_ln,
            final(self).deltas == old(self).deltas,
            old(self).counts.len() == 0 ==> final(self).counts@ == old(self).counts@,
            old(self).counts.len() > 0 ==> final(self).counts@ == old(self).counts@.update(
                old(self).counts.len() - 1,
                (old(self).counts@.last() + 1) as u8,
            ),
    {
        let n = self.counts.len();
        if n > 0 {
            let count = self.counts[n - 1];
            self.counts[n - 1] = count + 1;
        }
    }

    /// Increases the delta of the last run, or starts a run where there is
    /// none: the line moves on by one.
    pub fn incr_delta(&mut self)
        requires
            old(self).well_formed(),
            old(self).deltas.len() > 0 ==> old(self).deltas@.last() < 255,
            old(self).curr_ln + 2 < usize::MAX,
            old(self).base_ln + 255 * (old(self).deltas.len() + 1) <= usize::MAX,
        ensures
            final(self).well_formed(),
            final(self).base_ln == old(self).base_ln,
            old(self).deltas.len() > 0 ==> {
                &&& final(self).curr_ln == old(self).curr_ln + 1
                &&& final(self).counts == old(self).counts
                &&& final(self).deltas@ == old(self).deltas@.update(
                    old(self).deltas.len() - 1,
                    (old(self).deltas@.last() + 1) as u8,
                )
            },
            old(self).deltas.len() == 0 ==> {
                &&& final(self).curr_ln == old(self).curr_ln + 2
                &&& final(self).counts@ == seq![1u8]
                &&& final(self).deltas@ == seq![1u8]
            },
    {
        let n = self.deltas.len();
        if n > 0 {
            let delta = self.deltas[n - 1];
            self.deltas[n - 1] = delta + 1;
        } else {
            self.add_rle();
        }
        self.curr_ln += 1;
    }

    /// Starts a run on the next line with one instruction.
    pub fn add_rle(&mut self)
        requires
            old(self).well_formed(),
            old(self).curr_ln + 1 < usize::MAX,
            old(self).base_ln + 255 * (old(self).deltas.len() + 1) <= usize::MAX,
        ensures
            final(self).well_formed(),
            final(self).base_ln == old(self).base_ln,
            final(self).curr_ln == old(self).curr_ln + 1,
            final(self).deltas@ == old(self).deltas@.push(1),
            final(self).counts@ == old(self).counts@.push(1),
    {
        self.deltas.push(1);
        self.counts.push(1);
        self.curr_ln += 1;
    }

    /// The line of the instruction `offset`.
    pub fn get_ln(&self, offset: usize) -> (line: usize)
        requires
            self.well_formed(),
        ensures
            line == self.line_of(offset as int),
    {
        let mut delta_acc: usize = 0;
        let mut count_acc: usize = 0;
        let mut i: usize = 0;
        while i < self.deltas.len()
            invariant
                self.well_formed(),
                i <= self.deltas.len(),
                delta_acc == sum_upto(self.deltas@, i as int),
                count_acc == sum_upto(self.counts@, i as int),
                delta_acc <= 255 * i,
                count_acc <= 255 * i,
                run_of(self.counts@, offset as int, 0) == run_of(self.counts@, offset as int, i as int),
            decreases self.deltas.len() - i,
        {
            delta_acc += self.deltas[i] as usize;
            count_acc += self.counts[i] as usize;
            if offset < count_acc {
                return self.base_ln + delta_acc;
            }
            i += 1;
        }
        self.base_ln
    }
}

} // verus!
