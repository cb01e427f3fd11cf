//! Secure erase: seven overwrites of the whole file, then its removal.
//!
//! The eraser names one step after another; the caller carries each out on
//! the open file. Overwriting in place is a best effort: it does not reach
//! copies that a copy-on-write or wear-levelling store keeps elsewhere.

use rand::Rng;
use vstd::prelude::*;
use vstd::string::*;

verus! {

/// Size of the buffer that is written again and again.
pub const ERASE_BUFFER_SIZE: usize = 65536;

/// Number of passes that write a fixed byte.
pub const FIXED_PASSES: usize = 6;

/// Number of passes in all: the fixed ones and a random one.
pub const ERASE_PASSES: usize = 7;

/// The byte that fills the file in each of the fixed passes.
pub open spec fn fixed_fill(pass: int) -> u8 {
    if pass == 0 {
        0xFF
    } else if pass == 1 {
        0x00
    } else if pass == 2 {
        0xAA
    } else if pass == 3 {
        0x55
    } else if pass == 4 {
        0xF0
    } else {
        0x0F
    }
}

pub fn fill_byte(pass: usize) -> (b: u8)
    requires
        pass < FIXED_PASSES,
    ensures
        b == fixed_fill(pass as int),
{
    if pass == 0 {
        0xFF
    } else if pass == 1 {
        0x00
    } else if pass == 2 {
        0xAA
    } else if pass == 3 {
        0x55
    } else if pass == 4 {
        0xF0
    } else {
        0x0F
    }
}

/// One step of an erase.
#[derive(Debug, Clone, Copy, PartialEq, Eq, Structural)]
pub enum EraseStep {
    /// Go back to the start of the file: pass `pass` begins.
    Rewind { pass: usize },
    /// Write the first `len` bytes of the buffer at the current position.
    Write { pass: usize, len: usize },
    /// Flush the file fully: pass `pass` is complete.
    Flush { pass: usize },
    /// Close the file, remove it and log the completion line.
    Unlink,
    /// Nothing is left to do.
    Done,
}

/// Where an erase stands within a pass.
#[derive(Debug, Clone, Copy, PartialEq, Eq, Structural)]
pub enum Stage {
    /// The pass has not begun.
    Start,
    /// So many bytes of the pass are still to be written.
    Writing { remaining: u64 },
    /// The file has been removed.
    Finished,
}

/// Length of the next chunk when `remaining` bytes are left to write.
pub open spec fn chunk_len(remaining: u64) -> usize {
    if remaining < ERASE_BUFFER_SIZE {
        remaining as usize
    } else {
        ERASE_BUFFER_SIZE
    }
}

/// The step that comes next when an erase of a file of `size` bytes stands
/// in pass `pass` at `stage`: a pass begins with a rewind, goes on with
/// writes while bytes are left, and ends with a flush; after the last pass
/// the file is removed.
pub open spec fn step_at(size: u64, pass: usize, stage: Stage) -> EraseStep {
    match stage {
        Stage::Finished => EraseStep::Done,
        Stage::Start => if pass >= ERASE_PASSES {
            EraseStep::Unlink
        } else {
            EraseStep::Rewind { pass }
        },
        Stage::Writing { remaining } => if pass >= ERASE_PASSES {
            EraseStep::Unlink
        } else if remaining > 0 {
            EraseStep::Write { pass, len: chunk_len(remaining) }
        } else {
            EraseStep::Flush { pass }
        },
    }
}

/// The pass in which the erase stands after its next step.
pub open spec fn pass_after(size: u64, pass: usize, stage: Stage) -> usize {
    if step_at(size, pass, stage) is Flush {
        (pass + 1) as usize
    } else {
        pass
    }
}

/// The stage at which the erase stands after its next step.
pub open spec fn stage_after(size: u64, pass: usize, stage: Stage) -> Stage {
    match step_at(size, pass, stage) {
        EraseStep::Rewind { .. } => Stage::Writing { remaining: size },
        EraseStep::Write { len, .. } => Stage::Writing {
            remaining: (stage->remaining - len) as u64,
        },
        EraseStep::Flush { .. } => Stage::Start,
        _ => Stage::Finished,
    }
}

/// The steps that are left when an erase of a file of `size` bytes stands
/// in pass `pass` at `stage`.
pub open spec fn steps_from(size: u64, pass: usize, stage: Stage) -> Seq<EraseStep>
    decreases
        ERASE_PASSES - pass,
        match stage {
            Stage::Start => size + 2,
            Stage::Writing { remaining } => remaining + 1,
            Stage::Finished => 0,
        },
{
    if stage is Finished {
        Seq::empty()
    } else {
        seq![step_at(size, pass, stage)] + steps_from(
            size,
            pass_after(size, pass, stage),
            stage_after(size, pass, stage),
        )
    }
}

/// All the steps of the erase of a file of `size` bytes.
pub open spec fn erase_script(size: u64) -> Seq<EraseStep> {
    steps_from(size, 0, Stage::Start)
}

/// Bytes that the steps write in pass `pass`.
pub open spec fn written_in_pass(steps: Seq<EraseStep>, pass: usize) -> nat
    decreases steps.len(),
{
    if steps.len() == 0 {
        0
    } else {
        written_in_pass(steps.drop_first(), pass) + match steps[0] {
            EraseStep::Write { pass: p, len } => if p == pass {
                len as nat
            } else {
                0
            },
            _ => 0,
        }
    }
}

/// The pass that a step belongs to; the removal comes after all passes.
pub open spec fn pass_of(step: EraseStep) -> int {
    match step {
        EraseStep::Rewind { pass } => pass as int,
        EraseStep::Write { pass, .. } => pass as int,
        EraseStep::Flush { pass } => pass as int,
        _ => ERASE_PASSES as int,
    }
}

/// What holds of the steps that are left from any point of an erase.
pub open spec fn rest_is_orderly(size: u64, pass: usize, stage: Stage) -> bool {
    let steps = steps_from(size, pass, stage);
    &&& steps.len() >= 1
    &&& steps.last() == EraseStep::Unlink
    &&& forall|i: int|
        0 <= i < steps.len() - 1 ==> pass <= pass_of(#[trigger] steps[i]) < ERASE_PASSES
    &&& forall|i: int, j: int|
        0 <= i <= j < steps.len() ==> pass_of(#[trigger] steps[i]) <= pass_of(#[trigger] steps[j])
    &&& forall|p: usize|
        written_in_pass(steps, p) == if p < pass || p >= ERASE_PASSES {
            0
        } else if p == pass {
            match stage {
                Stage::Writing { remaining } => remaining as nat,
                _ => size as nat,
            }
        } else {
            size as nat
        }
}

proof fn lemma_written_cons(step: EraseStep, rest: Seq<EraseStep>, p: usize)
    ensures
        written_in_pass(seq![step] + rest, p) == written_in_pass(rest, p) + match step {
            EraseStep::Write { pass, len } => if pass == p {
                len as nat
            } else {
                0
            },
            _ => 0,
        },
{
    assert((seq![step] + rest).drop_first() =~= rest);
}

proof fn lemma_rest_is_orderly(size: u64, pass: usize, stage: Stage)
    requires
        pass <= ERASE_PASSES,
        !(stage is Finished),
        stage matches Stage::Writing { remaining } ==> remaining <= size,
    ensures
        rest_is_orderly(size, pass, stage),
    decreases
        ERASE_PASSES - pass,
        match stage {
            Stage::Start => size + 2,
            Stage::Writing { remaining } => remaining + 1,
            Stage::Finished => 0,
        },
{
    let steps = steps_from(size, pass, stage);
    let head = step_at(size, pass, stage);
    let next_pass = pass_after(size, pass, stage);
    let next_stage = stage_after(size, pass, stage);
    let rest = steps_from(size, next_pass, next_stage);
    assert(steps == seq![head] + rest);
    if pass >= ERASE_PASSES {
        assert(rest =~= Seq::empty());
        assert(steps =~= seq![EraseStep::Unlink]);
        assert forall|p: usize| written_in_pass(steps, p) == 0 by {
            lemma_written_cons(EraseStep::Unlink, Seq::empty(), p);
        }
    } else {
        lemma_rest_is_orderly(size, next_pass, next_stage);
        assert(steps.last() == rest.last());
        assert forall|i: int| 0 <= i < steps.len() - 1 implies pass <= pass_of(
            #[trigger] steps[i],
        ) < ERASE_PASSES by {
            if i > 0 {
                assert(steps[i] == rest[i - 1]);
            }
        }
        assert forall|i: int, j: int| 0 <= i <= j < steps.len() implies pass_of(
            #[trigger] steps[i],
        ) <= pass_of(#[trigger] steps[j]) by {
            if i > 0 {
                assert(steps[i] == rest[i - 1]);
                assert(steps[j] == rest[j - 1]);
            } else if j > 0 {
                assert(steps[j] == rest[j - 1]);
                if j - 1 < rest.len() - 1 {
                    assert(next_pass <= pass_of(rest[j - 1]));
                }
            }
        }
        assert forall|p: usize|
            written_in_pass(steps, p) == if p < pass || p >= ERASE_PASSES {
                0
            } else if p == pass {
                match stage {
                    Stage::Writing { remaining } => remaining as nat,
                    _ => size as nat,
                }
            } else {
                size as nat
            } by {
            lemma_written_cons(head, rest, p);
        }
    }
}

/// An erase overwrites the whole file seven times and then removes it: in
/// each of the seven passes exactly as many bytes are written as the file
/// is long; the passes come one after another, in order; the removal is the
/// last step, and the only step that is no part of a pass. The first six
/// passes write `FF`, `00`, `AA`, `55`, `F0` and `0F`, in this order; the
/// seventh writes random bytes.
pub proof fn lemma_erase_is_seven_full_passes(size: u64)
    ensures
        ERASE_PASSES == FIXED_PASSES + 1,
        fixed_fill(0) == 0xFF && fixed_fill(1) == 0x00 && fixed_fill(2) == 0xAA && fixed_fill(3)
            == 0x55 && fixed_fill(4) == 0xF0 && fixed_fill(5) == 0x0F,
        forall|pass: usize|
            pass < ERASE_PASSES ==> written_in_pass(erase_script(size), pass) == size,
        forall|pass: usize|
            pass >= ERASE_PASSES ==> written_in_pass(erase_script(size), pass) == 0,
        erase_script(size).len() >= 1,
        erase_script(size).last() == EraseStep::Unlink,
        forall|i: int|
            0 <= i < erase_script(size).len() - 1 ==> 0 <= pass_of(#[trigger] erase_script(size)[i])
                < ERASE_PASSES,
        forall|i: int, j: int|
            0 <= i <= j < erase_script(size).len() ==> pass_of(#[trigger] erase_script(size)[i])
                <= pass_of(#[trigger] erase_script(size)[j]),
{
    lemma_rest_is_orderly(size, 0, Stage::Start);
    assert forall|pass: usize| pass < ERASE_PASSES implies written_in_pass(
        erase_script(size),
        pass,
    ) == size by {}
}

/// One byte from `rand::thread_rng()`, drawn with `Rng::gen_range` over the
/// whole range of a byte, which is never empty. Any byte may come out, so
/// nothing is claimed of it. The generator is seeded from the operating
/// system when a thread first draws from it; `rand` panics where that source
/// fails.
#[verifier::external_body]
fn random_byte() -> u8 {
    rand::thread_rng().gen_range(0..=255)
}

/// The erase of one file.
#[derive(Debug)]
pub struct Eraser {
    size: u64,
    pass: usize,
    stage: Stage,
    buffer: Vec<u8>,
}

impl Eraser {
    /// Length of the file.
    pub closed spec fn size(&self) -> u64 {
        self.size
    }

    /// The pass in work.
    pub closed spec fn pass(&self) -> usize {
        self.pass
    }

    pub closed spec fn stage(&self) -> Stage {
        self.stage
    }

    /// What the buffer holds.
    pub closed spec fn buffer_view(&self) -> Seq<u8> {
        self.buffer@
    }

    /// The steps that are left.
    pub open spec fn remaining_steps(&self) -> Seq<EraseStep> {
        steps_from(self.size(), self.pass(), self.stage())
    }

    /// The buffer has its full length; while a fixed pass is being written
    /// it holds nothing but the byte of that pass.
    #[verifier::type_invariant]
    closed spec fn well_formed(&self) -> bool {
        &&& self.buffer@.len() == ERASE_BUFFER_SIZE
        &&& self.pass <= ERASE_PASSES
        &&& self.stage matches Stage::Writing { remaining } ==> {
            &&& remaining <= self.size
            &&& self.pass < FIXED_PASSES ==> forall|i: int|
                0 <= i < ERASE_BUFFER_SIZE ==> self.buffer@[i] == fixed_fill(self.pass as int)
        }
    }

    /// Prepares the erase of a file of `file_size` bytes.
    pub fn new(file_size: u64) -> (e: Self)
        ensures
            e.size() == file_size,
            e.pass() == 0,
            e.stage() is Start,
            e.remaining_steps() == erase_script(file_size),
    {
        let mut buffer: Vec<u8> = Vec::new();
        let mut i: usize = 0;
        while i < ERASE_BUFFER_SIZE
            invariant
                i <= ERASE_BUFFER_SIZE,
                buffer.len() == i,
            decreases ERASE_BUFFER_SIZE - i,
        {
            buffer.push(0);
            i += 1;
        }
        Eraser { size: file_size, pass: 0, stage: Stage::Start, buffer }
    }

    /// The bytes to write: a `Write` step writes the first `len` of them.
    pub fn buffer(&self) -> (b: &Vec<u8>)
        ensures
            b@ == self.buffer_view(),
            b@.len() == ERASE_BUFFER_SIZE,
    {
        proof {
            use_type_invariant(self);
        }
        &self.buffer
    }

    /// The next step is a write of the random pass: it takes a fresh block
    /// of random bytes.
    pub open spec fn wants_block(&self) -> bool {
        step_at(self.size(), self.pass(), self.stage()) matches EraseStep::Write { pass, .. }
            && pass >= FIXED_PASSES
    }

    /// Whether the next step takes a fresh block of random bytes.
    pub fn needs_block(&self) -> (r: bool)
        ensures
            r == self.wants_block(),
    {
        match self.stage {
            Stage::Writing { remaining } => remaining > 0 && self.pass >= FIXED_PASSES
                && self.pass < ERASE_PASSES,
            _ => false,
        }
    }

    /// Names the next step and moves on. A write of the random pass writes
    /// `block`, and every such write is given a block of its own; any other
    /// step leaves `block` aside. A write of a fixed pass writes the byte of
    /// that pass and nothing else.
    pub fn step_with(&mut self, block: Vec<u8>) -> (step: EraseStep)
        requires
            old(self).wants_block() ==> block@.len() == ERASE_BUFFER_SIZE,
        ensures
            final(self).size() == old(self).size(),
            step == step_at(old(self).size(), old(self).pass(), old(self).stage()),
            final(self).pass() == pass_after(old(self).size(), old(self).pass(), old(self).stage()),
            final(self).stage() == stage_after(
                old(self).size(),
                old(self).pass(),
                old(self).stage(),
            ),
            !(old(self).stage() is Finished) ==> old(self).remaining_steps() == seq![step]
                + final(self).remaining_steps(),
            step matches EraseStep::Write { pass, len } ==> {
                &&& len <= ERASE_BUFFER_SIZE
                &&& pass >= FIXED_PASSES ==> final(self).buffer_view() == block@
                &&& pass < FIXED_PASSES ==> final(self).buffer_view() == old(self).buffer_view()
                &&& pass < FIXED_PASSES ==> forall|i: int|
                    0 <= i < ERASE_BUFFER_SIZE ==> final(self).buffer_view()[i] == fixed_fill(
                        pass as int,
                    )
            },
    {
        proof {
            use_type_invariant(&*self);
        }
        match self.stage {
            Stage::Finished => EraseStep::Done,
            Stage::Start => {
                if self.pass >= ERASE_PASSES {
                    self.stage = Stage::Finished;
                    EraseStep::Unlink
                } else {
                    if self.pass < FIXED_PASSES {
                        self.buffer = fixed_block(self.pass);
                    }
                    self.stage = Stage::Writing { remaining: self.size };
                    EraseStep::Rewind { pass: self.pass }
                }
            },
            Stage::Writing { remaining } => {
                if self.pass >= ERASE_PASSES {
                    self.stage = Stage::Finished;
                    EraseStep::Unlink
                } else if remaining > 0 {
                    let len: usize = if remaining < ERASE_BUFFER_SIZE as u64 {
                        remaining as usize
                    } else {
                        ERASE_BUFFER_SIZE
                    };
                    if self.pass >= FIXED_PASSES {
                        self.buffer = block;
                    }
                    self.stage = Stage::Writing { remaining: remaining - len as u64 };
                    EraseStep::Write { pass: self.pass, len }
                } else {
                    let pass = self.pass;
                    self.stage = Stage::Start;
                    self.pass = pass + 1;
                    EraseStep::Flush { pass }
                }
            },
        }
    }

    /// Names the next step and moves on, and draws the random block itself
    /// where the step takes one: see [`Eraser::step_with`]. Of what a write
    /// of the random pass writes nothing is known, but that a block was
    /// drawn for this write alone.
    pub fn next_step(&mut self) -> (step: EraseStep)
        ensures
            final(self).size() == old(self).size(),
            step == step_at(old(self).size(), old(self).pass(), old(self).stage()),
            final(self).pass() == pass_after(old(self).size(), old(self).pass(), old(self).stage()),
            final(self).stage() == stage_after(
                old(self).size(),
                old(self).pass(),
                old(self).stage(),
            ),
            !(old(self).stage() is Finished) ==> old(self).remaining_steps() == seq![step]
                + final(self).remaining_steps(),
            step matches EraseStep::Write { pass, len } ==> {
                &&& len <= ERASE_BUFFER_SIZE
                &&& pass < FIXED_PASSES ==> final(self).buffer_view() == old(self).buffer_view()
                &&& pass < FIXED_PASSES ==> forall|i: int|
                    0 <= i < ERASE_BUFFER_SIZE ==> final(self).buffer_view()[i] == fixed_fill(
                        pass as int,
                    )
            },
    {
        if self.needs_block() {
            let block = random_block();
            self.step_with(block)
        } else {
            self.step_with(Vec::new())
        }
    }
}

/// A block that holds nothing but the byte of a fixed pass.
fn fixed_block(pass: usize) -> (block: Vec<u8>)
    requires
        pass < FIXED_PASSES,
    ensures
        block@.len() == ERASE_BUFFER_SIZE,
        forall|i: int| 0 <= i < ERASE_BUFFER_SIZE ==> block@[i] == fixed_fill(pass as int),
{
    let byte = fill_byte(pass);
    let mut block: Vec<u8> = Vec::new();
    let mut i: usize = 0;
    while i < ERASE_BUFFER_SIZE
        invariant
            i <= ERASE_BUFFER_SIZE,
            block@.len() == i,
            byte == fixed_fill(pass as int),
            forall|j: int| 0 <= j < i ==> block@[j] == byte,
        decreases ERASE_BUFFER_SIZE - i,
    {
        block.push(byte);
        i += 1;
    }
    block
}

/// A block of the size of the buffer in which every byte is drawn anew
/// from the random generator.
pub fn random_block() -> (block: Vec<u8>)
    ensures
        block@.len() == ERASE_BUFFER_SIZE,
{
    let mut block: Vec<u8> = Vec::new();
    let mut i: usize = 0;
    while i < ERASE_BUFFER_SIZE
        invariant
            i <= ERASE_BUFFER_SIZE,
            block@.len() == i,
        decreases ERASE_BUFFER_SIZE - i,
    {
        block.push(random_byte());
        i += 1;
    }
    block
}

/// The line that reports a file erased and removed. It names the path and
/// nothing of the content.
pub fn erased_line(path: &str) -> (line: String)
    ensures
        line@ == "Securely deleted file: "@ + path@,
{
    let mut line = String::from_str("Securely deleted file: ");
    line.append(path);
    line
}

/// The line that reports a directory removed after its files were erased.
pub fn removed_directory_line(dir: &str) -> (line: String)
    ensures
        line@ == "Removed directory after secure file deletion: "@ + dir@,
{
    let mut line = String::from_str("Removed directory after secure file deletion: ");
    line.append(dir);
    line
}

/// What the secure removal of a directory does with one of its entries.
#[derive(Debug, Clone, Copy, PartialEq, Eq, Structural)]
pub enum EraseEntry {
    /// Remove the directory below, in the same way, first.
    Descend,
    /// Erase the file.
    Erase,
}

/// A directory is emptied depth first; whatever is no directory is erased
/// as a file. The directory itself is removed once all its entries are gone.
pub fn erase_entry(is_directory: bool) -> (e: EraseEntry)
    ensures
        e == if is_directory {
            EraseEntry::Descend
        } else {
            EraseEntry::Erase
        },
{
    if is_directory {
        EraseEntry::Descend
    } else {
        EraseEntry::Erase
    }
}

} // verus!
