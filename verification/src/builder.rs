//! The instruction builder: a function under construction and the block at
//! whose end the next operation goes.

use vstd::prelude::*;
use vstd::string::StringExecFns;
use crate::target::{
    TargetBlock, TargetBlockView, TargetFunction, TargetFunctionView, TargetInst, TargetInstView,
    TargetValue, TargetValueView,
};

verus! {

/// The character of one decimal digit.
pub open spec fn digit_char(d: nat) -> char {
    if d == 0 {
        '0'
    } else if d == 1 {
        '1'
    } else if d == 2 {
        '2'
    } else if d == 3 {
        '3'
    } else if d == 4 {
        '4'
    } else if d == 5 {
        '5'
    } else if d == 6 {
        '6'
    } else if d == 7 {
        '7'
    } else if d == 8 {
        '8'
    } else {
        '9'
    }
}

/// A number in decimal, without leading zeros.
pub open spec fn decimal(n: nat) -> Seq<char>
    decreases n,
{
    if n < 10 {
        seq![digit_char(n)]
    } else {
        decimal(n / 10).push(digit_char(n % 10))
    }
}

/// The label of the block at a position: `bb` and the position in decimal.
pub open spec fn block_label_text(index: nat) -> Seq<char> {
    "bb"@ + decimal(index)
}

fn digit_str(d: usize) -> (text: &'static str)
    requires
        d < 10,
    ensures
        text@ == seq![digit_char(d as nat)],
{
    proof {
        reveal_strlit("0");
        reveal_strlit("1");
        reveal_strlit("2");
        reveal_strlit("3");
        reveal_strlit("4");
        reveal_strlit("5");
        reveal_strlit("6");
        reveal_strlit("7");
        reveal_strlit("8");
        reveal_strlit("9");
    }
    let text = if d == 0 {
        "0"
    } else if d == 1 {
        "1"
    } else if d == 2 {
        "2"
    } else if d == 3 {
        "3"
    } else if d == 4 {
        "4"
    } else if d == 5 {
        "5"
    } else if d == 6 {
        "6"
    } else if d == 7 {
        "7"
    } else if d == 8 {
        "8"
    } else {
        "9"
    };
    assert(text@ =~= seq![digit_char(d as nat)]);
    text
}

/// Appends a number in decimal to a text.
pub fn append_decimal(text: &mut String, n: usize)
    ensures
        final(text)@ == old(text)@ + decimal(n as nat),
    decreases n,
{
    if n >= 10 {
        append_decimal(text, n / 10);
    }
    text.append(digit_str(n % 10));
    assert(final(text)@ =~= old(text)@ + decimal(n as nat));
}

/// The label of the block at a position.
pub fn block_label(index: usize) -> (label: String)
    ensures
        label@ == block_label_text(index as nat),
{
    let mut label = String::from_str("bb");
    append_decimal(&mut label, index);
    label
}

/// The blocks of a function before any instruction is translated: one per
/// position, labelled, empty.
pub open spec fn empty_blocks(count: nat) -> Seq<TargetBlockView> {
    Seq::new(
        count,
        |i: int| TargetBlockView { label: block_label_text(i as nat), insts: Seq::empty() },
    )
}

/// Makes the blocks of a function, all empty, so that a jump can name a
/// block before the block's own instructions are translated.
pub fn create_blocks(count: usize) -> (blocks: Vec<TargetBlock>)
    ensures
        blocks@.map_values(|b: TargetBlock| b@) == empty_blocks(count as nat),
{
    let mut blocks: Vec<TargetBlock> = Vec::new();
    let mut i: usize = 0;
    while i < count
        invariant
            i <= count,
            blocks@.len() == i,
            forall|j: int| 0 <= j < i ==> (#[trigger] blocks@[j])@ == empty_blocks(count as nat)[j],
        decreases count - i,
    {
        let block = TargetBlock { label: block_label(i), insts: Vec::new() };
        assert(block@.insts =~= Seq::empty());
        blocks.push(block);
        i = i + 1;
    }
    assert(blocks@.map_values(|b: TargetBlock| b@) =~= empty_blocks(count as nat));
    blocks
}

/// What a [`Builder`] is, as a mathematical value.
pub struct BuilderView {
    pub function: TargetFunctionView,
    pub position: nat,
}

impl BuilderView {
    /// The builder stands at a block of its function.
    pub open spec fn wf(self) -> bool {
        self.position < self.function.blocks.len()
    }

    /// The value that the next operation gives: the result of the
    /// instruction that will stand at the end of the current block.
    pub open spec fn here(self) -> TargetValueView {
        TargetValueView::Inst {
            block: self.position,
            index: self.function.blocks[self.position as int].insts.len(),
        }
    }

    /// The builder after one more operation at the end of the current block.
    pub open spec fn emit(self, inst: TargetInstView) -> BuilderView {
        let block = self.function.blocks[self.position as int];
        BuilderView {
            function: TargetFunctionView {
                blocks: self.function.blocks.update(
                    self.position as int,
                    TargetBlockView { insts: block.insts.push(inst), ..block },
                ),
                ..self.function
            },
            ..self
        }
    }

    /// The builder moved to the end of another block.
    pub open spec fn at(self, block: nat) -> BuilderView {
        BuilderView { position: block, ..self }
    }
}

/// A function under construction and an insertion point in it. The insertion
/// point is always the end of one of the function's blocks.
pub struct Builder {
    function: TargetFunction,
    position: usize,
}

impl View for Builder {
    type V = BuilderView;

    closed spec fn view(&self) -> BuilderView {
        BuilderView { function: self.function@, position: self.position as nat }
    }
}

impl Builder {
    #[verifier::type_invariant]
    spec fn positioned(self) -> bool {
        self.position < self.function.blocks@.len()
    }

    /// Takes a function and stands at the end of one of its blocks. Where the
    /// function has no such block there is no builder, and the function comes
    /// back as it was.
    pub fn position_at_end(function: TargetFunction, block: usize) -> (builder: Result<
        Builder,
        TargetFunction,
    >)
        ensures
            builder is Ok <==> block < function@.blocks.len(),
            builder matches Ok(b) ==> b@ == (BuilderView {
                function: function@,
                position: block as nat,
            }),
            builder matches Err(f) ==> f == function,
    {
        if block < function.blocks.len() {
            Ok(Builder { function, position: block })
        } else {
            Err(function)
        }
    }

    /// Moves to the end of another block. Stays where it is, and says so,
    /// where the function has no such block.
    pub fn reposition(&mut self, block: usize) -> (moved: bool)
        ensures
            moved <==> block < old(self)@.function.blocks.len(),
            moved ==> final(self)@ == old(self)@.at(block as nat),
            !moved ==> final(self)@ == old(self)@,
            final(self)@.wf(),
    {
        proof {
            use_type_invariant(&*self);
        }
        if block < self.function.blocks.len() {
            self.position = block;
            true
        } else {
            false
        }
    }

    /// Puts one operation at the end of the current block and hands back the
    /// value that stands for its result.
    pub fn emit(&mut self, inst: TargetInst) -> (result: TargetValue)
        ensures
            old(self)@.wf(),
            final(self)@.wf(),
            result@ == old(self)@.here(),
            final(self)@ == old(self)@.emit(inst@),
    {
        proof {
            use_type_invariant(&*self);
        }
        let block: usize = self.position;
        let index: usize = self.function.blocks[block].insts.len();
        self.function.blocks[block].insts.push(inst);
        proof {
            assert(final(self)@.function.blocks =~= old(self)@.emit(inst@).function.blocks) by {
                assert(self.function.blocks@[block as int]@.insts =~= old(
                    self,
                ).function.blocks@[block as int]@.insts.push(inst@));
            }
        }
        TargetValue::Inst { block, index }
    }

    /// The block at whose end the builder stands.
    pub fn position(&self) -> (block: usize)
        ensures
            block == self@.position,
            self@.wf(),
    {
        proof {
            use_type_invariant(self);
        }
        self.position
    }

    /// Gives up the function as built so far.
    pub fn finish(self) -> (function: TargetFunction)
        ensures
            function@ == self@.function,
    {
        self.function
    }
}

} // verus!
